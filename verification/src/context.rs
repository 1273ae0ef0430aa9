//! The binding state of the GPU context, kept in step with the calls issued.

use vstd::prelude::*;
use crate::codes::{ARRAY_BUFFER, TEXTURE0, TEXTURE_2D};
use crate::gpu::{view_all, CallView, GpuCall};
use crate::handle::Handle;

verus! {

/// What is bound in the GPU context once every call issued so far has run.
#[derive(Clone, Copy, Debug, PartialEq, Eq)]
pub struct RenderContext {
    /// The vertex array object drawn from.
    pub vertex_array: Option<Handle>,
    /// The buffer on the vertex attribute binding point.
    pub array_buffer: Option<Handle>,
    /// The program that draw calls run.
    pub program: Option<Handle>,
    /// The texture unit that texture calls address.
    pub active_unit: u32,
    /// The two-dimensional texture of the first unit.
    pub first_unit_texture: Option<Handle>,
}

impl RenderContext {
    /// A fresh context: nothing bound, the first texture unit active.
    pub open spec fn fresh() -> RenderContext {
        RenderContext {
            vertex_array: None,
            array_buffer: None,
            program: None,
            active_unit: TEXTURE0,
            first_unit_texture: None,
        }
    }

    /// The bindings once `call` has run.
    pub open spec fn after(self, call: CallView) -> RenderContext {
        match call {
            CallView::UseProgram { current } => RenderContext { program: current, ..self },
            CallView::BindVertexArray { vertex_array } => RenderContext { vertex_array, ..self },
            CallView::BindBuffer { target, buffer } => if target == ARRAY_BUFFER {
                RenderContext { array_buffer: buffer, ..self }
            } else {
                self
            },
            CallView::ActiveTexture { unit } => RenderContext { active_unit: unit, ..self },
            CallView::BindTexture { target, texture } => if target == TEXTURE_2D
                && self.active_unit == TEXTURE0 {
                RenderContext { first_unit_texture: texture, ..self }
            } else {
                self
            },
            _ => self,
        }
    }

    /// The bindings once every call of `calls` has run, in order.
    pub open spec fn after_all(self, calls: Seq<CallView>) -> RenderContext
        decreases calls.len(),
    {
        if calls.len() == 0 {
            self
        } else {
            self.after_all(calls.drop_last()).after(calls.last())
        }
    }

    /// Whether `call` leaves every binding as it is, whatever is bound.
    pub open spec fn untouched_by(call: CallView) -> bool {
        !(call is UseProgram || call is BindVertexArray || call is BindBuffer
            || call is ActiveTexture || call is BindTexture)
    }

    /// The context as the driver makes it.
    pub fn new() -> (r: RenderContext)
        ensures
            r == RenderContext::fresh(),
    {
        RenderContext {
            vertex_array: None,
            array_buffer: None,
            program: None,
            active_unit: TEXTURE0,
            first_unit_texture: None,
        }
    }

    /// Takes note of one call.
    pub fn record(&mut self, call: &GpuCall)
        ensures
            *final(self) == old(self).after(call@),
    {
        match call {
            GpuCall::UseProgram { current } => {
                self.program = *current;
            },
            GpuCall::BindVertexArray { vertex_array } => {
                self.vertex_array = *vertex_array;
            },
            GpuCall::BindBuffer { target, buffer } => {
                if *target == ARRAY_BUFFER {
                    self.array_buffer = *buffer;
                }
            },
            GpuCall::ActiveTexture { unit } => {
                self.active_unit = *unit;
            },
            GpuCall::BindTexture { target, texture } => {
                if *target == TEXTURE_2D && self.active_unit == TEXTURE0 {
                    self.first_unit_texture = *texture;
                }
            },
            _ => {},
        }
    }

    /// Takes note of a batch of calls, first to last.
    pub fn record_all(&mut self, calls: &Vec<GpuCall>)
        ensures
            *final(self) == old(self).after_all(view_all(calls@)),
    {
        let mut i: usize = 0;
        while i < calls.len()
            invariant
                i <= calls.len(),
                *self == old(self).after_all(view_all(calls@).take(i as int)),
            decreases calls.len() - i,
        {
            self.record(&calls[i]);
            proof {
                let views = view_all(calls@);
                assert(views.take(i + 1).drop_last() =~= views.take(i as int));
                assert(views.take(i + 1).last() == calls[i as int]@);
            }
            i += 1;
        }
        proof {
            assert(view_all(calls@).take(i as int) =~= view_all(calls@));
        }
    }
}

/// Viewing a batch with one more call is viewing the batch, then the call.
pub proof fn lemma_view_all_push(calls: Seq<GpuCall>, call: GpuCall)
    ensures
        view_all(calls.push(call)) == view_all(calls).push(call@),
{
    assert(view_all(calls.push(call)) =~= view_all(calls).push(call@));
}

/// Viewing two batches joined is joining their views.
pub proof fn lemma_view_all_concat(first: Seq<GpuCall>, second: Seq<GpuCall>)
    ensures
        view_all(first + second) == view_all(first) + view_all(second),
{
    assert(view_all(first + second) =~= view_all(first) + view_all(second));
}

/// Running a batch with one more call is running the batch, then the call.
pub proof fn lemma_after_all_push(ctx: RenderContext, calls: Seq<CallView>, call: CallView)
    ensures
        ctx.after_all(calls.push(call)) == ctx.after_all(calls).after(call),
{
    assert(calls.push(call).drop_last() =~= calls);
}

/// Running two batches one after the other is running their concatenation.
pub proof fn lemma_after_all_concat(ctx: RenderContext, first: Seq<CallView>, second: Seq<CallView>)
    ensures
        ctx.after_all(first + second) == ctx.after_all(first).after_all(second),
    decreases second.len(),
{
    if second.len() == 0 {
        assert(first + second =~= first);
    } else {
        lemma_after_all_concat(ctx, first, second.drop_last());
        assert((first + second).drop_last() =~= first + second.drop_last());
        assert((first + second).last() == second.last());
    }
}

/// A batch of calls that touch no binding leaves the context as it was.
pub proof fn lemma_untouched(ctx: RenderContext, calls: Seq<CallView>)
    requires
        forall|i: int| 0 <= i < calls.len() ==> RenderContext::untouched_by(#[trigger] calls[i]),
    ensures
        ctx.after_all(calls) == ctx,
    decreases calls.len(),
{
    if calls.len() > 0 {
        lemma_untouched(ctx, calls.drop_last());
    }
}

/// Adds `call` to the batch under construction and takes note of it.
pub(crate) fn issue(
    ctx: &mut RenderContext,
    calls: &mut Vec<GpuCall>,
    call: GpuCall,
    Ghost(base): Ghost<RenderContext>,
)
    requires
        *old(ctx) == base.after_all(view_all(old(calls)@)),
    ensures
        final(calls)@ == old(calls)@.push(call),
        view_all(final(calls)@) == view_all(old(calls)@).push(call@),
        *final(ctx) == old(ctx).after(call@),
        *final(ctx) == base.after_all(view_all(final(calls)@)),
{
    proof {
        lemma_view_all_push(calls@, call);
        assert(view_all(calls@).push(call@).drop_last() =~= view_all(calls@));
    }
    ctx.record(&call);
    calls.push(call);
}

/// Joins two batches issued one after the other into one.
pub(crate) fn chain(
    ctx: &RenderContext,
    first: Vec<GpuCall>,
    second: Vec<GpuCall>,
    Ghost(base): Ghost<RenderContext>,
) -> (calls: Vec<GpuCall>)
    requires
        *ctx == base.after_all(view_all(first@)).after_all(view_all(second@)),
    ensures
        view_all(calls@) == view_all(first@) + view_all(second@),
        *ctx == base.after_all(view_all(calls@)),
{
    let mut calls = first;
    let mut second = second;
    proof {
        lemma_view_all_concat(first@, second@);
        lemma_after_all_concat(base, view_all(first@), view_all(second@));
    }
    calls.append(&mut second);
    calls
}

} // verus!
