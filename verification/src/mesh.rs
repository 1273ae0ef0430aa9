//! Vertex data: how a vertex is laid out, the mesh that holds the vertices,
//! and the upload that makes a vertex array object describe the mesh.

use vstd::prelude::*;
use crate::codes::{ARRAY_BUFFER, FLOAT, STATIC_DRAW};
use crate::context::{
    issue, lemma_after_all_concat, lemma_after_all_push, lemma_untouched, RenderContext,
};
use crate::error::{result_view, ErrorView, RenderError};
use crate::gpu::{view_all, CallView, GpuCall, GpuReply, Planned, ReplyView, Turn};
use crate::handle::Handle;

verus! {

/// One vertex attribute: the shader input it feeds, how many floats it has,
/// and where it starts within a vertex.
#[derive(Clone, Copy, Debug, PartialEq, Eq)]
pub struct AttributeDescriptor {
    /// The shader input the attribute feeds.
    pub location: u32,
    /// The floats the attribute has: two or three.
    pub component_count: u32,
    /// Where the attribute starts within a vertex.
    pub offset_bytes: u32,
}

impl AttributeDescriptor {
    /// The bytes the attribute takes: four for each component.
    pub open spec fn size_bytes(self) -> int {
        self.component_count * 4
    }

    /// The first byte after the attribute.
    pub open spec fn end_bytes(self) -> int {
        self.offset_bytes + self.size_bytes()
    }

    /// Two or three components, at an offset the driver's signed argument
    /// can hold.
    pub open spec fn well_formed(self) -> bool {
        &&& self.component_count == 2 || self.component_count == 3
        &&& self.offset_bytes <= i32::MAX
    }

    /// Whether the two attributes share a byte.
    pub open spec fn overlaps(self, other: AttributeDescriptor) -> bool {
        self.offset_bytes < other.end_bytes() && other.offset_bytes < self.end_bytes()
    }

    fn is_well_formed(&self) -> (r: bool)
        ensures
            r == self.well_formed(),
    {
        (self.component_count == 2 || self.component_count == 3) && self.offset_bytes
            <= 0x7FFF_FFFF
    }

    fn shares_bytes_with(&self, other: &AttributeDescriptor) -> (r: bool)
        requires
            self.well_formed(),
            other.well_formed(),
        ensures
            r == self.overlaps(*other),
    {
        let self_end: u64 = self.offset_bytes as u64 + 4 * (self.component_count as u64);
        let other_end: u64 = other.offset_bytes as u64 + 4 * (other.component_count as u64);
        (self.offset_bytes as u64) < other_end && (other.offset_bytes as u64) < self_end
    }
}

/// The bytes that the attributes take together.
pub open spec fn total_bytes(attributes: Seq<AttributeDescriptor>) -> int
    decreases attributes.len(),
{
    if attributes.len() == 0 {
        0
    } else {
        total_bytes(attributes.drop_last()) + attributes.last().size_bytes()
    }
}

/// What makes a layout: every attribute is well formed, the stride is the
/// sum of the attributes' sizes and fits the driver's signed argument, and no
/// two attributes overlap.
pub open spec fn valid_layout(attributes: Seq<AttributeDescriptor>, stride_bytes: u32) -> bool {
    &&& forall|i: int| 0 <= i < attributes.len() ==> (#[trigger] attributes[i]).well_formed()
    &&& total_bytes(attributes) == stride_bytes
    &&& stride_bytes <= i32::MAX
    &&& forall|i: int, j: int|
        0 <= i < j < attributes.len() ==> !(#[trigger] attributes[i]).overlaps(
            #[trigger] attributes[j],
        )
}

/// A longer run of attributes takes no fewer bytes.
pub proof fn lemma_total_bytes_grows(attributes: Seq<AttributeDescriptor>, count: int)
    requires
        0 <= count <= attributes.len(),
    ensures
        total_bytes(attributes.take(count)) <= total_bytes(attributes),
    decreases attributes.len() - count,
{
    if count == attributes.len() {
        assert(attributes.take(count) =~= attributes);
    } else {
        lemma_total_bytes_grows(attributes, count + 1);
        assert(attributes.take(count + 1).drop_last() =~= attributes.take(count));
    }
}

/// How the floats of one vertex are split into attributes.
#[derive(Debug, PartialEq, Eq)]
pub struct VertexLayout {
    attributes: Vec<AttributeDescriptor>,
    stride_bytes: u32,
}

/// What a [`VertexLayout`] is: its attributes in order, and its stride.
pub ghost struct LayoutView {
    pub attributes: Seq<AttributeDescriptor>,
    pub stride_bytes: u32,
}

impl View for VertexLayout {
    type V = LayoutView;

    closed spec fn view(&self) -> LayoutView {
        LayoutView { attributes: self.attributes@, stride_bytes: self.stride_bytes }
    }
}

impl VertexLayout {
    #[verifier::type_invariant]
    spec fn holds(self) -> bool {
        valid_layout(self.attributes@, self.stride_bytes)
    }

    /// Makes a layout of `attributes` with the given stride, if they make one:
    /// see [`valid_layout`].
    pub fn new(attributes: Vec<AttributeDescriptor>, stride_bytes: u32) -> (r: Option<VertexLayout>)
        ensures
            r is Some <==> valid_layout(attributes@, stride_bytes),
            r matches Some(layout) ==> layout@ == (LayoutView {
                attributes: attributes@,
                stride_bytes,
            }),
    {
        if stride_bytes > 0x7FFF_FFFF {
            return None;
        }
        let count = attributes.len();
        let mut sum: u64 = 0;
        let mut i: usize = 0;
        while i < count
            invariant
                count == attributes.len(),
                i <= count,
                forall|k: int| 0 <= k < i ==> (#[trigger] attributes@[k]).well_formed(),
                sum == total_bytes(attributes@.take(i as int)),
                sum <= stride_bytes,
            decreases count - i,
        {
            if !attributes[i].is_well_formed() {
                return None;
            }
            proof {
                assert(attributes@.take(i + 1).drop_last() =~= attributes@.take(i as int));
                lemma_total_bytes_grows(attributes@, i + 1);
            }
            sum = sum + 4 * (attributes[i].component_count as u64);
            if sum > stride_bytes as u64 {
                return None;
            }
            i += 1;
        }
        proof {
            assert(attributes@.take(i as int) =~= attributes@);
        }
        if sum != stride_bytes as u64 {
            return None;
        }
        let mut j: usize = 0;
        while j < count
            invariant
                count == attributes.len(),
                j <= count,
                forall|k: int| 0 <= k < count ==> (#[trigger] attributes@[k]).well_formed(),
                forall|a: int, b: int|
                    0 <= a < b < j ==> !(#[trigger] attributes@[a]).overlaps(
                        #[trigger] attributes@[b],
                    ),
            decreases count - j,
        {
            let mut k: usize = 0;
            while k < j
                invariant
                    count == attributes.len(),
                    j < count,
                    k <= j,
                    forall|k: int| 0 <= k < count ==> (#[trigger] attributes@[k]).well_formed(),
                    forall|a: int|
                        0 <= a < k ==> !(#[trigger] attributes@[a]).overlaps(attributes@[j as int]),
                decreases j - k,
            {
                if attributes[k].shares_bytes_with(&attributes[j]) {
                    return None;
                }
                k += 1;
            }
            j += 1;
        }
        Some(VertexLayout { attributes, stride_bytes })
    }

    /// The attributes, in the order they were given.
    pub fn attributes(&self) -> (r: &Vec<AttributeDescriptor>)
        ensures
            r@ == self@.attributes,
            valid_layout(self@.attributes, self@.stride_bytes),
    {
        proof {
            use_type_invariant(self);
        }
        &self.attributes
    }

    /// The bytes from one vertex to the next.
    pub fn stride_bytes(&self) -> (r: u32)
        ensures
            r == self@.stride_bytes,
            valid_layout(self@.attributes, self@.stride_bytes),
    {
        proof {
            use_type_invariant(self);
        }
        self.stride_bytes
    }
}

impl Clone for VertexLayout {
    fn clone(&self) -> (r: VertexLayout)
        ensures
            r@ == self@,
    {
        proof {
            use_type_invariant(self);
        }
        let mut attributes: Vec<AttributeDescriptor> = Vec::new();
        let mut i: usize = 0;
        while i < self.attributes.len()
            invariant
                i <= self.attributes.len(),
                attributes@ == self.attributes@.take(i as int),
            decreases self.attributes.len() - i,
        {
            attributes.push(self.attributes[i]);
            assert(attributes@ =~= self.attributes@.take(i + 1));
            i += 1;
        }
        assert(attributes@ =~= self.attributes@);
        VertexLayout { attributes, stride_bytes: self.stride_bytes }
    }
}

/// What a [`MeshBuffer`] is: its components in order, and its layout.
pub ghost struct MeshView {
    pub components: Seq<u32>,
    pub layout: LayoutView,
}

/// The floats that one vertex takes.
pub open spec fn floats_per_vertex(layout: LayoutView) -> int {
    layout.stride_bytes as int / 4
}

/// What makes a mesh: a layout with at least one float to the vertex, and
/// components that make up whole vertices, no more of them than the driver's
/// signed count can hold.
pub open spec fn valid_mesh(components: Seq<u32>, layout: LayoutView) -> bool {
    &&& valid_layout(layout.attributes, layout.stride_bytes)
    &&& floats_per_vertex(layout) > 0
    &&& components.len() as int % floats_per_vertex(layout) == 0
    &&& components.len() as int / floats_per_vertex(layout) <= i32::MAX
}

impl MeshView {
    /// The vertices the mesh holds.
    pub open spec fn vertex_count(self) -> int {
        self.components.len() as int / floats_per_vertex(self.layout)
    }
}

/// Interleaved vertex components, each the bit pattern of a 32-bit float,
/// with the layout that says how to read them.
#[derive(Debug, PartialEq, Eq)]
pub struct MeshBuffer {
    components: Vec<u32>,
    layout: VertexLayout,
}

impl View for MeshBuffer {
    type V = MeshView;

    closed spec fn view(&self) -> MeshView {
        MeshView { components: self.components@, layout: self.layout@ }
    }
}

impl MeshBuffer {
    #[verifier::type_invariant]
    spec fn holds(self) -> bool {
        valid_mesh(self.components@, self.layout@)
    }

    /// Makes a mesh of `components` read by `layout`, if they make one: see
    /// [`valid_mesh`].
    pub fn new(components: Vec<u32>, layout: VertexLayout) -> (r: Option<MeshBuffer>)
        ensures
            r is Some <==> valid_mesh(components@, layout@),
            r matches Some(mesh) ==> mesh@ == (MeshView {
                components: components@,
                layout: layout@,
            }),
    {
        let per_vertex = (layout.stride_bytes() / 4) as usize;
        if per_vertex == 0 {
            return None;
        }
        if components.len() % per_vertex != 0 {
            return None;
        }
        if components.len() / per_vertex > 0x7FFF_FFFF {
            return None;
        }
        Some(MeshBuffer { components, layout })
    }

    /// The components, in order.
    pub fn components(&self) -> (r: &Vec<u32>)
        ensures
            r@ == self@.components,
            valid_mesh(self@.components, self@.layout),
    {
        proof {
            use_type_invariant(self);
        }
        &self.components
    }

    /// The layout the components are read by.
    pub fn layout(&self) -> (r: &VertexLayout)
        ensures
            r@ == self@.layout,
            valid_mesh(self@.components, self@.layout),
    {
        proof {
            use_type_invariant(self);
        }
        &self.layout
    }

    /// The vertices the mesh holds.
    pub fn vertex_count(&self) -> (r: i32)
        ensures
            r == self@.vertex_count(),
            0 <= r,
    {
        proof {
            use_type_invariant(self);
        }
        let per_vertex = (self.layout.stride_bytes() / 4) as usize;
        (self.components.len() / per_vertex) as i32
    }
}

/// A mesh as it lives on the GPU.
#[derive(Clone, Copy, Debug, PartialEq, Eq)]
pub struct UploadedMesh {
    /// The vertex array object that describes the mesh.
    pub vertex_array: Handle,
    /// The buffer object that holds the vertex data.
    pub buffer: Handle,
    /// The vertices to draw.
    pub vertex_count: i32,
}

/// How far the upload of one mesh has come.
#[derive(Clone, Copy, Debug, PartialEq, Eq)]
pub enum UploadPhase {
    /// Nothing issued yet.
    Start,
    /// The vertex array object was asked for.
    AwaitVertexArray,
    /// The vertex array object was bound, the buffer object asked for.
    AwaitBuffer { vertex_array: Handle },
    /// The upload has ended.
    Finished,
}

/// The call that tells the bound vertex array where `attribute` lies in a
/// vertex of `stride_bytes` bytes: floats, not normalised.
pub open spec fn pointer_call(attribute: AttributeDescriptor, stride_bytes: u32) -> CallView {
    CallView::VertexAttribPointer {
        index: attribute.location,
        size: attribute.component_count as i32,
        data_type: FLOAT,
        normalized: false,
        stride: stride_bytes as i32,
        offset: attribute.offset_bytes as i32,
    }
}

/// The call that switches `attribute` on.
pub open spec fn enable_call(attribute: AttributeDescriptor) -> CallView {
    CallView::EnableVertexAttribArray { index: attribute.location }
}

/// The calls that declare the attributes of `layout`: for each attribute in
/// order its [`pointer_call`], then its [`enable_call`].
pub open spec fn attribute_calls(layout: LayoutView) -> Seq<CallView> {
    Seq::new(
        2 * layout.attributes.len(),
        |k: int|
            if k % 2 == 0 {
                pointer_call(layout.attributes[k / 2], layout.stride_bytes)
            } else {
                enable_call(layout.attributes[k / 2])
            },
    )
}

/// The calls that fill `buffer` with the mesh and declare its attributes.
pub open spec fn fill_calls(mesh: MeshView, buffer: Handle) -> Seq<CallView> {
    seq![
        CallView::BindBuffer { target: ARRAY_BUFFER, buffer: Some(buffer) },
        CallView::BufferData { target: ARRAY_BUFFER, words: mesh.components, usage: STATIC_DRAW },
    ] + attribute_calls(mesh.layout)
}

/// What the next turn of an upload comes to, given where it stands and what
/// the driver answered.
///
/// The vertex array object is bound before the buffer is made, and both stay
/// bound when the upload ends. A reply of a kind the phase does not wait for
/// ends the upload with [`RenderError::UnexpectedReply`].
pub open spec fn upload_model(mesh: MeshView, phase: UploadPhase, reply: ReplyView) -> Planned<
    UploadPhase,
    Result<UploadedMesh, ErrorView>,
> {
    match (phase, reply) {
        (UploadPhase::Start, _) => Planned {
            phase: UploadPhase::AwaitVertexArray,
            calls: seq![CallView::CreateVertexArray],
            result: None,
        },
        (UploadPhase::AwaitVertexArray, ReplyView::Created(vertex_array)) => Planned {
            phase: UploadPhase::AwaitBuffer { vertex_array },
            calls: seq![
                CallView::BindVertexArray { vertex_array: Some(vertex_array) },
                CallView::CreateBuffer,
            ],
            result: None,
        },
        (UploadPhase::AwaitBuffer { vertex_array }, ReplyView::Created(buffer)) => Planned {
            phase: UploadPhase::Finished,
            calls: fill_calls(mesh, buffer),
            result: Some(
                Ok(
                    UploadedMesh {
                        vertex_array,
                        buffer,
                        vertex_count: mesh.vertex_count() as i32,
                    },
                ),
            ),
        },
        _ => Planned {
            phase: UploadPhase::Finished,
            calls: seq![],
            result: Some(Err(ErrorView::UnexpectedReply)),
        },
    }
}

/// Takes the upload of `mesh` one turn further.
///
/// Start with [`UploadPhase::Start`] and any reply. `ctx` follows the calls
/// issued.
pub fn upload_mesh(
    ctx: &mut RenderContext,
    mesh: &MeshBuffer,
    phase: &mut UploadPhase,
    reply: GpuReply,
) -> (turn: Turn<Result<UploadedMesh, RenderError>>)
    ensures
        *final(phase) == upload_model(mesh@, *old(phase), reply@).phase,
        view_all(turn.calls@) == upload_model(mesh@, *old(phase), reply@).calls,
        result_view(turn.result) == upload_model(mesh@, *old(phase), reply@).result,
        *final(ctx) == old(ctx).after_all(view_all(turn.calls@)),
{
    let ghost base = *ctx;
    let mut calls: Vec<GpuCall> = Vec::new();
    assert(view_all(calls@) =~= Seq::<CallView>::empty());
    let mut result: Option<Result<UploadedMesh, RenderError>> = None;
    match (*phase, reply) {
        (UploadPhase::Start, _) => {
            issue(ctx, &mut calls, GpuCall::CreateVertexArray, Ghost(base));
            *phase = UploadPhase::AwaitVertexArray;
        },
        (UploadPhase::AwaitVertexArray, GpuReply::Created(vertex_array)) => {
            issue(
                ctx,
                &mut calls,
                GpuCall::BindVertexArray { vertex_array: Some(vertex_array) },
                Ghost(base),
            );
            issue(ctx, &mut calls, GpuCall::CreateBuffer, Ghost(base));
            *phase = UploadPhase::AwaitBuffer { vertex_array };
        },
        (UploadPhase::AwaitBuffer { vertex_array }, GpuReply::Created(buffer)) => {
            let layout = mesh.layout();
            let attributes = layout.attributes();
            let stride = layout.stride_bytes();
            let words = mesh.components().clone();
            issue(
                ctx,
                &mut calls,
                GpuCall::BindBuffer { target: ARRAY_BUFFER, buffer: Some(buffer) },
                Ghost(base),
            );
            issue(
                ctx,
                &mut calls,
                GpuCall::BufferData { target: ARRAY_BUFFER, words, usage: STATIC_DRAW },
                Ghost(base),
            );
            let ghost head = view_all(calls@);
            let mut i: usize = 0;
            while i < attributes.len()
                invariant
                    i <= attributes.len(),
                    attributes@ == mesh@.layout.attributes,
                    stride == mesh@.layout.stride_bytes,
                    valid_layout(attributes@, stride),
                    view_all(calls@) == head + attribute_calls(mesh@.layout).take(2 * i),
                    *ctx == base.after_all(view_all(calls@)),
                decreases attributes.len() - i,
            {
                let attribute = attributes[i];
                let ghost before = view_all(calls@);
                issue(
                    ctx,
                    &mut calls,
                    GpuCall::VertexAttribPointer {
                        index: attribute.location,
                        size: attribute.component_count as i32,
                        data_type: FLOAT,
                        normalized: false,
                        stride: stride as i32,
                        offset: attribute.offset_bytes as i32,
                    },
                    Ghost(base),
                );
                issue(
                    ctx,
                    &mut calls,
                    GpuCall::EnableVertexAttribArray { index: attribute.location },
                    Ghost(base),
                );
                proof {
                    let declared = attribute_calls(mesh@.layout);
                    assert(declared[2 * i] == pointer_call(attribute, stride));
                    assert(declared[2 * i + 1] == enable_call(attribute));
                    assert(view_all(calls@) =~= head + declared.take(2 * (i + 1)));
                }
                i += 1;
            }
            proof {
                let declared = attribute_calls(mesh@.layout);
                assert(declared.take(2 * i) =~= declared);
                assert(head =~= seq![
                    CallView::BindBuffer { target: ARRAY_BUFFER, buffer: Some(buffer) },
                    CallView::BufferData {
                        target: ARRAY_BUFFER,
                        words: mesh@.components,
                        usage: STATIC_DRAW,
                    },
                ]);
            }
            result = Some(
                Ok(UploadedMesh { vertex_array, buffer, vertex_count: mesh.vertex_count() }),
            );
            *phase = UploadPhase::Finished;
        },
        _ => {
            result = Some(Err(RenderError::UnexpectedReply));
            *phase = UploadPhase::Finished;
        },
    }
    assert(view_all(calls@) =~= upload_model(mesh@, *old(phase), reply@).calls);
    Turn { calls, result }
}

/// Every call an upload issues, in order, when the driver makes
/// `vertex_array` and `buffer` for it.
pub open spec fn upload_calls(mesh: MeshView, vertex_array: Handle, buffer: Handle) -> Seq<
    CallView,
> {
    seq![
        CallView::CreateVertexArray,
        CallView::BindVertexArray { vertex_array: Some(vertex_array) },
        CallView::CreateBuffer,
    ] + fill_calls(mesh, buffer)
}

/// An upload takes three turns: it issues the calls of [`upload_calls`] and
/// ends with the two objects the driver made and the mesh's vertex count.
pub proof fn lemma_upload_exchange(mesh: MeshView, vertex_array: Handle, buffer: Handle)
    ensures
        ({
            let first = upload_model(mesh, UploadPhase::Start, ReplyView::Nothing);
            let second = upload_model(mesh, first.phase, ReplyView::Created(vertex_array));
            let third = upload_model(mesh, second.phase, ReplyView::Created(buffer));
            &&& first.result is None
            &&& second.result is None
            &&& first.calls + second.calls + third.calls == upload_calls(
                mesh,
                vertex_array,
                buffer,
            )
            &&& third.result == Some(
                Ok::<UploadedMesh, ErrorView>(
                    UploadedMesh {
                        vertex_array,
                        buffer,
                        vertex_count: mesh.vertex_count() as i32,
                    },
                ),
            )
            &&& third.phase == UploadPhase::Finished
        }),
{
    let first = upload_model(mesh, UploadPhase::Start, ReplyView::Nothing);
    let second = upload_model(mesh, first.phase, ReplyView::Created(vertex_array));
    let third = upload_model(mesh, second.phase, ReplyView::Created(buffer));
    assert(first.calls + second.calls + third.calls =~= upload_calls(mesh, vertex_array, buffer));
}

/// An upload cannot fail on the driver's side: it ends with a mesh whenever
/// the driver answers each create call with the object it made. A turn hands
/// out a result exactly when it ends the upload.
pub proof fn lemma_upload_ends_with_result(mesh: MeshView, phase: UploadPhase, reply: ReplyView)
    ensures
        upload_model(mesh, phase, reply).result matches Some(Ok(uploaded)) <==> phase
            is AwaitBuffer && reply is Created,
        upload_model(mesh, phase, reply).result is Some <==> upload_model(mesh, phase, reply).phase
            == UploadPhase::Finished,
{
}

/// An upload declares exactly the attributes of the mesh's layout: after the
/// five calls that make, bind and fill the two objects come, for each
/// attribute in order, its [`pointer_call`] and its [`enable_call`], and
/// nothing else; none of the first five calls declares or enables an
/// attribute.
pub proof fn lemma_upload_declares_layout(mesh: MeshView, vertex_array: Handle, buffer: Handle)
    ensures
        upload_calls(mesh, vertex_array, buffer).len() == 5 + 2 * mesh.layout.attributes.len(),
        forall|i: int|
            0 <= i < mesh.layout.attributes.len() ==> {
                &&& upload_calls(mesh, vertex_array, buffer)[5 + 2 * i] == pointer_call(
                    #[trigger] mesh.layout.attributes[i],
                    mesh.layout.stride_bytes,
                )
                &&& upload_calls(mesh, vertex_array, buffer)[5 + 2 * i + 1] == enable_call(
                    mesh.layout.attributes[i],
                )
            },
        forall|k: int|
            0 <= k < 5 ==> {
                let call = #[trigger] upload_calls(mesh, vertex_array, buffer)[k];
                !(call is VertexAttribPointer) && !(call is EnableVertexAttribArray)
            },
{
}

/// Every attribute is declared while the upload's own vertex array and
/// buffer are bound, and both are still bound when the upload ends; no other
/// binding changes.
pub proof fn lemma_upload_leaves_bound(
    ctx: RenderContext,
    mesh: MeshView,
    vertex_array: Handle,
    buffer: Handle,
)
    ensures
        forall|k: int|
            5 <= k <= upload_calls(mesh, vertex_array, buffer).len() ==> #[trigger] ctx.after_all(
                upload_calls(mesh, vertex_array, buffer).take(k),
            ) == (RenderContext {
                vertex_array: Some(vertex_array),
                array_buffer: Some(buffer),
                ..ctx
            }),
        ctx.after_all(upload_calls(mesh, vertex_array, buffer)) == (RenderContext {
            vertex_array: Some(vertex_array),
            array_buffer: Some(buffer),
            ..ctx
        }),
{
    let all = upload_calls(mesh, vertex_array, buffer);
    let bound = RenderContext {
        vertex_array: Some(vertex_array),
        array_buffer: Some(buffer),
        ..ctx
    };
    let c0 = CallView::CreateVertexArray;
    let c1 = CallView::BindVertexArray { vertex_array: Some(vertex_array) };
    let c2 = CallView::CreateBuffer;
    let c3 = CallView::BindBuffer { target: ARRAY_BUFFER, buffer: Some(buffer) };
    let c4 = CallView::BufferData {
        target: ARRAY_BUFFER,
        words: mesh.components,
        usage: STATIC_DRAW,
    };
    let none = Seq::<CallView>::empty();
    let head = none.push(c0).push(c1).push(c2).push(c3).push(c4);
    lemma_after_all_push(ctx, none, c0);
    lemma_after_all_push(ctx, none.push(c0), c1);
    lemma_after_all_push(ctx, none.push(c0).push(c1), c2);
    lemma_after_all_push(ctx, none.push(c0).push(c1).push(c2), c3);
    lemma_after_all_push(ctx, none.push(c0).push(c1).push(c2).push(c3), c4);
    assert(ctx.after_all(head) == bound);
    assert forall|k: int| 5 <= k <= all.len() implies #[trigger] ctx.after_all(all.take(k))
        == bound by {
        let tail = attribute_calls(mesh.layout).take(k - 5);
        assert(all.take(k) =~= head + tail);
        lemma_after_all_concat(ctx, head, tail);
        lemma_untouched(bound, tail);
    }
    assert(all.take(all.len() as int) =~= all);
}

/// The bit pattern of the float 0.0.
pub const ZERO: u32 = 0x0000_0000;

/// The bit pattern of the float 0.5.
pub const HALF: u32 = 0x3F00_0000;

/// The bit pattern of the float -0.5.
pub const MINUS_HALF: u32 = 0xBF00_0000;

/// The bit pattern of the float 1.0.
pub const ONE: u32 = 0x3F80_0000;

/// The attribute that holds a vertex's position: three floats for shader
/// input 0, at the start of the vertex.
pub open spec fn position_attribute() -> AttributeDescriptor {
    AttributeDescriptor { location: 0, component_count: 3, offset_bytes: 0 }
}

/// The attribute that holds a vertex's texture coordinate: two floats for
/// shader input 1, right after the position.
pub open spec fn texcoord_attribute() -> AttributeDescriptor {
    AttributeDescriptor { location: 1, component_count: 2, offset_bytes: 12 }
}

/// The components of the triangle, positions only: nine floats.
pub open spec fn triangle_components() -> Seq<u32> {
    seq![MINUS_HALF, MINUS_HALF, ZERO, HALF, MINUS_HALF, ZERO, ZERO, HALF, ZERO]
}

/// The components of the triangle with a texture coordinate after each
/// position: fifteen floats.
pub open spec fn textured_triangle_components() -> Seq<u32> {
    seq![
        MINUS_HALF, MINUS_HALF, ZERO, ZERO, ZERO,
        HALF, MINUS_HALF, ZERO, ONE, ZERO,
        ZERO, HALF, ZERO, HALF, ONE,
    ]
}

impl VertexLayout {
    /// The layout of a vertex that is a position and nothing else.
    pub fn positions() -> (r: VertexLayout)
        ensures
            r@ == (LayoutView { attributes: seq![position_attribute()], stride_bytes: 12 }),
    {
        let mut attributes: Vec<AttributeDescriptor> = Vec::new();
        attributes.push(AttributeDescriptor { location: 0, component_count: 3, offset_bytes: 0 });
        proof {
            assert(attributes@ =~= seq![position_attribute()]);
            reveal_with_fuel(total_bytes, 2);
        }
        VertexLayout { attributes, stride_bytes: 12 }
    }

    /// The layout of a vertex that is a position and a texture coordinate.
    pub fn positions_and_texcoords() -> (r: VertexLayout)
        ensures
            r@ == (LayoutView {
                attributes: seq![position_attribute(), texcoord_attribute()],
                stride_bytes: 20,
            }),
    {
        let mut attributes: Vec<AttributeDescriptor> = Vec::new();
        attributes.push(AttributeDescriptor { location: 0, component_count: 3, offset_bytes: 0 });
        attributes.push(AttributeDescriptor { location: 1, component_count: 2, offset_bytes: 12 });
        proof {
            assert(attributes@ =~= seq![position_attribute(), texcoord_attribute()]);
            assert(attributes@.drop_last() =~= seq![position_attribute()]);
            reveal_with_fuel(total_bytes, 3);
        }
        VertexLayout { attributes, stride_bytes: 20 }
    }
}

impl MeshBuffer {
    /// The one triangle, positions only: three vertices of three floats.
    pub fn triangle() -> (r: MeshBuffer)
        ensures
            r@.components == triangle_components(),
            r@.layout == (LayoutView { attributes: seq![position_attribute()], stride_bytes: 12 }),
            r@.vertex_count() == 3,
    {
        let components: Vec<u32> = vec![
            MINUS_HALF, MINUS_HALF, ZERO, HALF, MINUS_HALF, ZERO, ZERO, HALF, ZERO,
        ];
        let layout = VertexLayout::positions();
        proof {
            assert(components@ =~= triangle_components());
            assert(triangle_components().len() == 9);
            use_type_invariant(&layout);
            assert(floats_per_vertex(layout@) == 3);
        }
        MeshBuffer { components, layout }
    }

    /// The one triangle with texture coordinates: three vertices of five
    /// floats.
    pub fn textured_triangle() -> (r: MeshBuffer)
        ensures
            r@.components == textured_triangle_components(),
            r@.layout == (LayoutView {
                attributes: seq![position_attribute(), texcoord_attribute()],
                stride_bytes: 20,
            }),
            r@.vertex_count() == 3,
    {
        let components: Vec<u32> = vec![
            MINUS_HALF, MINUS_HALF, ZERO, ZERO, ZERO,
            HALF, MINUS_HALF, ZERO, ONE, ZERO,
            ZERO, HALF, ZERO, HALF, ONE,
        ];
        let layout = VertexLayout::positions_and_texcoords();
        proof {
            assert(components@ =~= textured_triangle_components());
            assert(textured_triangle_components().len() == 15);
            use_type_invariant(&layout);
            assert(floats_per_vertex(layout@) == 5);
        }
        MeshBuffer { components, layout }
    }
}

} // verus!
