//! Textures: the decoded image, its way onto the GPU, and the fixed sampling
//! policy it is given there.

use vstd::prelude::*;
use vstd::arithmetic::div_mod::lemma_fundamental_div_mod_converse;
use vstd::arithmetic::mul::lemma_mul_upper_bound;
use crate::codes::{
    CLAMP_TO_EDGE, LINEAR, RGBA, TEXTURE_2D, TEXTURE_MAG_FILTER, TEXTURE_MIN_FILTER,
    TEXTURE_WRAP_S, TEXTURE_WRAP_T, UNSIGNED_BYTE,
};
use crate::context::{issue, lemma_after_all_push, RenderContext};
use crate::error::{result_view, ErrorView, RenderError};
use crate::gpu::{view_all, CallView, GpuCall, GpuReply, Planned, ReplyView, Turn};
use crate::handle::Handle;

verus! {

/// What a [`DecodedImage`] is: its size in pixels and its bytes, four to the
/// pixel in the order red, green, blue, alpha, rows one after the other.
pub ghost struct ImageView {
    pub width: u32,
    pub height: u32,
    pub pixels: Seq<u8>,
}

impl ImageView {
    /// The bytes of one row.
    pub open spec fn row_bytes(self) -> int {
        4 * self.width
    }

    /// The image with its rows in the opposite order: the last row first.
    pub open spec fn flipped(self) -> ImageView {
        ImageView {
            width: self.width,
            height: self.height,
            pixels: Seq::new(
                self.pixels.len(),
                |i: int|
                    self.pixels[(self.height - 1 - i / self.row_bytes()) * self.row_bytes() + i
                        % self.row_bytes()],
            ),
        }
    }
}

/// What makes an image: four bytes for every pixel, and a width and a height
/// that the driver's signed arguments can hold.
pub open spec fn valid_image(width: u32, height: u32, pixels: Seq<u8>) -> bool {
    &&& width <= i32::MAX
    &&& height <= i32::MAX
    &&& pixels.len() == 4 * width * height
}

/// An image ready for upload.
#[derive(Debug, PartialEq, Eq)]
pub struct DecodedImage {
    width: u32,
    height: u32,
    pixels: Vec<u8>,
}

impl View for DecodedImage {
    type V = ImageView;

    closed spec fn view(&self) -> ImageView {
        ImageView { width: self.width, height: self.height, pixels: self.pixels@ }
    }
}

/// The bytes an image of the given size takes, if both sides fit the
/// driver's signed arguments.
fn byte_len(width: u32, height: u32) -> (r: Option<u64>)
    ensures
        r is Some <==> width <= i32::MAX && height <= i32::MAX,
        r matches Some(len) ==> len == 4 * width * height,
{
    if width > 0x7FFF_FFFF || height > 0x7FFF_FFFF {
        return None;
    }
    proof {
        lemma_mul_upper_bound(width as int, 0x7FFF_FFFF, height as int, 0x7FFF_FFFF);
        assert(4 * width * height == 4 * (width * height)) by (nonlinear_arith);
    }
    let area: u64 = (width as u64) * (height as u64);
    Some(4 * area)
}

impl DecodedImage {
    #[verifier::type_invariant]
    spec fn holds(self) -> bool {
        valid_image(self.width, self.height, self.pixels@)
    }

    /// Makes an image of `pixels`, if they make one: see [`valid_image`].
    pub fn new(width: u32, height: u32, pixels: Vec<u8>) -> (r: Option<DecodedImage>)
        ensures
            r is Some <==> valid_image(width, height, pixels@),
            r matches Some(image) ==> image@ == (ImageView { width, height, pixels: pixels@ }),
    {
        match byte_len(width, height) {
            Some(len) => {
                if pixels.len() as u64 == len {
                    Some(DecodedImage { width, height, pixels })
                } else {
                    None
                }
            },
            None => None,
        }
    }

    /// The width in pixels.
    pub fn width(&self) -> (r: u32)
        ensures
            r == self@.width,
            valid_image(self@.width, self@.height, self@.pixels),
    {
        proof {
            use_type_invariant(self);
        }
        self.width
    }

    /// The height in pixels.
    pub fn height(&self) -> (r: u32)
        ensures
            r == self@.height,
            valid_image(self@.width, self@.height, self@.pixels),
    {
        proof {
            use_type_invariant(self);
        }
        self.height
    }

    /// The bytes, four to the pixel, rows one after the other.
    pub fn pixels(&self) -> (r: &Vec<u8>)
        ensures
            r@ == self@.pixels,
            valid_image(self@.width, self@.height, self@.pixels),
    {
        proof {
            use_type_invariant(self);
        }
        &self.pixels
    }

    /// The image upside down, so that its last row comes first: texture
    /// space has its origin at the bottom, decoders have theirs at the top.
    pub fn flip_vertical(&self) -> (r: DecodedImage)
        ensures
            r@ == self@.flipped(),
    {
        proof {
            use_type_invariant(self);
        }
        let mut pixels: Vec<u8> = Vec::new();
        if self.height == 0 || self.width == 0 {
            assert(4 * self.width * self.height == 0) by (nonlinear_arith)
                requires
                    self.height == 0 || self.width == 0,
            ;
            assert(pixels@ =~= self@.flipped().pixels);
            return DecodedImage { width: self.width, height: self.height, pixels };
        }
        let total: usize = self.pixels.len();
        let ghost row_bytes: int = 4 * self.width;
        let ghost height: int = self.height as int;
        proof {
            assert(row_bytes * height == 4 * self.width * self.height) by (nonlinear_arith)
                requires
                    row_bytes == 4 * self.width,
                    height == self.height,
            ;
            assert(row_bytes <= row_bytes * height) by (nonlinear_arith)
                requires
                    1 <= height,
                    0 <= row_bytes,
            ;
        }
        let row_len: usize = 4 * (self.width as usize);
        let rows: usize = self.height as usize;
        let mut row: usize = 0;
        while row < rows
            invariant
                row <= rows,
                rows == height,
                row_len == row_bytes,
                row_bytes == self@.row_bytes(),
                row_bytes > 0,
                total == self.pixels@.len(),
                self.pixels@.len() == row_bytes * height,
                pixels@ == self@.flipped().pixels.take(row * row_bytes),
                height == self.height,
            decreases rows - row,
        {
            let source: usize = rows - 1 - row;
            proof {
                assert(0 <= source * row_bytes && source * row_bytes + row_bytes <= row_bytes
                    * height) by (nonlinear_arith)
                    requires
                        0 <= source < height,
                        0 < row_bytes,
                ;
                assert(0 <= row * row_bytes && row * row_bytes + row_bytes <= row_bytes * height)
                    by (nonlinear_arith)
                    requires
                        0 <= row < height,
                        0 < row_bytes,
                ;
            }
            let start: usize = source * row_len;
            let mut column: usize = 0;
            while column < row_len
                invariant
                    column <= row_len,
                    row < rows,
                    rows == height,
                    height == self.height,
                    source == rows - 1 - row,
                    row_len == row_bytes,
                    row_bytes == self@.row_bytes(),
                    row_bytes > 0,
                    start == source * row_bytes,
                    start + row_bytes <= self.pixels@.len(),
                    0 <= row * row_bytes,
                    row * row_bytes + row_bytes <= self.pixels@.len(),
                    total == self.pixels@.len(),
                    self.pixels@.len() == row_bytes * height,
                    pixels@ == self@.flipped().pixels.take(row * row_bytes + column),
                decreases row_len - column,
            {
                pixels.push(self.pixels[start + column]);
                proof {
                    let at: int = row * row_bytes + column;
                    lemma_fundamental_div_mod_converse(at, row_bytes, row as int, column as int);
                    assert(self@.flipped().pixels[at] == self.pixels@[start + column]);
                    assert(pixels@ =~= self@.flipped().pixels.take(at + 1));
                }
                column += 1;
            }
            proof {
                assert((row + 1) * row_bytes == row * row_bytes + row_bytes) by (nonlinear_arith);
            }
            row += 1;
        }
        proof {
            assert(row * row_bytes == self.pixels@.len()) by (nonlinear_arith)
                requires
                    row == height,
                    self.pixels@.len() == row_bytes * height,
            ;
            assert(pixels@ =~= self@.flipped().pixels);
        }
        DecodedImage { width: self.width, height: self.height, pixels }
    }
}

/// `image::ImageError`, the decoder's account of why a file was refused. It
/// is carried from the call to its caller and never looked into.
#[verifier::external_type_specification]
#[verifier::external_body]
pub struct ExImageError(image::ImageError);

/// What the `image` crate decodes a PNG file to, as eight-bit RGBA: the
/// width, the height and the bytes from the top row down, or `None` where it
/// rejects the file.
pub uninterp spec fn png_rgba8(bytes: Seq<u8>) -> Option<(u32, u32, Seq<u8>)>;

/// Decodes a PNG file held in memory with `image::load_from_memory_with_format`
/// and converts what comes out with `DynamicImage::into_rgba8`; the size and
/// the bytes are those that `ImageBuffer::dimensions` and
/// `ImageBuffer::into_raw` give. The contract only names the outcome: the
/// same bytes decode to the same image, and an error is the crate's refusal
/// of the file.
#[verifier::external_body]
fn decode_png_rgba8(bytes: &[u8]) -> (r: Result<(u32, u32, Vec<u8>), image::ImageError>)
    ensures
        r matches Ok(decoded) ==> png_rgba8(bytes@) == Some((decoded.0, decoded.1, decoded.2@)),
        r is Err ==> png_rgba8(bytes@) is None,
{
    let buffer = image::load_from_memory_with_format(bytes, image::ImageFormat::Png)?.into_rgba8();
    let (width, height) = buffer.dimensions();
    Ok((width, height, buffer.into_raw()))
}

/// The texture image that decoded pixels make: the first `4 * width * height`
/// bytes, flipped so that the bottom row comes first. Pixels that are too few
/// for the size, a size the driver's signed arguments cannot hold, and a file
/// that did not decode all come to [`RenderError::TextureDecode`].
pub open spec fn texture_image(decoded: Option<(u32, u32, Seq<u8>)>) -> Result<
    ImageView,
    ErrorView,
> {
    match decoded {
        Some((width, height, pixels)) => if width <= i32::MAX && height <= i32::MAX
            && pixels.len() >= 4 * width * height {
            Ok(
                (ImageView { width, height, pixels: pixels.take(4 * width * height) }).flipped(),
            )
        } else {
            Err(ErrorView::TextureDecode)
        },
        None => Err(ErrorView::TextureDecode),
    }
}

/// An image or the error in its place, each by its view.
pub open spec fn image_result_view(result: Result<DecodedImage, RenderError>) -> Result<
    ImageView,
    ErrorView,
> {
    match result {
        Ok(image) => Ok(image@),
        Err(error) => Err(error@),
    }
}

/// Makes the texture image of pixels as a decoder hands them out, top row
/// first: see [`texture_image`].
pub fn prepare_image(width: u32, height: u32, pixels: Vec<u8>) -> (r: Result<
    DecodedImage,
    RenderError,
>)
    ensures
        image_result_view(r) == texture_image(Some((width, height, pixels@))),
{
    let mut pixels = pixels;
    match byte_len(width, height) {
        Some(len) => {
            if pixels.len() as u64 >= len {
                pixels.truncate(len as usize);
                let upright = DecodedImage { width, height, pixels };
                Ok(upright.flip_vertical())
            } else {
                Err(RenderError::TextureDecode)
            }
        },
        None => Err(RenderError::TextureDecode),
    }
}

/// Decodes a PNG file held in memory into the texture image it makes: see
/// [`texture_image`].
pub fn decode_texture(bytes: &[u8]) -> (r: Result<DecodedImage, RenderError>)
    ensures
        image_result_view(r) == texture_image(png_rgba8(bytes@)),
{
    match decode_png_rgba8(bytes) {
        Ok(decoded) => prepare_image(decoded.0, decoded.1, decoded.2),
        Err(_) => Err(RenderError::TextureDecode),
    }
}

/// The texture image of a file's contents, where `None` stands for a file
/// that could not be read: that, too, is [`RenderError::TextureDecode`].
pub fn load_texture(file: Option<&[u8]>) -> (r: Result<DecodedImage, RenderError>)
    ensures
        file matches Some(bytes) ==> image_result_view(r) == texture_image(png_rgba8(bytes@)),
        file is None ==> image_result_view(r) == Err::<ImageView, ErrorView>(
            ErrorView::TextureDecode,
        ),
{
    match file {
        Some(bytes) => decode_texture(bytes),
        None => Err(RenderError::TextureDecode),
    }
}

/// A texture as it lives on the GPU.
#[derive(Clone, Copy, Debug, PartialEq, Eq)]
pub struct Texture {
    /// The texture object.
    pub handle: Handle,
    /// The width of the base level, in pixels.
    pub width: u32,
    /// The height of the base level, in pixels.
    pub height: u32,
}

/// How far the upload of one texture has come.
#[derive(Clone, Copy, Debug, PartialEq, Eq)]
pub enum TexturePhase {
    /// Nothing issued yet.
    Start,
    /// The texture object was asked for.
    AwaitTexture,
    /// The upload has ended.
    Finished,
}

/// The call that sets one sampling parameter of the bound 2D texture.
pub open spec fn parameter_call(parameter: u32, value: u32) -> CallView {
    CallView::TexParameter { target: TEXTURE_2D, parameter, value: value as i32 }
}

/// The calls that make `texture` hold `image`: bind it, clamp both axes to
/// the edge, filter linearly both ways, and upload the pixels as the base
/// level. No other level is made.
pub open spec fn texture_calls(image: ImageView, texture: Handle) -> Seq<CallView> {
    seq![
        CallView::BindTexture { target: TEXTURE_2D, texture: Some(texture) },
        parameter_call(TEXTURE_WRAP_S, CLAMP_TO_EDGE),
        parameter_call(TEXTURE_WRAP_T, CLAMP_TO_EDGE),
        parameter_call(TEXTURE_MIN_FILTER, LINEAR),
        parameter_call(TEXTURE_MAG_FILTER, LINEAR),
        CallView::TexImage2D {
            target: TEXTURE_2D,
            level: 0,
            internal_format: RGBA as i32,
            width: image.width as i32,
            height: image.height as i32,
            border: 0,
            format: RGBA,
            data_type: UNSIGNED_BYTE,
            pixels: image.pixels,
        },
    ]
}

/// What the next turn of a texture upload comes to, given where it stands
/// and what the driver answered.
///
/// The texture stays bound when the upload ends. A reply of a kind the phase
/// does not wait for ends the upload with [`RenderError::UnexpectedReply`].
pub open spec fn texture_model(image: ImageView, phase: TexturePhase, reply: ReplyView) -> Planned<
    TexturePhase,
    Result<Texture, ErrorView>,
> {
    match (phase, reply) {
        (TexturePhase::Start, _) => Planned {
            phase: TexturePhase::AwaitTexture,
            calls: seq![CallView::CreateTexture],
            result: None,
        },
        (TexturePhase::AwaitTexture, ReplyView::Created(texture)) => Planned {
            phase: TexturePhase::Finished,
            calls: texture_calls(image, texture),
            result: Some(
                Ok(Texture { handle: texture, width: image.width, height: image.height }),
            ),
        },
        _ => Planned {
            phase: TexturePhase::Finished,
            calls: seq![],
            result: Some(Err(ErrorView::UnexpectedReply)),
        },
    }
}

/// Takes the upload of `image` one turn further.
///
/// Start with [`TexturePhase::Start`] and any reply. `ctx` follows the calls
/// issued.
pub fn upload_texture(
    ctx: &mut RenderContext,
    image: &DecodedImage,
    phase: &mut TexturePhase,
    reply: GpuReply,
) -> (turn: Turn<Result<Texture, RenderError>>)
    ensures
        *final(phase) == texture_model(image@, *old(phase), reply@).phase,
        view_all(turn.calls@) == texture_model(image@, *old(phase), reply@).calls,
        result_view(turn.result) == texture_model(image@, *old(phase), reply@).result,
        *final(ctx) == old(ctx).after_all(view_all(turn.calls@)),
{
    let ghost base = *ctx;
    let mut calls: Vec<GpuCall> = Vec::new();
    assert(view_all(calls@) =~= Seq::<CallView>::empty());
    let mut result: Option<Result<Texture, RenderError>> = None;
    match (*phase, reply) {
        (TexturePhase::Start, _) => {
            issue(ctx, &mut calls, GpuCall::CreateTexture, Ghost(base));
            *phase = TexturePhase::AwaitTexture;
        },
        (TexturePhase::AwaitTexture, GpuReply::Created(texture)) => {
            let width = image.width();
            let height = image.height();
            let pixels = image.pixels().clone();
            issue(
                ctx,
                &mut calls,
                GpuCall::BindTexture { target: TEXTURE_2D, texture: Some(texture) },
                Ghost(base),
            );
            issue(
                ctx,
                &mut calls,
                GpuCall::TexParameter {
                    target: TEXTURE_2D,
                    parameter: TEXTURE_WRAP_S,
                    value: CLAMP_TO_EDGE as i32,
                },
                Ghost(base),
            );
            issue(
                ctx,
                &mut calls,
                GpuCall::TexParameter {
                    target: TEXTURE_2D,
                    parameter: TEXTURE_WRAP_T,
                    value: CLAMP_TO_EDGE as i32,
                },
                Ghost(base),
            );
            issue(
                ctx,
                &mut calls,
                GpuCall::TexParameter {
                    target: TEXTURE_2D,
                    parameter: TEXTURE_MIN_FILTER,
                    value: LINEAR as i32,
                },
                Ghost(base),
            );
            issue(
                ctx,
                &mut calls,
                GpuCall::TexParameter {
                    target: TEXTURE_2D,
                    parameter: TEXTURE_MAG_FILTER,
                    value: LINEAR as i32,
                },
                Ghost(base),
            );
            issue(
                ctx,
                &mut calls,
                GpuCall::TexImage2D {
                    target: TEXTURE_2D,
                    level: 0,
                    internal_format: RGBA as i32,
                    width: width as i32,
                    height: height as i32,
                    border: 0,
                    format: RGBA,
                    data_type: UNSIGNED_BYTE,
                    pixels,
                },
                Ghost(base),
            );
            result = Some(Ok(Texture { handle: texture, width, height }));
            *phase = TexturePhase::Finished;
        },
        _ => {
            result = Some(Err(RenderError::UnexpectedReply));
            *phase = TexturePhase::Finished;
        },
    }
    assert(view_all(calls@) =~= texture_model(image@, *old(phase), reply@).calls);
    Turn { calls, result }
}

/// A texture upload takes two turns: it asks for the texture object, issues
/// the calls of [`texture_calls`], and ends with the object the driver made
/// and the image's size.
pub proof fn lemma_texture_exchange(image: ImageView, texture: Handle)
    ensures
        ({
            let first = texture_model(image, TexturePhase::Start, ReplyView::Nothing);
            let second = texture_model(image, first.phase, ReplyView::Created(texture));
            &&& first.result is None
            &&& first.calls + second.calls == seq![CallView::CreateTexture] + texture_calls(
                image,
                texture,
            )
            &&& second.result == Some(
                Ok::<Texture, ErrorView>(
                    Texture { handle: texture, width: image.width, height: image.height },
                ),
            )
            &&& second.phase == TexturePhase::Finished
        }),
{
}

/// A texture upload cannot fail on the driver's side: it ends with a texture
/// whenever the driver answers the create call with the object it made. A
/// turn hands out a result exactly when it ends the upload.
pub proof fn lemma_texture_ends_with_result(image: ImageView, phase: TexturePhase, reply: ReplyView)
    ensures
        texture_model(image, phase, reply).result matches Some(Ok(uploaded)) <==> phase
            is AwaitTexture && reply is Created,
        texture_model(image, phase, reply).result is Some <==> texture_model(
            image,
            phase,
            reply,
        ).phase == TexturePhase::Finished,
{
}

/// The sampling policy is fixed and the upload makes one level: among the
/// calls of an upload are exactly four parameter calls, which clamp both
/// axes to the edge and filter linearly both ways, and exactly one image
/// call, which is the last call and uploads level zero.
pub proof fn lemma_texture_policy(image: ImageView, texture: Handle)
    ensures
        ({
            let calls = texture_calls(image, texture);
            &&& calls.len() == 6
            &&& calls[1] == parameter_call(TEXTURE_WRAP_S, CLAMP_TO_EDGE)
            &&& calls[2] == parameter_call(TEXTURE_WRAP_T, CLAMP_TO_EDGE)
            &&& calls[3] == parameter_call(TEXTURE_MIN_FILTER, LINEAR)
            &&& calls[4] == parameter_call(TEXTURE_MAG_FILTER, LINEAR)
            &&& forall|k: int|
                0 <= k < 6 ==> ((#[trigger] calls[k]) is TexParameter <==> 1 <= k <= 4)
            &&& forall|k: int| 0 <= k < 6 ==> ((#[trigger] calls[k]) is TexImage2D <==> k == 5)
            &&& calls[5] matches CallView::TexImage2D { level, width, height, pixels, .. }
                && level == 0 && pixels == image.pixels
        }),
{
}

/// With the first texture unit active, as it is in a fresh context, the
/// uploaded texture is bound to that unit when the upload ends, and no other
/// binding changes.
pub proof fn lemma_texture_leaves_bound(ctx: RenderContext, image: ImageView, texture: Handle)
    requires
        ctx.active_unit == crate::codes::TEXTURE0,
    ensures
        ctx.after_all(seq![CallView::CreateTexture] + texture_calls(image, texture))
            == (RenderContext { first_unit_texture: Some(texture), ..ctx }),
{
    let calls = texture_calls(image, texture);
    let none = Seq::<CallView>::empty();
    let c = CallView::CreateTexture;
    let s0 = none.push(c);
    let s1 = s0.push(calls[0]);
    let s2 = s1.push(calls[1]);
    let s3 = s2.push(calls[2]);
    let s4 = s3.push(calls[3]);
    let s5 = s4.push(calls[4]);
    let s6 = s5.push(calls[5]);
    lemma_after_all_push(ctx, none, c);
    lemma_after_all_push(ctx, s0, calls[0]);
    lemma_after_all_push(ctx, s1, calls[1]);
    lemma_after_all_push(ctx, s2, calls[2]);
    lemma_after_all_push(ctx, s3, calls[3]);
    lemma_after_all_push(ctx, s4, calls[4]);
    lemma_after_all_push(ctx, s5, calls[5]);
    assert(s6 =~= seq![CallView::CreateTexture] + calls);
}

} // verus!
