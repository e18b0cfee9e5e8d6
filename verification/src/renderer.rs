//! The sizes and decisions of the presentation pipeline: what is built when
//! it is set up, what a resize changes, and what presenting one frame asks
//! of the graphics device.

use crate::convert::bgra_of;
use crate::error::{Error, ErrorKind};
use crate::producer::{frame_of, lemma_frame_len};
use crate::spirv::{is_spirv, read_spirv, spirv_words};
use vstd::prelude::*;

verus! {

/// The number of bytes of one pixel of the texture.
pub const BYTES_PER_PIXEL: u32 = 4;

/// The number of vertices of the quad that shows the texture.
pub const QUAD_VERTICES: u32 = 4;

/// The extent of a texture, in texels.
#[derive(Debug, Clone, Copy, PartialEq, Eq, Structural)]
pub struct Extent3d {
    pub width: u32,
    pub height: u32,
    pub depth: u32,
}

/// The size of the framebuffers that the swap chain holds, in pixels.
#[derive(Debug, Clone, Copy, PartialEq, Eq, Structural)]
pub struct SwapChainDescriptor {
    pub width: u32,
    pub height: u32,
}

/// What presenting one frame asks of the graphics device: a copy of the
/// staged bytes into the texture, then one pass that clears the target and
/// draws the quad.
#[derive(Debug, Clone, Copy, PartialEq, Eq, Structural)]
pub struct FramePass {
    /// The number of bytes staged for the copy.
    pub staged_len: usize,
    /// Where in the staged bytes the copy starts.
    pub offset: u64,
    /// The number of staged bytes that make one row of the texture.
    pub bytes_per_row: u32,
    /// The number of rows between one layer and the next; zero for one layer.
    pub rows_per_image: u32,
    /// The part of the texture that the copy fills: all of it.
    pub extent: Extent3d,
    /// The number of vertices drawn, as one triangle strip.
    pub vertices: u32,
    /// The number of instances drawn.
    pub instances: u32,
}

/// What a renderer is, as plain mathematical values.
pub struct RendererView {
    /// The width of the image, in pixels.
    pub img_w: nat,
    pub sc_desc: SwapChainDescriptor,
    pub texture_extent: Extent3d,
    /// The words of the vertex stage.
    pub vertex_shader: Seq<u32>,
    /// The words of the fragment stage.
    pub fragment_shader: Seq<u32>,
}

impl RendererView {
    /// The number of bytes of one frame for the texture.
    pub open spec fn frame_len(self) -> nat {
        (BYTES_PER_PIXEL * self.texture_extent.width * self.texture_extent.height) as nat
    }

    /// This renderer once its surface has the given size.
    pub open spec fn resized(self, width: u32, height: u32) -> RendererView {
        RendererView { sc_desc: SwapChainDescriptor { width, height }, ..self }
    }

    /// The pass that presents one frame.
    pub open spec fn frame_pass(self) -> FramePass {
        FramePass {
            staged_len: self.frame_len() as usize,
            offset: 0,
            bytes_per_row: (BYTES_PER_PIXEL * self.img_w) as u32,
            rows_per_image: 0,
            extent: self.texture_extent,
            vertices: QUAD_VERTICES,
            instances: 1,
        }
    }

    /// What presenting one frame comes to, given what the swap chain
    /// answered when asked for its next texture: with a texture, that
    /// texture and the pass to run on it; with a timeout, the failure that
    /// holds the timeout.
    pub open spec fn rendered<T>(self, next_texture: Result<T, wgpu::TimeOut>) -> Result<
        (T, FramePass),
        Error,
    > {
        match next_texture {
            Ok(texture) => Ok((texture, self.frame_pass())),
            Err(timeout) => Err(Error::SwapChainTimeout(timeout)),
        }
    }
}

/// What setting the pipeline up comes to, for a surface and an image of the
/// given sizes: no adapter is the first failure, a vertex or fragment binary
/// that is no shader binary the second; otherwise the adapter comes back
/// with the renderer.
pub open spec fn set_up<A>(
    surface_width: u32,
    surface_height: u32,
    img_w: nat,
    img_h: nat,
    adapter: Option<A>,
    vertex_spirv: Seq<u8>,
    fragment_spirv: Seq<u8>,
    result: Result<(A, Renderer), Error>,
) -> bool {
    if adapter is None {
        result matches Err(Error::NoAdapter)
    } else if !is_spirv(vertex_spirv) || !is_spirv(fragment_spirv) {
        result matches Err(Error::ShaderLoad(_))
    } else {
        result matches Ok(pair) && pair.0 == adapter->0 && pair.1@ == (RendererView {
            img_w,
            sc_desc: SwapChainDescriptor { width: surface_width, height: surface_height },
            texture_extent: Extent3d { width: img_w as u32, height: img_h as u32, depth: 1 },
            vertex_shader: spirv_words(vertex_spirv),
            fragment_shader: spirv_words(fragment_spirv),
        })
    }
}

/// The sizes of the presentation pipeline and the words of its two shader
/// stages.
pub struct Renderer {
    img_w: usize,
    sc_desc: SwapChainDescriptor,
    texture_extent: Extent3d,
    vertex_shader: Vec<u32>,
    fragment_shader: Vec<u32>,
}

impl View for Renderer {
    type V = RendererView;

    closed spec fn view(&self) -> RendererView {
        RendererView {
            img_w: self.img_w as nat,
            sc_desc: self.sc_desc,
            texture_extent: self.texture_extent,
            vertex_shader: self.vertex_shader@,
            fragment_shader: self.fragment_shader@,
        }
    }
}

impl Renderer {
    /// The texture is one layer of the image's width, and a row of it is
    /// counted in bytes without overflow.
    #[verifier::type_invariant]
    closed spec fn inv(self) -> bool {
        &&& self.texture_extent.width == self.img_w
        &&& self.texture_extent.depth == 1
        &&& BYTES_PER_PIXEL * self.img_w <= u32::MAX
    }

    /// Sets the pipeline up for an image of `img_w` by `img_h` pixels on a
    /// surface of the given size. `adapter` is what the graphics device
    /// offered for the surface, if anything; the two binaries are the vertex
    /// and the fragment stage.
    pub fn new<A>(
        surface_width: u32,
        surface_height: u32,
        img_w: usize,
        img_h: usize,
        adapter: Option<A>,
        vertex_spirv: &[u8],
        fragment_spirv: &[u8],
    ) -> (result: Result<(A, Self), Error>)
        requires
            BYTES_PER_PIXEL * img_w <= u32::MAX,
            img_h <= u32::MAX,
        ensures
            set_up(
                surface_width,
                surface_height,
                img_w as nat,
                img_h as nat,
                adapter,
                vertex_spirv@,
                fragment_spirv@,
                result,
            ),
    {
        let adapter = match Self::setup_adapter_device_queue(adapter) {
            Ok(adapter) => adapter,
            Err(e) => {
                return Err(e);
            },
        };
        let sc_desc = Self::setup_swap_chain(surface_width, surface_height);
        let (vertex_shader, fragment_shader) = match Self::setup_pipeline(
            vertex_spirv,
            fragment_spirv,
        ) {
            Ok(words) => words,
            Err(e) => {
                return Err(e);
            },
        };
        let texture_extent = Self::setup_texture(img_w, img_h);
        Ok((adapter, Renderer { img_w, sc_desc, texture_extent, vertex_shader, fragment_shader }))
    }

    /// The size of the swap chain's framebuffers for a surface of the given
    /// size.
    fn setup_swap_chain(width: u32, height: u32) -> (sc_desc: SwapChainDescriptor)
        ensures
            sc_desc == (SwapChainDescriptor { width, height }),
    {
        SwapChainDescriptor { width, height }
    }

    /// Without an adapter there is no device and no queue.
    fn setup_adapter_device_queue<A>(adapter: Option<A>) -> (result: Result<A, Error>)
        ensures
            adapter matches Some(a) ==> result == Ok::<A, Error>(a),
            adapter is None ==> result matches Err(Error::NoAdapter),
    {
        match adapter {
            Some(adapter) => Ok(adapter),
            None => Err(Error::NoAdapter),
        }
    }

    /// The extent of the texture that holds an image of the given size.
    fn setup_texture(width: usize, height: usize) -> (extent: Extent3d)
        requires
            width <= u32::MAX,
            height <= u32::MAX,
        ensures
            extent == (Extent3d { width: width as u32, height: height as u32, depth: 1 }),
    {
        Extent3d { width: width as u32, height: height as u32, depth: 1 }
    }

    /// The words of the two shader stages, the vertex stage read first.
    fn setup_pipeline(vertex_spirv: &[u8], fragment_spirv: &[u8]) -> (result: Result<
        (Vec<u32>, Vec<u32>),
        Error,
    >)
        ensures
            result is Ok <==> is_spirv(vertex_spirv@) && is_spirv(fragment_spirv@),
            result matches Ok(words) ==> words.0@ == spirv_words(vertex_spirv@) && words.1@
                == spirv_words(fragment_spirv@),
            result matches Err(e) ==> e matches Error::ShaderLoad(_),
    {
        let vs = match read_spirv(vertex_spirv) {
            Ok(words) => words,
            Err(e) => {
                return Err(Error::ShaderLoad(e));
            },
        };
        let fs = match read_spirv(fragment_spirv) {
            Ok(words) => words,
            Err(e) => {
                return Err(Error::ShaderLoad(e));
            },
        };
        Ok((vs, fs))
    }

    /// Takes note of the surface's new size, for which the swap chain is to
    /// be built anew.
    pub fn resize(&mut self, width: u32, height: u32)
        ensures
            final(self)@ == old(self)@.resized(width, height),
    {
        proof {
            use_type_invariant(&*self);
        }
        self.sc_desc.width = width;
        self.sc_desc.height = height;
    }

    /// Decides how the frame `bgra8_data` is presented. `next_texture` is
    /// what the swap chain answered when asked for its next texture: after a
    /// timeout the frame is given up; otherwise the pass copies the frame
    /// into the whole texture and draws the quad on the texture handed out.
    pub fn render<T>(&self, bgra8_data: &[u8], next_texture: Result<T, wgpu::TimeOut>) -> (result:
        Result<(T, FramePass), Error>)
        requires
            bgra8_data@.len() == self@.frame_len(),
        ensures
            result == self@.rendered(next_texture),
    {
        proof {
            use_type_invariant(self);
        }
        let texture = match next_texture {
            Ok(texture) => texture,
            Err(timeout) => {
                return Err(Error::SwapChainTimeout(timeout));
            },
        };
        let pass = FramePass {
            staged_len: bgra8_data.len(),
            offset: 0,
            bytes_per_row: BYTES_PER_PIXEL * (self.img_w as u32),
            rows_per_image: 0,
            extent: self.texture_extent,
            vertices: QUAD_VERTICES,
            instances: 1,
        };
        Ok((texture, pass))
    }

    /// The width of the image, in pixels.
    pub fn img_w(&self) -> (w: usize)
        ensures
            w == self@.img_w,
    {
        self.img_w
    }

    /// The size of the swap chain's framebuffers.
    pub fn sc_desc(&self) -> (sc_desc: SwapChainDescriptor)
        ensures
            sc_desc == self@.sc_desc,
    {
        self.sc_desc
    }

    /// The extent of the texture.
    pub fn texture_extent(&self) -> (extent: Extent3d)
        ensures
            extent == self@.texture_extent,
    {
        self.texture_extent
    }

    /// The words of the vertex stage.
    pub fn vertex_shader(&self) -> (words: &Vec<u32>)
        ensures
            words@ == self@.vertex_shader,
    {
        &self.vertex_shader
    }

    /// The words of the fragment stage.
    pub fn fragment_shader(&self) -> (words: &Vec<u32>)
        ensures
            words@ == self@.fragment_shader,
    {
        &self.fragment_shader
    }
}

/// Presenting a frame after a resize comes to what it came to before, and
/// where it fails the frame is given up and no more: what ends the program
/// comes from setting the pipeline up.
pub proof fn lemma_render_after_resize_never_fatal<T>(
    renderer: RendererView,
    width: u32,
    height: u32,
    next_texture: Result<T, wgpu::TimeOut>,
)
    ensures
        renderer.resized(width, height).rendered(next_texture) == renderer.rendered(next_texture),
        renderer.resized(width, height).rendered(next_texture) matches Err(e) ==> e.spec_kind()
            == ErrorKind::TransientPresentation,
{
}

/// A timeout of the swap chain gives the frame up with the failure that
/// holds that timeout, which costs a frame and no more; nothing else makes
/// presenting fail.
pub proof fn lemma_timeout_is_transient<T>(
    renderer: RendererView,
    next_texture: Result<T, wgpu::TimeOut>,
)
    ensures
        next_texture matches Err(timeout) ==> renderer.rendered(next_texture) == Err::<
            (T, FramePass),
            Error,
        >(Error::SwapChainTimeout(timeout)) && Error::SwapChainTimeout(timeout).spec_kind()
            == ErrorKind::TransientPresentation,
        next_texture is Ok <==> renderer.rendered(next_texture) is Ok,
{
}

/// A frame of the producer, widened to four bytes per pixel, has the length
/// that a renderer with a texture of the frame's size takes.
pub proof fn lemma_widened_frame_fits(
    renderer: RendererView,
    width: nat,
    height: nat,
    shades: Seq<u8>,
    frame: nat,
)
    requires
        renderer.texture_extent.width == width,
        renderer.texture_extent.height == height,
    ensures
        bgra_of(frame_of(width, height, shades, frame)).len() == renderer.frame_len(),
{
    lemma_frame_len(width, height, shades, frame);
    assert((3 * width * height) / 3 == width * height && 4 * (width * height) == 4 * width
        * height) by (nonlinear_arith);
}

} // verus!
