use vstd::prelude::*;

use crate::error::{ContextError, CreationError};
use crate::gl_library::{GlLibrary, ProcLookup};
use crate::pixel_format::{pixel_format_for, raw_pixel_format, PixelFormat, PixelFormatRequirements};

verus! {

/// The rendering API that a context speaks.
#[derive(Clone, Copy, Debug, PartialEq, Eq)]
pub enum Api {
    OpenGl,
    OpenGlEs,
    WebGl,
}

/// A rectangle of a surface, in pixels, with its origin at the bottom left.
#[derive(Clone, Copy, Debug, PartialEq, Eq)]
pub struct Rect {
    pub x: u32,
    pub y: u32,
    pub width: u32,
    pub height: u32,
}

/// The state that an OpenGL context on a GTK drawing area keeps of its own:
/// the pixel format that it was created with, and the OpenGL library that it
/// opened. The drawing area itself is
/// held beside it by the caller that built it.
#[derive(Debug)]
pub struct Context {
    pf: PixelFormat,
    library: GlLibrary,
}

impl View for Context {
    type V = PixelFormat;

    /// The pixel format that the context was created with.
    closed spec fn view(&self) -> PixelFormat {
        self.pf
    }
}

/// Whether this backend can swap only the damaged parts of a surface.
pub open spec fn damage_swap_supported() -> bool {
    false
}

/// What a request to swap only the rectangles `rects` is answered.
pub open spec fn damage_swap_outcome(rects: Seq<Rect>) -> Result<(), ContextError> {
    Err(ContextError::FunctionUnavailable)
}

/// What `Context::new_windowed` gives back for the outcome `window` of
/// building the window: the built window with a context of the format that
/// `reqs` asks for, or the window's error.
pub open spec fn windowed_outcome<W>(
    window: Result<W, String>,
    reqs: PixelFormatRequirements,
    result: Result<(W, Context), CreationError>,
) -> bool {
    match window {
        Ok(w) => result matches Ok((w2, ctx)) && w2 == w && ctx@ == pixel_format_for(reqs),
        Err(msg) => result == Err::<(W, Context), CreationError>(CreationError::Window(msg)),
    }
}

impl Context {
    /// Creates the context of a window from the outcome of building that
    /// window: where the window could not be built, its error is returned;
    /// else the OpenGL library is opened and the window comes back with a
    /// context of the pixel format that `pf_reqs` asks for.
    pub fn new_windowed<W>(window: Result<W, String>, pf_reqs: &PixelFormatRequirements) -> (res:
        Result<(W, Context), CreationError>)
        ensures
            windowed_outcome(window, *pf_reqs, res),
    {
        let pixel_format = PixelFormat::from_requirements(pf_reqs);
        match window {
            Err(msg) => Err(CreationError::Window(msg)),
            Ok(w) => {
                let library = GlLibrary::open();
                Ok((w, Context { pf: pixel_format, library }))
            },
        }
    }

    /// Creates an off-screen context: opens the OpenGL library and gives a
    /// context of the pixel format that `pf_reqs` asks for. It never fails.
    pub fn new_headless(pf_reqs: &PixelFormatRequirements) -> (res: Result<Context, CreationError>)
        ensures
            res matches Ok(ctx) && ctx@ == pixel_format_for(*pf_reqs),
    {
        let pixel_format = PixelFormat::from_requirements(pf_reqs);
        let library = GlLibrary::open();
        Ok(Context { pf: pixel_format, library })
    }

    /// Creates the context of a window that the caller supplies: opens the
    /// OpenGL library and gives a context of the fixed raw pixel format.
    pub fn new_raw() -> (ctx: Context)
        ensures
            ctx@ == raw_pixel_format(),
    {
        let pixel_format = PixelFormat::raw_context_format();
        let library = GlLibrary::open();
        Context { pf: pixel_format, library }
    }

    /// The rendering API: always desktop OpenGL.
    pub fn get_api(&self) -> (api: Api)
        ensures
            api == Api::OpenGl,
    {
        Api::OpenGl
    }

    /// Resizing needs nothing: the drawing area follows its window's size.
    pub fn resize(&self, _width: u32, _height: u32) {
    }

    /// The address of the OpenGL function `addr`, looked up in the OpenGL
    /// library that the context opened: the outcome of the lookup of `addr`.
    pub fn get_proc_address(&self, addr: &str) -> (res: ProcLookup)
        requires
            !addr@.contains('\0'),
        ensures
            res.name() == addr@,
    {
        self.library.proc_address(addr)
    }

    /// Swapping only damaged rectangles is not available: always refused.
    pub fn swap_buffers_with_damage(&self, rects: &[Rect]) -> (res: Result<(), ContextError>)
        ensures
            res == damage_swap_outcome(rects@),
    {
        Err(ContextError::FunctionUnavailable)
    }

    /// Whether swapping only damaged rectangles is available: never.
    pub fn swap_buffers_with_damage_supported(&self) -> (supported: bool)
        ensures
            supported == damage_swap_supported(),
    {
        false
    }

    /// The pixel format that the context was created with.
    pub fn get_pixel_format(&self) -> (pf: PixelFormat)
        ensures
            pf == self@,
    {
        self.pf
    }
}

/// A damage swap is refused, whatever rectangles it names, exactly because
/// the backend reports that it does not support one.
pub proof fn lemma_damage_swap_refused_as_unsupported(rects: Seq<Rect>)
    ensures
        !damage_swap_supported(),
        damage_swap_outcome(rects) == Err::<(), ContextError>(ContextError::FunctionUnavailable),
{
}

/// The pixel format that a context reports is the one derived from the
/// requirements it was created with, whether it was created for a window or
/// off screen; a raw context reports the fixed raw format.
pub proof fn lemma_reported_format_is_requested<W>(
    reqs: PixelFormatRequirements,
    window: Result<W, String>,
    windowed: Result<(W, Context), CreationError>,
    headless: Result<Context, CreationError>,
)
    requires
        windowed_outcome(window, reqs, windowed),
        headless matches Ok(ctx) && ctx@ == pixel_format_for(reqs),
    ensures
        windowed matches Ok((_, ctx)) ==> ctx@ == headless->Ok_0@,
        window is Ok <==> windowed is Ok,
{
}

} // verus!
