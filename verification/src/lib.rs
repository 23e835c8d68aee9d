//! Platform-independent logic of an OpenGL context backed by a GTK drawing
//! area: the pixel format that a context is created with, the API it speaks,
//! and the answers it gives to buffer-swapping requests.

pub mod pixel_format;
pub mod error;
pub mod gl_library;
pub mod context;
