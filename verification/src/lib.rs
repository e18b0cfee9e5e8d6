//! Frame preparation for a textured-quad presenter: a checkerboard source of
//! three-byte pixels, the widening of such frames to four bytes per pixel, and
//! the bookkeeping of the pipeline that uploads and presents them.

pub mod convert;
pub mod error;
pub mod producer;
pub mod renderer;
pub mod spirv;

pub use convert::bgr2bgra;
pub use error::Error;
pub use producer::Producer;
pub use renderer::Renderer;
