//! Support library for a small OpenGL demo engine: a Wavefront OBJ parser,
//! mesh batching helpers, frame-loop bookkeeping, and a uniform error type.

pub mod app;
pub mod assets;
pub mod mesh;
pub mod obj;
pub mod result;
pub mod text;
pub mod vertex;

pub use obj::Obj;
pub use obj::ObjError;
pub use result::Oops;
pub use result::oops;
