//! Validated, leak-free building blocks for driving an OpenGL context:
//! buffers, shaders and programs, textures and interleaved vertex layouts.
//!
//! Nothing in this crate calls the driver. Each operation checks its input
//! and then proceeds as a [`Task`]: it names one driver call at a time and
//! takes the driver's reply, so that every decision, and every deletion that
//! a failure makes necessary, is taken here.

pub mod constants;
pub mod driver;
pub mod error;
pub mod lifetime;
pub mod shader;
pub mod text;
pub mod texture;
pub mod util;
pub mod vertex_array;

pub use driver::{DriverCall, DriverReply, Exchange, Resource, Task};
pub use error::{Error, ErrorCategory};
pub use shader::{compile_shader, create_program, ProgramBuilder};
pub use vertex_array::{create_buffer, enable_interleaved_vertex_array_attributes, get_error};
