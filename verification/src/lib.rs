//! A native-binding module surface and its interface stubs.
//!
//! A registry collects the declarations of the native functions that a
//! module exposes to its host and closes them into a module surface. The
//! stub emitter turns a surface into a stub document, the host-language
//! interface description of that surface.

pub mod declaration;
pub mod error;
pub mod native;
pub mod registry;
pub mod render;
pub mod stub;
pub mod type_tag;
pub mod write;

pub use declaration::{FunctionDeclaration, Parameter};
pub use error::BindingError;
pub use native::{hello_world, module_stub, module_surface};
pub use registry::{ModuleSurface, Registry};
pub use stub::{generate, StubBlock, StubDocument, StubParameter};
pub use type_tag::{host_token, TypeTag};
pub use write::{stub_file_name, WriteAction, WritePhase, WritePlan};
