//! The module as it is built: its one native function, the surface that
//! exposes it, and the stub of that surface.

use crate::declaration::{parameter_views, DeclarationView, Parameter};
use crate::registry::{ModuleSurface, Registry, SurfaceView};
use crate::stub::{generate, StubBlockView, StubDocument, StubDocumentView};
use crate::type_tag::TypeTag;
use vstd::prelude::*;

verus! {

/// The name under which the host imports the module.
pub const MODULE_NAME: &'static str = "rust";

/// The name under which the host calls the greeting function.
pub const HELLO_WORLD: &'static str = "hello_world";

/// The handle of the greeting function's native implementation.
pub const HELLO_WORLD_HANDLE: usize = 0;

/// The declaration of the greeting function: no parameter, no value
/// returned.
pub open spec fn hello_world_declaration() -> DeclarationView {
    DeclarationView {
        name: HELLO_WORLD@,
        parameters: Seq::empty(),
        return_type: TypeTag::Unit,
        implementation: HELLO_WORLD_HANDLE,
    }
}

/// The line that the greeting function writes to standard output, without
/// the line's end.
pub fn hello_world() -> (line: String)
    ensures
        line@ == "Hello, world!"@,
{
    String::from_str("Hello, world!")
}

/// The surface of the module: the greeting function and nothing else.
pub fn module_surface() -> (surface: ModuleSurface)
    ensures
        surface@ == (SurfaceView {
            module: MODULE_NAME@,
            declarations: seq![hello_world_declaration()],
        }),
{
    let mut registry = Registry::new(MODULE_NAME);
    let parameters: Vec<Parameter> = Vec::new();
    assert(parameter_views(parameters@) =~= Seq::empty());
    let declared = registry.declare(HELLO_WORLD, HELLO_WORLD_HANDLE, parameters, TypeTag::Unit);
    assert(declared is Ok);
    let closed = registry.finalize();
    assert(closed is Ok);
    let surface = closed.unwrap();
    assert(surface@.declarations =~= seq![hello_world_declaration()]);
    surface
}

/// The stub of the module: one block, which declares the greeting function
/// as a callable without parameters that returns no value.
pub fn module_stub() -> (document: StubDocument)
    ensures
        document@ == (StubDocumentView {
            imports: Seq::empty(),
            blocks: seq![
                StubBlockView {
                    name: HELLO_WORLD@,
                    parameters: Seq::empty(),
                    return_token: "None"@,
                },
            ],
        }),
{
    let surface = module_surface();
    assert(surface@.declarations[0] == hello_world_declaration());
    let generated = generate(&surface);
    assert(generated is Ok);
    let document = generated.unwrap();
    assert(document@.blocks[0].parameters =~= Seq::empty());
    assert(document@.blocks =~= seq![
        StubBlockView { name: HELLO_WORLD@, parameters: Seq::empty(), return_token: "None"@ },
    ]);
    assert(document@.imports =~= Seq::empty());
    document
}

} // verus!
