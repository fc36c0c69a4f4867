use kscale::native::{HELLO_WORLD, HELLO_WORLD_HANDLE, MODULE_NAME};
use kscale::{generate, hello_world, module_stub, module_surface, TypeTag};

#[test]
fn greeting_is_the_fixed_line() {
    assert_eq!(hello_world(), "Hello, world!");
}

#[test]
fn module_surface_exposes_hello_world_alone() {
    let surface = module_surface();
    assert_eq!(surface.module(), "rust");
    assert_eq!(surface.module(), MODULE_NAME);
    assert_eq!(surface.len(), 1);
    let declaration = &surface.declarations()[0];
    assert_eq!(declaration.name(), "hello_world");
    assert_eq!(declaration.name(), HELLO_WORLD);
    assert!(declaration.parameters().is_empty());
    assert_eq!(declaration.return_type(), TypeTag::Unit);
    assert_eq!(declaration.implementation(), HELLO_WORLD_HANDLE);
}

#[test]
fn module_stub_declares_hello_world() {
    let document = module_stub();
    assert_eq!(document.text(), "def hello_world() -> None: ...\n\n");
    assert_eq!(Ok(document), generate(&module_surface()));
}
