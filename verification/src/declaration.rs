//! Function declarations: the entry points that a module surface is made of.

use crate::type_tag::TypeTag;
use vstd::prelude::*;

verus! {

/// One parameter of a native function: its name and the tag of its type.
#[derive(Debug, PartialEq, Eq)]
pub struct Parameter {
    name: String,
    tag: TypeTag,
}

/// The mathematical value of a [`Parameter`].
pub struct ParameterView {
    pub name: Seq<char>,
    pub tag: TypeTag,
}

impl View for Parameter {
    type V = ParameterView;

    closed spec fn view(&self) -> ParameterView {
        ParameterView { name: self.name@, tag: self.tag }
    }
}

impl Parameter {
    /// A parameter of the given name and type.
    pub fn new(name: &str, tag: TypeTag) -> (parameter: Parameter)
        ensures
            parameter@ == (ParameterView { name: name@, tag }),
    {
        Parameter { name: String::from_str(name), tag }
    }

    /// The parameter's name.
    pub fn name(&self) -> (name: &String)
        ensures
            name@ == self@.name,
    {
        &self.name
    }

    /// The tag of the parameter's type.
    pub fn tag(&self) -> (tag: TypeTag)
        ensures
            tag == self@.tag,
    {
        self.tag
    }
}

impl Clone for Parameter {
    fn clone(&self) -> (copy: Parameter)
        ensures
            copy@ == self@,
    {
        Parameter { name: self.name.clone(), tag: self.tag }
    }
}

/// The values of a list of parameters, in order.
pub open spec fn parameter_views(parameters: Seq<Parameter>) -> Seq<ParameterView> {
    parameters.map_values(|p: Parameter| p@)
}

/// Copies a parameter list.
fn clone_parameters(parameters: &Vec<Parameter>) -> (copy: Vec<Parameter>)
    ensures
        parameter_views(copy@) == parameter_views(parameters@),
{
    let mut copy: Vec<Parameter> = Vec::new();
    let mut i: usize = 0;
    while i < parameters.len()
        invariant
            i <= parameters.len(),
            copy.len() == i,
            forall|k: int| 0 <= k < i ==> copy[k]@ == parameters[k]@,
        decreases parameters.len() - i,
    {
        copy.push(parameters[i].clone());
        i += 1;
    }
    assert(parameter_views(copy@) =~= parameter_views(parameters@));
    copy
}

/// One native entry point: its name, its parameters in order, the tag of the
/// type it returns, and the handle by which the embedding program finds the
/// native implementation.
#[derive(Debug, PartialEq, Eq)]
pub struct FunctionDeclaration {
    name: String,
    parameters: Vec<Parameter>,
    return_type: TypeTag,
    implementation: usize,
}

/// The mathematical value of a [`FunctionDeclaration`].
pub struct DeclarationView {
    pub name: Seq<char>,
    pub parameters: Seq<ParameterView>,
    pub return_type: TypeTag,
    pub implementation: usize,
}

/// The declaration that is made of the given parts.
pub open spec fn declaration_of(
    name: Seq<char>,
    implementation: usize,
    parameters: Seq<Parameter>,
    return_type: TypeTag,
) -> DeclarationView {
    DeclarationView { name, parameters: parameter_views(parameters), return_type, implementation }
}

impl View for FunctionDeclaration {
    type V = DeclarationView;

    closed spec fn view(&self) -> DeclarationView {
        DeclarationView {
            name: self.name@,
            parameters: parameter_views(self.parameters@),
            return_type: self.return_type,
            implementation: self.implementation,
        }
    }
}

impl FunctionDeclaration {
    /// The declaration of a function of the given name, implementation,
    /// parameters and return type.
    pub fn new(
        name: &str,
        implementation: usize,
        parameters: Vec<Parameter>,
        return_type: TypeTag,
    ) -> (declaration: FunctionDeclaration)
        ensures
            declaration@ == declaration_of(name@, implementation, parameters@, return_type),
    {
        FunctionDeclaration { name: String::from_str(name), parameters, return_type, implementation }
    }

    /// The function's name.
    pub fn name(&self) -> (name: &String)
        ensures
            name@ == self@.name,
    {
        &self.name
    }

    /// The function's parameters, in order.
    pub fn parameters(&self) -> (parameters: &Vec<Parameter>)
        ensures
            parameter_views(parameters@) == self@.parameters,
    {
        &self.parameters
    }

    /// The tag of the type that the function returns.
    pub fn return_type(&self) -> (tag: TypeTag)
        ensures
            tag == self@.return_type,
    {
        self.return_type
    }

    /// The handle of the native implementation.
    pub fn implementation(&self) -> (handle: usize)
        ensures
            handle == self@.implementation,
    {
        self.implementation
    }
}

impl Clone for FunctionDeclaration {
    fn clone(&self) -> (copy: FunctionDeclaration)
        ensures
            copy@ == self@,
    {
        FunctionDeclaration {
            name: self.name.clone(),
            parameters: clone_parameters(&self.parameters),
            return_type: self.return_type,
            implementation: self.implementation,
        }
    }
}

/// The values of a list of declarations, in order.
pub open spec fn declaration_views(declarations: Seq<FunctionDeclaration>) -> Seq<
    DeclarationView,
> {
    declarations.map_values(|d: FunctionDeclaration| d@)
}

/// Copies a list of declarations.
pub fn clone_declarations(declarations: &Vec<FunctionDeclaration>) -> (copy: Vec<
    FunctionDeclaration,
>)
    ensures
        declaration_views(copy@) == declaration_views(declarations@),
{
    let mut copy: Vec<FunctionDeclaration> = Vec::new();
    let mut i: usize = 0;
    while i < declarations.len()
        invariant
            i <= declarations.len(),
            copy.len() == i,
            forall|k: int| 0 <= k < i ==> copy[k]@ == declarations[k]@,
        decreases declarations.len() - i,
    {
        copy.push(declarations[i].clone());
        i += 1;
    }
    assert(declaration_views(copy@) =~= declaration_views(declarations@));
    copy
}

} // verus!
