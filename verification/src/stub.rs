//! The stub emitter: it derives from a module surface the document that
//! declares the surface to the host's tooling.

use crate::declaration::{
    declaration_views, parameter_views, DeclarationView, FunctionDeclaration, ParameterView,
};
use crate::error::{BindingError, BindingErrorView};
use crate::registry::{names_unique, ModuleSurface, SurfaceView};
use crate::render::render_document;
use crate::type_tag::{host_token, host_token_of, needs_builtins};
use vstd::prelude::*;

verus! {

/// One parameter as a stub declares it: its name and the token of its type.
#[derive(Debug, PartialEq, Eq)]
pub struct StubParameter {
    pub name: String,
    pub token: String,
}

/// The mathematical value of a [`StubParameter`].
pub struct StubParameterView {
    pub name: Seq<char>,
    pub token: Seq<char>,
}

impl View for StubParameter {
    type V = StubParameterView;

    open spec fn view(&self) -> StubParameterView {
        StubParameterView { name: self.name@, token: self.token@ }
    }
}

/// The block that declares one function: its name, its parameters in order,
/// and the token of the type it returns.
#[derive(Debug, PartialEq, Eq)]
pub struct StubBlock {
    pub name: String,
    pub parameters: Vec<StubParameter>,
    pub return_token: String,
}

/// The mathematical value of a [`StubBlock`].
pub struct StubBlockView {
    pub name: Seq<char>,
    pub parameters: Seq<StubParameterView>,
    pub return_token: Seq<char>,
}

impl View for StubBlock {
    type V = StubBlockView;

    open spec fn view(&self) -> StubBlockView {
        StubBlockView {
            name: self.name@,
            parameters: self.parameters@.map_values(|p: StubParameter| p@),
            return_token: self.return_token@,
        }
    }
}

/// The interface description of a module surface: the host modules that its
/// tokens refer to, and one block for each function, in the order of
/// registration.
#[derive(Debug, PartialEq, Eq)]
pub struct StubDocument {
    pub imports: Vec<String>,
    pub blocks: Vec<StubBlock>,
}

/// The mathematical value of a [`StubDocument`].
pub struct StubDocumentView {
    pub imports: Seq<Seq<char>>,
    pub blocks: Seq<StubBlockView>,
}

impl View for StubDocument {
    type V = StubDocumentView;

    open spec fn view(&self) -> StubDocumentView {
        StubDocumentView {
            imports: self.imports@.map_values(|m: String| m@),
            blocks: self.blocks@.map_values(|b: StubBlock| b@),
        }
    }
}

/// Whether the table holds every type tag that a declaration refers to.
pub open spec fn declaration_mapped(d: DeclarationView) -> bool {
    &&& host_token_of(d.return_type) is Some
    &&& forall|j: int|
        0 <= j < d.parameters.len() ==> host_token_of(#[trigger] d.parameters[j].tag) is Some
}

/// Whether a declaration refers to a type of the host's `builtins` module.
pub open spec fn uses_builtins(d: DeclarationView) -> bool {
    ||| needs_builtins(d.return_type)
    ||| exists|j: int| 0 <= j < d.parameters.len() && needs_builtins(#[trigger] d.parameters[j].tag)
}

/// A parameter as the stub declares it.
pub open spec fn stub_parameter_of(p: ParameterView) -> StubParameterView {
    StubParameterView { name: p.name, token: host_token_of(p.tag).unwrap() }
}

/// The block that declares a function, given that the table holds its types.
pub open spec fn block_of(d: DeclarationView) -> StubBlockView {
    StubBlockView {
        name: d.name,
        parameters: d.parameters.map_values(|p: ParameterView| stub_parameter_of(p)),
        return_token: host_token_of(d.return_type).unwrap(),
    }
}

/// The host modules that a stub of the given declarations has to import.
pub open spec fn imports_of(declarations: Seq<DeclarationView>) -> Seq<Seq<char>> {
    if exists|k: int| 0 <= k < declarations.len() && uses_builtins(#[trigger] declarations[k]) {
        seq!["builtins"@]
    } else {
        Seq::empty()
    }
}

/// The stub document of the given declarations, given that the table holds
/// their types.
pub open spec fn document_of(declarations: Seq<DeclarationView>) -> StubDocumentView {
    StubDocumentView {
        imports: imports_of(declarations),
        blocks: declarations.map_values(|d: DeclarationView| block_of(d)),
    }
}

/// Whether `k` is the place of the first declaration that refers to a type
/// tag that the table does not hold.
pub open spec fn is_first_unmapped(declarations: Seq<DeclarationView>, k: int) -> bool {
    &&& 0 <= k < declarations.len()
    &&& !declaration_mapped(declarations[k])
    &&& forall|j: int| 0 <= j < k ==> declaration_mapped(#[trigger] declarations[j])
}

/// What `generate` answers for a surface: the document of its declarations
/// where the table holds all their types, and else the error that names the
/// first function of which it does not.
pub open spec fn generated(
    surface: SurfaceView,
    outcome: Result<StubDocumentView, BindingErrorView>,
) -> bool {
    match outcome {
        Ok(document) => {
            &&& forall|k: int|
                0 <= k < surface.declarations.len() ==> declaration_mapped(
                    #[trigger] surface.declarations[k],
                )
            &&& document == document_of(surface.declarations)
        },
        Err(error) => exists|k: int|
            #![trigger surface.declarations[k]]
            is_first_unmapped(surface.declarations, k) && error
                == (BindingErrorView::UnmappedType { function: surface.declarations[k].name }),
    }
}

/// The value of what `generate` returns.
pub open spec fn outcome_view(outcome: Result<StubDocument, BindingError>) -> Result<
    StubDocumentView,
    BindingErrorView,
> {
    match outcome {
        Ok(document) => Ok(document@),
        Err(error) => Err(error@),
    }
}

/// Generation is a function of the surface: two answers of `generate` for
/// one surface are the same answer, and where they are documents, the same
/// text.
pub proof fn lemma_generate_deterministic(
    surface: SurfaceView,
    first: Result<StubDocumentView, BindingErrorView>,
    second: Result<StubDocumentView, BindingErrorView>,
)
    requires
        generated(surface, first),
        generated(surface, second),
    ensures
        first == second,
        first is Ok ==> render_document(first->Ok_0) == render_document(second->Ok_0),
{
    match (first, second) {
        (Ok(_), Err(_)) => {
            let k = choose|k: int|
                #![trigger surface.declarations[k]]
                is_first_unmapped(surface.declarations, k);
            assert(declaration_mapped(surface.declarations[k]));
        },
        (Err(_), Ok(_)) => {
            let k = choose|k: int|
                #![trigger surface.declarations[k]]
                is_first_unmapped(surface.declarations, k);
            assert(declaration_mapped(surface.declarations[k]));
        },
        (Err(a), Err(b)) => {
            let k = choose|k: int|
                #![trigger surface.declarations[k]]
                is_first_unmapped(surface.declarations, k) && a
                    == (BindingErrorView::UnmappedType { function: surface.declarations[k].name });
            let m = choose|m: int|
                #![trigger surface.declarations[m]]
                is_first_unmapped(surface.declarations, m) && b
                    == (BindingErrorView::UnmappedType { function: surface.declarations[m].name });
            if k < m {
                assert(declaration_mapped(surface.declarations[k]));
            } else if m < k {
                assert(declaration_mapped(surface.declarations[m]));
            }
        },
        (Ok(_), Ok(_)) => {},
    }
}

/// Every declaration of a surface has exactly one block in the document
/// generated from it: the block at the declaration's place. The block
/// carries the declaration's name and the names of its parameters, and for
/// the type of each parameter and for the return type the token that the
/// table gives. No other block carries that name.
pub proof fn lemma_one_block_for_each_declaration(surface: SurfaceView, document: StubDocumentView)
    requires
        names_unique(surface.declarations),
        generated(surface, Ok(document)),
    ensures
        document.blocks.len() == surface.declarations.len(),
        forall|i: int|
            #![trigger document.blocks[i]]
            0 <= i < document.blocks.len() ==> {
                let d = surface.declarations[i];
                let b = document.blocks[i];
                &&& b.name == d.name
                &&& host_token_of(d.return_type) == Some(b.return_token)
                &&& b.parameters.len() == d.parameters.len()
                &&& forall|j: int|
                    #![trigger b.parameters[j]]
                    0 <= j < b.parameters.len() ==> b.parameters[j].name == d.parameters[j].name
                        && host_token_of(d.parameters[j].tag) == Some(b.parameters[j].token)
            },
        forall|i: int, k: int|
            0 <= i < k < document.blocks.len() ==> (#[trigger] document.blocks[i]).name != (
            #[trigger] document.blocks[k]).name,
{
    assert forall|i: int| #![trigger document.blocks[i]] 0 <= i < document.blocks.len() implies {
        let d = surface.declarations[i];
        let b = document.blocks[i];
        &&& b.name == d.name
        &&& host_token_of(d.return_type) == Some(b.return_token)
        &&& b.parameters.len() == d.parameters.len()
        &&& forall|j: int|
            #![trigger b.parameters[j]]
            0 <= j < b.parameters.len() ==> b.parameters[j].name == d.parameters[j].name
                && host_token_of(d.parameters[j].tag) == Some(b.parameters[j].token)
    } by {
        assert(declaration_mapped(surface.declarations[i]));
    }
    assert forall|i: int, k: int| 0 <= i < k < document.blocks.len() implies (
    #[trigger] document.blocks[i]).name != (#[trigger] document.blocks[k]).name by {
        assert(surface.declarations[i].name != surface.declarations[k].name);
    }
}

impl StubBlock {
    /// The block that declares the given function, or `None` where the
    /// function refers to a type tag that the table does not hold.
    pub fn from_declaration(declaration: &FunctionDeclaration) -> (block: Option<StubBlock>)
        ensures
            match block {
                Some(b) => declaration_mapped(declaration@) && b@ == block_of(declaration@),
                None => !declaration_mapped(declaration@),
            },
    {
        let return_token = match host_token(declaration.return_type()) {
            Some(token) => token,
            None => {
                return None;
            },
        };
        let declared = declaration.parameters();
        let mut parameters: Vec<StubParameter> = Vec::new();
        let mut j: usize = 0;
        while j < declared.len()
            invariant
                j <= declared.len(),
                parameter_views(declared@) == declaration@.parameters,
                parameters.len() == j,
                forall|k: int|
                    0 <= k < j ==> host_token_of(#[trigger] declaration@.parameters[k].tag) is Some,
                forall|k: int|
                    0 <= k < j ==> (#[trigger] parameters[k])@ == stub_parameter_of(
                        declaration@.parameters[k],
                    ),
            decreases declared.len() - j,
        {
            let parameter = &declared[j];
            assert(parameter@ == declaration@.parameters[j as int]);
            match host_token(parameter.tag()) {
                Some(token) => {
                    parameters.push(StubParameter { name: parameter.name().clone(), token });
                },
                None => {
                    return None;
                },
            }
            j += 1;
        }
        let block = StubBlock { name: declaration.name().clone(), parameters, return_token };
        assert(block@.parameters =~= block_of(declaration@).parameters);
        Some(block)
    }
}

/// Whether a declaration refers to a type of the host's `builtins` module.
fn refers_to_builtins(declaration: &FunctionDeclaration) -> (found: bool)
    ensures
        found == uses_builtins(declaration@),
{
    if declaration.return_type().in_builtins() {
        return true;
    }
    let declared = declaration.parameters();
    let mut j: usize = 0;
    while j < declared.len()
        invariant
            j <= declared.len(),
            parameter_views(declared@) == declaration@.parameters,
            !needs_builtins(declaration@.return_type),
            forall|k: int| 0 <= k < j ==> !needs_builtins(#[trigger] declaration@.parameters[k].tag),
        decreases declared.len() - j,
    {
        assert(declared[j as int]@ == declaration@.parameters[j as int]);
        if declared[j].tag().in_builtins() {
            return true;
        }
        j += 1;
    }
    false
}

/// Derives the stub document of a surface.
///
/// The document is a function of the surface alone. The surface is left as
/// it is. Where a function refers to a type tag that the table does not
/// hold, the first such function is named in the error.
pub fn generate(surface: &ModuleSurface) -> (outcome: Result<StubDocument, BindingError>)
    ensures
        generated(surface@, outcome_view(outcome)),
{
    let declarations = surface.declarations();
    let mut blocks: Vec<StubBlock> = Vec::new();
    let mut builtins = false;
    let mut i: usize = 0;
    while i < declarations.len()
        invariant
            i <= declarations.len(),
            declaration_views(declarations@) == surface@.declarations,
            blocks.len() == i,
            forall|k: int| 0 <= k < i ==> declaration_mapped(#[trigger] surface@.declarations[k]),
            forall|k: int|
                0 <= k < i ==> (#[trigger] blocks[k])@ == block_of(surface@.declarations[k]),
            builtins <==> exists|k: int|
                0 <= k < i && uses_builtins(#[trigger] surface@.declarations[k]),
        decreases declarations.len() - i,
    {
        let declaration = &declarations[i];
        assert(declaration@ == surface@.declarations[i as int]);
        match StubBlock::from_declaration(declaration) {
            Some(block) => {
                blocks.push(block);
            },
            None => {
                assert(is_first_unmapped(surface@.declarations, i as int));
                return Err(BindingError::UnmappedType { function: declaration.name().clone() });
            },
        }
        if refers_to_builtins(declaration) {
            builtins = true;
        }
        i += 1;
    }
    let mut imports: Vec<String> = Vec::new();
    if builtins {
        imports.push(String::from_str("builtins"));
    }
    let document = StubDocument { imports, blocks };
    assert(document@.imports =~= imports_of(surface@.declarations));
    assert(document@.blocks =~= document_of(surface@.declarations).blocks);
    Ok(document)
}

} // verus!
