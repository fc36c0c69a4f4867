//! Native type tags and the table that maps them to host type tokens.
//!
//! The tokens are spelled as `pyo3_stub_gen` spells them, so that a stub
//! written from this table names the host's types as the stubs of that crate
//! do.

use vstd::prelude::*;

verus! {

/// The tag of a native type that may appear in a function's signature.
#[derive(Clone, Copy, Debug, PartialEq, Eq, Structural)]
pub enum TypeTag {
    /// No value.
    Unit,
    /// A truth value.
    Bool,
    /// An integer of any width.
    Int,
    /// A floating-point number of any width.
    Float,
    /// A text string.
    Str,
    /// A byte string.
    Bytes,
    /// A native type known only by its identifier. The table has no entry for it.
    Opaque(u32),
}

/// The table: the host type token of each tag that it holds, `None` for a
/// tag that it does not hold.
pub open spec fn host_token_of(tag: TypeTag) -> Option<Seq<char>> {
    match tag {
        TypeTag::Unit => Some("None"@),
        TypeTag::Bool => Some("builtins.bool"@),
        TypeTag::Int => Some("builtins.int"@),
        TypeTag::Float => Some("builtins.float"@),
        TypeTag::Str => Some("builtins.str"@),
        TypeTag::Bytes => Some("builtins.bytes"@),
        TypeTag::Opaque(_) => None,
    }
}

/// Whether the token of a tag names a type of the host's `builtins` module,
/// which a stub that uses the token has to import.
pub open spec fn needs_builtins(tag: TypeTag) -> bool {
    match tag {
        TypeTag::Unit => false,
        TypeTag::Opaque(_) => false,
        _ => true,
    }
}

/// The token for the absence of a value, as `pyo3_stub_gen::TypeInfo::none`
/// spells it: the name of the `TypeInfo` it builds is the literal `None`.
#[verifier::external_body]
fn none_token() -> (token: String)
    ensures
        token@ == "None"@,
{
    pyo3_stub_gen::TypeInfo::none().name
}

/// The token for a type of the host's `builtins` module, as
/// `pyo3_stub_gen::TypeInfo::builtin` spells it: the name of the `TypeInfo`
/// it builds is the given name behind the prefix `builtins.`.
#[verifier::external_body]
fn builtin_token(name: &str) -> (token: String)
    ensures
        token@ == "builtins."@ + name@,
{
    pyo3_stub_gen::TypeInfo::builtin(name).name
}

impl TypeTag {
    /// Whether a stub that names the tag's type has to import `builtins`.
    pub fn in_builtins(self) -> (needed: bool)
        ensures
            needed == needs_builtins(self),
    {
        match self {
            TypeTag::Unit => false,
            TypeTag::Opaque(_) => false,
            _ => true,
        }
    }
}

/// Looks a tag up in the table.
pub fn host_token(tag: TypeTag) -> (token: Option<String>)
    ensures
        match token {
            Some(t) => host_token_of(tag) == Some(t@),
            None => host_token_of(tag) is None,
        },
{
    proof {
        reveal_strlit("builtins.");
        reveal_strlit("bool");
        reveal_strlit("int");
        reveal_strlit("float");
        reveal_strlit("str");
        reveal_strlit("bytes");
        reveal_strlit("builtins.bool");
        reveal_strlit("builtins.int");
        reveal_strlit("builtins.float");
        reveal_strlit("builtins.str");
        reveal_strlit("builtins.bytes");
    }
    let token = match tag {
        TypeTag::Unit => none_token(),
        TypeTag::Bool => builtin_token("bool"),
        TypeTag::Int => builtin_token("int"),
        TypeTag::Float => builtin_token("float"),
        TypeTag::Str => builtin_token("str"),
        TypeTag::Bytes => builtin_token("bytes"),
        TypeTag::Opaque(_) => {
            return None;
        },
    };
    assert(Some(token@) =~= host_token_of(tag)) by {
        assert(token@ =~= host_token_of(tag).unwrap());
    }
    Some(token)
}

} // verus!
