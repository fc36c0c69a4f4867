//! The errors of registration and stub emission.

use vstd::prelude::*;

verus! {

/// Why an operation on a registry, a surface or a stub document failed.
///
/// Each error is fatal where it occurs: the input is fixed when the module is
/// built, so nothing is retried.
#[derive(Debug, PartialEq, Eq)]
pub enum BindingError {
    /// A function of this name is already declared in the surface.
    DuplicateName { name: String },
    /// The registry is closed. `refused` is the name of the declaration that
    /// was turned away, or `None` where the registry was asked to close a
    /// second time.
    SurfaceClosed { refused: Option<String> },
    /// The named function refers to a type tag that the table does not hold.
    UnmappedType { function: String },
    /// The stub document could not be written to the named destination.
    WriteFailure { path: String },
}

/// The mathematical value of a [`BindingError`].
pub enum BindingErrorView {
    DuplicateName { name: Seq<char> },
    SurfaceClosed { refused: Option<Seq<char>> },
    UnmappedType { function: Seq<char> },
    WriteFailure { path: Seq<char> },
}

impl View for BindingError {
    type V = BindingErrorView;

    open spec fn view(&self) -> BindingErrorView {
        match self {
            BindingError::DuplicateName { name } => BindingErrorView::DuplicateName { name: name@ },
            BindingError::SurfaceClosed { refused } => BindingErrorView::SurfaceClosed {
                refused: match refused {
                    Some(name) => Some(name@),
                    None => None,
                },
            },
            BindingError::UnmappedType { function } => BindingErrorView::UnmappedType {
                function: function@,
            },
            BindingError::WriteFailure { path } => BindingErrorView::WriteFailure { path: path@ },
        }
    }
}

/// The value of the answer of an operation that hands nothing out where it
/// succeeds.
pub open spec fn answer_view(answer: Result<(), BindingError>) -> Result<(), BindingErrorView> {
    match answer {
        Ok(()) => Ok(()),
        Err(error) => Err(error@),
    }
}

/// The text that tells a user of an error: it names the declaration, or the
/// destination, at fault.
pub open spec fn message_of(error: BindingErrorView) -> Seq<char> {
    match error {
        BindingErrorView::DuplicateName { name } => "function `"@ + name
            + "` is already declared"@,
        BindingErrorView::SurfaceClosed { refused: Some(name) } => "cannot declare function `"@ + name
            + "`: the surface is closed"@,
        BindingErrorView::SurfaceClosed { refused: None } => "the surface is closed"@,
        BindingErrorView::UnmappedType { function } => "function `"@ + function
            + "` uses a type that has no host token"@,
        BindingErrorView::WriteFailure { path } => "cannot write the stub document to `"@ + path
            + "`"@,
    }
}

impl BindingError {
    /// The message that tells a user of this error.
    pub fn message(&self) -> (text: String)
        ensures
            text@ == message_of(self@),
    {
        match self {
            BindingError::DuplicateName { name } => {
                let mut text = String::from_str("function `");
                text.append(name.as_str());
                text.append("` is already declared");
                text
            },
            BindingError::SurfaceClosed { refused: Some(name) } => {
                let mut text = String::from_str("cannot declare function `");
                text.append(name.as_str());
                text.append("`: the surface is closed");
                text
            },
            BindingError::SurfaceClosed { refused: None } => String::from_str("the surface is closed"),
            BindingError::UnmappedType { function } => {
                let mut text = String::from_str("function `");
                text.append(function.as_str());
                text.append("` uses a type that has no host token");
                text
            },
            BindingError::WriteFailure { path } => {
                let mut text = String::from_str("cannot write the stub document to `");
                text.append(path.as_str());
                text.append("`");
                text
            },
        }
    }
}

} // verus!
