//! The two kinds of failure that cross the library boundary.

use vstd::prelude::*;
use vstd::string::*;

verus! {

/// A failure of the persistence layer.
#[derive(Debug, Clone, PartialEq, Eq)]
pub enum CoreError {
    /// I/O or serialization went wrong; the text is the underlying message.
    Storage(String),
    /// No persisted entity has the requested id; the text names what was sought.
    NotFound(String),
}

/// The mathematical content of a [`CoreError`].
pub enum CoreErrorView {
    Storage(Seq<char>),
    NotFound(Seq<char>),
}

impl View for CoreError {
    type V = CoreErrorView;

    open spec fn view(&self) -> CoreErrorView {
        match *self {
            CoreError::Storage(s) => CoreErrorView::Storage(s@),
            CoreError::NotFound(s) => CoreErrorView::NotFound(s@),
        }
    }
}

impl CoreErrorView {
    /// The text with which the error is shown to a caller.
    pub open spec fn rendered(self) -> Seq<char> {
        match self {
            CoreErrorView::Storage(s) => "Storage error: "@ + s,
            CoreErrorView::NotFound(s) => "Not found: "@ + s,
        }
    }
}

impl CoreError {
    /// A storage failure carrying `message`.
    pub fn storage(message: String) -> (e: CoreError)
        ensures
            e@ == CoreErrorView::Storage(message@),
    {
        CoreError::Storage(message)
    }

    /// A missing-entity failure for the entity described by `what`.
    pub fn not_found(what: String) -> (e: CoreError)
        ensures
            e@ == CoreErrorView::NotFound(what@),
    {
        CoreError::NotFound(what)
    }

    /// Whether this is the `NotFound` kind.
    pub fn is_not_found(&self) -> (b: bool)
        ensures
            b == (self@ is NotFound),
    {
        match self {
            CoreError::NotFound(_) => true,
            CoreError::Storage(_) => false,
        }
    }

    /// Whether this is the `Storage` kind.
    pub fn is_storage(&self) -> (b: bool)
        ensures
            b == (self@ is Storage),
    {
        match self {
            CoreError::Storage(_) => true,
            CoreError::NotFound(_) => false,
        }
    }

    /// The human-readable rendering: the kind's prefix followed by the message.
    pub fn to_string(&self) -> (s: String)
        ensures
            s@ == self@.rendered(),
    {
        match self {
            CoreError::Storage(m) => String::from_str("Storage error: ").concat(m.as_str()),
            CoreError::NotFound(m) => String::from_str("Not found: ").concat(m.as_str()),
        }
    }
}

/// The text with which a failed operation is reported to the presentation
/// layer: the operation that was attempted, then the rendered failure.
pub open spec fn failure_report(operation: Seq<char>, error: CoreErrorView) -> Seq<char> {
    "Failed to "@ + operation + ": "@ + error.rendered()
}

/// Reports that `operation`, such as `load scratch`, failed with `error`.
pub fn failure_text(operation: &str, error: &CoreError) -> (text: String)
    ensures
        text@ == failure_report(operation@, error@),
{
    let mut text = String::from_str("Failed to ");
    text.append(operation);
    text.append(": ");
    text.append(error.to_string().as_str());
    text
}

} // verus!
