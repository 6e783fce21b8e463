//! Errors reported by the library.

use vstd::prelude::*;

verus! {

/// What can go wrong while interpreting what a peer sent.
#[derive(Debug, Clone, PartialEq, Eq)]
pub enum StatusNotifierWatcherError {
    /// A registration string that is neither `<name>/<path>` nor a bare
    /// unique name. Holds the offending string.
    DbusAddressError(String),
    /// A required property is absent from a property bag, or is not a
    /// string. Holds the property's name.
    MissingProperty(String),
    /// A string that names no variant of the enumeration it was parsed as.
    /// Holds the offending string.
    UnknownVariant(String),
    /// A value of another type than the one expected in its place.
    IncorrectType,
}

/// Mathematical counterpart of [`StatusNotifierWatcherError`].
pub enum ErrorView {
    DbusAddressError(Seq<char>),
    MissingProperty(Seq<char>),
    UnknownVariant(Seq<char>),
    IncorrectType,
}

impl View for StatusNotifierWatcherError {
    type V = ErrorView;

    open spec fn view(&self) -> ErrorView {
        match self {
            StatusNotifierWatcherError::DbusAddressError(s) => ErrorView::DbusAddressError(s@),
            StatusNotifierWatcherError::MissingProperty(s) => ErrorView::MissingProperty(s@),
            StatusNotifierWatcherError::UnknownVariant(s) => ErrorView::UnknownVariant(s@),
            StatusNotifierWatcherError::IncorrectType => ErrorView::IncorrectType,
        }
    }
}

/// The text of an error message.
pub open spec fn message_of(e: ErrorView) -> Seq<char> {
    match e {
        ErrorView::DbusAddressError(s) => "Service path "@ + s + " was not understood"@,
        ErrorView::MissingProperty(s) => "Property "@ + s + " is missing"@,
        ErrorView::UnknownVariant(s) => "Unknown variant "@ + s,
        ErrorView::IncorrectType => "Incorrect type"@,
    }
}

impl StatusNotifierWatcherError {
    /// Describes the error in a sentence.
    pub fn message(&self) -> (r: String)
        ensures
            r@ == message_of(self@),
    {
        match self {
            StatusNotifierWatcherError::DbusAddressError(s) => {
                let mut r = String::from_str("Service path ");
                r.append(s.as_str());
                r.append(" was not understood");
                r
            },
            StatusNotifierWatcherError::MissingProperty(s) => {
                let mut r = String::from_str("Property ");
                r.append(s.as_str());
                r.append(" is missing");
                r
            },
            StatusNotifierWatcherError::UnknownVariant(s) => {
                let mut r = String::from_str("Unknown variant ");
                r.append(s.as_str());
                r
            },
            StatusNotifierWatcherError::IncorrectType => String::from_str("Incorrect type"),
        }
    }
}

} // verus!
