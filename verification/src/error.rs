//! Why a declaration cannot be converted.

use vstd::prelude::*;
use vstd::string::StringExecFns;
use crate::syntax::MemberKind;

verus! {

/// A failed conversion. Every failure is fatal for its declaration: no record
/// comes with it.
#[derive(Debug, Clone, PartialEq, Eq)]
pub enum ConversionError {
    /// An enum interface names an interface to inherit from.
    InheritanceNotSupported,
    /// An enum interface holds a member that is no operation: its kind, and
    /// the member as the parser prints it.
    UnsupportedMember(MemberKind, String),
    /// The attribute list holds an attribute, named here, that no enumeration
    /// can carry.
    MalformedAttributes(String),
    /// The converter of operations refused a member; the message is its own.
    Member(String),
}

/// Model of a [`ConversionError`].
pub enum ConversionErrorView {
    InheritanceNotSupported,
    UnsupportedMember(MemberKind, Seq<char>),
    MalformedAttributes(Seq<char>),
    Member(Seq<char>),
}

impl View for ConversionError {
    type V = ConversionErrorView;

    open spec fn view(&self) -> ConversionErrorView {
        match self {
            ConversionError::InheritanceNotSupported => ConversionErrorView::InheritanceNotSupported,
            ConversionError::UnsupportedMember(kind, shown) =>
                ConversionErrorView::UnsupportedMember(*kind, shown@),
            ConversionError::MalformedAttributes(name) => ConversionErrorView::MalformedAttributes(
                name@,
            ),
            ConversionError::Member(message) => ConversionErrorView::Member(message@),
        }
    }
}

impl DeepView for ConversionError {
    type V = ConversionErrorView;

    open spec fn deep_view(&self) -> ConversionErrorView {
        self@
    }
}

/// What a conversion returned, with the record and the error as their models.
pub open spec fn outcome<T: DeepView>(result: Result<T, ConversionError>) -> Result<
    T::V,
    ConversionErrorView,
> {
    match result {
        Ok(record) => Ok(record.deep_view()),
        Err(error) => Err(error@),
    }
}

/// The message of an error. That of an unsupported member quotes the member
/// as the parser prints it.
pub open spec fn message_text(error: ConversionErrorView) -> Seq<char> {
    match error {
        ConversionErrorView::InheritanceNotSupported =>
            "interface inheritance is not supported for enum interfaces"@,
        ConversionErrorView::UnsupportedMember(_, shown) => "interface member type "@ + shown
            + " not supported in enum interface"@,
        ConversionErrorView::MalformedAttributes(name) => "attribute "@ + name
            + " not supported for enums"@,
        ConversionErrorView::Member(message) => message,
    }
}

impl ConversionError {
    /// The message of this error, for a diagnostic.
    pub fn message(&self) -> (text: String)
        ensures
            text@ == message_text(self@),
    {
        match self {
            ConversionError::InheritanceNotSupported => String::from_str(
                "interface inheritance is not supported for enum interfaces",
            ),
            ConversionError::UnsupportedMember(_, shown) => {
                let mut text = String::from_str("interface member type ");
                text.append(shown.as_str());
                text.append(" not supported in enum interface");
                text
            },
            ConversionError::MalformedAttributes(name) => {
                let mut text = String::from_str("attribute ");
                text.append(name.as_str());
                text.append(" not supported for enums");
                text
            },
            ConversionError::Member(message) => message.clone(),
        }
    }
}

} // verus!
