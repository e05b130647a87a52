//! What an operation on the rule store can fail with.
use vstd::prelude::*;

verus! {

/// The class of a failure, as a caller of the store sees it.
#[derive(Clone, Copy, Debug, PartialEq, Eq, Structural)]
pub enum ErrorKind {
    /// The request named something that is not supported.
    InvalidParam,
    /// The stored document or the requested rule does not exist.
    NotFound,
    /// The stored document is damaged; nothing the caller did.
    Internal,
}

/// A failure of one operation. No operation is retried, and none leaves a
/// half-written document: a failed operation produces no document at all.
#[derive(Clone, Copy, Debug, PartialEq, Eq, Structural)]
pub enum PushError {
    /// The request asked for a scope other than the global one.
    UnsupportedScope,
    /// The request asked to store a room rule whose id is no room id, or a
    /// sender rule whose id is no user id.
    InvalidRuleId,
    /// The user has no push rules document.
    DocumentNotFound,
    /// The document holds no rule of the requested kind and id.
    RuleNotFound,
    /// The stored document is not a well-formed push rules event.
    CorruptData,
}

impl PushError {
    /// The class of this failure.
    pub open spec fn spec_kind(self) -> ErrorKind {
        match self {
            PushError::UnsupportedScope => ErrorKind::InvalidParam,
            PushError::InvalidRuleId => ErrorKind::InvalidParam,
            PushError::DocumentNotFound => ErrorKind::NotFound,
            PushError::RuleNotFound => ErrorKind::NotFound,
            PushError::CorruptData => ErrorKind::Internal,
        }
    }

    /// The class of this failure.
    #[verifier::when_used_as_spec(spec_kind)]
    pub fn kind(self) -> (k: ErrorKind)
        ensures
            k == self.spec_kind(),
    {
        match self {
            PushError::UnsupportedScope => ErrorKind::InvalidParam,
            PushError::InvalidRuleId => ErrorKind::InvalidParam,
            PushError::DocumentNotFound => ErrorKind::NotFound,
            PushError::RuleNotFound => ErrorKind::NotFound,
            PushError::CorruptData => ErrorKind::Internal,
        }
    }

    /// The text that goes with this failure.
    pub open spec fn spec_message(self) -> Seq<char> {
        match self {
            PushError::UnsupportedScope => "Scopes other than 'global' are not supported."@,
            PushError::InvalidRuleId => "The rule id does not name a room or a user."@,
            PushError::DocumentNotFound => "PushRules event not found."@,
            PushError::RuleNotFound => "Push rule not found."@,
            PushError::CorruptData => "Invalid account data event in db."@,
        }
    }

    /// The text that goes with this failure.
    pub fn message(self) -> (m: &'static str)
        ensures
            m@ == self.spec_message(),
    {
        match self {
            PushError::UnsupportedScope => "Scopes other than 'global' are not supported.",
            PushError::InvalidRuleId => "The rule id does not name a room or a user.",
            PushError::DocumentNotFound => "PushRules event not found.",
            PushError::RuleNotFound => "Push rule not found.",
            PushError::CorruptData => "Invalid account data event in db.",
        }
    }
}

} // verus!
