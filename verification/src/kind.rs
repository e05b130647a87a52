//! The kinds of rules and the scopes a request may name.
use vstd::prelude::*;

verus! {

/// The kind of a push rule. The five known kinds each own one collection of a
/// ruleset; `Other` stands for any kind name that is not one of them.
#[derive(Clone, Copy, Debug, PartialEq, Eq, Hash, Structural)]
pub enum RuleKind {
    /// User-configured rules that take precedence over all other kinds.
    Override,
    /// User-configured rules of the lowest precedence.
    Underride,
    /// Rules for the events of one sender; the rule's id is a user id.
    Sender,
    /// Rules for the events of one room; the rule's id is a room id.
    Room,
    /// Rules that match a glob pattern against the content of a message.
    Content,
    /// A kind that no ruleset has a collection for.
    Other,
}

/// The scope whose rules a request addresses. Only the global scope exists.
#[derive(Clone, Copy, Debug, PartialEq, Eq, Hash, Structural)]
pub enum RuleScope {
    /// The rules that hold for all devices of the user.
    Global,
    /// Any other scope name.
    Other,
}

impl RuleKind {
    /// Whether a ruleset has a collection for this kind.
    pub open spec fn is_known(self) -> bool {
        self != RuleKind::Other
    }

    /// The position of this kind in the order in which the kinds are
    /// consulted: override, content, room, sender, underride. `None` for
    /// `Other`.
    pub open spec fn spec_precedence(self) -> Option<u8> {
        match self {
            RuleKind::Override => Some(0u8),
            RuleKind::Content => Some(1u8),
            RuleKind::Room => Some(2u8),
            RuleKind::Sender => Some(3u8),
            RuleKind::Underride => Some(4u8),
            RuleKind::Other => None,
        }
    }

    /// The position of this kind in the order in which the kinds are
    /// consulted, the most important first.
    #[verifier::when_used_as_spec(spec_precedence)]
    pub fn precedence(self) -> (r: Option<u8>)
        ensures
            r == self.spec_precedence(),
    {
        match self {
            RuleKind::Override => Some(0u8),
            RuleKind::Content => Some(1u8),
            RuleKind::Room => Some(2u8),
            RuleKind::Sender => Some(3u8),
            RuleKind::Underride => Some(4u8),
            RuleKind::Other => None,
        }
    }
}

} // verus!
