//! Rules as plain values, and the mathematical view of a rule.
use vstd::prelude::*;
use crate::kind::RuleKind;

verus! {

/// `ruma::push::Action`: what to do with an event that a rule matches. The
/// store never looks inside an action; it keeps and hands out whole values.
#[verifier::external_type_specification]
#[verifier::external_body]
pub struct ExAction(ruma::push::Action);

/// `ruma::push::PushCondition`: one predicate on an event. The store never
/// looks inside a condition; it keeps and hands out whole values.
#[verifier::external_type_specification]
#[verifier::external_body]
pub struct ExPushCondition(ruma::push::PushCondition);

/// What a rule holds besides the fields that all kinds share.
#[derive(Clone, Debug)]
pub enum Payload {
    /// The conditions of an override or underride rule; all must hold.
    Conditions(Vec<ruma::push::PushCondition>),
    /// The glob pattern of a content rule.
    Pattern(String),
    /// Room and sender rules hold nothing more: their id names the room or
    /// the sender.
    Bare,
}

/// One push rule, as the store hands it out.
#[derive(Clone, Debug)]
pub struct Rule {
    /// The id of the rule, unique among the rules of its kind.
    pub rule_id: String,
    /// Whether the server provided this rule. Rules made by users are not
    /// default rules.
    pub default: bool,
    /// Whether the rule is in force.
    pub enabled: bool,
    /// What to do with a matching event, in order.
    pub actions: Vec<ruma::push::Action>,
    /// What the kind of the rule adds.
    pub payload: Payload,
}

/// The mathematical value of a [`Payload`].
pub ghost enum PayloadView {
    Conditions(Seq<ruma::push::PushCondition>),
    Pattern(Seq<char>),
    Bare,
}

/// The mathematical value of a [`Rule`].
pub ghost struct RuleView {
    pub rule_id: Seq<char>,
    pub default: bool,
    pub enabled: bool,
    pub actions: Seq<ruma::push::Action>,
    pub payload: PayloadView,
}

impl View for Payload {
    type V = PayloadView;

    open spec fn view(&self) -> PayloadView {
        match self {
            Payload::Conditions(c) => PayloadView::Conditions(c@),
            Payload::Pattern(p) => PayloadView::Pattern(p@),
            Payload::Bare => PayloadView::Bare,
        }
    }
}

impl View for Rule {
    type V = RuleView;

    open spec fn view(&self) -> RuleView {
        RuleView {
            rule_id: self.rule_id@,
            default: self.default,
            enabled: self.enabled,
            actions: self.actions@,
            payload: self.payload@,
        }
    }
}

/// An override or underride rule that a user asks to store.
#[derive(Clone, Debug)]
pub struct NewConditionalPushRule {
    /// The id of the rule.
    pub rule_id: String,
    /// The conditions that must all hold of an event for the rule to match.
    pub conditions: Vec<ruma::push::PushCondition>,
    /// What to do with a matching event, in order.
    pub actions: Vec<ruma::push::Action>,
}

/// A content rule that a user asks to store.
#[derive(Clone, Debug)]
pub struct NewPatternedPushRule {
    /// The id of the rule.
    pub rule_id: String,
    /// The glob pattern to match against the content of a message.
    pub pattern: String,
    /// What to do with a matching event, in order.
    pub actions: Vec<ruma::push::Action>,
}

/// A room or sender rule that a user asks to store.
#[derive(Clone, Debug)]
pub struct NewSimplePushRule {
    /// The id of the rule: the id of the room or of the sender.
    pub rule_id: String,
    /// What to do with a matching event, in order.
    pub actions: Vec<ruma::push::Action>,
}

/// A rule that a user asks to store, under the kind it is meant for.
#[derive(Clone, Debug)]
pub enum NewPushRule {
    /// A rule that takes precedence over all other kinds.
    Override(NewConditionalPushRule),
    /// A rule on the content of messages.
    Content(NewPatternedPushRule),
    /// A rule for one room.
    Room(NewSimplePushRule),
    /// A rule for one sender.
    Sender(NewSimplePushRule),
    /// A rule of the lowest precedence.
    Underride(NewConditionalPushRule),
}

impl NewPushRule {
    /// The kind under which the rule is stored.
    pub open spec fn spec_kind(&self) -> RuleKind {
        match self {
            NewPushRule::Override(_) => RuleKind::Override,
            NewPushRule::Content(_) => RuleKind::Content,
            NewPushRule::Room(_) => RuleKind::Room,
            NewPushRule::Sender(_) => RuleKind::Sender,
            NewPushRule::Underride(_) => RuleKind::Underride,
        }
    }

    /// The kind under which the rule is stored.
    #[verifier::when_used_as_spec(spec_kind)]
    pub fn kind(&self) -> (kind: RuleKind)
        ensures
            kind == self.spec_kind(),
    {
        match self {
            NewPushRule::Override(_) => RuleKind::Override,
            NewPushRule::Content(_) => RuleKind::Content,
            NewPushRule::Room(_) => RuleKind::Room,
            NewPushRule::Sender(_) => RuleKind::Sender,
            NewPushRule::Underride(_) => RuleKind::Underride,
        }
    }

    /// The id of the rule.
    pub open spec fn spec_rule_id(&self) -> Seq<char> {
        match self {
            NewPushRule::Override(rule) => rule.rule_id@,
            NewPushRule::Content(rule) => rule.rule_id@,
            NewPushRule::Room(rule) => rule.rule_id@,
            NewPushRule::Sender(rule) => rule.rule_id@,
            NewPushRule::Underride(rule) => rule.rule_id@,
        }
    }

    /// The id of the rule.
    pub fn rule_id(&self) -> (id: &str)
        ensures
            id@ == self.spec_rule_id(),
    {
        match self {
            NewPushRule::Override(rule) => rule.rule_id.as_str(),
            NewPushRule::Content(rule) => rule.rule_id.as_str(),
            NewPushRule::Room(rule) => rule.rule_id.as_str(),
            NewPushRule::Sender(rule) => rule.rule_id.as_str(),
            NewPushRule::Underride(rule) => rule.rule_id.as_str(),
        }
    }

    /// The mathematical value of the rule that is stored for this request: a
    /// rule that is enabled and is no default rule, with the id, the actions
    /// and the payload that were handed in.
    pub open spec fn rule_view(&self) -> RuleView {
        match self {
            NewPushRule::Override(rule) | NewPushRule::Underride(rule) => RuleView {
                rule_id: rule.rule_id@,
                default: false,
                enabled: true,
                actions: rule.actions@,
                payload: PayloadView::Conditions(rule.conditions@),
            },
            NewPushRule::Content(rule) => RuleView {
                rule_id: rule.rule_id@,
                default: false,
                enabled: true,
                actions: rule.actions@,
                payload: PayloadView::Pattern(rule.pattern@),
            },
            NewPushRule::Room(rule) | NewPushRule::Sender(rule) => RuleView {
                rule_id: rule.rule_id@,
                default: false,
                enabled: true,
                actions: rule.actions@,
                payload: PayloadView::Bare,
            },
        }
    }

    /// The rule that is stored for this request: enabled, and no default
    /// rule.
    pub fn into_rule(self) -> (rule: Rule)
        ensures
            rule@ == self.rule_view(),
    {
        match self {
            NewPushRule::Override(new) => Rule {
                rule_id: new.rule_id,
                default: false,
                enabled: true,
                actions: new.actions,
                payload: Payload::Conditions(new.conditions),
            },
            NewPushRule::Underride(new) => Rule {
                rule_id: new.rule_id,
                default: false,
                enabled: true,
                actions: new.actions,
                payload: Payload::Conditions(new.conditions),
            },
            NewPushRule::Content(new) => Rule {
                rule_id: new.rule_id,
                default: false,
                enabled: true,
                actions: new.actions,
                payload: Payload::Pattern(new.pattern),
            },
            NewPushRule::Room(new) => Rule {
                rule_id: new.rule_id,
                default: false,
                enabled: true,
                actions: new.actions,
                payload: Payload::Bare,
            },
            NewPushRule::Sender(new) => Rule {
                rule_id: new.rule_id,
                default: false,
                enabled: true,
                actions: new.actions,
                payload: Payload::Bare,
            },
        }
    }
}

/// The mathematical value of a rule that may be absent.
pub open spec fn option_view(rule: Option<Rule>) -> Option<RuleView> {
    match rule {
        Some(rule) => Some(rule@),
        None => None,
    }
}

} // verus!
