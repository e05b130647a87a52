//! The boundary to `ruma` and `serde_json`: the ruleset type of `ruma`, whose
//! five collections are index sets, and the calls that read and change it.
//!
//! Nothing in this file is proved. The body of each function below is a call
//! into an outside crate, and its contract says what that call does, in the
//! words of [`crate::model`]. The rest of the crate is proved from these
//! contracts.
use vstd::prelude::*;
use crate::kind::RuleKind;
use crate::model::{contains_id, delete, empty_contents, find, rules_of, stored, well_formed};
use crate::rule::{option_view, Payload, PayloadView, Rule, RuleView};
use ruma::events::push_rules::{PushRulesEvent, PushRulesEventContent};
use ruma::push::{
    Action, ConditionalPushRuleInit, PatternedPushRuleInit, PushCondition, Ruleset,
    SimplePushRuleInit,
};
use ruma::{OwnedRoomId, OwnedUserId};

verus! {

/// `ruma::push::Ruleset`: five index sets of rules, one per kind. An index
/// set keeps its items in the order of insertion and holds no two items that
/// are equal; rules are equal when their ids are.
#[verifier::external_type_specification]
#[verifier::external_body]
pub struct ExRuleset(ruma::push::Ruleset);

/// `serde_json::Error`: why a text is not the JSON of a value.
#[verifier::external_type_specification]
#[verifier::external_body]
pub struct ExJsonError(serde_json::Error);

/// What a `ruma::push::Ruleset` holds: for each known kind the rules of its
/// index set, in the order of the set.
pub uninterp spec fn rules(ruleset: ruma::push::Ruleset) -> Map<RuleKind, Seq<RuleView>>;

/// What `serde_json::from_str` makes of a text that is read as a push rules
/// event: the contents of the event's global ruleset, or `None` where the
/// text is not such an event.
pub uninterp spec fn decoded(text: Seq<char>) -> Option<Map<RuleKind, Seq<RuleView>>>;

/// The text that `serde_json::to_string` writes for the push rules event
/// whose global ruleset has these contents, an event with nothing else in
/// it.
pub uninterp spec fn encoded(contents: Map<RuleKind, Seq<RuleView>>) -> Seq<char>;

/// The text that comes of a document when the member that a JSON pointer
/// names is replaced by the JSON of a ruleset with these contents, and all
/// else in the document is kept: what `serde_json::to_string` writes for the
/// value that `serde_json::from_str` read, after that one member was set.
/// `None` where the document is no JSON text or has no such member.
pub uninterp spec fn patched(
    document: Seq<char>,
    pointer: Seq<char>,
    contents: Map<RuleKind, Seq<RuleView>>,
) -> Option<Seq<char>>;

/// Whether `ruma::OwnedRoomId::try_from` accepts a string as a room id.
pub uninterp spec fn is_room_id(id: Seq<char>) -> bool;

/// Whether `ruma::OwnedUserId::try_from` accepts a string as a user id.
pub uninterp spec fn is_user_id(id: Seq<char>) -> bool;

/// `Ruleset::new`: a ruleset whose five sets are empty.
#[verifier::external_body]
pub(crate) fn new_ruleset() -> (ruleset: Ruleset)
    ensures
        rules(ruleset) == empty_contents(),
{
    Ruleset::new()
}

/// `serde_json::from_str` at the type `PushRulesEvent`, and the global
/// ruleset of the event it returns. The text alone decides the outcome. In a
/// ruleset that was read, ids are distinct inside each set, because an index
/// set holds no equal items, and each rule is of the type of its set, a room
/// or sender rule with an id that `ruma` has accepted.
#[verifier::external_body]
pub(crate) fn read_event(text: &str) -> (r: Result<Ruleset, serde_json::Error>)
    ensures
        match r {
            Ok(ruleset) => decoded(text@) == Some(rules(ruleset)) && well_formed(rules(ruleset)),
            Err(_) => decoded(text@) is None,
        },
{
    serde_json::from_str::<PushRulesEvent>(text).map(|event| event.content.global)
}

/// `serde_json::to_string` on the push rules event with this global ruleset.
/// The contents of the ruleset alone decide the text. The serializers of
/// `ruma` for these types return no error.
#[verifier::external_body]
pub(crate) fn write_event(ruleset: &Ruleset) -> (text: String)
    ensures
        text@ == encoded(rules(*ruleset)),
{
    let event = PushRulesEvent { content: PushRulesEventContent::new(ruleset.clone()) };
    serde_json::to_string(&event).expect("a push rules event has a JSON form")
}

/// `serde_json::from_str` reads the document as a `serde_json::Value`,
/// `Value::pointer_mut` finds the member that the pointer names,
/// `serde_json::to_value` of the ruleset takes its place, and
/// `serde_json::to_string` writes the value, whole. Every other member of
/// the document is written as it was read. The document, the pointer and
/// the contents of the ruleset alone decide the outcome. Nothing is promised
/// of when there is a text: there is none where the document is no JSON
/// text or has no such member.
#[verifier::external_body]
pub(crate) fn patch_event(document: &str, pointer: &str, ruleset: &Ruleset) -> (text: Option<String>)
    ensures
        match text {
            Some(text) => patched(document@, pointer@, rules(*ruleset)) == Some(text@),
            None => patched(document@, pointer@, rules(*ruleset)) is None,
        },
{
    let mut value = serde_json::from_str::<serde_json::Value>(document).ok()?;
    *value.pointer_mut(pointer)? = serde_json::to_value(ruleset).ok()?;
    serde_json::to_string(&value).ok()
}

/// `IndexSet::get` on the override rules, with the id as the key: the rule of
/// that id, copied field by field, or `None` where the set holds none.
#[verifier::external_body]
pub(crate) fn get_override(ruleset: &Ruleset, rule_id: &str) -> (r: Option<Rule>)
    ensures
        option_view(r) == find(rules(*ruleset), RuleKind::Override, rule_id@),
{
    let rule = ruleset.override_.get(rule_id)?;
    Some(
        Rule {
            rule_id: rule.rule_id.clone(),
            default: rule.default,
            enabled: rule.enabled,
            actions: rule.actions.clone(),
            payload: Payload::Conditions(rule.conditions.clone()),
        },
    )
}

/// `IndexSet::replace` on the override rules, with a rule made of these
/// fields: it takes the place of the rule of the same id where the set holds
/// one, and goes behind all others where it holds none.
#[verifier::external_body]
pub(crate) fn replace_override(
    ruleset: &mut Ruleset,
    rule_id: String,
    default: bool,
    enabled: bool,
    actions: Vec<Action>,
    conditions: Vec<PushCondition>,
)
    ensures
        rules(*final(ruleset)) == stored(
            rules(*old(ruleset)),
            RuleKind::Override,
            (RuleView {
                rule_id: rule_id@,
                default,
                enabled,
                actions: actions@,
                payload: PayloadView::Conditions(conditions@),
            }),
        ),
{
    let init = ConditionalPushRuleInit { actions, default, enabled, rule_id, conditions };
    ruleset.override_.replace(init.into());
}

/// `IndexSet::shift_remove` on the override rules, with the id as the key: the
/// rule of that id leaves the set and those behind it move up by one. The
/// result says whether the set held such a rule.
#[verifier::external_body]
pub(crate) fn remove_override(ruleset: &mut Ruleset, rule_id: &str) -> (present: bool)
    ensures
        present == contains_id(rules_of(rules(*old(ruleset)), RuleKind::Override), rule_id@),
        rules(*final(ruleset)) == delete(rules(*old(ruleset)), RuleKind::Override, rule_id@),
{
    ruleset.override_.shift_remove(rule_id)
}

/// `IndexSet::get` on the underride rules, with the id as the key: the rule of
/// that id, copied field by field, or `None` where the set holds none.
#[verifier::external_body]
pub(crate) fn get_underride(ruleset: &Ruleset, rule_id: &str) -> (r: Option<Rule>)
    ensures
        option_view(r) == find(rules(*ruleset), RuleKind::Underride, rule_id@),
{
    let rule = ruleset.underride.get(rule_id)?;
    Some(
        Rule {
            rule_id: rule.rule_id.clone(),
            default: rule.default,
            enabled: rule.enabled,
            actions: rule.actions.clone(),
            payload: Payload::Conditions(rule.conditions.clone()),
        },
    )
}

/// `IndexSet::replace` on the underride rules, with a rule made of these
/// fields: it takes the place of the rule of the same id where the set holds
/// one, and goes behind all others where it holds none.
#[verifier::external_body]
pub(crate) fn replace_underride(
    ruleset: &mut Ruleset,
    rule_id: String,
    default: bool,
    enabled: bool,
    actions: Vec<Action>,
    conditions: Vec<PushCondition>,
)
    ensures
        rules(*final(ruleset)) == stored(
            rules(*old(ruleset)),
            RuleKind::Underride,
            (RuleView {
                rule_id: rule_id@,
                default,
                enabled,
                actions: actions@,
                payload: PayloadView::Conditions(conditions@),
            }),
        ),
{
    let init = ConditionalPushRuleInit { actions, default, enabled, rule_id, conditions };
    ruleset.underride.replace(init.into());
}

/// `IndexSet::shift_remove` on the underride rules, with the id as the key: the
/// rule of that id leaves the set and those behind it move up by one. The
/// result says whether the set held such a rule.
#[verifier::external_body]
pub(crate) fn remove_underride(ruleset: &mut Ruleset, rule_id: &str) -> (present: bool)
    ensures
        present == contains_id(rules_of(rules(*old(ruleset)), RuleKind::Underride), rule_id@),
        rules(*final(ruleset)) == delete(rules(*old(ruleset)), RuleKind::Underride, rule_id@),
{
    ruleset.underride.shift_remove(rule_id)
}

/// `IndexSet::get` on the content rules, with the id as the key: the rule of
/// that id, copied field by field, or `None` where the set holds none.
#[verifier::external_body]
pub(crate) fn get_content(ruleset: &Ruleset, rule_id: &str) -> (r: Option<Rule>)
    ensures
        option_view(r) == find(rules(*ruleset), RuleKind::Content, rule_id@),
{
    let rule = ruleset.content.get(rule_id)?;
    Some(
        Rule {
            rule_id: rule.rule_id.clone(),
            default: rule.default,
            enabled: rule.enabled,
            actions: rule.actions.clone(),
            payload: Payload::Pattern(rule.pattern.clone()),
        },
    )
}

/// `IndexSet::replace` on the content rules, with a rule made of these
/// fields: it takes the place of the rule of the same id where the set holds
/// one, and goes behind all others where it holds none.
#[verifier::external_body]
pub(crate) fn replace_content(
    ruleset: &mut Ruleset,
    rule_id: String,
    default: bool,
    enabled: bool,
    actions: Vec<Action>,
    pattern: String,
)
    ensures
        rules(*final(ruleset)) == stored(
            rules(*old(ruleset)),
            RuleKind::Content,
            (RuleView {
                rule_id: rule_id@,
                default,
                enabled,
                actions: actions@,
                payload: PayloadView::Pattern(pattern@),
            }),
        ),
{
    let init = PatternedPushRuleInit { actions, default, enabled, rule_id, pattern };
    ruleset.content.replace(init.into());
}

/// `IndexSet::shift_remove` on the content rules, with the id as the key: the
/// rule of that id leaves the set and those behind it move up by one. The
/// result says whether the set held such a rule.
#[verifier::external_body]
pub(crate) fn remove_content(ruleset: &mut Ruleset, rule_id: &str) -> (present: bool)
    ensures
        present == contains_id(rules_of(rules(*old(ruleset)), RuleKind::Content), rule_id@),
        rules(*final(ruleset)) == delete(rules(*old(ruleset)), RuleKind::Content, rule_id@),
{
    ruleset.content.shift_remove(rule_id)
}

/// `IndexSet::get` on the room rules, with the id as the key: the rule of
/// that id, copied field by field, or `None` where the set holds none.
#[verifier::external_body]
pub(crate) fn get_room(ruleset: &Ruleset, rule_id: &str) -> (r: Option<Rule>)
    ensures
        option_view(r) == find(rules(*ruleset), RuleKind::Room, rule_id@),
{
    let rule = ruleset.room.get(rule_id)?;
    Some(
        Rule {
            rule_id: rule.rule_id.as_str().to_owned(),
            default: rule.default,
            enabled: rule.enabled,
            actions: rule.actions.clone(),
            payload: Payload::Bare,
        },
    )
}

/// `OwnedRoomId::try_from` on the id, then `IndexSet::replace` on the room
/// rules, with a rule made of these fields. Where the id is no room id
/// nothing changes and the result is `false`. Else the rule takes the place
/// of the rule of the same id where the set holds one, and goes behind all
/// others where it holds none.
#[verifier::external_body]
pub(crate) fn replace_room(
    ruleset: &mut Ruleset,
    rule_id: String,
    default: bool,
    enabled: bool,
    actions: Vec<Action>,
) -> (accepted: bool)
    ensures
        accepted == is_room_id(rule_id@),
        !accepted ==> rules(*final(ruleset)) == rules(*old(ruleset)),
        accepted ==> rules(*final(ruleset)) == stored(
            rules(*old(ruleset)),
            RuleKind::Room,
            (RuleView {
                rule_id: rule_id@,
                default,
                enabled,
                actions: actions@,
                payload: PayloadView::Bare,
            }),
        ),
{
    match OwnedRoomId::try_from(rule_id) {
        Ok(rule_id) => {
            let init = SimplePushRuleInit { actions, default, enabled, rule_id };
            ruleset.room.replace(init.into());
            true
        },
        Err(_) => false,
    }
}

/// `IndexSet::shift_remove` on the room rules, with the id as the key: the
/// rule of that id leaves the set and those behind it move up by one. The
/// result says whether the set held such a rule.
#[verifier::external_body]
pub(crate) fn remove_room(ruleset: &mut Ruleset, rule_id: &str) -> (present: bool)
    ensures
        present == contains_id(rules_of(rules(*old(ruleset)), RuleKind::Room), rule_id@),
        rules(*final(ruleset)) == delete(rules(*old(ruleset)), RuleKind::Room, rule_id@),
{
    ruleset.room.shift_remove(rule_id)
}

/// `IndexSet::get` on the sender rules, with the id as the key: the rule of
/// that id, copied field by field, or `None` where the set holds none.
#[verifier::external_body]
pub(crate) fn get_sender(ruleset: &Ruleset, rule_id: &str) -> (r: Option<Rule>)
    ensures
        option_view(r) == find(rules(*ruleset), RuleKind::Sender, rule_id@),
{
    let rule = ruleset.sender.get(rule_id)?;
    Some(
        Rule {
            rule_id: rule.rule_id.as_str().to_owned(),
            default: rule.default,
            enabled: rule.enabled,
            actions: rule.actions.clone(),
            payload: Payload::Bare,
        },
    )
}

/// `OwnedUserId::try_from` on the id, then `IndexSet::replace` on the sender
/// rules, with a rule made of these fields. Where the id is no user id
/// nothing changes and the result is `false`. Else the rule takes the place
/// of the rule of the same id where the set holds one, and goes behind all
/// others where it holds none.
#[verifier::external_body]
pub(crate) fn replace_sender(
    ruleset: &mut Ruleset,
    rule_id: String,
    default: bool,
    enabled: bool,
    actions: Vec<Action>,
) -> (accepted: bool)
    ensures
        accepted == is_user_id(rule_id@),
        !accepted ==> rules(*final(ruleset)) == rules(*old(ruleset)),
        accepted ==> rules(*final(ruleset)) == stored(
            rules(*old(ruleset)),
            RuleKind::Sender,
            (RuleView {
                rule_id: rule_id@,
                default,
                enabled,
                actions: actions@,
                payload: PayloadView::Bare,
            }),
        ),
{
    match OwnedUserId::try_from(rule_id) {
        Ok(rule_id) => {
            let init = SimplePushRuleInit { actions, default, enabled, rule_id };
            ruleset.sender.replace(init.into());
            true
        },
        Err(_) => false,
    }
}

/// `IndexSet::shift_remove` on the sender rules, with the id as the key: the
/// rule of that id leaves the set and those behind it move up by one. The
/// result says whether the set held such a rule.
#[verifier::external_body]
pub(crate) fn remove_sender(ruleset: &mut Ruleset, rule_id: &str) -> (present: bool)
    ensures
        present == contains_id(rules_of(rules(*old(ruleset)), RuleKind::Sender), rule_id@),
        rules(*final(ruleset)) == delete(rules(*old(ruleset)), RuleKind::Sender, rule_id@),
{
    ruleset.sender.shift_remove(rule_id)
}

} // verus!
