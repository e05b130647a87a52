use push_rules::error::PushError;
use push_rules::kind::{RuleKind, RuleScope};
use push_rules::push::{
    delete_pushrule_route, get_pushrule_actions_route, get_pushrule_enabled_route,
    get_pushrule_route, set_pushrule_actions_route, set_pushrule_enabled_route, set_pushrule_route,
};
use push_rules::rule::{
    NewConditionalPushRule, NewPatternedPushRule, NewPushRule, NewSimplePushRule, Payload,
};
use push_rules::ruleset::PushRuleset;
use ruma::push::{Action, PushCondition};

const GLOBAL: RuleScope = RuleScope::Global;

fn new_rule(kind: RuleKind, id: &str) -> NewPushRule {
    let actions = vec![Action::Notify, Action::Coalesce];
    match kind {
        RuleKind::Override => NewPushRule::Override(NewConditionalPushRule {
            rule_id: id.to_owned(),
            conditions: vec![PushCondition::ContainsDisplayName],
            actions,
        }),
        RuleKind::Underride => NewPushRule::Underride(NewConditionalPushRule {
            rule_id: id.to_owned(),
            conditions: vec![PushCondition::ContainsDisplayName],
            actions,
        }),
        RuleKind::Content => NewPushRule::Content(NewPatternedPushRule {
            rule_id: id.to_owned(),
            pattern: "*foo*".to_owned(),
            actions,
        }),
        RuleKind::Room => NewPushRule::Room(NewSimplePushRule { rule_id: id.to_owned(), actions }),
        RuleKind::Sender => {
            NewPushRule::Sender(NewSimplePushRule { rule_id: id.to_owned(), actions })
        }
        RuleKind::Other => unreachable!(),
    }
}

fn json(document: &str) -> serde_json::Value {
    serde_json::from_str(document).unwrap()
}

fn list(document: &str, kind: &str) -> Vec<serde_json::Value> {
    let value: serde_json::Value = serde_json::from_str(document).unwrap();
    value["content"]["global"][kind].as_array().unwrap().clone()
}

fn abc() -> String {
    let mut document = PushRuleset::new().encode();
    for id in ["A", "B", "C"] {
        let rule = new_rule(RuleKind::Underride, id);
        document = set_pushrule_route(GLOBAL, Some(&document), rule).unwrap();
    }
    document
}

#[test]
fn put_then_get_returns_the_rule_for_every_kind() {
    let cases = [
        (RuleKind::Override, "x"),
        (RuleKind::Underride, "x"),
        (RuleKind::Content, "x"),
        (RuleKind::Room, "!x:example.org"),
        (RuleKind::Sender, "@x:example.org"),
    ];
    for (kind, id) in cases {
        let document = PushRuleset::new().encode();
        let document = set_pushrule_route(GLOBAL, Some(&document), new_rule(kind, id)).unwrap();
        let rule = get_pushrule_route(Some(&document), kind, id).unwrap();
        assert_eq!(rule.rule_id, id);
        assert!(rule.enabled);
        assert!(!rule.default);
        assert_eq!(format!("{:?}", rule.actions), "[Notify, Coalesce]");
        match (kind, rule.payload) {
            (RuleKind::Override | RuleKind::Underride, Payload::Conditions(c)) => {
                assert_eq!(format!("{:?}", c), "[ContainsDisplayName]")
            }
            (RuleKind::Content, Payload::Pattern(p)) => assert_eq!(p, "*foo*"),
            (RuleKind::Room | RuleKind::Sender, Payload::Bare) => {}
            (_, payload) => panic!("{kind:?} came back with {payload:?}"),
        }
    }
}

#[test]
fn delete_of_an_absent_id_is_no_error_and_alters_nothing() {
    let document = abc();
    let after = delete_pushrule_route(GLOBAL, Some(&document), RuleKind::Underride, "D");
    assert_eq!(json(&after.unwrap()), json(&document));
    let after = delete_pushrule_route(GLOBAL, Some(&document), RuleKind::Override, "A");
    assert_eq!(json(&after.unwrap()), json(&document));
    let again = delete_pushrule_route(GLOBAL, Some(&document), RuleKind::Underride, "B").unwrap();
    let twice = delete_pushrule_route(GLOBAL, Some(&again), RuleKind::Underride, "B").unwrap();
    assert_eq!(json(&twice), json(&again));
}

#[test]
fn set_enabled_on_the_middle_rule_keeps_the_sequence() {
    let document = abc();
    let before = list(&document, "underride");
    let document =
        set_pushrule_enabled_route(GLOBAL, Some(&document), RuleKind::Underride, "B", false)
            .unwrap();
    let after = list(&document, "underride");
    assert_eq!(after.len(), 3);
    assert_eq!(after[0], before[0]);
    assert_eq!(after[2], before[2]);
    assert_eq!(after[1]["rule_id"], "B");
    assert_eq!(after[1]["enabled"], false);
    assert_eq!(after[1]["actions"], before[1]["actions"]);
    assert_eq!(after[1]["conditions"], before[1]["conditions"]);
    assert_eq!(after[1]["default"], before[1]["default"]);
}

#[test]
fn set_actions_on_the_middle_rule_keeps_the_sequence() {
    let document = abc();
    let before = list(&document, "underride");
    let document = set_pushrule_actions_route(
        GLOBAL,
        Some(&document),
        RuleKind::Underride,
        "B",
        vec![Action::DontNotify],
    )
    .unwrap();
    let after = list(&document, "underride");
    assert_eq!(after.len(), 3);
    assert_eq!(after[0], before[0]);
    assert_eq!(after[2], before[2]);
    assert_eq!(after[1]["rule_id"], "B");
    assert_eq!(after[1]["actions"], serde_json::Value::from(vec!["dont_notify"]));
    assert_eq!(after[1]["enabled"], before[1]["enabled"]);
    assert_eq!(after[1]["conditions"], before[1]["conditions"]);
}

#[test]
fn a_room_rule_does_not_touch_a_sender_rule() {
    let document = PushRuleset::new().encode();
    let sender = new_rule(RuleKind::Sender, "@x:example.org");
    let document = set_pushrule_route(GLOBAL, Some(&document), sender).unwrap();
    let document =
        set_pushrule_enabled_route(GLOBAL, Some(&document), RuleKind::Sender, "@x:example.org", false)
            .unwrap();
    let before = list(&document, "sender");
    let room = new_rule(RuleKind::Room, "!x:example.org");
    let document = set_pushrule_route(GLOBAL, Some(&document), room).unwrap();
    assert_eq!(list(&document, "sender"), before);
    assert_eq!(list(&document, "room").len(), 1);
}

#[test]
fn the_same_id_lives_in_two_kinds_apart() {
    let document = PushRuleset::new().encode();
    let document =
        set_pushrule_route(GLOBAL, Some(&document), new_rule(RuleKind::Override, "x")).unwrap();
    let document =
        set_pushrule_enabled_route(GLOBAL, Some(&document), RuleKind::Override, "x", false).unwrap();
    let document =
        set_pushrule_route(GLOBAL, Some(&document), new_rule(RuleKind::Underride, "x")).unwrap();
    assert_eq!(get_pushrule_enabled_route(GLOBAL, Some(&document), RuleKind::Override, "x"), Ok(false));
    assert_eq!(get_pushrule_enabled_route(GLOBAL, Some(&document), RuleKind::Underride, "x"), Ok(true));
    let document =
        delete_pushrule_route(GLOBAL, Some(&document), RuleKind::Underride, "x").unwrap();
    assert!(get_pushrule_route(Some(&document), RuleKind::Override, "x").is_ok());
    assert!(get_pushrule_route(Some(&document), RuleKind::Underride, "x").is_err());
}

#[test]
fn every_changing_call_in_another_scope_is_refused() {
    let document = abc();
    let kind = RuleKind::Underride;
    let scope = RuleScope::Other;
    let refused = Err(PushError::UnsupportedScope);
    assert_eq!(set_pushrule_route(scope, Some(&document), new_rule(kind, "A")), refused);
    assert_eq!(set_pushrule_actions_route(scope, Some(&document), kind, "A", Vec::new()), refused);
    assert_eq!(set_pushrule_enabled_route(scope, Some(&document), kind, "A", false), refused);
    assert_eq!(delete_pushrule_route(scope, Some(&document), kind, "A"), refused);
    assert_eq!(document, abc());
}

#[test]
fn two_toggles_one_after_the_other_both_show() {
    let document = abc();
    let kind = RuleKind::Underride;
    let first = set_pushrule_enabled_route(GLOBAL, Some(&document), kind, "A", false).unwrap();
    let both = set_pushrule_enabled_route(GLOBAL, Some(&first), kind, "C", false).unwrap();
    assert_eq!(get_pushrule_enabled_route(GLOBAL, Some(&both), kind, "A"), Ok(false));
    assert_eq!(get_pushrule_enabled_route(GLOBAL, Some(&both), kind, "B"), Ok(true));
    assert_eq!(get_pushrule_enabled_route(GLOBAL, Some(&both), kind, "C"), Ok(false));
    let other = set_pushrule_enabled_route(GLOBAL, Some(&document), kind, "C", false).unwrap();
    let swapped = set_pushrule_enabled_route(GLOBAL, Some(&other), kind, "A", false).unwrap();
    assert_eq!(json(&swapped), json(&both));
}

#[test]
fn end_to_end() {
    let document = PushRuleset::new().encode();
    let kind = RuleKind::Content;
    let rule = NewPushRule::Content(NewPatternedPushRule {
        rule_id: "r1".to_owned(),
        pattern: "*foo*".to_owned(),
        actions: vec![Action::Notify],
    });
    let document = set_pushrule_route(GLOBAL, Some(&document), rule).unwrap();
    let actions = get_pushrule_actions_route(GLOBAL, Some(&document), kind, "r1").unwrap();
    assert_eq!(format!("{:?}", actions), "[Notify]");
    assert_eq!(
        serde_json::to_value(&actions).unwrap(),
        serde_json::Value::from(vec!["notify"])
    );
    let document = set_pushrule_enabled_route(GLOBAL, Some(&document), kind, "r1", false).unwrap();
    assert_eq!(get_pushrule_enabled_route(GLOBAL, Some(&document), kind, "r1"), Ok(false));
    let document = delete_pushrule_route(GLOBAL, Some(&document), kind, "r1").unwrap();
    assert_eq!(
        get_pushrule_route(Some(&document), kind, "r1").err(),
        Some(PushError::RuleNotFound)
    );
    assert_eq!(json(&document), json(&PushRuleset::new().encode()));
}
