//! What holds of the operations on a ruleset, whatever the rules are.
//!
//! The laws speak of the contents of a ruleset and of the functions of
//! [`crate::model`] and [`crate::push`], in which the contracts of the
//! operations are written.
use vstd::prelude::*;
use crate::error::PushError;
use crate::kind::{RuleKind, RuleScope};
use crate::model::{
    actions_of, contains_id, delete, enabled_of, find, fits, index_of, lemma_found_fits,
    lemma_index_of, lemma_put_well_formed, lemma_removed, lemma_upserted, put, removed, rules_of,
    well_formed, with_actions, with_enabled,
};
use crate::push::{
    actions_outcome, delete_outcome, enabled_outcome, loaded_in, set_actions_outcome,
    set_enabled_outcome, set_pushrule_outcome, written,
};
use crate::rule::{NewPushRule, RuleView};

verus! {

/// A rule that was put is the rule that is found under its kind and id
/// afterwards, field for field.
pub proof fn lemma_put_then_find(
    contents: Map<RuleKind, Seq<RuleView>>,
    kind: RuleKind,
    rule: RuleView,
)
    requires
        well_formed(contents),
        fits(kind, rule),
    ensures
        find(put(contents, kind, rule), kind, rule.rule_id) == Some(rule),
{
    lemma_upserted(rules_of(contents, kind), rule);
}

/// A rule that a user stored is found under its kind and id afterwards: it
/// is enabled, it is no default rule, and it has the id, the actions and the
/// payload that were handed in.
pub proof fn lemma_insert_then_find(contents: Map<RuleKind, Seq<RuleView>>, rule: NewPushRule)
    requires
        well_formed(contents),
        fits(rule.kind(), rule.rule_view()),
    ensures
        find(put(contents, rule.kind(), rule.rule_view()), rule.kind(), rule.spec_rule_id())
            == Some(rule.rule_view()),
        rule.rule_view().enabled,
        !rule.rule_view().default,
        rule.rule_view().rule_id == rule.spec_rule_id(),
        actions_of(put(contents, rule.kind(), rule.rule_view()), rule.kind(), rule.spec_rule_id())
            == rule.rule_view().actions,
        enabled_of(put(contents, rule.kind(), rule.rule_view()), rule.kind(), rule.spec_rule_id()),
{
    lemma_put_then_find(contents, rule.kind(), rule.rule_view());
}

/// Deleting a rule that is not there changes nothing.
pub proof fn lemma_delete_absent(
    contents: Map<RuleKind, Seq<RuleView>>,
    kind: RuleKind,
    id: Seq<char>,
)
    requires
        find(contents, kind, id) is None,
    ensures
        delete(contents, kind, id) == contents,
{
    assert(delete(contents, kind, id) =~= contents);
}

/// Deleting a rule leaves every other rule as it was: a rule of another kind
/// or of another id is found as before. The rule itself is found no more.
pub proof fn lemma_delete_keeps_others(
    contents: Map<RuleKind, Seq<RuleView>>,
    kind: RuleKind,
    id: Seq<char>,
    other_kind: RuleKind,
    other_id: Seq<char>,
)
    requires
        well_formed(contents),
        other_kind != kind || other_id != id,
    ensures
        find(delete(contents, kind, id), other_kind, other_id) == find(
            contents,
            other_kind,
            other_id,
        ),
        find(delete(contents, kind, id), kind, id) is None,
{
    let before = rules_of(contents, kind);
    let after = removed(before, id);
    lemma_removed(before, id);
    if other_kind == kind && contents.dom().contains(kind) && contains_id(before, id) {
        let at = index_of(before, id);
        lemma_index_of(before, id);
        if contains_id(before, other_id) {
            lemma_index_of(before, other_id);
            let from = index_of(before, other_id);
            let to = if from < at {
                from
            } else {
                from - 1
            };
            assert(after[to] == before[from]);
            lemma_index_of(after, other_id);
        } else if contains_id(after, other_id) {
            lemma_index_of(after, other_id);
            let to = index_of(after, other_id);
            let from = if to < at {
                to
            } else {
                to + 1
            };
            assert(before[from].rule_id == other_id);
        }
    }
}

/// Deleting keeps the order of the rules that stay: those before the deleted
/// rule keep their place, those behind it move up by one.
pub proof fn lemma_delete_keeps_order(
    contents: Map<RuleKind, Seq<RuleView>>,
    kind: RuleKind,
    id: Seq<char>,
)
    requires
        well_formed(contents),
        find(contents, kind, id) is Some,
    ensures
        rules_of(delete(contents, kind, id), kind).len() + 1 == rules_of(contents, kind).len(),
        forall|i: int|
            0 <= i < rules_of(delete(contents, kind, id), kind).len() ==> #[trigger] rules_of(
                delete(contents, kind, id),
                kind,
            )[i] == (if i < index_of(rules_of(contents, kind), id) {
                rules_of(contents, kind)[i]
            } else {
                rules_of(contents, kind)[i + 1]
            }),
{
    lemma_removed(rules_of(contents, kind), id);
}

/// Switching a rule on or off keeps the rules of its kind in their order:
/// there are as many as before, each place holds the id it held, every rule
/// of another id is as it was, and the rule itself differs from what it was
/// in nothing but the flag.
pub proof fn lemma_set_enabled_keeps_order(
    contents: Map<RuleKind, Seq<RuleView>>,
    kind: RuleKind,
    id: Seq<char>,
    enabled: bool,
)
    requires
        well_formed(contents),
    ensures
        well_formed(with_enabled(contents, kind, id, enabled)),
        rules_of(with_enabled(contents, kind, id, enabled), kind).len() == rules_of(
            contents,
            kind,
        ).len(),
        forall|i: int|
            0 <= i < rules_of(contents, kind).len() ==> #[trigger] rules_of(
                with_enabled(contents, kind, id, enabled),
                kind,
            )[i] == (if rules_of(contents, kind)[i].rule_id == id {
                RuleView { enabled, ..rules_of(contents, kind)[i] }
            } else {
                rules_of(contents, kind)[i]
            }),
{
    lemma_found_fits(contents, kind, id);
    match find(contents, kind, id) {
        Some(rule) => {
            lemma_replaced_in_place(contents, kind, RuleView { enabled, ..rule });
        },
        None => {},
    }
}

/// Giving a rule new actions keeps the rules of its kind in their order:
/// there are as many as before, each place holds the id it held, every rule
/// of another id is as it was, and the rule itself differs from what it was
/// in nothing but the actions.
pub proof fn lemma_set_actions_keeps_order(
    contents: Map<RuleKind, Seq<RuleView>>,
    kind: RuleKind,
    id: Seq<char>,
    actions: Seq<ruma::push::Action>,
)
    requires
        well_formed(contents),
    ensures
        well_formed(with_actions(contents, kind, id, actions)),
        rules_of(with_actions(contents, kind, id, actions), kind).len() == rules_of(
            contents,
            kind,
        ).len(),
        forall|i: int|
            0 <= i < rules_of(contents, kind).len() ==> #[trigger] rules_of(
                with_actions(contents, kind, id, actions),
                kind,
            )[i] == (if rules_of(contents, kind)[i].rule_id == id {
                RuleView { actions, ..rules_of(contents, kind)[i] }
            } else {
                rules_of(contents, kind)[i]
            }),
{
    lemma_found_fits(contents, kind, id);
    match find(contents, kind, id) {
        Some(rule) => {
            lemma_replaced_in_place(contents, kind, RuleView { actions, ..rule });
        },
        None => {},
    }
}

/// Putting a rule whose id is already there changes the one place that holds
/// this id, and no other.
pub proof fn lemma_replaced_in_place(
    contents: Map<RuleKind, Seq<RuleView>>,
    kind: RuleKind,
    rule: RuleView,
)
    requires
        well_formed(contents),
        fits(kind, rule),
        find(contents, kind, rule.rule_id) is Some,
    ensures
        well_formed(put(contents, kind, rule)),
        rules_of(put(contents, kind, rule), kind).len() == rules_of(contents, kind).len(),
        forall|i: int|
            0 <= i < rules_of(contents, kind).len() ==> #[trigger] rules_of(
                put(contents, kind, rule),
                kind,
            )[i] == (if rules_of(contents, kind)[i].rule_id == rule.rule_id {
                rule
            } else {
                rules_of(contents, kind)[i]
            }),
{
    let before = rules_of(contents, kind);
    lemma_put_well_formed(contents, kind, rule);
    lemma_upserted(before, rule);
    lemma_index_of(before, rule.rule_id);
}

/// The kinds are apart: putting, deleting or changing a rule of one kind
/// leaves the rules of every other kind as they were, also a rule of the
/// same id.
pub proof fn lemma_kinds_are_apart(
    contents: Map<RuleKind, Seq<RuleView>>,
    kind: RuleKind,
    rule: RuleView,
    other_kind: RuleKind,
)
    requires
        other_kind != kind,
    ensures
        rules_of(put(contents, kind, rule), other_kind) == rules_of(contents, other_kind),
        rules_of(delete(contents, kind, rule.rule_id), other_kind) == rules_of(
            contents,
            other_kind,
        ),
        rules_of(with_enabled(contents, kind, rule.rule_id, rule.enabled), other_kind) == rules_of(
            contents,
            other_kind,
        ),
        rules_of(with_actions(contents, kind, rule.rule_id, rule.actions), other_kind) == rules_of(
            contents,
            other_kind,
        ),
        find(put(contents, kind, rule), other_kind, rule.rule_id) == find(
            contents,
            other_kind,
            rule.rule_id,
        ),
{
}

/// An operation that names a scope other than the global one fails as
/// unsupported, whatever the document and the rule are, and so yields no
/// document to write.
pub proof fn lemma_unsupported_scope(
    scope: RuleScope,
    document: Option<Seq<char>>,
    kind: RuleKind,
    rule: RuleView,
)
    requires
        scope != RuleScope::Global,
    ensures
        set_pushrule_outcome(scope, document, kind, rule) == Err::<Seq<char>, _>(
            PushError::UnsupportedScope,
        ),
        set_actions_outcome(scope, document, kind, rule.rule_id, rule.actions) == Err::<
            Seq<char>,
            _,
        >(PushError::UnsupportedScope),
        set_enabled_outcome(scope, document, kind, rule.rule_id, rule.enabled) == Err::<
            Seq<char>,
            _,
        >(PushError::UnsupportedScope),
        delete_outcome(scope, document, kind, rule.rule_id) == Err::<Seq<char>, _>(
            PushError::UnsupportedScope,
        ),
        actions_outcome(scope, document, kind, rule.rule_id) == Err::<Seq<ruma::push::Action>, _>(
            PushError::UnsupportedScope,
        ),
        enabled_outcome(scope, document, kind, rule.rule_id) == Err::<bool, _>(
            PushError::UnsupportedScope,
        ),
{
}

/// An operation that is to change or delete a rule that does not exist
/// still hands a document back: the stored document with the rules that
/// were read from it.
pub proof fn lemma_absent_rule_writes_rules_back(
    scope: RuleScope,
    document: Option<Seq<char>>,
    kind: RuleKind,
    id: Seq<char>,
    enabled: bool,
    actions: Seq<ruma::push::Action>,
)
    requires
        loaded_in(scope, document) is Ok,
        find(loaded_in(scope, document).unwrap(), kind, id) is None,
    ensures
        set_enabled_outcome(scope, document, kind, id, enabled) == written(
            document,
            loaded_in(scope, document).unwrap(),
        ),
        set_actions_outcome(scope, document, kind, id, actions) == written(
            document,
            loaded_in(scope, document).unwrap(),
        ),
        delete_outcome(scope, document, kind, id) == written(
            document,
            loaded_in(scope, document).unwrap(),
        ),
{
    lemma_delete_absent(loaded_in(scope, document).unwrap(), kind, id);
}

/// Two rules that are switched one after the other, the second on the
/// contents that the first left, both show their new flag in the end.
pub proof fn lemma_toggles_compose(
    contents: Map<RuleKind, Seq<RuleView>>,
    first_kind: RuleKind,
    first_id: Seq<char>,
    first_enabled: bool,
    second_kind: RuleKind,
    second_id: Seq<char>,
    second_enabled: bool,
)
    requires
        well_formed(contents),
        first_kind != second_kind || first_id != second_id,
        find(contents, first_kind, first_id) is Some,
        find(contents, second_kind, second_id) is Some,
    ensures
        enabled_of(
            with_enabled(
                with_enabled(contents, first_kind, first_id, first_enabled),
                second_kind,
                second_id,
                second_enabled,
            ),
            first_kind,
            first_id,
        ) == first_enabled,
        enabled_of(
            with_enabled(
                with_enabled(contents, first_kind, first_id, first_enabled),
                second_kind,
                second_id,
                second_enabled,
            ),
            second_kind,
            second_id,
        ) == second_enabled,
{
    let first = with_enabled(contents, first_kind, first_id, first_enabled);
    lemma_set_enabled_changes_one(contents, first_kind, first_id, first_enabled);
    lemma_set_enabled_keeps_order(contents, first_kind, first_id, first_enabled);
    assert(find(first, second_kind, second_id) == find(contents, second_kind, second_id));
    lemma_set_enabled_changes_one(first, second_kind, second_id, second_enabled);
    let both = with_enabled(first, second_kind, second_id, second_enabled);
    assert(find(both, first_kind, first_id) == find(first, first_kind, first_id));
}

/// The order in which two different rules are switched does not matter: the
/// contents are the same in the end.
pub proof fn lemma_toggles_commute(
    contents: Map<RuleKind, Seq<RuleView>>,
    first_kind: RuleKind,
    first_id: Seq<char>,
    first_enabled: bool,
    second_kind: RuleKind,
    second_id: Seq<char>,
    second_enabled: bool,
)
    requires
        well_formed(contents),
        first_kind != second_kind || first_id != second_id,
    ensures
        with_enabled(
            with_enabled(contents, first_kind, first_id, first_enabled),
            second_kind,
            second_id,
            second_enabled,
        ) == with_enabled(
            with_enabled(contents, second_kind, second_id, second_enabled),
            first_kind,
            first_id,
            first_enabled,
        ),
{
    let a = with_enabled(contents, first_kind, first_id, first_enabled);
    let b = with_enabled(contents, second_kind, second_id, second_enabled);
    let ab = with_enabled(a, second_kind, second_id, second_enabled);
    let ba = with_enabled(b, first_kind, first_id, first_enabled);
    assert forall|kind: RuleKind| #[trigger] rules_of(ab, kind) == rules_of(ba, kind) by {
        lemma_set_enabled_pointwise(contents, first_kind, first_id, first_enabled, kind);
        lemma_set_enabled_pointwise(contents, second_kind, second_id, second_enabled, kind);
        lemma_set_enabled_pointwise(a, second_kind, second_id, second_enabled, kind);
        lemma_set_enabled_pointwise(b, first_kind, first_id, first_enabled, kind);
        assert(rules_of(ab, kind) =~= rules_of(ba, kind));
    }
    assert(ab =~= ba) by {
        lemma_set_enabled_pointwise(contents, first_kind, first_id, first_enabled, first_kind);
        lemma_set_enabled_pointwise(contents, second_kind, second_id, second_enabled, first_kind);
        lemma_set_enabled_pointwise(a, second_kind, second_id, second_enabled, first_kind);
        lemma_set_enabled_pointwise(b, first_kind, first_id, first_enabled, first_kind);
        assert forall|kind: RuleKind| ab.dom().contains(kind) implies #[trigger] ab[kind]
            == ba[kind] by {
            assert(rules_of(ab, kind) == rules_of(ba, kind));
        }
    }
}

/// What switching a rule does to the rules of any one kind, place by place:
/// the rule of the given kind and id gets the flag, and every other rule of
/// every kind is as it was.
pub proof fn lemma_set_enabled_pointwise(
    contents: Map<RuleKind, Seq<RuleView>>,
    kind: RuleKind,
    id: Seq<char>,
    enabled: bool,
    at_kind: RuleKind,
)
    requires
        well_formed(contents),
    ensures
        well_formed(with_enabled(contents, kind, id, enabled)),
        with_enabled(contents, kind, id, enabled).dom() == contents.dom(),
        rules_of(with_enabled(contents, kind, id, enabled), at_kind).len() == rules_of(
            contents,
            at_kind,
        ).len(),
        forall|i: int|
            0 <= i < rules_of(contents, at_kind).len() ==> #[trigger] rules_of(
                with_enabled(contents, kind, id, enabled),
                at_kind,
            )[i] == (if at_kind == kind && rules_of(contents, at_kind)[i].rule_id == id {
                RuleView { enabled, ..rules_of(contents, at_kind)[i] }
            } else {
                rules_of(contents, at_kind)[i]
            }),
{
    lemma_set_enabled_keeps_order(contents, kind, id, enabled);
    lemma_set_enabled_changes_one(contents, kind, id, enabled);
}

/// Switching a rule on or off shows in that rule and in no other: afterwards
/// the rule is found with the new flag, and every rule of another kind or id
/// is found as before. The kinds that have rules stay the same.
pub proof fn lemma_set_enabled_changes_one(
    contents: Map<RuleKind, Seq<RuleView>>,
    kind: RuleKind,
    id: Seq<char>,
    enabled: bool,
)
    requires
        well_formed(contents),
    ensures
        with_enabled(contents, kind, id, enabled).dom() == contents.dom(),
        find(contents, kind, id) is Some ==> find(
            with_enabled(contents, kind, id, enabled),
            kind,
            id,
        ) == Some(RuleView { enabled, ..find(contents, kind, id).unwrap() }),
        forall|other_kind: RuleKind, other_id: Seq<char>|
            other_kind != kind || other_id != id ==> #[trigger] find(
                with_enabled(contents, kind, id, enabled),
                other_kind,
                other_id,
            ) == find(contents, other_kind, other_id),
{
    lemma_found_fits(contents, kind, id);
    match find(contents, kind, id) {
        Some(rule) => {
            let changed = RuleView { enabled, ..rule };
            lemma_upserted(rules_of(contents, kind), changed);
            assert(with_enabled(contents, kind, id, enabled).dom() =~= contents.dom());
        },
        None => {},
    }
}

} // verus!
