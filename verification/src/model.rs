//! The mathematical model of a ruleset: for each known kind an ordered
//! sequence of rules, in which a rule is found by its id.
use vstd::prelude::*;
use crate::kind::RuleKind;
use crate::rule::RuleView;
use crate::store::{is_room_id, is_user_id};

verus! {

/// Whether some rule of the sequence has this id.
pub open spec fn contains_id(rules: Seq<RuleView>, id: Seq<char>) -> bool {
    exists|i: int| 0 <= i < rules.len() && (#[trigger] rules[i]).rule_id == id
}

/// The position of the rule with this id. Meaningful where
/// `contains_id(rules, id)`; where the ids are distinct there is one such
/// position.
pub open spec fn index_of(rules: Seq<RuleView>, id: Seq<char>) -> int {
    choose|i: int| 0 <= i < rules.len() && (#[trigger] rules[i]).rule_id == id
}

/// The rule with this id, if the sequence holds one.
pub open spec fn lookup(rules: Seq<RuleView>, id: Seq<char>) -> Option<RuleView> {
    if contains_id(rules, id) {
        Some(rules[index_of(rules, id)])
    } else {
        None
    }
}

/// The sequence after `rule` was put into it: in the place of the rule with
/// the same id where there is one, behind all others where there is none.
pub open spec fn upserted(rules: Seq<RuleView>, rule: RuleView) -> Seq<RuleView> {
    if contains_id(rules, rule.rule_id) {
        rules.update(index_of(rules, rule.rule_id), rule)
    } else {
        rules.push(rule)
    }
}

/// The sequence without the rule of this id; the others keep their order.
pub open spec fn removed(rules: Seq<RuleView>, id: Seq<char>) -> Seq<RuleView> {
    if contains_id(rules, id) {
        rules.remove(index_of(rules, id))
    } else {
        rules
    }
}

/// No two rules of the sequence share an id.
pub open spec fn distinct_ids(rules: Seq<RuleView>) -> bool {
    forall|i: int, j: int|
        0 <= i < j < rules.len() ==> (#[trigger] rules[i]).rule_id != (#[trigger] rules[j]).rule_id
}

/// Whether a rule can stand in the collection of a kind: override and
/// underride rules carry conditions, content rules a pattern, room and sender
/// rules nothing, and the id of a room or sender rule is a room id or a user
/// id. No rule fits `Other`.
pub open spec fn fits(kind: RuleKind, rule: RuleView) -> bool {
    match kind {
        RuleKind::Override | RuleKind::Underride => rule.payload is Conditions,
        RuleKind::Content => rule.payload is Pattern,
        RuleKind::Room => rule.payload is Bare && is_room_id(rule.rule_id),
        RuleKind::Sender => rule.payload is Bare && is_user_id(rule.rule_id),
        RuleKind::Other => false,
    }
}

/// Every rule of the sequence fits the kind.
pub open spec fn all_fit(kind: RuleKind, rules: Seq<RuleView>) -> bool {
    forall|i: int| 0 <= i < rules.len() ==> fits(kind, #[trigger] rules[i])
}

/// The contents of a ruleset that holds no rule.
pub open spec fn empty_contents() -> Map<RuleKind, Seq<RuleView>> {
    Map::new(|kind: RuleKind| kind.is_known(), |kind: RuleKind| Seq::<RuleView>::empty())
}

/// The validity of the contents of a ruleset: there is one sequence for each
/// known kind and none for `Other`, ids are distinct inside a kind, and every
/// rule fits its kind.
pub open spec fn well_formed(contents: Map<RuleKind, Seq<RuleView>>) -> bool {
    &&& forall|kind: RuleKind| #[trigger] contents.dom().contains(kind) <==> kind.is_known()
    &&& forall|kind: RuleKind| #[trigger]
        contents.dom().contains(kind) ==> distinct_ids(contents[kind]) && all_fit(
            kind,
            contents[kind],
        )
}

/// The rules of one kind, in their order; empty for `Other`.
pub open spec fn rules_of(contents: Map<RuleKind, Seq<RuleView>>, kind: RuleKind) -> Seq<
    RuleView,
> {
    if contents.dom().contains(kind) {
        contents[kind]
    } else {
        Seq::empty()
    }
}

/// The contents with the rules of one known kind replaced; unchanged for
/// `Other`.
pub open spec fn with_rules(
    contents: Map<RuleKind, Seq<RuleView>>,
    kind: RuleKind,
    rules: Seq<RuleView>,
) -> Map<RuleKind, Seq<RuleView>> {
    if contents.dom().contains(kind) {
        contents.insert(kind, rules)
    } else {
        contents
    }
}

/// The rule of this kind and id, if there is one.
pub open spec fn find(contents: Map<RuleKind, Seq<RuleView>>, kind: RuleKind, id: Seq<char>) -> Option<
    RuleView,
> {
    lookup(rules_of(contents, kind), id)
}

/// The contents after `rule` was stored among the rules of `kind`, in the
/// place of the rule of the same id or behind all others.
pub open spec fn stored(contents: Map<RuleKind, Seq<RuleView>>, kind: RuleKind, rule: RuleView) -> Map<
    RuleKind,
    Seq<RuleView>,
> {
    with_rules(contents, kind, upserted(rules_of(contents, kind), rule))
}

/// The contents after `rule` was put among the rules of `kind`: it is stored
/// where it fits the kind, and changes nothing where it does not.
pub open spec fn put(contents: Map<RuleKind, Seq<RuleView>>, kind: RuleKind, rule: RuleView) -> Map<
    RuleKind,
    Seq<RuleView>,
> {
    if fits(kind, rule) {
        stored(contents, kind, rule)
    } else {
        contents
    }
}

/// The contents without the rule of this kind and id.
pub open spec fn delete(contents: Map<RuleKind, Seq<RuleView>>, kind: RuleKind, id: Seq<char>) -> Map<
    RuleKind,
    Seq<RuleView>,
> {
    with_rules(contents, kind, removed(rules_of(contents, kind), id))
}

/// The contents after the rule of this kind and id, if there is one, was
/// switched on or off. The rule keeps its place.
pub open spec fn with_enabled(
    contents: Map<RuleKind, Seq<RuleView>>,
    kind: RuleKind,
    id: Seq<char>,
    enabled: bool,
) -> Map<RuleKind, Seq<RuleView>> {
    match find(contents, kind, id) {
        Some(rule) => put(contents, kind, RuleView { enabled, ..rule }),
        None => contents,
    }
}

/// The contents after the rule of this kind and id, if there is one, was
/// given new actions. The rule keeps its place.
pub open spec fn with_actions(
    contents: Map<RuleKind, Seq<RuleView>>,
    kind: RuleKind,
    id: Seq<char>,
    actions: Seq<ruma::push::Action>,
) -> Map<RuleKind, Seq<RuleView>> {
    match find(contents, kind, id) {
        Some(rule) => put(contents, kind, RuleView { actions, ..rule }),
        None => contents,
    }
}

/// The actions of the rule of this kind and id; none where there is no such
/// rule.
pub open spec fn actions_of(contents: Map<RuleKind, Seq<RuleView>>, kind: RuleKind, id: Seq<char>) -> Seq<
    ruma::push::Action,
> {
    match find(contents, kind, id) {
        Some(rule) => rule.actions,
        None => Seq::empty(),
    }
}

/// Whether the rule of this kind and id is in force; `false` where there is
/// no such rule.
pub open spec fn enabled_of(contents: Map<RuleKind, Seq<RuleView>>, kind: RuleKind, id: Seq<char>) -> bool {
    match find(contents, kind, id) {
        Some(rule) => rule.enabled,
        None => false,
    }
}

/// Where the sequence holds a rule of this id, `index_of` is a position of
/// such a rule; where ids are distinct, it is the only one.
pub proof fn lemma_index_of(rules: Seq<RuleView>, id: Seq<char>)
    requires
        contains_id(rules, id),
    ensures
        0 <= index_of(rules, id) < rules.len(),
        rules[index_of(rules, id)].rule_id == id,
        lookup(rules, id) == Some(rules[index_of(rules, id)]),
        distinct_ids(rules) ==> forall|i: int|
            0 <= i < rules.len() && (#[trigger] rules[i]).rule_id == id ==> i == index_of(rules, id),
{
}

/// Putting a rule keeps ids distinct, keeps every other rule and its place,
/// and makes the rule the one that is found under its id.
pub proof fn lemma_upserted(rules: Seq<RuleView>, rule: RuleView)
    requires
        distinct_ids(rules),
    ensures
        distinct_ids(upserted(rules, rule)),
        lookup(upserted(rules, rule), rule.rule_id) == Some(rule),
        contains_id(rules, rule.rule_id) ==> upserted(rules, rule).len() == rules.len(),
        !contains_id(rules, rule.rule_id) ==> upserted(rules, rule).len() == rules.len() + 1,
        forall|i: int|
            0 <= i < rules.len() ==> (#[trigger] upserted(rules, rule)[i]).rule_id == rules[i].rule_id,
        forall|i: int|
            0 <= i < rules.len() && rules[i].rule_id != rule.rule_id ==> #[trigger] upserted(
                rules,
                rule,
            )[i] == rules[i],
        forall|id: Seq<char>|
            id != rule.rule_id ==> #[trigger] lookup(upserted(rules, rule), id) == lookup(rules, id),
{
    let after = upserted(rules, rule);
    if contains_id(rules, rule.rule_id) {
        lemma_index_of(rules, rule.rule_id);
        let at = index_of(rules, rule.rule_id);
        assert(after[at] == rule);
        assert forall|i: int| 0 <= i < after.len() implies (#[trigger] after[i]).rule_id
            == rules[i].rule_id by {}
    } else {
        assert(after[rules.len() as int] == rule);
        assert forall|i: int| 0 <= i < rules.len() implies (#[trigger] after[i]) == rules[i] by {}
    }
    assert(distinct_ids(after)) by {
        assert forall|i: int, j: int| 0 <= i < j < after.len() implies (#[trigger] after[i]).rule_id
            != (#[trigger] after[j]).rule_id by {
            if j < rules.len() {
                assert(rules[i].rule_id != rules[j].rule_id);
            } else {
                assert(rules[i].rule_id != rule.rule_id);
            }
        }
    }
    assert(contains_id(after, rule.rule_id)) by {
        if contains_id(rules, rule.rule_id) {
            assert(after[index_of(rules, rule.rule_id)].rule_id == rule.rule_id);
        } else {
            assert(after[rules.len() as int].rule_id == rule.rule_id);
        }
    }
    lemma_index_of(after, rule.rule_id);
    assert forall|id: Seq<char>| id != rule.rule_id implies #[trigger] lookup(after, id) == lookup(
        rules,
        id,
    ) by {
        lemma_lookup_same(rules, after, id);
    }
}

/// Two sequences with distinct ids that agree on every rule of one id, place
/// by place, give the same rule under that id.
pub proof fn lemma_lookup_same(before: Seq<RuleView>, after: Seq<RuleView>, id: Seq<char>)
    requires
        distinct_ids(before),
        distinct_ids(after),
        forall|i: int|
            0 <= i < before.len() && (#[trigger] before[i]).rule_id == id ==> i < after.len()
                && after[i] == before[i],
        forall|i: int|
            0 <= i < after.len() && (#[trigger] after[i]).rule_id == id ==> i < before.len()
                && before[i] == after[i],
    ensures
        lookup(after, id) == lookup(before, id),
{
    if contains_id(before, id) {
        lemma_index_of(before, id);
        let at = index_of(before, id);
        assert(after[at].rule_id == id);
        lemma_index_of(after, id);
    } else if contains_id(after, id) {
        lemma_index_of(after, id);
        let at = index_of(after, id);
        assert(before[at].rule_id == id);
    }
}

/// Taking a rule out keeps ids distinct and keeps the others in their order:
/// those before it stay, those behind it move up by one. Afterwards no rule
/// has the id.
pub proof fn lemma_removed(rules: Seq<RuleView>, id: Seq<char>)
    requires
        distinct_ids(rules),
    ensures
        distinct_ids(removed(rules, id)),
        !contains_id(removed(rules, id), id),
        lookup(removed(rules, id), id) is None,
        !contains_id(rules, id) ==> removed(rules, id) == rules,
        contains_id(rules, id) ==> removed(rules, id).len() + 1 == rules.len(),
        contains_id(rules, id) ==> forall|i: int|
            0 <= i < removed(rules, id).len() ==> #[trigger] removed(rules, id)[i] == (if i
                < index_of(rules, id) {
                rules[i]
            } else {
                rules[i + 1]
            }),
{
    let after = removed(rules, id);
    if contains_id(rules, id) {
        lemma_index_of(rules, id);
        let at = index_of(rules, id);
        assert forall|i: int| 0 <= i < after.len() implies #[trigger] after[i] == (if i < at {
            rules[i]
        } else {
            rules[i + 1]
        }) by {}
        assert forall|i: int, j: int| 0 <= i < j < after.len() implies (#[trigger] after[i]).rule_id
            != (#[trigger] after[j]).rule_id by {
            let a = if i < at { i } else { i + 1 };
            let b = if j < at { j } else { j + 1 };
            assert(rules[a].rule_id != rules[b].rule_id);
        }
        assert forall|i: int| 0 <= i < after.len() implies (#[trigger] after[i]).rule_id != id by {
            let a = if i < at { i } else { i + 1 };
            assert(rules[a].rule_id == id ==> a == at);
        }
    }
}

/// In valid contents the rule that is found under a kind fits that kind, and
/// its id is the one that was asked for.
pub proof fn lemma_found_fits(contents: Map<RuleKind, Seq<RuleView>>, kind: RuleKind, id: Seq<char>)
    requires
        well_formed(contents),
    ensures
        match find(contents, kind, id) {
            Some(rule) => fits(kind, rule) && rule.rule_id == id && contents.dom().contains(kind),
            None => true,
        },
{
    if contains_id(rules_of(contents, kind), id) {
        lemma_index_of(rules_of(contents, kind), id);
    }
}

/// Putting a rule leaves valid contents valid.
pub proof fn lemma_put_well_formed(
    contents: Map<RuleKind, Seq<RuleView>>,
    kind: RuleKind,
    rule: RuleView,
)
    requires
        well_formed(contents),
    ensures
        well_formed(put(contents, kind, rule)),
{
    if fits(kind, rule) {
        let before = rules_of(contents, kind);
        let after = upserted(before, rule);
        lemma_upserted(before, rule);
        assert(contents.dom().contains(kind));
        assert(all_fit(kind, after)) by {
            assert forall|i: int| 0 <= i < after.len() implies fits(kind, #[trigger] after[i]) by {
                if i < before.len() && before[i].rule_id != rule.rule_id {
                    assert(fits(kind, before[i]));
                } else if i < before.len() {
                    lemma_index_of(before, rule.rule_id);
                    assert(after[i] == rule);
                } else {
                    assert(after[i] == rule);
                }
            }
        }
        let result = put(contents, kind, rule);
        assert forall|k: RuleKind| #[trigger] result.dom().contains(k) implies distinct_ids(
            result[k],
        ) && all_fit(k, result[k]) by {
            if k != kind {
                assert(contents.dom().contains(k));
            }
        }
    }
}

/// Taking a rule out leaves valid contents valid.
pub proof fn lemma_delete_well_formed(
    contents: Map<RuleKind, Seq<RuleView>>,
    kind: RuleKind,
    id: Seq<char>,
)
    requires
        well_formed(contents),
    ensures
        well_formed(delete(contents, kind, id)),
{
    if contents.dom().contains(kind) {
        let before = rules_of(contents, kind);
        let after = removed(before, id);
        lemma_removed(before, id);
        assert(all_fit(kind, after)) by {
            assert forall|i: int| 0 <= i < after.len() implies fits(kind, #[trigger] after[i]) by {
                if contains_id(before, id) {
                    let a = if i < index_of(before, id) { i } else { i + 1 };
                    assert(fits(kind, before[a]));
                } else {
                    assert(fits(kind, before[i]));
                }
            }
        }
        let result = delete(contents, kind, id);
        assert forall|k: RuleKind| #[trigger] result.dom().contains(k) implies distinct_ids(
            result[k],
        ) && all_fit(k, result[k]) by {
            if k != kind {
                assert(contents.dom().contains(k));
            }
        }
    }
}

} // verus!
