//! The ruleset of one user, and the operations on single rules.
use vstd::prelude::*;
use crate::error::PushError;
use crate::kind::RuleKind;
use crate::model::{
    actions_of, contains_id, delete, empty_contents, enabled_of, find, fits,
    lemma_delete_well_formed, lemma_found_fits, lemma_put_well_formed, put, rules_of, well_formed,
    with_actions, with_enabled,
};
use crate::rule::{option_view, NewPushRule, Payload, Rule, RuleView};
use crate::store::{
    decoded, encoded, get_content, get_override, get_room, get_sender, get_underride, new_ruleset,
    patch_event, patched, read_event, remove_content, remove_override, remove_room, remove_sender,
    remove_underride, replace_content, replace_override, replace_room, replace_sender,
    replace_underride, rules, write_event,
};

verus! {

/// The JSON pointer to the place of the rules in a push rules event: the
/// member `global` of the member `content`.
pub open spec fn rules_pointer() -> Seq<char> {
    "/content/global"@
}

/// The push rules of one user: for each of the five known kinds an ordered
/// collection of rules, with distinct ids inside a kind. The order inside a
/// kind is the order in which the rules are tried.
pub struct PushRuleset {
    inner: ruma::push::Ruleset,
}

impl View for PushRuleset {
    type V = Map<RuleKind, Seq<RuleView>>;

    closed spec fn view(&self) -> Map<RuleKind, Seq<RuleView>> {
        rules(self.inner)
    }
}

impl PushRuleset {
    #[verifier::type_invariant]
    closed spec fn valid(self) -> bool {
        well_formed(rules(self.inner))
    }

    /// Hands out the rules and leaves an empty ruleset behind, so that the
    /// ruleset is valid at every moment while a collection is being changed.
    fn take(&mut self) -> (inner: ruma::push::Ruleset)
        ensures
            rules(inner) == old(self)@,
            final(self)@ == empty_contents(),
    {
        let mut inner = new_ruleset();
        core::mem::swap(&mut self.inner, &mut inner);
        inner
    }

    /// A ruleset without rules.
    pub fn new() -> (ruleset: PushRuleset)
        ensures
            ruleset@ == empty_contents(),
            well_formed(ruleset@),
    {
        PushRuleset { inner: new_ruleset() }
    }

    /// Reads a ruleset from the JSON text of a push rules event. A text that
    /// is no such event is corrupt data.
    pub fn decode(document: &str) -> (r: Result<PushRuleset, PushError>)
        ensures
            match r {
                Ok(ruleset) => decoded(document@) == Some(ruleset@) && well_formed(ruleset@),
                Err(e) => decoded(document@) is None && e == PushError::CorruptData,
            },
    {
        match read_event(document) {
            Ok(inner) => Ok(PushRuleset { inner }),
            Err(_) => Err(PushError::CorruptData),
        }
    }

    /// Writes the ruleset as the JSON text of a new push rules event, which
    /// holds these rules and nothing else. This is the first document of a
    /// user; a stored document is changed by [`PushRuleset::patch`].
    pub fn encode(&self) -> (document: String)
        ensures
            document@ == encoded(self@),
    {
        write_event(&self.inner)
    }

    /// Writes the ruleset into a stored document: the result is the text of
    /// the document with the rules replaced by these, whole, and with
    /// everything beside the rules as it was. `None` where the document has
    /// no place for rules.
    pub fn patch(&self, document: &str) -> (text: Option<String>)
        ensures
            match text {
                Some(text) => patched(document@, rules_pointer(), self@) == Some(text@),
                None => patched(document@, rules_pointer(), self@) is None,
            },
    {
        patch_event(document, "/content/global", &self.inner)
    }

    /// The rule of this kind and id, or `None` where there is none. There is
    /// none of the kind `Other`.
    pub fn find(&self, kind: RuleKind, rule_id: &str) -> (r: Option<Rule>)
        ensures
            option_view(r) == find(self@, kind, rule_id@),
            well_formed(self@),
    {
        proof {
            use_type_invariant(self);
        }
        match kind {
            RuleKind::Override => get_override(&self.inner, rule_id),
            RuleKind::Underride => get_underride(&self.inner, rule_id),
            RuleKind::Sender => get_sender(&self.inner, rule_id),
            RuleKind::Room => get_room(&self.inner, rule_id),
            RuleKind::Content => get_content(&self.inner, rule_id),
            RuleKind::Other => None,
        }
    }

    /// Puts a rule among the rules of a kind: in the place of the rule with
    /// the same id where there is one, behind all others where there is none.
    /// A rule that does not fit the kind is refused, and nothing changes.
    pub fn upsert(&mut self, kind: RuleKind, rule: Rule) -> (accepted: bool)
        ensures
            accepted == fits(kind, rule@),
            final(self)@ == put(old(self)@, kind, rule@),
            well_formed(final(self)@),
    {
        proof {
            use_type_invariant(&*self);
            lemma_put_well_formed(self@, kind, rule@);
        }
        let Rule { rule_id, default, enabled, actions, payload } = rule;
        let mut inner = self.take();
        let accepted = match kind {
            RuleKind::Override => match payload {
                Payload::Conditions(conditions) => {
                    replace_override(&mut inner, rule_id, default, enabled, actions, conditions);
                    true
                },
                _ => false,
            },
            RuleKind::Underride => match payload {
                Payload::Conditions(conditions) => {
                    replace_underride(&mut inner, rule_id, default, enabled, actions, conditions);
                    true
                },
                _ => false,
            },
            RuleKind::Content => match payload {
                Payload::Pattern(pattern) => {
                    replace_content(&mut inner, rule_id, default, enabled, actions, pattern);
                    true
                },
                _ => false,
            },
            RuleKind::Room => match payload {
                Payload::Bare => replace_room(&mut inner, rule_id, default, enabled, actions),
                _ => false,
            },
            RuleKind::Sender => match payload {
                Payload::Bare => replace_sender(&mut inner, rule_id, default, enabled, actions),
                _ => false,
            },
            RuleKind::Other => false,
        };
        self.inner = inner;
        accepted
    }

    /// Takes the rule of this kind and id out. The other rules keep their
    /// order. Where there is no such rule nothing changes and the result is
    /// `false`.
    pub fn remove(&mut self, kind: RuleKind, rule_id: &str) -> (present: bool)
        ensures
            present == contains_id(rules_of(old(self)@, kind), rule_id@),
            final(self)@ == delete(old(self)@, kind, rule_id@),
            well_formed(final(self)@),
    {
        proof {
            use_type_invariant(&*self);
            lemma_delete_well_formed(self@, kind, rule_id@);
        }
        let mut inner = self.take();
        let present = match kind {
            RuleKind::Override => remove_override(&mut inner, rule_id),
            RuleKind::Underride => remove_underride(&mut inner, rule_id),
            RuleKind::Sender => remove_sender(&mut inner, rule_id),
            RuleKind::Room => remove_room(&mut inner, rule_id),
            RuleKind::Content => remove_content(&mut inner, rule_id),
            RuleKind::Other => false,
        };
        self.inner = inner;
        present
    }

    /// Stores a rule that a user made: it is not a default rule and it is
    /// enabled. It takes the place of the rule of the same kind and id where
    /// there is one, and goes behind all rules of its kind where there is
    /// none. A room or sender rule whose id names no room or user is refused,
    /// and nothing changes.
    pub fn insert(&mut self, rule: NewPushRule) -> (accepted: bool)
        ensures
            accepted == fits(rule.kind(), rule.rule_view()),
            final(self)@ == put(old(self)@, rule.kind(), rule.rule_view()),
            well_formed(final(self)@),
    {
        let kind = rule.kind();
        self.upsert(kind, rule.into_rule())
    }

    /// Switches the rule of this kind and id on or off. The rule keeps its
    /// place and its other fields. Where there is no such rule nothing
    /// changes and the result is `false`.
    pub fn set_enabled(&mut self, kind: RuleKind, rule_id: &str, enabled: bool) -> (found: bool)
        ensures
            found == find(old(self)@, kind, rule_id@).is_some(),
            final(self)@ == with_enabled(old(self)@, kind, rule_id@, enabled),
            well_formed(final(self)@),
    {
        match self.find(kind, rule_id) {
            Some(rule) => {
                proof {
                    lemma_found_fits(self@, kind, rule_id@);
                }
                let changed = Rule { enabled, ..rule };
                self.upsert(kind, changed)
            },
            None => false,
        }
    }

    /// Gives the rule of this kind and id new actions, all at once. The rule
    /// keeps its place and its other fields. Where there is no such rule
    /// nothing changes and the result is `false`.
    pub fn set_actions(
        &mut self,
        kind: RuleKind,
        rule_id: &str,
        actions: Vec<ruma::push::Action>,
    ) -> (found: bool)
        ensures
            found == find(old(self)@, kind, rule_id@).is_some(),
            final(self)@ == with_actions(old(self)@, kind, rule_id@, actions@),
            well_formed(final(self)@),
    {
        match self.find(kind, rule_id) {
            Some(rule) => {
                proof {
                    lemma_found_fits(self@, kind, rule_id@);
                }
                let changed = Rule { actions, ..rule };
                self.upsert(kind, changed)
            },
            None => false,
        }
    }

    /// The actions of the rule of this kind and id, in order; none where
    /// there is no such rule.
    pub fn actions(&self, kind: RuleKind, rule_id: &str) -> (actions: Vec<ruma::push::Action>)
        ensures
            actions@ == actions_of(self@, kind, rule_id@),
    {
        match self.find(kind, rule_id) {
            Some(rule) => rule.actions,
            None => Vec::new(),
        }
    }

    /// Whether the rule of this kind and id is in force; `false` where there
    /// is no such rule.
    pub fn is_enabled(&self, kind: RuleKind, rule_id: &str) -> (enabled: bool)
        ensures
            enabled == enabled_of(self@, kind, rule_id@),
    {
        match self.find(kind, rule_id) {
            Some(rule) => rule.enabled,
            None => false,
        }
    }

    /// The ruleset as `ruma` holds it.
    pub fn into_inner(self) -> (inner: ruma::push::Ruleset)
        ensures
            rules(inner) == self@,
    {
        self.inner
    }
}

} // verus!
