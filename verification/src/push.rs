//! The operations on the stored push rules of one user.
//!
//! Each operation takes the user's document as it was read from the store,
//! `None` where the user has none, and works on nothing else. One that
//! changes a rule returns the new document, whole, for the caller to write
//! back: the stored document with the rules replaced and with everything
//! beside the rules as it was. It does so also where the rule it was to
//! change does not exist, with the rules as they were. One that fails
//! returns no document, so a failed operation leaves the store as it is.
use vstd::prelude::*;
use crate::error::PushError;
use crate::kind::{RuleKind, RuleScope};
use crate::model::{
    actions_of, delete, enabled_of, find, fits, put, well_formed, with_actions, with_enabled,
};
use crate::rule::{NewPushRule, Rule, RuleView};
use crate::ruleset::{rules_pointer, PushRuleset};
use crate::store::{decoded, patched};

verus! {

/// The text of a document that may be missing.
pub open spec fn text_of(document: Option<&str>) -> Option<Seq<char>> {
    match document {
        Some(text) => Some(text@),
        None => None,
    }
}

/// The contents that an operation works on: those of the stored document.
/// A missing document is not found; one that cannot be read is corrupt.
pub open spec fn loaded(document: Option<Seq<char>>) -> Result<Map<RuleKind, Seq<RuleView>>, PushError> {
    match document {
        None => Err(PushError::DocumentNotFound),
        Some(text) => match decoded(text) {
            Some(contents) => Ok(contents),
            None => Err(PushError::CorruptData),
        },
    }
}

/// What an operation that names a scope works on: only the global scope is
/// supported, and any other is refused before the document is looked at.
pub open spec fn loaded_in(scope: RuleScope, document: Option<Seq<char>>) -> Result<
    Map<RuleKind, Seq<RuleView>>,
    PushError,
> {
    if scope == RuleScope::Global {
        loaded(document)
    } else {
        Err(PushError::UnsupportedScope)
    }
}

/// The document that is handed back for writing: the stored document with
/// the rules replaced by `contents` and all else kept. A stored document
/// that has no place for rules is corrupt.
pub open spec fn written(document: Option<Seq<char>>, contents: Map<RuleKind, Seq<RuleView>>) -> Result<
    Seq<char>,
    PushError,
> {
    match document {
        None => Err(PushError::DocumentNotFound),
        Some(text) => match patched(text, rules_pointer(), contents) {
            Some(changed) => Ok(changed),
            None => Err(PushError::CorruptData),
        },
    }
}

/// The outcome of looking up one rule: the rule, or that it was not found.
pub open spec fn pushrule_outcome(document: Option<Seq<char>>, kind: RuleKind, id: Seq<char>) -> Result<
    RuleView,
    PushError,
> {
    match loaded(document) {
        Ok(contents) => match find(contents, kind, id) {
            Some(rule) => Ok(rule),
            None => Err(PushError::RuleNotFound),
        },
        Err(e) => Err(e),
    }
}

/// The outcome of storing a rule: the new document, in which the rule is
/// enabled and no default rule.
pub open spec fn set_pushrule_outcome(
    scope: RuleScope,
    document: Option<Seq<char>>,
    kind: RuleKind,
    rule: RuleView,
) -> Result<Seq<char>, PushError> {
    match loaded_in(scope, document) {
        Ok(contents) => if fits(kind, rule) {
            written(document, put(contents, kind, rule))
        } else {
            Err(PushError::InvalidRuleId)
        },
        Err(e) => Err(e),
    }
}

/// The outcome of asking for the actions of a rule.
pub open spec fn actions_outcome(
    scope: RuleScope,
    document: Option<Seq<char>>,
    kind: RuleKind,
    id: Seq<char>,
) -> Result<Seq<ruma::push::Action>, PushError> {
    match loaded_in(scope, document) {
        Ok(contents) => Ok(actions_of(contents, kind, id)),
        Err(e) => Err(e),
    }
}

/// The outcome of giving a rule new actions: the new document.
pub open spec fn set_actions_outcome(
    scope: RuleScope,
    document: Option<Seq<char>>,
    kind: RuleKind,
    id: Seq<char>,
    actions: Seq<ruma::push::Action>,
) -> Result<Seq<char>, PushError> {
    match loaded_in(scope, document) {
        Ok(contents) => written(document, with_actions(contents, kind, id, actions)),
        Err(e) => Err(e),
    }
}

/// The outcome of asking whether a rule is enabled.
pub open spec fn enabled_outcome(
    scope: RuleScope,
    document: Option<Seq<char>>,
    kind: RuleKind,
    id: Seq<char>,
) -> Result<bool, PushError> {
    match loaded_in(scope, document) {
        Ok(contents) => Ok(enabled_of(contents, kind, id)),
        Err(e) => Err(e),
    }
}

/// The outcome of switching a rule on or off: the new document.
pub open spec fn set_enabled_outcome(
    scope: RuleScope,
    document: Option<Seq<char>>,
    kind: RuleKind,
    id: Seq<char>,
    enabled: bool,
) -> Result<Seq<char>, PushError> {
    match loaded_in(scope, document) {
        Ok(contents) => written(document, with_enabled(contents, kind, id, enabled)),
        Err(e) => Err(e),
    }
}

/// The outcome of deleting a rule: the new document.
pub open spec fn delete_outcome(
    scope: RuleScope,
    document: Option<Seq<char>>,
    kind: RuleKind,
    id: Seq<char>,
) -> Result<Seq<char>, PushError> {
    match loaded_in(scope, document) {
        Ok(contents) => written(document, delete(contents, kind, id)),
        Err(e) => Err(e),
    }
}

/// The mathematical value of the result of an operation that returns a
/// document.
pub open spec fn document_view(r: Result<String, PushError>) -> Result<Seq<char>, PushError> {
    match r {
        Ok(document) => Ok(document@),
        Err(e) => Err(e),
    }
}

/// Refuses every scope but the global one. An operation that names a scope
/// fails with this error and no other where the scope is not supported, so a
/// caller may ask this first and leave the store alone.
pub fn check_scope(scope: RuleScope) -> (r: Result<(), PushError>)
    ensures
        r == (if scope == RuleScope::Global {
            Ok::<(), PushError>(())
        } else {
            Err(PushError::UnsupportedScope)
        }),
{
    match scope {
        RuleScope::Global => Ok(()),
        RuleScope::Other => Err(PushError::UnsupportedScope),
    }
}

/// Reads the ruleset from the stored document.
fn load(document: Option<&str>) -> (r: Result<PushRuleset, PushError>)
    ensures
        match r {
            Ok(ruleset) => loaded(text_of(document)) == Ok::<_, PushError>(ruleset@)
                && well_formed(ruleset@),
            Err(e) => loaded(text_of(document)) == Err::<Map<RuleKind, Seq<RuleView>>, _>(e),
        },
{
    match document {
        Some(text) => PushRuleset::decode(text),
        None => Err(PushError::DocumentNotFound),
    }
}

/// Checks the scope, then reads the ruleset from the stored document.
fn load_in(scope: RuleScope, document: Option<&str>) -> (r: Result<PushRuleset, PushError>)
    ensures
        match r {
            Ok(ruleset) => loaded_in(scope, text_of(document)) == Ok::<_, PushError>(ruleset@),
            Err(e) => loaded_in(scope, text_of(document)) == Err::<
                Map<RuleKind, Seq<RuleView>>,
                _,
            >(e),
        },
{
    match check_scope(scope) {
        Ok(()) => load(document),
        Err(e) => Err(e),
    }
}

/// Writes the changed rules into the stored document.
fn write_back(document: Option<&str>, ruleset: &PushRuleset) -> (r: Result<String, PushError>)
    ensures
        document_view(r) == written(text_of(document), ruleset@),
{
    match document {
        Some(text) => match ruleset.patch(text) {
            Some(changed) => Ok(changed),
            None => Err(PushError::CorruptData),
        },
        None => Err(PushError::DocumentNotFound),
    }
}

/// The whole ruleset of the user.
pub fn get_pushrules_all_route(document: Option<&str>) -> (r: Result<PushRuleset, PushError>)
    ensures
        match r {
            Ok(ruleset) => loaded(text_of(document)) == Ok::<_, PushError>(ruleset@)
                && well_formed(ruleset@),
            Err(e) => loaded(text_of(document)) == Err::<Map<RuleKind, Seq<RuleView>>, _>(e),
        },
{
    load(document)
}

/// The rule of this kind and id. That there is no such rule is an error
/// here, and so is any kind but the five known ones.
pub fn get_pushrule_route(document: Option<&str>, kind: RuleKind, rule_id: &str) -> (r: Result<
    Rule,
    PushError,
>)
    ensures
        match r {
            Ok(rule) => pushrule_outcome(text_of(document), kind, rule_id@) == Ok::<_, PushError>(
                rule@,
            ),
            Err(e) => pushrule_outcome(text_of(document), kind, rule_id@) == Err::<RuleView, _>(e),
        },
{
    let ruleset = load(document)?;
    match ruleset.find(kind, rule_id) {
        Some(rule) => Ok(rule),
        None => Err(PushError::RuleNotFound),
    }
}

/// Stores a rule that the user made, enabled and not a default rule, in the
/// place of the rule of the same kind and id or, where there is none, behind
/// all rules of its kind. Returns the new document.
pub fn set_pushrule_route(scope: RuleScope, document: Option<&str>, rule: NewPushRule) -> (r: Result<
    String,
    PushError,
>)
    ensures
        document_view(r) == set_pushrule_outcome(
            scope,
            text_of(document),
            rule.kind(),
            rule.rule_view(),
        ),
{
    let mut ruleset = load_in(scope, document)?;
    if ruleset.insert(rule) {
        write_back(document, &ruleset)
    } else {
        Err(PushError::InvalidRuleId)
    }
}

/// The actions of the rule of this kind and id, in order; none where there
/// is no such rule.
pub fn get_pushrule_actions_route(
    scope: RuleScope,
    document: Option<&str>,
    kind: RuleKind,
    rule_id: &str,
) -> (r: Result<Vec<ruma::push::Action>, PushError>)
    ensures
        match r {
            Ok(actions) => actions_outcome(scope, text_of(document), kind, rule_id@) == Ok::<
                _,
                PushError,
            >(actions@),
            Err(e) => actions_outcome(scope, text_of(document), kind, rule_id@) == Err::<
                Seq<ruma::push::Action>,
                _,
            >(e),
        },
{
    let ruleset = load_in(scope, document)?;
    Ok(ruleset.actions(kind, rule_id))
}

/// Gives the rule of this kind and id new actions; the rule keeps its place.
/// Where there is no such rule the contents stay as they are. Returns the
/// new document.
pub fn set_pushrule_actions_route(
    scope: RuleScope,
    document: Option<&str>,
    kind: RuleKind,
    rule_id: &str,
    actions: Vec<ruma::push::Action>,
) -> (r: Result<String, PushError>)
    ensures
        document_view(r) == set_actions_outcome(
            scope,
            text_of(document),
            kind,
            rule_id@,
            actions@,
        ),
{
    let mut ruleset = load_in(scope, document)?;
    ruleset.set_actions(kind, rule_id, actions);
    write_back(document, &ruleset)
}

/// Whether the rule of this kind and id is enabled; `false` where there is
/// no such rule.
pub fn get_pushrule_enabled_route(
    scope: RuleScope,
    document: Option<&str>,
    kind: RuleKind,
    rule_id: &str,
) -> (r: Result<bool, PushError>)
    ensures
        r == enabled_outcome(scope, text_of(document), kind, rule_id@),
{
    let ruleset = load_in(scope, document)?;
    Ok(ruleset.is_enabled(kind, rule_id))
}

/// Switches the rule of this kind and id on or off; the rule keeps its
/// place. Where there is no such rule the contents stay as they are. Returns
/// the new document.
pub fn set_pushrule_enabled_route(
    scope: RuleScope,
    document: Option<&str>,
    kind: RuleKind,
    rule_id: &str,
    enabled: bool,
) -> (r: Result<String, PushError>)
    ensures
        document_view(r) == set_enabled_outcome(
            scope,
            text_of(document),
            kind,
            rule_id@,
            enabled,
        ),
{
    let mut ruleset = load_in(scope, document)?;
    ruleset.set_enabled(kind, rule_id, enabled);
    write_back(document, &ruleset)
}

/// Deletes the rule of this kind and id; the other rules keep their order.
/// Where there is no such rule the contents stay as they are. Returns the
/// new document.
pub fn delete_pushrule_route(
    scope: RuleScope,
    document: Option<&str>,
    kind: RuleKind,
    rule_id: &str,
) -> (r: Result<String, PushError>)
    ensures
        document_view(r) == delete_outcome(scope, text_of(document), kind, rule_id@),
{
    let mut ruleset = load_in(scope, document)?;
    ruleset.remove(kind, rule_id);
    write_back(document, &ruleset)
}

} // verus!
