//! The analyzers, and the classifier of their messages.
//!
//! Each analyzer walks a module with its own rule. `diagnostics` walks it
//! once with all of them. A consumer that has only the text of a finding gets
//! its kind back from `diagnostic_kind_from_message`.

use vstd::prelude::*;
use crate::diagnostic::{views, Diagnostic, DiagnosticView, Severity};
use crate::erasing_op::{erase_op_diagnostics, EraseOp, ERASING_OPERATION};
use crate::lints::single_match::{is_destruct_match, is_match_for_equality};
use crate::lints::single_match::{single_match_diagnostics, DESTRUCT_MATCH, MATCH_FOR_EQUALITY};
use crate::module::{Module, ModuleId, ModuleItem};
use crate::scanner::{has_no_free_function, module_diagnostics, node_diagnostics, scan_module};
use crate::scanner::{lemma_finding_has_a_node, lemma_flat_map_filter, per_item, per_node};
use crate::scanner::node_at;
use crate::scanner::RuleSet;
use crate::syntax::{ExprBinary, ExprMatch, SyntaxNode};
use crate::text::str_eq;

verus! {

/// The analyzer for matches that are better written as a conditional.
#[derive(Clone, Copy, Debug, PartialEq, Eq, Structural)]
pub struct CairoLint;

/// The kind of a finding, told from its message.
#[derive(Clone, Copy, Debug, PartialEq, Eq, Structural)]
pub enum CairoLintKind {
    DestructMatch,
    MatchForEquality,
    EraseOp,
    /// The message is none that a rule of this library writes.
    Unknown,
}

/// The kind whose rule writes exactly this message, and `Unknown` for every
/// other text.
pub open spec fn message_kind(message: Seq<char>) -> CairoLintKind {
    if message == DESTRUCT_MATCH@ {
        CairoLintKind::DestructMatch
    } else if message == MATCH_FOR_EQUALITY@ {
        CairoLintKind::MatchForEquality
    } else if message == ERASING_OPERATION@ {
        CairoLintKind::EraseOp
    } else {
        CairoLintKind::Unknown
    }
}

/// The three messages differ from one another.
pub proof fn lemma_messages_differ()
    ensures
        DESTRUCT_MATCH@ != MATCH_FOR_EQUALITY@,
        DESTRUCT_MATCH@ != ERASING_OPERATION@,
        MATCH_FOR_EQUALITY@ != ERASING_OPERATION@,
{
    reveal_strlit(
        "you seem to be trying to use `match` for destructuring a single pattern. Consider using `if let`",
    );
    reveal_strlit("you seem to be trying to use `match` for an equality check. Consider using `if`");
    reveal_strlit("operation can be simplified to zero");
    assert(DESTRUCT_MATCH@.len() == 96);
    assert(MATCH_FOR_EQUALITY@.len() == 79);
    assert(ERASING_OPERATION@.len() == 35);
}

/// Each message of a rule is classified as the kind of that rule.
pub proof fn lemma_messages_round_trip()
    ensures
        message_kind(DESTRUCT_MATCH@) == CairoLintKind::DestructMatch,
        message_kind(MATCH_FOR_EQUALITY@) == CairoLintKind::MatchForEquality,
        message_kind(ERASING_OPERATION@) == CairoLintKind::EraseOp,
{
    lemma_messages_differ();
}

/// The finding has a message of the checks on matches.
pub open spec fn from_single_match() -> spec_fn(DiagnosticView) -> bool {
    |d: DiagnosticView|
        message_kind(d.message) == CairoLintKind::DestructMatch || message_kind(d.message)
            == CairoLintKind::MatchForEquality
}

/// The finding has the message of the check on erasing operations.
pub open spec fn from_erase_op() -> spec_fn(DiagnosticView) -> bool {
    |d: DiagnosticView| message_kind(d.message) == CairoLintKind::EraseOp
}

/// What the checks on matches report is classified as the check that found
/// it.
pub proof fn lemma_single_match_is_classified(m: ExprMatch, module: ModuleId)
    ensures
        is_destruct_match(m) ==> single_match_diagnostics(m, module).len() == 1 && message_kind(
            single_match_diagnostics(m, module)[0].message,
        ) == CairoLintKind::DestructMatch,
        !is_destruct_match(m) && is_match_for_equality(m) ==> single_match_diagnostics(
            m,
            module,
        ).len() == 1 && message_kind(single_match_diagnostics(m, module)[0].message)
            == CairoLintKind::MatchForEquality,
        !is_destruct_match(m) && !is_match_for_equality(m) ==> single_match_diagnostics(
            m,
            module,
        ).len() == 0,
{
    lemma_messages_differ();
}

/// What the check on erasing operations reports is classified as its own.
pub proof fn lemma_erase_op_is_classified(expr: ExprBinary, module: ModuleId)
    ensures
        forall|p: int|
            0 <= p < erase_op_diagnostics(expr, module).len() ==> message_kind(
                (#[trigger] erase_op_diagnostics(expr, module)[p]).message,
            ) == CairoLintKind::EraseOp,
{
    lemma_messages_differ();
}

/// No finding of a walk is of unknown kind.
///
/// Each finding of a module is a warning for that module, its message is one
/// that the classifier knows, and the rule of that kind was among the rules
/// of the walk.
pub proof fn lemma_findings_are_classified(module: Module, rules: RuleSet, p: int)
    requires
        0 <= p < module_diagnostics(module, rules).len(),
    ensures
        ({
            let found = module_diagnostics(module, rules)[p];
            let kind = message_kind(found.message);
            &&& kind != CairoLintKind::Unknown
            &&& kind == CairoLintKind::EraseOp ==> rules.erase_op
            &&& kind != CairoLintKind::EraseOp ==> rules.single_match
            &&& found.severity == Severity::Warning
            &&& found.module == module.id
        }),
{
    lemma_messages_differ();
    let at = lemma_finding_has_a_node(module, rules, p);
    let node = node_at(module, at.0, at.1);
    let found = module_diagnostics(module, rules)[p];
    assert(node_diagnostics(node, rules, module.id)[0] == found);
}

/// The one walk with every rule reports what each analyzer reports.
///
/// Of the findings of the walk with every rule, those with a message of the
/// checks on matches are the findings of the walk with those checks alone,
/// in the same order; and likewise for the check on erasing operations.
pub proof fn lemma_one_walk_holds_each_analyzer(module: Module)
    ensures
        module_diagnostics(module, RuleSet::all()).filter(from_single_match())
            == module_diagnostics(module, RuleSet::only_single_match()),
        module_diagnostics(module, RuleSet::all()).filter(from_erase_op()) == module_diagnostics(
            module,
            RuleSet::only_erase_op(),
        ),
{
    lemma_walk_filtered(module, from_single_match(), RuleSet::only_single_match());
    lemma_walk_filtered(module, from_erase_op(), RuleSet::only_erase_op());
}

/// The walk with every rule, filtered by the messages of one analyzer, is the
/// walk of that analyzer.
proof fn lemma_walk_filtered(module: Module, keep: spec_fn(DiagnosticView) -> bool, rules: RuleSet)
    requires
        (keep == from_single_match() && rules == RuleSet::only_single_match()) || (keep
            == from_erase_op() && rules == RuleSet::only_erase_op()),
    ensures
        module_diagnostics(module, RuleSet::all()).filter(keep) == module_diagnostics(
            module,
            rules,
        ),
{
    lemma_messages_differ();
    reveal_with_fuel(Seq::filter, 2);
    let every = RuleSet::all();
    let id = module.id;
    assert forall|node: SyntaxNode| (#[trigger] per_node(every, id)(node)).filter(keep) == per_node(
        rules,
        id,
    )(node) by {
        let all = node_diagnostics(node, every, id);
        if all.len() == 1 {
            assert(all.drop_last() =~= Seq::empty());
            assert(all =~= Seq::empty().push(all.last()));
        }
    }
    assert forall|item: ModuleItem| (#[trigger] per_item(every, id)(item)).filter(keep) == per_item(
        rules,
        id,
    )(item) by {
        if let ModuleItem::FreeFunction(Ok(body)) = item {
            lemma_flat_map_filter(body.descendants@, per_node(every, id), per_node(rules, id), keep);
        }
    }
    if let Ok(items) = module.items {
        lemma_flat_map_filter(items@, per_item(every, id), per_item(rules, id), keep);
    }
}

/// Tells the kind of a finding from its message.
///
/// The message must be, character for character, one that a rule writes;
/// every other text is `Unknown`, which is an answer and no failure.
pub fn diagnostic_kind_from_message(message: &str) -> (kind: CairoLintKind)
    ensures
        kind == message_kind(message@),
        message@ == DESTRUCT_MATCH@ ==> kind == CairoLintKind::DestructMatch,
        message@ == MATCH_FOR_EQUALITY@ ==> kind == CairoLintKind::MatchForEquality,
        message@ == ERASING_OPERATION@ ==> kind == CairoLintKind::EraseOp,
        message@ != DESTRUCT_MATCH@ && message@ != MATCH_FOR_EQUALITY@ && message@
            != ERASING_OPERATION@ ==> kind == CairoLintKind::Unknown,
{
    proof {
        lemma_messages_differ();
    }
    if str_eq(message, DESTRUCT_MATCH) {
        CairoLintKind::DestructMatch
    } else if str_eq(message, MATCH_FOR_EQUALITY) {
        CairoLintKind::MatchForEquality
    } else if str_eq(message, ERASING_OPERATION) {
        CairoLintKind::EraseOp
    } else {
        CairoLintKind::Unknown
    }
}

/// Walks a module once with every rule and returns the findings in the order
/// of the walk.
///
/// Only free functions are looked into. Where the items of the module could
/// not be listed the result is empty, and a free function whose body could
/// not be resolved is passed over.
pub fn diagnostics(module: &Module) -> (found: Vec<Diagnostic>)
    ensures
        views(found@) == module_diagnostics(*module, RuleSet::all()),
        has_no_free_function(*module) ==> found@.len() == 0,
        module.items is Err ==> found@.len() == 0,
{
    scan_module(module, RuleSet::all())
}

impl CairoLint {
    /// Walks a module with the checks on matches and returns the findings in
    /// the order of the walk.
    pub fn diagnostics(&self, module: &Module) -> (found: Vec<Diagnostic>)
        ensures
            views(found@) == module_diagnostics(*module, RuleSet::only_single_match()),
            has_no_free_function(*module) ==> found@.len() == 0,
            module.items is Err ==> found@.len() == 0,
    {
        scan_module(module, RuleSet::only_single_match())
    }
}

impl Default for CairoLint {
    fn default() -> (analyzer: CairoLint)
        ensures
            analyzer == CairoLint,
    {
        CairoLint
    }
}

impl EraseOp {
    /// Walks a module with the check on erasing operations and returns the
    /// findings in the order of the walk.
    pub fn diagnostics(&self, module: &Module) -> (found: Vec<Diagnostic>)
        ensures
            views(found@) == module_diagnostics(*module, RuleSet::only_erase_op()),
            has_no_free_function(*module) ==> found@.len() == 0,
            module.items is Err ==> found@.len() == 0,
    {
        scan_module(module, RuleSet::only_erase_op())
    }
}

} // verus!
