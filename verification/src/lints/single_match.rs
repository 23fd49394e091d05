//! Matches that are better written as a conditional.
//!
//! Two checks look at a match of exactly two arms. The first finds the match
//! that acts on one pattern and does nothing for the rest; the second finds
//! the match that compares its value with one constant. They never hold of
//! the same match, so a match gets at most one finding.

use vstd::prelude::*;
use crate::diagnostic::{appended, lemma_appended_nothing, lemma_appended_push};
use crate::diagnostic::{Diagnostic, DiagnosticView, Severity};
use crate::module::ModuleId;
use crate::syntax::{BodyShape, ExprMatch, PatternShape, ScrutineeKind};

verus! {

/// The message for a match that acts on a single pattern.
pub const DESTRUCT_MATCH: &'static str =
    "you seem to be trying to use `match` for destructuring a single pattern. Consider using `if let`";

/// The message for a match that is a comparison with one constant.
pub const MATCH_FOR_EQUALITY: &'static str =
    "you seem to be trying to use `match` for an equality check. Consider using `if`";

/// Two arm bodies have the same known form.
pub open spec fn same_shape(a: BodyShape, b: BodyShape) -> bool {
    a == b && a != BodyShape::Other
}

/// The pattern accepts exactly one value and binds nothing.
pub open spec fn is_constant(pattern: PatternShape) -> bool {
    pattern == PatternShape::True || pattern == PatternShape::False || pattern
        == PatternShape::Literal
}

/// The second of two patterns accepts every value that the first has left:
/// it is `_` or a bare binding, or the two are `true` and `false`.
pub open spec fn accepts_the_rest(first: PatternShape, second: PatternShape) -> bool {
    ||| second == PatternShape::Wildcard
    ||| second == PatternShape::Binding
    ||| first == PatternShape::True && second == PatternShape::False
    ||| first == PatternShape::False && second == PatternShape::True
}

/// The match has two arms, the second accepts whatever is left and does
/// nothing, and the first does something.
pub open spec fn is_destruct_match(m: ExprMatch) -> bool {
    &&& m.arms@.len() == 2
    &&& accepts_the_rest(m.arms@[0].pattern_shape(), m.arms@[1].pattern_shape())
    &&& m.arms@[1].body.shape() == BodyShape::Unit
    &&& m.arms@[0].body.shape() != BodyShape::Unit
}

/// The match looks at a boolean or an enum, has two arms, the first for one
/// constant and the second for whatever is left, and both arms have bodies of
/// the same form: it stands for a comparison with that constant.
pub open spec fn is_match_for_equality(m: ExprMatch) -> bool {
    &&& m.arms@.len() == 2
    &&& (m.scrutinee == ScrutineeKind::Bool || m.scrutinee == ScrutineeKind::Enum)
    &&& is_constant(m.arms@[0].pattern_shape())
    &&& accepts_the_rest(m.arms@[0].pattern_shape(), m.arms@[1].pattern_shape())
    &&& same_shape(m.arms@[0].body.shape(), m.arms@[1].body.shape())
}

/// The message that the rule has for a match, if it has one.
pub open spec fn single_match_message(m: ExprMatch) -> Option<Seq<char>> {
    if is_destruct_match(m) {
        Some(DESTRUCT_MATCH@)
    } else if is_match_for_equality(m) {
        Some(MATCH_FOR_EQUALITY@)
    } else {
        None
    }
}

/// What the rule reports for a match in a module: nothing, or one warning
/// that covers the whole match.
pub open spec fn single_match_diagnostics(m: ExprMatch, module: ModuleId) -> Seq<DiagnosticView> {
    match single_match_message(m) {
        Some(message) => seq![
            DiagnosticView { message, span: m.span, severity: Severity::Warning, module },
        ],
        None => Seq::empty(),
    }
}

/// The two checks exclude each other: where the second arm does nothing and
/// the first does something, the bodies differ in form.
pub proof fn lemma_checks_exclude_each_other(m: ExprMatch)
    ensures
        !(is_destruct_match(m) && is_match_for_equality(m)),
{
}

/// Whether the pattern accepts exactly one value and binds nothing.
fn pattern_is_constant(pattern: PatternShape) -> (constant: bool)
    ensures
        constant == is_constant(pattern),
{
    match pattern {
        PatternShape::True | PatternShape::False | PatternShape::Literal => true,
        PatternShape::Wildcard
        | PatternShape::Binding
        | PatternShape::Destructure
        | PatternShape::Other => false,
    }
}

/// Whether the second of two patterns accepts every value that the first has
/// left.
fn second_accepts_the_rest(first: PatternShape, second: PatternShape) -> (rest: bool)
    ensures
        rest == accepts_the_rest(first, second),
{
    match second {
        PatternShape::Wildcard | PatternShape::Binding => true,
        PatternShape::False => first == PatternShape::True,
        PatternShape::True => first == PatternShape::False,
        PatternShape::Literal | PatternShape::Destructure | PatternShape::Other => false,
    }
}

/// Runs both checks on a match and appends what they find.
///
/// A match with more or fewer than two arms is left alone. So is one whose
/// arms both do something and differ in form.
pub fn check_single_match(
    match_expr: &ExprMatch,
    diagnostics: &mut Vec<Diagnostic>,
    module_id: &ModuleId,
)
    ensures
        appended(
            old(diagnostics)@,
            final(diagnostics)@,
            single_match_diagnostics(*match_expr, *module_id),
        ),
        final(diagnostics)@.len() <= old(diagnostics)@.len() + 1,
        match_expr.arms@.len() > 2 ==> final(diagnostics)@ == old(diagnostics)@,
        is_destruct_match(*match_expr) ==> appended(
            old(diagnostics)@,
            final(diagnostics)@,
            seq![
                DiagnosticView {
                    message: DESTRUCT_MATCH@,
                    span: match_expr.span,
                    severity: Severity::Warning,
                    module: *module_id,
                },
            ],
        ),
        single_match_message(*match_expr) is None ==> final(diagnostics)@ == old(diagnostics)@,
        match_expr.arms@.len() == 2 && match_expr.arms@[0].body.shape() != BodyShape::Unit
            && match_expr.arms@[1].body.shape() != BodyShape::Unit
            && match_expr.arms@[0].body.shape() != match_expr.arms@[1].body.shape()
            ==> final(diagnostics)@ == old(diagnostics)@,
{
    proof {
        lemma_appended_nothing(diagnostics@);
    }
    if match_expr.arms.len() != 2 {
        return ;
    }
    let first = match_expr.arms[0].pattern_shape();
    let second = match_expr.arms[1].pattern_shape();
    if !second_accepts_the_rest(first, second) {
        return ;
    }
    let does = match_expr.arms[0].body.shape();
    let otherwise = match_expr.arms[1].body.shape();
    let message = if otherwise == BodyShape::Unit && does != BodyShape::Unit {
        DESTRUCT_MATCH
    } else if (match_expr.scrutinee == ScrutineeKind::Bool || match_expr.scrutinee
        == ScrutineeKind::Enum) && pattern_is_constant(first) && does == otherwise && does
        != BodyShape::Other {
        MATCH_FOR_EQUALITY
    } else {
        return ;
    };
    let found = Diagnostic {
        message: message.to_owned(),
        span: match_expr.span,
        severity: Severity::Warning,
        module: *module_id,
    };
    proof {
        lemma_appended_push(diagnostics@, found);
    }
    diagnostics.push(found);
}

} // verus!
