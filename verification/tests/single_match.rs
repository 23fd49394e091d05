use cairo_lint_core::diagnostic::{Diagnostic, Severity};
use cairo_lint_core::lints::single_match::{check_single_match, DESTRUCT_MATCH, MATCH_FOR_EQUALITY};
use cairo_lint_core::module::ModuleId;
use cairo_lint_core::syntax::{
    BodyShape, ExprForm, ExprMatch, MatchArm, Pattern, PatternShape, ScrutineeKind, Span,
};

const PATTERNS: [Pattern; 13] = [
    Pattern::Underscore,
    Pattern::Literal,
    Pattern::False,
    Pattern::True,
    Pattern::ShortString,
    Pattern::String,
    Pattern::Identifier,
    Pattern::Struct,
    Pattern::Tuple,
    Pattern::Enum { payload: true },
    Pattern::Enum { payload: false },
    Pattern::FixedSizeArray,
    Pattern::Path,
];

const BODIES: [ExprForm; 27] = [
    ExprForm::Path,
    ExprForm::Literal,
    ExprForm::ShortString,
    ExprForm::String,
    ExprForm::False,
    ExprForm::True,
    ExprForm::Parenthesized,
    ExprForm::Unary,
    ExprForm::Binary,
    ExprForm::Tuple { elements: 0 },
    ExprForm::Tuple { elements: 1 },
    ExprForm::Tuple { elements: 2 },
    ExprForm::FunctionCall,
    ExprForm::StructCtorCall,
    ExprForm::Block { statements: 0 },
    ExprForm::Block { statements: 1 },
    ExprForm::Match,
    ExprForm::If,
    ExprForm::Loop,
    ExprForm::While,
    ExprForm::For,
    ExprForm::ErrorPropagate,
    ExprForm::FieldInitShorthand,
    ExprForm::Indexed,
    ExprForm::InlineMacro,
    ExprForm::FixedSizeArray,
    ExprForm::Missing,
];

const SCRUTINEES: [ScrutineeKind; 3] =
    [ScrutineeKind::Bool, ScrutineeKind::Enum, ScrutineeKind::Other];

fn arm(pattern: Pattern, body: ExprForm) -> MatchArm {
    MatchArm { patterns: vec![pattern], body }
}

fn match_at(start: u32, end: u32, scrutinee: ScrutineeKind, arms: Vec<MatchArm>) -> ExprMatch {
    ExprMatch { span: Span { start, end }, scrutinee, arms }
}

fn run(m: &ExprMatch) -> Vec<Diagnostic> {
    let mut found = Vec::new();
    check_single_match(m, &mut found, &ModuleId(3));
    found
}

fn warning(message: &str, start: u32, end: u32) -> Diagnostic {
    Diagnostic {
        message: message.to_string(),
        span: Span { start, end },
        severity: Severity::Warning,
        module: ModuleId(3),
    }
}

fn does_nothing(body: ExprForm) -> bool {
    body == ExprForm::Tuple { elements: 0 } || body == ExprForm::Block { statements: 0 }
}

fn accepts_the_rest(first: Pattern, second: Pattern) -> bool {
    matches!(
        (first, second),
        (_, Pattern::Underscore)
            | (_, Pattern::Identifier)
            | (Pattern::True, Pattern::False)
            | (Pattern::False, Pattern::True)
    )
}

fn is_constant(pattern: Pattern) -> bool {
    matches!(
        pattern,
        Pattern::True
            | Pattern::False
            | Pattern::Literal
            | Pattern::ShortString
            | Pattern::String
            | Pattern::Path
            | Pattern::Enum { payload: false }
    )
}

#[test]
fn destruct_match_messages_are_fixed() {
    assert_eq!(
        DESTRUCT_MATCH,
        "you seem to be trying to use `match` for destructuring a single pattern. Consider using `if let`"
    );
    assert_eq!(
        MATCH_FOR_EQUALITY,
        "you seem to be trying to use `match` for an equality check. Consider using `if`"
    );
}

#[test]
fn patterns_have_their_shapes() {
    assert_eq!(Pattern::Underscore.shape(), PatternShape::Wildcard);
    assert_eq!(Pattern::Identifier.shape(), PatternShape::Binding);
    assert_eq!(Pattern::True.shape(), PatternShape::True);
    assert_eq!(Pattern::False.shape(), PatternShape::False);
    assert_eq!(Pattern::Literal.shape(), PatternShape::Literal);
    assert_eq!(Pattern::ShortString.shape(), PatternShape::Literal);
    assert_eq!(Pattern::String.shape(), PatternShape::Literal);
    assert_eq!(Pattern::Path.shape(), PatternShape::Literal);
    assert_eq!(Pattern::Enum { payload: false }.shape(), PatternShape::Literal);
    assert_eq!(Pattern::Enum { payload: true }.shape(), PatternShape::Destructure);
    assert_eq!(Pattern::Struct.shape(), PatternShape::Destructure);
    assert_eq!(Pattern::Tuple.shape(), PatternShape::Destructure);
    assert_eq!(Pattern::FixedSizeArray.shape(), PatternShape::Destructure);
}

#[test]
fn an_arm_with_one_pattern_has_the_shape_of_that_pattern() {
    for pattern in PATTERNS {
        assert_eq!(arm(pattern, ExprForm::Path).pattern_shape(), pattern.shape());
    }
}

#[test]
fn an_arm_with_several_patterns_or_none_has_no_known_shape() {
    let none = MatchArm { patterns: vec![], body: ExprForm::Path };
    assert_eq!(none.pattern_shape(), PatternShape::Other);
    for first in PATTERNS {
        for second in PATTERNS {
            let two = MatchArm { patterns: vec![first, second], body: ExprForm::Path };
            assert_eq!(two.pattern_shape(), PatternShape::Other);
        }
    }
    let three = MatchArm {
        patterns: vec![Pattern::Underscore, Pattern::Underscore, Pattern::Underscore],
        body: ExprForm::Path,
    };
    assert_eq!(three.pattern_shape(), PatternShape::Other);
}

#[test]
fn bodies_have_their_shapes() {
    assert_eq!(ExprForm::Tuple { elements: 0 }.shape(), BodyShape::Unit);
    assert_eq!(ExprForm::Block { statements: 0 }.shape(), BodyShape::Unit);
    assert_eq!(ExprForm::Tuple { elements: 1 }.shape(), BodyShape::Other);
    assert_eq!(ExprForm::Tuple { elements: usize::MAX }.shape(), BodyShape::Other);
    assert_eq!(ExprForm::Block { statements: 1 }.shape(), BodyShape::Block);
    assert_eq!(ExprForm::Block { statements: usize::MAX }.shape(), BodyShape::Block);
    assert_eq!(ExprForm::Literal.shape(), BodyShape::Literal);
    assert_eq!(ExprForm::ShortString.shape(), BodyShape::Literal);
    assert_eq!(ExprForm::String.shape(), BodyShape::Literal);
    assert_eq!(ExprForm::True.shape(), BodyShape::Literal);
    assert_eq!(ExprForm::False.shape(), BodyShape::Literal);
    assert_eq!(ExprForm::Path.shape(), BodyShape::Path);
    assert_eq!(ExprForm::FunctionCall.shape(), BodyShape::Call);
    assert_eq!(ExprForm::InlineMacro.shape(), BodyShape::Call);
    for other in [
        ExprForm::Parenthesized,
        ExprForm::Unary,
        ExprForm::Binary,
        ExprForm::StructCtorCall,
        ExprForm::Match,
        ExprForm::If,
        ExprForm::Loop,
        ExprForm::While,
        ExprForm::For,
        ExprForm::ErrorPropagate,
        ExprForm::FieldInitShorthand,
        ExprForm::Indexed,
        ExprForm::FixedSizeArray,
        ExprForm::Missing,
    ] {
        assert_eq!(other.shape(), BodyShape::Other);
    }
}

#[test]
fn wildcard_arm_that_does_nothing_is_a_destruct_match() {
    // match x { Option::Some(v) => use(v), _ => () }
    let m = match_at(
        12,
        60,
        ScrutineeKind::Enum,
        vec![
            arm(Pattern::Enum { payload: true }, ExprForm::FunctionCall),
            arm(Pattern::Underscore, ExprForm::Tuple { elements: 0 }),
        ],
    );
    assert_eq!(run(&m), vec![warning(DESTRUCT_MATCH, 12, 60)]);
}

#[test]
fn an_empty_block_does_nothing_too() {
    // match x { Option::Some(v) => { use(v); }, _ => {} }
    let m = match_at(
        12,
        60,
        ScrutineeKind::Enum,
        vec![
            arm(Pattern::Enum { payload: true }, ExprForm::Block { statements: 1 }),
            arm(Pattern::Underscore, ExprForm::Block { statements: 0 }),
        ],
    );
    assert_eq!(run(&m), vec![warning(DESTRUCT_MATCH, 12, 60)]);
}

#[test]
fn bool_match_with_empty_false_arm_is_a_destruct_match() {
    // match x { true => foo(), false => () }
    let m = match_at(
        0,
        38,
        ScrutineeKind::Bool,
        vec![
            arm(Pattern::True, ExprForm::FunctionCall),
            arm(Pattern::False, ExprForm::Tuple { elements: 0 }),
        ],
    );
    assert_eq!(run(&m), vec![warning(DESTRUCT_MATCH, 0, 38)]);
    // match x { false => foo(), true => () }
    let m = match_at(
        0,
        38,
        ScrutineeKind::Bool,
        vec![
            arm(Pattern::False, ExprForm::FunctionCall),
            arm(Pattern::True, ExprForm::Tuple { elements: 0 }),
        ],
    );
    assert_eq!(run(&m), vec![warning(DESTRUCT_MATCH, 0, 38)]);
}

#[test]
fn binding_arm_that_does_nothing_is_a_destruct_match() {
    // match x { Option::Some(v) => { use(v); }, other => () }
    let m = match_at(
        2,
        50,
        ScrutineeKind::Enum,
        vec![
            arm(Pattern::Enum { payload: true }, ExprForm::Block { statements: 1 }),
            arm(Pattern::Identifier, ExprForm::Tuple { elements: 0 }),
        ],
    );
    assert_eq!(run(&m), vec![warning(DESTRUCT_MATCH, 2, 50)]);
}

#[test]
fn a_repeated_boolean_does_not_accept_the_rest() {
    for value in [Pattern::True, Pattern::False] {
        let m = match_at(
            0,
            1,
            ScrutineeKind::Bool,
            vec![
                arm(value, ExprForm::FunctionCall),
                arm(value, ExprForm::Tuple { elements: 0 }),
            ],
        );
        assert_eq!(run(&m), vec![]);
        let m = match_at(
            0,
            1,
            ScrutineeKind::Bool,
            vec![
                arm(Pattern::Literal, ExprForm::FunctionCall),
                arm(value, ExprForm::Tuple { elements: 0 }),
            ],
        );
        assert_eq!(run(&m), vec![]);
    }
}

#[test]
fn destruct_match_does_not_depend_on_the_first_pattern_or_the_scrutinee() {
    for pattern in PATTERNS {
        for rest in [Pattern::Underscore, Pattern::Identifier] {
            for scrutinee in SCRUTINEES {
                for body in BODIES {
                    if does_nothing(body) {
                        continue;
                    }
                    for nothing in [ExprForm::Tuple { elements: 0 }, ExprForm::Block { statements: 0 }]
                    {
                        let m = match_at(5, 9, scrutinee, vec![arm(pattern, body), arm(rest, nothing)]);
                        assert_eq!(run(&m), vec![warning(DESTRUCT_MATCH, 5, 9)]);
                    }
                }
            }
        }
    }
}

#[test]
fn an_arm_of_alternatives_may_still_be_the_one_that_acts() {
    // match x { A | B => foo(), _ => () }
    let m = match_at(
        0,
        40,
        ScrutineeKind::Enum,
        vec![
            MatchArm { patterns: vec![Pattern::Path, Pattern::Path], body: ExprForm::FunctionCall },
            arm(Pattern::Underscore, ExprForm::Tuple { elements: 0 }),
        ],
    );
    assert_eq!(run(&m), vec![warning(DESTRUCT_MATCH, 0, 40)]);
}

#[test]
fn an_arm_of_alternatives_does_not_accept_the_rest() {
    // match x { A => foo(), _ | B => () }
    let m = match_at(
        0,
        40,
        ScrutineeKind::Enum,
        vec![
            arm(Pattern::Path, ExprForm::FunctionCall),
            MatchArm {
                patterns: vec![Pattern::Underscore, Pattern::Path],
                body: ExprForm::Tuple { elements: 0 },
            },
        ],
    );
    assert_eq!(run(&m), vec![]);
}

#[test]
fn constant_against_wildcard_with_like_bodies_is_an_equality_check() {
    // match x { true => 1, _ => 0 }
    let m = match_at(
        7,
        30,
        ScrutineeKind::Bool,
        vec![arm(Pattern::True, ExprForm::Literal), arm(Pattern::Underscore, ExprForm::Literal)],
    );
    assert_eq!(run(&m), vec![warning(MATCH_FOR_EQUALITY, 7, 30)]);
    // match x { false => 1, true => 0 }
    let m = match_at(
        7,
        33,
        ScrutineeKind::Bool,
        vec![arm(Pattern::False, ExprForm::Literal), arm(Pattern::True, ExprForm::Literal)],
    );
    assert_eq!(run(&m), vec![warning(MATCH_FOR_EQUALITY, 7, 33)]);
    // match c { Color::Red => true, _ => false }
    let m = match_at(
        40,
        90,
        ScrutineeKind::Enum,
        vec![arm(Pattern::Path, ExprForm::True), arm(Pattern::Underscore, ExprForm::False)],
    );
    assert_eq!(run(&m), vec![warning(MATCH_FOR_EQUALITY, 40, 90)]);
    // match c { Color::Red => paint(), _ => skip!() }
    let m = match_at(
        40,
        90,
        ScrutineeKind::Enum,
        vec![
            arm(Pattern::Path, ExprForm::FunctionCall),
            arm(Pattern::Underscore, ExprForm::InlineMacro),
        ],
    );
    assert_eq!(run(&m), vec![warning(MATCH_FOR_EQUALITY, 40, 90)]);
}

#[test]
fn equality_check_with_two_empty_bodies() {
    let m = match_at(
        1,
        2,
        ScrutineeKind::Enum,
        vec![
            arm(Pattern::Path, ExprForm::Tuple { elements: 0 }),
            arm(Pattern::Underscore, ExprForm::Block { statements: 0 }),
        ],
    );
    assert_eq!(run(&m), vec![warning(MATCH_FOR_EQUALITY, 1, 2)]);
}

#[test]
fn equality_check_needs_a_bool_or_an_enum() {
    let m = match_at(
        1,
        2,
        ScrutineeKind::Other,
        vec![arm(Pattern::Literal, ExprForm::Literal), arm(Pattern::Underscore, ExprForm::Literal)],
    );
    assert_eq!(run(&m), vec![]);
}

#[test]
fn equality_check_needs_a_constant_first() {
    for pattern in PATTERNS {
        let m = match_at(
            1,
            2,
            ScrutineeKind::Enum,
            vec![arm(pattern, ExprForm::Path), arm(Pattern::Underscore, ExprForm::Path)],
        );
        let expected =
            if is_constant(pattern) { vec![warning(MATCH_FOR_EQUALITY, 1, 2)] } else { vec![] };
        assert_eq!(run(&m), expected);
    }
}

#[test]
fn bodies_of_unknown_form_are_not_alike() {
    for body in BODIES {
        if body.shape() != BodyShape::Other {
            continue;
        }
        let m = match_at(
            1,
            2,
            ScrutineeKind::Bool,
            vec![arm(Pattern::True, body), arm(Pattern::Underscore, body)],
        );
        assert_eq!(run(&m), vec![]);
    }
}

#[test]
fn two_arms_that_both_act_and_differ_never_fire() {
    for first in PATTERNS {
        for second in PATTERNS {
            for scrutinee in SCRUTINEES {
                for a in BODIES {
                    for b in BODIES {
                        if a.shape() != b.shape() && !does_nothing(a) && !does_nothing(b) {
                            let m = match_at(0, 1, scrutinee, vec![arm(first, a), arm(second, b)]);
                            assert_eq!(run(&m), vec![]);
                        }
                    }
                }
            }
        }
    }
}

#[test]
fn second_arm_must_accept_what_is_left() {
    for first in PATTERNS {
        for second in PATTERNS {
            if accepts_the_rest(first, second) {
                continue;
            }
            for scrutinee in SCRUTINEES {
                for a in BODIES {
                    for b in BODIES {
                        let m = match_at(0, 1, scrutinee, vec![arm(first, a), arm(second, b)]);
                        assert_eq!(run(&m), vec![]);
                    }
                }
            }
        }
    }
}

#[test]
fn every_match_of_two_arms_gets_what_the_two_checks_say() {
    for first in PATTERNS {
        for second in PATTERNS {
            for scrutinee in SCRUTINEES {
                for a in BODIES {
                    for b in BODIES {
                        let rest = accepts_the_rest(first, second);
                        let destruct = rest && does_nothing(b) && !does_nothing(a);
                        let equality = rest
                            && is_constant(first)
                            && scrutinee != ScrutineeKind::Other
                            && a.shape() == b.shape()
                            && a.shape() != BodyShape::Other;
                        assert!(!(destruct && equality));
                        let expected = if destruct {
                            vec![warning(DESTRUCT_MATCH, 8, 80)]
                        } else if equality {
                            vec![warning(MATCH_FOR_EQUALITY, 8, 80)]
                        } else {
                            vec![]
                        };
                        let m = match_at(8, 80, scrutinee, vec![arm(first, a), arm(second, b)]);
                        assert_eq!(run(&m), expected);
                    }
                }
            }
        }
    }
}

#[test]
fn more_than_two_arms_never_fire() {
    for scrutinee in SCRUTINEES {
        for first in PATTERNS {
            for a in BODIES {
                for b in BODIES {
                    let three = match_at(
                        0,
                        1,
                        scrutinee,
                        vec![
                            arm(first, a),
                            arm(Pattern::Underscore, b),
                            arm(Pattern::Underscore, ExprForm::Tuple { elements: 0 }),
                        ],
                    );
                    assert_eq!(run(&three), vec![]);
                    let four = match_at(
                        0,
                        1,
                        scrutinee,
                        vec![
                            arm(first, a),
                            arm(Pattern::Literal, b),
                            arm(Pattern::Literal, b),
                            arm(Pattern::Underscore, ExprForm::Tuple { elements: 0 }),
                        ],
                    );
                    assert_eq!(run(&four), vec![]);
                }
            }
        }
    }
}

#[test]
fn fewer_than_two_arms_never_fire() {
    let none = match_at(0, 1, ScrutineeKind::Enum, vec![]);
    assert_eq!(run(&none), vec![]);
    let one = match_at(
        0,
        1,
        ScrutineeKind::Enum,
        vec![arm(Pattern::Underscore, ExprForm::Tuple { elements: 0 })],
    );
    assert_eq!(run(&one), vec![]);
}

#[test]
fn a_match_gets_at_most_one_finding() {
    for scrutinee in SCRUTINEES {
        for p in PATTERNS {
            for q in PATTERNS {
                for a in BODIES {
                    for b in BODIES {
                        let m = match_at(0, 1, scrutinee, vec![arm(p, a), arm(q, b)]);
                        assert!(run(&m).len() <= 1);
                    }
                }
            }
        }
    }
}

#[test]
fn findings_are_appended_behind_earlier_ones() {
    let earlier = Diagnostic {
        message: "kept".to_string(),
        span: Span { start: 100, end: 200 },
        severity: Severity::Error,
        module: ModuleId(9),
    };
    let mut found = vec![earlier.clone()];
    let fires = match_at(
        3,
        4,
        ScrutineeKind::Enum,
        vec![
            arm(Pattern::Struct, ExprForm::Block { statements: 2 }),
            arm(Pattern::Underscore, ExprForm::Tuple { elements: 0 }),
        ],
    );
    check_single_match(&fires, &mut found, &ModuleId(3));
    assert_eq!(found, vec![earlier.clone(), warning(DESTRUCT_MATCH, 3, 4)]);
    let silent = match_at(5, 6, ScrutineeKind::Enum, vec![]);
    check_single_match(&silent, &mut found, &ModuleId(3));
    assert_eq!(found, vec![earlier, warning(DESTRUCT_MATCH, 3, 4)]);
}

#[test]
fn finding_names_the_module_it_was_asked_for() {
    let m = match_at(
        3,
        4,
        ScrutineeKind::Enum,
        vec![
            arm(Pattern::Tuple, ExprForm::Block { statements: 2 }),
            arm(Pattern::Underscore, ExprForm::Tuple { elements: 0 }),
        ],
    );
    let mut found = Vec::new();
    check_single_match(&m, &mut found, &ModuleId(77));
    assert_eq!(found.len(), 1);
    assert_eq!(found[0].module, ModuleId(77));
    assert_eq!(found[0].severity, Severity::Warning);
}
