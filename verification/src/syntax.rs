//! The syntax that the rules read, as plain data.
//!
//! A node keeps what a rule looks at and nothing else: where it stands in the
//! source, what kind it is, and for the two kinds that have a rule the forms
//! that the rule decides on, spelled as in the source. Types, which take
//! resolution, are stored as the host resolved them.

use vstd::prelude::*;

verus! {

/// A range of byte offsets in one source file, `start` first.
#[derive(Clone, Copy, Debug, PartialEq, Eq, Structural)]
pub struct Span {
    pub start: u32,
    pub end: u32,
}

/// The kind tag of a node.
///
/// The two kinds with a rule and the one kind that is known to need none are
/// named; every other kind of the grammar is `Other`.
#[derive(Clone, Copy, Debug, PartialEq, Eq, Structural)]
pub enum NodeKind {
    ExprMatch,
    ExprBinary,
    ItemExternFunction,
    Other,
}

/// A pattern as the source spells it.
#[derive(Clone, Copy, Debug, PartialEq, Eq, Structural)]
pub enum Pattern {
    /// `_`.
    Underscore,
    /// A number.
    Literal,
    False,
    True,
    ShortString,
    String,
    /// A bare name, which binds whatever reaches it.
    Identifier,
    Struct,
    Tuple,
    /// A variant named by its path and followed by parentheses; `payload`
    /// says whether there is a pattern between them.
    Enum { payload: bool },
    FixedSizeArray,
    /// A path alone: a variant without payload, or a constant.
    Path,
}

/// What a pattern accepts, as far as the rules care.
#[derive(Clone, Copy, Debug, PartialEq, Eq, Structural)]
pub enum PatternShape {
    /// Accepts every value and binds nothing.
    Wildcard,
    /// Accepts every value and binds it.
    Binding,
    /// Accepts `true` alone.
    True,
    /// Accepts `false` alone.
    False,
    /// Accepts one other constant and binds nothing.
    Literal,
    /// Takes the value apart.
    Destructure,
    /// Several patterns for one arm, or none.
    Other,
}

/// The outermost form of an expression; a tuple and a block also say how
/// much they hold.
#[derive(Clone, Copy, Debug, PartialEq, Eq, Structural)]
pub enum ExprForm {
    Path,
    Literal,
    ShortString,
    String,
    False,
    True,
    Parenthesized,
    Unary,
    Binary,
    Tuple { elements: usize },
    FunctionCall,
    StructCtorCall,
    Block { statements: usize },
    Match,
    If,
    Loop,
    While,
    For,
    ErrorPropagate,
    FieldInitShorthand,
    Indexed,
    InlineMacro,
    FixedSizeArray,
    /// What the parser put where it found no expression.
    Missing,
}

/// What the body of a match arm is, as far as the rules care.
#[derive(Clone, Copy, Debug, PartialEq, Eq, Structural)]
pub enum BodyShape {
    /// `()` or `{}`: the arm does nothing.
    Unit,
    /// A constant: a number, a string, `true` or `false`.
    Literal,
    /// A path to a variable or a constant.
    Path,
    /// A call of a function or of an inline macro.
    Call,
    /// A block with statements in it.
    Block,
    /// Any other expression.
    Other,
}

/// The type of the value that a match looks at, as far as the rules care.
#[derive(Clone, Copy, Debug, PartialEq, Eq, Structural)]
pub enum ScrutineeKind {
    Bool,
    Enum,
    Other,
}

/// One arm of a match expression: its patterns, more than one where the
/// source separates them by `|`, and the form of its body.
#[derive(Clone, Debug, PartialEq, Eq)]
pub struct MatchArm {
    pub patterns: Vec<Pattern>,
    pub body: ExprForm,
}

/// A match expression: its place in the source, the kind of value it looks
/// at, and its arms in source order.
#[derive(Clone, Debug, PartialEq, Eq)]
pub struct ExprMatch {
    pub span: Span,
    pub scrutinee: ScrutineeKind,
    pub arms: Vec<MatchArm>,
}

/// The operator of a binary expression.
#[derive(Clone, Copy, Debug, PartialEq, Eq, Structural)]
pub enum BinaryOperator {
    Dot,
    Not,
    Mul,
    MulEq,
    Div,
    DivEq,
    Mod,
    ModEq,
    Plus,
    PlusEq,
    Minus,
    MinusEq,
    EqEq,
    Neq,
    Eq,
    /// Bitwise `&`.
    And,
    /// Logical `&&`.
    AndAnd,
    Or,
    OrOr,
    Xor,
    LE,
    GE,
    LT,
    GT,
}

/// The type of an operand: one of the numeric types, or any other.
#[derive(Clone, Copy, Debug, PartialEq, Eq, Structural)]
pub enum OperandType {
    U8,
    U16,
    U32,
    U64,
    U128,
    U256,
    I8,
    I16,
    I32,
    I64,
    I128,
    Felt252,
    Other,
}

/// A numeric literal of any size.
///
/// `digits` holds the number in base 256, least significant digit first.
/// Zeros at the end change nothing, and no digits at all is zero.
#[derive(Clone, Debug, PartialEq, Eq)]
pub struct NumericLiteral {
    pub digits: Vec<u8>,
}

/// One side of a binary expression: its type, and its value where the source
/// spells it as a numeric literal.
#[derive(Clone, Debug, PartialEq, Eq)]
pub struct Operand {
    pub ty: OperandType,
    pub literal: Option<NumericLiteral>,
}

/// A binary expression: its place in the source, its operator and both sides.
#[derive(Clone, Debug, PartialEq, Eq)]
pub struct ExprBinary {
    pub span: Span,
    pub op: BinaryOperator,
    pub lhs: Operand,
    pub rhs: Operand,
}

/// A node of the syntax tree, with the typed form of the kinds that a rule
/// reads and the span alone for the others.
#[derive(Clone, Debug, PartialEq, Eq)]
pub enum SyntaxNode {
    ExprMatch(ExprMatch),
    ExprBinary(ExprBinary),
    ItemExternFunction(Span),
    Other(Span),
}

/// The number that base-256 digits stand for, least significant digit first.
pub open spec fn digits_value(digits: Seq<u8>) -> nat
    decreases digits.len(),
{
    if digits.len() == 0 {
        0
    } else {
        digits[0] as nat + 256 * digits_value(digits.drop_first())
    }
}

/// The digits stand for zero exactly when each of them is zero.
pub proof fn lemma_digits_value_zero(digits: Seq<u8>)
    ensures
        digits_value(digits) == 0 <==> forall|i: int| 0 <= i < digits.len() ==> digits[i] == 0,
    decreases digits.len(),
{
    if digits.len() > 0 {
        let rest = digits.drop_first();
        lemma_digits_value_zero(rest);
        if digits_value(digits) == 0 {
            assert forall|i: int| 0 <= i < digits.len() implies digits[i] == 0 by {
                if i > 0 {
                    assert(digits[i] == rest[i - 1]);
                }
            }
        }
        if forall|i: int| 0 <= i < digits.len() ==> digits[i] == 0 {
            assert forall|i: int| 0 <= i < rest.len() implies rest[i] == 0 by {
                assert(rest[i] == digits[i + 1]);
            }
        }
    }
}

impl NumericLiteral {
    /// The number that the literal stands for.
    pub open spec fn value(&self) -> nat {
        digits_value(self.digits@)
    }

    /// Whether the literal stands for zero.
    pub fn is_zero(&self) -> (zero: bool)
        ensures
            zero == (self.value() == 0),
    {
        let mut i: usize = 0;
        while i < self.digits.len()
            invariant
                i <= self.digits@.len(),
                forall|k: int| 0 <= k < i ==> self.digits@[k] == 0,
            decreases self.digits@.len() - i,
        {
            if self.digits[i] != 0 {
                proof {
                    lemma_digits_value_zero(self.digits@);
                }
                return false;
            }
            i += 1;
        }
        proof {
            lemma_digits_value_zero(self.digits@);
        }
        true
    }
}

impl Pattern {
    /// What the pattern accepts.
    pub open spec fn spec_shape(&self) -> PatternShape {
        match self {
            Pattern::Underscore => PatternShape::Wildcard,
            Pattern::Identifier => PatternShape::Binding,
            Pattern::True => PatternShape::True,
            Pattern::False => PatternShape::False,
            Pattern::Literal | Pattern::ShortString | Pattern::String | Pattern::Path =>
                PatternShape::Literal,
            Pattern::Enum { payload } => if *payload {
                PatternShape::Destructure
            } else {
                PatternShape::Literal
            },
            Pattern::Struct | Pattern::Tuple | Pattern::FixedSizeArray => PatternShape::Destructure,
        }
    }

    /// What the pattern accepts.
    #[verifier::when_used_as_spec(spec_shape)]
    pub fn shape(&self) -> (shape: PatternShape)
        ensures
            shape == self.spec_shape(),
    {
        match self {
            Pattern::Underscore => PatternShape::Wildcard,
            Pattern::Identifier => PatternShape::Binding,
            Pattern::True => PatternShape::True,
            Pattern::False => PatternShape::False,
            Pattern::Literal | Pattern::ShortString | Pattern::String | Pattern::Path =>
                PatternShape::Literal,
            Pattern::Enum { payload } => if *payload {
                PatternShape::Destructure
            } else {
                PatternShape::Literal
            },
            Pattern::Struct | Pattern::Tuple | Pattern::FixedSizeArray => PatternShape::Destructure,
        }
    }
}

impl ExprForm {
    /// What the expression is as the body of an arm.
    pub open spec fn spec_shape(&self) -> BodyShape {
        match self {
            ExprForm::Tuple { elements } => if *elements == 0 {
                BodyShape::Unit
            } else {
                BodyShape::Other
            },
            ExprForm::Block { statements } => if *statements == 0 {
                BodyShape::Unit
            } else {
                BodyShape::Block
            },
            ExprForm::Literal
            | ExprForm::ShortString
            | ExprForm::String
            | ExprForm::False
            | ExprForm::True => BodyShape::Literal,
            ExprForm::Path => BodyShape::Path,
            ExprForm::FunctionCall | ExprForm::InlineMacro => BodyShape::Call,
            _ => BodyShape::Other,
        }
    }

    /// What the expression is as the body of an arm.
    #[verifier::when_used_as_spec(spec_shape)]
    pub fn shape(&self) -> (shape: BodyShape)
        ensures
            shape == self.spec_shape(),
    {
        match self {
            ExprForm::Tuple { elements } => if *elements == 0 {
                BodyShape::Unit
            } else {
                BodyShape::Other
            },
            ExprForm::Block { statements } => if *statements == 0 {
                BodyShape::Unit
            } else {
                BodyShape::Block
            },
            ExprForm::Literal
            | ExprForm::ShortString
            | ExprForm::String
            | ExprForm::False
            | ExprForm::True => BodyShape::Literal,
            ExprForm::Path => BodyShape::Path,
            ExprForm::FunctionCall | ExprForm::InlineMacro => BodyShape::Call,
            ExprForm::Parenthesized
            | ExprForm::Unary
            | ExprForm::Binary
            | ExprForm::StructCtorCall
            | ExprForm::Match
            | ExprForm::If
            | ExprForm::Loop
            | ExprForm::While
            | ExprForm::For
            | ExprForm::ErrorPropagate
            | ExprForm::FieldInitShorthand
            | ExprForm::Indexed
            | ExprForm::FixedSizeArray
            | ExprForm::Missing => BodyShape::Other,
        }
    }
}

impl MatchArm {
    /// What the arm accepts: the shape of its pattern where it has exactly
    /// one, and `Other` where it has several or none.
    pub open spec fn spec_pattern_shape(&self) -> PatternShape {
        if self.patterns@.len() == 1 {
            self.patterns@[0].shape()
        } else {
            PatternShape::Other
        }
    }

    /// What the arm accepts.
    #[verifier::when_used_as_spec(spec_pattern_shape)]
    pub fn pattern_shape(&self) -> (shape: PatternShape)
        ensures
            shape == self.spec_pattern_shape(),
    {
        if self.patterns.len() == 1 {
            self.patterns[0].shape()
        } else {
            PatternShape::Other
        }
    }
}

impl OperandType {
    /// Whether the type is an unsigned integer.
    pub open spec fn spec_is_unsigned(&self) -> bool {
        match self {
            OperandType::U8
            | OperandType::U16
            | OperandType::U32
            | OperandType::U64
            | OperandType::U128
            | OperandType::U256 => true,
            _ => false,
        }
    }

    /// Whether the type is an unsigned integer.
    #[verifier::when_used_as_spec(spec_is_unsigned)]
    pub fn is_unsigned(&self) -> (unsigned: bool)
        ensures
            unsigned == self.spec_is_unsigned(),
    {
        match self {
            OperandType::U8
            | OperandType::U16
            | OperandType::U32
            | OperandType::U64
            | OperandType::U128
            | OperandType::U256 => true,
            OperandType::I8
            | OperandType::I16
            | OperandType::I32
            | OperandType::I64
            | OperandType::I128
            | OperandType::Felt252
            | OperandType::Other => false,
        }
    }
}

impl SyntaxNode {
    /// The kind tag of the node.
    pub open spec fn spec_kind(&self) -> NodeKind {
        match self {
            SyntaxNode::ExprMatch(_) => NodeKind::ExprMatch,
            SyntaxNode::ExprBinary(_) => NodeKind::ExprBinary,
            SyntaxNode::ItemExternFunction(_) => NodeKind::ItemExternFunction,
            SyntaxNode::Other(_) => NodeKind::Other,
        }
    }

    /// The kind tag of the node.
    #[verifier::when_used_as_spec(spec_kind)]
    pub fn kind(&self) -> (kind: NodeKind)
        ensures
            kind == self.spec_kind(),
    {
        match self {
            SyntaxNode::ExprMatch(_) => NodeKind::ExprMatch,
            SyntaxNode::ExprBinary(_) => NodeKind::ExprBinary,
            SyntaxNode::ItemExternFunction(_) => NodeKind::ItemExternFunction,
            SyntaxNode::Other(_) => NodeKind::Other,
        }
    }

    /// The source range that the node covers.
    pub open spec fn spec_span(&self) -> Span {
        match self {
            SyntaxNode::ExprMatch(m) => m.span,
            SyntaxNode::ExprBinary(b) => b.span,
            SyntaxNode::ItemExternFunction(span) => *span,
            SyntaxNode::Other(span) => *span,
        }
    }

    /// The source range that the node covers.
    #[verifier::when_used_as_spec(spec_span)]
    pub fn span(&self) -> (span: Span)
        ensures
            span == self.spec_span(),
    {
        match self {
            SyntaxNode::ExprMatch(m) => m.span,
            SyntaxNode::ExprBinary(b) => b.span,
            SyntaxNode::ItemExternFunction(span) => *span,
            SyntaxNode::Other(span) => *span,
        }
    }
}

} // verus!
