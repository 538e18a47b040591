//! The evaluator: operator dispatch, the zero-divisor check, and the
//! right-then-left, short-circuiting walk over a tree.
use vstd::prelude::*;
use crate::tree::{Container, Node};

verus! {

/// The four binary operators that an `Operation` node may name.
#[derive(Clone, Copy, Debug, PartialEq, Eq, Structural)]
pub enum ArithOp {
    Add,
    Sub,
    Mul,
    Div,
}

/// Why a well-formed tree could not be evaluated.
#[derive(Clone, Copy, Debug, PartialEq, Eq, Structural)]
pub enum EvalError {
    /// The right operand of `/` is zero (positive or negative).
    DivisionByZero,
    /// The operator string is none of `+`, `-`, `*`, `/`.
    UnsupportedOperation,
}

/// The operator that a string names, if it names one.
pub open spec fn operator_of(s: Seq<char>) -> Option<ArithOp> {
    if s.len() != 1 {
        None
    } else if s[0] == '+' {
        Some(ArithOp::Add)
    } else if s[0] == '-' {
        Some(ArithOp::Sub)
    } else if s[0] == '*' {
        Some(ArithOp::Mul)
    } else if s[0] == '/' {
        Some(ArithOp::Div)
    } else {
        None
    }
}

/// The bit pattern of `+0.0`.
pub const POSITIVE_ZERO: u64 = 0;

/// The bit pattern of `-0.0`.
pub const NEGATIVE_ZERO: u64 = 0x8000_0000_0000_0000;

/// A binary64 bit pattern compares equal to `0.0` exactly when it is one of
/// the two zeros.
pub open spec fn is_zero(bits: u64) -> bool {
    bits == POSITIVE_ZERO || bits == NEGATIVE_ZERO
}

/// Parses an operator string.
pub fn parse_operator(s: &str) -> (r: Option<ArithOp>)
    ensures
        r == operator_of(s@),
{
    if s.unicode_len() != 1 {
        return None;
    }
    let c = s.get_char(0);
    if c == '+' {
        Some(ArithOp::Add)
    } else if c == '-' {
        Some(ArithOp::Sub)
    } else if c == '*' {
        Some(ArithOp::Mul)
    } else if c == '/' {
        Some(ArithOp::Div)
    } else {
        None
    }
}

/// Whether a binary64 bit pattern compares equal to `0.0`: every bit but
/// the sign bit is clear.
pub fn is_zero_bits(bits: u64) -> (r: bool)
    ensures
        r == is_zero(bits),
{
    let r = bits & 0x7FFF_FFFF_FFFF_FFFF == 0;
    assert(r == (bits == 0u64 || bits == 0x8000_0000_0000_0000u64)) by (bit_vector)
        requires
            r == (bits & 0x7FFF_FFFF_FFFF_FFFF == 0),
    ;
    r
}

/// A caller-supplied arithmetic is usable when it accepts every operator and
/// pair of operands and behaves as a function of them.
pub open spec fn is_arithmetic<F: Fn(ArithOp, u64, u64) -> u64>(f: F) -> bool {
    &&& forall|op: ArithOp, a: u64, b: u64| #[trigger] f.requires((op, a, b))
    &&& forall|op: ArithOp, a: u64, b: u64, x: u64, y: u64|
        #[trigger] f.ensures((op, a, b), x) && #[trigger] f.ensures((op, a, b), y) ==> x == y
}

/// The value that the arithmetic `f` gives for `op` on `(a, b)`.
pub open spec fn outcome<F: Fn(ArithOp, u64, u64) -> u64>(f: F, op: ArithOp, a: u64, b: u64) -> u64 {
    choose|x: u64| f.ensures((op, a, b), x)
}

/// The result of applying the operator string `op` to `left` and `right`.
pub open spec fn apply_spec<F: Fn(ArithOp, u64, u64) -> u64>(
    f: F,
    op: Seq<char>,
    left: u64,
    right: u64,
) -> Result<u64, EvalError> {
    match operator_of(op) {
        None => Err(EvalError::UnsupportedOperation),
        Some(ArithOp::Div) if is_zero(right) => Err(EvalError::DivisionByZero),
        Some(o) => Ok(outcome(f, o, left, right)),
    }
}

/// The value of a tree: the right subtree first, then the left, then the
/// operator; the first failure is the result.
pub open spec fn eval_with<F: Fn(ArithOp, u64, u64) -> u64>(f: F, n: Node) -> Result<u64, EvalError>
    decreases n,
{
    match n {
        Node::Leaf(v) => Ok(v),
        Node::Operation(c) => match eval_with(f, *c.right) {
            Err(e) => Err(e),
            Ok(r) => match eval_with(f, *c.left) {
                Err(e) => Err(e),
                Ok(l) => apply_spec(f, c.operation@, l, r),
            },
        },
    }
}

/// Applies the operator string `op` to `left` and `right`.
pub fn do_operation<F: Fn(ArithOp, u64, u64) -> u64>(
    op: &str,
    left: u64,
    right: u64,
    arith: &F,
) -> (r: Result<u64, EvalError>)
    requires
        is_arithmetic(*arith),
    ensures
        r == apply_spec(*arith, op@, left, right),
{
    match parse_operator(op) {
        None => Err(EvalError::UnsupportedOperation),
        Some(o) => {
            if o == ArithOp::Div && is_zero_bits(right) {
                Err(EvalError::DivisionByZero)
            } else {
                let v = arith(o, left, right);
                assert(arith.ensures((o, left, right), outcome(*arith, o, left, right)));
                Ok(v)
            }
        },
    }
}

/// Evaluates an internal node.
pub fn collapse_tree<F: Fn(ArithOp, u64, u64) -> u64>(
    container: &Container,
    arith: &F,
) -> (r: Result<u64, EvalError>)
    requires
        is_arithmetic(*arith),
    ensures
        r == eval_with(*arith, Node::Operation(*container)),
    decreases container,
{
    let right = match &*container.right {
        Node::Leaf(v) => *v,
        Node::Operation(sub) => match collapse_tree(sub, arith) {
            Ok(v) => v,
            Err(e) => return Err(e),
        },
    };
    assert(eval_with(*arith, *container.right) == Ok::<u64, EvalError>(right));
    let left = match &*container.left {
        Node::Leaf(v) => *v,
        Node::Operation(sub) => match collapse_tree(sub, arith) {
            Ok(v) => v,
            Err(e) => return Err(e),
        },
    };
    assert(eval_with(*arith, *container.left) == Ok::<u64, EvalError>(left));
    do_operation(container.operation.as_str(), left, right, arith)
}

/// Evaluates a tree.
pub fn evaluate<F: Fn(ArithOp, u64, u64) -> u64>(
    node: &Node,
    arith: &F,
) -> (r: Result<u64, EvalError>)
    requires
        is_arithmetic(*arith),
    ensures
        r == eval_with(*arith, *node),
{
    match node {
        Node::Leaf(v) => Ok(*v),
        Node::Operation(c) => collapse_tree(c, arith),
    }
}

/// A leaf evaluates to its own value.
pub proof fn lemma_eval_leaf<F: Fn(ArithOp, u64, u64) -> u64>(f: F, v: u64)
    ensures
        eval_with(f, Node::Leaf(v)) == Ok::<u64, EvalError>(v),
{
}

/// The tree `op(Leaf(a), Leaf(b))`.
pub open spec fn leaf_operation(op: String, a: u64, b: u64) -> Node {
    Node::Operation(
        Container { operation: op, left: Box::new(Node::Leaf(a)), right: Box::new(Node::Leaf(b)) },
    )
}

/// Addition, subtraction and multiplication of two leaves always succeed,
/// with the value that the arithmetic gives for the left leaf and the right
/// leaf, in that order.
pub proof fn law_leaf_arithmetic<F: Fn(ArithOp, u64, u64) -> u64>(
    f: F,
    op: String,
    o: ArithOp,
    a: u64,
    b: u64,
)
    requires
        operator_of(op@) == Some(o),
        o != ArithOp::Div,
    ensures
        eval_with(f, leaf_operation(op, a, b)) == Ok::<u64, EvalError>(outcome(f, o, a, b)),
{
    lemma_eval_leaf(f, a);
    lemma_eval_leaf(f, b);
}

/// Dividing a leaf by a leaf that is not zero succeeds, with the quotient
/// that the arithmetic gives.
pub proof fn law_leaf_division<F: Fn(ArithOp, u64, u64) -> u64>(f: F, op: String, a: u64, b: u64)
    requires
        operator_of(op@) == Some(ArithOp::Div),
        !is_zero(b),
    ensures
        eval_with(f, leaf_operation(op, a, b)) == Ok::<u64, EvalError>(
            outcome(f, ArithOp::Div, a, b),
        ),
{
    lemma_eval_leaf(f, a);
    lemma_eval_leaf(f, b);
}

/// Dividing any leaf by a zero leaf fails with `DivisionByZero`, whatever
/// the arithmetic.
pub proof fn law_division_by_zero<F: Fn(ArithOp, u64, u64) -> u64>(f: F, op: String, a: u64, b: u64)
    requires
        operator_of(op@) == Some(ArithOp::Div),
        is_zero(b),
    ensures
        eval_with(f, leaf_operation(op, a, b)) == Err::<u64, EvalError>(EvalError::DivisionByZero),
{
    lemma_eval_leaf(f, a);
    lemma_eval_leaf(f, b);
}

/// A failure in the right subtree is the result of the whole node, whatever
/// the operator and the left subtree are.
pub proof fn law_right_failure_short_circuits<F: Fn(ArithOp, u64, u64) -> u64>(
    f: F,
    container: Container,
    e: EvalError,
)
    requires
        eval_with(f, *container.right) == Err::<u64, EvalError>(e),
    ensures
        eval_with(f, Node::Operation(container)) == Err::<u64, EvalError>(e),
{
}

/// A failure in the left subtree, under a right subtree that evaluates, is
/// the result of the whole node, whatever the operator.
pub proof fn law_left_failure_short_circuits<F: Fn(ArithOp, u64, u64) -> u64>(
    f: F,
    container: Container,
    e: EvalError,
)
    requires
        eval_with(f, *container.right) is Ok,
        eval_with(f, *container.left) == Err::<u64, EvalError>(e),
    ensures
        eval_with(f, Node::Operation(container)) == Err::<u64, EvalError>(e),
{
}

impl EvalError {
    /// The text reported to a client for this error.
    pub fn message(&self) -> (r: String)
        ensures
            r@ == eval_error_message(*self),
    {
        match self {
            EvalError::DivisionByZero => String::from_str("zero division error"),
            EvalError::UnsupportedOperation => String::from_str("unsupported operation"),
        }
    }
}

/// The text reported to a client for an evaluation error.
pub open spec fn eval_error_message(e: EvalError) -> Seq<char> {
    match e {
        EvalError::DivisionByZero => "zero division error"@,
        EvalError::UnsupportedOperation => "unsupported operation"@,
    }
}

} // verus!
