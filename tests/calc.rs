use calc_tree::decode::{decode, DecodeError};
use calc_tree::eval::{do_operation, evaluate, is_zero_bits, parse_operator, ArithOp, EvalError};
use calc_tree::json::{find_member_index, JsonValue};
use calc_tree::reply::{
    calc_reply, unreadable_body_reply, Reply, ReplyBody, STATUS_BAD_REQUEST, STATUS_OK,
};
use calc_tree::tree::{Container, Node};

fn ieee(op: ArithOp, a: u64, b: u64) -> u64 {
    let (x, y) = (f64::from_bits(a), f64::from_bits(b));
    let r = match op {
        ArithOp::Add => x + y,
        ArithOp::Sub => x - y,
        ArithOp::Mul => x * y,
        ArithOp::Div => x / y,
    };
    r.to_bits()
}

fn num(x: f64) -> JsonValue {
    JsonValue::Number(x.to_bits())
}

fn text(s: &str) -> JsonValue {
    JsonValue::Str(s.to_string())
}

fn object(members: Vec<(&str, JsonValue)>) -> JsonValue {
    JsonValue::Object(members.into_iter().map(|(k, v)| (k.to_string(), v)).collect())
}

fn op_json(op: &str, left: JsonValue, right: JsonValue) -> JsonValue {
    object(vec![("operation", text(op)), ("left", left), ("right", right)])
}

fn leaf(x: f64) -> Node {
    Node::leaf(x.to_bits())
}

fn leaves(op: &str, a: f64, b: f64) -> Node {
    Node::operation(op.to_string(), leaf(a), leaf(b))
}

fn eval_f64(n: &Node) -> Result<f64, EvalError> {
    evaluate(n, &ieee).map(f64::from_bits)
}

#[test]
fn leaf_addition_subtraction_multiplication() {
    for (a, b) in [(1.5, 2.25), (-3.0, 7.0), (0.1, 0.2), (1e300, 1e300), (0.0, -0.0)] {
        assert_eq!(eval_f64(&leaves("+", a, b)).unwrap().to_bits(), (a + b).to_bits());
        assert_eq!(eval_f64(&leaves("-", a, b)).unwrap().to_bits(), (a - b).to_bits());
        assert_eq!(eval_f64(&leaves("*", a, b)).unwrap().to_bits(), (a * b).to_bits());
    }
}

#[test]
fn subtraction_keeps_operand_order() {
    assert_eq!(eval_f64(&leaves("-", 10.0, 4.0)), Ok(6.0));
    assert_eq!(eval_f64(&leaves("/", 1.0, 4.0)), Ok(0.25));
}

#[test]
fn leaf_division_by_nonzero() {
    for (a, b) in [(1.0, 3.0), (-7.5, 2.5), (0.0, 5.0), (1.0, 1e-300)] {
        assert_eq!(eval_f64(&leaves("/", a, b)).unwrap().to_bits(), (a / b).to_bits());
    }
}

#[test]
fn leaf_division_by_zero() {
    for a in [1.0, 0.0, -2.0, 1e308] {
        assert_eq!(eval_f64(&leaves("/", a, 0.0)), Err(EvalError::DivisionByZero));
        assert_eq!(eval_f64(&leaves("/", a, -0.0)), Err(EvalError::DivisionByZero));
    }
}

#[test]
fn unsupported_operator() {
    assert_eq!(eval_f64(&leaves("%", 1.0, 2.0)), Err(EvalError::UnsupportedOperation));
    assert_eq!(eval_f64(&leaves("", 1.0, 2.0)), Err(EvalError::UnsupportedOperation));
    assert_eq!(eval_f64(&leaves("++", 1.0, 2.0)), Err(EvalError::UnsupportedOperation));
}

#[test]
fn decode_twice_gives_equal_trees() {
    let doc = op_json("+", op_json("*", num(2.0), num(3.0)), num(4.0));
    let a = decode(&doc).unwrap();
    let b = decode(&doc).unwrap();
    assert_eq!(a, b);
}

#[test]
fn nested_tree_evaluates() {
    let doc = op_json("+", op_json("*", num(2.0), num(3.0)), num(4.0));
    let node = decode(&doc).unwrap();
    assert_eq!(eval_f64(&node), Ok(10.0));
}

#[test]
fn string_operand_fails_to_decode() {
    let doc = op_json("+", text("oops"), num(1.0));
    assert_eq!(decode(&doc), Err(DecodeError::NotANode));
}

#[test]
fn right_subtree_failure_short_circuits() {
    let doc = op_json("+", num(1.0), op_json("/", num(1.0), num(0.0)));
    let node = decode(&doc).unwrap();
    assert_eq!(eval_f64(&node), Err(EvalError::DivisionByZero));
}

#[test]
fn right_failure_comes_before_left_failure() {
    let node = Node::operation(
        "+".to_string(),
        leaves("%", 1.0, 1.0),
        leaves("/", 1.0, 0.0),
    );
    assert_eq!(eval_f64(&node), Err(EvalError::DivisionByZero));
}

#[test]
fn end_to_end_replies() {
    let ok = calc_reply(&op_json("*", num(6.0), num(7.0)), &ieee);
    assert_eq!(ok, Reply { status: STATUS_OK, body: ReplyBody::Result(42.0f64.to_bits()) });
    assert_eq!(ok.status, 200);
    let bad = calc_reply(&op_json("/", num(1.0), num(0.0)), &ieee);
    assert_eq!(bad.status, 400);
    assert_eq!(bad.body, ReplyBody::Message("zero division error".to_string()));
    let unsupported = calc_reply(&op_json("^", num(1.0), num(0.0)), &ieee);
    assert_eq!(unsupported.status, STATUS_BAD_REQUEST);
    assert_eq!(unsupported.body, ReplyBody::Message("unsupported operation".to_string()));
}

#[test]
fn decode_failure_reply() {
    let r = calc_reply(&JsonValue::Bool(true), &ieee);
    assert_eq!(r.status, 400);
    assert_eq!(r.body, ReplyBody::Message(DecodeError::NotANode.message()));
    let r = unreadable_body_reply("EOF while parsing".to_string());
    assert_eq!(r, Reply { status: 400, body: ReplyBody::Message("EOF while parsing".to_string()) });
}

#[test]
fn bare_number_is_a_leaf() {
    let node = decode(&num(2.5)).unwrap();
    assert_eq!(node, Node::Leaf(2.5f64.to_bits()));
    assert_eq!(eval_f64(&node), Ok(2.5));
    let r = calc_reply(&num(-1.0), &ieee);
    assert_eq!(r.body, ReplyBody::Result((-1.0f64).to_bits()));
}

#[test]
fn decode_rejects_other_shapes() {
    assert_eq!(decode(&JsonValue::Null), Err(DecodeError::NotANode));
    assert_eq!(decode(&text("1")), Err(DecodeError::NotANode));
    assert_eq!(decode(&JsonValue::Array(vec![text("+"), num(1.0), num(2.0)])), Err(DecodeError::NotANode));
    let missing = object(vec![("operation", text("+")), ("left", num(1.0))]);
    assert_eq!(decode(&missing), Err(DecodeError::MissingField));
    let not_string = op_json("+", num(1.0), num(2.0));
    let not_string = match not_string {
        JsonValue::Object(mut m) => {
            m[0].1 = num(3.0);
            JsonValue::Object(m)
        }
        other => other,
    };
    assert_eq!(decode(&not_string), Err(DecodeError::OperationNotAString));
}

#[test]
fn decode_keeps_structure() {
    let doc = object(vec![
        ("right", num(4.0)),
        ("extra", JsonValue::Null),
        ("left", num(3.0)),
        ("operation", text("-")),
    ]);
    let expected = Node::Operation(Container {
        operation: "-".to_string(),
        left: Box::new(leaf(3.0)),
        right: Box::new(leaf(4.0)),
    });
    assert_eq!(decode(&doc), Ok(expected));
}

#[test]
fn first_member_of_a_name_is_used() {
    let doc = object(vec![
        ("operation", text("-")),
        ("left", num(3.0)),
        ("right", num(4.0)),
        ("left", num(100.0)),
    ]);
    assert_eq!(eval_f64(&decode(&doc).unwrap()), Ok(-1.0));
    let members = vec![("a".to_string(), JsonValue::Null), ("b".to_string(), JsonValue::Null), ("b".to_string(), JsonValue::Null)];
    assert_eq!(find_member_index(&members, &"b".to_string()), Some(1));
    assert_eq!(find_member_index(&members, &"c".to_string()), None);
}

#[test]
fn error_messages() {
    assert_eq!(EvalError::DivisionByZero.message(), "zero division error");
    assert_eq!(EvalError::UnsupportedOperation.message(), "unsupported operation");
    assert!(!DecodeError::MissingField.message().is_empty());
    assert!(!DecodeError::OperationNotAString.message().is_empty());
}

#[test]
fn operators_and_zeros() {
    assert_eq!(parse_operator("+"), Some(ArithOp::Add));
    assert_eq!(parse_operator("-"), Some(ArithOp::Sub));
    assert_eq!(parse_operator("*"), Some(ArithOp::Mul));
    assert_eq!(parse_operator("/"), Some(ArithOp::Div));
    assert_eq!(parse_operator("x"), None);
    assert!(is_zero_bits(0.0f64.to_bits()));
    assert!(is_zero_bits((-0.0f64).to_bits()));
    assert!(!is_zero_bits(f64::MIN_POSITIVE.to_bits()));
    assert!(!is_zero_bits(1.0f64.to_bits()));
    assert_eq!(do_operation("/", 1.0f64.to_bits(), (-0.0f64).to_bits(), &ieee), Err(EvalError::DivisionByZero));
    assert_eq!(do_operation("*", 2.0f64.to_bits(), 4.0f64.to_bits(), &ieee), Ok(8.0f64.to_bits()));
}
