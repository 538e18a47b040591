//! Building an expression tree from a JSON value by its shape.
use vstd::prelude::*;
use crate::json::{find_member, find_member_index, lemma_find_member_from_bounds, JsonValue};
use crate::tree::{Container, Node};

verus! {

/// Why a JSON value is not an expression tree.
#[derive(Clone, Copy, Debug, PartialEq, Eq, Structural)]
pub enum DecodeError {
    /// The value is neither a number nor an object.
    NotANode,
    /// An object lacks one of the members `operation`, `left`, `right`.
    MissingField,
    /// The member `operation` holds something other than a string.
    OperationNotAString,
}

/// The member of `members` named `key`, if there is one.
pub open spec fn member_value(members: Seq<(String, JsonValue)>, key: Seq<char>) -> Option<JsonValue> {
    match find_member(members, key) {
        Some(i) => Some(members[i].1),
        None => None,
    }
}

/// A member of an object is structurally smaller than the object.
pub proof fn lemma_member_decreases(v: JsonValue, key: Seq<char>)
    requires
        v is Object,
    ensures
        member_value(v->Object_0@, key) matches Some(m) ==> decreases_to!(v => m),
{
    let members = v->Object_0;
    lemma_find_member_from_bounds(members@, key, 0);
    if let Some(i) = find_member(members@, key) {
        broadcast use vstd::std_specs::vec::axiom_vec_decreases_to_view;

        assert(decreases_to!(v => members));
        assert(decreases_to!(members => members@));
        assert(decreases_to!(members@ => members@[i]));
        assert(decreases_to!(members@[i] => members@[i].1));
    }
}

/// The tree that a JSON value describes: a number is a leaf; an object with
/// a string `operation` and decodable `left` and `right` is an internal
/// node; anything else fails. Subtrees are decoded left, then right.
pub open spec fn decode_spec(v: JsonValue) -> Result<Node, DecodeError>
    decreases v,
{
    match v {
        JsonValue::Number(bits) => Ok(Node::Leaf(bits)),
        JsonValue::Object(members) => {
            proof {
                lemma_member_decreases(v, "left"@);
                lemma_member_decreases(v, "right"@);
            }
            let op = member_value(members@, "operation"@);
            let left = member_value(members@, "left"@);
            let right = member_value(members@, "right"@);
            if op is None || left is None || right is None {
                Err(DecodeError::MissingField)
            } else {
                match op.unwrap() {
                    JsonValue::Str(s) => match decode_spec(left.unwrap()) {
                        Err(e) => Err(e),
                        Ok(l) => match decode_spec(right.unwrap()) {
                            Err(e) => Err(e),
                            Ok(r) => Ok(
                                Node::Operation(
                                    Container { operation: s, left: Box::new(l), right: Box::new(r) },
                                ),
                            ),
                        },
                    },
                    _ => Err(DecodeError::OperationNotAString),
                }
            }
        },
        _ => Err(DecodeError::NotANode),
    }
}

/// The member of `members` named `key`, if there is one.
fn member<'a>(members: &'a Vec<(String, JsonValue)>, key: &str) -> (r: Option<&'a JsonValue>)
    ensures
        r matches Some(m) ==> member_value(members@, key@) == Some(*m),
        r is None ==> member_value(members@, key@) is None,
{
    let key = String::from_str(key);
    match find_member_index(members, &key) {
        Some(i) => Some(&members[i].1),
        None => None,
    }
}

/// Builds the tree that a JSON value describes.
pub fn decode(v: &JsonValue) -> (r: Result<Node, DecodeError>)
    ensures
        r == decode_spec(*v),
    decreases v,
{
    match v {
        JsonValue::Number(bits) => Ok(Node::Leaf(*bits)),
        JsonValue::Object(members) => {
            let op = member(members, "operation");
            let left = member(members, "left");
            let right = member(members, "right");
            match (op, left, right) {
                (Some(op), Some(left), Some(right)) => match op {
                    JsonValue::Str(s) => {
                        proof {
                            lemma_member_decreases(*v, "left"@);
                            lemma_member_decreases(*v, "right"@);
                        }
                        let l = match decode(left) {
                            Ok(l) => l,
                            Err(e) => return Err(e),
                        };
                        let r = match decode(right) {
                            Ok(r) => r,
                            Err(e) => return Err(e),
                        };
                        Ok(
                            Node::Operation(
                                Container { operation: s.clone(), left: Box::new(l), right: Box::new(r) },
                            ),
                        )
                    },
                    _ => Err(DecodeError::OperationNotAString),
                },
                _ => Err(DecodeError::MissingField),
            }
        },
        _ => Err(DecodeError::NotANode),
    }
}

/// Decoding is a function of the document: decoding equal documents gives
/// structurally equal trees, and so does decoding one document twice.
pub proof fn law_decode_deterministic(a: JsonValue, b: JsonValue)
    requires
        a == b,
    ensures
        decode_spec(a) == decode_spec(b),
{
}

impl DecodeError {
    /// The text reported to a client for this error.
    pub fn message(&self) -> (r: String)
        ensures
            r@ == decode_error_message(*self),
    {
        match self {
            DecodeError::NotANode => String::from_str(
                "expected a number or an object with members operation, left and right",
            ),
            DecodeError::MissingField => String::from_str(
                "an operation needs the members operation, left and right",
            ),
            DecodeError::OperationNotAString => String::from_str(
                "the member operation must be a string",
            ),
        }
    }
}

/// The text reported to a client for a decode error.
pub open spec fn decode_error_message(e: DecodeError) -> Seq<char> {
    match e {
        DecodeError::NotANode => "expected a number or an object with members operation, left and right"@,
        DecodeError::MissingField => "an operation needs the members operation, left and right"@,
        DecodeError::OperationNotAString => "the member operation must be a string"@,
    }
}

} // verus!
