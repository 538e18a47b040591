//! What a client is sent for a request: a status and a body.
use vstd::prelude::*;
use crate::decode::{decode, decode_error_message, decode_spec};
use crate::eval::{eval_error_message, eval_with, evaluate, is_arithmetic, ArithOp};
use crate::json::JsonValue;

verus! {

/// The status of a request that was evaluated.
pub const STATUS_OK: u16 = 200;

/// The status of a request that could not be decoded or evaluated.
pub const STATUS_BAD_REQUEST: u16 = 400;

/// The body of a reply: `{"result": <number>}` on success, a JSON string
/// describing the failure otherwise.
#[derive(Debug, PartialEq)]
pub enum ReplyBody {
    /// The value of the tree, as a binary64 bit pattern.
    Result(u64),
    /// A description of what went wrong.
    Message(String),
}

/// A status and a body.
#[derive(Debug, PartialEq)]
pub struct Reply {
    pub status: u16,
    pub body: ReplyBody,
}

impl View for Reply {
    type V = (u16, Result<u64, Seq<char>>);

    open spec fn view(&self) -> Self::V {
        (
            self.status,
            match self.body {
                ReplyBody::Result(x) => Ok(x),
                ReplyBody::Message(m) => Err(m@),
            },
        )
    }
}

/// The reply owed for a request body that is a JSON value.
pub open spec fn reply_spec<F: Fn(ArithOp, u64, u64) -> u64>(f: F, request: JsonValue) -> (
    u16,
    Result<u64, Seq<char>>,
) {
    match decode_spec(request) {
        Err(e) => (STATUS_BAD_REQUEST, Err(decode_error_message(e))),
        Ok(n) => match eval_with(f, n) {
            Ok(x) => (STATUS_OK, Ok(x)),
            Err(e) => (STATUS_BAD_REQUEST, Err(eval_error_message(e))),
        },
    }
}

/// Decodes a request body and evaluates the tree it describes.
pub fn calc_reply<F: Fn(ArithOp, u64, u64) -> u64>(request: &JsonValue, arith: &F) -> (r: Reply)
    requires
        is_arithmetic(*arith),
    ensures
        r@ == reply_spec(*arith, *request),
{
    match decode(request) {
        Err(e) => Reply { status: STATUS_BAD_REQUEST, body: ReplyBody::Message(e.message()) },
        Ok(node) => match evaluate(&node, arith) {
            Ok(x) => Reply { status: STATUS_OK, body: ReplyBody::Result(x) },
            Err(e) => Reply { status: STATUS_BAD_REQUEST, body: ReplyBody::Message(e.message()) },
        },
    }
}

/// The reply for a request body that is not JSON at all, described by
/// `message`.
pub fn unreadable_body_reply(message: String) -> (r: Reply)
    ensures
        r@ == (STATUS_BAD_REQUEST, Err::<u64, Seq<char>>(message@)),
{
    Reply { status: STATUS_BAD_REQUEST, body: ReplyBody::Message(message) }
}

} // verus!
