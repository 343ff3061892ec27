//! Callback arguments and completed-job values that cross the thread
//! boundary, and the marshalling rules that turn a job into the exact
//! sequence of values to place on a host context's call stack.

use vstd::prelude::*;

verus! {

/// One callback argument, carried across the thread boundary without any
/// reference into host memory: either a raw cell value or a text value
/// that the consumer thread encodes into a host buffer at replay time.
#[derive(Debug, PartialEq, Eq)]
pub enum ArgumentValue {
    Primitive(i32),
    Text(String),
}

/// A completed hashing job, produced once by a worker thread and consumed
/// exactly once by the dispatch cycle.
#[derive(Debug, PartialEq, Eq)]
pub struct HashJobResult {
    pub requester_id: i32,
    pub callback_name: String,
    pub hashed_value: String,
    pub extra_args: Vec<ArgumentValue>,
}

/// A completed verification job, produced once by a worker thread and
/// consumed exactly once by the dispatch cycle.
#[derive(Debug, PartialEq, Eq)]
pub struct VerifyJobResult {
    pub requester_id: i32,
    pub callback_name: String,
    pub success: bool,
    pub extra_args: Vec<ArgumentValue>,
}

/// A verification outcome encoded for the host convention: one cell,
/// `1` for success, `0` for failure. Encoding happens only on the
/// consumer thread, at replay time.
pub fn encode_success(success: bool) -> (value: ArgumentValue)
    ensures
        value == ArgumentValue::Primitive(if success { 1i32 } else { 0i32 }),
{
    if success {
        ArgumentValue::Primitive(1)
    } else {
        ArgumentValue::Primitive(0)
    }
}

/// The extra arguments in reverse declaration order. The host call stack
/// is push-down and the callee reads arguments in declaration order once
/// all have been pushed, so the values must go on in reverse.
fn reverse_args(args: Vec<ArgumentValue>) -> (reversed: Vec<ArgumentValue>)
    ensures
        reversed@ == args@.reverse(),
{
    let ghost orig = args@;
    let mut rest = args;
    let mut out: Vec<ArgumentValue> = Vec::new();
    while rest.len() > 0
        invariant
            rest@.len() <= orig.len(),
            rest@ == orig.take(rest@.len() as int),
            out@ == orig.reverse().take(orig.len() - rest@.len()),
        decreases rest.len(),
    {
        let ghost k: int = rest@.len() as int;
        let value = rest.pop().unwrap();
        proof {
            assert(value == orig[k - 1]);
            assert(orig.reverse()[orig.len() - k] == orig[k - 1]);
            assert(orig.reverse().take(orig.len() - k + 1) =~= orig.reverse().take(
                orig.len() - k,
            ).push(orig.reverse()[orig.len() - k]));
            assert(rest@ =~= orig.take(k - 1));
        }
        out.push(value);
    }
    proof {
        assert(out@ =~= orig.reverse());
    }
    out
}

/// The exact push order for a hash completion: every extra argument in
/// reverse declaration order, then the requester id last.
pub fn push_order_for_hash(extra_args: Vec<ArgumentValue>, requester_id: i32) -> (order: Vec<
    ArgumentValue,
>)
    ensures
        order@ == extra_args@.reverse().push(ArgumentValue::Primitive(requester_id)),
{
    let mut order = reverse_args(extra_args);
    order.push(ArgumentValue::Primitive(requester_id));
    order
}

/// The exact push order for a verification completion: every extra
/// argument in reverse declaration order, then the encoded outcome, then
/// the requester id last.
pub fn push_order_for_verify(
    extra_args: Vec<ArgumentValue>,
    success: bool,
    requester_id: i32,
) -> (order: Vec<ArgumentValue>)
    ensures
        order@ == extra_args@.reverse().push(
            ArgumentValue::Primitive(if success { 1i32 } else { 0i32 }),
        ).push(ArgumentValue::Primitive(requester_id)),
{
    let mut order = reverse_args(extra_args);
    order.push(encode_success(success));
    order.push(ArgumentValue::Primitive(requester_id));
    order
}

/// Prepare one verification completion for replay: the callback to
/// invoke together with the exact values to push — the extra arguments
/// in reverse declaration order, then the encoded outcome, then the
/// requester id.
pub fn begin_verify_replay(job: VerifyJobResult) -> (replay: (String, Vec<ArgumentValue>))
    ensures
        replay.0 == job.callback_name,
        replay.1@ == job.extra_args@.reverse().push(
            ArgumentValue::Primitive(if job.success { 1i32 } else { 0i32 }),
        ).push(ArgumentValue::Primitive(job.requester_id)),
{
    let VerifyJobResult { requester_id, callback_name, success, extra_args } = job;
    let order = push_order_for_verify(extra_args, success, requester_id);
    (callback_name, order)
}

} // verus!
