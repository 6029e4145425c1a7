//! Input validation at the boundary.
//!
//! Every boundary entry point validates its foreign arguments before any
//! asynchronous work starts: required pointers must be present, and every
//! inbound string must be valid UTF-8. A missing argument is reported as a
//! null-pointer failure and invalid text as an invalid-key-expression
//! failure, in the order the arguments are examined, so the caller sees a
//! deterministic status for any combination of faults. An absent argument is
//! modeled here as `None` or `false`; the unverified shell maps null
//! pointers to those before calling in.

use crate::status::ZenohError;
use crate::text::is_valid_utf8;
use vstd::prelude::*;
use vstd::utf8::valid_utf8;

verus! {

/// How an open operation should treat the configuration text: absent or
/// empty text selects the default configuration, text that is not UTF-8 is
/// rejected before any parsing, and any other text goes to the engine's
/// parser.
#[derive(Clone, Copy, PartialEq, Eq, Structural, Debug)]
pub enum ConfigPlan {
    UseDefault,
    ParseText,
    RejectUtf8,
}

/// Decides how an open operation treats its configuration argument.
pub fn plan_open_config(config: Option<&[u8]>) -> (p: ConfigPlan)
    ensures
        config is None ==> p == ConfigPlan::UseDefault,
        config matches Some(c) ==> p == (if !valid_utf8(c@) {
            ConfigPlan::RejectUtf8
        } else if c@.len() == 0 {
            ConfigPlan::UseDefault
        } else {
            ConfigPlan::ParseText
        }),
{
    match config {
        None => ConfigPlan::UseDefault,
        Some(c) => {
            if !is_valid_utf8(c) {
                ConfigPlan::RejectUtf8
            } else if c.len() == 0 {
                ConfigPlan::UseDefault
            } else {
                ConfigPlan::ParseText
            }
        },
    }
}

/// Validates a handle plus key-expression argument pair, in that order:
/// used by every declare operation, by direct put and delete, and by a get
/// with its selector. An absent handle or key is a null-pointer failure;
/// key bytes that are not UTF-8 are an invalid-key-expression failure.
pub fn validate_handle_key_args(has_handle: bool, key: Option<&[u8]>) -> (r: Result<
    (),
    ZenohError,
>)
    ensures
        r is Ok <==> has_handle && (key matches Some(k) && valid_utf8(k@)),
        r == Err::<(), ZenohError>(ZenohError::NullPointer) <==> !has_handle || key is None,
        r == Err::<(), ZenohError>(ZenohError::InvalidKeyExpr) <==> has_handle && (key matches Some(
            k,
        ) && !valid_utf8(k@)),
{
    if !has_handle {
        return Err(ZenohError::NullPointer);
    }
    match key {
        None => Err(ZenohError::NullPointer),
        Some(k) => {
            if is_valid_utf8(k) {
                Ok(())
            } else {
                Err(ZenohError::InvalidKeyExpr)
            }
        },
    }
}

/// Validates a handle plus payload argument pair, in that order: used by a
/// publisher's put. The payload may be absent only when its declared length
/// is zero; an empty payload is legal.
pub fn validate_handle_payload_args(has_handle: bool, has_payload: bool, payload_len: usize) -> (r:
    Result<(), ZenohError>)
    ensures
        r is Ok <==> has_handle && (has_payload || payload_len == 0),
        r is Err ==> r == Err::<(), ZenohError>(ZenohError::NullPointer),
{
    if !has_handle {
        return Err(ZenohError::NullPointer);
    }
    if !has_payload && payload_len > 0 {
        return Err(ZenohError::NullPointer);
    }
    Ok(())
}

/// Validates the arguments of a direct put that carries a payload rule:
/// session, key and payload presence are examined in that order, then the
/// key bytes' encoding.
pub fn validate_put_args(
    has_session: bool,
    key: Option<&[u8]>,
    has_payload: bool,
    payload_len: usize,
) -> (r: Result<(), ZenohError>)
    ensures
        r is Ok <==> has_session && key is Some && (has_payload || payload_len == 0) && (
        key matches Some(k) && valid_utf8(k@)),
        r == Err::<(), ZenohError>(ZenohError::NullPointer) <==> !has_session || key is None || (
        !has_payload && payload_len > 0),
        r == Err::<(), ZenohError>(ZenohError::InvalidKeyExpr) <==> has_session && (key matches Some(
            k,
        ) && !valid_utf8(k@)) && (has_payload || payload_len == 0),
{
    if !has_session {
        return Err(ZenohError::NullPointer);
    }
    match key {
        None => Err(ZenohError::NullPointer),
        Some(k) => {
            if !has_payload && payload_len > 0 {
                return Err(ZenohError::NullPointer);
            }
            if is_valid_utf8(k) {
                Ok(())
            } else {
                Err(ZenohError::InvalidKeyExpr)
            }
        },
    }
}

/// Validates the arguments of a reply to a query: the query handle, the key
/// expression and the payload must all be present — a reply's payload
/// pointer is required even for an empty payload — and the key bytes must
/// be UTF-8.
pub fn validate_reply_args(has_query: bool, key: Option<&[u8]>, has_payload: bool) -> (r: Result<
    (),
    ZenohError,
>)
    ensures
        r is Ok <==> has_query && has_payload && (key matches Some(k) && valid_utf8(k@)),
        r == Err::<(), ZenohError>(ZenohError::NullPointer) <==> !has_query || key is None
            || !has_payload,
        r == Err::<(), ZenohError>(ZenohError::InvalidKeyExpr) <==> has_query && has_payload && (
        key matches Some(k) && !valid_utf8(k@)),
{
    if !has_query {
        return Err(ZenohError::NullPointer);
    }
    match key {
        None => Err(ZenohError::NullPointer),
        Some(k) => {
            if !has_payload {
                return Err(ZenohError::NullPointer);
            }
            if is_valid_utf8(k) {
                Ok(())
            } else {
                Err(ZenohError::InvalidKeyExpr)
            }
        },
    }
}

/// Validates a lone required handle: used by a publisher's delete and a
/// querier's get.
pub fn validate_handle_arg(has_handle: bool) -> (r: Result<(), ZenohError>)
    ensures
        r is Ok <==> has_handle,
        r is Err ==> r == Err::<(), ZenohError>(ZenohError::NullPointer),
{
    if has_handle {
        Ok(())
    } else {
        Err(ZenohError::NullPointer)
    }
}

} // verus!
