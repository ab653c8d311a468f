//! The swap request and the check that what arrived is one.

use crate::error::{
    contains_text, invalid_params_view, lemma_middle_is_contained, ErrorCode, RpcError,
    RpcErrorView,
};
use vstd::prelude::*;

verus! {

/// A swap as a client submits it: an onion and the signature that commits to
/// it. This layer carries both through without looking inside, so it leaves
/// their types to the engine.
#[derive(Clone, Debug, PartialEq)]
pub struct SwapReq<O, C> {
    pub onion: O,
    pub comsig: C,
}

/// The parameters of a call as they arrived: each field is there or is not.
#[derive(Clone, Debug, PartialEq)]
pub struct SwapParams<O, C> {
    pub onion: Option<O>,
    pub comsig: Option<C>,
}

/// The name of the first field of a request that is absent, if one is.
pub open spec fn first_missing<O, C>(params: SwapParams<O, C>) -> Option<Seq<char>> {
    if params.onion is None {
        Some("onion"@)
    } else if params.comsig is None {
        Some("comsig"@)
    } else {
        None
    }
}

/// What a client reads when a field is absent.
pub open spec fn missing_field_message(field: Seq<char>) -> Seq<char> {
    "Invalid params: missing field `"@ + field + "`."@
}

/// The protocol error for an absent field.
pub open spec fn missing_field_error(field: Seq<char>) -> RpcErrorView {
    invalid_params_view(missing_field_message(field))
}

/// Reports that a field is absent.
fn missing_field(field: &str) -> (e: RpcError)
    ensures
        e@ == missing_field_error(field@),
{
    RpcError::invalid_params(
        String::from_str("Invalid params: missing field `").concat(field).concat("`."),
    )
}

/// The report of an absent field blames the request and names the field.
pub proof fn lemma_missing_field_is_named(field: Seq<char>)
    ensures
        missing_field_error(field).code == ErrorCode::InvalidParams,
        contains_text(missing_field_error(field).message, field),
{
    lemma_middle_is_contained("Invalid params: missing field `"@, field, "`."@);
}

impl<O, C> SwapReq<O, C> {
    /// Accepts parameters that hold both fields and names the first absent
    /// field otherwise. No field has a default.
    pub fn from_params(params: SwapParams<O, C>) -> (r: Result<SwapReq<O, C>, RpcError>)
        ensures
            match first_missing(params) {
                Some(field) => r matches Err(e) && e@ == missing_field_error(field),
                None => r == Ok::<SwapReq<O, C>, RpcError>(
                    SwapReq { onion: params.onion->Some_0, comsig: params.comsig->Some_0 },
                ),
            },
    {
        match params.onion {
            None => Err(missing_field("onion")),
            Some(onion) => match params.comsig {
                None => Err(missing_field("comsig")),
                Some(comsig) => Ok(SwapReq { onion, comsig }),
            },
        }
    }
}

} // verus!
