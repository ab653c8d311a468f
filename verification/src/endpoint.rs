//! The `swap` method: from a request, through the engine, to a response.

use crate::commitment::commitment_text;
use crate::engine::SwapServer;
use crate::error::{
    contains_text, lemma_coin_not_found_names_commitment, message_of, protocol_error, ErrorCode,
    RpcError, RpcErrorView, SwapError, SwapErrorView,
};
use crate::request::{first_missing, missing_field_error, SwapParams, SwapReq};
use vstd::prelude::*;

verus! {

/// What a client reads when its swap was taken in.
pub open spec fn success_marker() -> Seq<char> {
    "success"@
}

/// An answer of the engine with its texts as sequences of characters.
pub open spec fn outcome_view(outcome: Result<(), SwapError>) -> Result<(), SwapErrorView> {
    match outcome {
        Ok(_) => Ok(()),
        Err(e) => Err(e@),
    }
}

/// A response with its texts as sequences of characters.
pub open spec fn response_view(response: Result<String, RpcError>) -> Result<
    Seq<char>,
    RpcErrorView,
> {
    match response {
        Ok(marker) => Ok(marker@),
        Err(e) => Err(e@),
    }
}

/// The response that an answer of the engine calls for: the marker when the
/// swap was taken in, the mapped error when it was not.
pub open spec fn response_of(outcome: Result<(), SwapErrorView>) -> Result<
    Seq<char>,
    RpcErrorView,
> {
    match outcome {
        Ok(_) => Ok(success_marker()),
        Err(e) => Err(protocol_error(e)),
    }
}

/// Whether `response` reports an answer that `before` may give to `swap`,
/// with `after` as the engine that is left.
pub open spec fn reports_swap<S: SwapServer>(
    before: S,
    swap: SwapReq<S::Onion, S::ComSig>,
    response: Result<String, RpcError>,
    after: S,
) -> bool {
    exists|outcome: Result<(), SwapError>|
        {
            &&& #[trigger] before.may_answer_swap(&swap.onion, &swap.comsig, outcome, &after)
            &&& response_view(response) == response_of(outcome_view(outcome))
        }
}

/// Whether the engine, going from `before` to `after`, can have given this
/// swap no other answer than `answer`.
pub open spec fn only_answer<S: SwapServer>(
    before: S,
    swap: SwapReq<S::Onion, S::ComSig>,
    after: S,
    answer: Result<(), SwapErrorView>,
) -> bool {
    forall|outcome: Result<(), SwapError>| #[trigger]
        before.may_answer_swap(&swap.onion, &swap.comsig, outcome, &after) ==> outcome_view(
            outcome,
        ) == answer
}

/// Turns the engine's answer to a swap into the response to the client.
pub fn swap_response(outcome: Result<(), SwapError>) -> (response: Result<String, RpcError>)
    ensures
        response_view(response) == response_of(outcome_view(outcome)),
{
    match outcome {
        Ok(_) => Ok(String::from_str("success")),
        Err(e) => Err(RpcError::from(e)),
    }
}

/// Hands a swap to the engine and answers as the engine says.
pub fn submit<S: SwapServer>(
    server: &mut S,
    swap: SwapReq<S::Onion, S::ComSig>,
) -> (response: Result<String, RpcError>)
    ensures
        reports_swap(*old(server), swap, response, *final(server)),
{
    let outcome = server.swap(&swap.onion, &swap.comsig);
    swap_response(outcome)
}

/// Answers a call of `swap` from its parameters as they arrived, for a caller
/// that has the engine to itself. A call with an absent field is refused and
/// leaves the engine as it was; a complete one is handed to the engine and
/// answered as the engine says.
pub fn submit_params<S: SwapServer>(
    server: &mut S,
    params: SwapParams<S::Onion, S::ComSig>,
) -> (response: Result<String, RpcError>)
    ensures
        match first_missing(params) {
            Some(field) => {
                &&& response matches Err(e) && e@ == missing_field_error(field)
                &&& *final(server) == *old(server)
            },
            None => reports_swap(
                *old(server),
                SwapReq { onion: params.onion->Some_0, comsig: params.comsig->Some_0 },
                response,
                *final(server),
            ),
        },
{
    match SwapReq::from_params(params) {
        Ok(swap) => submit(server, swap),
        Err(e) => Err(e),
    }
}

/// Runs one round on the engine. How the round ended is the engine's to
/// remember: a failed round stops nothing here and no client hears of it.
pub fn run_round<S: SwapServer>(server: &mut S)
    ensures
        exists|outcome: Result<(), SwapError>| #[trigger]
            old(server).may_answer_round(outcome, final(server)),
{
    let outcome = server.execute_round();
    assert(old(server).may_answer_round(outcome, server));
}

/// The response follows the engine: the client reads what the engine's
/// answer calls for, and nothing else.
pub proof fn lemma_response_follows_engine<S: SwapServer>(
    before: S,
    swap: SwapReq<S::Onion, S::ComSig>,
    response: Result<String, RpcError>,
    after: S,
    answer: Result<(), SwapErrorView>,
)
    requires
        reports_swap(before, swap, response, after),
        only_answer(before, swap, after, answer),
    ensures
        response_view(response) == response_of(answer),
{
}

/// A swap that the engine accepts is answered by the marker and by no error.
pub proof fn lemma_accepted_swap_succeeds<S: SwapServer>(
    before: S,
    swap: SwapReq<S::Onion, S::ComSig>,
    response: Result<String, RpcError>,
    after: S,
)
    requires
        reports_swap(before, swap, response, after),
        only_answer(before, swap, after, Ok(())),
    ensures
        response matches Ok(marker) && marker@ == success_marker(),
{
    lemma_response_follows_engine(before, swap, response, after, Ok(()));
}

/// A coin that the engine does not find is reported as the request's fault,
/// in a message that holds the commitment.
pub proof fn lemma_coin_not_found_is_reported<S: SwapServer>(
    before: S,
    swap: SwapReq<S::Onion, S::ComSig>,
    response: Result<String, RpcError>,
    after: S,
    commit: Seq<u8>,
)
    requires
        reports_swap(before, swap, response, after),
        only_answer(before, swap, after, Err(SwapErrorView::CoinNotFound { commit })),
    ensures
        response matches Err(e) && e.code == ErrorCode::InvalidParams && e.message@ == message_of(
            SwapErrorView::CoinNotFound { commit },
        ) && contains_text(e.message@, commitment_text(commit)),
{
    lemma_response_follows_engine(
        before,
        swap,
        response,
        after,
        Err(SwapErrorView::CoinNotFound { commit }),
    );
    lemma_coin_not_found_names_commitment(commit);
}

/// A failure that the engine did not expect is reported as the server's
/// fault, in the engine's own words.
pub proof fn lemma_unknown_error_is_reported<S: SwapServer>(
    before: S,
    swap: SwapReq<S::Onion, S::ComSig>,
    response: Result<String, RpcError>,
    after: S,
    detail: Seq<char>,
)
    requires
        reports_swap(before, swap, response, after),
        only_answer(before, swap, after, Err(SwapErrorView::UnknownError(detail))),
    ensures
        response matches Err(e) && e.code == ErrorCode::InternalError && e.message@ == detail,
{
    lemma_response_follows_engine(
        before,
        swap,
        response,
        after,
        Err(SwapErrorView::UnknownError(detail)),
    );
}

} // verus!
