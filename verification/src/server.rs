//! The server that clients and the round scheduler share: one engine behind
//! a lock, and every operation on it made with the lock held.

use crate::endpoint::{reports_swap, run_round, submit, success_marker};
use crate::engine::SwapServer;
use crate::error::RpcError;
use crate::lock::{enter, guard_deref_mut, mutex_new};
use crate::request::{first_missing, missing_field_error, SwapParams, SwapReq};
use std::sync::Mutex;
use vstd::prelude::*;

verus! {

/// Whether `response` reports an answer that the engine, as it was when the
/// swap reached it, may give to `swap`.
pub open spec fn reports_some_swap<S: SwapServer>(
    swap: SwapReq<S::Onion, S::ComSig>,
    response: Result<String, RpcError>,
) -> bool {
    exists|before: S, after: S| #[trigger] reports_swap(before, swap, response, after)
}

/// The name under which clients call [`SwapAPI::swap`].
pub const SWAP_METHOD: &'static str = "swap";

/// The methods that the server offers to clients.
pub trait SwapAPI {
    /// The onion packet of a request.
    type Onion;

    /// The commitment signature of a request.
    type ComSig;

    /// Submits a swap. Success carries the marker and nothing else.
    fn swap(&self, swap: SwapReq<Self::Onion, Self::ComSig>) -> (response: Result<
        String,
        RpcError,
    >)
        ensures
            response matches Ok(marker) ==> marker@ == success_marker(),
    ;
}

/// The server. The engine sits behind a lock, so that a swap and a round
/// never work on it at once, whichever threads they come from. The lock is
/// held from before the engine is called until it has answered; an engine
/// must not call back into the server that holds it.
#[verifier::reject_recursive_types(S)]
pub struct RPCSwapServer<S: SwapServer> {
    pub server: Mutex<S>,
}

impl<S: SwapServer> RPCSwapServer<S> {
    /// A server in front of the given engine.
    pub fn new(server: S) -> (rpc: Self) {
        RPCSwapServer { server: mutex_new(server) }
    }

    /// Answers a call of `swap` from its parameters as they arrived. A call
    /// with an absent field is refused at once, without a wait for the lock;
    /// a complete one is handed to the engine and answered as the engine says.
    pub fn call_swap(&self, params: SwapParams<S::Onion, S::ComSig>) -> (response: Result<
        String,
        RpcError,
    >)
        ensures
            match first_missing(params) {
                Some(field) => response matches Err(e) && e@ == missing_field_error(field),
                None => reports_some_swap::<S>(
                    SwapReq { onion: params.onion->Some_0, comsig: params.comsig->Some_0 },
                    response,
                ),
            },
    {
        match SwapReq::from_params(params) {
            Ok(swap) => self.swap(swap),
            Err(e) => Err(e),
        }
    }

    /// Runs one round on the engine, with the lock held until the round is
    /// over. A failed round stops nothing here and no client hears of it.
    pub fn execute_round(&self) {
        let mut guard = enter(&self.server);
        run_round(guard_deref_mut(&mut guard));
    }
}

impl<S: SwapServer> SwapAPI for RPCSwapServer<S> {
    type Onion = S::Onion;

    type ComSig = S::ComSig;

    /// Hands the swap to the engine, with the lock held until the engine has
    /// answered, and answers as the engine says.
    fn swap(&self, swap: SwapReq<S::Onion, S::ComSig>) -> (response: Result<String, RpcError>)
        ensures
            reports_some_swap::<S>(swap, response),
    {
        let mut guard = enter(&self.server);
        let engine = guard_deref_mut(&mut guard);
        let ghost before = *engine;
        let response = submit(engine, swap);
        assert(reports_swap(before, swap, response, *engine));
        response
    }
}

} // verus!
