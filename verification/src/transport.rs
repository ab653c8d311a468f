//! The rule of the transport: one path is served, every other is turned away.

use vstd::prelude::*;

verus! {

/// The status of a request that the transport turns away.
pub const BAD_REQUEST: u16 = 400;

/// Whether a request target names the one path that is served. A bare `?`
/// after the path carries no query and counts as none.
pub open spec fn is_api_target(target: Seq<char>) -> bool {
    target == "/v1"@ || target == "/v1?"@
}

/// What a client reads when it asked for anything else.
pub open spec fn wrong_target_notice() -> Seq<char> {
    "Only v1 supported"@
}

/// An answer given by the transport itself, as plain text.
#[derive(Clone, Debug, PartialEq)]
pub struct Refusal {
    pub status: u16,
    pub content: String,
}

/// What becomes of a request once its target is known.
#[derive(Clone, Debug, PartialEq)]
pub enum RequestAction {
    /// The request goes on to the endpoint.
    Proceed,
    /// The request is answered at once and goes no further.
    Respond(Refusal),
}

/// The action that a request target calls for.
pub open spec fn routes_to(target: Seq<char>, action: RequestAction) -> bool {
    if is_api_target(target) {
        action is Proceed
    } else {
        action matches RequestAction::Respond(refusal) && refusal.status == BAD_REQUEST
            && refusal.content@ == wrong_target_notice()
    }
}

/// Lets a request for `/v1` through and refuses any other with status 400.
/// `target` is the request target in full: the path, and the query if the
/// client sent one.
pub fn route(target: &str) -> (action: RequestAction)
    ensures
        routes_to(target@, action),
{
    let target = target.to_owned();
    if target == String::from_str("/v1") || target == String::from_str("/v1?") {
        RequestAction::Proceed
    } else {
        RequestAction::Respond(
            Refusal { status: BAD_REQUEST, content: String::from_str("Only v1 supported") },
        )
    }
}

} // verus!
