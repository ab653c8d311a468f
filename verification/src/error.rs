//! Failures of the swap engine and what the protocol says of each.

use crate::commitment::{commitment_text, Commitment};
use vstd::prelude::*;
use vstd::std_specs::convert::FromSpecImpl;

verus! {

/// Why the engine refused a swap or failed a round.
#[derive(Clone, Debug, PartialEq)]
pub enum SwapError {
    /// The onion does not carry the number of payloads this server expects.
    InvalidPayloadLength,
    /// The commitment signature does not verify.
    InvalidComSignature,
    /// The range proof does not verify.
    InvalidRangeproof,
    /// The last hop needs a range proof and none was given.
    MissingRangeproof,
    /// The input is not in the current set of unspent outputs.
    CoinNotFound { commit: Commitment },
    /// The output is already waiting for the next round.
    AlreadySwapped { commit: Commitment },
    /// A layer of the onion could not be removed.
    PeelOnionFailure(String),
    /// Anything the engine did not expect.
    UnknownError(String),
}

/// A [`SwapError`] with its texts as sequences of characters.
pub enum SwapErrorView {
    InvalidPayloadLength,
    InvalidComSignature,
    InvalidRangeproof,
    MissingRangeproof,
    CoinNotFound { commit: Seq<u8> },
    AlreadySwapped { commit: Seq<u8> },
    PeelOnionFailure(Seq<char>),
    UnknownError(Seq<char>),
}

impl View for SwapError {
    type V = SwapErrorView;

    open spec fn view(&self) -> SwapErrorView {
        match self {
            SwapError::InvalidPayloadLength => SwapErrorView::InvalidPayloadLength,
            SwapError::InvalidComSignature => SwapErrorView::InvalidComSignature,
            SwapError::InvalidRangeproof => SwapErrorView::InvalidRangeproof,
            SwapError::MissingRangeproof => SwapErrorView::MissingRangeproof,
            SwapError::CoinNotFound { commit } => SwapErrorView::CoinNotFound { commit: commit@ },
            SwapError::AlreadySwapped { commit } => SwapErrorView::AlreadySwapped {
                commit: commit@,
            },
            SwapError::PeelOnionFailure(detail) => SwapErrorView::PeelOnionFailure(detail@),
            SwapError::UnknownError(detail) => SwapErrorView::UnknownError(detail@),
        }
    }
}

/// The two classes of failure that a client can be told of.
#[derive(Clone, Copy, Debug, PartialEq, Eq, Structural)]
pub enum ErrorCode {
    /// The request is at fault.
    InvalidParams,
    /// The server is at fault.
    InternalError,
}

/// The number that JSON-RPC 2.0 assigns to a class of failure.
pub open spec fn code_number(code: ErrorCode) -> int {
    match code {
        ErrorCode::InvalidParams => -32602,
        ErrorCode::InternalError => -32603,
    }
}

impl ErrorCode {
    /// The number sent on the wire for this class.
    pub fn code(&self) -> (n: i64)
        ensures
            n == code_number(*self),
    {
        match self {
            ErrorCode::InvalidParams => -32602,
            ErrorCode::InternalError => -32603,
        }
    }
}

/// What a client reads of a failure, whatever the class.
pub open spec fn message_of(e: SwapErrorView) -> Seq<char> {
    match e {
        SwapErrorView::InvalidPayloadLength => "Invalid number of payloads provided"@,
        SwapErrorView::InvalidComSignature => "Commitment Signature is invalid"@,
        SwapErrorView::InvalidRangeproof => "Rangeproof is invalid"@,
        SwapErrorView::MissingRangeproof => "Rangeproof is required but was not supplied"@,
        SwapErrorView::CoinNotFound { commit } => "Output "@ + commitment_text(commit)
            + " does not exist, or is already spent."@,
        SwapErrorView::AlreadySwapped { commit } => "Output "@ + commitment_text(commit)
            + " is already in the swap list."@,
        SwapErrorView::PeelOnionFailure(detail) => "Failed to peel onion layer: "@ + detail,
        SwapErrorView::UnknownError(detail) => detail,
    }
}

/// The class of a failure: only the unexpected is the server's fault.
pub open spec fn class_of(e: SwapErrorView) -> ErrorCode {
    match e {
        SwapErrorView::UnknownError(_) => ErrorCode::InternalError,
        _ => ErrorCode::InvalidParams,
    }
}

impl SwapError {
    /// The failure in words.
    pub fn to_string(&self) -> (text: String)
        ensures
            text@ == message_of(self@),
    {
        match self {
            SwapError::InvalidPayloadLength => String::from_str(
                "Invalid number of payloads provided",
            ),
            SwapError::InvalidComSignature => String::from_str("Commitment Signature is invalid"),
            SwapError::InvalidRangeproof => String::from_str("Rangeproof is invalid"),
            SwapError::MissingRangeproof => String::from_str(
                "Rangeproof is required but was not supplied",
            ),
            SwapError::CoinNotFound { commit } => {
                let shown = commit.to_text();
                String::from_str("Output ").concat(shown.as_str()).concat(
                    " does not exist, or is already spent.",
                )
            },
            SwapError::AlreadySwapped { commit } => {
                let shown = commit.to_text();
                String::from_str("Output ").concat(shown.as_str()).concat(
                    " is already in the swap list.",
                )
            },
            SwapError::PeelOnionFailure(detail) => String::from_str(
                "Failed to peel onion layer: ",
            ).concat(detail.as_str()),
            SwapError::UnknownError(detail) => detail.clone(),
        }
    }

    /// The class under which the failure is reported.
    pub fn classify(&self) -> (code: ErrorCode)
        ensures
            code == class_of(self@),
    {
        match self {
            SwapError::UnknownError(_) => ErrorCode::InternalError,
            _ => ErrorCode::InvalidParams,
        }
    }
}

/// A failure as the protocol reports it: a class and a message.
#[derive(Clone, Debug, PartialEq)]
pub struct RpcError {
    pub code: ErrorCode,
    pub message: String,
}

/// An [`RpcError`] with its message as a sequence of characters.
pub struct RpcErrorView {
    pub code: ErrorCode,
    pub message: Seq<char>,
}

impl View for RpcError {
    type V = RpcErrorView;

    open spec fn view(&self) -> RpcErrorView {
        RpcErrorView { code: self.code, message: self.message@ }
    }
}

/// The protocol error that blames the request, with the given message.
pub open spec fn invalid_params_view(message: Seq<char>) -> RpcErrorView {
    RpcErrorView { code: ErrorCode::InvalidParams, message }
}

/// The protocol error for a failure of the engine.
pub open spec fn protocol_error(e: SwapErrorView) -> RpcErrorView {
    RpcErrorView { code: class_of(e), message: message_of(e) }
}

impl RpcError {
    /// A failure blamed on the request, with the given message.
    pub fn invalid_params(message: String) -> (e: RpcError)
        ensures
            e@ == invalid_params_view(message@),
    {
        RpcError { code: ErrorCode::InvalidParams, message }
    }
}

/// Whether `part` stands somewhere in `text`, unbroken.
pub open spec fn contains_text(text: Seq<char>, part: Seq<char>) -> bool {
    exists|at: int|
        0 <= at <= text.len() - part.len() && #[trigger] text.subrange(at, at + part.len())
            == part
}

/// A text that is put together from three pieces contains the middle one.
pub proof fn lemma_middle_is_contained(head: Seq<char>, part: Seq<char>, tail: Seq<char>)
    ensures
        contains_text(head + part + tail, part),
{
    let text = head + part + tail;
    let at = head.len() as int;
    assert(text.subrange(at, at + part.len()) =~= part);
}

/// Every failure falls in exactly one class, and only the unexpected is laid
/// at the server's door; its report is the detail as the engine gave it.
pub proof fn lemma_only_unknown_is_internal(e: SwapErrorView)
    ensures
        class_of(e) == ErrorCode::InternalError <==> e is UnknownError,
        class_of(e) == ErrorCode::InvalidParams <==> !(e is UnknownError),
        e matches SwapErrorView::UnknownError(detail) ==> protocol_error(e) == (RpcErrorView {
            code: ErrorCode::InternalError,
            message: detail,
        }),
{
}

/// A coin that is not found is the request's fault, and the report names the
/// commitment that was looked for.
pub proof fn lemma_coin_not_found_names_commitment(commit: Seq<u8>)
    ensures
        class_of(SwapErrorView::CoinNotFound { commit }) == ErrorCode::InvalidParams,
        contains_text(message_of(SwapErrorView::CoinNotFound { commit }), commitment_text(commit)),
{
    lemma_middle_is_contained(
        "Output "@,
        commitment_text(commit),
        " does not exist, or is already spent."@,
    );
}

/// A `String` cannot be written down in a specification, so there is no
/// `RpcError` to name as the result: `from` says what it returns by its view.
impl FromSpecImpl<SwapError> for RpcError {
    open spec fn obeys_from_spec() -> bool {
        false
    }

    open spec fn from_spec(e: SwapError) -> RpcError {
        arbitrary()
    }
}

impl From<SwapError> for RpcError {
    /// Reports a failure of the engine under its class, in its own words.
    fn from(e: SwapError) -> (out: RpcError)
        ensures
            out@ == protocol_error(e@),
    {
        let message = e.to_string();
        match e {
            SwapError::UnknownError(_) => RpcError { code: ErrorCode::InternalError, message },
            _ => RpcError::invalid_params(message),
        }
    }
}

} // verus!
