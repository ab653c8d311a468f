//! Pedersen commitments as this layer sees them: 33 opaque bytes and a text form.

use grin_util::secp::pedersen::Commitment as SecpCommitment;
use vstd::prelude::*;

verus! {

/// Number of bytes in a commitment.
pub const COMMITMENT_SIZE: usize = 33;

/// The sixteen lower-case hexadecimal digits, in order of value.
pub open spec fn hex_digits() -> Seq<char> {
    seq!['0', '1', '2', '3', '4', '5', '6', '7', '8', '9', 'a', 'b', 'c', 'd', 'e', 'f']
}

/// One byte as two hexadecimal digits, the high half first.
pub open spec fn hex_byte(b: u8) -> Seq<char> {
    seq![hex_digits()[b as int / 16], hex_digits()[b as int % 16]]
}

/// Every byte as two hexadecimal digits, in order.
pub open spec fn hex_text(bytes: Seq<u8>) -> Seq<char>
    decreases bytes.len(),
{
    if bytes.len() == 0 {
        Seq::empty()
    } else {
        hex_text(bytes.drop_last()) + hex_byte(bytes.last())
    }
}

/// The text by which a commitment is shown: the word `Commitment`, then its
/// bytes in hexadecimal between round brackets.
pub open spec fn commitment_text(bytes: Seq<u8>) -> Seq<char> {
    "Commitment("@ + hex_text(bytes) + ")"@
}

/// Renders a commitment through the `Debug` impl of
/// `secp256k1zkp::pedersen::Commitment`.
///
/// Trusted: that impl writes the type's name and an opening bracket, then each
/// of the 33 bytes with `{:02x}`, then a closing bracket. The contract claims
/// exactly this text and nothing else is assumed of the outside crate.
#[verifier::external_body]
fn secp_commitment_debug(bytes: &[u8; COMMITMENT_SIZE]) -> (text: String)
    ensures
        text@ == commitment_text(bytes@),
{
    format!("{:?}", SecpCommitment(*bytes))
}

/// A Pedersen commitment, held as its serialized bytes.
#[derive(Clone, Copy, Debug, PartialEq, Eq)]
pub struct Commitment(pub [u8; COMMITMENT_SIZE]);

impl View for Commitment {
    type V = Seq<u8>;

    open spec fn view(&self) -> Seq<u8> {
        self.0@
    }
}

impl Commitment {
    /// The commitment's text form.
    pub fn to_text(&self) -> (text: String)
        ensures
            text@ == commitment_text(self@),
    {
        secp_commitment_debug(&self.0)
    }
}

} // verus!
