use vstd::prelude::*;

use crate::block::Block;
use crate::curve::Point;

verus! {

/// The id that binds a batch of transfers to its round: 0 for the first
/// batch, then 1, 2, and so on.
#[derive(Clone, Copy, Debug, PartialEq, Eq, Structural)]
pub struct TransferId(pub u64);

/// The sender's setup message: its public key `A`.
#[derive(Clone, Copy, Debug)]
pub struct SenderSetup {
    pub public_key: Point,
}

/// The receiver's message for one batch: its blinded choices.
#[derive(Clone, Debug)]
pub struct ReceiverPayload {
    pub id: TransferId,
    pub blinded_choices: Vec<Point>,
}

/// The sender's reply for one batch: a pair of ciphertexts per transfer.
#[derive(Clone, Debug)]
pub struct SenderPayload {
    pub id: TransferId,
    pub payload: Vec<[Block; 2]>,
}

/// The receiver's choice bits, packed least significant bit first.
#[derive(Clone, Debug)]
pub struct ReceiverReveal {
    pub choices: Vec<u8>,
}

} // verus!
