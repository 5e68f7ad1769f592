//! Proposal action payload encoding.
//!
//! A proposal carries a fixed 256-byte buffer whose leading bytes encode
//! one action record, selected by the proposal's action type: all integer
//! fields are little-endian, a mint identifier is 32 raw bytes, and a
//! boolean is a single byte that must be 0 or 1 — anything else is a
//! malformed payload.

use vstd::prelude::*;

use crate::bytes::{bytes32_at, le_u16_at, le_u64_at, spec_le_u16_at, spec_le_u64_at};
use crate::errors::ErrorCode;

verus! {

/// Parameters of a swap action: 32-byte input and output mint
/// identifiers, then the input amount and the minimum acceptable output.
#[derive(Clone, Copy, Debug, PartialEq, Eq)]
pub struct SwapActionData {
    pub input_mint: [u8; 32],
    pub output_mint: [u8; 32],
    pub amount_in: u64,
    pub minimum_amount_out: u64,
}

/// Parameters of a perpetual action: market index, side, size and
/// collateral.
#[derive(Clone, Copy, Debug, PartialEq, Eq, Structural)]
pub struct PerpActionData {
    pub market_index: u16,
    pub is_long: bool,
    pub size: u64,
    pub collateral: u64,
}

/// Parameters of a lending action: pool index and amount.
#[derive(Clone, Copy, Debug, PartialEq, Eq, Structural)]
pub struct LendingActionData {
    pub pool_index: u16,
    pub amount: u64,
}

/// What it means for a swap record to carry exactly the fields a payload
/// buffer encodes: input mint at 0, output mint at 32, amount in at 64,
/// minimum out at 72.
pub open spec fn spec_is_swap_action(s: Seq<u8>, a: SwapActionData) -> bool
    recommends
        s.len() >= 80,
{
    &&& forall|i: int| 0 <= i < 32 ==> a.input_mint@[i] == s[i]
    &&& forall|i: int| 0 <= i < 32 ==> a.output_mint@[i] == s[32 + i]
    &&& a.amount_in == spec_le_u64_at(s, 64)
    &&& a.minimum_amount_out == spec_le_u64_at(s, 72)
}

/// The perpetual record a payload buffer encodes: market index at 0, the
/// side byte at 2, size at 3, collateral at 11.
pub open spec fn spec_perp_action(s: Seq<u8>) -> PerpActionData
    recommends
        s.len() >= 19,
{
    PerpActionData {
        market_index: spec_le_u16_at(s, 0) as u16,
        is_long: s[2] == 1,
        size: spec_le_u64_at(s, 3) as u64,
        collateral: spec_le_u64_at(s, 11) as u64,
    }
}

/// The lending record a payload buffer encodes: pool index at 0, amount
/// at 2.
pub open spec fn spec_lending_action(s: Seq<u8>) -> LendingActionData
    recommends
        s.len() >= 10,
{
    LendingActionData {
        pool_index: spec_le_u16_at(s, 0) as u16,
        amount: spec_le_u64_at(s, 2) as u64,
    }
}

/// Decode a swap action from the head of a payload buffer: input mint at
/// 0, output mint at 32, amount in at 64, minimum out at 72. Every field
/// is fixed-width, so decoding cannot fail.
pub fn decode_swap_action(data: &[u8]) -> (r: SwapActionData)
    requires
        data@.len() >= 80,
    ensures
        spec_is_swap_action(data@, r),
{
    SwapActionData {
        input_mint: bytes32_at(data, 0),
        output_mint: bytes32_at(data, 32),
        amount_in: le_u64_at(data, 64),
        minimum_amount_out: le_u64_at(data, 72),
    }
}

/// Decode a perpetual action from the head of a payload buffer: market
/// index at 0, the side byte at 2, size at 3, collateral at 11. The side
/// byte must be 0 (short) or 1 (long); any other value is a malformed
/// payload and is rejected with `InvalidActionData`.
pub fn decode_perp_action(data: &[u8]) -> (r: Result<PerpActionData, ErrorCode>)
    requires
        data@.len() >= 19,
    ensures
        data@[2] > 1 ==> r == Err::<PerpActionData, ErrorCode>(ErrorCode::InvalidActionData),
        data@[2] <= 1 ==> r == Ok::<PerpActionData, ErrorCode>(spec_perp_action(data@)),
{
    let side_byte: u8 = data[2];
    if side_byte > 1 {
        return Err(ErrorCode::InvalidActionData);
    }
    Ok(
        PerpActionData {
            market_index: le_u16_at(data, 0),
            is_long: side_byte == 1,
            size: le_u64_at(data, 3),
            collateral: le_u64_at(data, 11),
        },
    )
}

/// Decode a lending action from the head of a payload buffer: pool index
/// at 0, amount at 2. Every field is fixed-width, so decoding cannot
/// fail.
pub fn decode_lending_action(data: &[u8]) -> (r: LendingActionData)
    requires
        data@.len() >= 10,
    ensures
        r == spec_lending_action(data@),
{
    LendingActionData { pool_index: le_u16_at(data, 0), amount: le_u64_at(data, 2) }
}

} // verus!
