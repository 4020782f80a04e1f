//! Short channel ids of JIT channels.

use vstd::prelude::*;

use crate::utils;
use crate::utils::parsed_scid;

verus! {

/// Why a text is no short channel id.
#[derive(Clone, Copy, Debug, PartialEq, Eq)]
pub enum ShortChannelIdError {
    /// The text does not hold a block height, a tx index and a vout.
    InvalidScid,
}

/// Maximum transaction index that can be used in a `short_channel_id`.
/// This value is based on the 3-bytes available for tx index.
pub const MAX_SCID_TX_INDEX: u64 = 0x00ffffff;

/// Maximum vout index that can be used in a `short_channel_id`. This
/// value is based on the 2-bytes available for the vout index.
pub const MAX_SCID_VOUT_INDEX: u64 = 0xffff;

/// Extracts the block height (most significant 3-bytes) from the `short_channel_id`
pub fn block_from_scid(short_channel_id: &u64) -> (block: u32)
    ensures
        block == *short_channel_id / 0x100_0000_0000,
{
    utils::block_from_scid(short_channel_id)
}

/// Extracts the tx index (bytes [2..4]) from the `short_channel_id`
pub fn tx_index_from_scid(short_channel_id: &u64) -> (tx_index: u32)
    ensures
        tx_index == *short_channel_id / 0x1_0000 % 0x100_0000,
{
    utils::tx_index_from_scid(short_channel_id)
}

/// Extracts the vout (bytes [0..2]) from the `short_channel_id`
pub fn vout_from_scid(short_channel_id: &u64) -> (vout: u16)
    ensures
        vout == *short_channel_id % 0x1_0000,
{
    utils::vout_from_scid(short_channel_id)
}

/// Parses a `short_channel_id` from its human readable form.
pub fn scid_from_human_readable_string(human_readable_scid: &str) -> (scid: Result<
    u64,
    ShortChannelIdError,
>)
    ensures
        scid == (match parsed_scid(human_readable_scid@) {
            Some(value) => Ok(value),
            None => Err(ShortChannelIdError::InvalidScid),
        }),
{
    match utils::scid_from_human_readable_string(human_readable_scid) {
        Ok(scid) => Ok(scid),
        Err(_) => Err(ShortChannelIdError::InvalidScid),
    }
}

} // verus!
