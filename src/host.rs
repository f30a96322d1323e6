use vstd::prelude::*;
use crate::encoding::{RawCall, CHAIN_EXTENSION_ID};
use crate::types::{AccountId, StakeInfo};

verus! {

/// Stake the stand-in extension reports by default: 100 units at 9 decimals.
pub const MOCK_STAKE: u64 = 100_000_000_000;

/// A programmable stand-in for the host chain's native extension: stake
/// queries report a configured amount, and proxy dispatches always succeed.
#[derive(Clone, Copy, Debug, PartialEq, Eq)]
pub struct MockSubtensorExtension {
    pub stake_amount: u64,
}

impl MockSubtensorExtension {
    /// The extension id it answers to.
    pub fn ext_id(&self) -> (r: u16)
        ensures
            r == CHAIN_EXTENSION_ID,
    {
        CHAIN_EXTENSION_ID
    }

    /// Answers a stake query: no record when the configured stake is zero,
    /// otherwise a record for `netuid` carrying that stake.
    pub fn get_stake_info(&self, hotkey: AccountId, coldkey: AccountId, netuid: u16) -> (r: Option<StakeInfo>)
        ensures
            self.stake_amount == 0 ==> r is None,
            self.stake_amount != 0 ==> r is Some && r->Some_0.stake == self.stake_amount
                && r->Some_0.netuid == netuid && r->Some_0.hotkey == hotkey
                && r->Some_0.coldkey == coldkey && r->Some_0.is_registered,
    {
        if self.stake_amount == 0 {
            None
        } else {
            Some(
                StakeInfo {
                    hotkey,
                    coldkey,
                    netuid,
                    stake: self.stake_amount,
                    locked: 0,
                    emission: 0,
                    tao_emission: 0,
                    drain: 0,
                    is_registered: true,
                },
            )
        }
    }

    /// Dispatches a call through the proxy function: always status 0, success.
    pub fn proxy_call(&self, call: &RawCall) -> (r: u32)
        ensures
            r == 0,
    {
        0
    }
}

/// The stand-in extension with the default stake.
pub fn register_mock_extension() -> (r: MockSubtensorExtension)
    ensures
        r.stake_amount == MOCK_STAKE,
{
    register_mock_extension_with_stake(MOCK_STAKE)
}

/// The stand-in extension with stake `stake`.
pub fn register_mock_extension_with_stake(stake: u64) -> (r: MockSubtensorExtension)
    ensures
        r.stake_amount == stake,
{
    MockSubtensorExtension { stake_amount: stake }
}

} // verus!
