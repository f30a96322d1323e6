use vstd::prelude::*;
use crate::types::AccountId;

verus! {

/// Staking-module pallet index of the host runtime.
pub const SUBTENSOR_MODULE_PALLET_INDEX: u8 = 7;

/// Delegation (proxy) pallet index of the host runtime.
pub const PROXY_PALLET_INDEX: u8 = 16;

/// `move_stake` call index within the staking module.
pub const MOVE_STAKE_CALL_INDEX: u8 = 85;

/// `transfer_stake` call index within the staking module.
pub const TRANSFER_STAKE_CALL_INDEX: u8 = 86;

/// `recycle_alpha` call index within the staking module.
pub const RECYCLE_ALPHA_CALL_INDEX: u8 = 101;

/// Delegation class that `move_stake` requires.
pub const PROXY_TYPE_STAKING: u8 = 8;

/// Delegation class that `transfer_stake` requires.
pub const PROXY_TYPE_TRANSFER: u8 = 10;

/// Delegation class that `recycle_alpha` requires.
pub const PROXY_TYPE_NON_CRITICAL: u8 = 2;

/// Id of the host chain's native extension.
pub const CHAIN_EXTENSION_ID: u16 = 5001;

/// Native-extension function that answers stake queries.
pub const GET_STAKE_INFO_FUNC: u16 = 0;

/// Native-extension function that transfers stake directly.
pub const TRANSFER_STAKE_FUNC: u16 = 6;

/// Native-extension function that wraps the delegation check and dispatches an inner call.
pub const PROXY_CALL_FUNC: u16 = 16;

/// The `n` low bytes of `v`, least significant first.
pub open spec fn le_bytes(v: nat, n: nat) -> Seq<u8>
    decreases n,
{
    if n == 0 {
        Seq::empty()
    } else {
        seq![(v % 256) as u8] + le_bytes(v / 256, (n - 1) as nat)
    }
}

/// The delegation wrapper around an inner call: act on behalf of `delegator` with
/// delegation class `class`.
pub open spec fn proxy_prefix(delegator: AccountId, class: u8) -> Seq<u8> {
    seq![PROXY_PALLET_INDEX, 0u8, 0u8] + delegator.bytes@ + seq![1u8, class]
}

/// Inner `transfer_stake` call.
pub open spec fn transfer_stake_call(
    destination_coldkey: AccountId,
    hotkey: AccountId,
    origin_netuid: u16,
    destination_netuid: u16,
    amount: u64,
) -> Seq<u8> {
    seq![SUBTENSOR_MODULE_PALLET_INDEX, TRANSFER_STAKE_CALL_INDEX] + destination_coldkey.bytes@
        + hotkey.bytes@ + le_bytes(origin_netuid as nat, 2) + le_bytes(destination_netuid as nat, 2)
        + le_bytes(amount as nat, 8)
}

/// Inner `move_stake` call.
pub open spec fn move_stake_call(
    origin_hotkey: AccountId,
    destination_hotkey: AccountId,
    origin_netuid: u16,
    destination_netuid: u16,
    amount: u64,
) -> Seq<u8> {
    seq![SUBTENSOR_MODULE_PALLET_INDEX, MOVE_STAKE_CALL_INDEX] + origin_hotkey.bytes@
        + destination_hotkey.bytes@ + le_bytes(origin_netuid as nat, 2) + le_bytes(
        destination_netuid as nat,
        2,
    ) + le_bytes(amount as nat, 8)
}

/// Inner `recycle_alpha` call.
pub open spec fn recycle_alpha_call(hotkey: AccountId, amount: u64, netuid: u16) -> Seq<u8> {
    seq![SUBTENSOR_MODULE_PALLET_INDEX, RECYCLE_ALPHA_CALL_INDEX] + hotkey.bytes@ + le_bytes(
        amount as nat,
        8,
    ) + le_bytes(netuid as nat, 2)
}

/// Appends the `n` low bytes of `v`, least significant first.
fn push_le(out: &mut Vec<u8>, v: u64, n: usize)
    requires
        n <= 8,
    ensures
        final(out)@ == old(out)@ + le_bytes(v as nat, n as nat),
{
    let mut x: u64 = v;
    let mut i: usize = 0;
    while i < n
        invariant
            i <= n,
            old(out)@ + le_bytes(v as nat, n as nat) == out@ + le_bytes(x as nat, (n - i) as nat),
        decreases n - i,
    {
        let ghost before = out@;
        out.push((x % 256) as u8);
        proof {
            assert(le_bytes(x as nat, (n - i) as nat) == seq![(x as nat % 256) as u8] + le_bytes(
                x as nat / 256,
                (n - i - 1) as nat,
            ));
            assert(before + le_bytes(x as nat, (n - i) as nat) =~= out@ + le_bytes(
                x as nat / 256,
                (n - i - 1) as nat,
            ));
        }
        x = x / 256;
        i = i + 1;
    }
    proof {
        assert(out@ + le_bytes(x as nat, 0) =~= out@);
    }
}

/// Appends the 32 bytes of an account id.
fn push_account(out: &mut Vec<u8>, a: &AccountId)
    ensures
        final(out)@ == old(out)@ + a.bytes@,
{
    let mut i: usize = 0;
    while i < 32
        invariant
            i <= 32,
            out@ == old(out)@ + a.bytes@.subrange(0, i as int),
        decreases 32 - i,
    {
        out.push(a.bytes[i]);
        proof {
            assert(a.bytes@.subrange(0, i + 1) =~= a.bytes@.subrange(0, i as int).push(
                a.bytes@[i as int],
            ));
        }
        i = i + 1;
    }
    proof {
        assert(a.bytes@.subrange(0, 32) =~= a.bytes@);
    }
}

/// Pre-encoded call bytes, dispatched as they are, with no length prefix.
#[derive(Debug, PartialEq, Eq)]
pub struct RawCall(pub Vec<u8>);

impl RawCall {
    /// The bytes of the call.
    pub fn bytes(&self) -> (r: &Vec<u8>)
        ensures
            r@ == self.0@,
    {
        &self.0
    }

    /// `transfer_stake` on behalf of `delegator` through the delegation pallet,
    /// with the Transfer delegation class.
    pub fn proxied_transfer_stake(
        delegator: &AccountId,
        destination_coldkey: &AccountId,
        hotkey: &AccountId,
        origin_netuid: u16,
        destination_netuid: u16,
        amount: u64,
    ) -> (r: RawCall)
        ensures
            r.0@ == proxy_prefix(*delegator, PROXY_TYPE_TRANSFER) + transfer_stake_call(
                *destination_coldkey,
                *hotkey,
                origin_netuid,
                destination_netuid,
                amount,
            ),
    {
        let mut out: Vec<u8> = Vec::new();
        push_proxy_prefix(&mut out, delegator, PROXY_TYPE_TRANSFER);
        push_transfer_stake(
            &mut out,
            destination_coldkey,
            hotkey,
            origin_netuid,
            destination_netuid,
            amount,
        );
        proof {
            assert(out@ =~= proxy_prefix(*delegator, PROXY_TYPE_TRANSFER) + transfer_stake_call(
                *destination_coldkey,
                *hotkey,
                origin_netuid,
                destination_netuid,
                amount,
            ));
        }
        RawCall(out)
    }

    /// `move_stake` on behalf of `delegator` through the delegation pallet, with
    /// the Staking delegation class.
    pub fn proxied_move_stake(
        delegator: &AccountId,
        origin_hotkey: &AccountId,
        destination_hotkey: &AccountId,
        origin_netuid: u16,
        destination_netuid: u16,
        amount: u64,
    ) -> (r: RawCall)
        ensures
            r.0@ == proxy_prefix(*delegator, PROXY_TYPE_STAKING) + move_stake_call(
                *origin_hotkey,
                *destination_hotkey,
                origin_netuid,
                destination_netuid,
                amount,
            ),
    {
        let mut out: Vec<u8> = Vec::new();
        push_proxy_prefix(&mut out, delegator, PROXY_TYPE_STAKING);
        let ghost start = out@;
        out.push(SUBTENSOR_MODULE_PALLET_INDEX);
        out.push(MOVE_STAKE_CALL_INDEX);
        push_account(&mut out, origin_hotkey);
        push_account(&mut out, destination_hotkey);
        push_le(&mut out, origin_netuid as u64, 2);
        push_le(&mut out, destination_netuid as u64, 2);
        push_le(&mut out, amount, 8);
        proof {
            assert(out@ =~= start + move_stake_call(
                *origin_hotkey,
                *destination_hotkey,
                origin_netuid,
                destination_netuid,
                amount,
            ));
        }
        RawCall(out)
    }

    /// `recycle_alpha` on behalf of `delegator` through the delegation pallet, with
    /// the NonCritical delegation class.
    pub fn proxied_recycle_alpha(delegator: &AccountId, hotkey: &AccountId, amount: u64, netuid: u16) -> (r:
        RawCall)
        ensures
            r.0@ == proxy_prefix(*delegator, PROXY_TYPE_NON_CRITICAL) + recycle_alpha_call(
                *hotkey,
                amount,
                netuid,
            ),
    {
        let mut out: Vec<u8> = Vec::new();
        push_proxy_prefix(&mut out, delegator, PROXY_TYPE_NON_CRITICAL);
        push_recycle_alpha(&mut out, hotkey, amount, netuid);
        RawCall(out)
    }

    /// The bare inner `transfer_stake` call, for the native extension's proxy function.
    pub fn transfer_stake(
        destination_coldkey: &AccountId,
        hotkey: &AccountId,
        origin_netuid: u16,
        destination_netuid: u16,
        amount: u64,
    ) -> (r: RawCall)
        ensures
            r.0@ == transfer_stake_call(
                *destination_coldkey,
                *hotkey,
                origin_netuid,
                destination_netuid,
                amount,
            ),
    {
        let mut out: Vec<u8> = Vec::new();
        push_transfer_stake(
            &mut out,
            destination_coldkey,
            hotkey,
            origin_netuid,
            destination_netuid,
            amount,
        );
        proof {
            assert(out@ =~= transfer_stake_call(
                *destination_coldkey,
                *hotkey,
                origin_netuid,
                destination_netuid,
                amount,
            ));
        }
        RawCall(out)
    }

    /// The bare inner `recycle_alpha` call, for the native extension's proxy function.
    pub fn recycle_alpha(hotkey: &AccountId, amount: u64, netuid: u16) -> (r: RawCall)
        ensures
            r.0@ == recycle_alpha_call(*hotkey, amount, netuid),
    {
        let mut out: Vec<u8> = Vec::new();
        push_recycle_alpha(&mut out, hotkey, amount, netuid);
        proof {
            assert(out@ =~= recycle_alpha_call(*hotkey, amount, netuid));
        }
        RawCall(out)
    }
}

fn push_proxy_prefix(out: &mut Vec<u8>, delegator: &AccountId, class: u8)
    ensures
        final(out)@ == old(out)@ + proxy_prefix(*delegator, class),
{
    let ghost start = out@;
    out.push(PROXY_PALLET_INDEX);
    out.push(0);
    out.push(0);
    push_account(out, delegator);
    out.push(1);
    out.push(class);
    proof {
        assert(out@ =~= start + proxy_prefix(*delegator, class));
    }
}

fn push_transfer_stake(
    out: &mut Vec<u8>,
    destination_coldkey: &AccountId,
    hotkey: &AccountId,
    origin_netuid: u16,
    destination_netuid: u16,
    amount: u64,
)
    ensures
        final(out)@ == old(out)@ + transfer_stake_call(
            *destination_coldkey,
            *hotkey,
            origin_netuid,
            destination_netuid,
            amount,
        ),
{
    let ghost start = out@;
    out.push(SUBTENSOR_MODULE_PALLET_INDEX);
    out.push(TRANSFER_STAKE_CALL_INDEX);
    push_account(out, destination_coldkey);
    push_account(out, hotkey);
    push_le(out, origin_netuid as u64, 2);
    push_le(out, destination_netuid as u64, 2);
    push_le(out, amount, 8);
    proof {
        assert(out@ =~= start + transfer_stake_call(
            *destination_coldkey,
            *hotkey,
            origin_netuid,
            destination_netuid,
            amount,
        ));
    }
}

fn push_recycle_alpha(out: &mut Vec<u8>, hotkey: &AccountId, amount: u64, netuid: u16)
    ensures
        final(out)@ == old(out)@ + recycle_alpha_call(*hotkey, amount, netuid),
{
    let ghost start = out@;
    out.push(SUBTENSOR_MODULE_PALLET_INDEX);
    out.push(RECYCLE_ALPHA_CALL_INDEX);
    push_account(out, hotkey);
    push_le(out, amount, 8);
    push_le(out, netuid as u64, 2);
    proof {
        assert(out@ =~= start + recycle_alpha_call(*hotkey, amount, netuid));
    }
}

} // verus!
