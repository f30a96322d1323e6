use issue_bounty::encoding::RawCall;
use issue_bounty::types::{account, clamp_to_u64};

fn expected_prefix(class: u8) -> Vec<u8> {
    let mut v = vec![16u8, 0, 0];
    v.extend_from_slice(&[1u8; 32]);
    v.extend_from_slice(&[1, class]);
    v
}

#[test]
fn proxied_move_stake_layout() {
    let call = RawCall::proxied_move_stake(&account(1), &account(2), &account(3), 74, 75, 0x0102030405060708);
    let mut expected = expected_prefix(8);
    expected.extend_from_slice(&[7, 85]);
    expected.extend_from_slice(&[2u8; 32]);
    expected.extend_from_slice(&[3u8; 32]);
    expected.extend_from_slice(&[74, 0, 75, 0]);
    expected.extend_from_slice(&[8, 7, 6, 5, 4, 3, 2, 1]);
    assert_eq!(call.bytes(), &expected);
    assert_eq!(call.0.len(), 115);
}

#[test]
fn proxied_transfer_stake_layout() {
    let call = RawCall::proxied_transfer_stake(&account(1), &account(9), &account(2), 1, 2, 500);
    let mut expected = expected_prefix(10);
    expected.extend_from_slice(&[7, 86]);
    expected.extend_from_slice(&[9u8; 32]);
    expected.extend_from_slice(&[2u8; 32]);
    expected.extend_from_slice(&[1, 0, 2, 0]);
    expected.extend_from_slice(&500u64.to_le_bytes());
    assert_eq!(call.0, expected);
}

#[test]
fn proxied_recycle_alpha_layout() {
    let call = RawCall::proxied_recycle_alpha(&account(1), &account(2), 256, 0x0304);
    let mut expected = expected_prefix(2);
    expected.extend_from_slice(&[7, 101]);
    expected.extend_from_slice(&[2u8; 32]);
    expected.extend_from_slice(&[0, 1, 0, 0, 0, 0, 0, 0]);
    expected.extend_from_slice(&[4, 3]);
    assert_eq!(call.0, expected);
}

#[test]
fn bare_calls_have_no_delegation_wrapper() {
    let transfer = RawCall::transfer_stake(&account(5), &account(2), 1, 1, 7);
    assert_eq!(transfer.0.len(), 2 + 32 + 32 + 2 + 2 + 8);
    assert_eq!(&transfer.0[..2], &[7, 86]);
    let recycle = RawCall::recycle_alpha(&account(2), u64::MAX, 1);
    let mut expected = vec![7u8, 101];
    expected.extend_from_slice(&[2u8; 32]);
    expected.extend_from_slice(&[0xff; 8]);
    expected.extend_from_slice(&[1, 0]);
    assert_eq!(recycle.0, expected);
}

#[test]
fn amounts_clamp_to_u64() {
    assert_eq!(clamp_to_u64(5), 5);
    assert_eq!(clamp_to_u64(u64::MAX as u128), u64::MAX);
    assert_eq!(clamp_to_u64(u64::MAX as u128 + 1), u64::MAX);
}
