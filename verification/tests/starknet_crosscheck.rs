//! Cross-checks the library's scalar parsing, selector table and hexadecimal
//! rendering against the chain SDK the host environment uses.

use factory_events::decode::{
    merchant_created_selector_felt, ownership_transfer_started_selector_felt,
    ownership_transferred_selector_felt, paused_selector_felt, unpaused_selector_felt,
    upgraded_selector_felt,
};
use factory_events::felt::Felt252;
use starknet_core::types::Felt;
use starknet_core::utils::get_selector_from_name;

fn check_selector(name: &str, felt: Felt252) {
    let expected = get_selector_from_name(name).unwrap().to_bytes_be();
    assert_eq!(felt.bytes.as_slice(), expected.as_slice(), "selector of {name}");
}

#[test]
fn selectors_match_chain_hash_of_event_names() {
    check_selector("MerchantCreated", merchant_created_selector_felt());
    check_selector("OwnershipTransferred", ownership_transferred_selector_felt());
    check_selector("OwnershipTransferStarted", ownership_transfer_started_selector_felt());
    check_selector("Paused", paused_selector_felt());
    check_selector("Unpaused", unpaused_selector_felt());
    check_selector("Upgraded", upgraded_selector_felt());
}

#[test]
fn big_endian_parse_matches_chain_sdk() {
    let samples: Vec<Vec<u8>> = vec![
        vec![],
        vec![0x00],
        vec![0x01],
        vec![0xff],
        vec![0xde, 0xad, 0xbe, 0xef],
        vec![0x00, 0x00, 0x01],
        (1u8..=31).collect(),
        vec![0x07; 32],
    ];
    for bytes in samples {
        let ours = Felt252::from_bytes_be(&bytes).to_fixed_hex();
        let theirs = format!("0x{:064x}", Felt::from_bytes_be_slice(&bytes));
        assert_eq!(ours, theirs, "bytes {bytes:?}");
    }
}

#[test]
fn fixed_hex_matches_chain_sdk_formatting() {
    let addr: Vec<u8> = vec![
        0x06, 0xc0, 0xb7, 0x5d, 0x53, 0xc7, 0x57, 0xcc, 0x19, 0x79, 0xd3, 0xaa, 0xa9, 0x48, 0x2a,
        0xc4, 0x49, 0xae, 0x0d, 0xfd, 0x1e, 0x5a, 0x98, 0x07, 0xb2, 0x44, 0x78, 0xcf, 0x4d, 0xa2,
        0xd5, 0xf8,
    ];
    let ours = Felt252::from_bytes_be(&addr).to_fixed_hex();
    let theirs = format!("0x{:064x}", Felt::from_bytes_be_slice(&addr));
    assert_eq!(ours, theirs);
}
