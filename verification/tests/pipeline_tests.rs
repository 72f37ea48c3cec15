use factory_events::decode::{
    decode_event, merchant_created_selector_felt, paused_selector_felt, EmittedEvent,
};
use factory_events::events::{
    Error, EventRecord, OutputBatch, Receipt, Transaction, TransactionBatch,
};
use factory_events::felt::Felt252;
use factory_events::pipeline::{address_matches, map_factory_events, target_contract_address};

fn target_address_bytes() -> Vec<u8> {
    vec![
        0x06, 0xc0, 0xb7, 0x5d, 0x53, 0xc7, 0x57, 0xcc, 0x19, 0x79, 0xd3, 0xaa, 0xa9, 0x48, 0x2a,
        0xc4, 0x49, 0xae, 0x0d, 0xfd, 0x1e, 0x5a, 0x98, 0x07, 0xb2, 0x44, 0x78, 0xcf, 0x4d, 0xa2,
        0xd5, 0xf8,
    ]
}

fn merchant_created_selector_bytes() -> Vec<u8> {
    merchant_created_selector_felt().bytes
}

fn single_event_batch(from_address: Vec<u8>, keys: Vec<Vec<u8>>, data: Vec<Vec<u8>>) -> TransactionBatch {
    TransactionBatch {
        transactions: vec![Transaction {
            receipt: Some(Receipt {
                events: vec![EventRecord { from_address, keys, data }],
            }),
        }],
    }
}

fn expect_ok(r: Result<OutputBatch, Error>) -> OutputBatch {
    match r {
        Ok(out) => out,
        Err(_) => panic!("expected a successful invocation"),
    }
}

#[test]
fn creation_event_produces_padded_record() {
    let batch = single_event_batch(
        target_address_bytes(),
        vec![merchant_created_selector_bytes(), vec![0x01]],
        vec![vec![0x02]],
    );
    let out = expect_ok(map_factory_events(&batch, target_contract_address()));
    assert_eq!(out.merchant_contracts.len(), 1);
    let rec = &out.merchant_contracts[0];
    assert_eq!(
        rec.merchant_address,
        "0x0000000000000000000000000000000000000000000000000000000000000001"
    );
    assert_eq!(
        rec.points_contract,
        "0x0000000000000000000000000000000000000000000000000000000000000002"
    );
}

#[test]
fn non_matching_address_produces_nothing() {
    let mut other = target_address_bytes();
    other[31] = 0xf9;
    let batch = single_event_batch(
        other,
        vec![merchant_created_selector_bytes(), vec![0x01]],
        vec![vec![0x02]],
    );
    let out = expect_ok(map_factory_events(&batch, target_contract_address()));
    assert!(out.merchant_contracts.is_empty());
}

#[test]
fn missing_receipt_fails_fatally() {
    let batch = TransactionBatch {
        transactions: vec![Transaction { receipt: None }],
    };
    let r = map_factory_events(&batch, target_contract_address());
    assert!(matches!(r, Err(Error::MissingReceipt)));
}

#[test]
fn missing_receipt_aborts_despite_earlier_match() {
    let batch = TransactionBatch {
        transactions: vec![
            Transaction {
                receipt: Some(Receipt {
                    events: vec![EventRecord {
                        from_address: target_address_bytes(),
                        keys: vec![merchant_created_selector_bytes(), vec![0x01]],
                        data: vec![vec![0x02]],
                    }],
                }),
            },
            Transaction { receipt: None },
        ],
    };
    let r = map_factory_events(&batch, target_contract_address());
    assert!(matches!(r, Err(Error::MissingReceipt)));
}

#[test]
fn oversized_key_fails_fatally() {
    let batch = single_event_batch(
        target_address_bytes(),
        vec![merchant_created_selector_bytes(), vec![0u8; 33]],
        vec![vec![0x02]],
    );
    let r = map_factory_events(&batch, target_contract_address());
    assert!(matches!(r, Err(Error::OversizedScalar)));
}

#[test]
fn oversized_byte_array_ignored_on_non_matching_address() {
    let batch = single_event_batch(
        vec![0xab; 32],
        vec![vec![0u8; 40]],
        vec![],
    );
    let out = expect_ok(map_factory_events(&batch, target_contract_address()));
    assert!(out.merchant_contracts.is_empty());
}

#[test]
fn unrecognized_selector_is_silently_discarded() {
    let batch = single_event_batch(
        target_address_bytes(),
        vec![vec![0x99, 0x99], vec![0x01]],
        vec![vec![0x02]],
    );
    let out = expect_ok(map_factory_events(&batch, target_contract_address()));
    assert!(out.merchant_contracts.is_empty());
}

#[test]
fn arity_mismatch_is_silently_discarded() {
    let batch = single_event_batch(
        target_address_bytes(),
        vec![merchant_created_selector_bytes(), vec![0x01]],
        vec![],
    );
    let out = expect_ok(map_factory_events(&batch, target_contract_address()));
    assert!(out.merchant_contracts.is_empty());
}

#[test]
fn empty_keys_is_silently_discarded() {
    let batch = single_event_batch(target_address_bytes(), vec![], vec![]);
    let out = expect_ok(map_factory_events(&batch, target_contract_address()));
    assert!(out.merchant_contracts.is_empty());
}

#[test]
fn other_variant_is_silently_discarded() {
    let batch = single_event_batch(
        target_address_bytes(),
        vec![paused_selector_felt().bytes],
        vec![vec![0x42]],
    );
    let out = expect_ok(map_factory_events(&batch, target_contract_address()));
    assert!(out.merchant_contracts.is_empty());
}

#[test]
fn empty_batch_produces_empty_output() {
    let batch = TransactionBatch { transactions: vec![] };
    let out = expect_ok(map_factory_events(&batch, target_contract_address()));
    assert!(out.merchant_contracts.is_empty());
}

#[test]
fn same_batch_twice_produces_identical_output() {
    let make = || {
        single_event_batch(
            target_address_bytes(),
            vec![merchant_created_selector_bytes(), vec![0xaa, 0xbb]],
            vec![vec![0xcc]],
        )
    };
    let out1 = expect_ok(map_factory_events(&make(), target_contract_address()));
    let out2 = expect_ok(map_factory_events(&make(), target_contract_address()));
    assert_eq!(out1.merchant_contracts.len(), out2.merchant_contracts.len());
    for (a, b) in out1.merchant_contracts.iter().zip(out2.merchant_contracts.iter()) {
        assert_eq!(a.merchant_address, b.merchant_address);
        assert_eq!(a.points_contract, b.points_contract);
    }
}

#[test]
fn output_preserves_event_order() {
    let ev = |m: u8, p: u8| EventRecord {
        from_address: target_address_bytes(),
        keys: vec![merchant_created_selector_bytes(), vec![m]],
        data: vec![vec![p]],
    };
    let noise = EventRecord {
        from_address: vec![0x01; 32],
        keys: vec![vec![0x07]],
        data: vec![],
    };
    let batch = TransactionBatch {
        transactions: vec![
            Transaction {
                receipt: Some(Receipt { events: vec![ev(0x11, 0x12), noise, ev(0x13, 0x14)] }),
            },
            Transaction {
                receipt: Some(Receipt { events: vec![ev(0x15, 0x16)] }),
            },
        ],
    };
    let out = expect_ok(map_factory_events(&batch, target_contract_address()));
    let merchants: Vec<&str> = out
        .merchant_contracts
        .iter()
        .map(|r| r.merchant_address.as_str())
        .collect();
    assert_eq!(
        merchants,
        vec![
            "0x0000000000000000000000000000000000000000000000000000000000000011",
            "0x0000000000000000000000000000000000000000000000000000000000000013",
            "0x0000000000000000000000000000000000000000000000000000000000000015",
        ]
    );
}

#[test]
fn address_comparison_is_case_insensitive() {
    let upper = "06C0B75D53C757CC1979D3AAA9482AC449AE0DFD1E5A9807B24478CF4DA2D5F8";
    assert!(address_matches(&target_address_bytes(), upper));
    assert!(address_matches(&target_address_bytes(), target_contract_address()));
    let batch = single_event_batch(
        target_address_bytes(),
        vec![merchant_created_selector_bytes(), vec![0x03]],
        vec![vec![0x04]],
    );
    let out = expect_ok(map_factory_events(&batch, upper));
    assert_eq!(out.merchant_contracts.len(), 1);
}

#[test]
fn short_address_never_matches_full_width_target() {
    // A 31-byte address renders as 62 digits and can never equal a 64-digit target.
    assert!(!address_matches(&vec![0x06; 31], target_contract_address()));
}

#[test]
fn fixed_hex_pads_to_64_digits() {
    let f = Felt252::from_bytes_be(&vec![0xde, 0xad, 0xbe, 0xef]);
    assert_eq!(
        f.to_fixed_hex(),
        "0x00000000000000000000000000000000000000000000000000000000deadbeef"
    );
    let zero = Felt252::from_bytes_be(&vec![]);
    assert_eq!(
        zero.to_fixed_hex(),
        "0x0000000000000000000000000000000000000000000000000000000000000000"
    );
}

#[test]
fn decode_recognizes_entity_creation() {
    let emitted = EmittedEvent {
        from_address: Felt252::from_bytes_be(&target_address_bytes()),
        keys: vec![
            merchant_created_selector_felt(),
            Felt252::from_bytes_be(&vec![0x01]),
        ],
        data: vec![Felt252::from_bytes_be(&vec![0x02])],
        block_hash: None,
        block_number: None,
        transaction_hash: None,
    };
    let decoded = decode_event(&emitted);
    assert!(matches!(
        decoded,
        Some(factory_events::decode::DecodedEvent::MerchantCreated { .. })
    ));
}
