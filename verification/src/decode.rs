use vstd::prelude::*;
use crate::felt::Felt252;

verus! {

// The event selectors of the factory contract's interface: for each declared
// event variant, the canonical 32-byte form of the hash of its name, as the
// chain computes it. The first key of an emitted event carries the selector of
// the variant it represents.

/// The selector of the entity-creation variant, `MerchantCreated`.
pub open spec fn merchant_created_selector() -> Seq<u8> {
    seq![
        0x00u8, 0x2e, 0xb1, 0x9c, 0x69, 0x0b, 0x82, 0x0d,
        0x6b, 0xb3, 0x4c, 0x98, 0xde, 0x00, 0x68, 0xca,
        0x69, 0x36, 0x96, 0x60, 0xae, 0x63, 0x23, 0x43,
        0x88, 0xce, 0xd7, 0x8b, 0x78, 0x02, 0xd9, 0xc3,
    ]
}

/// The selector of the `OwnershipTransferred` variant.
pub open spec fn ownership_transferred_selector() -> Seq<u8> {
    seq![
        0x01u8, 0x39, 0x0f, 0xd8, 0x03, 0xc1, 0x10, 0xac,
        0x71, 0x73, 0x0e, 0xce, 0x1d, 0xec, 0xfc, 0x34,
        0xeb, 0x1d, 0x00, 0x88, 0xe2, 0x95, 0xd4, 0xf1,
        0xb1, 0x25, 0xdd, 0xa1, 0xe0, 0xc5, 0xb9, 0xff,
    ]
}

/// The selector of the `OwnershipTransferStarted` variant.
pub open spec fn ownership_transfer_started_selector() -> Seq<u8> {
    seq![
        0x02u8, 0x64, 0x02, 0x90, 0x18, 0xff, 0x7e, 0x3c,
        0x05, 0x52, 0xdb, 0x60, 0xeb, 0x00, 0xdd, 0x04,
        0xed, 0xdf, 0x84, 0xc8, 0x6e, 0x9b, 0x06, 0x64,
        0x0c, 0xe3, 0x73, 0x1b, 0x70, 0xdc, 0x0b, 0xd7,
    ]
}

/// The selector of the `Paused` variant.
pub open spec fn paused_selector() -> Seq<u8> {
    seq![
        0x02u8, 0xeb, 0x52, 0x48, 0xcf, 0x3d, 0x8c, 0xd8,
        0x1a, 0x5b, 0xa6, 0xd3, 0xcc, 0x6e, 0x19, 0x97,
        0xdf, 0x7b, 0x17, 0x4e, 0xb8, 0x94, 0xaa, 0xc0,
        0x81, 0x86, 0x7c, 0x1a, 0x2b, 0xc4, 0x3c, 0x90,
    ]
}

/// The selector of the `Unpaused` variant.
pub open spec fn unpaused_selector() -> Seq<u8> {
    seq![
        0x00u8, 0xec, 0xe5, 0xba, 0xf7, 0x1f, 0x67, 0x0b,
        0xcb, 0x77, 0x14, 0x81, 0xfd, 0x7b, 0xd9, 0xef,
        0xd6, 0xd6, 0xb8, 0x05, 0x32, 0x46, 0xfe, 0x67,
        0xb5, 0xa1, 0x3d, 0xb8, 0xbf, 0x5f, 0x50, 0xf1,
    ]
}

/// The selector of the `Upgraded` variant.
pub open spec fn upgraded_selector() -> Seq<u8> {
    seq![
        0x02u8, 0xdb, 0x34, 0x0e, 0x6c, 0x60, 0x93, 0x71,
        0x02, 0x67, 0x31, 0xf4, 0x70, 0x50, 0xd3, 0x97,
        0x65, 0x52, 0xc8, 0x9b, 0x4f, 0xbb, 0x01, 0x29,
        0x41, 0x66, 0x38, 0x41, 0xc5, 0x9d, 0x1a, 0xf3,
    ]
}

/// The selector of the entity-creation variant as a scalar.
pub fn merchant_created_selector_felt() -> (r: Felt252)
    ensures
        r.wf(),
        r@ == merchant_created_selector(),
{
    let bytes: Vec<u8> = vec![
        0x00u8, 0x2e, 0xb1, 0x9c, 0x69, 0x0b, 0x82, 0x0d,
        0x6b, 0xb3, 0x4c, 0x98, 0xde, 0x00, 0x68, 0xca,
        0x69, 0x36, 0x96, 0x60, 0xae, 0x63, 0x23, 0x43,
        0x88, 0xce, 0xd7, 0x8b, 0x78, 0x02, 0xd9, 0xc3,
    ];
    proof {
        assert(bytes@ =~= merchant_created_selector());
    }
    Felt252 { bytes }
}

/// The selector of the `OwnershipTransferred` variant as a scalar.
pub fn ownership_transferred_selector_felt() -> (r: Felt252)
    ensures
        r.wf(),
        r@ == ownership_transferred_selector(),
{
    let bytes: Vec<u8> = vec![
        0x01u8, 0x39, 0x0f, 0xd8, 0x03, 0xc1, 0x10, 0xac,
        0x71, 0x73, 0x0e, 0xce, 0x1d, 0xec, 0xfc, 0x34,
        0xeb, 0x1d, 0x00, 0x88, 0xe2, 0x95, 0xd4, 0xf1,
        0xb1, 0x25, 0xdd, 0xa1, 0xe0, 0xc5, 0xb9, 0xff,
    ];
    proof {
        assert(bytes@ =~= ownership_transferred_selector());
    }
    Felt252 { bytes }
}

/// The selector of the `OwnershipTransferStarted` variant as a scalar.
pub fn ownership_transfer_started_selector_felt() -> (r: Felt252)
    ensures
        r.wf(),
        r@ == ownership_transfer_started_selector(),
{
    let bytes: Vec<u8> = vec![
        0x02u8, 0x64, 0x02, 0x90, 0x18, 0xff, 0x7e, 0x3c,
        0x05, 0x52, 0xdb, 0x60, 0xeb, 0x00, 0xdd, 0x04,
        0xed, 0xdf, 0x84, 0xc8, 0x6e, 0x9b, 0x06, 0x64,
        0x0c, 0xe3, 0x73, 0x1b, 0x70, 0xdc, 0x0b, 0xd7,
    ];
    proof {
        assert(bytes@ =~= ownership_transfer_started_selector());
    }
    Felt252 { bytes }
}

/// The selector of the `Paused` variant as a scalar.
pub fn paused_selector_felt() -> (r: Felt252)
    ensures
        r.wf(),
        r@ == paused_selector(),
{
    let bytes: Vec<u8> = vec![
        0x02u8, 0xeb, 0x52, 0x48, 0xcf, 0x3d, 0x8c, 0xd8,
        0x1a, 0x5b, 0xa6, 0xd3, 0xcc, 0x6e, 0x19, 0x97,
        0xdf, 0x7b, 0x17, 0x4e, 0xb8, 0x94, 0xaa, 0xc0,
        0x81, 0x86, 0x7c, 0x1a, 0x2b, 0xc4, 0x3c, 0x90,
    ];
    proof {
        assert(bytes@ =~= paused_selector());
    }
    Felt252 { bytes }
}

/// The selector of the `Unpaused` variant as a scalar.
pub fn unpaused_selector_felt() -> (r: Felt252)
    ensures
        r.wf(),
        r@ == unpaused_selector(),
{
    let bytes: Vec<u8> = vec![
        0x00u8, 0xec, 0xe5, 0xba, 0xf7, 0x1f, 0x67, 0x0b,
        0xcb, 0x77, 0x14, 0x81, 0xfd, 0x7b, 0xd9, 0xef,
        0xd6, 0xd6, 0xb8, 0x05, 0x32, 0x46, 0xfe, 0x67,
        0xb5, 0xa1, 0x3d, 0xb8, 0xbf, 0x5f, 0x50, 0xf1,
    ];
    proof {
        assert(bytes@ =~= unpaused_selector());
    }
    Felt252 { bytes }
}

/// The selector of the `Upgraded` variant as a scalar.
pub fn upgraded_selector_felt() -> (r: Felt252)
    ensures
        r.wf(),
        r@ == upgraded_selector(),
{
    let bytes: Vec<u8> = vec![
        0x02u8, 0xdb, 0x34, 0x0e, 0x6c, 0x60, 0x93, 0x71,
        0x02, 0x67, 0x31, 0xf4, 0x70, 0x50, 0xd3, 0x97,
        0x65, 0x52, 0xc8, 0x9b, 0x4f, 0xbb, 0x01, 0x29,
        0x41, 0x66, 0x38, 0x41, 0xc5, 0x9d, 0x1a, 0xf3,
    ];
    proof {
        assert(bytes@ =~= upgraded_selector());
    }
    Felt252 { bytes }
}

/// An event in fully-typed form: the emitting address and both payloads as
/// scalars. The block-context fields stay absent: this decoding path operates
/// on an already-extracted event and never needs them.
pub struct EmittedEvent {
    pub from_address: Felt252,
    pub keys: Vec<Felt252>,
    pub data: Vec<Felt252>,
    pub block_hash: Option<Felt252>,
    pub block_number: Option<u64>,
    pub transaction_hash: Option<Felt252>,
}

impl EmittedEvent {
    pub open spec fn wf(&self) -> bool {
        &&& self.from_address.wf()
        &&& forall|i: int| 0 <= i < self.keys@.len() ==> (#[trigger] self.keys@[i]).wf()
        &&& forall|i: int| 0 <= i < self.data@.len() ==> (#[trigger] self.data@[i]).wf()
    }
}

/// The canonical byte sequences of a sequence of scalars.
pub open spec fn felt_seq_view(s: Seq<Felt252>) -> Seq<Seq<u8>> {
    s.map_values(|f: Felt252| f@)
}

/// A successfully decoded event: the tagged union over the factory contract
/// interface's declared event variants.
pub enum DecodedEvent {
    MerchantCreated { merchant: Felt252, points_contract: Felt252 },
    OwnershipTransferred { previous_owner: Felt252, new_owner: Felt252 },
    OwnershipTransferStarted { previous_owner: Felt252, new_owner: Felt252 },
    Paused { account: Felt252 },
    Unpaused { account: Felt252 },
    Upgraded { class_hash: Felt252 },
}

/// The mathematical content of a decoded event: the same tagged union over
/// canonical byte sequences.
pub enum DecodedEventModel {
    MerchantCreated { merchant: Seq<u8>, points_contract: Seq<u8> },
    OwnershipTransferred { previous_owner: Seq<u8>, new_owner: Seq<u8> },
    OwnershipTransferStarted { previous_owner: Seq<u8>, new_owner: Seq<u8> },
    Paused { account: Seq<u8> },
    Unpaused { account: Seq<u8> },
    Upgraded { class_hash: Seq<u8> },
}

impl View for DecodedEvent {
    type V = DecodedEventModel;

    open spec fn view(&self) -> DecodedEventModel {
        match *self {
            DecodedEvent::MerchantCreated { merchant, points_contract } =>
                DecodedEventModel::MerchantCreated {
                    merchant: merchant@,
                    points_contract: points_contract@,
                },
            DecodedEvent::OwnershipTransferred { previous_owner, new_owner } =>
                DecodedEventModel::OwnershipTransferred {
                    previous_owner: previous_owner@,
                    new_owner: new_owner@,
                },
            DecodedEvent::OwnershipTransferStarted { previous_owner, new_owner } =>
                DecodedEventModel::OwnershipTransferStarted {
                    previous_owner: previous_owner@,
                    new_owner: new_owner@,
                },
            DecodedEvent::Paused { account } => DecodedEventModel::Paused { account: account@ },
            DecodedEvent::Unpaused { account } => DecodedEventModel::Unpaused {
                account: account@,
            },
            DecodedEvent::Upgraded { class_hash } => DecodedEventModel::Upgraded {
                class_hash: class_hash@,
            },
        }
    }
}

/// The decode table of the factory contract's interface: the variant is
/// identified by the selector in the first key, and the remaining key and data
/// counts must match the variant's declared field layout. An unrecognized
/// selector or a count mismatch is a decode failure, not an error.
pub open spec fn spec_decode(keys: Seq<Seq<u8>>, data: Seq<Seq<u8>>) -> Option<DecodedEventModel> {
    if keys.len() == 0 {
        None
    } else {
        let sel = keys[0];
        if sel == merchant_created_selector() {
            if keys.len() == 2 && data.len() == 1 {
                Some(DecodedEventModel::MerchantCreated {
                    merchant: keys[1],
                    points_contract: data[0],
                })
            } else {
                None
            }
        } else if sel == ownership_transferred_selector() {
            if keys.len() == 3 && data.len() == 0 {
                Some(DecodedEventModel::OwnershipTransferred {
                    previous_owner: keys[1],
                    new_owner: keys[2],
                })
            } else {
                None
            }
        } else if sel == ownership_transfer_started_selector() {
            if keys.len() == 3 && data.len() == 0 {
                Some(DecodedEventModel::OwnershipTransferStarted {
                    previous_owner: keys[1],
                    new_owner: keys[2],
                })
            } else {
                None
            }
        } else if sel == paused_selector() {
            if keys.len() == 1 && data.len() == 1 {
                Some(DecodedEventModel::Paused { account: data[0] })
            } else {
                None
            }
        } else if sel == unpaused_selector() {
            if keys.len() == 1 && data.len() == 1 {
                Some(DecodedEventModel::Unpaused { account: data[0] })
            } else {
                None
            }
        } else if sel == upgraded_selector() {
            if keys.len() == 1 && data.len() == 1 {
                Some(DecodedEventModel::Upgraded { class_hash: data[0] })
            } else {
                None
            }
        } else {
            None
        }
    }
}

/// Attempts to decode a typed event against the factory contract interface's
/// event schema.
pub fn decode_event(ev: &EmittedEvent) -> (r: Option<DecodedEvent>)
    ensures
        match spec_decode(felt_seq_view(ev.keys@), felt_seq_view(ev.data@)) {
            Option::None => r is None,
            Option::Some(m) => r is Some && r->0@ == m,
        },
{
    let nk = ev.keys.len();
    let nd = ev.data.len();
    if nk == 0 {
        return None;
    }
    let sel = &ev.keys[0];
    if sel.felt_eq(&merchant_created_selector_felt()) {
        if nk == 2 && nd == 1 {
            Some(DecodedEvent::MerchantCreated {
                merchant: ev.keys[1].clone_felt(),
                points_contract: ev.data[0].clone_felt(),
            })
        } else {
            None
        }
    } else if sel.felt_eq(&ownership_transferred_selector_felt()) {
        if nk == 3 && nd == 0 {
            Some(DecodedEvent::OwnershipTransferred {
                previous_owner: ev.keys[1].clone_felt(),
                new_owner: ev.keys[2].clone_felt(),
            })
        } else {
            None
        }
    } else if sel.felt_eq(&ownership_transfer_started_selector_felt()) {
        if nk == 3 && nd == 0 {
            Some(DecodedEvent::OwnershipTransferStarted {
                previous_owner: ev.keys[1].clone_felt(),
                new_owner: ev.keys[2].clone_felt(),
            })
        } else {
            None
        }
    } else if sel.felt_eq(&paused_selector_felt()) {
        if nk == 1 && nd == 1 {
            Some(DecodedEvent::Paused { account: ev.data[0].clone_felt() })
        } else {
            None
        }
    } else if sel.felt_eq(&unpaused_selector_felt()) {
        if nk == 1 && nd == 1 {
            Some(DecodedEvent::Unpaused { account: ev.data[0].clone_felt() })
        } else {
            None
        }
    } else if sel.felt_eq(&upgraded_selector_felt()) {
        if nk == 1 && nd == 1 {
            Some(DecodedEvent::Upgraded { class_hash: ev.data[0].clone_felt() })
        } else {
            None
        }
    } else {
        None
    }
}

} // verus!
