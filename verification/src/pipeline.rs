use vstd::prelude::*;
use vstd::string::StrSliceExecFns;
use crate::hex::{hex_of_bytes, hex_char, lower_hex_char, hex_char_of, to_lower_hex_char,
    lemma_hex_of_bytes_len, lemma_hex_of_bytes_index};
use crate::felt::{Felt252, pad32};
use crate::events::{EventRecord, Transaction, TransactionBatch, Error, OutputRecord,
    OutputRecordModel, OutputBatch};
use crate::decode::{EmittedEvent, DecodedEvent, DecodedEventModel, felt_seq_view, spec_decode,
    decode_event};

verus! {

/// The contract address the pipeline is configured to monitor, as 64 unprefixed
/// lowercase hexadecimal digits.
pub open spec fn target_contract_address_spec() -> Seq<char> {
    "06c0b75d53c757cc1979d3aaa9482ac449ae0dfd1e5a9807b24478cf4da2d5f8"@
}

/// The configured target contract address: the factory contract whose
/// entity-creation events this pipeline extracts.
pub fn target_contract_address() -> (r: &'static str)
    ensures
        r@ == target_contract_address_spec(),
        r@.len() == 64,
{
    proof {
        reveal_strlit("06c0b75d53c757cc1979d3aaa9482ac449ae0dfd1e5a9807b24478cf4da2d5f8");
    }
    "06c0b75d53c757cc1979d3aaa9482ac449ae0dfd1e5a9807b24478cf4da2d5f8"
}

/// Whether an event's raw address, rendered as unprefixed lowercase hex digits
/// (two per byte), equals the target string compared case-insensitively.
pub open spec fn addr_matches(from: Seq<u8>, target: Seq<char>) -> bool {
    target.map_values(|c: char| lower_hex_char(c)) == hex_of_bytes(from)
}

/// Decides whether an event's raw emitting address matches the target string,
/// comparing the address's hexadecimal rendering to the target
/// case-insensitively.
pub fn address_matches(from: &Vec<u8>, target: &str) -> (r: bool)
    ensures
        r == addr_matches(from@, target@),
{
    proof {
        lemma_hex_of_bytes_len(from@);
    }
    let tlen = target.unicode_len();
    if tlen % 2 != 0 || tlen / 2 != from.len() {
        proof {
            assert(target@.map_values(|c: char| lower_hex_char(c)).len() == target@.len());
            assert(!addr_matches(from@, target@));
        }
        return false;
    }
    let n = from.len();
    assert(tlen == 2 * n);
    let mut i: usize = 0;
    while i < n
        invariant
            i <= n,
            n == from@.len(),
            target@.len() == 2 * n,
            2 * n <= usize::MAX,
            forall|j: int|
                0 <= j < i ==> lower_hex_char(target@[2 * j]) == hex_char(from@[j] as int / 16)
                    && lower_hex_char(target@[2 * j + 1]) == hex_char(from@[j] as int % 16),
        decreases n - i,
    {
        let b = from[i];
        let c_hi = to_lower_hex_char(target.get_char(2 * i));
        let c_lo = to_lower_hex_char(target.get_char(2 * i + 1));
        if c_hi != hex_char_of(b / 16) || c_lo != hex_char_of(b % 16) {
            proof {
                lemma_hex_of_bytes_index(from@, i as int);
                let tmap = target@.map_values(|c: char| lower_hex_char(c));
                assert(tmap[2 * i] == lower_hex_char(target@[2 * i]));
                assert(tmap[2 * i + 1] == lower_hex_char(target@[2 * i + 1]));
                assert(!addr_matches(from@, target@));
            }
            return false;
        }
        i += 1;
    }
    proof {
        let tmap = target@.map_values(|c: char| lower_hex_char(c));
        assert forall|k: int| 0 <= k < 2 * n implies tmap[k] == hex_of_bytes(from@)[k] by {
            let j = k / 2;
            lemma_hex_of_bytes_index(from@, j);
            assert(tmap[k] == lower_hex_char(target@[k]));
            if k % 2 == 0 {
                assert(k == 2 * j);
            } else {
                assert(k == 2 * j + 1);
            }
        }
        assert(tmap =~= hex_of_bytes(from@));
    }
    true
}

/// Whether some byte array of the event exceeds the scalar field width.
pub open spec fn event_oversized(ev: EventRecord) -> bool {
    ||| ev.from_address@.len() > 32
    ||| exists|i: int| 0 <= i < ev.keys@.len() && (#[trigger] ev.keys@[i])@.len() > 32
    ||| exists|i: int| 0 <= i < ev.data@.len() && (#[trigger] ev.data@[i])@.len() > 32
}

/// The canonical 32-byte forms of the event's key payloads.
pub open spec fn padded_keys(ev: EventRecord) -> Seq<Seq<u8>> {
    ev.keys@.map_values(|k: Vec<u8>| pad32(k@))
}

/// The canonical 32-byte forms of the event's data payloads.
pub open spec fn padded_data(ev: EventRecord) -> Seq<Seq<u8>> {
    ev.data@.map_values(|k: Vec<u8>| pad32(k@))
}

/// What one event record contributes to the invocation: `Ok(None)` for a
/// non-matching address, a decode failure or a variant other than
/// entity-creation; `Ok(Some(record))` for a decoded entity-creation event;
/// `Err(OversizedScalar)` for a matched event carrying a byte array wider than
/// the scalar field.
pub open spec fn event_outcome(ev: EventRecord, target: Seq<char>) -> Result<
    Option<OutputRecordModel>,
    Error,
> {
    if !addr_matches(ev.from_address@, target) {
        Result::Ok(Option::None)
    } else if event_oversized(ev) {
        Result::Err(Error::OversizedScalar)
    } else {
        match spec_decode(padded_keys(ev), padded_data(ev)) {
            Option::Some(DecodedEventModel::MerchantCreated { merchant, points_contract }) =>
                Result::Ok(
                    Option::Some(
                        OutputRecordModel {
                            merchant_address: seq!['0', 'x'] + hex_of_bytes(merchant),
                            points_contract: seq!['0', 'x'] + hex_of_bytes(points_contract),
                        },
                    ),
                ),
            _ => Result::Ok(Option::None),
        }
    }
}

/// The records contributed by a sequence of event records, in order, or the
/// first fatal condition met while scanning them.
pub open spec fn outputs_of_events(events: Seq<EventRecord>, target: Seq<char>) -> Result<
    Seq<OutputRecordModel>,
    Error,
>
    decreases events.len(),
{
    if events.len() == 0 {
        Result::Ok(Seq::empty())
    } else {
        match event_outcome(events[0], target) {
            Result::Err(e) => Result::Err(e),
            Result::Ok(head) => match outputs_of_events(events.drop_first(), target) {
                Result::Err(e) => Result::Err(e),
                Result::Ok(rest) => Result::Ok(
                    match head {
                        Option::None => rest,
                        Option::Some(m) => seq![m] + rest,
                    },
                ),
            },
        }
    }
}

/// The records contributed by a sequence of transactions, in transaction order
/// then in-receipt event order, or the first fatal condition met: a missing
/// receipt, or an oversized byte array on a matched event.
pub open spec fn outputs_of_txs(txs: Seq<Transaction>, target: Seq<char>) -> Result<
    Seq<OutputRecordModel>,
    Error,
>
    decreases txs.len(),
{
    if txs.len() == 0 {
        Result::Ok(Seq::empty())
    } else if txs[0].receipt is None {
        Result::Err(Error::MissingReceipt)
    } else {
        match outputs_of_events(txs[0].receipt->0.events@, target) {
            Result::Err(e) => Result::Err(e),
            Result::Ok(head) => match outputs_of_txs(txs.drop_first(), target) {
                Result::Err(e) => Result::Err(e),
                Result::Ok(rest) => Result::Ok(head + rest),
            },
        }
    }
}

/// What one invocation of the pipeline returns for a batch and a target
/// address: the ordered output records, or the first fatal condition with no
/// partial output.
pub open spec fn spec_map_factory_events(batch: TransactionBatch, target: Seq<char>) -> Result<
    Seq<OutputRecordModel>,
    Error,
> {
    outputs_of_txs(batch.transactions@, target)
}

/// The mathematical content of an invocation's result.
pub open spec fn result_view(r: Result<OutputBatch, Error>) -> Result<
    Seq<OutputRecordModel>,
    Error,
> {
    match r {
        Result::Ok(b) => Result::Ok(b@),
        Result::Err(e) => Result::Err(e),
    }
}

/// The mathematical content of one optional output record.
pub open spec fn option_record_view(o: Option<OutputRecord>) -> Option<OutputRecordModel> {
    match o {
        Option::None => Option::None,
        Option::Some(rec) => Option::Some(rec@),
    }
}

pub proof fn lemma_outputs_of_events_snoc(s: Seq<EventRecord>, e: EventRecord, target: Seq<char>)
    ensures
        outputs_of_events(s.push(e), target) == (match outputs_of_events(s, target) {
            Result::<Seq<OutputRecordModel>, Error>::Err(er) => Result::<
                Seq<OutputRecordModel>,
                Error,
            >::Err(er),
            Result::Ok(v) => match event_outcome(e, target) {
                Result::Err(er) => Result::Err(er),
                Result::Ok(Option::None) => Result::Ok(v),
                Result::Ok(Option::Some(m)) => Result::Ok(v.push(m)),
            },
        }),
    decreases s.len(),
{
    reveal_with_fuel(outputs_of_events, 3);
    if s.len() == 0 {
        assert(s.push(e)[0] == e);
        assert(s.push(e).drop_first() =~= Seq::<EventRecord>::empty());
        let oc = event_outcome(e, target);
        if oc is Ok && oc->Ok_0 is Some {
            assert(seq![oc->Ok_0->0] + Seq::<OutputRecordModel>::empty() =~= Seq::<
                OutputRecordModel,
            >::empty().push(oc->Ok_0->0));
        }
    } else {
        assert(s.push(e)[0] == s[0]);
        assert(s.push(e).drop_first() =~= s.drop_first().push(e));
        lemma_outputs_of_events_snoc(s.drop_first(), e, target);
        let oc0 = event_outcome(s[0], target);
        let rest = outputs_of_events(s.drop_first(), target);
        let oce = event_outcome(e, target);
        if oc0 is Ok && rest is Ok && oce is Ok && oce->Ok_0 is Some && oc0->Ok_0 is Some {
            assert(seq![oc0->Ok_0->0] + rest->Ok_0.push(oce->Ok_0->0) =~= (seq![oc0->Ok_0->0]
                + rest->Ok_0).push(oce->Ok_0->0));
        }
    }
}

pub proof fn lemma_outputs_of_events_extend_err(
    s: Seq<EventRecord>,
    k: int,
    er: Error,
    target: Seq<char>,
)
    requires
        0 <= k <= s.len(),
        outputs_of_events(s.take(k), target) == Result::<Seq<OutputRecordModel>, Error>::Err(er),
    ensures
        outputs_of_events(s, target) == Result::<Seq<OutputRecordModel>, Error>::Err(er),
    decreases s.len(),
{
    assert(k > 0);
    assert(s.take(k)[0] == s[0]);
    if event_outcome(s[0], target) is Err {
    } else {
        assert(s.take(k).drop_first() =~= s.drop_first().take(k - 1));
        lemma_outputs_of_events_extend_err(s.drop_first(), k - 1, er, target);
    }
}

pub proof fn lemma_outputs_of_txs_snoc(s: Seq<Transaction>, tx: Transaction, target: Seq<char>)
    ensures
        outputs_of_txs(s.push(tx), target) == (match outputs_of_txs(s, target) {
            Result::<Seq<OutputRecordModel>, Error>::Err(er) => Result::<
                Seq<OutputRecordModel>,
                Error,
            >::Err(er),
            Result::Ok(v) => if tx.receipt is None {
                Result::Err(Error::MissingReceipt)
            } else {
                match outputs_of_events(tx.receipt->0.events@, target) {
                    Result::Err(er) => Result::Err(er),
                    Result::Ok(w) => Result::Ok(v + w),
                }
            },
        }),
    decreases s.len(),
{
    reveal_with_fuel(outputs_of_txs, 3);
    if s.len() == 0 {
        assert(s.push(tx)[0] == tx);
        assert(s.push(tx).drop_first() =~= Seq::<Transaction>::empty());
        if tx.receipt is Some {
            let ev = outputs_of_events(tx.receipt->0.events@, target);
            if ev is Ok {
                assert(ev->Ok_0 + Seq::<OutputRecordModel>::empty() =~= Seq::<
                    OutputRecordModel,
                >::empty() + ev->Ok_0);
            }
        }
    } else {
        assert(s.push(tx)[0] == s[0]);
        assert(s.push(tx).drop_first() =~= s.drop_first().push(tx));
        lemma_outputs_of_txs_snoc(s.drop_first(), tx, target);
        if s[0].receipt is Some {
            let head = outputs_of_events(s[0].receipt->0.events@, target);
            let rest = outputs_of_txs(s.drop_first(), target);
            if head is Ok && rest is Ok && tx.receipt is Some {
                let w = outputs_of_events(tx.receipt->0.events@, target);
                if w is Ok {
                    assert(head->Ok_0 + (rest->Ok_0 + w->Ok_0) =~= (head->Ok_0 + rest->Ok_0)
                        + w->Ok_0);
                }
            }
        }
    }
}

pub proof fn lemma_outputs_of_txs_extend_err(
    s: Seq<Transaction>,
    k: int,
    er: Error,
    target: Seq<char>,
)
    requires
        0 <= k <= s.len(),
        outputs_of_txs(s.take(k), target) == Result::<Seq<OutputRecordModel>, Error>::Err(er),
    ensures
        outputs_of_txs(s, target) == Result::<Seq<OutputRecordModel>, Error>::Err(er),
    decreases s.len(),
{
    assert(k > 0);
    assert(s.take(k)[0] == s[0]);
    if s[0].receipt is None {
    } else if outputs_of_events(s[0].receipt->0.events@, target) is Err {
    } else {
        assert(s.take(k).drop_first() =~= s.drop_first().take(k - 1));
        lemma_outputs_of_txs_extend_err(s.drop_first(), k - 1, er, target);
    }
}

/// Processes one event record: decides relevance by emitting address, converts
/// the raw byte arrays to scalars, attempts the decode, and projects the
/// entity-creation variant into an output record.
pub fn process_event(ev: &EventRecord, target: &str) -> (r: Result<Option<OutputRecord>, Error>)
    ensures
        match r {
            Result::Ok(o) => event_outcome(*ev, target@) == Result::<
                Option<OutputRecordModel>,
                Error,
            >::Ok(option_record_view(o)),
            Result::Err(e) => event_outcome(*ev, target@) == Result::<
                Option<OutputRecordModel>,
                Error,
            >::Err(e),
        },
{
    if !address_matches(&ev.from_address, target) {
        return Result::Ok(Option::None);
    }
    if ev.from_address.len() > 32 {
        return Result::Err(Error::OversizedScalar);
    }
    let nk = ev.keys.len();
    let mut ki: usize = 0;
    while ki < nk
        invariant
            ki <= nk,
            nk == ev.keys@.len(),
            addr_matches(ev.from_address@, target@),
            ev.from_address@.len() <= 32,
            forall|j: int| 0 <= j < ki ==> (#[trigger] ev.keys@[j])@.len() <= 32,
        decreases nk - ki,
    {
        if ev.keys[ki].len() > 32 {
            return Result::Err(Error::OversizedScalar);
        }
        ki += 1;
    }
    let nd = ev.data.len();
    let mut di: usize = 0;
    while di < nd
        invariant
            di <= nd,
            nd == ev.data@.len(),
            addr_matches(ev.from_address@, target@),
            ev.from_address@.len() <= 32,
            forall|j: int| 0 <= j < nk ==> (#[trigger] ev.keys@[j])@.len() <= 32,
            nk == ev.keys@.len(),
            forall|j: int| 0 <= j < di ==> (#[trigger] ev.data@[j])@.len() <= 32,
        decreases nd - di,
    {
        if ev.data[di].len() > 32 {
            return Result::Err(Error::OversizedScalar);
        }
        di += 1;
    }
    assert(!event_oversized(*ev));

    let from_felt = Felt252::from_bytes_be(&ev.from_address);
    let mut keys_felts: Vec<Felt252> = Vec::new();
    let mut i: usize = 0;
    while i < nk
        invariant
            i <= nk,
            nk == ev.keys@.len(),
            addr_matches(ev.from_address@, target@),
            !event_oversized(*ev),
            forall|j: int| 0 <= j < nk ==> (#[trigger] ev.keys@[j])@.len() <= 32,
            keys_felts@.len() == i,
            forall|j: int| 0 <= j < i ==> (#[trigger] keys_felts@[j])@ == pad32(ev.keys@[j]@),
        decreases nk - i,
    {
        keys_felts.push(Felt252::from_bytes_be(&ev.keys[i]));
        i += 1;
    }
    let mut data_felts: Vec<Felt252> = Vec::new();
    let mut d: usize = 0;
    while d < nd
        invariant
            d <= nd,
            nd == ev.data@.len(),
            addr_matches(ev.from_address@, target@),
            !event_oversized(*ev),
            forall|j: int| 0 <= j < nd ==> (#[trigger] ev.data@[j])@.len() <= 32,
            nk == ev.keys@.len(),
            keys_felts@.len() == nk,
            forall|j: int| 0 <= j < nk ==> (#[trigger] keys_felts@[j])@ == pad32(ev.keys@[j]@),
            data_felts@.len() == d,
            forall|j: int| 0 <= j < d ==> (#[trigger] data_felts@[j])@ == pad32(ev.data@[j]@),
        decreases nd - d,
    {
        data_felts.push(Felt252::from_bytes_be(&ev.data[d]));
        d += 1;
    }
    let emitted = EmittedEvent {
        from_address: from_felt,
        keys: keys_felts,
        data: data_felts,
        block_hash: Option::None,
        block_number: Option::None,
        transaction_hash: Option::None,
    };
    proof {
        assert(felt_seq_view(emitted.keys@) =~= padded_keys(*ev));
        assert(felt_seq_view(emitted.data@) =~= padded_data(*ev));
    }
    match decode_event(&emitted) {
        Option::Some(DecodedEvent::MerchantCreated { merchant, points_contract }) => {
            assert(merchant@ == padded_keys(*ev)[1]);
            assert(merchant.wf());
            assert(points_contract.wf());
            let rec = OutputRecord {
                merchant_address: merchant.to_fixed_hex(),
                points_contract: points_contract.to_fixed_hex(),
            };
            Result::Ok(Option::Some(rec))
        },
        _ => Result::Ok(Option::None),
    }
}

/// The transaction-to-event extraction pipeline: scans every event of every
/// transaction's receipt in order, keeps those emitted by the target address
/// that decode as the entity-creation variant, and projects each into an
/// output record. Aborts the whole invocation, returning no partial output, on
/// a transaction without a receipt or a matched event with a byte array wider
/// than the scalar field.
pub fn map_factory_events(batch: &TransactionBatch, target: &str) -> (r: Result<
    OutputBatch,
    Error,
>)
    ensures
        result_view(r) == spec_map_factory_events(*batch, target@),
{
    let mut out: Vec<OutputRecord> = Vec::new();
    let ntx = batch.transactions.len();
    let mut t: usize = 0;
    proof {
        assert(batch.transactions@.take(0) =~= Seq::<Transaction>::empty());
        assert(out@.map_values(|rec: OutputRecord| rec@) =~= Seq::<OutputRecordModel>::empty());
    }
    while t < ntx
        invariant
            t <= ntx,
            ntx == batch.transactions@.len(),
            outputs_of_txs(batch.transactions@.take(t as int), target@) == Result::<
                Seq<OutputRecordModel>,
                Error,
            >::Ok(out@.map_values(|rec: OutputRecord| rec@)),
        decreases ntx - t,
    {
        let tx = &batch.transactions[t];
        proof {
            assert(batch.transactions@.take(t as int).push(*tx) =~= batch.transactions@.take(
                t as int + 1,
            ));
        }
        match &tx.receipt {
            Option::None => {
                proof {
                    lemma_outputs_of_txs_snoc(batch.transactions@.take(t as int), *tx, target@);
                    lemma_outputs_of_txs_extend_err(
                        batch.transactions@,
                        t as int + 1,
                        Error::MissingReceipt,
                        target@,
                    );
                }
                return Result::Err(Error::MissingReceipt);
            },
            Option::Some(receipt) => {
                let ghost base = out@.map_values(|rec: OutputRecord| rec@);
                let nev = receipt.events.len();
                let mut j: usize = 0;
                while j < nev
                    invariant
                        j <= nev,
                        nev == receipt.events@.len(),
                        outputs_of_events(receipt.events@.take(j as int), target@) is Ok,
                        out@.map_values(|rec: OutputRecord| rec@) == base + outputs_of_events(
                            receipt.events@.take(j as int),
                            target@,
                        )->Ok_0,
                        outputs_of_txs(batch.transactions@.take(t as int), target@) == Result::<
                            Seq<OutputRecordModel>,
                            Error,
                        >::Ok(base),
                        t < ntx,
                        ntx == batch.transactions@.len(),
                        *tx == batch.transactions@[t as int],
                        tx.receipt == Option::Some(*receipt),
                    decreases nev - j,
                {
                    let ev = &receipt.events[j];
                    proof {
                        assert(receipt.events@.take(j as int).push(*ev) =~= receipt.events@.take(
                            j as int + 1,
                        ));
                        lemma_outputs_of_events_snoc(
                            receipt.events@.take(j as int),
                            *ev,
                            target@,
                        );
                    }
                    match process_event(ev, target) {
                        Result::Err(e) => {
                            proof {
                                assert(batch.transactions@.take(t as int).push(*tx)
                                    =~= batch.transactions@.take(t as int + 1));
                                lemma_outputs_of_events_extend_err(
                                    receipt.events@,
                                    j as int + 1,
                                    e,
                                    target@,
                                );
                                lemma_outputs_of_txs_snoc(
                                    batch.transactions@.take(t as int),
                                    *tx,
                                    target@,
                                );
                                lemma_outputs_of_txs_extend_err(
                                    batch.transactions@,
                                    t as int + 1,
                                    e,
                                    target@,
                                );
                            }
                            return Result::Err(e);
                        },
                        Result::Ok(Option::None) => {},
                        Result::Ok(Option::Some(rec)) => {
                            let ghost prev = out@;
                            out.push(rec);
                            proof {
                                assert(out@.map_values(|r2: OutputRecord| r2@) =~= prev.map_values(
                                    |r2: OutputRecord| r2@,
                                ).push(rec@));
                                assert(out@.map_values(|r2: OutputRecord| r2@) =~= base
                                    + outputs_of_events(
                                    receipt.events@.take(j as int + 1),
                                    target@,
                                )->Ok_0);
                            }
                        },
                    }
                    j += 1;
                }
                proof {
                    assert(receipt.events@.take(nev as int) =~= receipt.events@);
                    assert(batch.transactions@.take(t as int).push(*tx)
                        =~= batch.transactions@.take(t as int + 1));
                    lemma_outputs_of_txs_snoc(batch.transactions@.take(t as int), *tx, target@);
                }
            },
        }
        t += 1;
    }
    proof {
        assert(batch.transactions@.take(ntx as int) =~= batch.transactions@);
    }
    let result = OutputBatch { merchant_contracts: out };
    Result::Ok(result)
}

} // verus!
