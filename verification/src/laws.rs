use vstd::prelude::*;
use crate::hex::{be_val, hex_digits, lemma_hex_of_bytes_is_digits};
use crate::events::{EventRecord, Transaction, TransactionBatch, Error, OutputRecordModel,
    OutputBatch};
use crate::decode::{spec_decode, DecodedEventModel};
use crate::pipeline::{addr_matches, event_oversized, event_outcome, padded_keys, padded_data,
    outputs_of_events, outputs_of_txs, spec_map_factory_events, result_view};

verus! {

/// An event whose address, rendered as unprefixed hex digits, does not equal
/// the target address (case-insensitively) contributes no output record and no
/// error.
pub proof fn lemma_non_matching_address_yields_nothing(ev: EventRecord, target: Seq<char>)
    requires
        !addr_matches(ev.from_address@, target),
    ensures
        event_outcome(ev, target) == Result::<Option<OutputRecordModel>, Error>::Ok(
            Option::<OutputRecordModel>::None,
        ),
{
}

/// An event from the target address that decodes as a variant other than
/// entity-creation contributes no output record and no error.
pub proof fn lemma_other_variant_yields_nothing(ev: EventRecord, target: Seq<char>)
    requires
        addr_matches(ev.from_address@, target),
        !event_oversized(ev),
        spec_decode(padded_keys(ev), padded_data(ev)) is Some,
        !(spec_decode(padded_keys(ev), padded_data(ev))->0 is MerchantCreated),
    ensures
        event_outcome(ev, target) == Result::<Option<OutputRecordModel>, Error>::Ok(
            Option::<OutputRecordModel>::None,
        ),
{
}

/// An event from the target address whose decode fails — unrecognized selector,
/// or key/data counts that mismatch the variant's declared layout — contributes
/// no output record and no error.
pub proof fn lemma_decode_failure_yields_nothing(ev: EventRecord, target: Seq<char>)
    requires
        addr_matches(ev.from_address@, target),
        !event_oversized(ev),
        spec_decode(padded_keys(ev), padded_data(ev)) is None,
    ensures
        event_outcome(ev, target) == Result::<Option<OutputRecordModel>, Error>::Ok(
            Option::<OutputRecordModel>::None,
        ),
{
}

/// A well-formed entity-creation event with scalar field values `m` (the
/// merchant) and `p` (the points contract) contributes exactly one output
/// record: each field is the `0x`-prefixed base-16 digit string of the scalar's
/// value, zero-padded to 64 digits.
pub proof fn lemma_entity_creation_projection(
    ev: EventRecord,
    target: Seq<char>,
    m: Seq<u8>,
    p: Seq<u8>,
)
    requires
        addr_matches(ev.from_address@, target),
        !event_oversized(ev),
        spec_decode(padded_keys(ev), padded_data(ev)) == Option::Some(
            DecodedEventModel::MerchantCreated { merchant: m, points_contract: p },
        ),
    ensures
        event_outcome(ev, target) == Result::<Option<OutputRecordModel>, Error>::Ok(
            Option::Some(
                OutputRecordModel {
                    merchant_address: seq!['0', 'x'] + hex_digits(be_val(m), 64),
                    points_contract: seq!['0', 'x'] + hex_digits(be_val(p), 64),
                },
            ),
        ),
{
    assert(m == padded_keys(ev)[1]);
    assert(p == padded_data(ev)[0]);
    assert(m.len() == 32);
    assert(p.len() == 32);
    lemma_hex_of_bytes_is_digits(m);
    lemma_hex_of_bytes_is_digits(p);
}

/// Idempotence: the result of an invocation is a function of the batch and the
/// target alone, so processing the same batch twice produces identical output
/// contents — no hidden state can affect the result.
pub proof fn lemma_idempotent(
    batch: TransactionBatch,
    target: Seq<char>,
    r1: Result<OutputBatch, Error>,
    r2: Result<OutputBatch, Error>,
)
    requires
        result_view(r1) == spec_map_factory_events(batch, target),
        result_view(r2) == spec_map_factory_events(batch, target),
    ensures
        result_view(r1) == result_view(r2),
{
}

/// Every event record of every transaction's receipt, in transaction order
/// then in-receipt event order.
pub open spec fn all_events(txs: Seq<Transaction>) -> Seq<EventRecord>
    decreases txs.len(),
{
    if txs.len() == 0 {
        Seq::empty()
    } else if txs[0].receipt is Some {
        txs[0].receipt->0.events@ + all_events(txs.drop_first())
    } else {
        all_events(txs.drop_first())
    }
}

/// The output records contributed by a sequence of events, in order, counting
/// only successful entity-creation decodes.
pub open spec fn emitted_records(events: Seq<EventRecord>, target: Seq<char>) -> Seq<
    OutputRecordModel,
>
    decreases events.len(),
{
    if events.len() == 0 {
        Seq::empty()
    } else {
        (match event_outcome(events[0], target) {
            Result::Ok(Option::Some(mdl)) => seq![mdl],
            _ => Seq::empty(),
        }) + emitted_records(events.drop_first(), target)
    }
}

proof fn lemma_emitted_records_concat(a: Seq<EventRecord>, b: Seq<EventRecord>, target: Seq<char>)
    ensures
        emitted_records(a + b, target) == emitted_records(a, target) + emitted_records(b, target),
    decreases a.len(),
{
    if a.len() == 0 {
        assert(a + b =~= b);
        assert(Seq::<OutputRecordModel>::empty() + emitted_records(b, target) =~= emitted_records(
            b,
            target,
        ));
        assert(emitted_records(a, target) =~= Seq::<OutputRecordModel>::empty());
    } else {
        assert((a + b)[0] == a[0]);
        assert((a + b).drop_first() =~= a.drop_first() + b);
        lemma_emitted_records_concat(a.drop_first(), b, target);
        let head = match event_outcome(a[0], target) {
            Result::Ok(Option::Some(mdl)) => seq![mdl],
            _ => Seq::<OutputRecordModel>::empty(),
        };
        assert(head + (emitted_records(a.drop_first(), target) + emitted_records(b, target)) =~= (
        head + emitted_records(a.drop_first(), target)) + emitted_records(b, target));
    }
}

proof fn lemma_events_order(events: Seq<EventRecord>, target: Seq<char>, out: Seq<OutputRecordModel>)
    requires
        outputs_of_events(events, target) == Result::<Seq<OutputRecordModel>, Error>::Ok(out),
    ensures
        out == emitted_records(events, target),
    decreases events.len(),
{
    if events.len() == 0 {
        assert(out =~= emitted_records(events, target));
    } else {
        let oc = event_outcome(events[0], target);
        let rest = outputs_of_events(events.drop_first(), target);
        lemma_events_order(events.drop_first(), target, rest->Ok_0);
        if oc->Ok_0 is Some {
            assert(out =~= seq![oc->Ok_0->0] + rest->Ok_0);
        } else {
            assert(out =~= Seq::<OutputRecordModel>::empty() + rest->Ok_0);
        }
        assert(out =~= emitted_records(events, target));
    }
}

/// Order preservation: when an invocation succeeds, its output records are
/// exactly those contributed by the batch's events taken in transaction order,
/// then in-receipt event order.
pub proof fn lemma_order_preservation(
    batch: TransactionBatch,
    target: Seq<char>,
    out: Seq<OutputRecordModel>,
)
    requires
        spec_map_factory_events(batch, target) == Result::<Seq<OutputRecordModel>, Error>::Ok(out),
    ensures
        out == emitted_records(all_events(batch.transactions@), target),
{
    lemma_txs_order(batch.transactions@, target, out);
}

proof fn lemma_emitted_records_witness(events: Seq<EventRecord>, target: Seq<char>, k: int)
    requires
        0 <= k < emitted_records(events, target).len(),
    ensures
        exists|i: int|
            0 <= i < events.len() && #[trigger] event_outcome(events[i], target) == Result::<
                Option<OutputRecordModel>,
                Error,
            >::Ok(Option::Some(emitted_records(events, target)[k])),
    decreases events.len(),
{
    let head = match event_outcome(events[0], target) {
        Result::Ok(Option::Some(mdl)) => seq![mdl],
        _ => Seq::<OutputRecordModel>::empty(),
    };
    if k < head.len() {
        assert(event_outcome(events[0], target) == Result::<
            Option<OutputRecordModel>,
            Error,
        >::Ok(Option::Some(emitted_records(events, target)[k])));
    } else {
        lemma_emitted_records_witness(events.drop_first(), target, k - head.len());
        let i0 = choose|i: int|
            0 <= i < events.drop_first().len() && #[trigger] event_outcome(
                events.drop_first()[i],
                target,
            ) == Result::<Option<OutputRecordModel>, Error>::Ok(
                Option::Some(emitted_records(events.drop_first(), target)[k - head.len()]),
            );
        assert(events.drop_first()[i0] == events[i0 + 1]);
        assert(event_outcome(events[i0 + 1], target) == Result::<
            Option<OutputRecordModel>,
            Error,
        >::Ok(Option::Some(emitted_records(events, target)[k])));
    }
}

/// Every output record of a successful invocation stems from an event of the
/// batch whose address matched the target and which decoded as the
/// entity-creation variant: events from non-matching addresses, events that
/// fail to decode, and other variants never appear in the output.
pub proof fn lemma_records_stem_from_entity_creation(
    batch: TransactionBatch,
    target: Seq<char>,
    out: Seq<OutputRecordModel>,
    k: int,
)
    requires
        spec_map_factory_events(batch, target) == Result::<Seq<OutputRecordModel>, Error>::Ok(out),
        0 <= k < out.len(),
    ensures
        exists|i: int|
            0 <= i < all_events(batch.transactions@).len() && addr_matches(
                all_events(batch.transactions@)[i].from_address@,
                target,
            ) && spec_decode(
                padded_keys(all_events(batch.transactions@)[i]),
                padded_data(all_events(batch.transactions@)[i]),
            ) is Some && spec_decode(
                padded_keys(all_events(batch.transactions@)[i]),
                padded_data(all_events(batch.transactions@)[i]),
            )->0 is MerchantCreated && #[trigger] event_outcome(
                all_events(batch.transactions@)[i],
                target,
            ) == Result::<Option<OutputRecordModel>, Error>::Ok(Option::Some(out[k])),
{
    let evs = all_events(batch.transactions@);
    lemma_order_preservation(batch, target, out);
    lemma_emitted_records_witness(evs, target, k);
    let i0 = choose|i: int|
        0 <= i < evs.len() && #[trigger] event_outcome(evs[i], target) == Result::<
            Option<OutputRecordModel>,
            Error,
        >::Ok(Option::Some(out[k]));
    assert(addr_matches(evs[i0].from_address@, target));
    assert(spec_decode(padded_keys(evs[i0]), padded_data(evs[i0])) is Some);
    assert(spec_decode(padded_keys(evs[i0]), padded_data(evs[i0]))->0 is MerchantCreated);
}

proof fn lemma_txs_order(txs: Seq<Transaction>, target: Seq<char>, out: Seq<OutputRecordModel>)
    requires
        outputs_of_txs(txs, target) == Result::<Seq<OutputRecordModel>, Error>::Ok(out),
    ensures
        out == emitted_records(all_events(txs), target),
    decreases txs.len(),
{
    if txs.len() == 0 {
        assert(out =~= emitted_records(all_events(txs), target));
    } else {
        let events = txs[0].receipt->0.events@;
        let head = outputs_of_events(events, target);
        let rest = outputs_of_txs(txs.drop_first(), target);
        lemma_events_order(events, target, head->Ok_0);
        lemma_txs_order(txs.drop_first(), target, rest->Ok_0);
        lemma_emitted_records_concat(events, all_events(txs.drop_first()), target);
        assert(out =~= emitted_records(all_events(txs), target));
    }
}

} // verus!
