//! Which fetched records a run writes, which it caches as future, and where
//! the cursor stands afterwards.

use crate::time::Timestamp;
use crate::types::{views_of, SpotPrice, SpotPriceView, State, StateView};
use vstd::prelude::*;
use vstd::string::StringExecFns;

verus! {

/// A record is new when no earlier run left a cursor, or when its window
/// starts after the cursor.
pub open spec fn is_new(cursor: Option<Timestamp>, record: SpotPriceView) -> bool {
    match cursor {
        Some(c) => record.from.is_after(c),
        None => true,
    }
}

/// A record is future when its window ends after `now`.
pub open spec fn is_future(now: Timestamp, record: SpotPriceView) -> bool {
    record.till.is_after(now)
}

pub open spec fn new_under(cursor: Option<Timestamp>) -> spec_fn(SpotPriceView) -> bool {
    |r: SpotPriceView| is_new(cursor, r)
}

pub open spec fn future_at(now: Timestamp) -> spec_fn(SpotPriceView) -> bool {
    |r: SpotPriceView| is_future(now, r)
}

/// The new records among `records`, in their order.
pub open spec fn new_records(cursor: Option<Timestamp>, records: Seq<SpotPriceView>) -> Seq<
    SpotPriceView,
> {
    records.filter(new_under(cursor))
}

/// The future records among `records`, in their order.
pub open spec fn future_records(now: Timestamp, records: Seq<SpotPriceView>) -> Seq<
    SpotPriceView,
> {
    records.filter(future_at(now))
}

/// The cursor that a progress document holds, if there is one.
pub open spec fn cursor_of(previous: Option<StateView>) -> Option<Timestamp> {
    match previous {
        Some(state) => Some(state.last_from),
        None => None,
    }
}

/// The document that a run persists once every new record is written: none
/// where nothing was new; else the window start of the record written last,
/// with all future records of the run.
pub open spec fn state_to_write(
    now: Timestamp,
    cursor: Option<Timestamp>,
    records: Seq<SpotPriceView>,
) -> Option<StateView> {
    let written = new_records(cursor, records);
    if written.len() > 0 {
        Some(
            StateView {
                future_spot_prices: future_records(now, records),
                last_from: written.last().from,
            },
        )
    } else {
        None
    }
}

/// The document in the store after a successful run that found `previous` there.
pub open spec fn state_after(
    now: Timestamp,
    previous: Option<StateView>,
    records: Seq<SpotPriceView>,
) -> Option<StateView> {
    match state_to_write(now, cursor_of(previous), records) {
        Some(state) => Some(state),
        None => previous,
    }
}

/// `record` with the identifier and the source tag that a run gives it.
pub open spec fn stamped(record: SpotPriceView, id: Seq<char>, source: Seq<char>) -> SpotPriceView {
    SpotPriceView { id: Some(id), source: Some(source), ..record }
}

/// `records`, the i-th stamped with the i-th identifier.
pub open spec fn stamp_each(
    records: Seq<SpotPriceView>,
    ids: Seq<Seq<char>>,
    source: Seq<char>,
) -> Seq<SpotPriceView> {
    Seq::new(records.len(), |i: int| stamped(records[i], ids[i], source))
}

/// What a list of texts holds.
pub open spec fn texts_of(texts: Seq<String>) -> Seq<Seq<char>> {
    texts.map_values(|s: String| s@)
}

/// What an optional document holds.
pub open spec fn state_view(state: Option<State>) -> Option<StateView> {
    match state {
        Some(s) => Some(s@),
        None => None,
    }
}

/// Gives a fetched record its identifier and source tag.
pub fn stamp(record: &SpotPrice, id: String, source: &str) -> (out: SpotPrice)
    ensures
        out@ == stamped(record@, id@, source@),
{
    SpotPrice {
        id: Some(id),
        source: Some(String::from_str(source)),
        from: record.from,
        till: record.till,
        market_price: record.market_price,
        market_price_tax: record.market_price_tax,
        sourcing_markup_price: record.sourcing_markup_price,
        energy_tax_price: record.energy_tax_price,
    }
}

/// Stamps each record with the identifier at its index.
pub(crate) fn stamp_all(records: &Vec<SpotPrice>, ids: &Vec<String>, source: &str) -> (out: Vec<
    SpotPrice,
>)
    requires
        ids.len() >= records.len(),
    ensures
        views_of(out@) == stamp_each(views_of(records@), texts_of(ids@), source@),
{
    let mut out: Vec<SpotPrice> = Vec::new();
    let mut i: usize = 0;
    while i < records.len()
        invariant
            i <= records.len(),
            ids.len() >= records.len(),
            out.len() == i,
            forall|k: int|
                0 <= k < i ==> (#[trigger] out@[k])@ == stamped(
                    records@[k]@,
                    ids@[k]@,
                    source@,
                ),
        decreases records.len() - i,
    {
        out.push(stamp(&records[i], ids[i].clone(), source));
        i += 1;
    }
    assert(views_of(out@) =~= stamp_each(views_of(records@), texts_of(ids@), source@));
    out
}

/// What one run does with the records it fetched.
#[derive(Debug, PartialEq, Eq)]
pub struct RunPlan {
    /// The records to write, in this order.
    pub writes: Vec<SpotPrice>,
    /// The document to persist after the last write; `None` leaves the store untouched.
    pub state: Option<State>,
}

/// Sorts the stamped records of one run into those to write and those to
/// cache, with respect to the cursor of the previous run and to `now`.
pub fn plan_run(now: Timestamp, cursor: Option<Timestamp>, records: &Vec<SpotPrice>) -> (plan:
    RunPlan)
    ensures
        views_of(plan.writes@) == new_records(cursor, views_of(records@)),
        state_view(plan.state) == state_to_write(now, cursor, views_of(records@)),
{
    let ghost all = views_of(records@);
    let mut writes: Vec<SpotPrice> = Vec::new();
    let mut future: Vec<SpotPrice> = Vec::new();
    let mut last_from: Option<Timestamp> = None;
    let mut i: usize = 0;
    proof {
        reveal(Seq::filter);
        assert(all.take(0).len() == 0);
        assert(views_of(writes@) =~= new_records(cursor, all.take(0)));
        assert(views_of(future@) =~= future_records(now, all.take(0)));
    }
    while i < records.len()
        invariant
            i <= records.len(),
            all == views_of(records@),
            views_of(writes@) == new_records(cursor, all.take(i as int)),
            views_of(future@) == future_records(now, all.take(i as int)),
            last_from == if writes@.len() > 0 {
                Some(writes@.last().from)
            } else {
                None::<Timestamp>
            },
        decreases records.len() - i,
    {
        let record = &records[i];
        proof {
            assert(all.take(i as int).push(record@) =~= all.take(i + 1));
            all.take(i as int).lemma_filter_push(record@, new_under(cursor));
            all.take(i as int).lemma_filter_push(record@, future_at(now));
        }
        if record.till.after(&now) {
            let ghost before = future@;
            future.push(record.clone());
            assert(views_of(future@) =~= views_of(before).push(record@));
        }
        let fresh = match cursor {
            Some(c) => record.from.after(&c),
            None => true,
        };
        if fresh {
            let ghost before = writes@;
            writes.push(record.clone());
            last_from = Some(record.from);
            assert(views_of(writes@) =~= views_of(before).push(record@));
        }
        i += 1;
    }
    proof {
        assert(all.take(records.len() as int) =~= all);
    }
    let state = match last_from {
        Some(cursor_after) => Some(State { future_spot_prices: future, last_from: cursor_after }),
        None => None,
    };
    RunPlan { writes, state }
}

/// The records come in the order of their window starts, none before an earlier one.
pub open spec fn chronological(records: Seq<SpotPriceView>) -> bool {
    forall|i: int, j: int|
        0 <= i <= j < records.len() ==> (#[trigger] records[j]).from.is_at_or_after(
            (#[trigger] records[i]).from,
        )
}

/// Nothing is new exactly when no record passes the test.
pub proof fn lemma_nothing_new(cursor: Option<Timestamp>, records: Seq<SpotPriceView>)
    ensures
        new_records(cursor, records).len() == 0 <==> forall|i: int|
            0 <= i < records.len() ==> !is_new(cursor, #[trigger] records[i]),
    decreases records.len(),
{
    reveal(Seq::filter);
    if records.len() > 0 {
        lemma_nothing_new(cursor, records.drop_last());
        if new_records(cursor, records).len() == 0 {
            assert forall|i: int| 0 <= i < records.len() implies !is_new(
                cursor,
                #[trigger] records[i],
            ) by {
                if i < records.len() - 1 {
                    assert(records.drop_last()[i] == records[i]);
                }
            }
        } else {
            if forall|i: int| 0 <= i < records.len() ==> !is_new(cursor, #[trigger] records[i]) {
                assert forall|i: int| 0 <= i < records.drop_last().len() implies !is_new(
                    cursor,
                    #[trigger] records.drop_last()[i],
                ) by {
                    assert(records.drop_last()[i] == records[i]);
                }
                assert(!is_new(cursor, records[records.len() - 1]));
            }
        }
    }
}

/// Dedup: a fetched record is among the writes of a run if and only if no
/// earlier run left a cursor or its window starts after that cursor; and
/// nothing else is written.
pub proof fn lemma_written_iff_new(cursor: Option<Timestamp>, records: Seq<SpotPriceView>)
    ensures
        forall|i: int|
            0 <= i < records.len() ==> (new_records(cursor, records).contains(
                #[trigger] records[i],
            ) <==> is_new(cursor, records[i])),
        forall|k: int|
            0 <= k < new_records(cursor, records).len() ==> records.contains(
                #[trigger] new_records(cursor, records)[k],
            ),
{
    let written = new_records(cursor, records);
    assert forall|i: int| 0 <= i < records.len() implies (written.contains(#[trigger] records[i])
        <==> is_new(cursor, records[i])) by {
        if is_new(cursor, records[i]) {
            records.lemma_filter_contains(new_under(cursor), i);
        }
        if written.contains(records[i]) {
            let k = choose|k: int| 0 <= k < written.len() && written[k] == records[i];
            records.lemma_filter_pred(new_under(cursor), k);
        }
    }
    assert forall|k: int| 0 <= k < written.len() implies records.contains(
        #[trigger] written[k],
    ) by {
        assert(written.contains(written[k]));
        records.lemma_filter_contains_rev(new_under(cursor), written[k]);
    }
}

/// Future classification: a fetched record is cached in the document that a
/// run persists if and only if its window ends after `now`; and nothing else
/// is cached.
pub proof fn lemma_cached_iff_future(
    now: Timestamp,
    cursor: Option<Timestamp>,
    records: Seq<SpotPriceView>,
)
    requires
        state_to_write(now, cursor, records) is Some,
    ensures
        forall|i: int|
            0 <= i < records.len() ==> (state_to_write(
                now,
                cursor,
                records,
            )->0.future_spot_prices.contains(#[trigger] records[i]) <==> is_future(
                now,
                records[i],
            )),
        forall|k: int|
            0 <= k < state_to_write(now, cursor, records)->0.future_spot_prices.len()
                ==> records.contains(
                #[trigger] state_to_write(now, cursor, records)->0.future_spot_prices[k],
            ),
{
    let cached = future_records(now, records);
    assert(state_to_write(now, cursor, records)->0.future_spot_prices == cached);
    assert forall|i: int| 0 <= i < records.len() implies (cached.contains(#[trigger] records[i])
        <==> is_future(now, records[i])) by {
        if is_future(now, records[i]) {
            records.lemma_filter_contains(future_at(now), i);
        }
        if cached.contains(records[i]) {
            let k = choose|k: int| 0 <= k < cached.len() && cached[k] == records[i];
            records.lemma_filter_pred(future_at(now), k);
        }
    }
    assert forall|k: int| 0 <= k < cached.len() implies records.contains(#[trigger] cached[k]) by {
        assert(cached.contains(cached[k]));
        records.lemma_filter_contains_rev(future_at(now), cached[k]);
    }
}

/// Monotonicity: a successful run never moves the cursor back. Where a
/// document was there before, one is there after, with a cursor at or after
/// the old one; where none was there and nothing was written, none is there.
pub proof fn lemma_cursor_never_moves_back(
    now: Timestamp,
    previous: Option<StateView>,
    records: Seq<SpotPriceView>,
)
    ensures
        previous is Some ==> state_after(now, previous, records) is Some && state_after(
            now,
            previous,
            records,
        )->0.last_from.is_at_or_after(previous->0.last_from),
        previous is None && new_records(None, records).len() == 0 ==> state_after(
            now,
            previous,
            records,
        ) is None,
        state_after(now, previous, records) != previous ==> new_records(
            cursor_of(previous),
            records,
        ).len() > 0,
{
    let cursor = cursor_of(previous);
    let written = new_records(cursor, records);
    if written.len() > 0 {
        records.lemma_filter_pred(new_under(cursor), written.len() - 1);
    }
}

/// The writes of a run over records in chronological order end with the
/// last fetched record, if anything is written at all.
pub proof fn lemma_last_write_is_last_record(
    cursor: Option<Timestamp>,
    records: Seq<SpotPriceView>,
)
    requires
        chronological(records),
        new_records(cursor, records).len() > 0,
    ensures
        new_records(cursor, records).last() == records.last(),
        records.len() > 0,
{
    reveal(Seq::filter);
    lemma_nothing_new(cursor, records);
    let i = choose|i: int| 0 <= i < records.len() && is_new(cursor, #[trigger] records[i]);
    assert(records[records.len() - 1].from.is_at_or_after(records[i].from));
    assert(is_new(cursor, records.last()));
}

/// Idempotence: a second run over the same fetched records, in chronological
/// order, after a first run that succeeded, writes nothing. The identifiers
/// of the two runs differ; the clock may have moved.
pub proof fn lemma_second_run_writes_nothing(
    now: Timestamp,
    previous: Option<StateView>,
    fetched: Seq<SpotPriceView>,
    first_ids: Seq<Seq<char>>,
    second_ids: Seq<Seq<char>>,
    source: Seq<char>,
)
    requires
        chronological(fetched),
    ensures
        new_records(
            cursor_of(state_after(now, previous, stamp_each(fetched, first_ids, source))),
            stamp_each(fetched, second_ids, source),
        ).len() == 0,
{
    let first = stamp_each(fetched, first_ids, source);
    let second = stamp_each(fetched, second_ids, source);
    let cursor = cursor_of(previous);
    let after = cursor_of(state_after(now, previous, first));
    assert forall|i: int, j: int| 0 <= i <= j < first.len() implies (#[trigger] first[j])
        .from.is_at_or_after((#[trigger] first[i]).from) by {
        assert(fetched[j].from.is_at_or_after(fetched[i].from));
    }
    lemma_nothing_new(cursor, first);
    lemma_nothing_new(after, second);
    if new_records(cursor, first).len() > 0 {
        lemma_last_write_is_last_record(cursor, first);
        assert forall|i: int| 0 <= i < second.len() implies !is_new(
            after,
            #[trigger] second[i],
        ) by {
            assert(first[first.len() - 1].from.is_at_or_after(first[i].from));
        }
    } else {
        assert forall|i: int| 0 <= i < second.len() implies !is_new(
            after,
            #[trigger] second[i],
        ) by {
            assert(!is_new(cursor, first[i]));
        }
    }
}

} // verus!
