//! What holds of every bridge, stated over the bridge's states.

use vstd::prelude::*;
use crate::bridge::{BridgeError, BridgeState, Handoff, HandoffMode};
use crate::level::Level;
use crate::record::{entry_of, LogRecordView};

verus! {

/// The hand-off of `record` to `consumer`.
pub open spec fn handoff_to<C>(consumer: C, record: LogRecordView) -> Handoff<C> {
    Handoff { consumer, entry: entry_of(record), mode: HandoffMode::Blocking }
}

/// A record whose target begins with the bridge's own namespace reaches the
/// registered consumer, whatever its severity.
pub proof fn law_own_namespace_is_delivered<C>(state: BridgeState<C>, record: LogRecordView)
    requires
        state.namespace.is_prefix_of(record.target),
        state.consumer is Some,
    ensures
        state.emit(record) == Some(handoff_to(state.consumer->0, record)),
{
}

/// A record whose target lies outside the bridge's namespace and whose
/// severity is below `Info` does not reach the consumer.
pub proof fn law_foreign_low_severity_is_dropped<C>(state: BridgeState<C>, record: LogRecordView)
    requires
        !state.namespace.is_prefix_of(record.target),
        !record.level.at_least(Level::Info),
    ensures
        state.emit(record) is None,
{
}

/// A record of severity `Info` or above reaches the registered consumer,
/// whatever its target.
pub proof fn law_info_or_above_is_delivered<C>(state: BridgeState<C>, record: LogRecordView)
    requires
        record.level.at_least(Level::Info),
        state.consumer is Some,
    ensures
        state.emit(record) == Some(handoff_to(state.consumer->0, record)),
{
}

/// While no consumer is registered, `emit` hands nothing off, for one record
/// and for any run of records. (`emit` has no other effect: it reads the
/// bridge and cannot change it.)
pub proof fn law_no_consumer_no_handoff<C>(state: BridgeState<C>, records: Seq<LogRecordView>)
    requires
        state.consumer is None,
    ensures
        forall|record: LogRecordView| #[trigger] state.emit(record) is None,
        state.observed(records) == Seq::<Handoff<C>>::empty(),
    decreases records.len(),
{
    if records.len() > 0 {
        law_no_consumer_no_handoff(state, records.drop_last());
    }
}

/// A bridge that was never installed hands nothing off.
pub proof fn law_uninstalled_bridge_is_silent<C>(state: BridgeState<C>, record: LogRecordView)
    requires
        state.wf(),
        !state.installed,
    ensures
        state.emit(record) is None,
{
}

/// The hand-offs decided for the first `n` records of a run begin the
/// hand-offs decided for the whole run.
pub proof fn lemma_observed_prefix<C>(state: BridgeState<C>, records: Seq<LogRecordView>, n: int)
    requires
        0 <= n <= records.len(),
    ensures
        state.observed(records.take(n)).is_prefix_of(state.observed(records)),
    decreases records.len(),
{
    if n == records.len() {
        assert(records.take(n) =~= records);
    } else {
        let before = records.drop_last();
        lemma_observed_prefix(state, before, n);
        assert(before.take(n) =~= records.take(n));
    }
}

/// The hand-off of the record at `index` stands in the run's hand-offs right
/// after those of the records before it.
pub proof fn lemma_observed_at<C>(state: BridgeState<C>, records: Seq<LogRecordView>, index: int)
    requires
        0 <= index < records.len(),
        state.emit(records[index]) is Some,
    ensures
        state.observed(records.take(index + 1)) == state.observed(records.take(index)).push(
            state.emit(records[index])->0,
        ),
        state.observed(records.take(index)).len() < state.observed(records).len(),
        state.observed(records)[state.observed(records.take(index)).len() as int] == state.emit(
            records[index],
        )->0,
{
    let upto = records.take(index + 1);
    assert(upto.drop_last() =~= records.take(index));
    assert(upto.last() == records[index]);
    lemma_observed_prefix(state, records, index + 1);
    let p = state.observed(records.take(index)).len() as int;
    assert(state.observed(upto)[p] == state.emit(records[index])->0);
}

/// Records reach the consumer in the order in which they were issued: of two
/// forwarded records of a run, the one issued first is handed off first.
/// `records` is the run of `emit` calls in the order in which they take the
/// consumer slot; a producer waits for each hand-off before it issues its next
/// record, so its own records stand in the run in the order issued. Between
/// the records of different producers the run fixes no order beforehand.
pub proof fn law_delivery_in_issue_order<C>(
    state: BridgeState<C>,
    records: Seq<LogRecordView>,
    first: int,
    second: int,
)
    requires
        0 <= first < second < records.len(),
        state.emit(records[first]) is Some,
        state.emit(records[second]) is Some,
    ensures
        ({
            let p = state.observed(records.take(first)).len() as int;
            let q = state.observed(records.take(second)).len() as int;
            &&& 0 <= p < q < state.observed(records).len()
            &&& state.observed(records)[p] == state.emit(records[first])->0
            &&& state.observed(records)[q] == state.emit(records[second])->0
        }),
{
    lemma_observed_at(state, records, first);
    lemma_observed_at(state, records, second);
    let upto = records.take(second);
    lemma_observed_prefix(state, upto, first + 1);
    assert(upto.take(first + 1) =~= records.take(first + 1));
}

/// Of two records issued one after the other, both forwarded, the consumer
/// receives exactly the two entries, the first record's first.
pub proof fn law_two_emits_in_order<C>(state: BridgeState<C>, a: LogRecordView, b: LogRecordView)
    requires
        state.emit(a) is Some,
        state.emit(b) is Some,
    ensures
        state.observed(seq![a, b]) == seq![
            handoff_to(state.consumer->0, a),
            handoff_to(state.consumer->0, b),
        ],
{
    let both = seq![a, b];
    let one = both.drop_last();
    assert(one =~= seq![a]);
    assert(one.drop_last() =~= Seq::<LogRecordView>::empty());
    assert(state.observed(one.drop_last()) =~= Seq::<Handoff<C>>::empty());
    assert(state.observed(one) =~= seq![handoff_to(state.consumer->0, a)]);
    assert(state.observed(both) =~= seq![
        handoff_to(state.consumer->0, a),
        handoff_to(state.consumer->0, b),
    ]);
}

/// A second `install` reports `AlreadyInitialized` and changes nothing: the
/// bridge stays installed and keeps its consumer and its policy.
pub proof fn law_second_install_changes_nothing<C>(state: BridgeState<C>)
    ensures
        ({
            let (once, _) = state.install();
            let (twice, second) = once.install();
            &&& once.installed
            &&& second == Err::<(), BridgeError>(BridgeError::AlreadyInitialized)
            &&& twice == once
            &&& once.consumer == state.consumer
            &&& once.namespace == state.namespace
        }),
{
}

/// Every hand-off of a run goes to the consumer that is registered.
pub proof fn lemma_observed_consumer<C>(state: BridgeState<C>, records: Seq<LogRecordView>)
    ensures
        forall|k: int|
            0 <= k < state.observed(records).len() ==> state.consumer == Some(
                (#[trigger] state.observed(records)[k]).consumer,
            ),
    decreases records.len(),
{
    if records.len() > 0 {
        lemma_observed_consumer(state, records.drop_last());
    }
}

/// Registering `second` while `first` is registered replaces it: every
/// hand-off decided from then on goes to `second`, and where the two differ,
/// none goes to `first`.
pub proof fn law_register_replaces_consumer<C>(
    state: BridgeState<C>,
    first: C,
    second: C,
    records: Seq<LogRecordView>,
)
    requires
        state.wf(),
        state.consumer == Some(first),
    ensures
        ({
            let (after, result) = state.register(Some(second));
            &&& result is Ok
            &&& after.consumer == Some(second)
            &&& after.installed
            &&& after.namespace == state.namespace
            &&& forall|record: LogRecordView|
                after.emit(record) is Some ==> (#[trigger] after.emit(record))->0.consumer
                    == second
            &&& forall|k: int|
                0 <= k < after.observed(records).len() ==> (#[trigger] after.observed(
                    records,
                )[k]).consumer == second
            &&& first != second ==> forall|k: int|
                0 <= k < after.observed(records).len() ==> (#[trigger] after.observed(
                    records,
                )[k]).consumer != first
        }),
{
    let (after, _) = state.register(Some(second));
    lemma_observed_consumer(after, records);
}

/// `register` before `install` reports `NotInitialized`, and `register`
/// without a usable handle reports `InvalidCallback`; either way the bridge
/// is left as it is.
pub proof fn law_refused_register_changes_nothing<C>(state: BridgeState<C>, handle: Option<C>)
    requires
        !state.installed || handle is None,
    ensures
        state.register(handle).0 == state,
        state.register(handle).1 is Err,
        !state.installed ==> state.register(handle).1 == Err::<(), BridgeError>(
            BridgeError::NotInitialized,
        ),
        state.installed ==> state.register(handle).1 == Err::<(), BridgeError>(
            BridgeError::InvalidCallback,
        ),
{
}

/// `install` and `register` keep a bridge well formed.
pub proof fn law_transitions_keep_wf<C>(state: BridgeState<C>, handle: Option<C>)
    requires
        state.wf(),
    ensures
        BridgeState::<C>::fresh(state.namespace).wf(),
        state.install().0.wf(),
        state.register(handle).0.wf(),
{
}

} // verus!
