//! What every run of a scan keeps: the laws of `ScanView::next`.

use crate::config::ScanConfig;
use crate::device::is_first_with_uuid;
use crate::worker::{is_filtering, CentralEventKind, ScanAction, ScanInput, ScanPhase, ScanView};
use vstd::prelude::*;

verus! {

/// What holds of every state a scan reaches.
pub open spec fn scan_inv(v: ScanView) -> bool {
    &&& v.matched.subset_of(v.filtered)
    &&& v.connection_needed == v.config.characteristics_filter
    &&& is_filtering(v.phase) ==> !v.filtered.contains(v.current)
    &&& needs_connection(v.phase) ==> v.connection_needed
    &&& v.phase == ScanPhase::DisconnectBeforeAdd ==> !v.connection_needed
    &&& (v.phase == ScanPhase::Announcing || v.phase == ScanPhase::Forwarding)
        ==> v.matched.contains(v.current)
    &&& v.matched.finite()
    &&& v.result_count + (if v.phase == ScanPhase::Announcing { 1int } else { 0 })
        == v.matched.len()
}

/// Whether the scan is in the part of the filters that needs a connection.
pub open spec fn needs_connection(phase: ScanPhase) -> bool {
    match phase {
        ScanPhase::FirstConnectionCheck | ScanPhase::Spawning | ScanPhase::SecondConnectionCheck
        | ScanPhase::FirstListing | ScanPhase::Discovering | ScanPhase::SecondListing
        | ScanPhase::CharacteristicsFilter => true,
        _ => false,
    }
}

/// The state after a connection attempt to `id` failed.
pub open spec fn after_connect_failed(v: ScanView, id: u64) -> ScanView {
    ScanView { connecting: v.connecting.remove(id), ..v }
}

/// `w` follows `v` by one step: the scan was handed `Some(input)` and answered `a`, or
/// (for `None`) a connection attempt failed, which is answered by `Done`.
pub open spec fn run_step(v: ScanView, input: Option<ScanInput>, a: ScanAction, w: ScanView) -> bool {
    match input {
        Some(i) => v.accepts(i) && v.next(i) == (w, a),
        None => a is Done && exists|id: u64| w == #[trigger] after_connect_failed(v, id),
    }
}

/// `states`, `inputs` and `actions` form a run: each state follows the one before.
pub open spec fn is_run(
    states: Seq<ScanView>,
    inputs: Seq<Option<ScanInput>>,
    actions: Seq<ScanAction>,
) -> bool {
    &&& states.len() == inputs.len() + 1
    &&& actions.len() == inputs.len()
    &&& forall|t: int|
        0 <= t < inputs.len() ==> #[trigger] run_step(states[t], inputs[t], actions[t], states[t + 1])
}

/// A fresh scan satisfies the invariant.
pub proof fn lemma_initial_inv(config: ScanConfig)
    ensures
        scan_inv(ScanView::initial(config)),
{
}

/// Every accepted step keeps the invariant.
pub proof fn lemma_next_keeps_inv(v: ScanView, input: ScanInput)
    requires
        scan_inv(v),
        v.accepts(input),
    ensures
        scan_inv(v.next(input).0),
{
    let w = v.next(input).0;
    assert(w.matched.subset_of(w.filtered));
}

/// A failed connection attempt keeps the invariant.
pub proof fn lemma_connect_failed_keeps_inv(v: ScanView, id: u64)
    requires
        scan_inv(v),
    ensures
        scan_inv(after_connect_failed(v, id)),
{
}

/// No step forgets a filtered or matched peripheral, lowers the count of results, or
/// changes the settings.
pub proof fn lemma_next_grows(v: ScanView, input: ScanInput)
    requires
        v.accepts(input),
    ensures
        v.filtered.subset_of(v.next(input).0.filtered),
        v.matched.subset_of(v.next(input).0.matched),
        v.result_count <= v.next(input).0.result_count,
        v.next(input).0.config == v.config,
        v.next(input).0.connection_needed == v.connection_needed,
{
}

/// The count of results grows by one for each announced device, whether or not the
/// `Discovered` event reached a receiver, and at no other step.
pub proof fn lemma_result_count(v: ScanView, input: ScanInput)
    requires
        v.accepts(input),
    ensures
        v.next(input).0.result_count == (if v.phase == ScanPhase::Announcing {
            v.result_count + 1
        } else {
            v.result_count as int
        }),
{
}

/// Between events, the count of results is the number of matched devices.
pub proof fn lemma_count_is_matches(v: ScanView)
    requires
        scan_inv(v),
        v.phase == ScanPhase::Idle,
    ensures
        v.result_count == v.matched.len(),
{
}

/// With `stop_after_matches(n)`, the scan stops (asked between events) exactly once `n`
/// devices have matched.
pub proof fn lemma_stops_after_matches(v: ScanView, n: usize)
    requires
        scan_inv(v),
        v.phase == ScanPhase::Idle,
        v.config.max_results == Some(n),
    ensures
        (v.config.max_results matches Some(m) && v.result_count >= m) <==> v.matched.len() >= n,
{
}

/// A peripheral is announced as discovered only when it was not filtered before, and it
/// is then filtered and matched.
pub proof fn lemma_announce_is_fresh(v: ScanView, input: ScanInput)
    requires
        scan_inv(v),
        v.accepts(input),
        v.next(input).1 == ScanAction::Emit(CentralEventKind::Discovered),
    ensures
        !v.filtered.contains(v.current),
        v.next(input).0.current == v.current,
        v.next(input).0.filtered.contains(v.current),
        v.next(input).0.matched.contains(v.current),
{
}

/// Updates, connections and disconnections reach the clients only for matched
/// peripherals, and with the kind of the adapter's event.
pub proof fn lemma_forward_only_matched(v: ScanView, input: ScanInput, kind: CentralEventKind)
    requires
        v.accepts(input),
        v.next(input).1 == ScanAction::Emit(kind),
        kind != CentralEventKind::Discovered,
    ensures
        v.matched.contains(v.current),
        kind == v.kind,
        v.next(input).0.current == v.current,
{
}

/// A connection is started only when a filter needs one, at most once while a connection
/// to that peripheral is under way, and only for a peripheral not filtered yet.
pub proof fn lemma_connect_only_when_needed(v: ScanView, input: ScanInput, id: u64)
    requires
        scan_inv(v),
        v.accepts(input),
        v.next(input).1 == ScanAction::SpawnConnect(id),
    ensures
        v.config.characteristics_filter,
        id == v.current,
        !v.connecting.contains(id),
        v.next(input).0.connecting.contains(id),
        !v.filtered.contains(id),
{
}

/// A peripheral that has been filtered is not run through the filters again: when it is
/// found, the scan either forwards the event (if it matched) or is done.
pub proof fn lemma_filtered_not_filtered_again(v: ScanView, address: u64)
    requires
        scan_inv(v),
        v.phase == ScanPhase::Lookup,
        v.filtered.contains(v.current),
    ensures
        ({
            let (w, a) = v.next(ScanInput::Lookup(Some(address)));
            &&& w.filtered == v.filtered
            &&& w.matched == v.matched
            &&& w.result_count == v.result_count
            &&& (a is Done || (a == ScanAction::Emit(v.kind) && v.matched.contains(v.current)))
        }),
{
}

/// With the name required, a peripheral that advertises an empty name fails the filters,
/// whatever rule of the caller's on the name is set: it is filtered without being matched.
pub proof fn lemma_empty_name_fails(v: ScanView, name: String)
    requires
        scan_inv(v),
        v.phase is PreLocalName,
        v.config.name_required,
        name@.len() == 0,
    ensures
        ({
            let (w, a) = v.next(ScanInput::LocalName(Some(name)));
            &&& w.filtered.contains(v.current)
            &&& !w.matched.contains(v.current)
            &&& (a is Disconnect || a is CheckConnected)
        }),
{
}

/// Without a characteristics filter the scan never starts a connection.
pub proof fn lemma_no_filter_no_connection(v: ScanView, input: ScanInput, id: u64)
    requires
        scan_inv(v),
        v.accepts(input),
        !v.config.characteristics_filter,
    ensures
        v.next(input).1 != ScanAction::SpawnConnect(id),
{
    if v.next(input).1 == ScanAction::SpawnConnect(id) {
        lemma_connect_only_when_needed(v, input, id);
    }
}

/// With forced disconnection and no characteristics filter, a peripheral is announced only
/// right after it was disconnected.
pub proof fn lemma_forced_disconnect_before_announce(v: ScanView, input: ScanInput)
    requires
        scan_inv(v),
        v.accepts(input),
        v.config.force_disconnect,
        !v.config.characteristics_filter,
        v.next(input).1 == ScanAction::Emit(CentralEventKind::Discovered),
    ensures
        v.phase == ScanPhase::DisconnectBeforeAdd,
        input == ScanInput::Ack,
{
}

/// With forced disconnection, a peripheral that fails the filters is disconnected at once.
pub proof fn lemma_forced_disconnect_of_skipped(v: ScanView, input: ScanInput)
    requires
        scan_inv(v),
        v.accepts(input),
        v.config.force_disconnect,
        !v.filtered.contains(v.current),
        v.next(input).0.filtered.contains(v.current),
        !v.next(input).0.matched.contains(v.current),
    ensures
        v.next(input).1 == ScanAction::Disconnect,
        v.next(input).0.phase == ScanPhase::SkipDisconnect,
{
}

/// The characteristics filter runs on the listing the peripheral gave last, and the scan
/// keeps that listing while it waits for the filter's answer: only a new listing changes it.
pub proof fn lemma_filter_runs_on_last_listing(v: ScanView, input: ScanInput)
    requires
        v.accepts(input),
    ensures
        v.next(input).1 matches ScanAction::RunCharacteristicsFilter(u) ==> v.next(input).0.last_listing
            == u@ && v.next(input).0.phase == ScanPhase::CharacteristicsFilter,
        !(input is Characteristics) ==> v.next(input).0.last_listing == v.last_listing,
        forall|id: u64| #[trigger] after_connect_failed(v, id).last_listing == v.last_listing,
{
}

/// With a characteristics filter, a peripheral is announced only on the filter's approval
/// of the listing it gave last, which the announced state keeps.
pub proof fn lemma_announced_on_filter_approval(v: ScanView, input: ScanInput)
    requires
        scan_inv(v),
        v.accepts(input),
        v.config.characteristics_filter,
        v.next(input).1 == ScanAction::Emit(CentralEventKind::Discovered),
    ensures
        v.phase == ScanPhase::CharacteristicsFilter,
        input == ScanInput::CharacteristicsFilter(true),
        v.next(input).0.last_listing == v.last_listing,
{
}

/// Where the caller's characteristics filter accepts exactly the listings that hold the
/// UUID `uuid` (such as a filter for the battery level), an announced peripheral listed
/// `uuid`, and a lookup of `uuid` in that listing finds it: the device, with its
/// characteristics unchanged, has the characteristic the scan looked for.
pub proof fn lemma_announced_device_has_uuid(v: ScanView, input: ScanInput, uuid: u128)
    requires
        scan_inv(v),
        v.accepts(input),
        v.config.characteristics_filter,
        v.next(input).1 == ScanAction::Emit(CentralEventKind::Discovered),
        input matches ScanInput::CharacteristicsFilter(b) ==> b == v.last_listing.contains(uuid),
    ensures
        v.next(input).0.last_listing == v.last_listing,
        v.last_listing.contains(uuid),
        exists|j: int| is_first_with_uuid(v.last_listing, uuid, j),
{
    lemma_announced_on_filter_approval(v, input);
    let k = choose|k: int| 0 <= k < v.last_listing.len() && v.last_listing[k] == uuid;
    lemma_first_index_exists(v.last_listing, uuid, k);
}

/// Where `uuid` stands at `k`, it stands first at some position.
pub proof fn lemma_first_index_exists(uuids: Seq<u128>, uuid: u128, k: int)
    requires
        0 <= k < uuids.len(),
        uuids[k] == uuid,
    ensures
        exists|j: int| is_first_with_uuid(uuids, uuid, j),
    decreases k,
{
    if exists|j: int| 0 <= j < k && uuids[j] == uuid {
        let j = choose|j: int| 0 <= j < k && uuids[j] == uuid;
        lemma_first_index_exists(uuids, uuid, j);
    } else {
        assert(is_first_with_uuid(uuids, uuid, k));
    }
}

/// Along a run, every state satisfies the invariant.
pub proof fn lemma_run_inv(
    states: Seq<ScanView>,
    inputs: Seq<Option<ScanInput>>,
    actions: Seq<ScanAction>,
    t: int,
)
    requires
        is_run(states, inputs, actions),
        scan_inv(states[0]),
        0 <= t < states.len(),
    ensures
        scan_inv(states[t]),
    decreases t,
{
    if t > 0 {
        lemma_run_inv(states, inputs, actions, t - 1);
        let p = t - 1;
        let v = states[p];
        assert(run_step(states[p], inputs[p], actions[p], states[p + 1]));
        match inputs[p] {
            Some(i) => lemma_next_keeps_inv(v, i),
            None => {
                let id = choose|id: u64| states[t] == #[trigger] after_connect_failed(v, id);
                lemma_connect_failed_keeps_inv(v, id);
            },
        }
    }
}

/// Along a run, the filtered peripherals only grow.
pub proof fn lemma_run_filtered_grows(
    states: Seq<ScanView>,
    inputs: Seq<Option<ScanInput>>,
    actions: Seq<ScanAction>,
    a: int,
    b: int,
)
    requires
        is_run(states, inputs, actions),
        0 <= a <= b < states.len(),
    ensures
        states[a].filtered.subset_of(states[b].filtered),
    decreases b - a,
{
    if a < b {
        lemma_run_filtered_grows(states, inputs, actions, a, b - 1);
        let p = b - 1;
        assert(run_step(states[p], inputs[p], actions[p], states[p + 1]));
        if let Some(i) = inputs[p] {
            lemma_next_grows(states[p], i);
        }
    }
}

/// Along a run from a state satisfying the invariant (such as a fresh scan), each
/// peripheral is announced as discovered at most once.
pub proof fn lemma_announced_at_most_once(
    states: Seq<ScanView>,
    inputs: Seq<Option<ScanInput>>,
    actions: Seq<ScanAction>,
    j: int,
    k: int,
)
    requires
        is_run(states, inputs, actions),
        scan_inv(states[0]),
        0 <= j < k < actions.len(),
        actions[j] == ScanAction::Emit(CentralEventKind::Discovered),
        actions[k] == ScanAction::Emit(CentralEventKind::Discovered),
    ensures
        states[j].current != states[k].current,
{
    assert(run_step(states[j], inputs[j], actions[j], states[j + 1]));
    assert(run_step(states[k], inputs[k], actions[k], states[k + 1]));
    lemma_run_inv(states, inputs, actions, j);
    lemma_run_inv(states, inputs, actions, k);
    lemma_announce_is_fresh(states[j], inputs[j]->0);
    lemma_announce_is_fresh(states[k], inputs[k]->0);
    lemma_run_filtered_grows(states, inputs, actions, j + 1, k);
}

/// The outcome `a` is among those handed to the scan in `hist`.
pub open spec fn answered(hist: Seq<Option<ScanInput>>, a: ScanInput) -> bool {
    hist.contains(Some(a))
}

/// The outcome is a local name that is not empty.
pub open spec fn is_nonempty_name(o: Option<ScanInput>) -> bool {
    match o {
        Some(ScanInput::LocalName(Some(n))) => n@.len() > 0,
        _ => false,
    }
}

/// A local name that is not empty was handed to the scan in `hist`.
pub open spec fn answered_nonempty_name(hist: Seq<Option<ScanInput>>) -> bool {
    exists|j: int| 0 <= j < hist.len() && #[trigger] is_nonempty_name(hist[j])
}

/// Judging by the outcomes `hist`, the address filter (if set) accepted the peripheral.
pub open spec fn address_accepted(config: ScanConfig, hist: Seq<Option<ScanInput>>) -> bool {
    config.address_filter ==> answered(hist, ScanInput::AddressFilter(true))
}

/// Judging by the outcomes `hist`, the peripheral advertised a name that is not empty (if
/// one is required) and the caller's name rule (if set) accepted it.
pub open spec fn name_accepted(config: ScanConfig, hist: Seq<Option<ScanInput>>) -> bool {
    &&& (config.name_required ==> answered_nonempty_name(hist))
    &&& (config.name_filter ==> answered(hist, ScanInput::NameFilter(true)))
}

/// Judging by the outcomes `hist`, every filter that needs no connection accepted the
/// peripheral.
pub open spec fn pre_connect_accepted(config: ScanConfig, hist: Seq<Option<ScanInput>>) -> bool {
    address_accepted(config, hist) && name_accepted(config, hist)
}

/// What the outcomes `hist` handed since the current event show, at each phase.
pub open spec fn handling_inv(v: ScanView, hist: Seq<Option<ScanInput>>) -> bool {
    match v.phase {
        ScanPhase::PreLocalName { address_ok } => (address_ok ==> address_accepted(v.config, hist))
            && (v.config.name_filter || v.config.name_required),
        ScanPhase::PreNameFilter { address_ok } => (address_ok ==> address_accepted(v.config, hist))
            && v.config.name_filter && (v.config.name_required ==> answered_nonempty_name(hist)),
        ScanPhase::FirstConnectionCheck | ScanPhase::Spawning => pre_connect_accepted(
            v.config,
            hist,
        ),
        ScanPhase::DisconnectBeforeAdd => pre_connect_accepted(v.config, hist)
            && !v.config.characteristics_filter,
        ScanPhase::SecondConnectionCheck | ScanPhase::FirstListing | ScanPhase::Discovering
        | ScanPhase::SecondListing | ScanPhase::CharacteristicsFilter => pre_connect_accepted(
            v.config,
            hist,
        ) && answered(hist, ScanInput::Connected(Some(true))),
        ScanPhase::Announcing => pre_connect_accepted(v.config, hist) && (
        v.config.characteristics_filter ==> answered(hist, ScanInput::Connected(Some(true)))
            && answered(hist, ScanInput::CharacteristicsFilter(true))),
        _ => true,
    }
}

/// Outcomes handed later do not undo what earlier ones showed.
pub proof fn lemma_history_grows(hist: Seq<Option<ScanInput>>, o: Option<ScanInput>)
    ensures
        forall|a: ScanInput| answered(hist, a) ==> #[trigger] answered(hist.push(o), a),
        answered(hist.push(o), o->0) || o is None,
        answered_nonempty_name(hist) ==> answered_nonempty_name(hist.push(o)),
        is_nonempty_name(o) ==> answered_nonempty_name(hist.push(o)),
        forall|c: ScanConfig| address_accepted(c, hist) ==> #[trigger] address_accepted(c, hist.push(o)),
        forall|c: ScanConfig| name_accepted(c, hist) ==> #[trigger] name_accepted(c, hist.push(o)),
{
    let h2 = hist.push(o);
    assert forall|a: ScanInput| answered(hist, a) implies #[trigger] answered(h2, a) by {
        let j = choose|j: int| 0 <= j < hist.len() && hist[j] == Some(a);
        assert(h2[j] == Some(a));
    }
    if o is Some {
        assert(h2[hist.len() as int] == o);
    }
    if answered_nonempty_name(hist) {
        let j = choose|j: int| 0 <= j < hist.len() && #[trigger] is_nonempty_name(hist[j]);
        assert(h2[j] == hist[j]);
        assert(is_nonempty_name(h2[j]));
    }
    if is_nonempty_name(o) {
        assert(h2[hist.len() as int] == o);
        assert(is_nonempty_name(h2[hist.len() as int]));
    }
}

/// Each outcome of the current event's handling keeps `handling_inv`.
pub proof fn lemma_handling_step(v: ScanView, hist: Seq<Option<ScanInput>>, input: ScanInput)
    requires
        scan_inv(v),
        handling_inv(v, hist),
        v.accepts(input),
        !(input is Event),
    ensures
        handling_inv(v.next(input).0, hist.push(Some(input))),
        v.next(input).0.current == v.current,
        v.next(input).1 == ScanAction::Emit(CentralEventKind::Discovered) ==> v.next(input).0.phase
            == ScanPhase::Announcing,
{
    lemma_history_grows(hist, Some(input));
    let h2 = hist.push(Some(input));
    assert(answered(hist, ScanInput::Connected(Some(true))) ==> answered(
        h2,
        ScanInput::Connected(Some(true)),
    ));
}

/// An announced peripheral passed the filters: between the adapter's event about it and
/// its `Discovered` event, the address filter (if set) accepted it, it advertised a name
/// that is not empty (where a name is required), the caller's name rule (if set) accepted
/// its name, and, with a
/// characteristics filter, it was found connected and the characteristics filter accepted
/// its characteristics.
pub proof fn lemma_announced_passed_filters(
    states: Seq<ScanView>,
    inputs: Seq<Option<ScanInput>>,
    actions: Seq<ScanAction>,
    t0: int,
    k: int,
    kind: CentralEventKind,
    id: u64,
)
    requires
        is_run(states, inputs, actions),
        scan_inv(states[0]),
        0 <= t0 < k < inputs.len(),
        inputs[t0] == Some(ScanInput::Event(kind, id)),
        forall|t: int| t0 < t <= k ==> !(#[trigger] inputs[t] matches Some(ScanInput::Event(..))),
        actions[k] == ScanAction::Emit(CentralEventKind::Discovered),
    ensures
        states[k].current == id,
        pre_connect_accepted(states[k].config, inputs.subrange(t0 + 1, k + 1)),
        states[k].config.characteristics_filter ==> answered(
            inputs.subrange(t0 + 1, k + 1),
            ScanInput::Connected(Some(true)),
        ),
        states[k].config.characteristics_filter ==> answered(
            inputs.subrange(t0 + 1, k + 1),
            ScanInput::CharacteristicsFilter(true),
        ),
{
    lemma_handling_run(states, inputs, actions, t0, k, kind, id, k);
    assert(run_step(states[k], inputs[k], actions[k], states[k + 1]));
    let i = inputs[k]->0;
    lemma_run_inv(states, inputs, actions, k);
    lemma_handling_step(states[k], inputs.subrange(t0 + 1, k), i);
    assert(inputs.subrange(t0 + 1, k).push(Some(i)) =~= inputs.subrange(t0 + 1, k + 1));
}

/// Along the handling of one event, `handling_inv` holds of the outcomes handed so far,
/// and the scan stays with the event's peripheral.
pub proof fn lemma_handling_run(
    states: Seq<ScanView>,
    inputs: Seq<Option<ScanInput>>,
    actions: Seq<ScanAction>,
    t0: int,
    k: int,
    kind: CentralEventKind,
    id: u64,
    t: int,
)
    requires
        is_run(states, inputs, actions),
        scan_inv(states[0]),
        0 <= t0 < k < inputs.len(),
        inputs[t0] == Some(ScanInput::Event(kind, id)),
        forall|t: int| t0 < t <= k ==> !(#[trigger] inputs[t] matches Some(ScanInput::Event(..))),
        actions[k] == ScanAction::Emit(CentralEventKind::Discovered),
        t0 < t <= k + 1,
    ensures
        handling_inv(states[t], inputs.subrange(t0 + 1, t)),
        states[t].current == id,
    decreases t,
{
    let p = t - 1;
    assert(run_step(states[p], inputs[p], actions[p], states[p + 1]));
    if t == t0 + 1 {
        // The event itself: the peripheral is looked up, nothing shown yet.
        assert(inputs.subrange(t0 + 1, t) =~= Seq::<Option<ScanInput>>::empty());
        lemma_not_idle(states, inputs, actions, t0, k, t);
    } else {
        lemma_handling_run(states, inputs, actions, t0, k, kind, id, p);
        lemma_run_inv(states, inputs, actions, p);
        let hist = inputs.subrange(t0 + 1, p);
        assert(hist.push(inputs[p]) =~= inputs.subrange(t0 + 1, t));
        match inputs[p] {
            Some(i) => {
                lemma_handling_step(states[p], hist, i);
            },
            None => {
                let idf = choose|idf: u64| states[t] == #[trigger] after_connect_failed(states[p], idf);
                lemma_history_grows(hist, None);
            },
        }
    }
}

/// An idle scan stays idle until it is handed an adapter event.
pub proof fn lemma_idle_stays(
    states: Seq<ScanView>,
    inputs: Seq<Option<ScanInput>>,
    actions: Seq<ScanAction>,
    t: int,
    u: int,
)
    requires
        is_run(states, inputs, actions),
        0 <= t <= u < states.len(),
        states[t].phase == ScanPhase::Idle,
        forall|s: int| t <= s < u ==> !(#[trigger] inputs[s] matches Some(ScanInput::Event(..))),
    ensures
        states[u].phase == ScanPhase::Idle,
    decreases u - t,
{
    if t < u {
        lemma_idle_stays(states, inputs, actions, t, u - 1);
        let p = u - 1;
        assert(run_step(states[p], inputs[p], actions[p], states[p + 1]));
        assert(!(inputs[p] matches Some(ScanInput::Event(..))));
        if inputs[p] is None {
            let idf = choose|idf: u64| states[u] == #[trigger] after_connect_failed(states[p], idf);
        }
    }
}

/// While the handling of an event goes on, up to its `Discovered` event, the scan is not
/// idle.
pub proof fn lemma_not_idle(
    states: Seq<ScanView>,
    inputs: Seq<Option<ScanInput>>,
    actions: Seq<ScanAction>,
    t0: int,
    k: int,
    t: int,
)
    requires
        is_run(states, inputs, actions),
        0 <= t0 < k < inputs.len(),
        forall|t: int| t0 < t <= k ==> !(#[trigger] inputs[t] matches Some(ScanInput::Event(..))),
        actions[k] == ScanAction::Emit(CentralEventKind::Discovered),
        t0 < t <= k,
    ensures
        states[t].phase != ScanPhase::Idle,
{
    if states[t].phase == ScanPhase::Idle {
        assert forall|s: int| t <= s < k implies !(#[trigger] inputs[s] matches Some(
            ScanInput::Event(..),
        )) by {
            assert(t0 < s <= k);
        }
        lemma_idle_stays(states, inputs, actions, t, k);
        assert(run_step(states[k], inputs[k], actions[k], states[k + 1]));
        assert(t0 < k <= k);
        assert(!(inputs[k] matches Some(ScanInput::Event(..))));
    }
}

} // verus!
