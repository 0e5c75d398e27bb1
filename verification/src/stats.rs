//! Per-worker-thread stats aggregation: fixed per-thread counter slots,
//! each written only by its own worker thread, summed into a point-in-time
//! global snapshot by a reporting thread.
//!
//! Each slot's evolution is captured by a ghost model ([`SlotModel`]) and
//! a step function ([`step_model`]); the accounting laws proved in this
//! module are stated over runs of that step function.

use vstd::prelude::*;
use vstd::hash_set::HashSetWithView;
use crate::MAX_THREADS;
use crate::error::FatalError;

verus! {

broadcast use vstd::std_specs::hash::axiom_u128_obeys_hash_table_key_model, vstd::set::group_set_axioms;

/// Counters and the distinct-source set of one worker thread. Only that
/// thread writes them; the reporting thread only sums.
pub struct ThreadStats {
    pub msg_count: u64,
    pub extended_count: u64,
    pub legacy_count: u64,
    pub hosts: HashSetWithView<u128>,
}

/// Ghost model of one slot: exact counters and the set of distinct
/// 16-byte source addresses seen by that worker.
#[verifier::ext_equal]
pub ghost struct SlotModel {
    pub msg: int,
    pub ext: int,
    pub leg: int,
    pub hosts: Set<u128>,
}

/// Ghost model of one message event as the aggregator sees it: the
/// worker index, the source address when one is attached, and which
/// message shapes were present (zero or one of each under correct use;
/// both flags are tolerated rather than required to be exclusive).
pub ghost struct EventModel {
    pub thread: int,
    pub src: Option<u128>,
    pub has_legacy: bool,
    pub has_extended: bool,
}

/// All slots zeroed, no sources seen.
pub open spec fn zero_slot() -> SlotModel {
    SlotModel { msg: 0, ext: 0, leg: 0, hosts: Set::empty() }
}

/// The initial table: `n` zeroed slots.
pub open spec fn init_model(n: nat) -> Seq<SlotModel> {
    Seq::new(n, |i: int| zero_slot())
}

/// Effect of one event on the slot table: bump slot `e.thread`'s message
/// count, bump the shape counters that apply, and record the source
/// address in that slot's distinct set when one is present. No other
/// slot changes.
pub open spec fn step_model(m: Seq<SlotModel>, e: EventModel) -> Seq<SlotModel> {
    m.update(
        e.thread,
        SlotModel {
            msg: m[e.thread].msg + 1,
            ext: m[e.thread].ext + if e.has_extended { 1int } else { 0int },
            leg: m[e.thread].leg + if e.has_legacy { 1int } else { 0int },
            hosts: match e.src {
                Some(a) => m[e.thread].hosts.insert(a),
                None => m[e.thread].hosts,
            },
        },
    )
}

/// The slot table after feeding a whole sequence of events, in order.
pub open spec fn run_model(m: Seq<SlotModel>, es: Seq<EventModel>) -> Seq<SlotModel>
    decreases es.len(),
{
    if es.len() == 0 {
        m
    } else {
        step_model(run_model(m, es.drop_last()), es.last())
    }
}

/// Sum of the message counters of the first `w` slots.
pub open spec fn total_msg(m: Seq<SlotModel>, w: int) -> int
    decreases w,
{
    if w <= 0 {
        0
    } else {
        total_msg(m, w - 1) + m[w - 1].msg
    }
}

/// Sum of the extended-shape counters of the first `w` slots.
pub open spec fn total_ext(m: Seq<SlotModel>, w: int) -> int
    decreases w,
{
    if w <= 0 {
        0
    } else {
        total_ext(m, w - 1) + m[w - 1].ext
    }
}

/// Sum of the legacy-shape counters of the first `w` slots.
pub open spec fn total_leg(m: Seq<SlotModel>, w: int) -> int
    decreases w,
{
    if w <= 0 {
        0
    } else {
        total_leg(m, w - 1) + m[w - 1].leg
    }
}

/// Sum of the per-slot distinct-source set sizes of the first `w` slots.
/// Deliberately an over-count of true distinct hosts: an address seen by
/// two workers is counted once per worker.
pub open spec fn total_hosts(m: Seq<SlotModel>, w: int) -> int
    decreases w,
{
    if w <= 0 {
        0
    } else {
        total_hosts(m, w - 1) + m[w - 1].hosts.len()
    }
}

/// A point-in-time global snapshot: sums across all active slots, plus
/// elapsed time since the aggregator was initialized (milliseconds).
pub struct Stats {
    pub msg_count: u64,
    pub extended_count: u64,
    pub legacy_count: u64,
    pub hosts_count: u64,
    pub uptime_ms: u64,
}

/// The aggregator: one fixed slot per possible worker thread, of which
/// only the first `worker_count` are ever summed.
pub struct StatsHolder {
    thread_stats: Vec<ThreadStats>,
    nr_workers: usize,
    start_time_ms: u64,
}

impl ThreadStats {
    /// A zeroed slot.
    fn empty() -> (t: ThreadStats)
        ensures
            t.msg_count == 0,
            t.extended_count == 0,
            t.legacy_count == 0,
            t.hosts@ == Set::<u128>::empty(),
    {
        ThreadStats {
            msg_count: 0,
            extended_count: 0,
            legacy_count: 0,
            hosts: HashSetWithView::new(),
        }
    }
}

impl StatsHolder {
    /// Ghost view of the slot table.
    pub closed spec fn model(self) -> Seq<SlotModel> {
        self.thread_stats@.map(
            |i: int, ts: ThreadStats|
                SlotModel {
                    msg: ts.msg_count as int,
                    ext: ts.extended_count as int,
                    leg: ts.legacy_count as int,
                    hosts: ts.hosts@,
                },
        )
    }

    /// Number of active worker slots (the only ones ever summed).
    pub closed spec fn worker_count(self) -> int {
        self.nr_workers as int
    }

    /// Wall-clock time (ms) the aggregator was initialized at.
    pub closed spec fn start_time(self) -> u64 {
        self.start_time_ms
    }

    /// The slot table always has exactly `MAX_THREADS` slots and the
    /// active count never exceeds it.
    pub open spec fn wf(self) -> bool {
        &&& self.model().len() == MAX_THREADS
        &&& 0 <= self.worker_count() <= MAX_THREADS
    }

    /// Build the aggregator for `nr_workers` worker threads, started at
    /// `now_ms`. A worker count above the fixed ceiling is a fatal
    /// configuration error: no aggregator is constructed at all.
    pub fn new(nr_workers: usize, now_ms: u64) -> (r: Result<StatsHolder, FatalError>)
        ensures
            r is Ok <==> nr_workers <= MAX_THREADS,
            r matches Err(e) ==> e == FatalError::TooManyWorkers,
            r matches Ok(h) ==> {
                &&& h.wf()
                &&& h.worker_count() == nr_workers
                &&& h.start_time() == now_ms
                &&& h.model() =~= init_model(MAX_THREADS as nat)
            },
    {
        if nr_workers > MAX_THREADS {
            return Err(FatalError::TooManyWorkers);
        }
        let mut slots: Vec<ThreadStats> = Vec::new();
        while slots.len() < MAX_THREADS
            invariant
                slots.len() <= MAX_THREADS,
                forall|i: int|
                    0 <= i < slots.len() ==> {
                        &&& slots@[i].msg_count == 0
                        &&& slots@[i].extended_count == 0
                        &&& slots@[i].legacy_count == 0
                        &&& slots@[i].hosts@ == Set::<u128>::empty()
                    },
            decreases MAX_THREADS - slots.len(),
        {
            slots.push(ThreadStats::empty());
        }
        Ok(StatsHolder { thread_stats: slots, nr_workers, start_time_ms: now_ms })
    }

    /// Message counter of one slot, for callers that must check the
    /// machine bound before recording another event.
    pub fn slot_message_count(&self, thread: usize) -> (n: u64)
        requires
            self.wf(),
            thread < MAX_THREADS,
        ensures
            n == self.model()[thread as int].msg,
    {
        self.thread_stats[thread].msg_count
    }

    /// Extended-shape counter of one slot.
    pub fn slot_extended_count(&self, thread: usize) -> (n: u64)
        requires
            self.wf(),
            thread < MAX_THREADS,
        ensures
            n == self.model()[thread as int].ext,
    {
        self.thread_stats[thread].extended_count
    }

    /// Legacy-shape counter of one slot.
    pub fn slot_legacy_count(&self, thread: usize) -> (n: u64)
        requires
            self.wf(),
            thread < MAX_THREADS,
        ensures
            n == self.model()[thread as int].leg,
    {
        self.thread_stats[thread].legacy_count
    }

    /// Distinct-source count of one slot.
    pub fn slot_host_count(&self, thread: usize) -> (n: usize)
        requires
            self.wf(),
            thread < MAX_THREADS,
        ensures
            n == self.model()[thread as int].hosts.len(),
    {
        self.thread_stats[thread].hosts.len()
    }

    /// Number of active worker slots.
    pub fn active_workers(&self) -> (n: usize)
        ensures
            n == self.worker_count(),
    {
        self.nr_workers
    }

    /// Wall-clock time (ms) the aggregator was initialized at.
    pub fn start_time_millis(&self) -> (t: u64)
        ensures
            t == self.start_time(),
    {
        self.start_time_ms
    }

    /// Record one message event on the hot path of worker `thread`: bump
    /// that slot's counters and record the source address in its
    /// distinct set. Touches only slot `thread`.
    pub fn on_new_message(
        &mut self,
        thread: usize,
        src: Option<u128>,
        has_legacy: bool,
        has_extended: bool,
    )
        requires
            old(self).wf(),
            thread < MAX_THREADS,
            old(self).model()[thread as int].msg < u64::MAX,
            has_legacy ==> old(self).model()[thread as int].leg < u64::MAX,
            has_extended ==> old(self).model()[thread as int].ext < u64::MAX,
        ensures
            final(self).wf(),
            final(self).worker_count() == old(self).worker_count(),
            final(self).start_time() == old(self).start_time(),
            final(self).model() =~= step_model(
                old(self).model(),
                (EventModel {
                    thread: thread as int,
                    src: src,
                    has_legacy: has_legacy,
                    has_extended: has_extended,
                }),
            ),
    {
        let mut slot = ThreadStats::empty();
        self.thread_stats.set_and_swap(thread, &mut slot);
        slot.msg_count = slot.msg_count + 1;
        if has_legacy {
            slot.legacy_count = slot.legacy_count + 1;
        }
        if has_extended {
            slot.extended_count = slot.extended_count + 1;
        }
        if let Some(addr) = src {
            slot.hosts.insert(addr);
        }
        self.thread_stats.set(thread, slot);
    }

    /// Sum the first `worker_count` slots into a global snapshot, with
    /// uptime measured from initialization to `now_ms`. The distinct-host
    /// figure is the sum of per-slot set sizes, a documented over-count
    /// across workers.
    pub fn compute_stats(&self, now_ms: u64) -> (s: Stats)
        requires
            self.wf(),
            now_ms >= self.start_time(),
            total_msg(self.model(), self.worker_count()) <= u64::MAX,
            total_ext(self.model(), self.worker_count()) <= u64::MAX,
            total_leg(self.model(), self.worker_count()) <= u64::MAX,
            total_hosts(self.model(), self.worker_count()) <= u64::MAX,
        ensures
            s.msg_count == total_msg(self.model(), self.worker_count()),
            s.extended_count == total_ext(self.model(), self.worker_count()),
            s.legacy_count == total_leg(self.model(), self.worker_count()),
            s.hosts_count == total_hosts(self.model(), self.worker_count()),
            s.uptime_ms == now_ms - self.start_time(),
    {
        let ghost m = self.model();
        let ghost w = self.worker_count();
        proof {
            lemma_totals_mono_all(m, w);
        }
        let mut msg_acc: u64 = 0;
        let mut ext_acc: u64 = 0;
        let mut leg_acc: u64 = 0;
        let mut hosts_acc: u64 = 0;
        let mut i: usize = 0;
        while i < self.nr_workers
            invariant
                self.wf(),
                m == self.model(),
                w == self.worker_count(),
                0 <= i <= w,
                msg_acc == total_msg(m, i as int),
                ext_acc == total_ext(m, i as int),
                leg_acc == total_leg(m, i as int),
                hosts_acc == total_hosts(m, i as int),
                total_msg(m, w) <= u64::MAX,
                total_ext(m, w) <= u64::MAX,
                total_leg(m, w) <= u64::MAX,
                total_hosts(m, w) <= u64::MAX,
                forall|a: int, b: int|
                    #![trigger total_msg(m, a), total_msg(m, b)]
                    0 <= a <= b <= w ==> total_msg(m, a) <= total_msg(m, b),
                forall|a: int, b: int|
                    #![trigger total_ext(m, a), total_ext(m, b)]
                    0 <= a <= b <= w ==> total_ext(m, a) <= total_ext(m, b),
                forall|a: int, b: int|
                    #![trigger total_leg(m, a), total_leg(m, b)]
                    0 <= a <= b <= w ==> total_leg(m, a) <= total_leg(m, b),
                forall|a: int, b: int|
                    #![trigger total_hosts(m, a), total_hosts(m, b)]
                    0 <= a <= b <= w ==> total_hosts(m, a) <= total_hosts(m, b),
            decreases self.nr_workers - i,
        {
            let slot = &self.thread_stats[i];
            proof {
                assert(m[i as int] == (SlotModel {
                    msg: slot.msg_count as int,
                    ext: slot.extended_count as int,
                    leg: slot.legacy_count as int,
                    hosts: slot.hosts@,
                }));
                assert(total_msg(m, i as int + 1) == total_msg(m, i as int) + m[i as int].msg);
                assert(total_ext(m, i as int + 1) == total_ext(m, i as int) + m[i as int].ext);
                assert(total_leg(m, i as int + 1) == total_leg(m, i as int) + m[i as int].leg);
                assert(total_hosts(m, i as int + 1) == total_hosts(m, i as int) + m[
                    i as int
                ].hosts.len());
                assert(total_msg(m, i as int + 1) <= total_msg(m, w));
                assert(total_ext(m, i as int + 1) <= total_ext(m, w));
                assert(total_leg(m, i as int + 1) <= total_leg(m, w));
                assert(total_hosts(m, i as int + 1) <= total_hosts(m, w));
            }
            msg_acc = msg_acc + slot.msg_count;
            ext_acc = ext_acc + slot.extended_count;
            leg_acc = leg_acc + slot.legacy_count;
            hosts_acc = hosts_acc + slot.hosts.len() as u64;
            i = i + 1;
        }
        Stats {
            msg_count: msg_acc,
            extended_count: ext_acc,
            legacy_count: leg_acc,
            hosts_count: hosts_acc,
            uptime_ms: now_ms - self.start_time_ms,
        }
    }
}

/// Prefix sums of nonnegative slot counters are monotone in the prefix
/// length: summing more slots never decreases any total.
proof fn lemma_totals_mono_all(m: Seq<SlotModel>, w: int)
    requires
        forall|k: int| 0 <= k < w ==> m[k].msg >= 0 && m[k].ext >= 0 && m[k].leg >= 0,
    ensures
        forall|a: int, b: int| #![trigger total_msg(m, a), total_msg(m, b)] 0 <= a <= b <= w ==> total_msg(m, a) <= total_msg(m, b),
        forall|a: int, b: int| #![trigger total_ext(m, a), total_ext(m, b)] 0 <= a <= b <= w ==> total_ext(m, a) <= total_ext(m, b),
        forall|a: int, b: int| #![trigger total_leg(m, a), total_leg(m, b)] 0 <= a <= b <= w ==> total_leg(m, a) <= total_leg(m, b),
        forall|a: int, b: int| #![trigger total_hosts(m, a), total_hosts(m, b)] 0 <= a <= b <= w ==> total_hosts(m, a) <= total_hosts(m, b),
{
    assert forall|a: int, b: int| #![trigger total_msg(m, a), total_msg(m, b)]
        0 <= a <= b <= w implies total_msg(m, a) <= total_msg(m, b) by {
        lemma_total_msg_mono(m, a, b);
    }
    assert forall|a: int, b: int| #![trigger total_ext(m, a), total_ext(m, b)]
        0 <= a <= b <= w implies total_ext(m, a) <= total_ext(m, b) by {
        lemma_total_ext_mono(m, a, b);
    }
    assert forall|a: int, b: int| #![trigger total_leg(m, a), total_leg(m, b)]
        0 <= a <= b <= w implies total_leg(m, a) <= total_leg(m, b) by {
        lemma_total_leg_mono(m, a, b);
    }
    assert forall|a: int, b: int| #![trigger total_hosts(m, a), total_hosts(m, b)]
        0 <= a <= b <= w implies total_hosts(m, a) <= total_hosts(m, b) by {
        lemma_total_hosts_mono(m, a, b);
    }
}

proof fn lemma_total_msg_mono(m: Seq<SlotModel>, a: int, b: int)
    requires
        0 <= a <= b,
        forall|k: int| 0 <= k < b ==> m[k].msg >= 0,
    ensures
        total_msg(m, a) <= total_msg(m, b),
    decreases b - a,
{
    if a < b {
        lemma_total_msg_mono(m, a, b - 1);
    }
}

proof fn lemma_total_ext_mono(m: Seq<SlotModel>, a: int, b: int)
    requires
        0 <= a <= b,
        forall|k: int| 0 <= k < b ==> m[k].ext >= 0,
    ensures
        total_ext(m, a) <= total_ext(m, b),
    decreases b - a,
{
    if a < b {
        lemma_total_ext_mono(m, a, b - 1);
    }
}

proof fn lemma_total_leg_mono(m: Seq<SlotModel>, a: int, b: int)
    requires
        0 <= a <= b,
        forall|k: int| 0 <= k < b ==> m[k].leg >= 0,
    ensures
        total_leg(m, a) <= total_leg(m, b),
    decreases b - a,
{
    if a < b {
        lemma_total_leg_mono(m, a, b - 1);
    }
}

proof fn lemma_total_hosts_mono(m: Seq<SlotModel>, a: int, b: int)
    requires
        0 <= a <= b,
    ensures
        total_hosts(m, a) <= total_hosts(m, b),
    decreases b - a,
{
    if a < b {
        lemma_total_hosts_mono(m, a, b - 1);
    }
}


/// Worker index of every event is an active slot: below `w`.
pub open spec fn events_below(es: Seq<EventModel>, w: int) -> bool {
    forall|i: int| 0 <= i < es.len() ==> 0 <= #[trigger] es[i].thread < w
}

/// Every event carries a source address.
pub open spec fn events_sourced(es: Seq<EventModel>) -> bool {
    forall|i: int| 0 <= i < es.len() ==> (#[trigger] es[i].src) is Some
}

/// Each source address appears on only one worker index across the run.
pub open spec fn addrs_per_thread_unique(es: Seq<EventModel>) -> bool {
    forall|i: int, j: int|
        0 <= i < es.len() && 0 <= j < es.len() && (#[trigger] es[i].src) is Some && es[i].src
            == (#[trigger] es[j].src) ==> es[i].thread == es[j].thread
}

/// The addresses that events of worker `t` carried.
pub open spec fn thread_addrs(es: Seq<EventModel>, t: int) -> Set<u128>
    decreases es.len(),
{
    if es.len() == 0 {
        Set::empty()
    } else {
        let rest = thread_addrs(es.drop_last(), t);
        if es.last().thread == t {
            match es.last().src {
                Some(a) => rest.insert(a),
                None => rest,
            }
        } else {
            rest
        }
    }
}

/// The addresses that any event carried.
pub open spec fn event_addrs(es: Seq<EventModel>) -> Set<u128>
    decreases es.len(),
{
    if es.len() == 0 {
        Set::empty()
    } else {
        let rest = event_addrs(es.drop_last());
        match es.last().src {
            Some(a) => rest.insert(a),
            None => rest,
        }
    }
}

/// Sum over the first `w` workers of how many distinct addresses each
/// one's events carried.
pub open spec fn sum_thread_addrs(es: Seq<EventModel>, w: int) -> int
    decreases w,
{
    if w <= 0 {
        0
    } else {
        sum_thread_addrs(es, w - 1) + thread_addrs(es, w - 1).len()
    }
}

proof fn lemma_run_model_len(m: Seq<SlotModel>, es: Seq<EventModel>)
    requires
        events_below(es, m.len() as int),
    ensures
        run_model(m, es).len() == m.len(),
    decreases es.len(),
{
    if es.len() > 0 {
        lemma_run_model_len(m, es.drop_last());
    }
}

proof fn lemma_total_msg_bump(m: Seq<SlotModel>, t: int, v: SlotModel, w: int)
    requires
        0 <= t < w <= m.len(),
    ensures
        total_msg(m.update(t, v), w) == total_msg(m, w) - m[t].msg + v.msg,
    decreases w,
{
    if w > 0 {
        if t == w - 1 {
            lemma_total_msg_same(m, m.update(t, v), w - 1);
        } else {
            lemma_total_msg_bump(m, t, v, w - 1);
        }
    }
}

proof fn lemma_total_msg_same(m1: Seq<SlotModel>, m2: Seq<SlotModel>, w: int)
    requires
        w <= m1.len(),
        w <= m2.len(),
        forall|k: int| 0 <= k < w ==> m1[k].msg == m2[k].msg,
    ensures
        total_msg(m1, w) == total_msg(m2, w),
    decreases w,
{
    if w > 0 {
        lemma_total_msg_same(m1, m2, w - 1);
    }
}

proof fn lemma_run_msg_total(m: Seq<SlotModel>, es: Seq<EventModel>, w: int)
    requires
        0 <= w <= m.len(),
        events_below(es, w),
    ensures
        total_msg(run_model(m, es), w) == total_msg(m, w) + es.len(),
    decreases es.len(),
{
    if es.len() > 0 {
        let prev = run_model(m, es.drop_last());
        lemma_run_msg_total(m, es.drop_last(), w);
        lemma_run_model_len(m, es.drop_last());
        let e = es.last();
        lemma_total_msg_bump(
            prev,
            e.thread,
            SlotModel {
                msg: prev[e.thread].msg + 1,
                ext: prev[e.thread].ext + if e.has_extended { 1int } else { 0int },
                leg: prev[e.thread].leg + if e.has_legacy { 1int } else { 0int },
                hosts: match e.src {
                    Some(a) => prev[e.thread].hosts.insert(a),
                    None => prev[e.thread].hosts,
                },
            },
            w,
        );
    }
}

proof fn lemma_total_msg_init(w: int)
    requires
        0 <= w <= MAX_THREADS,
    ensures
        total_msg(init_model(MAX_THREADS as nat), w) == 0,
    decreases w,
{
    if w > 0 {
        lemma_total_msg_init(w - 1);
    }
}

/// Accounting law for the message total: after any sequence of events on
/// active workers, starting from a fresh table, the snapshot's summed
/// message count is exactly the number of events fed.
pub proof fn lemma_snapshot_message_count(es: Seq<EventModel>, w: int)
    requires
        0 <= w <= MAX_THREADS,
        events_below(es, w),
    ensures
        total_msg(run_model(init_model(MAX_THREADS as nat), es), w) == es.len(),
{
    lemma_total_msg_init(w);
    lemma_run_msg_total(init_model(MAX_THREADS as nat), es, w);
}

proof fn lemma_run_slot_hosts(es: Seq<EventModel>, t: int)
    requires
        events_below(es, MAX_THREADS as int),
        0 <= t < MAX_THREADS,
    ensures
        run_model(init_model(MAX_THREADS as nat), es)[t].hosts == thread_addrs(es, t),
    decreases es.len(),
{
    if es.len() == 0 {
    } else {
        lemma_run_slot_hosts(es.drop_last(), t);
        lemma_run_model_len(init_model(MAX_THREADS as nat), es.drop_last());
    }
}

proof fn lemma_thread_addrs_mem(es: Seq<EventModel>, t: int, a: u128)
    ensures
        thread_addrs(es, t).contains(a) <==> exists|i: int|
            0 <= i < es.len() && (#[trigger] es[i].thread) == t && es[i].src == Some(a),
    decreases es.len(),
{
    if es.len() > 0 {
        let prefix = es.drop_last();
        lemma_thread_addrs_mem(prefix, t, a);
        let last = es.len() - 1;
        if thread_addrs(es, t).contains(a) {
            if es[last].thread == t && es[last].src == Some(a) {
                assert(0 <= last < es.len() && es[last].thread == t && es[last].src == Some(a));
            } else {
                assert(thread_addrs(prefix, t).contains(a));
                let i = choose|i: int|
                    0 <= i < prefix.len() && (#[trigger] prefix[i].thread) == t && prefix[i].src
                        == Some(a);
                assert(es[i] == prefix[i]);
                assert(0 <= i < es.len() && es[i].thread == t && es[i].src == Some(a));
            }
        }
        if exists|i: int| 0 <= i < es.len() && (#[trigger] es[i].thread) == t && es[i].src == Some(
            a,
        ) {
            let i = choose|i: int|
                0 <= i < es.len() && (#[trigger] es[i].thread) == t && es[i].src == Some(a);
            if i == last {
                assert(thread_addrs(es, t).contains(a));
            } else {
                assert(prefix[i] == es[i]);
                assert(prefix[i].thread == t && prefix[i].src == Some(a));
                assert(thread_addrs(prefix, t).contains(a));
                assert(thread_addrs(es, t).contains(a));
            }
        }
    }
}

proof fn lemma_event_addrs_mem(es: Seq<EventModel>, a: u128)
    ensures
        event_addrs(es).contains(a) <==> exists|i: int|
            0 <= i < es.len() && (#[trigger] es[i].src) == Some(a),
    decreases es.len(),
{
    if es.len() > 0 {
        let prefix = es.drop_last();
        lemma_event_addrs_mem(prefix, a);
        let last = es.len() - 1;
        if event_addrs(es).contains(a) {
            if es[last].src == Some(a) {
                assert(0 <= last < es.len() && es[last].src == Some(a));
            } else {
                assert(event_addrs(prefix).contains(a));
                let i = choose|i: int| 0 <= i < prefix.len() && (#[trigger] prefix[i].src) == Some(
                    a,
                );
                assert(es[i] == prefix[i]);
                assert(0 <= i < es.len() && es[i].src == Some(a));
            }
        }
        if exists|i: int| 0 <= i < es.len() && (#[trigger] es[i].src) == Some(a) {
            let i = choose|i: int| 0 <= i < es.len() && (#[trigger] es[i].src) == Some(a);
            if i == last {
                assert(event_addrs(es).contains(a));
            } else {
                assert(prefix[i] == es[i]);
                assert(event_addrs(prefix).contains(a));
                assert(event_addrs(es).contains(a));
            }
        }
    }
}

proof fn lemma_addr_sets_finite(es: Seq<EventModel>, t: int)
    ensures
        thread_addrs(es, t).finite(),
        event_addrs(es).finite(),
    decreases es.len(),
{
    if es.len() > 0 {
        lemma_addr_sets_finite(es.drop_last(), t);
    }
}

proof fn lemma_sum_thread_addrs_same(es1: Seq<EventModel>, es2: Seq<EventModel>, w: int)
    requires
        forall|t: int| 0 <= t < w ==> thread_addrs(es1, t) == thread_addrs(es2, t),
    ensures
        sum_thread_addrs(es1, w) == sum_thread_addrs(es2, w),
    decreases w,
{
    if w > 0 {
        lemma_sum_thread_addrs_same(es1, es2, w - 1);
    }
}

proof fn lemma_sum_thread_addrs_bump(es1: Seq<EventModel>, es2: Seq<EventModel>, t: int, w: int)
    requires
        0 <= t < w,
        forall|u: int| 0 <= u < w && u != t ==> thread_addrs(es1, u) == thread_addrs(es2, u),
    ensures
        sum_thread_addrs(es2, w) - sum_thread_addrs(es1, w) == thread_addrs(es2, t).len()
            - thread_addrs(es1, t).len(),
    decreases w,
{
    if w > 0 {
        if t == w - 1 {
            lemma_sum_thread_addrs_same(es1, es2, w - 1);
        } else {
            lemma_sum_thread_addrs_bump(es1, es2, t, w - 1);
        }
    }
}

proof fn lemma_sum_thread_addrs_empty(w: int)
    ensures
        sum_thread_addrs(Seq::<EventModel>::empty(), w) == 0,
    decreases w,
{
    if w > 0 {
        lemma_sum_thread_addrs_empty(w - 1);
        assert(thread_addrs(Seq::<EventModel>::empty(), w - 1) == Set::<u128>::empty());
    }
}

proof fn lemma_partition_count(es: Seq<EventModel>, w: int)
    requires
        0 <= w,
        events_below(es, w),
        events_sourced(es),
        addrs_per_thread_unique(es),
    ensures
        sum_thread_addrs(es, w) == event_addrs(es).len(),
    decreases es.len(),
{
    if es.len() == 0 {
        assert(es =~= Seq::<EventModel>::empty());
        lemma_sum_thread_addrs_empty(w);
        assert(event_addrs(es).len() == 0);
    } else {
        let prefix = es.drop_last();
        let e = es.last();
        let t0 = e.thread;
        let last = es.len() - 1;
        assert(es[last].src is Some);
        let a = e.src.unwrap();
        assert(e.src == Some(a));
        assert forall|i: int| 0 <= i < prefix.len() implies 0 <= (#[trigger] prefix[i].thread)
            < w by {
            assert(prefix[i] == es[i]);
        }
        assert forall|i: int| 0 <= i < prefix.len() implies (#[trigger] prefix[i].src) is Some by {
            assert(prefix[i] == es[i]);
        }
        assert forall|i: int, j: int|
            0 <= i < prefix.len() && 0 <= j < prefix.len() && (#[trigger] prefix[i].src) is Some
                && prefix[i].src == (#[trigger] prefix[j].src) implies prefix[i].thread
            == prefix[j].thread by {
            assert(prefix[i] == es[i] && prefix[j] == es[j]);
        }
        lemma_partition_count(prefix, w);
        lemma_addr_sets_finite(prefix, t0);
        assert(thread_addrs(es, t0) == thread_addrs(prefix, t0).insert(a));
        assert(event_addrs(es) == event_addrs(prefix).insert(a));
        assert forall|u: int| 0 <= u < w && u != t0 implies thread_addrs(prefix, u)
            == thread_addrs(es, u) by {}
        lemma_sum_thread_addrs_bump(prefix, es, t0, w);
        if thread_addrs(prefix, t0).contains(a) {
            lemma_thread_addrs_mem(prefix, t0, a);
            let i = choose|i: int|
                0 <= i < prefix.len() && (#[trigger] prefix[i].thread) == t0 && prefix[i].src
                    == Some(a);
            lemma_event_addrs_mem(prefix, a);
            assert(event_addrs(prefix).contains(a));
            assert(thread_addrs(es, t0) =~= thread_addrs(prefix, t0));
            assert(event_addrs(es) =~= event_addrs(prefix));
            assert(sum_thread_addrs(es, w) == sum_thread_addrs(prefix, w));
            assert(sum_thread_addrs(es, w) == event_addrs(es).len());
        } else {
            if event_addrs(prefix).contains(a) {
                lemma_event_addrs_mem(prefix, a);
                let i = choose|i: int| 0 <= i < prefix.len() && (#[trigger] prefix[i].src) == Some(
                    a,
                );
                assert(prefix[i] == es[i]);
                assert(es[i].src == Some(a) && es[last].src == Some(a));
                assert(es[i].thread == es[last].thread);
                lemma_thread_addrs_mem(prefix, t0, a);
                assert(prefix[i].thread == t0 && prefix[i].src == Some(a));
                assert(thread_addrs(prefix, t0).contains(a));
                assert(false);
            }
            assert(thread_addrs(es, t0).len() == thread_addrs(prefix, t0).len() + 1);
            assert(event_addrs(es).len() == event_addrs(prefix).len() + 1);
            assert(sum_thread_addrs(es, w) == sum_thread_addrs(prefix, w) + 1);
            assert(sum_thread_addrs(es, w) == event_addrs(es).len());
        }
    }
}

proof fn lemma_total_hosts_is_sum(es: Seq<EventModel>, w: int)
    requires
        0 <= w <= MAX_THREADS,
        events_below(es, MAX_THREADS as int),
    ensures
        total_hosts(run_model(init_model(MAX_THREADS as nat), es), w) == sum_thread_addrs(es, w),
    decreases w,
{
    if w > 0 {
        lemma_total_hosts_is_sum(es, w - 1);
        lemma_run_slot_hosts(es, w - 1);
    }
}

/// Accounting law for the distinct-host total: after any sequence of
/// sourced events on active workers, starting from a fresh table, the
/// snapshot's summed distinct-source figure equals the number of
/// distinct addresses fed — exactly, whenever each address arrives on
/// only one worker. (An address arriving on two workers lands in two
/// per-slot sets and is counted once per worker: the documented
/// over-count.)
pub proof fn lemma_snapshot_distinct_hosts(es: Seq<EventModel>, w: int)
    requires
        0 <= w <= MAX_THREADS,
        events_below(es, w),
        events_sourced(es),
        addrs_per_thread_unique(es),
    ensures
        total_hosts(run_model(init_model(MAX_THREADS as nat), es), w) == event_addrs(es).len(),
{
    assert(events_below(es, MAX_THREADS as int));
    lemma_total_hosts_is_sum(es, w);
    lemma_partition_count(es, w);
}

} // verus!
