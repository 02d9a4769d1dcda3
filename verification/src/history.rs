//! History store: age-bounded rolling time series, one per scalar metric,
//! plus dynamically created series for instance-keyed metrics such as
//! per-disk reads and writes.
//!
//! Every `record` call first ages all entries of the series by the elapsed
//! tick delta, evicts the entries whose remaining age would turn negative,
//! and then appends the new observation with the full window as its age.

use crate::keyed_map::KeyedMap;
use vstd::prelude::*;

verus! {

/// One point of a time series: how many ticks it has left before eviction,
/// and the observed value.
#[derive(Debug, Clone, Copy, PartialEq, Eq, Structural)]
pub struct SeriesEntry {
    pub remaining_age: u64,
    pub value: u64,
}

/// An age-bounded series of observations, insertion order, newest at the
/// back.
#[derive(Debug)]
pub struct TimeSeries {
    pub points: Vec<SeriesEntry>,
}

/// `s` aged by `d` ticks: every entry loses `d` remaining age, and entries
/// whose remaining age would turn negative are evicted.
pub open spec fn spec_decay(s: Seq<SeriesEntry>, d: nat) -> Seq<SeriesEntry>
    decreases s.len(),
{
    if s.len() == 0 {
        Seq::empty()
    } else {
        let kept = if s.last().remaining_age >= d {
            seq![
                SeriesEntry {
                    remaining_age: (s.last().remaining_age - d) as u64,
                    value: s.last().value,
                },
            ]
        } else {
            Seq::empty()
        };
        spec_decay(s.drop_last(), d) + kept
    }
}

/// What one `record` call leaves of a series: the aged survivors followed by
/// the fresh observation carrying the full window as its age.
pub open spec fn spec_record(s: Seq<SeriesEntry>, value: u64, d: u64, w: u64) -> Seq<SeriesEntry> {
    spec_decay(s, d as nat).push(SeriesEntry { remaining_age: w, value })
}

/// A series is well formed for window `w` when no entry outlives the window
/// and remaining ages strictly increase towards the back (older entries have
/// less time left).
pub open spec fn wf_series(s: Seq<SeriesEntry>, w: u64) -> bool {
    &&& forall|i: int| 0 <= i < s.len() ==> s[i].remaining_age <= w
    &&& forall|i: int, j: int|
        0 <= i < j < s.len() ==> s[i].remaining_age < s[j].remaining_age
}

impl TimeSeries {
    pub fn new() -> (r: Self)
        ensures
            r.points@ =~= Seq::<SeriesEntry>::empty(),
    {
        TimeSeries { points: Vec::new() }
    }

    /// Returns a copy of the series for display; the store itself is never
    /// handed out mutably.
    pub fn duplicate(&self) -> (r: Self)
        ensures
            r.points@ == self.points@,
    {
        let mut points: Vec<SeriesEntry> = Vec::new();
        let mut i: usize = 0;
        while i < self.points.len()
            invariant
                i <= self.points@.len(),
                points@ =~= self.points@.take(i as int),
            decreases self.points@.len() - i,
        {
            points.push(self.points[i]);
            i = i + 1;
        }
        proof {
            assert(self.points@.take(self.points@.len() as int) =~= self.points@);
        }
        TimeSeries { points }
    }

    /// Ages every entry by `tick_delta`, evicts the ones whose remaining age
    /// would turn negative, and appends the new observation with
    /// `window` ticks of remaining age.
    ///
    /// A delta greater than one evicts several stale points in a single
    /// pass; eviction depends on the delta, never on the number of calls.
    pub fn record(&mut self, value: u64, tick_delta: u64, window: u64)
        ensures
            final(self).points@ == spec_record(old(self).points@, value, tick_delta, window),
            wf_series(old(self).points@, window) && tick_delta >= 1 ==> wf_series(
                final(self).points@,
                window,
            ),
    {
        let mut points: Vec<SeriesEntry> = Vec::new();
        let mut i: usize = 0;
        while i < self.points.len()
            invariant
                i <= self.points@.len(),
                points@ =~= spec_decay(self.points@.take(i as int), tick_delta as nat),
            decreases self.points@.len() - i,
        {
            let entry = self.points[i];
            proof {
                assert(self.points@.take(i + 1).drop_last() =~= self.points@.take(i as int));
                assert(self.points@.take(i + 1).last() == self.points@[i as int]);
            }
            if entry.remaining_age >= tick_delta {
                points.push(
                    SeriesEntry {
                        remaining_age: entry.remaining_age - tick_delta,
                        value: entry.value,
                    },
                );
            }
            i = i + 1;
        }
        proof {
            assert(self.points@.take(self.points@.len() as int) =~= self.points@);
        }
        points.push(SeriesEntry { remaining_age: window, value });
        self.points = points;
        proof {
            if wf_series(old(self).points@, window) && tick_delta >= 1 {
                lemma_record_preserves_wf(old(self).points@, value, tick_delta, window);
            }
        }
    }
}

/// The points stored under key `k`, or the empty series for a key never
/// observed.
pub open spec fn spec_keyed_points(map: KeyedMap<TimeSeries>, k: Seq<char>) -> Seq<SeriesEntry> {
    match map.index(k) {
        Some(t) => t.points@,
        None => Seq::empty(),
    }
}

/// Every series of the map is well formed for window `w`.
pub open spec fn wf_keyed(map: KeyedMap<TimeSeries>, w: u64) -> bool {
    forall|k: Seq<char>| #[trigger] map.index(k) is Some ==> wf_series(spec_keyed_points(map, k), w)
}

/// Records one observation into the series stored under `name`; the series
/// is created on the first observation of a previously unseen key and never
/// removed.
pub fn record_keyed(
    map: &mut KeyedMap<TimeSeries>,
    name: &String,
    value: u64,
    tick_delta: u64,
    window: u64,
)
    requires
        old(map).wf(),
    ensures
        final(map).wf(),
        final(map).contains_key(name@),
        spec_keyed_points(*final(map), name@) == spec_record(
            spec_keyed_points(*old(map), name@),
            value,
            tick_delta,
            window,
        ),
        forall|q: Seq<char>| q != name@ ==> #[trigger] final(map).index(q) == old(map).index(q),
        old(map).contains_key(name@) ==> final(map).entries@.len() == old(map).entries@.len(),
        !old(map).contains_key(name@) ==> final(map).entries@.len() == old(map).entries@.len() + 1,
        wf_keyed(*old(map), window) && tick_delta >= 1 ==> wf_keyed(*final(map), window),
{
    let found = map.position(name);
    match found {
        Some(i) => {
            let mut t = map.value_at(i).duplicate();
            t.record(value, tick_delta, window);
            map.replace_at(i, t);
        },
        None => {
            let mut t = TimeSeries::new();
            t.record(value, tick_delta, window);
            proof {
                assert(t.points@ == spec_record(Seq::empty(), value, tick_delta, window));
            }
            map.insert_new(name.clone(), t);
        },
    }
    proof {
        if wf_keyed(*old(map), window) && tick_delta >= 1 {
            assert forall|k: Seq<char>| #[trigger] final(map).index(k) is Some implies wf_series(
                spec_keyed_points(*final(map), k),
                window,
            ) by {
                if k == name@ {
                    if old(map).contains_key(k) {
                        assert(wf_series(spec_keyed_points(*old(map), k), window));
                    } else {
                        assert(wf_series(Seq::<SeriesEntry>::empty(), window));
                    }
                    lemma_record_preserves_wf(
                        spec_keyed_points(*old(map), k),
                        value,
                        tick_delta,
                        window,
                    );
                } else {
                    assert(final(map).index(k) == old(map).index(k));
                }
            }
        }
    }
}

/// The rolling history of every tracked metric: one series per scalar
/// metric, one per logical core, and one per observed disk for reads and
/// writes. `last_tick` remembers the tick of the previous sampling cycle so
/// a stalled timer evicts several points at once.
#[derive(Debug)]
pub struct ResourceHistory {
    pub last_tick: u64,
    pub cpu: TimeSeries,
    pub logical_cores: Vec<TimeSeries>,
    pub ram: TimeSeries,
    pub swap: TimeSeries,
    pub battery_charge: TimeSeries,
    pub gpu: TimeSeries,
    pub vram: TimeSeries,
    pub wifi: TimeSeries,
    pub ethernet: TimeSeries,
    pub disk_write: KeyedMap<TimeSeries>,
    pub disk_read: KeyedMap<TimeSeries>,
}

impl ResourceHistory {
    pub fn new(logical_cores_count: u32) -> (r: Self)
        ensures
            r.last_tick == 0,
            r.cpu.points@.len() == 0,
            r.logical_cores@.len() == logical_cores_count,
            forall|i: int|
                0 <= i < r.logical_cores@.len() ==> (#[trigger] r.logical_cores@[i]).points@.len()
                    == 0,
            r.ram.points@.len() == 0,
            r.swap.points@.len() == 0,
            r.battery_charge.points@.len() == 0,
            r.gpu.points@.len() == 0,
            r.vram.points@.len() == 0,
            r.wifi.points@.len() == 0,
            r.ethernet.points@.len() == 0,
            r.disk_write.wf(),
            r.disk_read.wf(),
            r.disk_write.entries@.len() == 0,
            r.disk_read.entries@.len() == 0,
            forall|k: Seq<char>| #[trigger] r.disk_write.index(k) is None,
            forall|k: Seq<char>| #[trigger] r.disk_read.index(k) is None,
    {
        let mut logical_cores: Vec<TimeSeries> = Vec::new();
        let mut i: u32 = 0;
        while i < logical_cores_count
            invariant
                i <= logical_cores_count,
                logical_cores@.len() == i,
                forall|j: int|
                    0 <= j < logical_cores@.len() ==> (
                    #[trigger] logical_cores@[j]).points@.len() == 0,
            decreases logical_cores_count - i,
        {
            logical_cores.push(TimeSeries::new());
            i = i + 1;
        }
        ResourceHistory {
            last_tick: 0,
            cpu: TimeSeries::new(),
            logical_cores,
            ram: TimeSeries::new(),
            swap: TimeSeries::new(),
            battery_charge: TimeSeries::new(),
            gpu: TimeSeries::new(),
            vram: TimeSeries::new(),
            wifi: TimeSeries::new(),
            ethernet: TimeSeries::new(),
            disk_write: KeyedMap::new(),
            disk_read: KeyedMap::new(),
        }
    }
}

/// A series after a run of single-tick `record` calls, one per element of
/// `vs`, oldest value first.
pub open spec fn spec_record_seq(s: Seq<SeriesEntry>, vs: Seq<u64>, w: u64) -> Seq<SeriesEntry>
    decreases vs.len(),
{
    if vs.len() == 0 {
        s
    } else {
        spec_record(spec_record_seq(s, vs.drop_last(), w), vs.last(), 1, w)
    }
}

/// The trailing `m` values of `vs` laid out as series entries, the newest at
/// the back with the full window `w` as its age and each older one with one
/// tick less.
pub open spec fn spec_ramp(vs: Seq<u64>, w: u64, m: nat) -> Seq<SeriesEntry> {
    Seq::new(
        m,
        |i: int|
            SeriesEntry {
                remaining_age: (w + 1 - m + i) as u64,
                value: vs[vs.len() - m + i],
            },
    )
}

/// How many of `n` single-tick observations a window of `w` ticks retains.
pub open spec fn spec_kept_count(n: nat, w: u64) -> nat {
    if n <= w + 1 {
        n
    } else {
        (w + 1) as nat
    }
}

proof fn lemma_decay_wf(s: Seq<SeriesEntry>, d: u64, w: u64)
    requires
        wf_series(s, w),
        1 <= d,
    ensures
        wf_series(spec_decay(s, d as nat), w),
        spec_decay(s, d as nat).len() <= s.len(),
        forall|k: int|
            0 <= k < spec_decay(s, d as nat).len() ==> spec_decay(s, d as nat)[k].remaining_age + d
                <= w,
        spec_decay(s, d as nat).len() > 0 ==> spec_decay(s, d as nat).last().remaining_age
            == s.last().remaining_age - d,
        s.len() > 0 && s.last().remaining_age < d ==> spec_decay(s, d as nat).len() == 0,
    decreases s.len(),
{
    if s.len() == 0 {
    } else {
        let prefix = s.drop_last();
        assert(wf_series(prefix, w));
        lemma_decay_wf(prefix, d, w);
        let dp = spec_decay(prefix, d as nat);
        if s.last().remaining_age >= d {
            let aged = SeriesEntry {
                remaining_age: (s.last().remaining_age - d) as u64,
                value: s.last().value,
            };
            assert(spec_decay(s, d as nat) =~= dp.push(aged));
            if prefix.len() > 0 {
                assert(prefix.last().remaining_age < s.last().remaining_age);
            }
            assert forall|i: int, j: int|
                0 <= i < j < dp.push(aged).len() implies dp.push(aged)[i].remaining_age < dp.push(
                aged,
            )[j].remaining_age by {
                if j < dp.len() {
                } else {
                    assert(dp[i].remaining_age <= dp.last().remaining_age);
                }
            }
        } else {
            assert(spec_decay(s, d as nat) =~= dp);
            if prefix.len() > 0 {
                assert(prefix.last().remaining_age < d);
            }
        }
    }
}

/// After any `record` call on a well-formed series, the series is non-empty
/// and well formed again: every entry still has a non-negative remaining age
/// of at most the window, remaining ages strictly increase towards the back,
/// and the most recently appended point carries exactly the window — the
/// maximum remaining age present.
pub proof fn lemma_record_preserves_wf(s: Seq<SeriesEntry>, value: u64, d: u64, w: u64)
    requires
        wf_series(s, w),
        1 <= d,
    ensures
        wf_series(spec_record(s, value, d, w), w),
        spec_record(s, value, d, w).len() >= 1,
        spec_record(s, value, d, w).last().remaining_age == w,
        forall|k: int|
            0 <= k < spec_record(s, value, d, w).len() ==> spec_record(
                s,
                value,
                d,
                w,
            )[k].remaining_age <= w,
{
    lemma_decay_wf(s, d, w);
    let dec = spec_decay(s, d as nat);
    let r = spec_record(s, value, d, w);
    assert(r =~= dec.push(SeriesEntry { remaining_age: w, value }));
    assert forall|i: int, j: int|
        0 <= i < j < r.len() implies r[i].remaining_age < r[j].remaining_age by {
        if j < dec.len() {
        } else {
            assert(dec[i].remaining_age + d <= w);
        }
    }
}

proof fn lemma_ages_at_least(s: Seq<SeriesEntry>, w: u64, i: int)
    requires
        wf_series(s, w),
        0 <= i < s.len(),
    ensures
        s[i].remaining_age >= i,
    decreases i,
{
    if i > 0 {
        lemma_ages_at_least(s, w, i - 1);
        assert(s[i - 1].remaining_age < s[i].remaining_age);
    }
}

/// A well-formed series never holds more than `window + 1` entries: the
/// remaining ages are distinct, increasing and bounded by the window.
pub proof fn lemma_series_len_bound(s: Seq<SeriesEntry>, w: u64)
    requires
        wf_series(s, w),
    ensures
        s.len() <= w + 1,
{
    if s.len() > w + 1 {
        lemma_ages_at_least(s, w, s.len() - 1);
        assert(s[s.len() - 1].remaining_age <= w);
        assert(false);
    }
}

proof fn lemma_decay_concat(a: Seq<SeriesEntry>, b: Seq<SeriesEntry>, d: nat)
    ensures
        spec_decay(a + b, d) =~= spec_decay(a, d) + spec_decay(b, d),
    decreases b.len(),
{
    if b.len() == 0 {
        assert(a + b =~= a);
        assert(spec_decay(b, d) =~= Seq::<SeriesEntry>::empty());
        assert(spec_decay(a, d) + spec_decay(b, d) =~= spec_decay(a, d));
    } else {
        assert((a + b).drop_last() =~= a + b.drop_last());
        assert((a + b).last() == b.last());
        lemma_decay_concat(a, b.drop_last(), d);
    }
}

proof fn lemma_decay_singleton(e: SeriesEntry, d: nat)
    ensures
        e.remaining_age >= d ==> spec_decay(seq![e], d) =~= seq![
            SeriesEntry { remaining_age: (e.remaining_age - d) as u64, value: e.value },
        ],
        e.remaining_age < d ==> spec_decay(seq![e], d) =~= Seq::<SeriesEntry>::empty(),
{
    let s = seq![e];
    assert(s.len() == 1);
    assert(s.last() == e);
    assert(s.drop_last() =~= Seq::<SeriesEntry>::empty());
    assert(spec_decay(s.drop_last(), d) =~= Seq::<SeriesEntry>::empty());
    if e.remaining_age >= d {
        assert(spec_decay(s, d) == spec_decay(s.drop_last(), d) + seq![
            SeriesEntry { remaining_age: (e.remaining_age - d) as u64, value: e.value },
        ]);
        assert(spec_decay(s, d) =~= seq![
            SeriesEntry { remaining_age: (e.remaining_age - d) as u64, value: e.value },
        ]);
    } else {
        assert(spec_decay(s, d) == spec_decay(s.drop_last(), d) + Seq::<SeriesEntry>::empty());
        assert(spec_decay(s, d) =~= Seq::<SeriesEntry>::empty());
    }
}

/// Aging a series by `d1` ticks and then by `d2` more leaves exactly what a
/// single aging by `d1 + d2` leaves: eviction is delta-correct, not
/// call-count-correct.
pub proof fn lemma_decay_additive(s: Seq<SeriesEntry>, d1: nat, d2: nat)
    ensures
        spec_decay(spec_decay(s, d1), d2) =~= spec_decay(s, (d1 + d2) as nat),
    decreases s.len(),
{
    if s.len() == 0 {
    } else {
        let prefix = s.drop_last();
        let last = s.last();
        lemma_decay_additive(prefix, d1, d2);
        let kept1 = if last.remaining_age >= d1 {
            seq![
                SeriesEntry { remaining_age: (last.remaining_age - d1) as u64, value: last.value },
            ]
        } else {
            Seq::<SeriesEntry>::empty()
        };
        assert(spec_decay(s, d1) == spec_decay(prefix, d1) + kept1);
        lemma_decay_concat(spec_decay(prefix, d1), kept1, d2);
        if last.remaining_age >= d1 {
            lemma_decay_singleton(
                SeriesEntry { remaining_age: (last.remaining_age - d1) as u64, value: last.value },
                d2,
            );
        } else {
            assert(spec_decay(kept1, d2) =~= Seq::<SeriesEntry>::empty());
        }
        assert(spec_decay(spec_decay(s, d1), d2) =~= spec_decay(prefix, (d1 + d2) as nat)
            + spec_decay(kept1, d2));
    }
}

proof fn lemma_decay_all_survive(s: Seq<SeriesEntry>, d: nat)
    requires
        forall|i: int| 0 <= i < s.len() ==> s[i].remaining_age >= d,
    ensures
        spec_decay(s, d) =~= Seq::new(
            s.len(),
            |i: int|
                SeriesEntry {
                    remaining_age: (s[i].remaining_age - d) as u64,
                    value: s[i].value,
                },
        ),
    decreases s.len(),
{
    if s.len() == 0 {
    } else {
        let prefix = s.drop_last();
        lemma_decay_all_survive(prefix, d);
    }
}

proof fn lemma_decay_drop_first(s: Seq<SeriesEntry>, d: nat)
    requires
        s.len() > 0,
        s[0].remaining_age < d,
        forall|i: int| 1 <= i < s.len() ==> s[i].remaining_age >= d,
    ensures
        spec_decay(s, d) =~= Seq::new(
            (s.len() - 1) as nat,
            |i: int|
                SeriesEntry {
                    remaining_age: (s[i + 1].remaining_age - d) as u64,
                    value: s[i + 1].value,
                },
        ),
{
    let head = s.take(1);
    let tail = s.skip(1);
    assert(s =~= head + tail);
    lemma_decay_concat(head, tail, d);
    lemma_decay_singleton(s[0], d);
    assert(head =~= seq![s[0]]);
    lemma_decay_all_survive(tail, d);
    assert(spec_decay(head, d) =~= Seq::<SeriesEntry>::empty());
}

/// What a fresh series holds after any run of single-tick `record` calls:
/// exactly the trailing `spec_kept_count` observations, the newest with the
/// full window as remaining age and each older one with one tick less.
/// Once the run is longer than `window + 1` calls, the earliest observations
/// are gone and the length stays pinned at `window + 1`.
pub proof fn lemma_record_seq_window(vs: Seq<u64>, w: u64)
    requires
        vs.len() >= 1,
    ensures
        spec_record_seq(Seq::empty(), vs, w) =~= spec_ramp(vs, w, spec_kept_count(vs.len(), w)),
        spec_record_seq(Seq::empty(), vs, w).len() == spec_kept_count(vs.len(), w),
    decreases vs.len(),
{
    let n = vs.len();
    if n == 1 {
        let r = spec_record_seq(Seq::empty(), vs, w);
        assert(spec_record_seq(Seq::empty(), vs.drop_last(), w) =~= Seq::<SeriesEntry>::empty());
        assert(spec_decay(Seq::<SeriesEntry>::empty(), 1) =~= Seq::<SeriesEntry>::empty());
        assert(r =~= spec_ramp(vs, w, 1));
    } else {
        lemma_record_seq_window(vs.drop_last(), w);
        let m_prev = spec_kept_count((n - 1) as nat, w);
        let prev = spec_record_seq(Seq::empty(), vs.drop_last(), w);
        assert(prev =~= spec_ramp(vs.drop_last(), w, m_prev));
        if m_prev <= w {
            assert(forall|i: int| 0 <= i < prev.len() ==> prev[i].remaining_age >= 1);
            lemma_decay_all_survive(prev, 1);
            assert(spec_record_seq(Seq::empty(), vs, w) =~= spec_decay(prev, 1).push(
                SeriesEntry { remaining_age: w, value: vs.last() },
            ));
            assert(spec_decay(prev, 1).push(SeriesEntry { remaining_age: w, value: vs.last() })
                =~= spec_ramp(vs, w, (m_prev + 1) as nat));
        } else {
            assert(m_prev == w + 1);
            assert(prev[0].remaining_age == 0);
            assert(forall|i: int| 1 <= i < prev.len() ==> prev[i].remaining_age >= 1);
            lemma_decay_drop_first(prev, 1);
            assert(spec_record_seq(Seq::empty(), vs, w) =~= spec_decay(prev, 1).push(
                SeriesEntry { remaining_age: w, value: vs.last() },
            ));
            assert(spec_decay(prev, 1).push(SeriesEntry { remaining_age: w, value: vs.last() })
                =~= spec_ramp(vs, w, (w + 1) as nat));
        }
    }
}

/// One `record` call with a delta of `k` leaves the same surviving old
/// entries, with the same ages, as `k` single-tick `record` calls: the run
/// differs only in additionally holding the `k - 1` intermediate
/// observations, laid out as the age ramp before the newest point.
pub proof fn lemma_burst_equals_single(s: Seq<SeriesEntry>, vs: Seq<u64>, w: u64)
    requires
        1 <= vs.len() <= w + 1,
        w < u64::MAX,
    ensures
        spec_record_seq(s, vs, w) =~= spec_decay(s, vs.len()) + spec_ramp(vs, w, vs.len()),
        spec_record(s, vs.last(), vs.len() as u64, w) =~= spec_decay(s, vs.len()).push(
            SeriesEntry { remaining_age: w, value: vs.last() },
        ),
    decreases vs.len(),
{
    let n = vs.len();
    assert(vs.len() as u64 as nat == vs.len());
    assert(spec_record(s, vs.last(), vs.len() as u64, w) == spec_decay(s, vs.len()).push(
        SeriesEntry { remaining_age: w, value: vs.last() },
    ));
    if n == 1 {
        assert(spec_record_seq(s, vs.drop_last(), w) =~= s);
        assert(spec_record_seq(s, vs, w) =~= spec_decay(s, 1).push(
            SeriesEntry { remaining_age: w, value: vs.last() },
        ));
        assert(spec_decay(s, 1).push(SeriesEntry { remaining_age: w, value: vs.last() })
            =~= spec_decay(s, 1) + spec_ramp(vs, w, 1));
    } else {
        lemma_burst_equals_single(s, vs.drop_last(), w);
        let prev = spec_record_seq(s, vs.drop_last(), w);
        let ramp_prev = spec_ramp(vs.drop_last(), w, (n - 1) as nat);
        assert(prev =~= spec_decay(s, (n - 1) as nat) + ramp_prev);
        lemma_decay_concat(spec_decay(s, (n - 1) as nat), ramp_prev, 1);
        lemma_decay_additive(s, (n - 1) as nat, 1);
        assert(forall|i: int| 0 <= i < ramp_prev.len() ==> ramp_prev[i].remaining_age >= 1);
        lemma_decay_all_survive(ramp_prev, 1);
        assert(spec_record_seq(s, vs, w) =~= spec_decay(prev, 1).push(
            SeriesEntry { remaining_age: w, value: vs.last() },
        ));
        assert(spec_decay(prev, 1).push(SeriesEntry { remaining_age: w, value: vs.last() })
            =~= spec_decay(s, n) + spec_ramp(vs, w, n));
    }
}

} // verus!
