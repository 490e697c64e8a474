//! The tempo map of a file and the conversion of tick positions to
//! milliseconds.

use crate::midi_file::{AbsoluteEventView, EventType, MidiFile, TrackDataView};
use crate::smf::Timing;
use vstd::prelude::*;

verus! {

/// The tempo in force where no tempo event came before: 120 beats per
/// minute.
pub const DEFAULT_TEMPO: u32 = 500000;

/// A point of the tempo map: from `tick` on, a quarter note lasts `tempo`
/// microseconds.
#[derive(Clone, Copy, Debug, PartialEq, Eq, Structural)]
pub struct TempoChange {
    pub tick: u32,
    pub tempo: u32,
}

/// A span of time in milliseconds as an exact fraction. A denominator of
/// zero comes from a header that declares zero ticks per quarter note or
/// per frame.
#[derive(Clone, Copy, Debug, PartialEq, Eq, Structural)]
pub struct Millis {
    pub numerator: u64,
    pub denominator: u64,
}

/// The ticks of a tempo map never decrease.
pub open spec fn sorted(map: Seq<TempoChange>) -> bool {
    forall|i: int, j: int| 0 <= i <= j < map.len() ==> map[i].tick <= map[j].tick
}

/// The tempo events among the first `n` events, in their order.
pub open spec fn track_changes(events: Seq<AbsoluteEventView>, n: int) -> Seq<TempoChange>
    decreases n,
{
    if n <= 0 {
        Seq::empty()
    } else if events[n - 1].event_type == EventType::MetaSetTempo {
        track_changes(events, n - 1).push(
            TempoChange { tick: events[n - 1].absolute_time, tempo: events[n - 1].tempo },
        )
    } else {
        track_changes(events, n - 1)
    }
}

/// The tempo events of the first `n` tracks, track after track.
pub open spec fn collected_changes(tracks: Seq<TrackDataView>, n: int) -> Seq<TempoChange>
    decreases n,
{
    if n <= 0 {
        Seq::empty()
    } else {
        collected_changes(tracks, n - 1) + track_changes(
            tracks[n - 1].events,
            tracks[n - 1].events.len() as int,
        )
    }
}

/// A sorted map with one more change, placed behind every change that is
/// not later than it.
pub open spec fn insert_change(map: Seq<TempoChange>, change: TempoChange) -> Seq<TempoChange>
    decreases map.len(),
{
    if map.len() == 0 {
        seq![change]
    } else if map.last().tick <= change.tick {
        map.push(change)
    } else {
        insert_change(map.drop_last(), change).push(map.last())
    }
}

/// The first `n` changes sorted by tick; changes at one tick keep their
/// order.
pub open spec fn sorted_changes(changes: Seq<TempoChange>, n: int) -> Seq<TempoChange>
    decreases n,
{
    if n <= 0 {
        Seq::empty()
    } else {
        insert_change(sorted_changes(changes, n - 1), changes[n - 1])
    }
}

/// The tempo map of a file: the tempo events of all its tracks, sorted by
/// tick, those at one tick in the order in which the tracks hold them.
pub open spec fn tempo_map_of(tracks: Seq<TrackDataView>) -> Seq<TempoChange> {
    let collected = collected_changes(tracks, tracks.len() as int);
    sorted_changes(collected, collected.len() as int)
}

/// Tick-microseconds from `last_tick` to `target`: each stretch of ticks
/// times the tempo in force over it, where `tempo` is in force at
/// `last_tick` and the changes of `map` from index `from` on lie ahead. A
/// change takes effect only when its tick is not beyond the target.
pub open spec fn integrate(
    map: Seq<TempoChange>,
    from: int,
    last_tick: int,
    tempo: int,
    target: int,
) -> int
    decreases map.len() - from,
{
    if from < 0 || from >= map.len() || map[from].tick > target {
        (target - last_tick) * tempo
    } else {
        (map[from].tick - last_tick) * tempo + integrate(
            map,
            from + 1,
            map[from].tick as int,
            map[from].tempo as int,
            target,
        )
    }
}

/// Tick-microseconds from tick zero to `target` under a tempo map.
pub open spec fn elapsed(map: Seq<TempoChange>, initial_tempo: u32, target: u32) -> int {
    integrate(map, 0, 0, initial_tempo as int, target as int)
}

/// The milliseconds from tick zero to `ticks`. With metrical timing the
/// tempo map is integrated and divided by a thousand ticks per quarter;
/// with timecode timing the frame rate alone decides.
pub open spec fn millis_of(
    tracks: Seq<TrackDataView>,
    timing: Timing,
    ticks: u32,
    initial_tempo: u32,
) -> (int, int) {
    match timing {
        Timing::Metrical { ticks_per_quarter_note } => (
            elapsed(tempo_map_of(tracks), initial_tempo, ticks),
            ticks_per_quarter_note * 1000,
        ),
        Timing::Timecode { frames_per_second, ticks_per_frame } => if frames_per_second == 29 {
            (ticks * 1001, 30 * ticks_per_frame)
        } else {
            (ticks * 1000, frames_per_second * ticks_per_frame)
        },
    }
}

/// The place of a change in a sorted map: every change from `pos` on is
/// later, and the one before `pos` is not.
pub open spec fn is_place(map: Seq<TempoChange>, change: TempoChange, pos: int) -> bool {
    &&& 0 <= pos <= map.len()
    &&& forall|j: int| pos <= j < map.len() ==> map[j].tick > change.tick
    &&& pos > 0 ==> map[pos - 1].tick <= change.tick
}

/// `insert_change` puts a change at its place.
pub proof fn lemma_insert_position(map: Seq<TempoChange>, change: TempoChange, pos: int)
    requires
        is_place(map, change, pos),
    ensures
        insert_change(map, change) == map.insert(pos, change),
    decreases map.len(),
{
    if map.len() == 0 {
        assert(map.insert(pos, change) =~= seq![change]);
    } else if pos == map.len() {
        assert(map.insert(pos, change) =~= map.push(change));
    } else {
        lemma_insert_position(map.drop_last(), change, pos);
        assert(map.insert(pos, change) =~= map.drop_last().insert(pos, change).push(map.last()));
    }
}

/// Inserting a change into a sorted map leaves it sorted.
pub proof fn lemma_insert_keeps_sorted(map: Seq<TempoChange>, change: TempoChange)
    requires
        sorted(map),
    ensures
        sorted(insert_change(map, change)),
        insert_change(map, change).len() == map.len() + 1,
{
    lemma_place_exists(map, change, map.len() as int);
    let pos = choose|pos: int| is_place(map, change, pos);
    lemma_insert_position(map, change, pos);
    let longer = map.insert(pos, change);
    assert forall|i: int, j: int| 0 <= i <= j < longer.len() implies longer[i].tick
        <= longer[j].tick by {
        if i < pos {
            assert(longer[i] == map[i]);
            assert(map[i].tick <= map[pos - 1].tick);
        } else if i > pos {
            assert(longer[i] == map[i - 1]);
        }
        if j < pos {
            assert(longer[j] == map[j]);
        } else if j > pos {
            assert(longer[j] == map[j - 1]);
        }
    }
}

/// An insertion adds the new change to the changes of the map and takes
/// none away.
pub proof fn lemma_insert_adds_one(map: Seq<TempoChange>, change: TempoChange)
    ensures
        insert_change(map, change).to_multiset() == map.to_multiset().insert(change),
    decreases map.len(),
{
    broadcast use vstd::seq_lib::group_to_multiset_ensures;

    if map.len() == 0 {
        assert(seq![change] =~= map.push(change));
    } else if map.last().tick > change.tick {
        lemma_insert_adds_one(map.drop_last(), change);
        assert(map =~= map.drop_last().push(map.last()));
        assert(insert_change(map, change).to_multiset() =~= map.to_multiset().insert(change));
    }
}

/// Sorting keeps the changes: each occurs in the sorted map as often as
/// among the changes that were sorted.
pub proof fn lemma_sorted_changes_same(changes: Seq<TempoChange>, n: int)
    requires
        0 <= n <= changes.len(),
    ensures
        sorted_changes(changes, n).to_multiset() == changes.take(n).to_multiset(),
    decreases n,
{
    broadcast use vstd::seq_lib::group_to_multiset_ensures;

    if n > 0 {
        lemma_sorted_changes_same(changes, n - 1);
        lemma_insert_adds_one(sorted_changes(changes, n - 1), changes[n - 1]);
        assert(changes.take(n) =~= changes.take(n - 1).push(changes[n - 1]));
    } else {
        assert(changes.take(n) =~= Seq::<TempoChange>::empty());
    }
}

/// The tempo map is sorted, whatever the order of the tempo events.
pub proof fn lemma_sorted_changes_sorted(changes: Seq<TempoChange>, n: int)
    requires
        n <= changes.len(),
    ensures
        sorted(sorted_changes(changes, n)),
        sorted_changes(changes, n).len() == if n <= 0 {
            0
        } else {
            n
        },
    decreases n,
{
    if n > 0 {
        lemma_sorted_changes_sorted(changes, n - 1);
        lemma_insert_keeps_sorted(sorted_changes(changes, n - 1), changes[n - 1]);
    }
}

/// The changes of a map from index `k` on do not count when all of them
/// lie beyond the target.
pub proof fn lemma_integrate_prefix(
    map: Seq<TempoChange>,
    from: int,
    last_tick: int,
    tempo: int,
    target: int,
    k: int,
)
    requires
        0 <= from <= k <= map.len(),
        forall|j: int| k <= j < map.len() ==> map[j].tick > target,
    ensures
        integrate(map, from, last_tick, tempo, target) == integrate(
            map.take(k),
            from,
            last_tick,
            tempo,
            target,
        ),
    decreases k - from,
{
    if from < k && map[from].tick <= target {
        lemma_integrate_prefix(
            map,
            from + 1,
            map[from].tick as int,
            map[from].tempo as int,
            target,
            k,
        );
    }
}

/// A tempo change whose tick lies strictly after the queried position
/// does not affect the elapsed time.
pub proof fn lemma_later_change_ignored(
    map: Seq<TempoChange>,
    change: TempoChange,
    initial_tempo: u32,
    target: u32,
)
    requires
        sorted(map),
        change.tick > target,
    ensures
        elapsed(insert_change(map, change), initial_tempo, target) == elapsed(
            map,
            initial_tempo,
            target,
        ),
{
    lemma_place_exists(map, change, map.len() as int);
    let pos = choose|pos: int| is_place(map, change, pos);
    lemma_insert_position(map, change, pos);
    let longer = map.insert(pos, change);
    lemma_integrate_prefix(longer, 0, 0, initial_tempo as int, target as int, pos);
    lemma_integrate_prefix(map, 0, 0, initial_tempo as int, target as int, pos);
    assert(longer.take(pos) =~= map.take(pos));
}

/// A sorted map has a place for every change.
pub proof fn lemma_place_exists(map: Seq<TempoChange>, change: TempoChange, n: int)
    requires
        sorted(map),
        0 <= n <= map.len(),
        forall|j: int| n <= j < map.len() ==> map[j].tick > change.tick,
    ensures
        exists|pos: int| is_place(map, change, pos),
    decreases n,
{
    if n > 0 && map[n - 1].tick > change.tick {
        lemma_place_exists(map, change, n - 1);
    } else {
        assert(is_place(map, change, n));
    }
}

/// The changes among the first `n` whose tick is not beyond the target,
/// in their order.
pub open spec fn early_changes(changes: Seq<TempoChange>, n: int, target: u32) -> Seq<TempoChange>
    decreases n,
{
    if n <= 0 {
        Seq::empty()
    } else if changes[n - 1].tick <= target {
        early_changes(changes, n - 1, target).push(changes[n - 1])
    } else {
        early_changes(changes, n - 1, target)
    }
}

/// Where a sorted map divides into the changes not beyond the target and
/// those beyond it.
pub open spec fn is_split(map: Seq<TempoChange>, target: u32, k: int) -> bool {
    &&& 0 <= k <= map.len()
    &&& forall|i: int| 0 <= i < k ==> map[i].tick <= target
    &&& forall|i: int| k <= i < map.len() ==> map[i].tick > target
}

/// A sorted map divides somewhere.
pub proof fn lemma_split_exists(map: Seq<TempoChange>, target: u32)
    requires
        sorted(map),
    ensures
        exists|k: int| is_split(map, target, k),
{
    let probe = TempoChange { tick: target, tempo: 0 };
    lemma_place_exists(map, probe, map.len() as int);
    let k = choose|k: int| is_place(map, probe, k);
    assert forall|i: int| 0 <= i < k implies map[i].tick <= target by {
        assert(map[i].tick <= map[k - 1].tick);
    }
    assert(is_split(map, target, k));
}

/// The early changes of a map that divides at `k` are its first `k`
/// changes.
pub proof fn lemma_early_of_split(map: Seq<TempoChange>, n: int, target: u32, k: int)
    requires
        is_split(map, target, k),
        0 <= n <= map.len(),
    ensures
        early_changes(map, n, target) == map.take(if n <= k {
            n
        } else {
            k
        }),
    decreases n,
{
    if n > 0 {
        lemma_early_of_split(map, n - 1, target, k);
        if n <= k {
            assert(map.take(n) =~= map.take(n - 1).push(map[n - 1]));
        }
    } else {
        assert(map.take(0) =~= Seq::<TempoChange>::empty());
    }
}

/// Only the changes that are not beyond the target count for the elapsed
/// time.
pub proof fn lemma_elapsed_of_early(map: Seq<TempoChange>, initial_tempo: u32, target: u32)
    requires
        sorted(map),
    ensures
        elapsed(map, initial_tempo, target) == elapsed(
            early_changes(map, map.len() as int, target),
            initial_tempo,
            target,
        ),
{
    lemma_split_exists(map, target);
    let k = choose|k: int| is_split(map, target, k);
    lemma_early_of_split(map, map.len() as int, target, k);
    lemma_integrate_prefix(map, 0, 0, initial_tempo as int, target as int, k);
}

/// The early changes of a map after an insertion: those of the map, with
/// the new change inserted where it is early itself.
pub proof fn lemma_early_of_insert(map: Seq<TempoChange>, change: TempoChange, target: u32)
    requires
        sorted(map),
    ensures
        early_changes(
            insert_change(map, change),
            insert_change(map, change).len() as int,
            target,
        ) == if change.tick <= target {
            insert_change(early_changes(map, map.len() as int, target), change)
        } else {
            early_changes(map, map.len() as int, target)
        },
{
    lemma_split_exists(map, target);
    let k = choose|k: int| is_split(map, target, k);
    lemma_place_exists(map, change, map.len() as int);
    let pos = choose|pos: int| is_place(map, change, pos);
    lemma_insert_position(map, change, pos);
    lemma_early_of_split(map, map.len() as int, target, k);
    let longer = map.insert(pos, change);
    if change.tick <= target {
        if pos > k {
            assert(map[pos - 1].tick > target);
        }
        assert(is_split(longer, target, k + 1)) by {
            assert forall|i: int| 0 <= i < k + 1 implies longer[i].tick <= target by {
                if i < pos {
                    assert(longer[i] == map[i]);
                } else if i > pos {
                    assert(longer[i] == map[i - 1]);
                }
            }
            assert forall|i: int| k + 1 <= i < longer.len() implies longer[i].tick > target by {
                assert(longer[i] == map[i - 1]);
            }
        }
        lemma_early_of_split(longer, longer.len() as int, target, k + 1);
        assert(is_place(map.take(k), change, pos));
        lemma_insert_position(map.take(k), change, pos);
        assert(longer.take(k + 1) =~= map.take(k).insert(pos, change));
    } else {
        if pos < k {
            assert(map[pos].tick > change.tick);
        }
        assert(is_split(longer, target, k)) by {
            assert forall|i: int| 0 <= i < k implies longer[i].tick <= target by {
                assert(longer[i] == map[i]);
            }
            assert forall|i: int| k <= i < longer.len() implies longer[i].tick > target by {
                if i < pos {
                    assert(longer[i] == map[i]);
                } else if i > pos {
                    assert(longer[i] == map[i - 1]);
                }
            }
        }
        lemma_early_of_split(longer, longer.len() as int, target, k);
        assert(longer.take(k) =~= map.take(k));
    }
}

/// Sorting the first `n` changes looks at no other change.
pub proof fn lemma_sorted_changes_of_prefix(a: Seq<TempoChange>, b: Seq<TempoChange>, n: int)
    requires
        n <= a.len(),
        n <= b.len(),
        forall|i: int| 0 <= i < n ==> a[i] == b[i],
    ensures
        sorted_changes(a, n) == sorted_changes(b, n),
    decreases n,
{
    if n > 0 {
        lemma_sorted_changes_of_prefix(a, b, n - 1);
    }
}

/// Sorting and leaving out the changes beyond the target can be done in
/// either order.
pub proof fn lemma_early_of_sorted(changes: Seq<TempoChange>, n: int, target: u32)
    requires
        0 <= n <= changes.len(),
    ensures
        early_changes(
            sorted_changes(changes, n),
            sorted_changes(changes, n).len() as int,
            target,
        ) == sorted_changes(
            early_changes(changes, n, target),
            early_changes(changes, n, target).len() as int,
        ),
    decreases n,
{
    if n > 0 {
        let before = sorted_changes(changes, n - 1);
        let change = changes[n - 1];
        lemma_early_of_sorted(changes, n - 1, target);
        lemma_sorted_changes_sorted(changes, n - 1);
        lemma_early_of_insert(before, change, target);
        if change.tick <= target {
            let shorter = early_changes(changes, n - 1, target);
            let longer = shorter.push(change);
            lemma_sorted_changes_of_prefix(longer, shorter, shorter.len() as int);
        }
    }
}

/// Two sets of tempo events that differ only in events beyond the queried
/// position give the same elapsed time: a tempo change whose tick lies
/// strictly after the position does not affect the result, wherever among
/// the events it stands.
pub proof fn lemma_later_changes_ignored(
    a: Seq<TempoChange>,
    b: Seq<TempoChange>,
    initial_tempo: u32,
    target: u32,
)
    requires
        early_changes(a, a.len() as int, target) == early_changes(b, b.len() as int, target),
    ensures
        elapsed(sorted_changes(a, a.len() as int), initial_tempo, target) == elapsed(
            sorted_changes(b, b.len() as int),
            initial_tempo,
            target,
        ),
{
    lemma_sorted_changes_sorted(a, a.len() as int);
    lemma_sorted_changes_sorted(b, b.len() as int);
    lemma_elapsed_of_early(sorted_changes(a, a.len() as int), initial_tempo, target);
    lemma_elapsed_of_early(sorted_changes(b, b.len() as int), initial_tempo, target);
    lemma_early_of_sorted(a, a.len() as int, target);
    lemma_early_of_sorted(b, b.len() as int, target);
}

/// Two files with metrical timing whose tempo events differ only beyond
/// the queried position give the same milliseconds for it.
pub proof fn lemma_millis_ignore_later_changes(
    a: Seq<TrackDataView>,
    b: Seq<TrackDataView>,
    ticks_per_quarter_note: u16,
    ticks: u32,
    initial_tempo: u32,
)
    requires
        early_changes(
            collected_changes(a, a.len() as int),
            collected_changes(a, a.len() as int).len() as int,
            ticks,
        ) == early_changes(
            collected_changes(b, b.len() as int),
            collected_changes(b, b.len() as int).len() as int,
            ticks,
        ),
    ensures
        millis_of(a, Timing::Metrical { ticks_per_quarter_note }, ticks, initial_tempo)
            == millis_of(b, Timing::Metrical { ticks_per_quarter_note }, ticks, initial_tempo),
{
    lemma_later_changes_ignored(
        collected_changes(a, a.len() as int),
        collected_changes(b, b.len() as int),
        initial_tempo,
        ticks,
    );
}

/// With timecode timing the tempo events play no part at all.
pub proof fn lemma_timecode_ignores_tempo(
    a: Seq<TrackDataView>,
    b: Seq<TrackDataView>,
    frames_per_second: u8,
    ticks_per_frame: u8,
    ticks: u32,
    tempo_a: u32,
    tempo_b: u32,
)
    ensures
        millis_of(a, Timing::Timecode { frames_per_second, ticks_per_frame }, ticks, tempo_a)
            == millis_of(b, Timing::Timecode { frames_per_second, ticks_per_frame }, ticks, tempo_b),
{
}

/// Inserts a change into a sorted map, behind every change that is not
/// later than it.
pub fn insert_sorted(map: &mut Vec<TempoChange>, change: TempoChange)
    requires
        sorted(old(map)@),
    ensures
        final(map)@ == insert_change(old(map)@, change),
        sorted(final(map)@),
{
    let mut pos: usize = map.len();
    while pos > 0 && map[pos - 1].tick > change.tick
        invariant
            pos <= map.len(),
            map@ == old(map)@,
            forall|j: int| pos <= j < map.len() ==> map[j].tick > change.tick,
        decreases pos,
    {
        pos -= 1;
    }
    proof {
        assert(is_place(map@, change, pos as int));
        lemma_insert_position(map@, change, pos as int);
        lemma_insert_keeps_sorted(map@, change);
    }
    map.insert(pos, change);
}

/// Sorts tempo changes by tick; changes at one tick keep their order.
pub fn sort_changes(changes: &Vec<TempoChange>) -> (r: Vec<TempoChange>)
    ensures
        r@ == sorted_changes(changes@, changes.len() as int),
        sorted(r@),
        r.len() == changes.len(),
        r@.to_multiset() == changes@.to_multiset(),
{
    let mut map: Vec<TempoChange> = Vec::new();
    let mut i: usize = 0;
    while i < changes.len()
        invariant
            i <= changes.len(),
            map@ == sorted_changes(changes@, i as int),
            sorted(map@),
        decreases changes.len() - i,
    {
        insert_sorted(&mut map, changes[i]);
        i += 1;
    }
    proof {
        lemma_sorted_changes_sorted(changes@, changes.len() as int);
        lemma_sorted_changes_same(changes@, changes.len() as int);
        assert(changes@.take(changes.len() as int) =~= changes@);
    }
    map
}

/// Tick-microseconds from tick zero to `target` under a sorted tempo map,
/// with `initial_tempo` in force until the first change.
pub fn elapsed_tick_micros(map: &Vec<TempoChange>, target: u32, initial_tempo: u32) -> (r: u64)
    requires
        sorted(map@),
    ensures
        r == elapsed(map@, initial_tempo, target),
{
    let mut total: u64 = 0;
    let mut last_tick: u32 = 0;
    let mut tempo: u32 = initial_tempo;
    let mut i: usize = 0;
    while i < map.len() && map[i].tick <= target
        invariant
            i <= map.len(),
            sorted(map@),
            last_tick <= target,
            i == 0 ==> last_tick == 0,
            i > 0 ==> last_tick == map[i - 1].tick,
            total <= last_tick * 0xFFFF_FFFF,
            total + integrate(map@, i as int, last_tick as int, tempo as int, target as int)
                == elapsed(map@, initial_tempo, target),
        decreases map.len() - i,
    {
        let change = map[i];
        assert(last_tick <= change.tick) by {
            if i > 0 {
                assert(map[i - 1].tick <= map[i as int].tick);
            }
        }
        let span: u64 = (change.tick - last_tick) as u64;
        assert(span * tempo <= span * 0xFFFF_FFFF) by (nonlinear_arith)
            requires
                tempo <= 0xFFFF_FFFF,
                span >= 0,
        ;
        assert(last_tick * 0xFFFF_FFFF + span * 0xFFFF_FFFF == change.tick * 0xFFFF_FFFF)
            by (nonlinear_arith)
            requires
                span == change.tick - last_tick,
        ;
        assert(change.tick * 0xFFFF_FFFF <= 0xFFFF_FFFF * 0xFFFF_FFFF) by (nonlinear_arith)
            requires
                change.tick <= 0xFFFF_FFFF,
        ;
        total = total + span * (tempo as u64);
        last_tick = change.tick;
        tempo = change.tempo;
        i += 1;
    }
    let span: u64 = (target - last_tick) as u64;
    assert(span * tempo <= span * 0xFFFF_FFFF) by (nonlinear_arith)
        requires
            tempo <= 0xFFFF_FFFF,
            span >= 0,
    ;
    assert(last_tick * 0xFFFF_FFFF + span * 0xFFFF_FFFF == target * 0xFFFF_FFFF)
        by (nonlinear_arith)
        requires
            span == target - last_tick,
    ;
    assert(target * 0xFFFF_FFFF <= 0xFFFF_FFFF * 0xFFFF_FFFF) by (nonlinear_arith)
        requires
            target <= 0xFFFF_FFFF,
    ;
    total + span * (tempo as u64)
}

impl MidiFile {
    /// The tempo events of all tracks, track after track, unsorted.
    pub fn collect_tempo_changes(&self) -> (r: Vec<TempoChange>)
        ensures
            r@ == collected_changes(self@.tracks, self.tracks.len() as int),
    {
        let mut changes: Vec<TempoChange> = Vec::new();
        let mut t: usize = 0;
        while t < self.tracks.len()
            invariant
                t <= self.tracks.len(),
                changes@ == collected_changes(self@.tracks, t as int),
            decreases self.tracks.len() - t,
        {
            let track = &self.tracks[t];
            let ghost before = changes@;
            let ghost events = self@.tracks[t as int].events;
            assert(events.len() == track.events.len());
            let mut e: usize = 0;
            while e < track.events.len()
                invariant
                    e <= track.events.len(),
                    events == self@.tracks[t as int].events,
                    events.len() == track.events.len(),
                    forall|k: int| 0 <= k < events.len() ==> events[k] == track.events[k]@,
                    changes@ == before + track_changes(events, e as int),
                decreases track.events.len() - e,
            {
                let event = &track.events[e];
                assert(events[e as int] == event@);
                if event.event_type == EventType::MetaSetTempo {
                    changes.push(TempoChange { tick: event.absolute_time, tempo: event.tempo });
                }
                assert(changes@ =~= before + track_changes(events, e + 1));
                e += 1;
            }
            t += 1;
        }
        changes
    }

    /// The tempo map of the file: its tempo events sorted by tick.
    pub fn tempo_map(&self) -> (r: Vec<TempoChange>)
        ensures
            r@ == tempo_map_of(self@.tracks),
            sorted(r@),
            r@.to_multiset() == collected_changes(
                self@.tracks,
                self.tracks.len() as int,
            ).to_multiset(),
    {
        let changes = self.collect_tempo_changes();
        sort_changes(&changes)
    }

    /// The milliseconds from tick zero to `ticks`, as an exact fraction.
    /// With metrical timing every stretch between tempo changes counts at
    /// its own tempo; `tempo_override` replaces the default tempo in force
    /// before the first change. With timecode timing the tempo plays no
    /// part.
    pub fn ticks_to_ms(&self, ticks: u32, tempo_override: Option<u32>) -> (r: Millis)
        ensures
            (r.numerator as int, r.denominator as int) == millis_of(
                self@.tracks,
                self.timing,
                ticks,
                match tempo_override {
                    Some(tempo) => tempo,
                    None => DEFAULT_TEMPO,
                },
            ),
    {
        match self.timing {
            Timing::Metrical { ticks_per_quarter_note } => {
                let initial_tempo = match tempo_override {
                    Some(tempo) => tempo,
                    None => DEFAULT_TEMPO,
                };
                let map = self.tempo_map();
                Millis {
                    numerator: elapsed_tick_micros(&map, ticks, initial_tempo),
                    denominator: (ticks_per_quarter_note as u64) * 1000,
                }
            },
            Timing::Timecode { frames_per_second, ticks_per_frame } => {
                if frames_per_second == 29 {
                    Millis {
                        numerator: (ticks as u64) * 1001,
                        denominator: 30 * (ticks_per_frame as u64),
                    }
                } else {
                    assert(frames_per_second * ticks_per_frame <= 255 * 255) by (nonlinear_arith)
                        requires
                            frames_per_second <= 255,
                            ticks_per_frame <= 255,
                    ;
                    Millis {
                        numerator: (ticks as u64) * 1000,
                        denominator: (frames_per_second as u64) * (ticks_per_frame as u64),
                    }
                }
            },
        }
    }
}

} // verus!
