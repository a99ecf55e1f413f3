use std::collections::HashMap;
use std::collections::VecDeque;
use vstd::prelude::*;

verus! {

broadcast use vstd::std_specs::hash::group_hash_axioms;

/// The bookkeeping of a pool of voices, as two queues of voice indices.
///
/// `free` holds the idle voices in the order in which they will be handed out.
/// `used` holds the sounding voices with the note that each plays, from the
/// least recently started to the most recently started.
pub struct VoiceAllocation {
    pub free: Seq<usize>,
    pub used: Seq<(usize, u8)>,
}

/// The note-to-voice map that a queue of sounding voices describes.
pub open spec fn note_map(used: Seq<(usize, u8)>) -> Map<u8, usize>
    decreases used.len(),
{
    if used.len() == 0 {
        Map::empty()
    } else {
        note_map(used.drop_last()).insert(used.last().1, used.last().0)
    }
}

/// `used` without its first entry for `voice` (unchanged when there is none).
pub open spec fn remove_voice(used: Seq<(usize, u8)>, voice: usize) -> Seq<(usize, u8)>
    decreases used.len(),
{
    if used.len() == 0 {
        used
    } else if used[0].0 == voice {
        used.drop_first()
    } else {
        seq![used[0]] + remove_voice(used.drop_first(), voice)
    }
}

impl VoiceAllocation {
    /// Every one of the `capacity` voices is either free or sounding, exactly once,
    /// and no note is sounding on two voices.
    pub open spec fn wf(self, capacity: nat) -> bool {
        &&& self.free.len() + self.used.len() == capacity
        &&& forall|a: int| 0 <= a < self.free.len() ==> #[trigger] self.free[a] < capacity
        &&& forall|a: int| 0 <= a < self.used.len() ==> #[trigger] self.used[a].0 < capacity
        &&& forall|a: int, b: int|
            0 <= a < self.free.len() && 0 <= b < self.free.len() && a != b ==> #[trigger] self.free[a]
                != #[trigger] self.free[b]
        &&& forall|a: int, b: int|
            0 <= a < self.used.len() && 0 <= b < self.used.len() && a != b ==> #[trigger] self.used[a].0
                != #[trigger] self.used[b].0
        &&& forall|a: int, b: int|
            0 <= a < self.used.len() && 0 <= b < self.used.len() && a != b ==> #[trigger] self.used[a].1
                != #[trigger] self.used[b].1
        &&& forall|a: int, b: int|
            0 <= a < self.free.len() && 0 <= b < self.used.len() ==> #[trigger] self.free[a]
                != #[trigger] self.used[b].0
    }

    /// Which voice each sounding note plays on.
    pub open spec fn notes(self) -> Map<u8, usize> {
        note_map(self.used)
    }

    /// The allocation after a note starts, and the voice that plays it: the voice
    /// that already plays the note, else the first free voice, else the voice of
    /// the least recently started note, which is taken from it.
    pub open spec fn voice_on(self, note: u8) -> (VoiceAllocation, usize) {
        if self.notes().contains_key(note) {
            let i = self.notes()[note];
            (VoiceAllocation { free: self.free, used: remove_voice(self.used, i).push((i, note)) }, i)
        } else if self.free.len() > 0 {
            let i = self.free[0];
            (VoiceAllocation { free: self.free.drop_first(), used: self.used.push((i, note)) }, i)
        } else {
            let i = self.used[0].0;
            (VoiceAllocation { free: self.free, used: self.used.drop_first().push((i, note)) }, i)
        }
    }

    /// The allocation after a note stops, and the voice that it freed, if it sounded.
    pub open spec fn voice_off(self, note: u8) -> (VoiceAllocation, Option<usize>) {
        if self.notes().contains_key(note) {
            let i = self.notes()[note];
            (VoiceAllocation { free: self.free.push(i), used: remove_voice(self.used, i) }, Some(i))
        } else {
            (self, None)
        }
    }
}

/// What the note map holds: exactly the notes of the queue, each with its voice.
proof fn lemma_note_map(used: Seq<(usize, u8)>)
    requires
        forall|a: int, b: int|
            0 <= a < used.len() && 0 <= b < used.len() && a != b ==> #[trigger] used[a].1
                != #[trigger] used[b].1,
    ensures
        forall|k: int|
            0 <= k < used.len() ==> #[trigger] note_map(used).contains_key(used[k].1) && note_map(
                used,
            )[used[k].1] == used[k].0,
        forall|n: u8|
            #[trigger] note_map(used).contains_key(n) ==> exists|k: int|
                0 <= k < used.len() && #[trigger] used[k].1 == n,
    decreases used.len(),
{
    if used.len() > 0 {
        let init = used.drop_last();
        assert forall|a: int, b: int|
            0 <= a < init.len() && 0 <= b < init.len() && a != b implies #[trigger] init[a].1
            != #[trigger] init[b].1 by {
            assert(init[a] == used[a] && init[b] == used[b]);
        }
        lemma_note_map(init);
        assert(note_map(used) == note_map(init).insert(used.last().1, used.last().0));
        assert forall|k: int| 0 <= k < used.len() implies #[trigger] note_map(used).contains_key(
            used[k].1,
        ) && note_map(used)[used[k].1] == used[k].0 by {
            if k < used.len() - 1 {
                assert(init[k] == used[k]);
                assert(used[k].1 != used[used.len() - 1].1);
            }
        }
        assert forall|n: u8| #[trigger] note_map(used).contains_key(n) implies exists|k: int|
            0 <= k < used.len() && #[trigger] used[k].1 == n by {
            if n != used.last().1 {
                assert(note_map(init).contains_key(n));
                let k = choose|k: int| 0 <= k < init.len() && #[trigger] init[k].1 == n;
                assert(init[k] == used[k]);
            } else {
                assert(used[used.len() - 1].1 == n);
            }
        }
    }
}

/// Removing the first entry of a voice removes it at its position.
proof fn lemma_remove_voice_at(used: Seq<(usize, u8)>, voice: usize, k: int)
    requires
        0 <= k < used.len(),
        used[k].0 == voice,
        forall|j: int| 0 <= j < k ==> #[trigger] used[j].0 != voice,
    ensures
        remove_voice(used, voice) == used.remove(k),
    decreases used.len(),
{
    if k > 0 {
        let rest = used.drop_first();
        assert forall|j: int| 0 <= j < k - 1 implies #[trigger] rest[j].0 != voice by {
            assert(rest[j] == used[j + 1]);
        }
        lemma_remove_voice_at(rest, voice, k - 1);
        assert(used[0].0 != voice);
        assert(remove_voice(used, voice) =~= used.remove(k));
    } else {
        assert(used.drop_first() =~= used.remove(0));
    }
}

/// A queue without an entry for a voice is left as it is.
proof fn lemma_remove_voice_absent(used: Seq<(usize, u8)>, voice: usize)
    requires
        forall|j: int| 0 <= j < used.len() ==> #[trigger] used[j].0 != voice,
    ensures
        remove_voice(used, voice) == used,
    decreases used.len(),
{
    if used.len() > 0 {
        let rest = used.drop_first();
        assert forall|j: int| 0 <= j < rest.len() implies #[trigger] rest[j].0 != voice by {
            assert(rest[j] == used[j + 1]);
        }
        lemma_remove_voice_absent(rest, voice);
        assert(used[0].0 != voice);
        assert(seq![used[0]] + rest =~= used);
    }
}

/// Removing an entry from the queue removes its note from the map.
proof fn lemma_note_map_remove(used: Seq<(usize, u8)>, k: int)
    requires
        0 <= k < used.len(),
        forall|a: int, b: int|
            0 <= a < used.len() && 0 <= b < used.len() && a != b ==> #[trigger] used[a].1
                != #[trigger] used[b].1,
    ensures
        note_map(used.remove(k)) == note_map(used).remove(used[k].1),
    decreases used.len(),
{
    let last = used.len() - 1;
    let init = used.drop_last();
    if k == last {
        assert(used.remove(k) =~= init);
        lemma_note_map(init);
        if note_map(init).contains_key(used[k].1) {
            let j = choose|j: int| 0 <= j < init.len() && #[trigger] init[j].1 == used[k].1;
            assert(used[j].1 == used[k].1);
        }
        assert(note_map(init) =~= note_map(used).remove(used[k].1));
    } else {
        assert forall|a: int, b: int|
            0 <= a < init.len() && 0 <= b < init.len() && a != b implies #[trigger] init[a].1
            != #[trigger] init[b].1 by {
            assert(init[a] == used[a] && init[b] == used[b]);
        }
        lemma_note_map_remove(init, k);
        let removed = used.remove(k);
        assert(removed.drop_last() =~= init.remove(k));
        assert(removed.last() == used.last());
        assert(used[k].1 != used[last].1);
        assert(note_map(removed) =~= note_map(used).remove(used[k].1));
    }
}

/// Pushing an entry on the queue adds its note to the map.
proof fn lemma_note_map_push(used: Seq<(usize, u8)>, entry: (usize, u8))
    ensures
        note_map(used.push(entry)) == note_map(used).insert(entry.1, entry.0),
{
    assert(used.push(entry).drop_last() =~= used);
}

/// The voice pool stays well formed when a note starts, the note then plays on
/// the voice that was picked, and the map of sounding notes changes as stated.
pub proof fn lemma_voice_on(a: VoiceAllocation, note: u8, capacity: nat)
    requires
        a.wf(capacity),
        capacity > 0,
    ensures
        a.voice_on(note).0.wf(capacity),
        a.voice_on(note).1 < capacity,
        a.voice_on(note).0.notes().contains_key(note),
        a.voice_on(note).0.notes()[note] == a.voice_on(note).1,
        a.notes().contains_key(note) ==> a.voice_on(note).0.notes() == a.notes(),
        !a.notes().contains_key(note) && a.free.len() > 0 ==> a.voice_on(note).0.notes()
            == a.notes().insert(note, a.free[0]),
        !a.notes().contains_key(note) && a.free.len() == 0 ==> a.voice_on(note).0.notes()
            == a.notes().remove(a.used[0].1).insert(note, a.used[0].0),
{
    lemma_note_map(a.used);
    let (b, i) = a.voice_on(note);
    if a.notes().contains_key(note) {
        let k = choose|k: int| 0 <= k < a.used.len() && #[trigger] a.used[k].1 == note;
        assert(a.used[k].0 == i);
        lemma_remove_voice_at(a.used, i, k);
        lemma_note_map_remove(a.used, k);
        let r = a.used.remove(k);
        lemma_note_map_push(r, (i, note));
        assert(b.notes() =~= a.notes().insert(note, i));
        assert(a.notes().insert(note, i) =~= a.notes());
        assert forall|x: int| 0 <= x < r.len() implies #[trigger] r[x].0 != i && r[x].1 != note by {
            if x < k {
                assert(r[x] == a.used[x]);
            } else {
                assert(r[x] == a.used[x + 1]);
            }
        }
        assert(b.wf(capacity)) by {
            assert forall|x: int, y: int|
                0 <= x < b.used.len() && 0 <= y < b.used.len() && x != y implies #[trigger] b.used[x].0
                != #[trigger] b.used[y].0 && b.used[x].1 != b.used[y].1 by {
                if x < r.len() && y < r.len() {
                    let x0 = if x < k { x } else { x + 1 };
                    let y0 = if y < k { y } else { y + 1 };
                    assert(r[x] == a.used[x0]);
                    assert(r[y] == a.used[y0]);
                } else if x < r.len() {
                    assert(b.used[x] == r[x]);
                } else {
                    assert(b.used[y] == r[y]);
                }
            }
            assert forall|x: int| 0 <= x < b.used.len() implies #[trigger] b.used[x].0 < capacity by {
                if x < r.len() {
                    let x0 = if x < k { x } else { x + 1 };
                    assert(r[x] == a.used[x0]);
                }
            }
            assert forall|x: int, y: int|
                0 <= x < b.free.len() && 0 <= y < b.used.len() implies #[trigger] b.free[x]
                != #[trigger] b.used[y].0 by {
                if y < r.len() {
                    let y0 = if y < k { y } else { y + 1 };
                    assert(r[y] == a.used[y0]);
                } else {
                    assert(a.free[x] != a.used[k].0);
                }
            }
        }
    } else if a.free.len() > 0 {
        lemma_note_map_push(a.used, (i, note));
        assert(b.wf(capacity)) by {
            assert forall|x: int, y: int|
                0 <= x < b.used.len() && 0 <= y < b.used.len() && x != y implies #[trigger] b.used[x].0
                != #[trigger] b.used[y].0 && b.used[x].1 != b.used[y].1 by {
                if x < a.used.len() && y < a.used.len() {
                } else if x < a.used.len() {
                    assert(a.free[0] != a.used[x].0);
                    if a.used[x].1 == note {
                        assert(a.notes().contains_key(a.used[x].1));
                    }
                } else {
                    assert(a.free[0] != a.used[y].0);
                    if a.used[y].1 == note {
                        assert(a.notes().contains_key(a.used[y].1));
                    }
                }
            }
            assert forall|x: int, y: int|
                0 <= x < b.free.len() && 0 <= y < b.free.len() && x != y implies #[trigger] b.free[x]
                != #[trigger] b.free[y] by {
                assert(b.free[x] == a.free[x + 1] && b.free[y] == a.free[y + 1]);
            }
            assert forall|x: int, y: int|
                0 <= x < b.free.len() && 0 <= y < b.used.len() implies #[trigger] b.free[x]
                != #[trigger] b.used[y].0 by {
                assert(b.free[x] == a.free[x + 1]);
                if y == a.used.len() {
                    assert(a.free[x + 1] != a.free[0]);
                }
            }
            assert forall|x: int| 0 <= x < b.free.len() implies #[trigger] b.free[x] < capacity by {
                assert(b.free[x] == a.free[x + 1]);
            }
        }
    } else {
        lemma_note_map_remove(a.used, 0);
        let r = a.used.remove(0);
        assert(r =~= a.used.drop_first());
        lemma_note_map_push(r, (i, note));
        assert(b.wf(capacity)) by {
            assert forall|x: int, y: int|
                0 <= x < b.used.len() && 0 <= y < b.used.len() && x != y implies #[trigger] b.used[x].0
                != #[trigger] b.used[y].0 && b.used[x].1 != b.used[y].1 by {
                if x < r.len() && y < r.len() {
                    assert(r[x] == a.used[x + 1] && r[y] == a.used[y + 1]);
                } else if x < r.len() {
                    assert(r[x] == a.used[x + 1]);
                    if a.used[x + 1].1 == note {
                        assert(a.notes().contains_key(a.used[x + 1].1));
                    }
                } else {
                    assert(r[y] == a.used[y + 1]);
                    if a.used[y + 1].1 == note {
                        assert(a.notes().contains_key(a.used[y + 1].1));
                    }
                }
            }
            assert forall|x: int| 0 <= x < b.used.len() implies #[trigger] b.used[x].0 < capacity by {
                if x < r.len() {
                    assert(r[x] == a.used[x + 1]);
                }
            }
        }
        assert(b.notes() =~= a.notes().remove(a.used[0].1).insert(note, i));
    }
}

/// The voice pool stays well formed when a note stops, and the note leaves the
/// map of sounding notes.
pub proof fn lemma_voice_off(a: VoiceAllocation, note: u8, capacity: nat)
    requires
        a.wf(capacity),
    ensures
        a.voice_off(note).0.wf(capacity),
        a.voice_off(note).0.notes() == a.notes().remove(note),
        a.voice_off(note).1 is Some ==> a.voice_off(note).1->0 < capacity,
{
    lemma_note_map(a.used);
    let (b, res) = a.voice_off(note);
    if a.notes().contains_key(note) {
        let i = a.notes()[note];
        let k = choose|k: int| 0 <= k < a.used.len() && #[trigger] a.used[k].1 == note;
        assert(a.used[k].0 == i);
        lemma_remove_voice_at(a.used, i, k);
        lemma_note_map_remove(a.used, k);
        let r = a.used.remove(k);
        assert(b.wf(capacity)) by {
            assert forall|x: int, y: int|
                0 <= x < b.used.len() && 0 <= y < b.used.len() && x != y implies #[trigger] b.used[x].0
                != #[trigger] b.used[y].0 && b.used[x].1 != b.used[y].1 by {
                let x0 = if x < k { x } else { x + 1 };
                let y0 = if y < k { y } else { y + 1 };
                assert(r[x] == a.used[x0]);
                assert(r[y] == a.used[y0]);
            }
            assert forall|x: int| 0 <= x < b.used.len() implies #[trigger] b.used[x].0 < capacity by {
                let x0 = if x < k { x } else { x + 1 };
                assert(r[x] == a.used[x0]);
            }
            assert forall|x: int, y: int|
                0 <= x < b.free.len() && 0 <= y < b.free.len() && x != y implies #[trigger] b.free[x]
                != #[trigger] b.free[y] by {
                if x == a.free.len() {
                    assert(a.free[y] != a.used[k].0);
                } else if y == a.free.len() {
                    assert(a.free[x] != a.used[k].0);
                }
            }
            assert forall|x: int, y: int|
                0 <= x < b.free.len() && 0 <= y < b.used.len() implies #[trigger] b.free[x]
                != #[trigger] b.used[y].0 by {
                let y0 = if y < k { y } else { y + 1 };
                assert(r[y] == a.used[y0]);
            }
        }
    } else {
        assert(a.notes().remove(note) =~= a.notes());
    }
}

/// A note stopped right after it started frees the very voice it was given.
pub proof fn law_voice_off_undoes_voice_on(a: VoiceAllocation, note: u8, capacity: nat)
    requires
        a.wf(capacity),
        capacity > 0,
    ensures
        a.voice_on(note).0.voice_off(note).1 == Some(a.voice_on(note).1),
        a.voice_on(note).0.voice_off(note).0.notes() == a.voice_on(note).0.notes().remove(note),
{
    lemma_voice_on(a, note, capacity);
    lemma_voice_off(a.voice_on(note).0, note, capacity);
}

/// A started note becomes the most recently started one, so it is the last to be
/// stolen; a stopped note's voice is the last to be handed out again.
pub proof fn law_recency_order(a: VoiceAllocation, note: u8, capacity: nat)
    requires
        a.wf(capacity),
        capacity > 0,
    ensures
        a.voice_on(note).0.used.last() == (a.voice_on(note).1, note),
        a.notes().contains_key(note) ==> a.voice_off(note).0.free == a.free.push(a.notes()[note]),
{
}

/// Stopping a sounding note takes exactly its entry out of the queue of sounding
/// notes, leaving the others in the order in which they started, and puts its
/// voice at the back of the free voices; the next voice stolen is therefore
/// still that of the note that started longest ago.
pub proof fn law_voice_off_keeps_start_order(a: VoiceAllocation, note: u8, capacity: nat, k: int)
    requires
        a.wf(capacity),
        0 <= k < a.used.len(),
        a.used[k].1 == note,
    ensures
        a.voice_off(note).1 == Some(a.used[k].0),
        a.voice_off(note).0.used == a.used.remove(k),
        a.voice_off(note).0.free == a.free.push(a.used[k].0),
{
    lemma_note_map(a.used);
    assert forall|j: int| 0 <= j < k implies #[trigger] a.used[j].0 != a.used[k].0 by {}
    lemma_remove_voice_at(a.used, a.used[k].0, k);
}

/// Starting a note changes the queues as follows: a sounding note moves from its
/// place to the back of the sounding queue; otherwise the first free voice leaves
/// the free queue, or, with none free, the entry of the oldest sounding note
/// leaves the front of the sounding queue; the new note's entry goes to the back.
pub proof fn law_voice_on_queues(a: VoiceAllocation, note: u8, capacity: nat)
    requires
        a.wf(capacity),
        capacity > 0,
    ensures
        forall|k: int|
            0 <= k < a.used.len() && #[trigger] a.used[k].1 == note ==> {
                &&& a.voice_on(note).1 == a.used[k].0
                &&& a.voice_on(note).0.used == a.used.remove(k).push((a.used[k].0, note))
                &&& a.voice_on(note).0.free == a.free
            },
        (forall|k: int| 0 <= k < a.used.len() ==> #[trigger] a.used[k].1 != note) && a.free.len()
            > 0 ==> {
            &&& a.voice_on(note).1 == a.free[0]
            &&& a.voice_on(note).0.used == a.used.push((a.free[0], note))
            &&& a.voice_on(note).0.free == a.free.drop_first()
        },
        (forall|k: int| 0 <= k < a.used.len() ==> #[trigger] a.used[k].1 != note) && a.free.len()
            == 0 ==> {
            &&& a.voice_on(note).1 == a.used[0].0
            &&& a.voice_on(note).0.used == a.used.drop_first().push((a.used[0].0, note))
            &&& a.voice_on(note).0.free == a.free
        },
{
    lemma_note_map(a.used);
    assert forall|k: int| 0 <= k < a.used.len() && #[trigger] a.used[k].1 == note implies {
        &&& a.voice_on(note).1 == a.used[k].0
        &&& a.voice_on(note).0.used == a.used.remove(k).push((a.used[k].0, note))
        &&& a.voice_on(note).0.free == a.free
    } by {
        assert forall|j: int| 0 <= j < k implies #[trigger] a.used[j].0 != a.used[k].0 by {}
        lemma_remove_voice_at(a.used, a.used[k].0, k);
    }
    if forall|k: int| 0 <= k < a.used.len() ==> #[trigger] a.used[k].1 != note {
        if a.notes().contains_key(note) {
            let k = choose|k: int| 0 <= k < a.used.len() && #[trigger] a.used[k].1 == note;
            assert(a.used[k].1 != note);
        }
    }
}

/// A note that is already sounding keeps its voice when it starts again, and the
/// other sounding notes keep theirs.
pub proof fn law_retrigger_keeps_voice(a: VoiceAllocation, note: u8, capacity: nat)
    requires
        a.wf(capacity),
        capacity > 0,
        a.notes().contains_key(note),
    ensures
        a.voice_on(note).1 == a.notes()[note],
        a.voice_on(note).0.notes() == a.notes(),
        a.voice_on(note).0.free == a.free,
{
    lemma_voice_on(a, note, capacity);
}

/// Stopping a note that is not sounding changes nothing and frees no voice.
pub proof fn law_voice_off_silent_note(a: VoiceAllocation, note: u8)
    requires
        !a.notes().contains_key(note),
    ensures
        a.voice_off(note) == (a, None::<usize>),
{
}

/// Two different sounding notes never share a voice, and every sounding note's
/// voice is one of the pool's.
pub proof fn law_distinct_voices(a: VoiceAllocation, capacity: nat, n1: u8, n2: u8)
    requires
        a.wf(capacity),
        a.notes().contains_key(n1),
        a.notes().contains_key(n2),
        n1 != n2,
    ensures
        a.notes()[n1] != a.notes()[n2],
        a.notes()[n1] < capacity,
{
    lemma_note_map(a.used);
    let k1 = choose|k: int| 0 <= k < a.used.len() && #[trigger] a.used[k].1 == n1;
    let k2 = choose|k: int| 0 <= k < a.used.len() && #[trigger] a.used[k].1 == n2;
    assert(a.used[k1].0 != a.used[k2].0);
}

/// The note map has one entry per queued note.
proof fn lemma_note_map_len(used: Seq<(usize, u8)>)
    requires
        forall|a: int, b: int|
            0 <= a < used.len() && 0 <= b < used.len() && a != b ==> #[trigger] used[a].1
                != #[trigger] used[b].1,
    ensures
        note_map(used).dom().finite(),
        note_map(used).dom().len() == used.len(),
    decreases used.len(),
{
    if used.len() > 0 {
        let init = used.drop_last();
        assert forall|a: int, b: int|
            0 <= a < init.len() && 0 <= b < init.len() && a != b implies #[trigger] init[a].1
            != #[trigger] init[b].1 by {
            assert(init[a] == used[a] && init[b] == used[b]);
        }
        lemma_note_map_len(init);
        lemma_note_map(init);
        if note_map(init).contains_key(used.last().1) {
            let j = choose|j: int| 0 <= j < init.len() && #[trigger] init[j].1 == used.last().1;
            assert(used[j].1 == used[used.len() - 1].1);
        }
        assert(note_map(used).dom() =~= note_map(init).dom().insert(used.last().1));
    } else {
        assert(note_map(used).dom() =~= Set::<u8>::empty());
    }
}

/// The pool never sounds more notes than it has voices; the free voices and the
/// sounding notes together account for all of them.
pub proof fn law_polyphony_bound(a: VoiceAllocation, capacity: nat)
    requires
        a.wf(capacity),
    ensures
        a.notes().dom().len() + a.free.len() == capacity,
        a.notes().dom().len() <= capacity,
{
    lemma_note_map_len(a.used);
}

/// With no free voice, a new note takes the voice of the note that started longest
/// ago, which stops sounding; every other note keeps its voice.
pub proof fn law_steal_oldest(a: VoiceAllocation, note: u8, capacity: nat, other: u8)
    requires
        a.wf(capacity),
        capacity > 0,
        a.free.len() == 0,
        !a.notes().contains_key(note),
        a.notes().contains_key(other),
        other != a.used[0].1,
    ensures
        a.voice_on(note).1 == a.used[0].0,
        !a.voice_on(note).0.notes().contains_key(a.used[0].1),
        a.voice_on(note).0.notes().contains_key(other),
        a.voice_on(note).0.notes()[other] == a.notes()[other],
{
    lemma_voice_on(a, note, capacity);
    lemma_note_map(a.used);
}

/// While a voice is free, a new note takes the first free one and no sounding note
/// loses its voice.
pub proof fn law_free_voice_first(a: VoiceAllocation, note: u8, capacity: nat, other: u8)
    requires
        a.wf(capacity),
        capacity > 0,
        a.free.len() > 0,
        !a.notes().contains_key(note),
        a.notes().contains_key(other),
    ensures
        a.voice_on(note).1 == a.free[0],
        a.voice_on(note).0.notes().contains_key(other),
        a.voice_on(note).0.notes()[other] == a.notes()[other],
{
    lemma_voice_on(a, note, capacity);
}

/// A fixed pool of voices that notes are assigned to as they start and stop.
///
/// A note that starts takes a free voice; when none is free it takes the voice of
/// the note that started longest ago.
#[derive(Clone, Debug)]
pub struct Voices<T> {
    pub voices: Vec<T>,
    note_voice_map: HashMap<u8, usize>,
    free_voices: VecDeque<usize>,
    used_voices: VecDeque<(usize, u8)>,
}

impl<T> Voices<T> {
    /// The free and sounding voices of the pool.
    pub closed spec fn allocation(&self) -> VoiceAllocation {
        VoiceAllocation { free: self.free_voices@, used: self.used_voices@ }
    }

    /// The voices of the pool, in their order.
    pub closed spec fn voice_list(&self) -> Seq<T> {
        self.voices@
    }

    /// The pool's bookkeeping covers each of its voices exactly once.
    pub closed spec fn wf(&self) -> bool {
        &&& self.allocation().wf(self.voices.len() as nat)
        &&& self.note_voice_map@ == note_map(self.used_voices@)
    }

    /// A pool over the given voices, all of them free, in their order.
    pub fn new(voices: Vec<T>) -> (pool: Self)
        ensures
            pool.wf(),
            pool.allocation().wf(pool.voice_list().len() as nat),
            pool.voice_list() == voices@,
            pool.allocation().used == Seq::<(usize, u8)>::empty(),
            pool.allocation().free == Seq::new(voices.len() as nat, |i: int| i as usize),
    {
        let voice_count = voices.len();
        let mut free_voices: VecDeque<usize> = VecDeque::new();
        for i in 0..voice_count
            invariant
                free_voices@ == Seq::new(i as nat, |j: int| j as usize),
        {
            free_voices.push_back(i);
            assert(free_voices@ =~= Seq::new((i + 1) as nat, |j: int| j as usize));
        }
        let pool = Voices {
            voices: voices,
            note_voice_map: HashMap::new(),
            free_voices: free_voices,
            used_voices: VecDeque::new(),
        };
        assert(pool.note_voice_map@ =~= note_map(pool.used_voices@));
        pool
    }

    /// Starts `note`, and returns the voice that is to play it.
    pub fn voice_on(&mut self, note: u8) -> (voice: &mut T)
        requires
            old(self).wf(),
            old(self).voice_list().len() > 0,
        ensures
            final(self).wf(),
            final(self).allocation().wf(final(self).voice_list().len() as nat),
            final(self).allocation() == old(self).allocation().voice_on(note).0,
            *voice == old(self).voice_list()[old(self).allocation().voice_on(note).1 as int],
            final(self).voice_list() == old(self).voice_list().update(
                old(self).allocation().voice_on(note).1 as int,
                *final(voice),
            ),
    {
        proof {
            lemma_voice_on(self.allocation(), note, self.voices.len() as nat);
        }
        let found: Option<usize> = match self.note_voice_map.get(&note) {
            Some(v) => Some(*v),
            None => None,
        };
        let i = match found {
            Some(i) => {
                self.remove_from_used_queue(i);
                i
            },
            None => {
                let i = match self.free_voices.pop_front() {
                    Some(i) => i,
                    None => {
                        let (i, old_note) = self.used_voices.pop_front().unwrap();
                        self.note_voice_map.remove(&old_note);
                        i
                    },
                };
                self.note_voice_map.insert(note, i);
                i
            },
        };
        self.used_voices.push_back((i, note));
        &mut self.voices[i]
    }

    /// Stops `note`, and returns the voice that played it, which is free again;
    /// `None` when the note was not sounding.
    pub fn voice_off(&mut self, note: u8) -> (voice: Option<&mut T>)
        requires
            old(self).wf(),
        ensures
            final(self).wf(),
            final(self).allocation().wf(final(self).voice_list().len() as nat),
            final(self).allocation() == old(self).allocation().voice_off(note).0,
            match old(self).allocation().voice_off(note).1 {
                Some(i) => match voice {
                    Some(v) => {
                        &&& *v == old(self).voice_list()[i as int]
                        &&& final(self).voice_list() == old(self).voice_list().update(i as int, *final(v))
                    },
                    None => false,
                },
                None => voice is None && final(self).voice_list() == old(self).voice_list(),
            },
    {
        proof {
            lemma_voice_off(self.allocation(), note, self.voices.len() as nat);
        }
        match self.note_voice_map.remove(&note) {
            Some(i) => {
                self.remove_from_used_queue(i);
                self.free_voices.push_back(i);
                Some(&mut self.voices[i])
            },
            None => None,
        }
    }

    /// Takes the first entry of voice `index` off the queue of sounding voices.
    fn remove_from_used_queue(&mut self, index: usize)
        ensures
            final(self).used_voices@ == remove_voice(old(self).used_voices@, index),
            final(self).voices == old(self).voices,
            final(self).free_voices == old(self).free_voices,
            final(self).note_voice_map == old(self).note_voice_map,
    {
        let len = self.used_voices.len();
        for i in 0..len
            invariant
                len == self.used_voices@.len(),
                self.used_voices == old(self).used_voices,
                self.voices == old(self).voices,
                self.free_voices == old(self).free_voices,
                self.note_voice_map == old(self).note_voice_map,
                forall|j: int| 0 <= j < i ==> #[trigger] self.used_voices@[j].0 != index,
        {
            let (j, _) = self.used_voices[i];
            if j == index {
                proof {
                    lemma_remove_voice_at(self.used_voices@, index, i as int);
                }
                self.used_voices.remove(i);
                return;
            }
        }
        proof {
            lemma_remove_voice_absent(self.used_voices@, index);
        }
    }
}

} // verus!
