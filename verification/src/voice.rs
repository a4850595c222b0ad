//! Voice allocation and management for polyphonic synthesis.
//!
//! Handles up to 128 simultaneous voices with voice stealing when the
//! pool is exhausted. The pool maintains the invariant that its cached
//! `active_count` always equals the number of slots whose `active` flag
//! is set; every method proves it preserved.

use vstd::prelude::*;
use crate::MAX_VOICES;

verus! {

/// State of a single voice.
#[derive(Clone, Copy)]
pub struct Voice {
    /// Is this voice currently active?
    pub active: bool,
    /// Which string (pitch class) is this voice assigned to?
    pub string_index: usize,
    /// Voice velocity (fixed-point, for envelope scaling).
    pub velocity: i64,
    /// Time since the voice was triggered (in samples).
    pub age: u32,
    /// Time since the voice started releasing.
    pub release_time: u32,
    /// Is the voice in its release phase?
    pub releasing: bool,
}

/// The all-clear slot value.
pub open spec fn voice_default() -> Voice {
    Voice {
        active: false,
        string_index: 0,
        velocity: 0,
        age: 0,
        release_time: 0,
        releasing: false,
    }
}

impl Default for Voice {
    fn default() -> (r: Voice)
        ensures
            r == voice_default(),
    {
        Voice {
            active: false,
            string_index: 0,
            velocity: 0,
            age: 0,
            release_time: 0,
            releasing: false,
        }
    }
}

/// Number of slots whose active flag is set.
pub open spec fn count_active(s: Seq<Voice>) -> int
    decreases s.len(),
{
    if s.len() == 0 {
        0
    } else {
        count_active(s.drop_last()) + if s.last().active {
            1int
        } else {
            0int
        }
    }
}

proof fn lemma_count_bounds(s: Seq<Voice>)
    ensures
        0 <= count_active(s) <= s.len(),
    decreases s.len(),
{
    if s.len() > 0 {
        lemma_count_bounds(s.drop_last());
    }
}

proof fn lemma_count_update(s: Seq<Voice>, i: int, v: Voice)
    requires
        0 <= i < s.len(),
    ensures
        count_active(s.update(i, v)) == count_active(s) - (if s[i].active {
            1int
        } else {
            0int
        }) + (if v.active {
            1int
        } else {
            0int
        }),
    decreases s.len(),
{
    if i == s.len() - 1 {
        assert(s.update(i, v).drop_last() =~= s.drop_last());
    } else {
        lemma_count_update(s.drop_last(), i, v);
        assert(s.update(i, v).drop_last() =~= s.drop_last().update(i, v));
    }
}

proof fn lemma_count_all_inactive(s: Seq<Voice>)
    requires
        forall|j: int| 0 <= j < s.len() ==> !(#[trigger] s[j]).active,
    ensures
        count_active(s) == 0,
    decreases s.len(),
{
    if s.len() > 0 {
        lemma_count_all_inactive(s.drop_last());
    }
}

proof fn lemma_count_pos(s: Seq<Voice>, i: int)
    requires
        0 <= i < s.len(),
        s[i].active,
    ensures
        count_active(s) >= 1,
    decreases s.len(),
{
    if i < s.len() - 1 {
        lemma_count_pos(s.drop_last(), i);
    } else {
        lemma_count_bounds(s.drop_last());
    }
}

/// A pool holding an active slot counts at least one active voice.
pub proof fn lemma_active_slot(s: Seq<Voice>, i: int)
    requires
        0 <= i < s.len(),
        s[i].active,
    ensures
        count_active(s) >= 1,
{
    lemma_count_pos(s, i);
}

/// Least index holding an inactive slot, scanning from `i`; -1 if all
/// from `i` on are active.
pub open spec fn first_inactive_from(s: Seq<Voice>, i: int) -> int
    decreases s.len() - i when 0 <= i <= s.len()
{
    if i < 0 || i >= s.len() {
        -1
    } else if !s[i].active {
        i
    } else {
        first_inactive_from(s, i + 1)
    }
}

/// The index the releasing-steal scan settles on: the first slot
/// carrying the strictly largest positive release time, -1 if no
/// releasing slot has aged.
pub open spec fn scan_releasing(s: Seq<Voice>, i: int, best_idx: int, best_rt: int) -> (int, int)
    decreases s.len() - i when 0 <= i <= s.len()
{
    if i < 0 || i >= s.len() {
        (best_idx, best_rt)
    } else if s[i].releasing && s[i].release_time > best_rt {
        scan_releasing(s, i + 1, i, s[i].release_time as int)
    } else {
        scan_releasing(s, i + 1, best_idx, best_rt)
    }
}

pub open spec fn oldest_releasing(s: Seq<Voice>) -> int {
    scan_releasing(s, 0, -1, 0).0
}

/// The index the age-steal scan settles on: the first slot carrying the
/// strictly largest positive age, or slot zero if every age is zero.
pub open spec fn scan_oldest(s: Seq<Voice>, i: int, best_idx: int, best_age: int) -> (int, int)
    decreases s.len() - i when 0 <= i <= s.len()
{
    if i < 0 || i >= s.len() {
        (best_idx, best_age)
    } else if s[i].age > best_age {
        scan_oldest(s, i + 1, i, s[i].age as int)
    } else {
        scan_oldest(s, i + 1, best_idx, best_age)
    }
}

pub open spec fn oldest_voice(s: Seq<Voice>) -> int {
    scan_oldest(s, 0, 0, 0).0
}

/// The slot `allocate` takes: the first inactive slot, else the
/// longest-releasing one, else the oldest.
pub open spec fn alloc_index(s: Seq<Voice>) -> int {
    if first_inactive_from(s, 0) >= 0 {
        first_inactive_from(s, 0)
    } else if oldest_releasing(s) >= 0 {
        oldest_releasing(s)
    } else {
        oldest_voice(s)
    }
}

/// What the inactive-slot scan means: a non-negative result is an
/// in-range inactive slot, and -1 means every slot from `i` on is
/// active.
pub proof fn lemma_first_inactive(s: Seq<Voice>, i: int)
    requires
        0 <= i <= s.len(),
    ensures
        first_inactive_from(s, i) == -1 || i <= first_inactive_from(s, i) < s.len(),
        first_inactive_from(s, i) == -1 ==> forall|j: int|
            i <= j < s.len() ==> (#[trigger] s[j]).active,
        first_inactive_from(s, i) >= 0 ==> i <= first_inactive_from(s, i) < s.len() && !s[
            first_inactive_from(s, i)
        ].active,
    decreases s.len() - i,
{
    if i < s.len() {
        lemma_first_inactive(s, i + 1);
    }
}

/// A voice as it looks right after (re)allocation.
pub open spec fn allocated_voice(v: Voice, string_index: usize) -> Voice {
    Voice {
        active: true,
        string_index,
        velocity: v.velocity,
        age: 0,
        release_time: 0,
        releasing: false,
    }
}

/// A voice put into its release phase.
pub open spec fn released_voice(v: Voice) -> Voice {
    Voice {
        active: v.active,
        string_index: v.string_index,
        velocity: v.velocity,
        age: v.age,
        release_time: 0,
        releasing: true,
    }
}

/// Saturating add in the u32 range.
pub open spec fn sat_add32(a: int, b: int) -> int {
    if a + b > u32::MAX {
        u32::MAX as int
    } else {
        a + b
    }
}

/// A voice after a block of `samples` samples has elapsed.
pub open spec fn ticked_voice(v: Voice, samples: u32) -> Voice {
    if v.active {
        Voice {
            active: v.active,
            string_index: v.string_index,
            velocity: v.velocity,
            age: sat_add32(v.age as int, samples as int) as u32,
            release_time: if v.releasing {
                sat_add32(v.release_time as int, samples as int) as u32
            } else {
                v.release_time
            },
            releasing: v.releasing,
        }
    } else {
        v
    }
}

fn sat_add_u32(a: u32, b: u32) -> (r: u32)
    ensures
        r as int == sat_add32(a as int, b as int),
{
    if a > u32::MAX - b {
        u32::MAX
    } else {
        a + b
    }
}

/// Indices of the active voices assigned to a string, in increasing
/// order, scanning from `i`.
pub open spec fn voices_for(s: Seq<Voice>, si: int, i: int) -> Seq<usize>
    decreases s.len() - i when 0 <= i <= s.len()
{
    if i < 0 || i >= s.len() {
        Seq::empty()
    } else if s[i].active && s[i].string_index == si {
        seq![i as usize] + voices_for(s, si, i + 1)
    } else {
        voices_for(s, si, i + 1)
    }
}

/// Voice pool for managing polyphonic voices.
pub struct VoicePool {
    /// All voices in the pool.
    pub voices: Vec<Voice>,
    /// Maximum number of voices.
    pub max_voices: usize,
    /// Cached number of active voices.
    pub active_count: usize,
}

impl VoicePool {
    /// The pool invariant: the cached count always equals the number of
    /// slots whose active flag is set, after any sequence of calls.
    pub open spec fn wf(self) -> bool {
        &&& self.voices@.len() == self.max_voices
        &&& self.max_voices <= MAX_VOICES
        &&& self.active_count as int == count_active(self.voices@)
    }

    /// Create a new voice pool of at most `MAX_VOICES` slots.
    pub fn new(max_voices: usize) -> (r: VoicePool)
        ensures
            r.wf(),
            r.max_voices == if max_voices < MAX_VOICES {
                max_voices as int
            } else {
                MAX_VOICES as int
            },
            r.active_count == 0,
            forall|j: int| 0 <= j < r.voices@.len() ==> #[trigger] r.voices@[j] == voice_default(),
    {
        let m = if max_voices < MAX_VOICES {
            max_voices
        } else {
            MAX_VOICES
        };
        let voices = vec![Voice::default(); m];
        proof {
            lemma_count_all_inactive(voices@);
        }
        VoicePool { voices, max_voices: m, active_count: 0 }
    }

    /// Allocate a voice for the given string. Never fails while the
    /// pool is non-empty: it takes the first inactive slot, else steals
    /// the longest-releasing slot, else the oldest active slot.
    pub fn allocate(&mut self, string_index: usize) -> (r: Option<usize>)
        requires
            old(self).wf(),
            old(self).voices@.len() >= 1,
        ensures
            final(self).wf(),
            final(self).max_voices == old(self).max_voices,
            final(self).voices@.len() == old(self).voices@.len(),
            r.is_some(),
            ({
                let s = old(self).voices@;
                let i = r.unwrap() as int;
                &&& 0 <= i < s.len()
                &&& i == alloc_index(s)
                &&& final(self).voices@ == s.update(i, allocated_voice(s[i], string_index))
                &&& final(self).active_count as int == count_active(s) + (if s[i].active {
                    0int
                } else {
                    1int
                })
            }),
    {
        let ghost s = old(self).voices@;
        let len = self.voices.len();

        // First, try to find an inactive voice.
        let mut i: usize = 0;
        while i < len
            invariant
                i <= len,
                *self == *old(self),
                forall|j: int| 0 <= j < i ==> (#[trigger] s[j]).active,
                first_inactive_from(s, 0) == first_inactive_from(s, i as int),
            decreases len - i,
        {
            if !self.voices[i].active {
                let mut v = self.voices[i];
                v.active = true;
                v.string_index = string_index;
                v.age = 0;
                v.release_time = 0;
                v.releasing = false;
                self.voices[i] = v;
                proof {
                    lemma_count_update(s, i as int, v);
                    lemma_count_bounds(s);
                }
                self.active_count = self.active_count + 1;
                return Some(i);
            }
            i = i + 1;
        }

        // No inactive voice: steal the longest-releasing voice.
        let mut best_idx: usize = 0;
        let mut have_releasing: bool = false;
        let mut best_rt: u32 = 0;
        let mut j: usize = 0;
        while j < len
            invariant
                j <= len,
                len == s.len(),
                *self == *old(self),
                have_releasing ==> best_idx < len && best_rt > 0,
                !have_releasing ==> best_idx == 0 && best_rt == 0,
                scan_releasing(s, 0, -1, 0) == scan_releasing(
                    s,
                    j as int,
                    if have_releasing {
                        best_idx as int
                    } else {
                        -1
                    },
                    best_rt as int,
                ),
            decreases len - j,
        {
            let v = self.voices[j];
            if v.releasing && v.release_time > best_rt {
                best_idx = j;
                best_rt = v.release_time;
                have_releasing = true;
            }
            j = j + 1;
        }
        if have_releasing {
            let mut v = self.voices[best_idx];
            v.active = true;
            v.string_index = string_index;
            v.age = 0;
            v.release_time = 0;
            v.releasing = false;
            self.voices[best_idx] = v;
            proof {
                assert(s[best_idx as int].active);
                lemma_count_update(s, best_idx as int, v);
            }
            return Some(best_idx);
        }

        // Still none: steal the oldest active voice.
        let mut old_idx: usize = 0;
        let mut old_age: u32 = 0;
        let mut k: usize = 0;
        while k < len
            invariant
                k <= len,
                len == s.len(),
                *self == *old(self),
                old_idx < len,
                scan_oldest(s, 0, 0, 0) == scan_oldest(s, k as int, old_idx as int, old_age as int),
            decreases len - k,
        {
            let v = self.voices[k];
            if v.age > old_age {
                old_idx = k;
                old_age = v.age;
            }
            k = k + 1;
        }
        let mut v = self.voices[old_idx];
        v.active = true;
        v.string_index = string_index;
        v.age = 0;
        v.release_time = 0;
        v.releasing = false;
        self.voices[old_idx] = v;
        proof {
            assert(s[old_idx as int].active);
            lemma_count_update(s, old_idx as int, v);
        }
        Some(old_idx)
    }

    /// Set a voice active with the given parameters. Activating an
    /// inactive slot counts as an activation transition, so the cached
    /// count follows it.
    pub fn set_active(&mut self, voice_id: usize, string_index: usize, velocity: i64)
        requires
            old(self).wf(),
        ensures
            final(self).wf(),
            final(self).max_voices == old(self).max_voices,
            voice_id < old(self).voices@.len() ==> ({
                let s = old(self).voices@;
                let v = s[voice_id as int];
                final(self).voices@ == s.update(
                    voice_id as int,
                    Voice {
                        active: true,
                        string_index,
                        velocity,
                        age: 0,
                        release_time: v.release_time,
                        releasing: false,
                    },
                )
            }),
            voice_id < old(self).voices@.len() ==> final(self).active_count as int == old(
                self,
            ).active_count + (if old(self).voices@[voice_id as int].active {
                0int
            } else {
                1int
            }),
            voice_id >= old(self).voices@.len() ==> *final(self) == *old(self),
    {
        if voice_id < self.voices.len() {
            let ghost s = self.voices@;
            let mut v = self.voices[voice_id];
            let was_active: bool = v.active;
            v.active = true;
            v.string_index = string_index;
            v.velocity = velocity;
            v.age = 0;
            v.releasing = false;
            self.voices[voice_id] = v;
            proof {
                lemma_count_update(s, voice_id as int, v);
                lemma_count_bounds(s);
            }
            if !was_active {
                self.active_count = self.active_count + 1;
            }
        }
    }

    /// Release a voice (start its release phase).
    pub fn release(&mut self, voice_id: usize)
        requires
            old(self).wf(),
        ensures
            final(self).wf(),
            final(self).max_voices == old(self).max_voices,
            voice_id < old(self).voices@.len() ==> final(self).voices@ == old(self).voices@.update(
                voice_id as int,
                released_voice(old(self).voices@[voice_id as int]),
            ),
            voice_id >= old(self).voices@.len() ==> *final(self) == *old(self),
            final(self).active_count == old(self).active_count,
    {
        if voice_id < self.voices.len() {
            let ghost s = self.voices@;
            let mut v = self.voices[voice_id];
            v.releasing = true;
            v.release_time = 0;
            self.voices[voice_id] = v;
            proof {
                lemma_count_update(s, voice_id as int, v);
            }
        }
    }

    /// Release every active voice assigned to a string.
    pub fn release_string(&mut self, string_index: usize)
        requires
            old(self).wf(),
        ensures
            final(self).wf(),
            final(self).max_voices == old(self).max_voices,
            final(self).active_count == old(self).active_count,
            final(self).voices@.len() == old(self).voices@.len(),
            forall|j: int|
                0 <= j < old(self).voices@.len() ==> #[trigger] final(self).voices@[j] == (if old(self).voices@[j].active && old(self).voices@[j].string_index == string_index {
                    released_voice(old(self).voices@[j])
                } else {
                    old(self).voices@[j]
                }),
    {
        let len = self.voices.len();
        let mut i: usize = 0;
        while i < len
            invariant
                i <= len,
                len == old(self).voices@.len(),
                self.voices@.len() == len,
                self.max_voices == old(self).max_voices,
                self.active_count == old(self).active_count,
                count_active(self.voices@) == count_active(old(self).voices@),
                forall|j: int|
                    0 <= j < i ==> #[trigger] self.voices@[j] == (if old(self).voices@[j].active && old(self).voices@[j].string_index == string_index {
                        released_voice(old(self).voices@[j])
                    } else {
                        old(self).voices@[j]
                    }),
                forall|j: int|
                    i <= j < len ==> #[trigger] self.voices@[j] == old(self).voices@[j],
            decreases len - i,
        {
            let v = self.voices[i];
            if v.active && v.string_index == string_index {
                let ghost cur = self.voices@;
                let mut w = v;
                w.releasing = true;
                w.release_time = 0;
                self.voices[i] = w;
                proof {
                    lemma_count_update(cur, i as int, w);
                }
            }
            i = i + 1;
        }
    }

    /// Deactivate a voice, decrementing the cached count on the
    /// transition.
    pub fn deactivate(&mut self, voice_id: usize)
        requires
            old(self).wf(),
        ensures
            final(self).wf(),
            final(self).max_voices == old(self).max_voices,
            voice_id < old(self).voices@.len() && old(self).voices@[voice_id as int].active ==> ({
                let v = old(self).voices@[voice_id as int];
                &&& final(self).voices@ == old(self).voices@.update(
                    voice_id as int,
                    Voice {
                        active: false,
                        string_index: v.string_index,
                        velocity: v.velocity,
                        age: v.age,
                        release_time: v.release_time,
                        releasing: v.releasing,
                    },
                )
                &&& final(self).active_count == old(self).active_count - 1
            }),
            !(voice_id < old(self).voices@.len() && old(self).voices@[voice_id as int].active)
                ==> *final(self) == *old(self),
    {
        if voice_id < self.voices.len() {
            let ghost s = self.voices@;
            let mut v = self.voices[voice_id];
            if v.active {
                v.active = false;
                self.voices[voice_id] = v;
                proof {
                    lemma_count_update(s, voice_id as int, v);
                    lemma_count_pos(s, voice_id as int);
                }
                self.active_count = self.active_count - 1;
            }
        }
    }

    /// Advance voice ages (call once per rendered block). Ages saturate
    /// rather than wrap.
    pub fn tick(&mut self, samples: u32)
        requires
            old(self).wf(),
        ensures
            final(self).wf(),
            final(self).max_voices == old(self).max_voices,
            final(self).active_count == old(self).active_count,
            final(self).voices@.len() == old(self).voices@.len(),
            forall|j: int|
                0 <= j < old(self).voices@.len() ==> #[trigger] final(self).voices@[j]
                    == ticked_voice(old(self).voices@[j], samples),
    {
        let len = self.voices.len();
        let mut i: usize = 0;
        while i < len
            invariant
                i <= len,
                len == old(self).voices@.len(),
                self.voices@.len() == len,
                self.max_voices == old(self).max_voices,
                self.active_count == old(self).active_count,
                count_active(self.voices@) == count_active(old(self).voices@),
                forall|j: int|
                    0 <= j < i ==> #[trigger] self.voices@[j] == ticked_voice(
                        old(self).voices@[j],
                        samples,
                    ),
                forall|j: int|
                    i <= j < len ==> #[trigger] self.voices@[j] == old(self).voices@[j],
            decreases len - i,
        {
            let v = self.voices[i];
            if v.active {
                let ghost cur = self.voices@;
                let mut w = v;
                w.age = sat_add_u32(v.age, samples);
                if v.releasing {
                    w.release_time = sat_add_u32(v.release_time, samples);
                }
                self.voices[i] = w;
                proof {
                    lemma_count_update(cur, i as int, w);
                }
            }
            i = i + 1;
        }
    }

    /// Get the number of active voices; always the number of slots with
    /// the active flag set.
    pub fn active_count(&self) -> (r: usize)
        requires
            self.wf(),
        ensures
            r as int == count_active(self.voices@),
    {
        self.active_count
    }

    /// Get all active voice ids for a given string, in increasing
    /// order.
    pub fn get_voices_for_string(&self, string_index: usize) -> (r: Vec<usize>)
        ensures
            r@ == voices_for(self.voices@, string_index as int, 0),
    {
        let len = self.voices.len();
        let mut result: Vec<usize> = Vec::new();
        let mut i: usize = 0;
        while i < len
            invariant
                i <= len,
                len == self.voices@.len(),
                voices_for(self.voices@, string_index as int, 0) == result@ + voices_for(
                    self.voices@,
                    string_index as int,
                    i as int,
                ),
            decreases len - i,
        {
            let v = self.voices[i];
            let ghost pre = result@;
            if v.active && v.string_index == string_index {
                result.push(i);
                proof {
                    assert(result@ == pre + seq![i]);
                    assert(pre + voices_for(self.voices@, string_index as int, i as int) == result@
                        + voices_for(self.voices@, string_index as int, i as int + 1));
                }
            }
            i = i + 1;
        }
        proof {
            assert(result@ + voices_for(self.voices@, string_index as int, len as int) =~= result@);
        }
        result
    }

    /// Get voice info.
    pub fn get_voice(&self, voice_id: usize) -> (r: Option<&Voice>)
        ensures
            voice_id < self.voices@.len() ==> r == Some(&self.voices@[voice_id as int]),
            voice_id >= self.voices@.len() ==> r.is_none(),
    {
        if voice_id < self.voices.len() {
            Some(&self.voices[voice_id])
        } else {
            None
        }
    }

    /// Clear all voices.
    pub fn clear(&mut self)
        requires
            old(self).wf(),
        ensures
            final(self).wf(),
            final(self).max_voices == old(self).max_voices,
            final(self).active_count == 0,
            final(self).voices@.len() == old(self).voices@.len(),
            forall|j: int|
                0 <= j < old(self).voices@.len() ==> #[trigger] final(self).voices@[j]
                    == voice_default(),
    {
        let len = self.voices.len();
        let mut i: usize = 0;
        while i < len
            invariant
                i <= len,
                len == old(self).voices@.len(),
                self.voices@.len() == len,
                self.max_voices == old(self).max_voices,
                forall|j: int| 0 <= j < i ==> #[trigger] self.voices@[j] == voice_default(),
            decreases len - i,
        {
            self.voices[i] = Voice::default();
            i = i + 1;
        }
        proof {
            lemma_count_all_inactive(self.voices@);
        }
        self.active_count = 0;
    }
}

} // verus!
