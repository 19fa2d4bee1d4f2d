use vstd::prelude::*;

verus! {

/// The effective wait, in milliseconds, for `ch` among `entries`, falling back
/// to `default_ms` when no entry carries `ch`.
///
/// When several entries carry the same character, the last one wins. This is
/// the crate's documented duplicate policy: it matches building a map from a
/// pair list, where a later insertion overwrites an earlier one.
pub open spec fn lookup_ms(entries: Seq<(char, u64)>, ch: char, default_ms: u64) -> u64
    decreases entries.len(),
{
    if entries.len() == 0 {
        default_ms
    } else if entries.last().0 == ch {
        entries.last().1
    } else {
        lookup_ms(entries.drop_last(), ch, default_ms)
    }
}

/// An immutable table of per-character wait times.
///
/// `default_duration` is the wait, in milliseconds, for any character that has
/// no specific entry; `specific_duration` lists `(character, milliseconds)`
/// overrides. Entries need not be unique: lookup takes the last entry for a
/// character (see [`lookup_ms`]).
#[derive(Debug, Clone)]
pub struct CharDurations {
    pub default_duration: u64,
    pub specific_duration: Vec<(char, u64)>,
}

impl CharDurations {
    /// The effective wait for `ch`: its last specific entry, or the default.
    pub open spec fn spec_duration(self, ch: char) -> u64 {
        lookup_ms(self.specific_duration@, ch, self.default_duration)
    }

    /// Whether some specific entry carries `ch`.
    pub open spec fn has_specific(self, ch: char) -> bool {
        exists|i: int|
            0 <= i < self.specific_duration@.len() && self.specific_duration@[i].0 == ch
    }

    /// Builds a table from a default wait and a list of specific entries,
    /// both in milliseconds. No validation is performed: every wait value,
    /// zero included, is accepted, and duplicate characters are kept as given
    /// (lookup takes the last).
    pub fn new(dur: u64, specific_durations: Vec<(char, u64)>) -> (t: Self)
        ensures
            t.default_duration == dur,
            t.specific_duration@ == specific_durations@,
    {
        CharDurations { default_duration: dur, specific_duration: specific_durations }
    }

    /// Returns the wait for `ch` in milliseconds: the value of its last
    /// specific entry, or the default when no entry carries `ch`. Total:
    /// never fails.
    pub fn duration(&self, ch: char) -> (d: u64)
        ensures
            d == self.spec_duration(ch),
    {
        let n: usize = self.specific_duration.len();
        proof {
            assert(self.specific_duration@.take(n as int) =~= self.specific_duration@);
        }
        let mut i: usize = n;
        while i > 0
            invariant
                i <= n,
                n == self.specific_duration@.len(),
                lookup_ms(self.specific_duration@.take(i as int), ch, self.default_duration)
                    == self.spec_duration(ch),
            decreases i,
        {
            let pair = self.specific_duration[i - 1];
            proof {
                assert(self.specific_duration@.take(i as int).last()
                    == self.specific_duration@[i - 1]);
            }
            if pair.0 == ch {
                return pair.1;
            }
            proof {
                assert(self.specific_duration@.take(i as int).drop_last()
                    =~= self.specific_duration@.take(i - 1));
            }
            i = i - 1;
        }
        self.default_duration
    }
}

/// A character with no specific entry gets exactly the default duration.
pub proof fn lemma_duration_absent(t: CharDurations, ch: char)
    requires
        !t.has_specific(ch),
    ensures
        t.spec_duration(ch) == t.default_duration,
{
    lemma_lookup_absent(t.specific_duration@, ch, t.default_duration);
}

proof fn lemma_lookup_absent(entries: Seq<(char, u64)>, ch: char, default_ms: u64)
    requires
        forall|i: int| 0 <= i < entries.len() ==> entries[i].0 != ch,
    ensures
        lookup_ms(entries, ch, default_ms) == default_ms,
    decreases entries.len(),
{
    if entries.len() > 0 {
        lemma_lookup_absent(entries.drop_last(), ch, default_ms);
    }
}

/// The duplicate policy, stated exactly: the entry at `i` decides the wait for
/// its character when no later entry carries the same character.
pub proof fn lemma_duration_last_match(t: CharDurations, ch: char, i: int)
    requires
        0 <= i < t.specific_duration@.len(),
        t.specific_duration@[i].0 == ch,
        forall|j: int|
            i < j < t.specific_duration@.len() ==> t.specific_duration@[j].0 != ch,
    ensures
        t.spec_duration(ch) == t.specific_duration@[i].1,
{
    lemma_lookup_last_match(t.specific_duration@, ch, t.default_duration, i);
}

proof fn lemma_lookup_last_match(entries: Seq<(char, u64)>, ch: char, default_ms: u64, i: int)
    requires
        0 <= i < entries.len(),
        entries[i].0 == ch,
        forall|j: int| i < j < entries.len() ==> entries[j].0 != ch,
    ensures
        lookup_ms(entries, ch, default_ms) == entries[i].1,
    decreases entries.len(),
{
    if i == entries.len() - 1 {
    } else {
        lemma_lookup_last_match(entries.drop_last(), ch, default_ms, i);
    }
}

/// A character present in a table whose entries carry distinct characters
/// gets exactly the value of its entry, overriding the default.
pub proof fn lemma_duration_present(t: CharDurations, ch: char, i: int)
    requires
        0 <= i < t.specific_duration@.len(),
        t.specific_duration@[i].0 == ch,
        forall|j: int, k: int|
            0 <= j < k < t.specific_duration@.len()
                ==> t.specific_duration@[j].0 != t.specific_duration@[k].0,
    ensures
        t.spec_duration(ch) == t.specific_duration@[i].1,
{
    lemma_duration_last_match(t, ch, i);
}

/// With an empty specific list, every character gets the default duration.
pub proof fn lemma_duration_empty(t: CharDurations, ch: char)
    requires
        t.specific_duration@.len() == 0,
    ensures
        t.spec_duration(ch) == t.default_duration,
{
}

impl PartialEq for CharDurations {
    /// Value-based equality: the defaults agree and the specific entries
    /// agree, entry for entry and in order.
    fn eq(&self, other: &Self) -> (r: bool) {
        if self.default_duration != other.default_duration {
            return false;
        }
        let n: usize = self.specific_duration.len();
        if n != other.specific_duration.len() {
            return false;
        }
        let mut i: usize = 0;
        while i < n
            invariant
                i <= n,
                n == self.specific_duration@.len(),
                n == other.specific_duration@.len(),
                forall|j: int|
                    0 <= j < i ==> self.specific_duration@[j] == other.specific_duration@[j],
            decreases n - i,
        {
            let a = self.specific_duration[i];
            let b = other.specific_duration[i];
            if a.0 != b.0 || a.1 != b.1 {
                return false;
            }
            i = i + 1;
        }
        proof {
            assert(self.specific_duration@ =~= other.specific_duration@);
        }
        true
    }
}

impl vstd::std_specs::cmp::PartialEqSpecImpl for CharDurations {
    open spec fn obeys_eq_spec() -> bool {
        true
    }

    open spec fn eq_spec(&self, other: &Self) -> bool {
        self.default_duration == other.default_duration
            && self.specific_duration@ == other.specific_duration@
    }
}

impl Default for CharDurations {
    /// The empty table: no waits at all.
    fn default() -> (t: Self)
        ensures
            t.default_duration == 0,
            t.specific_duration@ == Seq::<(char, u64)>::empty(),
    {
        CharDurations { default_duration: 0, specific_duration: Vec::new() }
    }
}

} // verus!
