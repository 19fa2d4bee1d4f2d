use vstd::prelude::*;

use crate::table::CharDurations;

verus! {

/// The unit a duration literal is tagged with.
#[derive(Clone, Copy, Debug, PartialEq, Eq, Structural)]
pub enum TimeUnit {
    Millis,
    Seconds,
}

/// The one configuration-time error: a duration literal carried a unit tag
/// other than `"ms"` or `"s"`. No table is produced when it occurs.
#[derive(Clone, Copy, Debug, PartialEq, Eq, Structural)]
pub struct UnrecognizedUnitTag;

/// The unit a tag names: `"ms"` for milliseconds, `"s"` for seconds, and
/// nothing else.
pub open spec fn spec_unit(tag: Seq<char>) -> Option<TimeUnit> {
    if tag == seq!['m', 's'] {
        Some(TimeUnit::Millis)
    } else if tag == seq!['s'] {
        Some(TimeUnit::Seconds)
    } else {
        None
    }
}

/// The largest whole-second value whose millisecond equivalent still fits in
/// a 64-bit count; larger second values saturate.
pub const MAX_WHOLE_SECONDS: u64 = u64::MAX / 1000;

/// A literal converted to milliseconds: millisecond values pass through,
/// second values are scaled by 1000, saturating at the largest representable
/// count.
pub open spec fn spec_millis(value: u64, unit: TimeUnit) -> u64 {
    match unit {
        TimeUnit::Millis => value,
        TimeUnit::Seconds => if value <= MAX_WHOLE_SECONDS {
            (value * 1000) as u64
        } else {
            u64::MAX
        },
    }
}

/// Recognizes a unit tag: `Some(Millis)` for `"ms"`, `Some(Seconds)` for
/// `"s"`, `None` for anything else.
pub fn parse_unit(tag: &str) -> (r: Option<TimeUnit>)
    ensures
        r == spec_unit(tag@),
{
    let n: usize = tag.unicode_len();
    if n == 1 {
        if tag.get_char(0) == 's' {
            proof {
                assert(tag@ =~= seq!['s']);
            }
            return Some(TimeUnit::Seconds);
        }
        return None;
    }
    if n == 2 {
        let c0 = tag.get_char(0);
        let c1 = tag.get_char(1);
        if c0 == 'm' && c1 == 's' {
            proof {
                assert(tag@ =~= seq!['m', 's']);
            }
            return Some(TimeUnit::Millis);
        }
        return None;
    }
    None
}

/// Converts a duration literal to milliseconds by its unit, exactly for
/// milliseconds and whole seconds that fit, saturating otherwise.
pub fn to_millis(value: u64, unit: TimeUnit) -> (ms: u64)
    ensures
        ms == spec_millis(value, unit),
{
    match unit {
        TimeUnit::Millis => value,
        TimeUnit::Seconds => {
            if value <= MAX_WHOLE_SECONDS {
                value * 1000
            } else {
                u64::MAX
            }
        },
    }
}

/// Converts a tagged duration literal to milliseconds, rejecting every tag
/// other than `"ms"` and `"s"`.
pub fn duration_from_tag(value: u64, tag: &str) -> (r: Result<u64, UnrecognizedUnitTag>)
    ensures
        spec_unit(tag@) is Some ==> r == Ok::<u64, UnrecognizedUnitTag>(
            spec_millis(value, spec_unit(tag@)->Some_0),
        ),
        spec_unit(tag@) is None ==> r == Err::<u64, UnrecognizedUnitTag>(UnrecognizedUnitTag),
{
    match parse_unit(tag) {
        Some(unit) => Ok(to_millis(value, unit)),
        None => Err(UnrecognizedUnitTag),
    }
}

/// Whether every override literal carries a recognized unit tag.
pub open spec fn all_tags_recognized(overrides: Seq<(char, u64, &str)>) -> bool {
    forall|i: int| 0 <= i < overrides.len() ==> spec_unit(#[trigger] overrides[i].2@) is Some
}

/// The override literals with each duration converted to milliseconds.
pub open spec fn spec_converted_entries(overrides: Seq<(char, u64, &str)>) -> Seq<(char, u64)> {
    overrides.map_values(
        |p: (char, u64, &str)| (p.0, spec_millis(p.1, spec_unit(p.2@)->Some_0)),
    )
}

/// Builds a table from a tagged default literal and a list of tagged override
/// literals. Every unit tag must be recognized, or no table is produced. With
/// an empty override list this is the default-only form of construction.
pub fn build_table(
    default_value: u64,
    default_tag: &str,
    overrides: &Vec<(char, u64, &str)>,
) -> (r: Result<CharDurations, UnrecognizedUnitTag>)
    ensures
        (spec_unit(default_tag@) is Some && all_tags_recognized(overrides@)) ==> {
            &&& r is Ok
            &&& r->Ok_0.default_duration == spec_millis(
                default_value,
                spec_unit(default_tag@)->Some_0,
            )
            &&& r->Ok_0.specific_duration@ == spec_converted_entries(overrides@)
        },
        !(spec_unit(default_tag@) is Some && all_tags_recognized(overrides@)) ==> r is Err,
{
    let default_ms: u64 = match parse_unit(default_tag) {
        Some(unit) => to_millis(default_value, unit),
        None => {
            return Err(UnrecognizedUnitTag);
        },
    };
    let mut entries: Vec<(char, u64)> = Vec::new();
    let mut i: usize = 0;
    proof {
        assert(entries@ =~= spec_converted_entries(overrides@.take(0)));
    }
    while i < overrides.len()
        invariant
            i <= overrides@.len(),
            forall|j: int| 0 <= j < i ==> spec_unit(#[trigger] overrides@[j].2@) is Some,
            entries@ == spec_converted_entries(overrides@.take(i as int)),
        decreases overrides@.len() - i,
    {
        let p = overrides[i];
        match parse_unit(p.2) {
            Some(unit) => {
                entries.push((p.0, to_millis(p.1, unit)));
                proof {
                    assert(overrides@.take(i + 1) =~= overrides@.take(i as int).push(
                        overrides@[i as int],
                    ));
                    assert(entries@ =~= spec_converted_entries(overrides@.take(i + 1)));
                }
            },
            None => {
                proof {
                    assert(!all_tags_recognized(overrides@)) by {
                        assert(spec_unit(overrides@[i as int].2@) is None);
                    }
                }
                return Err(UnrecognizedUnitTag);
            },
        }
        i = i + 1;
    }
    proof {
        assert(overrides@.take(i as int) =~= overrides@);
    }
    Ok(CharDurations::new(default_ms, entries))
}

/// Builds a table from override literals alone: the default duration is zero,
/// so characters without an entry are printed with no wait.
pub fn build_overrides_only(overrides: &Vec<(char, u64, &str)>) -> (r: Result<
    CharDurations,
    UnrecognizedUnitTag,
>)
    ensures
        all_tags_recognized(overrides@) ==> {
            &&& r is Ok
            &&& r->Ok_0.default_duration == 0
            &&& r->Ok_0.specific_duration@ == spec_converted_entries(overrides@)
        },
        !all_tags_recognized(overrides@) ==> r is Err,
{
    proof {
        reveal_strlit("ms");
        assert("ms"@ =~= seq!['m', 's']);
    }
    build_table(0, "ms", overrides)
}

/// Builds a table from a tagged default literal alone: no character carries a
/// specific entry, so every character gets the default.
pub fn build_default_only(default_value: u64, default_tag: &str) -> (r: Result<
    CharDurations,
    UnrecognizedUnitTag,
>)
    ensures
        spec_unit(default_tag@) is Some ==> {
            &&& r is Ok
            &&& r->Ok_0.default_duration == spec_millis(
                default_value,
                spec_unit(default_tag@)->Some_0,
            )
            &&& r->Ok_0.specific_duration@.len() == 0
        },
        spec_unit(default_tag@) is None ==> r is Err,
{
    match parse_unit(default_tag) {
        Some(unit) => Ok(CharDurations::new(to_millis(default_value, unit), Vec::new())),
        None => Err(UnrecognizedUnitTag),
    }
}

} // verus!
