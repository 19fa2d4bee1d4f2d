use vstd::prelude::*;

use crate::table::CharDurations;
use vstd::string::StrSliceExecFns;
use vstd::string::StringExecFns;

verus! {

/// The step a typewriter performs for one character: write the character,
/// flush, and, when a wait is carried, block for exactly that many
/// milliseconds before the next character. A zero effective duration carries
/// no wait at all, so a blocking sleep is never requested for zero time.
pub open spec fn spec_step(t: CharDurations, ch: char) -> (char, Option<u64>) {
    if t.spec_duration(ch) > 0 {
        (ch, Some(t.spec_duration(ch)))
    } else {
        (ch, None)
    }
}

/// The steps for a whole text, one per Unicode scalar value, in order.
pub open spec fn spec_steps(t: CharDurations, text: Seq<char>) -> Seq<(char, Option<u64>)> {
    text.map_values(|ch: char| spec_step(t, ch))
}

/// Every wait a step carries is strictly positive and equals the table's
/// effective duration for the step's character; a character whose effective
/// duration is zero yields a step with no wait. A shell that blocks only for
/// the waits the steps carry therefore never passes a zero duration to its
/// sleep primitive.
pub proof fn lemma_zero_duration_no_wait(t: CharDurations, text: Seq<char>)
    ensures
        forall|i: int|
            0 <= i < spec_steps(t, text).len() ==> match #[trigger] spec_steps(t, text)[i].1 {
                Some(w) => w > 0 && w == t.spec_duration(text[i]),
                None => t.spec_duration(text[i]) == 0,
            },
{
}

/// Plans typewriter output: each entry point turns a table and a text into
/// the sequence of steps a shell performs against its output stream.
pub struct Writer;

impl Writer {
    /// The steps that print `text`: its characters in order, each paired with
    /// its positive wait from `durations`, or with no wait when its effective
    /// duration is zero.
    pub fn typed_steps(durations: &CharDurations, text: &str) -> (steps: Vec<(char, Option<u64>)>)
        ensures
            steps@ == spec_steps(*durations, text@),
    {
        let n: usize = text.unicode_len();
        let mut steps: Vec<(char, Option<u64>)> = Vec::new();
        let mut i: usize = 0;
        proof {
            assert(steps@ =~= spec_steps(*durations, text@.take(0)));
        }
        while i < n
            invariant
                i <= n,
                n == text@.len(),
                steps@ == spec_steps(*durations, text@.take(i as int)),
            decreases n - i,
        {
            let ch = text.get_char(i);
            let wait: u64 = durations.duration(ch);
            if wait > 0 {
                steps.push((ch, Some(wait)));
            } else {
                steps.push((ch, None));
            }
            proof {
                assert(text@.take(i + 1) =~= text@.take(i as int).push(text@[i as int]));
                assert(steps@ =~= spec_steps(*durations, text@.take(i + 1)));
            }
            i = i + 1;
        }
        proof {
            assert(text@.take(n as int) =~= text@);
        }
        steps
    }

    /// The steps that print `text` followed by a newline: exactly the steps
    /// of [`Writer::typed_steps`] on the text with `'\n'` appended, so the
    /// newline is looked up in the table like any other character.
    pub fn typed_line_steps(durations: &CharDurations, text: &str) -> (steps: Vec<
        (char, Option<u64>),
    >)
        ensures
            steps@ == spec_steps(*durations, text@.push('\n')),
    {
        let mut steps = Self::typed_steps(durations, text);
        let wait: u64 = durations.duration('\n');
        if wait > 0 {
            steps.push(('\n', Some(wait)));
        } else {
            steps.push(('\n', None));
        }
        proof {
            assert(steps@ =~= spec_steps(*durations, text@.push('\n')));
        }
        steps
    }

    /// The steps that print `text` unchanged: the same steps as
    /// [`Writer::typed_steps`], with no newline appended.
    pub fn typed_no_line_steps(durations: &CharDurations, text: &str) -> (steps: Vec<
        (char, Option<u64>),
    >)
        ensures
            steps@ == spec_steps(*durations, text@),
    {
        Self::typed_steps(durations, text)
    }
}

/// The fixed diagnostic a shell writes when flushing its output stream fails;
/// printing then stops early and no structured error reaches the caller.
pub fn flush_failure_message() -> (s: String)
    ensures
        s@ == "Failed to flush stdout"@,
{
    String::from_str("Failed to flush stdout")
}

} // verus!
