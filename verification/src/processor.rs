//! The processing step, its model, and what holds of repeated steps.

use crate::record::GreetingRecord;
use vstd::prelude::*;

verus! {

/// The completion status of a step that succeeded. No other status exists.
pub const STATUS_SUCCESS: u64 = 0;

/// The lines of an output channel after one processing step on a record with
/// the text `greeting`, given the lines it held before: the same lines, then
/// `greeting` as one more line.
pub open spec fn emit_greeting(lines: Seq<Seq<char>>, greeting: Seq<char>) -> Seq<Seq<char>> {
    lines.push(greeting)
}

/// The lines of an output channel after `calls` processing steps in a row,
/// each on a record with the text `greeting`.
pub open spec fn emit_greetings(
    lines: Seq<Seq<char>>,
    greeting: Seq<char>,
    calls: nat,
) -> Seq<Seq<char>>
    decreases calls,
{
    if calls == 0 {
        lines
    } else {
        emit_greeting(emit_greetings(lines, greeting, (calls - 1) as nat), greeting)
    }
}

/// Runs one processing step: appends the text of `greet` to `output` as one
/// line, unchanged, and returns the completion status.
///
/// `output` stands for the output channel. Each of its elements is one line,
/// held without its line terminator. The step cannot fail, whatever the text:
/// the status is always [`STATUS_SUCCESS`], and the lines that `output` held
/// before the call stay as they were.
pub fn process_instruction_with_greet(
    greet: GreetingRecord,
    output: &mut Vec<String>,
) -> (status: u64)
    ensures
        status == STATUS_SUCCESS,
        final(output)@ == old(output)@.push(greet.greeting),
        final(output).deep_view() == emit_greeting(old(output).deep_view(), greet@),
{
    output.push(greet.greeting);
    proof {
        assert(output.deep_view() =~= emit_greeting(old(output).deep_view(), greet@));
    }
    STATUS_SUCCESS
}

/// The line that a step emits does not depend on what was emitted before:
/// on any two channels a step on the same text appends the same line, that
/// text, and each channel grows by exactly that one line.
pub proof fn lemma_emitted_line_ignores_history(
    first: Seq<Seq<char>>,
    second: Seq<Seq<char>>,
    greeting: Seq<char>,
)
    ensures
        emit_greeting(first, greeting).len() == first.len() + 1,
        emit_greeting(second, greeting).len() == second.len() + 1,
        emit_greeting(first, greeting).last() == greeting,
        emit_greeting(second, greeting).last() == greeting,
        emit_greeting(first, greeting).drop_last() == first,
        emit_greeting(second, greeting).drop_last() == second,
{
    assert(emit_greeting(first, greeting).drop_last() =~= first);
    assert(emit_greeting(second, greeting).drop_last() =~= second);
}

/// Any number of steps in a row on the same text leaves the earlier lines
/// untouched and adds one line per step, every one of them that text.
pub proof fn lemma_repeated_steps_emit_identical_lines(
    lines: Seq<Seq<char>>,
    greeting: Seq<char>,
    calls: nat,
)
    ensures
        emit_greetings(lines, greeting, calls) == lines + Seq::new(calls, |i: int| greeting),
    decreases calls,
{
    if calls > 0 {
        lemma_repeated_steps_emit_identical_lines(lines, greeting, (calls - 1) as nat);
    }
    assert(emit_greetings(lines, greeting, calls) =~= lines + Seq::new(calls, |i: int| greeting));
}

} // verus!
