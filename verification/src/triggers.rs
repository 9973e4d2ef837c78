//! Recognising reward screens in the game log.

use vstd::prelude::*;
use vstd::string::StringExecFns;

use crate::text::{chars_of, contains_chars, contains_seq};

verus! {

/// Whether a line of the game log announces a reward screen.
pub open spec fn signals_reward_screen(line: Seq<char>) -> bool {
    ||| contains_seq(line, "Pause countdown done"@)
    ||| contains_seq(line, "Got rewards"@)
    ||| contains_seq(line, "Created /Lotus/Interface/ProjectionRewardChoice.swf"@)
}

/// Computes `signals_reward_screen`.
pub fn line_signals_reward_screen(line: &str) -> (b: bool)
    ensures
        b == signals_reward_screen(line@),
        b <==> (contains_seq(line@, "Pause countdown done"@) || contains_seq(
            line@,
            "Got rewards"@,
        ) || contains_seq(line@, "Created /Lotus/Interface/ProjectionRewardChoice.swf"@)),
{
    let chars = chars_of(line);
    contains_chars(&chars, &chars_of("Pause countdown done")) || contains_chars(
        &chars,
        &chars_of("Got rewards"),
    ) || contains_chars(&chars, &chars_of("Created /Lotus/Interface/ProjectionRewardChoice.swf"))
}

/// Each of the three markers announces a reward screen wherever it stands in
/// a line, and a line holding none of them (an ordinary log line, or the
/// creation of any other interface screen) announces none.
pub proof fn law_only_reward_markers_signal(line: Seq<char>)
    ensures
        contains_seq(line, "Pause countdown done"@) ==> signals_reward_screen(line),
        contains_seq(line, "Got rewards"@) ==> signals_reward_screen(line),
        contains_seq(line, "Created /Lotus/Interface/ProjectionRewardChoice.swf"@)
            ==> signals_reward_screen(line),
        !contains_seq(line, "Pause countdown done"@) && !contains_seq(line, "Got rewards"@)
            && !contains_seq(line, "Created /Lotus/Interface/ProjectionRewardChoice.swf"@)
            ==> !signals_reward_screen(line),
{
}

/// A batch of new lines announces a reward screen exactly when one of its
/// lines holds one of the three markers.
pub proof fn law_batch_signals_by_markers(lines: Seq<Seq<char>>)
    ensures
        (exists|i: int| 0 <= i < lines.len() && signals_reward_screen(#[trigger] lines[i]))
            <==> (exists|i: int|
            0 <= i < lines.len() && (contains_seq(#[trigger] lines[i], "Pause countdown done"@)
                || contains_seq(lines[i], "Got rewards"@) || contains_seq(
                lines[i],
                "Created /Lotus/Interface/ProjectionRewardChoice.swf"@,
            ))),
{
}

/// Whether any of the new lines of the game log announces a reward screen.
pub fn lines_signal_reward_screen(lines: &Vec<String>) -> (b: bool)
    ensures
        b == exists|i: int| 0 <= i < lines@.len() && signals_reward_screen(#[trigger] lines@[i]@),
{
    let mut detected = false;
    let mut i: usize = 0;
    while i < lines.len()
        invariant
            i <= lines.len(),
            detected == exists|j: int| 0 <= j < i && signals_reward_screen(#[trigger] lines@[j]@),
        decreases lines.len() - i,
    {
        if line_signals_reward_screen(lines[i].as_str()) {
            detected = true;
        }
        i = i + 1;
    }
    detected
}

/// File name under which a screenshot taken at `timestamp` is kept.
pub fn screenshot_file_name(timestamp: &str) -> (r: String)
    ensures
        r@ == "FullScreenShot"@ + timestamp@ + ".png"@,
{
    "FullScreenShot".to_owned().concat(timestamp).concat(".png")
}

} // verus!
