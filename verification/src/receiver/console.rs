//! Commands typed at the interactive track-capture console.

use vstd::prelude::*;
use super::camera::{trim_chars, trim_text};

verus! {

/// A typed command.
#[derive(Debug, Clone, Copy, PartialEq, Eq, Structural)]
pub enum ConsoleCommand {
    /// `quit` or `exit`.
    Quit,
    /// Open a new track file and arm track capture.
    ArmTrack,
    /// Capture the floating node's location.
    TakeLocation,
    /// Close the track file and end track capture.
    EndTrack,
    /// Anything else.
    Other,
}

/// The text `str::to_lowercase` gives (Unicode lowercase mapping).
pub uninterp spec fn lowercase_text(s: Seq<char>) -> Seq<char>;

/// `str::to_lowercase`.
#[verifier::external_body]
fn to_lowercase(s: &str) -> (r: String)
    ensures
        r@ == lowercase_text(s@),
{
    s.to_lowercase()
}

/// Whether `pat` occurs in `s`.
pub open spec fn contains(s: Seq<char>, pat: Seq<char>) -> bool {
    exists|i: int| 0 <= i && i + pat.len() <= s.len() && #[trigger] s.subrange(i, i + pat.len()) == pat
}

/// What a typed line asks for: the line is trimmed and lowercased; `quit`
/// or `exit` anywhere quits; otherwise the first of arm+track, take+location
/// and end+track whose words both occur.
pub open spec fn console_command_of(line: Seq<char>) -> ConsoleCommand {
    let t = lowercase_text(trim_chars(line));
    if contains(t, "quit"@) || contains(t, "exit"@) {
        ConsoleCommand::Quit
    } else if contains(t, "arm"@) && contains(t, "track"@) {
        ConsoleCommand::ArmTrack
    } else if contains(t, "take"@) && contains(t, "location"@) {
        ConsoleCommand::TakeLocation
    } else if contains(t, "end"@) && contains(t, "track"@) {
        ConsoleCommand::EndTrack
    } else {
        ConsoleCommand::Other
    }
}

/// Whether `pat` occurs in `s`.
fn contains_text(s: &str, pat: &str) -> (r: bool)
    ensures
        r == contains(s@, pat@),
{
    let n = s.unicode_len();
    let m = pat.unicode_len();
    if m > n {
        assert(!contains(s@, pat@));
        return false;
    }
    let mut i: usize = 0;
    while i <= n - m
        invariant
            n == s@.len(),
            m == pat@.len(),
            m <= n,
            i <= n - m + 1,
            forall|k: int| 0 <= k < i ==> #[trigger] s@.subrange(k, k + m) != pat@,
        decreases n - m + 1 - i,
    {
        let mut j: usize = 0;
        let mut same = true;
        while j < m
            invariant
                n == s@.len(),
                m == pat@.len(),
                i + m <= n,
                j <= m,
                same == (forall|l: int| 0 <= l < j ==> s@[i + l] == pat@[l]),
            decreases m - j,
        {
            if s.get_char(i + j) != pat.get_char(j) {
                same = false;
            }
            j += 1;
        }
        if same {
            assert(s@.subrange(i as int, i + m) =~= pat@);
            return true;
        }
        assert(s@.subrange(i as int, i + m) != pat@) by {
            let l = choose|l: int| 0 <= l < m && s@[i + l] != pat@[l];
            assert(s@.subrange(i as int, i + m)[l] == s@[i + l]);
        }
        i += 1;
    }
    false
}

/// Reads a typed line.
pub fn parse_console_command(line: &str) -> (c: ConsoleCommand)
    ensures
        c == console_command_of(line@),
{
    let t = to_lowercase(trim_text(line));
    let ts = t.as_str();
    proof {
        reveal_strlit("quit");
        reveal_strlit("exit");
        reveal_strlit("arm");
        reveal_strlit("track");
        reveal_strlit("take");
        reveal_strlit("location");
        reveal_strlit("end");
    }
    if contains_text(ts, "quit") || contains_text(ts, "exit") {
        ConsoleCommand::Quit
    } else if contains_text(ts, "arm") && contains_text(ts, "track") {
        ConsoleCommand::ArmTrack
    } else if contains_text(ts, "take") && contains_text(ts, "location") {
        ConsoleCommand::TakeLocation
    } else if contains_text(ts, "end") && contains_text(ts, "track") {
        ConsoleCommand::EndTrack
    } else {
        ConsoleCommand::Other
    }
}

} // verus!
