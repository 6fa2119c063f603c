//! Session statistics: how many rounds were completed and how long they
//! took in total, plus the closing-report arithmetic.

use vstd::prelude::*;
use vstd::string::*;
use crate::numeral::{dec_chars, dec_string};

verus! {

/// Counters for completed (scored) rounds. A round counts as soon as the
/// player's answer parses, whether or not it was correct.
pub struct SessionStats {
    pub rounds_played: usize,
    pub total_elapsed_millis: usize,
}

impl SessionStats {
    /// A fresh session: nothing played yet.
    pub fn new() -> (s: SessionStats)
        ensures
            s.rounds_played == 0,
            s.total_elapsed_millis == 0,
    {
        SessionStats { rounds_played: 0, total_elapsed_millis: 0 }
    }

    /// Record one completed round: the round counter rises by exactly one
    /// and the elapsed-time counter by exactly the round's measured time,
    /// regardless of whether the answer was correct.
    pub fn record_round(&mut self, elapsed_millis: usize)
        requires
            old(self).rounds_played < usize::MAX,
            old(self).total_elapsed_millis + elapsed_millis <= usize::MAX,
        ensures
            final(self).rounds_played == old(self).rounds_played + 1,
            final(self).total_elapsed_millis == old(self).total_elapsed_millis + elapsed_millis,
    {
        self.rounds_played = self.rounds_played + 1;
        self.total_elapsed_millis = self.total_elapsed_millis + elapsed_millis;
    }

    /// Read both counters.
    pub fn snapshot(&self) -> (r: (usize, usize))
        ensures
            r.0 == self.rounds_played,
            r.1 == self.total_elapsed_millis,
    {
        (self.rounds_played, self.total_elapsed_millis)
    }
}

/// Average response time in milliseconds; zero when no round completed.
pub fn average_millis(rounds_played: usize, total_elapsed_millis: usize) -> (avg: usize)
    ensures
        avg == if rounds_played == 0 { 0int } else { total_elapsed_millis as int / rounds_played as int },
{
    if rounds_played == 0 {
        0
    } else {
        total_elapsed_millis / rounds_played
    }
}

/// Split an average in milliseconds into whole seconds and leftover millis.
pub fn average_parts(avg: usize) -> (r: (usize, usize))
    ensures
        r.0 == avg as int / 1000,
        r.1 == avg as int % 1000,
{
    (avg / 1000, avg % 1000)
}

/// The closing summary line, with the average split into whole seconds
/// and leftover milliseconds around a decimal point.
pub open spec fn summary_chars(rounds: int, secs: int, millis: int) -> Seq<char> {
    "\nYou played "@ + dec_chars(rounds) + " iterations and your average response time was "@
        + dec_chars(secs) + "."@ + dec_chars(millis) + " seconds. Come back again! :)"@
}

/// Format the closing report from a statistics snapshot: the average is
/// zero when no round completed, else total time over rounds, and it is
/// printed as seconds, a point, and the leftover milliseconds.
pub fn closing_report(rounds_played: usize, total_elapsed_millis: usize) -> (s: String)
    ensures
        ({
            let avg = if rounds_played == 0 {
                0int
            } else {
                total_elapsed_millis as int / rounds_played as int
            };
            s@ == summary_chars(rounds_played as int, avg / 1000, avg % 1000)
        }),
{
    let avg = average_millis(rounds_played, total_elapsed_millis);
    let parts = average_parts(avg);
    let mut s = String::from_str("\nYou played ");
    let rounds_text = dec_string(rounds_played as u64);
    s.append(rounds_text.as_str());
    s.append(" iterations and your average response time was ");
    let secs_text = dec_string(parts.0 as u64);
    s.append(secs_text.as_str());
    s.append(".");
    let millis_text = dec_string(parts.1 as u64);
    s.append(millis_text.as_str());
    s.append(" seconds. Come back again! :)");
    proof {
        assert(s@ =~= summary_chars(
            rounds_played as int,
            if rounds_played == 0 {
                0int
            } else {
                total_elapsed_millis as int / rounds_played as int
            } / 1000,
            if rounds_played == 0 {
                0int
            } else {
                total_elapsed_millis as int / rounds_played as int
            } % 1000,
        ));
    }
    s
}

} // verus!
