use vstd::prelude::*;
use crate::text::spec_two_digits;
use crate::text::two_digit_string;

verus! {

/// Wall-clock time of day for `now_seconds` seconds since the epoch,
/// rendered `hh:mm:ss`.
pub open spec fn spec_clock(now: nat) -> Seq<char> {
    spec_two_digits((now / 3600) % 24) + seq![':'] + spec_two_digits((now / 60) % 60) + seq![':']
        + spec_two_digits(now % 60)
}

/// One log line: the clock between brackets, then the message.
pub open spec fn spec_log_entry(now: nat, message: Seq<char>) -> Seq<char> {
    "["@ + spec_clock(now) + "] "@ + message
}

pub fn format_clock(now_seconds: u64) -> (s: String)
    ensures
        s@ == spec_clock(now_seconds as nat),
{
    let mut s = two_digit_string((now_seconds / 3600) % 24);
    s.append(":");
    let minutes = two_digit_string((now_seconds / 60) % 60);
    s.append(minutes.as_str());
    s.append(":");
    let seconds = two_digit_string(now_seconds % 60);
    s.append(seconds.as_str());
    proof {
        reveal_strlit(":");
        assert(s@ =~= spec_clock(now_seconds as nat));
    }
    s
}

pub fn format_log_entry(now_seconds: u64, message: &str) -> (s: String)
    ensures
        s@ == spec_log_entry(now_seconds as nat, message@),
{
    let mut s = String::from_str("[");
    let clock = format_clock(now_seconds);
    s.append(clock.as_str());
    s.append("] ");
    s.append(message);
    proof {
        assert(s@ =~= spec_log_entry(now_seconds as nat, message@));
    }
    s
}

/// How many log lines are kept before the oldest is discarded.
pub const LOG_CAPACITY: usize = 1000;

/// The diagnostic log: timestamped lines, newest last, capped at
/// [`LOG_CAPACITY`] to bound memory.
pub struct LogBuffer {
    entries: Vec<String>,
}

impl View for LogBuffer {
    type V = Seq<Seq<char>>;

    closed spec fn view(&self) -> Seq<Seq<char>> {
        Seq::new(self.entries@.len(), |i: int| self.entries@[i]@)
    }
}

impl LogBuffer {
    pub fn new() -> (b: LogBuffer)
        ensures
            b@ == Seq::<Seq<char>>::empty(),
    {
        let b = LogBuffer { entries: Vec::new() };
        proof {
            assert(b@ =~= Seq::<Seq<char>>::empty());
        }
        b
    }

    pub fn len(&self) -> (n: usize)
        ensures
            n == self@.len(),
    {
        self.entries.len()
    }

    pub fn entry(&self, i: usize) -> (e: &String)
        requires
            i < self@.len(),
        ensures
            e@ == self@[i as int],
    {
        &self.entries[i]
    }

    /// Append a timestamped line; when the buffer is over capacity the
    /// oldest line is dropped.
    pub fn add(&mut self, now_seconds: u64, message: &str)
        ensures
            final(self)@ == ({
                let appended = old(self)@.push(
                    spec_log_entry(now_seconds as nat, message@),
                );
                if appended.len() <= LOG_CAPACITY as int {
                    appended
                } else {
                    appended.drop_first()
                }
            }),
    {
        let entry = format_log_entry(now_seconds, message);
        self.entries.push(entry);
        if self.entries.len() > LOG_CAPACITY {
            self.entries.remove(0);
            proof {
                assert(self@ =~= old(self)@.push(
                    spec_log_entry(now_seconds as nat, message@),
                ).drop_first());
            }
        } else {
            proof {
                assert(self@ =~= old(self)@.push(
                    spec_log_entry(now_seconds as nat, message@),
                ));
            }
        }
    }

    pub fn clear(&mut self)
        ensures
            final(self)@ == Seq::<Seq<char>>::empty(),
    {
        self.entries.clear();
        proof {
            assert(self@ =~= Seq::<Seq<char>>::empty());
        }
    }
}

} // verus!
