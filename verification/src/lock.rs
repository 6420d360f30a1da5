//! Orchestration lock: at most one `start`/`restart` per service at a time.
//!
//! The lock is held by the *CLI* for the duration of its call (build, run and
//! probe), not by the runner: the runner has to keep living after the CLI
//! exits, while a second `start` must be rejected. A lock left behind by a
//! killed CLI is released automatically by the kernel.

use vstd::prelude::*;
use vstd::string::*;

use crate::scan;
use crate::text;

verus! {

/// What a lock file says: who holds the lock.
pub struct Lock {
    pub pid: u32,
}

/// What the holder of a lock writes into it.
pub open spec fn holder_text(pid: u32) -> Seq<char> {
    text::decimal(pid as nat) + "\n"@
}

/// The PID that a lock file names.
pub open spec fn named_holder(raw: Seq<char>) -> Option<int> {
    scan::unsigned(scan::trimmed(raw), 10, u32::MAX as int)
}

impl Lock {
    /// What the holder writes into the lock file, so the next caller can name it.
    pub fn line(&self) -> (out: String)
        ensures
            out@ == holder_text(self.pid),
    {
        let mut out = text::u64_text(self.pid as u64);
        out.append("\n");
        out
    }

    /// PID recorded by the current holder, for a friendlier message. `raw` is
    /// the text of the lock file, when it can be read.
    pub fn holder_pid(raw: Option<&str>) -> (r: Option<u32>)
        ensures
            match raw {
                Some(s) => match r {
                    Some(pid) => named_holder(s@) == Some(pid as int),
                    None => named_holder(s@) is None,
                },
                None => r is None,
            },
    {
        match raw {
            Some(s) => {
                let body = scan::trim(s);
                match scan::parse_unsigned(body.as_str(), 10, u32::MAX as u64) {
                    Some(pid) => Some(pid as u32),
                    None => None,
                }
            },
            None => None,
        }
    }
}

/// The holder of a lock is read back from what it wrote.
pub proof fn law_holders_are_read_back(pid: u32)
    ensures
        named_holder(holder_text(pid)) == Some(pid as int),
{
    let digits = text::decimal(pid as nat);
    scan::lemma_decimal_reads_back(pid as nat);
    reveal_strlit("\n");
    let raw = holder_text(pid);
    assert(raw =~= digits.push('\n'));
    scan::lemma_trimmed_line(digits);
    assert(scan::trimmed(raw) == digits);
}

} // verus!
