//! Health monitor: tracks consecutive backend failures and synthesizes the
//! human-readable diagnostic document served while the system is degraded.
//!
//! Any successful backend call resets the failure count to zero; once the
//! count reaches a fixed threshold the system is unhealthy, which is the
//! sole trigger for presenting the diagnostic file.

use vstd::prelude::*;
use vstd::string::StringExecFns;

verus! {

/// Number of consecutive backend failures at which the system is degraded.
pub const API_ERROR_THRESHOLD: u64 = 3;

/// The failure count after one more recorded error.
pub open spec fn spec_bump(c: u64) -> u64 {
    if c == u64::MAX {
        c
    } else {
        (c + 1) as u64
    }
}

/// Whether a failure count means "degraded".
pub open spec fn spec_unhealthy(c: u64) -> bool {
    c >= API_ERROR_THRESHOLD
}

/// The decimal digit character for `d`.
pub open spec fn digit_char(d: nat) -> char {
    if d == 0 {
        '0'
    } else if d == 1 {
        '1'
    } else if d == 2 {
        '2'
    } else if d == 3 {
        '3'
    } else if d == 4 {
        '4'
    } else if d == 5 {
        '5'
    } else if d == 6 {
        '6'
    } else if d == 7 {
        '7'
    } else if d == 8 {
        '8'
    } else {
        '9'
    }
}

/// The decimal rendering of `n`, most significant digit first.
pub open spec fn dec_digits(n: nat) -> Seq<char>
    decreases n,
{
    if n < 10 {
        seq![digit_char(n)]
    } else {
        dec_digits(n / 10) + seq![digit_char(n % 10)]
    }
}

/// The diagnostic document rendered from a failure count, the last error
/// message and the last failure time in epoch seconds.
pub open spec fn spec_error_content(count: u64, msg: Seq<char>, ts: u64) -> Seq<char> {
    "Meta-Fuse FUSE Driver - API Connection Error\n=============================================\n\nThe FUSE driver is mounted, but the meta-fuse API is not responding.\n\nError Details:\n- Consecutive failures: "@
        + dec_digits(count as nat) + "\n- Last error: "@ + msg + "\n- Timestamp: "@ + dec_digits(
        ts as nat,
    )
        + "\n\nPossible causes:\n1. meta-fuse-core service is not running\n2. API (port 3000) is not accessible\n3. Network connectivity issues\n\nTo resolve:\n1. Check if meta-fuse is running: docker ps | grep meta-fuse\n2. Check API health: curl http://localhost:3000/api/fuse/health\n3. Restart the container: docker restart meta-fuse\n\nThis ERROR.txt file will disappear once the API is responding again.\n"@
}

/// The diagnostic document of a monitor state; a state that never saw a
/// failure reports epoch second zero.
pub open spec fn spec_health_content(h: ApiHealth) -> Seq<char> {
    spec_error_content(
        h.consecutive_errors,
        h.last_error_message@,
        match h.last_error_time {
            Some(t) => t,
            None => 0,
        },
    )
}

/// A one-character string slice for the decimal digit `d`.
fn digit_str(d: u64) -> (r: &'static str)
    requires
        d < 10,
    ensures
        r@ =~= seq![digit_char(d as nat)],
{
    proof {
        reveal_strlit("0");
        reveal_strlit("1");
        reveal_strlit("2");
        reveal_strlit("3");
        reveal_strlit("4");
        reveal_strlit("5");
        reveal_strlit("6");
        reveal_strlit("7");
        reveal_strlit("8");
        reveal_strlit("9");
    }
    match d {
        0 => "0",
        1 => "1",
        2 => "2",
        3 => "3",
        4 => "4",
        5 => "5",
        6 => "6",
        7 => "7",
        8 => "8",
        _ => "9",
    }
}

/// Renders `n` in decimal.
fn u64_to_string(n: u64) -> (r: String)
    ensures
        r@ =~= dec_digits(n as nat),
    decreases n,
{
    if n < 10 {
        digit_str(n).to_owned()
    } else {
        proof {
            assert(n / 10 < n) by (nonlinear_arith)
                requires
                    n >= 10,
            ;
        }
        let mut s = u64_to_string(n / 10);
        let d = digit_str(n % 10);
        s.append(d);
        proof {
            assert(s@ =~= dec_digits(n as nat));
        }
        s
    }
}

/// Tracks consecutive backend failures.
pub struct ApiHealth {
    pub consecutive_errors: u64,
    pub last_error_message: String,
    pub last_error_time: Option<u64>,
}

impl ApiHealth {
    /// A fresh monitor: healthy, no failure seen yet.
    pub fn new() -> (r: Self)
        ensures
            r.consecutive_errors == 0,
            r.last_error_message@ == Seq::<char>::empty(),
            r.last_error_time is None,
    {
        ApiHealth {
            consecutive_errors: 0,
            last_error_message: String::new(),
            last_error_time: None,
        }
    }

    /// A successful backend call resets the failure count to zero.
    pub fn record_success(&mut self)
        ensures
            final(self).consecutive_errors == 0,
            final(self).last_error_message == old(self).last_error_message,
            final(self).last_error_time == old(self).last_error_time,
    {
        self.consecutive_errors = 0;
    }

    /// A failed backend call: counts it and remembers the message and the
    /// time (epoch seconds).
    pub fn record_error(&mut self, message: String, now: u64)
        ensures
            final(self).consecutive_errors == spec_bump(old(self).consecutive_errors),
            final(self).last_error_message == message,
            final(self).last_error_time == Some(now),
    {
        if self.consecutive_errors < u64::MAX {
            self.consecutive_errors = self.consecutive_errors + 1;
        }
        self.last_error_message = message;
        self.last_error_time = Some(now);
    }

    /// Whether the failure count has reached the degradation threshold.
    pub fn is_unhealthy(&self) -> (r: bool)
        ensures
            r == spec_unhealthy(self.consecutive_errors),
    {
        self.consecutive_errors >= API_ERROR_THRESHOLD
    }

    /// Renders the diagnostic document for the current state; deterministic
    /// given the same state.
    pub fn get_error_content(&self) -> (r: String)
        ensures
            r@ == spec_health_content(*self),
    {
        let ts: u64 = match self.last_error_time {
            Some(t) => t,
            None => 0,
        };
        let count_str = u64_to_string(self.consecutive_errors);
        let ts_str = u64_to_string(ts);
        let mut s: String =
            "Meta-Fuse FUSE Driver - API Connection Error\n=============================================\n\nThe FUSE driver is mounted, but the meta-fuse API is not responding.\n\nError Details:\n- Consecutive failures: ".to_owned();
        s.append(count_str.as_str());
        s.append("\n- Last error: ");
        s.append(self.last_error_message.as_str());
        s.append("\n- Timestamp: ");
        s.append(ts_str.as_str());
        s.append(
            "\n\nPossible causes:\n1. meta-fuse-core service is not running\n2. API (port 3000) is not accessible\n3. Network connectivity issues\n\nTo resolve:\n1. Check if meta-fuse is running: docker ps | grep meta-fuse\n2. Check API health: curl http://localhost:3000/api/fuse/health\n3. Restart the container: docker restart meta-fuse\n\nThis ERROR.txt file will disappear once the API is responding again.\n",
        );
        proof {
            assert(s@ =~= spec_health_content(*self));
        }
        s
    }
}

/// Law: from any state, three consecutive recorded errors leave the system
/// degraded, and a single subsequent success makes it healthy again.
pub proof fn lemma_failure_threshold(c: u64)
    ensures
        spec_unhealthy(spec_bump(spec_bump(spec_bump(c)))),
        !spec_unhealthy(0),
{
}

} // verus!
