//! The single place where a transport outcome becomes a decision: success,
//! session expiry, a transient failure, or a server-side job still running.

use vstd::prelude::*;
use vstd::string::*;

verus! {

/// Status of a successful call.
pub const STATUS_OK: u16 = 200;

/// Status of a request whose session token is no longer accepted.
pub const STATUS_UNAUTHORIZED: u16 = 401;

/// Status the service also uses for a session it no longer accepts.
pub const STATUS_NOT_ACCEPTABLE: u16 = 406;

/// Why a call did not succeed.
#[derive(Clone, Copy, Debug, PartialEq, Eq, Structural)]
pub enum Fault {
    /// The session must be re-established; the running cycle stops.
    AuthExpired,
    /// A transport failure or an unexpected status: retry or skip the item.
    Transient,
    /// The server is still working on the job: poll again later.
    Pending,
}

/// What a call came to.
#[derive(Clone, Debug, PartialEq, Eq)]
pub enum Outcome {
    Success(String),
    Failed(Fault),
}

/// The text a server sends while a manifest job is still running.
pub open spec fn pending_marker() -> Seq<char> {
    "Manifest command is in process"@
}

/// `needle` occurs in `hay` as a contiguous run.
pub open spec fn occurs_in(needle: Seq<char>, hay: Seq<char>) -> bool {
    exists|i: int| 0 <= i && i + needle.len() <= hay.len() && #[trigger] hay.subrange(i, i + needle.len()) == needle
}

/// The fault a status and body stand for, or `None` for success. `None` as
/// status means that no response arrived.
pub open spec fn fault_of(status: Option<u16>, body: Seq<char>) -> Option<Fault> {
    match status {
        None => Some(Fault::Transient),
        Some(code) => if code == STATUS_OK {
            None
        } else if code == STATUS_UNAUTHORIZED || code == STATUS_NOT_ACCEPTABLE {
            Some(Fault::AuthExpired)
        } else if occurs_in(pending_marker(), body) {
            Some(Fault::Pending)
        } else {
            Some(Fault::Transient)
        },
    }
}

/// Whether `needle` occurs in `hay`.
pub fn text_contains(hay: &str, needle: &str) -> (r: bool)
    ensures
        r == occurs_in(needle@, hay@),
{
    let h = hay.unicode_len();
    let n = needle.unicode_len();
    if n > h {
        return false;
    }
    let mut i: usize = 0;
    while i <= h - n
        invariant
            h == hay@.len(),
            n == needle@.len(),
            n <= h,
            i <= h - n + 1,
            forall|k: int| 0 <= k < i ==> #[trigger] hay@.subrange(k, k + n) != needle@,
        decreases h - n + 1 - i,
    {
        let mut j: usize = 0;
        let mut same = true;
        while j < n
            invariant
                h == hay@.len(),
                n == needle@.len(),
                i + n <= h,
                j <= n,
                same == forall|m: int| 0 <= m < j ==> hay@[i + m] == needle@[m],
            decreases n - j,
        {
            if hay.get_char(i + j) != needle.get_char(j) {
                same = false;
            }
            j = j + 1;
        }
        if same {
            assert(hay@.subrange(i as int, i + n) =~= needle@);
            return true;
        }
        proof {
            if hay@.subrange(i as int, i + n) == needle@ {
                assert forall|m: int| 0 <= m < n implies hay@[i + m] == needle@[m] by {
                    assert(hay@.subrange(i as int, i + n)[m] == hay@[i + m]);
                }
            }
        }
        i = i + 1;
    }
    proof {
        assert forall|k: int| 0 <= k && k + needle@.len() <= hay@.len() implies #[trigger] hay@.subrange(k, k + needle@.len()) != needle@ by {
            assert(k < i);
        }
    }
    false
}

/// Classifies a response: its status (`None` where no response arrived) and
/// its body.
pub fn classify(status: Option<u16>, body: &str) -> (r: Outcome)
    ensures
        match r {
            Outcome::Success(b) => fault_of(status, body@) is None && b@ == body@,
            Outcome::Failed(f) => fault_of(status, body@) == Some(f),
        },
{
    match status {
        None => Outcome::Failed(Fault::Transient),
        Some(code) => {
            if code == STATUS_OK {
                Outcome::Success(String::from_str(body))
            } else if code == STATUS_UNAUTHORIZED || code == STATUS_NOT_ACCEPTABLE {
                Outcome::Failed(Fault::AuthExpired)
            } else if text_contains(body, "Manifest command is in process") {
                Outcome::Failed(Fault::Pending)
            } else {
                Outcome::Failed(Fault::Transient)
            }
        },
    }
}

} // verus!
