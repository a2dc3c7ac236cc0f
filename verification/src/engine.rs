//! The protocol engine as seen by this layer.
//!
//! Every operation against the engine is a "try once" call.  The engine
//! answers with success, with a terminal failure, or with a would-block
//! advisory naming the transport directions it needs to observe before the
//! call is retried.  A [`ScriptedEngine`] holds such answers as plain data,
//! in the order the engine will give them; the adapter consumes them one
//! attempt at a time.

use vstd::prelude::*;

verus! {

/// The engine's advisory bit for read (inbound) readiness.
pub const LIBSSH2_SESSION_BLOCK_INBOUND: i32 = 1;

/// The engine's advisory bit for write (outbound) readiness.
pub const LIBSSH2_SESSION_BLOCK_OUTBOUND: i32 = 2;

/// Transport readiness interest: read, write, neither or both.
#[derive(Clone, Copy, Debug, PartialEq, Eq, Structural)]
pub struct Directions {
    /// Read readiness is required.
    pub read: bool,
    /// Write readiness is required.
    pub write: bool,
}

impl Directions {
    /// Decode the engine's direction advisory bitmask; bits beyond the two
    /// the engine defines are ignored.
    pub fn from_bits(bits: i32) -> (r: Directions)
        ensures
            r.read == (bits & LIBSSH2_SESSION_BLOCK_INBOUND != 0),
            r.write == (bits & LIBSSH2_SESSION_BLOCK_OUTBOUND != 0),
    {
        Directions {
            read: bits & LIBSSH2_SESSION_BLOCK_INBOUND != 0,
            write: bits & LIBSSH2_SESSION_BLOCK_OUTBOUND != 0,
        }
    }
    /// Whether the advisory names at least one direction.
    pub open spec fn spec_is_some(self) -> bool {
        self.read || self.write
    }

    /// Whether the advisory names at least one direction.
    pub fn is_some(&self) -> (r: bool)
        ensures
            r == self.spec_is_some(),
    {
        self.read || self.write
    }
}

/// What the engine reports for one try-once attempt of an operation whose
/// successful result is a `T`.
#[derive(Debug)]
pub enum Outcome<T> {
    /// The operation finished and produced a value.
    Success(T),
    /// The operation must be retried once the named readiness is observed.
    WouldBlock(Directions),
    /// The operation failed terminally with the engine's reported error.
    Failure(crate::error::Ssh2Error),
}

/// A deterministic engine whose answers are given up front, front to back.
///
/// One attempt consumes one entry.  This is both the test double that the
/// design's properties are stated against and the verified stand-in for the
/// real engine, whose answers arrive one at a time from the transport.
pub struct ScriptedEngine<T> {
    script: Vec<Outcome<T>>,
}

impl<T> ScriptedEngine<T> {
    /// The answers not yet consumed, next answer first.
    pub closed spec fn view(&self) -> Seq<Outcome<T>> {
        self.script@
    }

    /// An engine that will answer with `script`, front to back.
    pub fn new(script: Vec<Outcome<T>>) -> (r: ScriptedEngine<T>)
        ensures
            r@ == script@,
    {
        ScriptedEngine { script }
    }

    /// How many answers are left.
    pub fn remaining(&self) -> (r: usize)
        ensures
            r == self@.len(),
    {
        self.script.len()
    }

    /// Consume and return the next answer.
    pub fn next_outcome(&mut self) -> (r: Outcome<T>)
        requires
            old(self)@.len() > 0,
        ensures
            r == old(self)@[0],
            final(self)@ == old(self)@.drop_first(),
    {
        let r = self.script.remove(0);
        proof {
            assert(final(self)@ =~= old(self)@.drop_first());
        }
        r
    }
}

/// Whether an answer asks for a retry: a would-block naming at least one
/// direction.  A would-block that names none violates the engine contract
/// and settles the call as a failure instead.
pub open spec fn is_retry<T>(o: Outcome<T>) -> bool {
    match o {
        Outcome::WouldBlock(d) => d.spec_is_some(),
        _ => false,
    }
}

/// The directions a retry answer asks the caller to wait for.
pub open spec fn advisory<T>(o: Outcome<T>) -> Directions {
    match o {
        Outcome::WouldBlock(d) => d,
        _ => Directions { read: false, write: false },
    }
}

/// Whether some answer of the script settles the call, i.e. is not a retry.
pub open spec fn has_settle<T>(s: Seq<Outcome<T>>) -> bool {
    exists|i: int| 0 <= i < s.len() && !is_retry(s[i])
}

/// The position of the first answer that settles the call.
pub open spec fn settle_pos<T>(s: Seq<Outcome<T>>) -> int
    decreases s.len(),
{
    if s.len() == 0 {
        0
    } else if !is_retry(s[0]) {
        0
    } else {
        1 + settle_pos(s.drop_first())
    }
}

/// The advisories of the retry answers before the settling one: the
/// directions a call over this script waits for, in order.
pub open spec fn retry_advisories<T>(s: Seq<Outcome<T>>) -> Seq<Directions> {
    Seq::new(settle_pos(s) as nat, |i: int| advisory(s[i]))
}

/// The settling position is the first non-retry position when one exists,
/// and the script's length when every answer is a retry; in either case
/// only retries precede it.
pub proof fn lemma_settle_pos<T>(s: Seq<Outcome<T>>)
    ensures
        0 <= settle_pos(s) <= s.len(),
        has_settle(s) ==> settle_pos(s) < s.len() && !is_retry(s[settle_pos(s)]),
        !has_settle(s) ==> settle_pos(s) == s.len(),
        forall|i: int| 0 <= i < settle_pos(s) ==> is_retry(s[i]),
    decreases s.len(),
{
    if s.len() == 0 || !is_retry(s[0]) {
    } else {
        lemma_settle_pos(s.drop_first());
        if has_settle(s) {
            let w = choose|i: int| 0 <= i < s.len() && !is_retry(s[i]);
            assert(!is_retry(s.drop_first()[w - 1]));
        }
        if has_settle(s.drop_first()) {
            let w = choose|i: int|
                0 <= i < s.drop_first().len() && !is_retry(s.drop_first()[i]);
            assert(!is_retry(s[w + 1]));
        }
        assert forall|i: int| 0 <= i < settle_pos(s) implies is_retry(s[i]) by {
            if i > 0 {
                assert(is_retry(s.drop_first()[i - 1]));
            }
        }
    }
}

} // verus!
