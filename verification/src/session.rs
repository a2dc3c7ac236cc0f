//! The session: owner of the one connection, and home of the
//! readiness-driven call adapter that retries would-blocked engine calls.
//!
//! Exactly one adapter-driven call may be in flight per session; every
//! operation of this layer reaches the engine through `&mut Session`, so the
//! borrow discipline serializes the calls.  The session records, between
//! calls, the direction advisory of the last would-block: the next call must
//! first wait for that exact readiness before its first attempt.

use vstd::prelude::*;
use vstd::string::StringExecFns;

use crate::auth::Authenticator;
use crate::channel::Channel;
use crate::channel::LIBSSH2_CHANNEL_PACKET_DEFAULT;
use crate::channel::LIBSSH2_CHANNEL_WINDOW_DEFAULT;
use crate::engine::Directions;
use crate::engine::Outcome;
use crate::engine::ScriptedEngine;
use crate::engine::advisory;
use crate::engine::has_settle;
use crate::engine::is_retry;
use crate::engine::lemma_settle_pos;
use crate::engine::retry_advisories;
use crate::engine::settle_pos;
use crate::error::Error;
use crate::error::LIBSSH2_ERROR_BAD_USE;
use crate::error::LIBSSH2_ERROR_EAGAIN;
use crate::error::Ssh2Error;
use crate::error::invalid_input_error;
use crate::error::spec_message_for;
use crate::sftp::Sftp;
use crate::util::contains_nul;

verus! {

/// Where a session stands in its lifecycle.  The handshake must complete
/// before authentication, and both before channels or subsystems.
#[derive(Clone, Copy, Debug, PartialEq, Eq, Structural)]
pub enum Phase {
    /// Freshly initialized; no transport negotiation has happened.
    Created,
    /// The transport handshake has completed.
    Handshaken,
    /// An authentication attempt has succeeded.
    Authenticated,
}

/// What the adapter decides after absorbing one engine answer.
#[derive(Debug)]
pub enum CallStep<T> {
    /// The call finished with this value.
    Done(T),
    /// Wait for this readiness, then retry the same try-once operation.
    Wait(Directions),
    /// The call failed terminally with this engine error.
    Fail(Ssh2Error),
}

/// How a whole adapter-driven call ends.  A would-block never surfaces: it
/// is either retried or, when the engine names no direction, promoted to a
/// terminal error.
#[derive(Debug)]
pub enum CallResult<T> {
    /// The call finished with this value.
    Complete(T),
    /// The call failed terminally with this engine error.
    Abort(Ssh2Error),
}

/// What a finished adapter-driven call did: how many try-once attempts it
/// issued, and which readiness it waited for, in order.
#[derive(Debug)]
pub struct CallTrace {
    /// Number of try-once attempts issued.
    pub attempts: usize,
    /// The readiness waited for, in order: first the advisory a previous
    /// call left pending, if any, then one advisory per retried attempt.
    pub waits: Vec<Directions>,
}

/// The wait a call performs before its first attempt: the advisory the
/// previous call on the same session left pending, if any.
pub open spec fn pending_waits(p: Option<Directions>) -> Seq<Directions> {
    match p {
        Some(d) => seq![d],
        None => Seq::empty(),
    }
}

/// The error an aborted call surfaces for a given settling answer: the
/// engine's own error on a failure, and the promoted
/// engine-contract-violation error on a would-block naming no direction.
pub open spec fn abort_error_for<T>(o: Outcome<T>, e: Ssh2Error) -> bool {
    match o {
        Outcome::Failure(f) => e == f,
        Outcome::WouldBlock(d) => e.spec_code() == LIBSSH2_ERROR_BAD_USE && e.spec_message()
            == spec_message_for(LIBSSH2_ERROR_BAD_USE as int),
        Outcome::Success(v) => false,
    }
}

/// After one adapter-driven call over the answers `s0`, the engine holds
/// exactly the answers past the settling one.
pub open spec fn consumed_call<T>(s0: Seq<Outcome<T>>, s1: Seq<Outcome<T>>) -> bool {
    s1 == if has_settle(s0) {
        s0.skip(settle_pos(s0) + 1)
    } else {
        Seq::<Outcome<T>>::empty()
    }
}

/// How one adapter-driven operation over the answers `s` resolves: `Ok`
/// exactly when the settling answer is a success, and otherwise the one
/// terminal engine error the adapter surfaces — never a would-block, and
/// never a transport error of its own.
pub open spec fn call_resolution<T, U>(s: Seq<Outcome<T>>, r: Result<U, Error>) -> bool {
    &&& (r is Ok <==> has_settle(s) && s[settle_pos(s)] is Success)
    &&& match r {
        Result::Ok(v) => true,
        Result::Err(err) => err matches Error::Ssh2(e) && if has_settle(s) {
            abort_error_for(s[settle_pos(s)], e)
        } else {
            e.spec_code() == i32::MIN && e.spec_message() == "unknown error"@
        },
    }
}

/// Whether a successful operation's value is the one the settling answer
/// of the script delivered.
pub open spec fn ok_value_from<T>(s: Seq<Outcome<T>>, v: T) -> bool {
    has_settle(s) && s[settle_pos(s)] == Outcome::Success(v)
}

/// How a call resumes for a given settling answer: a success resumes with
/// its value, a failure with its error, and a would-block that names no
/// direction with the promoted engine-contract-violation error.
pub open spec fn call_result_for<T>(o: Outcome<T>, r: CallResult<T>) -> bool {
    match o {
        Outcome::Success(v) => r == CallResult::<T>::Complete(v),
        Outcome::Failure(e) => r == CallResult::<T>::Abort(e),
        Outcome::WouldBlock(d) => r matches CallResult::Abort(e)
            && e.spec_code() == LIBSSH2_ERROR_BAD_USE
            && e.spec_message() == spec_message_for(LIBSSH2_ERROR_BAD_USE as int),
    }
}

/// Whether `r` aborts with the placeholder error: how a call resumes when
/// the scripted engine runs out of answers.
pub open spec fn aborts_unknown<T>(r: CallResult<T>) -> bool {
    r matches CallResult::Abort(e) && e.spec_code() == i32::MIN && e.spec_message()
        == "unknown error"@
}

impl<T> CallResult<T> {
    /// Resolve a finished call into this layer's error taxonomy: every
    /// terminal engine error is surfaced as a structured error.
    pub fn into_result(self) -> (r: Result<T, Error>)
        ensures
            match self {
                CallResult::Complete(v) => r == Result::<T, Error>::Ok(v),
                CallResult::Abort(e) => r == Result::<T, Error>::Err(Error::Ssh2(e)),
            },
    {
        match self {
            CallResult::Complete(v) => Ok(v),
            CallResult::Abort(e) => Err(Error::Ssh2(e)),
        }
    }
}

/// A handle to one SSH-style protocol session.
pub struct Session {
    phase: Phase,
    pending: Option<Directions>,
    banner: Option<Vec<u8>>,
}

impl Session {
    /// The lifecycle phase of the session.
    pub closed spec fn spec_phase(&self) -> Phase {
        self.phase
    }

    /// The direction advisory left by the last would-blocked call, if any.
    pub closed spec fn pending_dirs(&self) -> Option<Directions> {
        self.pending
    }

    /// The banner recorded to be sent at handshake, if one was set.
    pub closed spec fn spec_banner(&self) -> Option<Seq<u8>> {
        match self.banner {
            Some(b) => Some(b@),
            None => None,
        }
    }

    /// Initialize a session: no negotiation done, no pending advisory.
    pub fn new() -> (r: Session)
        ensures
            r.spec_phase() == Phase::Created,
            r.pending_dirs() is None,
            r.spec_banner() is None,
    {
        Session { phase: Phase::Created, pending: None, banner: None }
    }

    /// The readiness the caller must observe before the next try-once
    /// attempt: the pending advisory, or nothing.
    pub fn required_readiness(&self) -> (r: Directions)
        ensures
            r == match self.pending_dirs() {
                Some(d) => d,
                None => Directions { read: false, write: false },
            },
    {
        match self.pending {
            Some(d) => d,
            None => Directions { read: false, write: false },
        }
    }

    /// Absorb one engine answer for a try-once attempt.
    ///
    /// The pending advisory is cleared first and set again only on a
    /// would-block that names a direction.  A would-block that names none
    /// is inconsistent and is promoted to a terminal error rather than
    /// retried forever.
    pub fn absorb<T>(&mut self, outcome: Outcome<T>) -> (r: CallStep<T>)
        ensures
            final(self).pending_dirs() == if is_retry(outcome) {
                Some(advisory(outcome))
            } else {
                None::<Directions>
            },
            final(self).spec_phase() == old(self).spec_phase(),
            final(self).spec_banner() == old(self).spec_banner(),
            match outcome {
                Outcome::Success(v) => r == CallStep::<T>::Done(v),
                Outcome::Failure(e) => r == CallStep::<T>::Fail(e),
                Outcome::WouldBlock(d) => if d.spec_is_some() {
                    r == CallStep::<T>::Wait(d)
                } else {
                    r matches CallStep::Fail(e) && e.spec_code() == LIBSSH2_ERROR_BAD_USE
                        && e.spec_message() == spec_message_for(LIBSSH2_ERROR_BAD_USE as int)
                },
            },
    {
        self.pending = None;
        match outcome {
            Outcome::Success(v) => CallStep::Done(v),
            Outcome::Failure(e) => CallStep::Fail(e),
            Outcome::WouldBlock(d) => {
                if d.is_some() {
                    self.pending = Some(d);
                    CallStep::Wait(d)
                } else {
                    CallStep::Fail(Ssh2Error::from_code(LIBSSH2_ERROR_BAD_USE))
                }
            },
        }
    }

    /// Drive one operation to its end against a scripted engine: wait for
    /// any pending advisory, try once, and on each would-block wait for the
    /// reported readiness and try again.
    ///
    /// The call consumes exactly the answers up to and including the first
    /// settling one, issues one attempt per answer consumed, and waits
    /// exactly on the advisories the engine reported, in order.  Should the
    /// script run out while the engine still asks for retries, the call
    /// aborts with the placeholder error.
    #[verifier::loop_isolation(false)]
    pub fn run_call<T>(&mut self, eng: &mut ScriptedEngine<T>) -> (r: (CallResult<T>, CallTrace))
        ensures
            final(eng)@ == if has_settle(old(eng)@) {
                old(eng)@.skip(settle_pos(old(eng)@) + 1)
            } else {
                Seq::<Outcome<T>>::empty()
            },
            r.1.attempts == if has_settle(old(eng)@) {
                settle_pos(old(eng)@) + 1
            } else {
                old(eng)@.len() as int
            },
            r.1.waits@ == pending_waits(old(self).pending_dirs()) + retry_advisories(old(eng)@),
            final(self).pending_dirs() is None,
            final(self).spec_phase() == old(self).spec_phase(),
            final(self).spec_banner() == old(self).spec_banner(),
            if has_settle(old(eng)@) {
                call_result_for(old(eng)@[settle_pos(old(eng)@)], r.0)
            } else {
                aborts_unknown(r.0)
            },
    {
        let total: usize = eng.remaining();
        let ghost s0: Seq<Outcome<T>> = eng@;
        let ghost p0 = self.pending_dirs();
        let ghost phase0 = self.spec_phase();
        let ghost banner0 = self.spec_banner();
        proof {
            lemma_settle_pos(s0);
        }
        let ghost k = settle_pos(s0);

        let mut waits: Vec<Directions> = Vec::new();
        match self.pending {
            Some(d) => waits.push(d),
            None => {},
        }
        let mut attempts: usize = 0;
        loop
            invariant
                k == settle_pos(s0),
                0 <= k <= s0.len(),
                has_settle(s0) ==> k < s0.len() && !is_retry(s0[k]),
                !has_settle(s0) ==> k == s0.len(),
                forall|i: int| 0 <= i < k ==> is_retry(s0[i]),
                s0.len() == total,
                attempts <= k,
                eng@ == s0.skip(attempts as int),
                waits@ == pending_waits(p0) + Seq::new(attempts as nat, |i: int| advisory(s0[i])),
                self.pending_dirs() == if attempts == 0 {
                    p0
                } else {
                    Some(advisory(s0[attempts - 1]))
                },
                self.spec_phase() == phase0,
                self.spec_banner() == banner0,
            decreases total - attempts,
        {
            if eng.remaining() == 0 {
                // Every scripted answer asked for a retry; the engine has no
                // settling answer left, so the call ends as a failure.
                self.pending = None;
                proof {
                    assert(attempts == k && k == total);
                    assert(waits@ =~= pending_waits(p0) + retry_advisories(s0));
                }
                return (CallResult::Abort(Ssh2Error::unknown()), CallTrace { attempts, waits });
            }
            let o = eng.next_outcome();
            proof {
                assert(o == s0[attempts as int]);
                assert(eng@ =~= s0.skip(attempts + 1));
            }
            attempts = attempts + 1;
            match self.absorb(o) {
                CallStep::Done(v) => {
                    proof {
                        assert(attempts - 1 == k);
                        assert(waits@ =~= pending_waits(p0) + retry_advisories(s0));
                    }
                    return (CallResult::Complete(v), CallTrace { attempts, waits });
                },
                CallStep::Fail(e) => {
                    proof {
                        assert(attempts - 1 == k);
                        assert(waits@ =~= pending_waits(p0) + retry_advisories(s0));
                    }
                    return (CallResult::Abort(e), CallTrace { attempts, waits });
                },
                CallStep::Wait(d) => {
                    waits.push(d);
                    proof {
                        assert(is_retry(s0[attempts - 1]));
                        assert(attempts <= k);
                        assert(waits@ =~= pending_waits(p0)
                            + Seq::new(attempts as nat, |i: int| advisory(s0[i])));
                    }
                },
            }
        }
    }

    /// Record the banner to be sent to the remote host when the session
    /// starts.  A banner holding a NUL byte cannot cross the C boundary
    /// and is rejected as invalid input.
    pub fn set_banner(&mut self, banner: &[u8]) -> (r: Result<(), Error>)
        ensures
            final(self).spec_phase() == old(self).spec_phase(),
            final(self).pending_dirs() == old(self).pending_dirs(),
            if banner@.contains(0u8) {
                r matches Err(e) && e is Io && final(self).spec_banner() == old(
                    self,
                ).spec_banner()
            } else {
                r is Ok && final(self).spec_banner() == Some(banner@)
            },
    {
        if contains_nul(banner) {
            Err(Error::Io(invalid_input_error("unexpected null character in a banner")))
        } else {
            self.banner = Some(vstd::slice::slice_to_vec(banner));
            Ok(())
        }
    }

    /// Drive the transport handshake to completion.  This must be the
    /// first engine-driven call of a session; on success the session may
    /// authenticate and open channels.
    pub fn handshake(&mut self, eng: &mut ScriptedEngine<()>) -> (r: Result<(), Error>)
        requires
            old(self).spec_phase() == Phase::Created,
        ensures
            consumed_call(old(eng)@, final(eng)@),
            call_resolution(old(eng)@, r),
            final(self).pending_dirs() is None,
            final(self).spec_banner() == old(self).spec_banner(),
            final(self).spec_phase() == if r is Ok {
                Phase::Handshaken
            } else {
                Phase::Created
            },
    {
        let (res, _) = self.run_call(eng);
        match res {
            CallResult::Complete(_) => {
                self.phase = Phase::Handshaken;
                Ok(())
            },
            CallResult::Abort(e) => Err(Error::Ssh2(e)),
        }
    }

    /// Attempt the given authentication strategy for `username`.  On
    /// success the session is authenticated; on failure it stays where it
    /// was.
    pub fn authenticate<A: Authenticator>(
        &mut self,
        username: &str,
        auth: A,
        eng: &mut ScriptedEngine<()>,
    ) -> (r: Result<(), Error>)
        requires
            old(self).spec_phase() != Phase::Created,
        ensures
            final(self).pending_dirs() is None,
            final(self).spec_banner() == old(self).spec_banner(),
            final(self).spec_phase() == if r is Ok {
                Phase::Authenticated
            } else {
                old(self).spec_phase()
            },
    {
        let mut auth = auth;
        match auth.authenticate(self, username, eng) {
            Ok(_) => {
                self.phase = Phase::Authenticated;
                Ok(())
            },
            Err(e) => Err(e),
        }
    }

    /// Whether the session has been successfully authenticated.
    pub fn authenticated(&self) -> (r: bool)
        ensures
            r == (self.spec_phase() == Phase::Authenticated),
    {
        match self.phase {
            Phase::Authenticated => true,
            _ => false,
        }
    }

    /// List the authentication methods the remote side supports for an
    /// user, as the raw comma-separated byte list the engine delivers.
    pub fn list_userauth(&mut self, username: &str, eng: &mut ScriptedEngine<Vec<u8>>) -> (r:
        Result<Vec<u8>, Error>)
        requires
            old(self).spec_phase() != Phase::Created,
        ensures
            consumed_call(old(eng)@, final(eng)@),
            call_resolution(old(eng)@, r),
            final(self).pending_dirs() is None,
            final(self).spec_phase() == old(self).spec_phase(),
            final(self).spec_banner() == old(self).spec_banner(),
            r matches Ok(v) ==> ok_value_from(old(eng)@, v),
    {
        let (res, _) = self.run_call(eng);
        res.into_result()
    }

    /// Open a channel of the given type over this session.  Window and
    /// packet sizes default to the engine's choices when unspecified; the
    /// optional message rides along with the open request.
    pub fn open_channel(
        &mut self,
        channel_type: &str,
        window_size: Option<u32>,
        packet_size: Option<u32>,
        msg: Option<&str>,
        eng: &mut ScriptedEngine<()>,
    ) -> (r: Result<Channel, Error>)
        requires
            old(self).spec_phase() != Phase::Created,
        ensures
            consumed_call(old(eng)@, final(eng)@),
            call_resolution(old(eng)@, r),
            final(self).pending_dirs() is None,
            final(self).spec_phase() == old(self).spec_phase(),
            final(self).spec_banner() == old(self).spec_banner(),
            r matches Ok(c) ==> {
                &&& c.spec_channel_type() == channel_type@
                &&& c.spec_window_size() == match window_size {
                    Some(w) => w,
                    None => LIBSSH2_CHANNEL_WINDOW_DEFAULT,
                }
                &&& c.spec_packet_size() == match packet_size {
                    Some(p) => p,
                    None => LIBSSH2_CHANNEL_PACKET_DEFAULT,
                }
                &&& c.spec_exit_status() == 0
                &&& !c.spec_closed()
            },
    {
        let ws = match window_size {
            Some(w) => w,
            None => LIBSSH2_CHANNEL_WINDOW_DEFAULT,
        };
        let ps = match packet_size {
            Some(p) => p,
            None => LIBSSH2_CHANNEL_PACKET_DEFAULT,
        };
        let (res, _) = self.run_call(eng);
        match res {
            CallResult::Complete(_) => Ok(Channel::new(String::from_str(channel_type), ws, ps)),
            CallResult::Abort(e) => Err(Error::Ssh2(e)),
        }
    }

    /// Open the file-transfer subsystem over this session.
    pub fn sftp(&mut self, eng: &mut ScriptedEngine<()>) -> (r: Result<Sftp, Error>)
        requires
            old(self).spec_phase() != Phase::Created,
        ensures
            consumed_call(old(eng)@, final(eng)@),
            call_resolution(old(eng)@, r),
            final(self).pending_dirs() is None,
            final(self).spec_phase() == old(self).spec_phase(),
            final(self).spec_banner() == old(self).spec_banner(),
    {
        let (res, _) = self.run_call(eng);
        match res {
            CallResult::Complete(_) => Ok(Sftp::new()),
            CallResult::Abort(e) => Err(Error::Ssh2(e)),
        }
    }

    /// Open a channel of type `session`, the kind that carries a remote
    /// shell, command or subsystem.
    pub fn open_channel_session(&mut self, eng: &mut ScriptedEngine<()>) -> (r: Result<
        Channel,
        Error,
    >)
        requires
            old(self).spec_phase() != Phase::Created,
        ensures
            consumed_call(old(eng)@, final(eng)@),
            call_resolution(old(eng)@, r),
            final(self).pending_dirs() is None,
            final(self).spec_phase() == old(self).spec_phase(),
            final(self).spec_banner() == old(self).spec_banner(),
            r matches Ok(c) ==> {
                &&& c.spec_channel_type() == "session"@
                &&& c.spec_window_size() == LIBSSH2_CHANNEL_WINDOW_DEFAULT
                &&& c.spec_packet_size() == LIBSSH2_CHANNEL_PACKET_DEFAULT
                &&& c.spec_exit_status() == 0
                &&& !c.spec_closed()
            },
    {
        self.open_channel("session", None, None, None, eng)
    }
}

/// Classify the return code of one try-once engine call: a nonnegative
/// code succeeds with itself; a negative code whose last error is the
/// would-block code asks for a retry with the engine's direction advisory;
/// any other negative code fails with the engine's last error.
pub fn classify_return(code: i64, last: Ssh2Error, dirs: Directions) -> (o: Outcome<i64>)
    ensures
        o == if code >= 0 {
            Outcome::<i64>::Success(code)
        } else if last.spec_code() == LIBSSH2_ERROR_EAGAIN {
            Outcome::<i64>::WouldBlock(dirs)
        } else {
            Outcome::<i64>::Failure(last)
        },
{
    if code >= 0 {
        Outcome::Success(code)
    } else if last.code() == LIBSSH2_ERROR_EAGAIN {
        Outcome::WouldBlock(dirs)
    } else {
        Outcome::Failure(last)
    }
}

/// Retry idempotence: over a script whose first `n` answers ask for a
/// retry and whose next answer settles, a call settles exactly at position
/// `n` — so, by `run_call`'s contract, it issues exactly `n + 1` try-once
/// attempts and resumes with that settling answer.
pub proof fn lemma_retries_then_settle<T>(s: Seq<Outcome<T>>, n: int)
    requires
        0 <= n < s.len(),
        forall|i: int| 0 <= i < n ==> is_retry(s[i]),
        !is_retry(s[n]),
    ensures
        has_settle(s),
        settle_pos(s) == n,
    decreases n,
{
    assert(has_settle(s));
    if n > 0 {
        assert forall|i: int| 0 <= i < n - 1 implies is_retry(s.drop_first()[i]) by {
            assert(is_retry(s[i + 1]));
        }
        lemma_retries_then_settle(s.drop_first(), n - 1);
    }
}

/// Direction correctness: the wait a call performs after its `i`-th
/// retried attempt is exactly the direction advisory the engine reported
/// on that attempt's would-block — never another direction.
pub proof fn lemma_waits_follow_advisories<T>(s: Seq<Outcome<T>>, i: int)
    requires
        0 <= i < settle_pos(s),
    ensures
        is_retry(s[i]),
        retry_advisories(s)[i] == advisory(s[i]),
{
    lemma_settle_pos(s);
}

/// Single flight: calls driven in sequence over one engine consume
/// disjoint, adjacent spans of its answers.  The first call consumes
/// positions `0` through `settle_pos(s)` and leaves the rest, whose `j`-th
/// answer is the original script's answer at `settle_pos(s) + 1 + j`; so
/// every attempt of a later call comes strictly after every attempt of an
/// earlier one.  (At runtime, the exclusive `&mut Session` each call holds
/// already keeps two calls from interleaving their attempts at all.)
pub proof fn lemma_single_flight<T>(s: Seq<Outcome<T>>)
    requires
        has_settle(s),
    ensures
        0 <= settle_pos(s) < s.len(),
        forall|j: int|
            0 <= j < s.len() - settle_pos(s) - 1 ==> #[trigger] s.skip(settle_pos(s) + 1)[j]
                == s.index(settle_pos(s) + 1 + j),
{
    lemma_settle_pos(s);
}

} // verus!
