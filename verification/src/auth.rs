//! Authentication of a session.
//!
//! A strategy is a capability: attempt authentication for a user against
//! the exclusively borrowed session, driving whatever engine calls it
//! needs.  The password strategy is the one built-in implementation; the
//! trait is open to others (public key, interactive).

use vstd::prelude::*;

use crate::engine::ScriptedEngine;
use crate::error::Error;
use crate::session::Phase;
use crate::session::Session;
use crate::session::call_resolution;
use crate::session::consumed_call;

verus! {

/// An authentication strategy.
pub trait Authenticator {
    /// Attempt authentication for `username`.  A strategy may drive any
    /// number of engine calls; it must leave the session in the phase it
    /// found it in, with no pending direction advisory.
    fn authenticate(
        &mut self,
        sess: &mut Session,
        username: &str,
        eng: &mut ScriptedEngine<()>,
    ) -> (r: Result<(), Error>)
        requires
            old(sess).spec_phase() != Phase::Created,
        ensures
            final(sess).pending_dirs() is None,
            final(sess).spec_phase() == old(sess).spec_phase(),
            final(sess).spec_banner() == old(sess).spec_banner(),
    ;
}

/// An `Authenticator` using a password.
pub struct PasswordAuth {
    password: String,
}

impl PasswordAuth {
    /// The password this strategy will present.
    pub closed spec fn spec_password(&self) -> Seq<char> {
        self.password@
    }

    /// Drive the one password authentication call to its end.
    pub fn poll_authenticate(
        &mut self,
        sess: &mut Session,
        username: &str,
        eng: &mut ScriptedEngine<()>,
    ) -> (r: Result<(), Error>)
        requires
            old(sess).spec_phase() != Phase::Created,
        ensures
            consumed_call(old(eng)@, final(eng)@),
            call_resolution(old(eng)@, r),
            final(sess).pending_dirs() is None,
            final(sess).spec_phase() == old(sess).spec_phase(),
            final(sess).spec_banner() == old(sess).spec_banner(),
    {
        let (res, _) = sess.run_call(eng);
        res.into_result()
    }
}

impl Authenticator for PasswordAuth {
    fn authenticate(
        &mut self,
        sess: &mut Session,
        username: &str,
        eng: &mut ScriptedEngine<()>,
    ) -> (r: Result<(), Error>) {
        self.poll_authenticate(sess, username, eng)
    }
}

/// Create a `PasswordAuth` with the provided password string.
pub fn password(secret: String) -> (r: PasswordAuth)
    ensures
        r.spec_password() == secret@,
{
    PasswordAuth { password: secret }
}

} // verus!
