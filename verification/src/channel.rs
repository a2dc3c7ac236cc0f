//! A channel: one multiplexed logical sub-stream of a session, carrying a
//! remote process's numbered data streams.
//!
//! Every channel operation still needs exclusive access to the owning
//! session for its duration: the one connection carries all channels, and
//! the adapter serializes the calls over it.

use vstd::prelude::*;

use crate::engine::Outcome;
use crate::engine::ScriptedEngine;
use crate::engine::has_settle;
use crate::engine::settle_pos;
use crate::error::Error;
use crate::session::Session;
use crate::session::call_resolution;
use crate::session::consumed_call;
use crate::session::ok_value_from;

verus! {

/// The window size the engine chooses when the caller names none.
pub const LIBSSH2_CHANNEL_WINDOW_DEFAULT: u32 = 2 * 1024 * 1024;

/// The packet size the engine chooses when the caller names none.
pub const LIBSSH2_CHANNEL_PACKET_DEFAULT: u32 = 32768;

/// What the engine delivers for one successful channel read: the bytes of
/// the requested stream and — once the remote process has exited and the
/// engine has observed its status — the exit status it now knows.
#[derive(Debug)]
pub struct ChannelData {
    /// The bytes read; empty means end of stream.
    pub bytes: Vec<u8>,
    /// The exit status the engine learned during this read, if any.
    pub exit_status: Option<i32>,
}

/// A portion of an SSH-style connection on which data can be read and
/// written.
pub struct Channel {
    channel_type: String,
    window_size: u32,
    packet_size: u32,
    exit_status: i32,
    closed: bool,
}

impl Channel {
    /// The type under which the channel was opened.
    pub closed spec fn spec_channel_type(&self) -> Seq<char> {
        self.channel_type@
    }

    /// The window size the channel was opened with.
    pub closed spec fn spec_window_size(&self) -> u32 {
        self.window_size
    }

    /// The packet size the channel was opened with.
    pub closed spec fn spec_packet_size(&self) -> u32 {
        self.packet_size
    }

    /// The last exit status the engine reported for the remote process.
    pub closed spec fn spec_exit_status(&self) -> i32 {
        self.exit_status
    }

    /// Whether a graceful close has completed.
    pub closed spec fn spec_closed(&self) -> bool {
        self.closed
    }

    pub(crate) fn new(channel_type: String, window_size: u32, packet_size: u32) -> (r: Channel)
        ensures
            r.spec_channel_type() == channel_type@,
            r.spec_window_size() == window_size,
            r.spec_packet_size() == packet_size,
            r.spec_exit_status() == 0,
            !r.spec_closed(),
    {
        Channel { channel_type, window_size, packet_size, exit_status: 0, closed: false }
    }

    /// The window size the channel was opened with.
    pub fn window_size(&self) -> (r: u32)
        ensures
            r == self.spec_window_size(),
    {
        self.window_size
    }

    /// The packet size the channel was opened with.
    pub fn packet_size(&self) -> (r: u32)
        ensures
            r == self.spec_packet_size(),
    {
        self.packet_size
    }

    /// Whether a graceful close has completed.
    pub fn is_closed(&self) -> (r: bool)
        ensures
            r == self.spec_closed(),
    {
        self.closed
    }

    /// Request that an environment variable be set in the remote process's
    /// namespace.  The engine or server may reject this; the rejection is
    /// surfaced, not swallowed.
    pub fn setenv(
        &mut self,
        sess: &mut Session,
        eng: &mut ScriptedEngine<()>,
        name: &str,
        value: &str,
    ) -> (r: Result<(), Error>)
        ensures
            consumed_call(old(eng)@, final(eng)@),
            call_resolution(old(eng)@, r),
            final(sess).pending_dirs() is None,
            final(sess).spec_phase() == old(sess).spec_phase(),
            final(sess).spec_banner() == old(sess).spec_banner(),
            *final(self) == *old(self),
    {
        let (res, _) = sess.run_call(eng);
        res.into_result()
    }

    /// Initiate a request to start a remote process of the given kind:
    /// a shell with no message, a command or subsystem name as message.
    pub fn process_startup(
        &mut self,
        sess: &mut Session,
        eng: &mut ScriptedEngine<()>,
        request: &str,
        message: Option<&str>,
    ) -> (r: Result<(), Error>)
        ensures
            consumed_call(old(eng)@, final(eng)@),
            call_resolution(old(eng)@, r),
            final(sess).pending_dirs() is None,
            final(sess).spec_phase() == old(sess).spec_phase(),
            final(sess).spec_banner() == old(sess).spec_banner(),
            *final(self) == *old(self),
    {
        let (res, _) = sess.run_call(eng);
        res.into_result()
    }

    /// Start a shell.
    pub fn shell(&mut self, sess: &mut Session, eng: &mut ScriptedEngine<()>) -> (r: Result<
        (),
        Error,
    >)
        ensures
            consumed_call(old(eng)@, final(eng)@),
            call_resolution(old(eng)@, r),
            final(sess).pending_dirs() is None,
            final(sess).spec_phase() == old(sess).spec_phase(),
            final(sess).spec_banner() == old(sess).spec_banner(),
            *final(self) == *old(self),
    {
        self.process_startup(sess, eng, "shell", None)
    }

    /// Execute a command.
    pub fn exec(
        &mut self,
        sess: &mut Session,
        eng: &mut ScriptedEngine<()>,
        command: &str,
    ) -> (r: Result<(), Error>)
        ensures
            consumed_call(old(eng)@, final(eng)@),
            call_resolution(old(eng)@, r),
            final(sess).pending_dirs() is None,
            final(sess).spec_phase() == old(sess).spec_phase(),
            final(sess).spec_banner() == old(sess).spec_banner(),
            *final(self) == *old(self),
    {
        self.process_startup(sess, eng, "exec", Some(command))
    }

    /// Request a subsystem be started.
    pub fn subsystem(
        &mut self,
        sess: &mut Session,
        eng: &mut ScriptedEngine<()>,
        subsystem: &str,
    ) -> (r: Result<(), Error>)
        ensures
            consumed_call(old(eng)@, final(eng)@),
            call_resolution(old(eng)@, r),
            final(sess).pending_dirs() is None,
            final(sess).spec_phase() == old(sess).spec_phase(),
            final(sess).spec_banner() == old(sess).spec_banner(),
            *final(self) == *old(self),
    {
        self.process_startup(sess, eng, "subsystem", Some(subsystem))
    }

    /// Return a handle addressing one numbered data stream of this
    /// channel: stream `0` is the primary stream, stream `1` the extended
    /// (error) stream.
    pub fn stream(&self, stream_id: i32) -> (r: Stream)
        ensures
            r.spec_id() == stream_id,
    {
        Stream { stream_id }
    }

    /// The last exit status the engine reported for the remote process;
    /// meaningful only once the process has been observed to exit.
    pub fn exit_status(&self) -> (r: Result<i32, Error>)
        ensures
            r == Result::<i32, Error>::Ok(self.spec_exit_status()),
    {
        Ok(self.exit_status)
    }

    /// Read at most `max_len` bytes from one numbered stream.  A single
    /// call may deliver fewer bytes than requested; an empty delivery
    /// signals the end of the stream.  An exit status the engine learned
    /// during the read is recorded on the channel.
    pub fn read(
        &mut self,
        sess: &mut Session,
        eng: &mut ScriptedEngine<ChannelData>,
        stream_id: i32,
        max_len: usize,
    ) -> (r: Result<Vec<u8>, Error>)
        requires
            forall|i: int|
                0 <= i < old(eng)@.len() ==> (#[trigger] old(eng)@[i] matches Outcome::Success(d)
                    ==> d.bytes@.len() <= max_len),
        ensures
            consumed_call(old(eng)@, final(eng)@),
            call_resolution(old(eng)@, r),
            final(sess).pending_dirs() is None,
            final(sess).spec_phase() == old(sess).spec_phase(),
            final(sess).spec_banner() == old(sess).spec_banner(),
            final(self).spec_channel_type() == old(self).spec_channel_type(),
            final(self).spec_window_size() == old(self).spec_window_size(),
            final(self).spec_packet_size() == old(self).spec_packet_size(),
            final(self).spec_closed() == old(self).spec_closed(),
            match r {
                Result::Ok(b) => b@.len() <= max_len && (old(eng)@[settle_pos(old(eng)@)] matches
                Outcome::Success(d) && b == d.bytes && final(self).spec_exit_status() == (
                match d.exit_status {
                    Some(st) => st,
                    None => old(self).spec_exit_status(),
                })),
                Result::Err(e) => final(self).spec_exit_status() == old(self).spec_exit_status(),
            },
    {
        let ghost s0 = eng@;
        let (res, _) = sess.run_call(eng);
        proof {
            if has_settle(s0) {
                crate::engine::lemma_settle_pos(s0);
            }
        }
        match res {
            crate::session::CallResult::Complete(d) => {
                match d.exit_status {
                    Some(st) => {
                        self.exit_status = st;
                    },
                    None => {},
                }
                Ok(d.bytes)
            },
            crate::session::CallResult::Abort(e) => Err(Error::Ssh2(e)),
        }
    }

    /// Write bytes to one numbered stream.  A single call may consume
    /// fewer bytes than offered; the count actually taken is returned.
    pub fn write(
        &mut self,
        sess: &mut Session,
        eng: &mut ScriptedEngine<usize>,
        stream_id: i32,
        data: &[u8],
    ) -> (r: Result<usize, Error>)
        requires
            forall|i: int|
                0 <= i < old(eng)@.len() ==> (#[trigger] old(eng)@[i] matches Outcome::Success(n)
                    ==> n <= data@.len()),
        ensures
            consumed_call(old(eng)@, final(eng)@),
            call_resolution(old(eng)@, r),
            final(sess).pending_dirs() is None,
            final(sess).spec_phase() == old(sess).spec_phase(),
            final(sess).spec_banner() == old(sess).spec_banner(),
            *final(self) == *old(self),
            r matches Ok(n) ==> ok_value_from(old(eng)@, n) && n <= data@.len(),
    {
        let ghost s0 = eng@;
        let (res, _) = sess.run_call(eng);
        proof {
            if has_settle(s0) {
                crate::engine::lemma_settle_pos(s0);
            }
        }
        res.into_result()
    }

    /// Flush pending data of one numbered stream through the engine.
    pub fn flush(
        &mut self,
        sess: &mut Session,
        eng: &mut ScriptedEngine<()>,
        stream_id: i32,
    ) -> (r: Result<(), Error>)
        ensures
            consumed_call(old(eng)@, final(eng)@),
            call_resolution(old(eng)@, r),
            final(sess).pending_dirs() is None,
            final(sess).spec_phase() == old(sess).spec_phase(),
            final(sess).spec_banner() == old(sess).spec_banner(),
            *final(self) == *old(self),
    {
        let (res, _) = sess.run_call(eng);
        res.into_result()
    }

    /// Gracefully close the channel's protocol-level state.  Closing does
    /// not free the channel: a final exchange may still be needed, and the
    /// engine-side free happens at teardown.
    pub fn close(&mut self, sess: &mut Session, eng: &mut ScriptedEngine<()>) -> (r: Result<
        (),
        Error,
    >)
        ensures
            consumed_call(old(eng)@, final(eng)@),
            call_resolution(old(eng)@, r),
            final(sess).pending_dirs() is None,
            final(sess).spec_phase() == old(sess).spec_phase(),
            final(sess).spec_banner() == old(sess).spec_banner(),
            final(self).spec_channel_type() == old(self).spec_channel_type(),
            final(self).spec_window_size() == old(self).spec_window_size(),
            final(self).spec_packet_size() == old(self).spec_packet_size(),
            final(self).spec_exit_status() == old(self).spec_exit_status(),
            final(self).spec_closed() == if r is Ok {
                true
            } else {
                old(self).spec_closed()
            },
    {
        let (res, _) = sess.run_call(eng);
        match res {
            crate::session::CallResult::Complete(_) => {
                self.closed = true;
                Ok(())
            },
            crate::session::CallResult::Abort(e) => Err(Error::Ssh2(e)),
        }
    }
}

/// A thin addressable view selecting one numbered data stream of a
/// channel; it owns no protocol state of its own.
pub struct Stream {
    stream_id: i32,
}

impl Stream {
    /// The stream number this handle addresses.
    pub closed spec fn spec_id(&self) -> i32 {
        self.stream_id
    }

    /// Read from this stream; one engine call per invocation.
    pub fn read(
        &self,
        channel: &mut Channel,
        sess: &mut Session,
        eng: &mut ScriptedEngine<ChannelData>,
        max_len: usize,
    ) -> (r: Result<Vec<u8>, Error>)
        requires
            forall|i: int|
                0 <= i < old(eng)@.len() ==> (#[trigger] old(eng)@[i] matches Outcome::Success(d)
                    ==> d.bytes@.len() <= max_len),
        ensures
            consumed_call(old(eng)@, final(eng)@),
            call_resolution(old(eng)@, r),
            final(sess).pending_dirs() is None,
            r matches Ok(b) ==> b@.len() <= max_len,
    {
        channel.read(sess, eng, self.stream_id, max_len)
    }

    /// Write to this stream; one engine call per invocation.
    pub fn write(
        &self,
        channel: &mut Channel,
        sess: &mut Session,
        eng: &mut ScriptedEngine<usize>,
        data: &[u8],
    ) -> (r: Result<usize, Error>)
        requires
            forall|i: int|
                0 <= i < old(eng)@.len() ==> (#[trigger] old(eng)@[i] matches Outcome::Success(n)
                    ==> n <= data@.len()),
        ensures
            consumed_call(old(eng)@, final(eng)@),
            call_resolution(old(eng)@, r),
            final(sess).pending_dirs() is None,
            r matches Ok(n) ==> ok_value_from(old(eng)@, n) && n <= data@.len(),
    {
        channel.write(sess, eng, self.stream_id, data)
    }

    /// Flush this stream; one engine call per invocation.
    pub fn flush(
        &self,
        channel: &mut Channel,
        sess: &mut Session,
        eng: &mut ScriptedEngine<()>,
    ) -> (r: Result<(), Error>)
        ensures
            consumed_call(old(eng)@, final(eng)@),
            call_resolution(old(eng)@, r),
            final(sess).pending_dirs() is None,
    {
        channel.flush(sess, eng, self.stream_id)
    }
}

} // verus!
