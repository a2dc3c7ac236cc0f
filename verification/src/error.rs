//! Error taxonomy: structured errors built from the protocol engine's
//! numeric codes, kept apart from transport I/O failures.
//!
//! The numeric values mirror the error codes of the libssh2 wire-protocol
//! engine: the negative session-level codes, and the positive file-transfer
//! status codes.

use vstd::prelude::*;
use vstd::string::StringExecFns;

verus! {

pub const LIBSSH2_ERROR_BANNER_RECV: i32 = -2;
pub const LIBSSH2_ERROR_BANNER_SEND: i32 = -3;
pub const LIBSSH2_ERROR_INVALID_MAC: i32 = -4;
pub const LIBSSH2_ERROR_KEX_FAILURE: i32 = -5;
pub const LIBSSH2_ERROR_ALLOC: i32 = -6;
pub const LIBSSH2_ERROR_SOCKET_SEND: i32 = -7;
pub const LIBSSH2_ERROR_KEY_EXCHANGE_FAILURE: i32 = -8;
pub const LIBSSH2_ERROR_TIMEOUT: i32 = -9;
pub const LIBSSH2_ERROR_HOSTKEY_INIT: i32 = -10;
pub const LIBSSH2_ERROR_HOSTKEY_SIGN: i32 = -11;
pub const LIBSSH2_ERROR_DECRYPT: i32 = -12;
pub const LIBSSH2_ERROR_SOCKET_DISCONNECT: i32 = -13;
pub const LIBSSH2_ERROR_PROTO: i32 = -14;
pub const LIBSSH2_ERROR_PASSWORD_EXPIRED: i32 = -15;
pub const LIBSSH2_ERROR_FILE: i32 = -16;
pub const LIBSSH2_ERROR_METHOD_NONE: i32 = -17;
pub const LIBSSH2_ERROR_AUTHENTICATION_FAILED: i32 = -18;
pub const LIBSSH2_ERROR_PUBLICKEY_UNVERIFIED: i32 = -19;
pub const LIBSSH2_ERROR_CHANNEL_OUTOFORDER: i32 = -20;
pub const LIBSSH2_ERROR_CHANNEL_FAILURE: i32 = -21;
pub const LIBSSH2_ERROR_CHANNEL_REQUEST_DENIED: i32 = -22;
pub const LIBSSH2_ERROR_CHANNEL_UNKNOWN: i32 = -23;
pub const LIBSSH2_ERROR_CHANNEL_WINDOW_EXCEEDED: i32 = -24;
pub const LIBSSH2_ERROR_CHANNEL_PACKET_EXCEEDED: i32 = -25;
pub const LIBSSH2_ERROR_CHANNEL_CLOSED: i32 = -26;
pub const LIBSSH2_ERROR_CHANNEL_EOF_SENT: i32 = -27;
pub const LIBSSH2_ERROR_SCP_PROTOCOL: i32 = -28;
pub const LIBSSH2_ERROR_ZLIB: i32 = -29;
pub const LIBSSH2_ERROR_SOCKET_TIMEOUT: i32 = -30;
pub const LIBSSH2_ERROR_SFTP_PROTOCOL: i32 = -31;
pub const LIBSSH2_ERROR_REQUEST_DENIED: i32 = -32;
pub const LIBSSH2_ERROR_METHOD_NOT_SUPPORTED: i32 = -33;
pub const LIBSSH2_ERROR_INVAL: i32 = -34;
pub const LIBSSH2_ERROR_INVALID_POLL_TYPE: i32 = -35;
pub const LIBSSH2_ERROR_PUBLICKEY_PROTOCOL: i32 = -36;
pub const LIBSSH2_ERROR_EAGAIN: i32 = -37;
pub const LIBSSH2_ERROR_BUFFER_TOO_SMALL: i32 = -38;
pub const LIBSSH2_ERROR_BAD_USE: i32 = -39;
pub const LIBSSH2_ERROR_COMPRESS: i32 = -40;
pub const LIBSSH2_ERROR_OUT_OF_BOUNDARY: i32 = -41;
pub const LIBSSH2_ERROR_AGENT_PROTOCOL: i32 = -42;
pub const LIBSSH2_ERROR_SOCKET_RECV: i32 = -43;
pub const LIBSSH2_ERROR_ENCRYPT: i32 = -44;
pub const LIBSSH2_ERROR_BAD_SOCKET: i32 = -45;
pub const LIBSSH2_ERROR_KNOWN_HOSTS: i32 = -46;

pub const LIBSSH2_FX_EOF: i32 = 1;
pub const LIBSSH2_FX_NO_SUCH_FILE: i32 = 2;
pub const LIBSSH2_FX_PERMISSION_DENIED: i32 = 3;
pub const LIBSSH2_FX_FAILURE: i32 = 4;
pub const LIBSSH2_FX_BAD_MESSAGE: i32 = 5;
pub const LIBSSH2_FX_NO_CONNECTION: i32 = 6;
pub const LIBSSH2_FX_CONNECTION_LOST: i32 = 7;
pub const LIBSSH2_FX_OP_UNSUPPORTED: i32 = 8;
pub const LIBSSH2_FX_INVALID_HANDLE: i32 = 9;
pub const LIBSSH2_FX_NO_SUCH_PATH: i32 = 10;
pub const LIBSSH2_FX_FILE_ALREADY_EXISTS: i32 = 11;
pub const LIBSSH2_FX_WRITE_PROTECT: i32 = 12;
pub const LIBSSH2_FX_NO_MEDIA: i32 = 13;
pub const LIBSSH2_FX_NO_SPACE_ON_FILESYSTEM: i32 = 14;
pub const LIBSSH2_FX_QUOTA_EXCEEDED: i32 = 15;
pub const LIBSSH2_FX_UNKNOWN_PRINCIPAL: i32 = 16;
pub const LIBSSH2_FX_LOCK_CONFLICT: i32 = 17;
pub const LIBSSH2_FX_DIR_NOT_EMPTY: i32 = 18;
pub const LIBSSH2_FX_NOT_A_DIRECTORY: i32 = 19;
pub const LIBSSH2_FX_INVALID_FILENAME: i32 = 20;
pub const LIBSSH2_FX_LINK_LOOP: i32 = 21;

/// A structured error reported by the protocol engine: a numeric code and a
/// descriptive message.
#[derive(Debug)]
pub struct Ssh2Error {
    code: i32,
    msg: String,
}

/// Whether `code` is one of the engine codes this layer knows a message for.
pub open spec fn is_known_code(code: int) -> bool {
    ||| -46 <= code <= -2
    ||| 1 <= code <= 21
}

/// The message this layer attaches to an engine code; the fallback text for
/// codes outside the table.
pub open spec fn spec_message_for(code: int) -> Seq<char> {
    if code == LIBSSH2_ERROR_BANNER_RECV {
        "banner recv failure"@
    } else if code == LIBSSH2_ERROR_BANNER_SEND {
        "banner send failure"@
    } else if code == LIBSSH2_ERROR_INVALID_MAC {
        "invalid mac"@
    } else if code == LIBSSH2_ERROR_KEX_FAILURE {
        "kex failure"@
    } else if code == LIBSSH2_ERROR_ALLOC {
        "alloc failure"@
    } else if code == LIBSSH2_ERROR_SOCKET_SEND {
        "socket send faiulre"@
    } else if code == LIBSSH2_ERROR_KEY_EXCHANGE_FAILURE {
        "key exchange failure"@
    } else if code == LIBSSH2_ERROR_TIMEOUT {
        "timed out"@
    } else if code == LIBSSH2_ERROR_HOSTKEY_INIT {
        "hostkey init error"@
    } else if code == LIBSSH2_ERROR_HOSTKEY_SIGN {
        "hostkey sign error"@
    } else if code == LIBSSH2_ERROR_DECRYPT {
        "decrypt error"@
    } else if code == LIBSSH2_ERROR_SOCKET_DISCONNECT {
        "socket disconnected"@
    } else if code == LIBSSH2_ERROR_PROTO {
        "protocol error"@
    } else if code == LIBSSH2_ERROR_PASSWORD_EXPIRED {
        "password expired"@
    } else if code == LIBSSH2_ERROR_FILE {
        "file error"@
    } else if code == LIBSSH2_ERROR_METHOD_NONE {
        "bad method name"@
    } else if code == LIBSSH2_ERROR_AUTHENTICATION_FAILED {
        "authentication failed"@
    } else if code == LIBSSH2_ERROR_PUBLICKEY_UNVERIFIED {
        "public key unverified"@
    } else if code == LIBSSH2_ERROR_CHANNEL_OUTOFORDER {
        "channel out of order"@
    } else if code == LIBSSH2_ERROR_CHANNEL_FAILURE {
        "channel failure"@
    } else if code == LIBSSH2_ERROR_CHANNEL_REQUEST_DENIED {
        "request denied"@
    } else if code == LIBSSH2_ERROR_CHANNEL_UNKNOWN {
        "unknown channel error"@
    } else if code == LIBSSH2_ERROR_CHANNEL_WINDOW_EXCEEDED {
        "window exceeded"@
    } else if code == LIBSSH2_ERROR_CHANNEL_PACKET_EXCEEDED {
        "packet exceeded"@
    } else if code == LIBSSH2_ERROR_CHANNEL_CLOSED {
        "closed channel"@
    } else if code == LIBSSH2_ERROR_CHANNEL_EOF_SENT {
        "eof sent"@
    } else if code == LIBSSH2_ERROR_SCP_PROTOCOL {
        "scp protocol error"@
    } else if code == LIBSSH2_ERROR_ZLIB {
        "zlib error"@
    } else if code == LIBSSH2_ERROR_SOCKET_TIMEOUT {
        "socket timeout"@
    } else if code == LIBSSH2_ERROR_SFTP_PROTOCOL {
        "sftp protocol error"@
    } else if code == LIBSSH2_ERROR_REQUEST_DENIED {
        "request denied"@
    } else if code == LIBSSH2_ERROR_METHOD_NOT_SUPPORTED {
        "method not supported"@
    } else if code == LIBSSH2_ERROR_INVAL {
        "invalid"@
    } else if code == LIBSSH2_ERROR_INVALID_POLL_TYPE {
        "invalid poll type"@
    } else if code == LIBSSH2_ERROR_PUBLICKEY_PROTOCOL {
        "public key protocol error"@
    } else if code == LIBSSH2_ERROR_EAGAIN {
        "operation would block"@
    } else if code == LIBSSH2_ERROR_BUFFER_TOO_SMALL {
        "buffer too small"@
    } else if code == LIBSSH2_ERROR_BAD_USE {
        "bad use error"@
    } else if code == LIBSSH2_ERROR_COMPRESS {
        "compression error"@
    } else if code == LIBSSH2_ERROR_OUT_OF_BOUNDARY {
        "out of bounds"@
    } else if code == LIBSSH2_ERROR_AGENT_PROTOCOL {
        "invalid agent protocol"@
    } else if code == LIBSSH2_ERROR_SOCKET_RECV {
        "error receiving on socket"@
    } else if code == LIBSSH2_ERROR_ENCRYPT {
        "bad encrypt"@
    } else if code == LIBSSH2_ERROR_BAD_SOCKET {
        "bad socket"@
    } else if code == LIBSSH2_ERROR_KNOWN_HOSTS {
        "known hosts error"@
    } else if code == LIBSSH2_FX_EOF {
        "end of file"@
    } else if code == LIBSSH2_FX_NO_SUCH_FILE {
        "no such file"@
    } else if code == LIBSSH2_FX_PERMISSION_DENIED {
        "permission denied"@
    } else if code == LIBSSH2_FX_FAILURE {
        "failure"@
    } else if code == LIBSSH2_FX_BAD_MESSAGE {
        "bad message"@
    } else if code == LIBSSH2_FX_NO_CONNECTION {
        "no connection"@
    } else if code == LIBSSH2_FX_CONNECTION_LOST {
        "connection lost"@
    } else if code == LIBSSH2_FX_OP_UNSUPPORTED {
        "operation unsupported"@
    } else if code == LIBSSH2_FX_INVALID_HANDLE {
        "invalid handle"@
    } else if code == LIBSSH2_FX_NO_SUCH_PATH {
        "no such path"@
    } else if code == LIBSSH2_FX_FILE_ALREADY_EXISTS {
        "file already exists"@
    } else if code == LIBSSH2_FX_WRITE_PROTECT {
        "file is write protected"@
    } else if code == LIBSSH2_FX_NO_MEDIA {
        "no media available"@
    } else if code == LIBSSH2_FX_NO_SPACE_ON_FILESYSTEM {
        "no space on filesystem"@
    } else if code == LIBSSH2_FX_QUOTA_EXCEEDED {
        "quota exceeded"@
    } else if code == LIBSSH2_FX_UNKNOWN_PRINCIPAL {
        "unknown principal"@
    } else if code == LIBSSH2_FX_LOCK_CONFLICT {
        "lock conflict"@
    } else if code == LIBSSH2_FX_DIR_NOT_EMPTY {
        "directory not empty"@
    } else if code == LIBSSH2_FX_NOT_A_DIRECTORY {
        "not a directory"@
    } else if code == LIBSSH2_FX_INVALID_FILENAME {
        "invalid filename"@
    } else if code == LIBSSH2_FX_LINK_LOOP {
        "link loop"@
    } else {
        "unknown error"@
    }
}

impl Ssh2Error {
    /// The numeric code of the error.
    pub closed spec fn spec_code(&self) -> i32 {
        self.code
    }

    /// The message of the error.
    pub closed spec fn spec_message(&self) -> Seq<char> {
        self.msg@
    }

    /// Build an error from a code and a message.
    pub fn new(code: i32, msg: String) -> (r: Ssh2Error)
        ensures
            r.spec_code() == code,
            r.spec_message() == msg@,
    {
        Ssh2Error { code, msg }
    }

    /// The placeholder error used when the engine reports a failure but its
    /// last-error facility yields nothing.
    pub fn unknown() -> (r: Ssh2Error)
        ensures
            r.spec_code() == i32::MIN,
            r.spec_message() == "unknown error"@,
    {
        Ssh2Error { code: i32::MIN, msg: String::from_str("unknown error") }
    }

    /// Attach this layer's message to an engine code.  A code outside the
    /// table yields the placeholder error instead of echoing the code.
    pub fn from_code(code: i32) -> (r: Ssh2Error)
        ensures
            r.spec_code() == if is_known_code(code as int) { code } else { i32::MIN },
            r.spec_message() == spec_message_for(code as int),
    {
        let msg: &'static str = if code == LIBSSH2_ERROR_BANNER_RECV {
            "banner recv failure"
        } else if code == LIBSSH2_ERROR_BANNER_SEND {
            "banner send failure"
        } else if code == LIBSSH2_ERROR_INVALID_MAC {
            "invalid mac"
        } else if code == LIBSSH2_ERROR_KEX_FAILURE {
            "kex failure"
        } else if code == LIBSSH2_ERROR_ALLOC {
            "alloc failure"
        } else if code == LIBSSH2_ERROR_SOCKET_SEND {
            "socket send faiulre"
        } else if code == LIBSSH2_ERROR_KEY_EXCHANGE_FAILURE {
            "key exchange failure"
        } else if code == LIBSSH2_ERROR_TIMEOUT {
            "timed out"
        } else if code == LIBSSH2_ERROR_HOSTKEY_INIT {
            "hostkey init error"
        } else if code == LIBSSH2_ERROR_HOSTKEY_SIGN {
            "hostkey sign error"
        } else if code == LIBSSH2_ERROR_DECRYPT {
            "decrypt error"
        } else if code == LIBSSH2_ERROR_SOCKET_DISCONNECT {
            "socket disconnected"
        } else if code == LIBSSH2_ERROR_PROTO {
            "protocol error"
        } else if code == LIBSSH2_ERROR_PASSWORD_EXPIRED {
            "password expired"
        } else if code == LIBSSH2_ERROR_FILE {
            "file error"
        } else if code == LIBSSH2_ERROR_METHOD_NONE {
            "bad method name"
        } else if code == LIBSSH2_ERROR_AUTHENTICATION_FAILED {
            "authentication failed"
        } else if code == LIBSSH2_ERROR_PUBLICKEY_UNVERIFIED {
            "public key unverified"
        } else if code == LIBSSH2_ERROR_CHANNEL_OUTOFORDER {
            "channel out of order"
        } else if code == LIBSSH2_ERROR_CHANNEL_FAILURE {
            "channel failure"
        } else if code == LIBSSH2_ERROR_CHANNEL_REQUEST_DENIED {
            "request denied"
        } else if code == LIBSSH2_ERROR_CHANNEL_UNKNOWN {
            "unknown channel error"
        } else if code == LIBSSH2_ERROR_CHANNEL_WINDOW_EXCEEDED {
            "window exceeded"
        } else if code == LIBSSH2_ERROR_CHANNEL_PACKET_EXCEEDED {
            "packet exceeded"
        } else if code == LIBSSH2_ERROR_CHANNEL_CLOSED {
            "closed channel"
        } else if code == LIBSSH2_ERROR_CHANNEL_EOF_SENT {
            "eof sent"
        } else if code == LIBSSH2_ERROR_SCP_PROTOCOL {
            "scp protocol error"
        } else if code == LIBSSH2_ERROR_ZLIB {
            "zlib error"
        } else if code == LIBSSH2_ERROR_SOCKET_TIMEOUT {
            "socket timeout"
        } else if code == LIBSSH2_ERROR_SFTP_PROTOCOL {
            "sftp protocol error"
        } else if code == LIBSSH2_ERROR_REQUEST_DENIED {
            "request denied"
        } else if code == LIBSSH2_ERROR_METHOD_NOT_SUPPORTED {
            "method not supported"
        } else if code == LIBSSH2_ERROR_INVAL {
            "invalid"
        } else if code == LIBSSH2_ERROR_INVALID_POLL_TYPE {
            "invalid poll type"
        } else if code == LIBSSH2_ERROR_PUBLICKEY_PROTOCOL {
            "public key protocol error"
        } else if code == LIBSSH2_ERROR_EAGAIN {
            "operation would block"
        } else if code == LIBSSH2_ERROR_BUFFER_TOO_SMALL {
            "buffer too small"
        } else if code == LIBSSH2_ERROR_BAD_USE {
            "bad use error"
        } else if code == LIBSSH2_ERROR_COMPRESS {
            "compression error"
        } else if code == LIBSSH2_ERROR_OUT_OF_BOUNDARY {
            "out of bounds"
        } else if code == LIBSSH2_ERROR_AGENT_PROTOCOL {
            "invalid agent protocol"
        } else if code == LIBSSH2_ERROR_SOCKET_RECV {
            "error receiving on socket"
        } else if code == LIBSSH2_ERROR_ENCRYPT {
            "bad encrypt"
        } else if code == LIBSSH2_ERROR_BAD_SOCKET {
            "bad socket"
        } else if code == LIBSSH2_ERROR_KNOWN_HOSTS {
            "known hosts error"
        } else if code == LIBSSH2_FX_EOF {
            "end of file"
        } else if code == LIBSSH2_FX_NO_SUCH_FILE {
            "no such file"
        } else if code == LIBSSH2_FX_PERMISSION_DENIED {
            "permission denied"
        } else if code == LIBSSH2_FX_FAILURE {
            "failure"
        } else if code == LIBSSH2_FX_BAD_MESSAGE {
            "bad message"
        } else if code == LIBSSH2_FX_NO_CONNECTION {
            "no connection"
        } else if code == LIBSSH2_FX_CONNECTION_LOST {
            "connection lost"
        } else if code == LIBSSH2_FX_OP_UNSUPPORTED {
            "operation unsupported"
        } else if code == LIBSSH2_FX_INVALID_HANDLE {
            "invalid handle"
        } else if code == LIBSSH2_FX_NO_SUCH_PATH {
            "no such path"
        } else if code == LIBSSH2_FX_FILE_ALREADY_EXISTS {
            "file already exists"
        } else if code == LIBSSH2_FX_WRITE_PROTECT {
            "file is write protected"
        } else if code == LIBSSH2_FX_NO_MEDIA {
            "no media available"
        } else if code == LIBSSH2_FX_NO_SPACE_ON_FILESYSTEM {
            "no space on filesystem"
        } else if code == LIBSSH2_FX_QUOTA_EXCEEDED {
            "quota exceeded"
        } else if code == LIBSSH2_FX_UNKNOWN_PRINCIPAL {
            "unknown principal"
        } else if code == LIBSSH2_FX_LOCK_CONFLICT {
            "lock conflict"
        } else if code == LIBSSH2_FX_DIR_NOT_EMPTY {
            "directory not empty"
        } else if code == LIBSSH2_FX_NOT_A_DIRECTORY {
            "not a directory"
        } else if code == LIBSSH2_FX_INVALID_FILENAME {
            "invalid filename"
        } else if code == LIBSSH2_FX_LINK_LOOP {
            "link loop"
        } else {
            return Ssh2Error::unknown();
        };
        Ssh2Error { code, msg: String::from_str(msg) }
    }

    /// The numeric code of the error.
    pub fn code(&self) -> (r: i32)
        ensures
            r == self.spec_code(),
    {
        self.code
    }

    /// The message of the error.
    pub fn message(&self) -> (r: &str)
        ensures
            r@ == self.spec_message(),
    {
        self.msg.as_str()
    }
}

/// An error surfaced by any operation of this layer: a transport I/O
/// failure, or a structured engine error.
#[derive(Debug)]
pub enum Error {
    /// A socket-level failure; propagated immediately, never retried.
    Io(std::io::Error),
    /// A structured code and message from the engine's last-error facility.
    Ssh2(Ssh2Error),
}

/// Relies on std::io::Error as an opaque value: the transport failure
/// payload is carried through this layer unread.
#[verifier::external_type_specification]
#[verifier::external_body]
pub struct ExIoError(std::io::Error);

impl From<Ssh2Error> for Error {
    fn from(err: Ssh2Error) -> (r: Error)
        ensures
            r == Error::Ssh2(err),
    {
        Error::Ssh2(err)
    }
}

impl vstd::std_specs::convert::FromSpecImpl<Ssh2Error> for Error {
    open spec fn obeys_from_spec() -> bool {
        true
    }

    open spec fn from_spec(t: Ssh2Error) -> Error {
        Error::Ssh2(t)
    }
}

impl From<std::io::Error> for Error {
    fn from(err: std::io::Error) -> (r: Error)
        ensures
            r == Error::Io(err),
    {
        Error::Io(err)
    }
}

impl vstd::std_specs::convert::FromSpecImpl<std::io::Error> for Error {
    open spec fn obeys_from_spec() -> bool {
        true
    }

    open spec fn from_spec(t: std::io::Error) -> Error {
        Error::Io(t)
    }
}

/// Relies on std::io::Error::new to build the invalid-input transport error
/// this layer attaches to inputs it rejects before reaching the engine.
#[verifier::external_body]
pub(crate) fn invalid_input_error(msg: &'static str) -> std::io::Error {
    std::io::Error::new(std::io::ErrorKind::InvalidInput, msg)
}

} // verus!
