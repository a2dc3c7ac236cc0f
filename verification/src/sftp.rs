//! The file-transfer subsystem: a secondary subprotocol opened over the
//! session, with stat/open/readdir-style operations and file and
//! directory handles, each call driven through the readiness adapter.

use vstd::prelude::*;

use crate::engine::Outcome;
use crate::engine::ScriptedEngine;
use crate::engine::has_settle;
use crate::engine::settle_pos;
use crate::error::Error;
use crate::session::CallResult;
use crate::session::Session;
use crate::session::abort_error_for;
use crate::session::call_resolution;
use crate::session::consumed_call;
use crate::session::ok_value_from;

verus! {

/// Validity bit of the size field in a raw attribute record.
pub const LIBSSH2_SFTP_ATTR_SIZE: u64 = 0x1;

/// Validity bit of the uid/gid fields in a raw attribute record.
pub const LIBSSH2_SFTP_ATTR_UIDGID: u64 = 0x2;

/// Validity bit of the permission field in a raw attribute record.
pub const LIBSSH2_SFTP_ATTR_PERMISSIONS: u64 = 0x4;

/// Validity bit of the time fields in a raw attribute record.
pub const LIBSSH2_SFTP_ATTR_ACMODTIME: u64 = 0x8;

/// Open flag: read access.
pub const LIBSSH2_FXF_READ: u64 = 0x1;

/// Open flag: write access.
pub const LIBSSH2_FXF_WRITE: u64 = 0x2;

/// Open flag: append mode.
pub const LIBSSH2_FXF_APPEND: u64 = 0x4;

/// Open flag: create the file if it does not exist.
pub const LIBSSH2_FXF_CREAT: u64 = 0x8;

/// Open flag: truncate an existing file.
pub const LIBSSH2_FXF_TRUNC: u64 = 0x10;

/// Open flag: fail if the file already exists.
pub const LIBSSH2_FXF_EXCL: u64 = 0x20;

/// Stat-call selector: follow a terminal symbolic link.
pub const LIBSSH2_SFTP_STAT: i32 = 0;

/// Stat-call selector: never follow a terminal symbolic link.
pub const LIBSSH2_SFTP_LSTAT: i32 = 1;

/// Stat-call selector: set attributes instead of reading them.
pub const LIBSSH2_SFTP_SETSTAT: i32 = 2;

/// Open-call selector: open a file.
pub const LIBSSH2_SFTP_OPENFILE: i32 = 0;

/// Open-call selector: open a directory.
pub const LIBSSH2_SFTP_OPENDIR: i32 = 1;

/// The metadata of a remote file: an optional-field record.  Each field is
/// present only if the remote side reported it; absence is a first-class
/// value, not zero.  The engine couples uid with gid and the two times
/// under one validity bit each, so they come and go together.
#[derive(Clone, Copy, Debug, PartialEq, Eq)]
pub struct FileAttr {
    /// Permission bits, if reported.
    pub perm: Option<u64>,
    /// File size in bytes, if reported.
    pub size: Option<u64>,
    /// Owner user and group id, if reported.
    pub ids: Option<(u32, u32)>,
    /// Last access and last modification time in seconds, if reported.
    pub times: Option<(u64, u64)>,
}

/// The raw attribute record of the engine's ABI: a validity bitmask and
/// one slot per field, zero when the matching bit is clear.
#[derive(Clone, Copy, Debug, PartialEq, Eq)]
pub struct RawFileAttr {
    /// Which slots are valid, as the four validity bits.
    pub flags: u64,
    /// File size in bytes.
    pub filesize: u64,
    /// Owner user id.
    pub uid: u64,
    /// Owner group id.
    pub gid: u64,
    /// Permission bits.
    pub permissions: u64,
    /// Last access time in seconds.
    pub atime: u64,
    /// Last modification time in seconds.
    pub mtime: u64,
}

/// The raw record an attribute record encodes to: one validity bit per
/// present field, absent fields left zero.
pub open spec fn spec_to_raw(a: FileAttr) -> RawFileAttr {
    RawFileAttr {
        flags: ((match a.size {
            Some(_) => LIBSSH2_SFTP_ATTR_SIZE,
            None => 0,
        }) + (match a.ids {
            Some(_) => LIBSSH2_SFTP_ATTR_UIDGID,
            None => 0,
        }) + (match a.perm {
            Some(_) => LIBSSH2_SFTP_ATTR_PERMISSIONS,
            None => 0,
        }) + (match a.times {
            Some(_) => LIBSSH2_SFTP_ATTR_ACMODTIME,
            None => 0,
        })) as u64,
        filesize: match a.size {
            Some(n) => n,
            None => 0,
        },
        uid: match a.ids {
            Some(p) => p.0 as u64,
            None => 0,
        },
        gid: match a.ids {
            Some(p) => p.1 as u64,
            None => 0,
        },
        permissions: match a.perm {
            Some(n) => n,
            None => 0,
        },
        atime: match a.times {
            Some(p) => p.0,
            None => 0,
        },
        mtime: match a.times {
            Some(p) => p.1,
            None => 0,
        },
    }
}

/// The attribute record a raw engine record decodes to: a field is read
/// only where its validity bit is set.
pub open spec fn spec_from_raw(raw: RawFileAttr) -> FileAttr {
    FileAttr {
        perm: if raw.flags & LIBSSH2_SFTP_ATTR_PERMISSIONS != 0 {
            Some(raw.permissions)
        } else {
            None
        },
        size: if raw.flags & LIBSSH2_SFTP_ATTR_SIZE != 0 {
            Some(raw.filesize)
        } else {
            None
        },
        ids: if raw.flags & LIBSSH2_SFTP_ATTR_UIDGID != 0 {
            Some((raw.uid as u32, raw.gid as u32))
        } else {
            None
        },
        times: if raw.flags & LIBSSH2_SFTP_ATTR_ACMODTIME != 0 {
            Some((raw.atime, raw.mtime))
        } else {
            None
        },
    }
}

/// Attribute round trip: every field present in an attribute record
/// survives the raw engine encoding unchanged, and every absent field
/// stays absent — never zero — when the record is decoded back.
pub proof fn lemma_attr_raw_roundtrip(a: FileAttr)
    ensures
        spec_from_raw(spec_to_raw(a)) == a,
{
    let s: u64 = match a.size {
        Some(_) => LIBSSH2_SFTP_ATTR_SIZE,
        None => 0,
    };
    let u: u64 = match a.ids {
        Some(_) => LIBSSH2_SFTP_ATTR_UIDGID,
        None => 0,
    };
    let p: u64 = match a.perm {
        Some(_) => LIBSSH2_SFTP_ATTR_PERMISSIONS,
        None => 0,
    };
    let t: u64 = match a.times {
        Some(_) => LIBSSH2_SFTP_ATTR_ACMODTIME,
        None => 0,
    };
    let f = spec_to_raw(a).flags;
    assert(f & 0x1 == s && f & 0x2 == u && f & 0x4 == p && f & 0x8 == t) by (bit_vector)
        requires
            f == s + u + p + t,
            s == 0 || s == 0x1,
            u == 0 || u == 0x2,
            p == 0 || p == 0x4,
            t == 0 || t == 0x8,
    ;
}

impl FileAttr {
    /// Return the permission flags of the file, if specified.
    pub fn permissions(&self) -> (r: Option<u64>)
        ensures
            r == self.perm,
    {
        self.perm
    }

    /// Return the file size of the file in bytes, if specified.
    pub fn filesize(&self) -> (r: Option<u64>)
        ensures
            r == self.size,
    {
        self.size
    }

    /// Return the user ID of the file owner, if specified.
    pub fn uid(&self) -> (r: Option<u32>)
        ensures
            r == match self.ids {
                Some(p) => Some(p.0),
                None => None::<u32>,
            },
    {
        match self.ids {
            Some(p) => Some(p.0),
            None => None,
        }
    }

    /// Return the group ID of the file owner, if specified.
    pub fn gid(&self) -> (r: Option<u32>)
        ensures
            r == match self.ids {
                Some(p) => Some(p.1),
                None => None::<u32>,
            },
    {
        match self.ids {
            Some(p) => Some(p.1),
            None => None,
        }
    }

    /// Return the last access time of the file in seconds, if specified.
    pub fn atime(&self) -> (r: Option<u64>)
        ensures
            r == match self.times {
                Some(p) => Some(p.0),
                None => None::<u64>,
            },
    {
        match self.times {
            Some(p) => Some(p.0),
            None => None,
        }
    }

    /// Return the last modified time of the file in seconds, if specified.
    pub fn mtime(&self) -> (r: Option<u64>)
        ensures
            r == match self.times {
                Some(p) => Some(p.1),
                None => None::<u64>,
            },
    {
        match self.times {
            Some(p) => Some(p.1),
            None => None,
        }
    }

    /// Encode this record as the engine's raw attribute record.
    pub fn to_raw(&self) -> (r: RawFileAttr)
        ensures
            r == spec_to_raw(*self),
    {
        let flags: u64 = (match self.size {
            Some(_) => LIBSSH2_SFTP_ATTR_SIZE,
            None => 0,
        }) + (match self.ids {
            Some(_) => LIBSSH2_SFTP_ATTR_UIDGID,
            None => 0,
        }) + (match self.perm {
            Some(_) => LIBSSH2_SFTP_ATTR_PERMISSIONS,
            None => 0,
        }) + (match self.times {
            Some(_) => LIBSSH2_SFTP_ATTR_ACMODTIME,
            None => 0,
        });
        RawFileAttr {
            flags,
            filesize: match self.size {
                Some(n) => n,
                None => 0,
            },
            uid: match self.ids {
                Some(p) => p.0 as u64,
                None => 0,
            },
            gid: match self.ids {
                Some(p) => p.1 as u64,
                None => 0,
            },
            permissions: match self.perm {
                Some(n) => n,
                None => 0,
            },
            atime: match self.times {
                Some(p) => p.0,
                None => 0,
            },
            mtime: match self.times {
                Some(p) => p.1,
                None => 0,
            },
        }
    }

    /// Decode the engine's raw attribute record.
    pub fn from_raw(raw: RawFileAttr) -> (r: FileAttr)
        ensures
            r == spec_from_raw(raw),
    {
        FileAttr {
            perm: if raw.flags & LIBSSH2_SFTP_ATTR_PERMISSIONS != 0 {
                Some(raw.permissions)
            } else {
                None
            },
            size: if raw.flags & LIBSSH2_SFTP_ATTR_SIZE != 0 {
                Some(raw.filesize)
            } else {
                None
            },
            ids: if raw.flags & LIBSSH2_SFTP_ATTR_UIDGID != 0 {
                Some((raw.uid as u32, raw.gid as u32))
            } else {
                None
            },
            times: if raw.flags & LIBSSH2_SFTP_ATTR_ACMODTIME != 0 {
                Some((raw.atime, raw.mtime))
            } else {
                None
            },
        }
    }
}

/// One entry of a directory enumeration: a name and its attributes.
pub struct DirEntry {
    path: Vec<u8>,
    attr: FileAttr,
}

impl DirEntry {
    /// The entry's name as the engine delivered it.
    pub closed spec fn spec_path(&self) -> Seq<u8> {
        self.path@
    }

    /// The entry's attribute record.
    pub closed spec fn spec_attr(&self) -> FileAttr {
        self.attr
    }

    /// The entry's name as the engine delivered it.
    pub fn path(&self) -> (r: &Vec<u8>)
        ensures
            r@ == self.spec_path(),
    {
        &self.path
    }

    /// The entry's attribute record.
    pub fn attr(&self) -> (r: &FileAttr)
        ensures
            *r == self.spec_attr(),
    {
        &self.attr
    }
}

/// What the engine delivers for one successful directory read: the next
/// entry's name and attributes.  A zero-length name signals the end of the
/// enumeration.
pub struct DirData {
    /// The entry's name; empty means the enumeration is over.
    pub name: Vec<u8>,
    /// The entry's attribute record.
    pub attr: FileAttr,
}

/// The flag set {read, write, append, create, truncate, exclusive} and
/// numeric creation mode an open call hands to the engine.  Opening with
/// no flag set is invalid input, but judging that belongs to the engine,
/// not to this layer.
#[derive(Clone, Copy, Debug, PartialEq, Eq)]
pub struct OpenOptions {
    /// Open for reading.
    pub read: bool,
    /// Open for writing.
    pub write: bool,
    /// Append to the file instead of overwriting.
    pub append: bool,
    /// Create the file if it does not exist.
    pub create: bool,
    /// Truncate an existing file.
    pub truncate: bool,
    /// Fail if the file already exists.
    pub exclusive: bool,
    /// The creation mode bits for a created file.
    pub mode: i64,
}

/// The engine's open-flags bitmask for a flag set.
pub open spec fn spec_raw_flags(o: OpenOptions) -> u64 {
    ((if o.read {
        LIBSSH2_FXF_READ
    } else {
        0
    }) + (if o.write {
        LIBSSH2_FXF_WRITE
    } else {
        0
    }) + (if o.append {
        LIBSSH2_FXF_APPEND
    } else {
        0
    }) + (if o.create {
        LIBSSH2_FXF_CREAT
    } else {
        0
    }) + (if o.truncate {
        LIBSSH2_FXF_TRUNC
    } else {
        0
    }) + (if o.exclusive {
        LIBSSH2_FXF_EXCL
    } else {
        0
    })) as u64
}

impl OpenOptions {
    /// A flag set with nothing enabled and mode zero.
    pub fn new() -> (r: OpenOptions)
        ensures
            r == (OpenOptions {
                read: false,
                write: false,
                append: false,
                create: false,
                truncate: false,
                exclusive: false,
                mode: 0,
            }),
    {
        OpenOptions {
            read: false,
            write: false,
            append: false,
            create: false,
            truncate: false,
            exclusive: false,
            mode: 0,
        }
    }

    /// Enable or disable read access.
    pub fn read(&mut self, enabled: bool) -> (r: &mut OpenOptions)
        ensures
            *r == (OpenOptions { read: enabled, ..*old(self) }),
            *final(self) == *final(r),
    {
        self.read = enabled;
        self
    }

    /// Enable or disable write access.
    pub fn write(&mut self, enabled: bool) -> (r: &mut OpenOptions)
        ensures
            *r == (OpenOptions { write: enabled, ..*old(self) }),
            *final(self) == *final(r),
    {
        self.write = enabled;
        self
    }

    /// Enable or disable append mode.
    pub fn append(&mut self, enabled: bool) -> (r: &mut OpenOptions)
        ensures
            *r == (OpenOptions { append: enabled, ..*old(self) }),
            *final(self) == *final(r),
    {
        self.append = enabled;
        self
    }

    /// Enable or disable creating the file if missing.
    pub fn create(&mut self, enabled: bool) -> (r: &mut OpenOptions)
        ensures
            *r == (OpenOptions { create: enabled, ..*old(self) }),
            *final(self) == *final(r),
    {
        self.create = enabled;
        self
    }

    /// Enable or disable truncating an existing file.
    pub fn truncate(&mut self, enabled: bool) -> (r: &mut OpenOptions)
        ensures
            *r == (OpenOptions { truncate: enabled, ..*old(self) }),
            *final(self) == *final(r),
    {
        self.truncate = enabled;
        self
    }

    /// Enable or disable failing on an existing file.
    pub fn exclusive(&mut self, enabled: bool) -> (r: &mut OpenOptions)
        ensures
            *r == (OpenOptions { exclusive: enabled, ..*old(self) }),
            *final(self) == *final(r),
    {
        self.exclusive = enabled;
        self
    }

    /// Set the creation mode bits for a created file.
    pub fn mode(&mut self, mode: i32) -> (r: &mut OpenOptions)
        ensures
            *r == (OpenOptions { mode: mode as i64, ..*old(self) }),
            *final(self) == *final(r),
    {
        self.mode = mode as i64;
        self
    }

    /// Encode the flag set as the engine's open-flags bitmask.
    pub fn to_raw_flags(&self) -> (r: u64)
        ensures
            r == spec_raw_flags(*self),
    {
        (if self.read {
            LIBSSH2_FXF_READ
        } else {
            0
        }) + (if self.write {
            LIBSSH2_FXF_WRITE
        } else {
            0
        }) + (if self.append {
            LIBSSH2_FXF_APPEND
        } else {
            0
        }) + (if self.create {
            LIBSSH2_FXF_CREAT
        } else {
            0
        }) + (if self.truncate {
            LIBSSH2_FXF_TRUNC
        } else {
            0
        }) + (if self.exclusive {
            LIBSSH2_FXF_EXCL
        } else {
            0
        })
    }

    /// Open the file at `path` with this flag set.
    pub fn open(
        &self,
        path: &[u8],
        sftp: &mut Sftp,
        sess: &mut Session,
        eng: &mut ScriptedEngine<()>,
    ) -> (r: Result<File, Error>)
        ensures
            consumed_call(old(eng)@, final(eng)@),
            call_resolution(old(eng)@, r),
            final(sess).pending_dirs() is None,
            final(sess).spec_phase() == old(sess).spec_phase(),
            final(sess).spec_banner() == old(sess).spec_banner(),
            r matches Ok(f) ==> f.spec_options() == *self,
    {
        let (res, _) = sess.run_call(eng);
        match res {
            CallResult::Complete(_) => Ok(File { options: *self }),
            CallResult::Abort(e) => Err(Error::Ssh2(e)),
        }
    }
}

/// A handle to a remote filesystem over the file-transfer subprotocol.
pub struct Sftp {}

impl Sftp {
    pub(crate) fn new() -> (r: Sftp) {
        Sftp {  }
    }

    /// Acquire the metadata for a file, following a terminal symbolic
    /// link.
    pub fn stat(
        &mut self,
        sess: &mut Session,
        eng: &mut ScriptedEngine<FileAttr>,
        path: &[u8],
    ) -> (r: Result<FileAttr, Error>)
        ensures
            consumed_call(old(eng)@, final(eng)@),
            call_resolution(old(eng)@, r),
            final(sess).pending_dirs() is None,
            final(sess).spec_phase() == old(sess).spec_phase(),
            final(sess).spec_banner() == old(sess).spec_banner(),
            r matches Ok(a) ==> ok_value_from(old(eng)@, a),
    {
        let (res, _) = sess.run_call(eng);
        res.into_result()
    }

    /// Acquire the metadata for a file, never following a terminal
    /// symbolic link.
    pub fn lstat(
        &mut self,
        sess: &mut Session,
        eng: &mut ScriptedEngine<FileAttr>,
        path: &[u8],
    ) -> (r: Result<FileAttr, Error>)
        ensures
            consumed_call(old(eng)@, final(eng)@),
            call_resolution(old(eng)@, r),
            final(sess).pending_dirs() is None,
            final(sess).spec_phase() == old(sess).spec_phase(),
            final(sess).spec_banner() == old(sess).spec_banner(),
            r matches Ok(a) ==> ok_value_from(old(eng)@, a),
    {
        let (res, _) = sess.run_call(eng);
        res.into_result()
    }

    /// Set the metadata for a file.
    pub fn setstat(
        &mut self,
        sess: &mut Session,
        eng: &mut ScriptedEngine<()>,
        path: &[u8],
        attrs: FileAttr,
    ) -> (r: Result<(), Error>)
        ensures
            consumed_call(old(eng)@, final(eng)@),
            call_resolution(old(eng)@, r),
            final(sess).pending_dirs() is None,
            final(sess).spec_phase() == old(sess).spec_phase(),
            final(sess).spec_banner() == old(sess).spec_banner(),
    {
        let (res, _) = sess.run_call(eng);
        res.into_result()
    }

    /// Open the file at `path` for reading.
    pub fn open(
        &mut self,
        sess: &mut Session,
        eng: &mut ScriptedEngine<()>,
        path: &[u8],
    ) -> (r: Result<File, Error>)
        ensures
            consumed_call(old(eng)@, final(eng)@),
            call_resolution(old(eng)@, r),
            final(sess).pending_dirs() is None,
            final(sess).spec_phase() == old(sess).spec_phase(),
            final(sess).spec_banner() == old(sess).spec_banner(),
            r matches Ok(f) ==> f.spec_options() == (OpenOptions {
                read: true,
                write: false,
                append: false,
                create: false,
                truncate: false,
                exclusive: false,
                mode: 0,
            }),
    {
        let mut options = OpenOptions::new();
        options.read(true);
        options.open(path, self, sess, eng)
    }

    /// Open the directory at `path` for enumeration.
    pub fn opendir(
        &mut self,
        sess: &mut Session,
        eng: &mut ScriptedEngine<()>,
        path: &[u8],
    ) -> (r: Result<Dir, Error>)
        ensures
            consumed_call(old(eng)@, final(eng)@),
            call_resolution(old(eng)@, r),
            final(sess).pending_dirs() is None,
            final(sess).spec_phase() == old(sess).spec_phase(),
            final(sess).spec_banner() == old(sess).spec_banner(),
    {
        let (res, _) = sess.run_call(eng);
        match res {
            CallResult::Complete(_) => Ok(Dir {  }),
            CallResult::Abort(e) => Err(Error::Ssh2(e)),
        }
    }
}

/// An open remote file within the file-transfer subsystem.
pub struct File {
    options: OpenOptions,
}

impl File {
    /// The flag set the file was opened with.
    pub closed spec fn spec_options(&self) -> OpenOptions {
        self.options
    }

    /// The flag set the file was opened with.
    pub fn options(&self) -> (r: OpenOptions)
        ensures
            r == self.spec_options(),
    {
        self.options
    }

    /// Acquire the metadata of this open file; no path resolution is
    /// involved.
    pub fn stat(&mut self, sess: &mut Session, eng: &mut ScriptedEngine<FileAttr>) -> (r: Result<
        FileAttr,
        Error,
    >)
        ensures
            consumed_call(old(eng)@, final(eng)@),
            call_resolution(old(eng)@, r),
            final(sess).pending_dirs() is None,
            final(sess).spec_phase() == old(sess).spec_phase(),
            final(sess).spec_banner() == old(sess).spec_banner(),
            *final(self) == *old(self),
            r matches Ok(a) ==> ok_value_from(old(eng)@, a),
    {
        let (res, _) = sess.run_call(eng);
        res.into_result()
    }

    /// Set the metadata of this open file.
    pub fn setstat(
        &mut self,
        sess: &mut Session,
        eng: &mut ScriptedEngine<()>,
        attrs: FileAttr,
    ) -> (r: Result<(), Error>)
        ensures
            consumed_call(old(eng)@, final(eng)@),
            call_resolution(old(eng)@, r),
            final(sess).pending_dirs() is None,
            final(sess).spec_phase() == old(sess).spec_phase(),
            final(sess).spec_banner() == old(sess).spec_banner(),
            *final(self) == *old(self),
    {
        let (res, _) = sess.run_call(eng);
        res.into_result()
    }

    /// Read at most `max_len` bytes at the file's position.  A single call
    /// may deliver fewer bytes than requested; an empty delivery signals
    /// the end of the file.
    pub fn read(
        &mut self,
        sess: &mut Session,
        eng: &mut ScriptedEngine<Vec<u8>>,
        max_len: usize,
    ) -> (r: Result<Vec<u8>, Error>)
        requires
            forall|i: int|
                0 <= i < old(eng)@.len() ==> (#[trigger] old(eng)@[i] matches Outcome::Success(b)
                    ==> b@.len() <= max_len),
        ensures
            consumed_call(old(eng)@, final(eng)@),
            call_resolution(old(eng)@, r),
            final(sess).pending_dirs() is None,
            final(sess).spec_phase() == old(sess).spec_phase(),
            final(sess).spec_banner() == old(sess).spec_banner(),
            *final(self) == *old(self),
            r matches Ok(b) ==> ok_value_from(old(eng)@, b) && b@.len() <= max_len,
    {
        let ghost s0 = eng@;
        let (res, _) = sess.run_call(eng);
        proof {
            if has_settle(s0) {
                crate::engine::lemma_settle_pos(s0);
            }
        }
        res.into_result()
    }

    /// Write bytes at the file's position.  A single call may consume
    /// fewer bytes than offered; the count actually taken is returned.
    pub fn write(
        &mut self,
        sess: &mut Session,
        eng: &mut ScriptedEngine<usize>,
        data: &[u8],
    ) -> (r: Result<usize, Error>)
        requires
            forall|i: int|
                0 <= i < old(eng)@.len() ==> (#[trigger] old(eng)@[i] matches Outcome::Success(n)
                    ==> n <= data@.len()),
        ensures
            consumed_call(old(eng)@, final(eng)@),
            call_resolution(old(eng)@, r),
            final(sess).pending_dirs() is None,
            final(sess).spec_phase() == old(sess).spec_phase(),
            final(sess).spec_banner() == old(sess).spec_banner(),
            *final(self) == *old(self),
            r matches Ok(n) ==> ok_value_from(old(eng)@, n) && n <= data@.len(),
    {
        let ghost s0 = eng@;
        let (res, _) = sess.run_call(eng);
        proof {
            if has_settle(s0) {
                crate::engine::lemma_settle_pos(s0);
            }
        }
        res.into_result()
    }

    /// Synchronize the file's data and metadata to disk on the remote
    /// server.
    pub fn fsync(&mut self, sess: &mut Session, eng: &mut ScriptedEngine<()>) -> (r: Result<
        (),
        Error,
    >)
        ensures
            consumed_call(old(eng)@, final(eng)@),
            call_resolution(old(eng)@, r),
            final(sess).pending_dirs() is None,
            final(sess).spec_phase() == old(sess).spec_phase(),
            final(sess).spec_banner() == old(sess).spec_banner(),
            *final(self) == *old(self),
    {
        let (res, _) = sess.run_call(eng);
        res.into_result()
    }
}

/// An open remote directory within the file-transfer subsystem.
pub struct Dir {}

impl Dir {
    /// Acquire the metadata of this open directory.
    pub fn stat(&mut self, sess: &mut Session, eng: &mut ScriptedEngine<FileAttr>) -> (r: Result<
        FileAttr,
        Error,
    >)
        ensures
            consumed_call(old(eng)@, final(eng)@),
            call_resolution(old(eng)@, r),
            final(sess).pending_dirs() is None,
            final(sess).spec_phase() == old(sess).spec_phase(),
            final(sess).spec_banner() == old(sess).spec_banner(),
            r matches Ok(a) ==> ok_value_from(old(eng)@, a),
    {
        let (res, _) = sess.run_call(eng);
        res.into_result()
    }

    /// Set the metadata of this open directory.
    pub fn setstat(
        &mut self,
        sess: &mut Session,
        eng: &mut ScriptedEngine<()>,
        attrs: FileAttr,
    ) -> (r: Result<(), Error>)
        ensures
            consumed_call(old(eng)@, final(eng)@),
            call_resolution(old(eng)@, r),
            final(sess).pending_dirs() is None,
            final(sess).spec_phase() == old(sess).spec_phase(),
            final(sess).spec_banner() == old(sess).spec_banner(),
    {
        let (res, _) = sess.run_call(eng);
        res.into_result()
    }

    /// Read the next entry of the directory, if any.  `None` signals the
    /// end of the enumeration: the engine delivered a zero-length name.
    /// The sequence is not restartable; enumerating again requires
    /// reopening the directory.
    pub fn readdir(&mut self, sess: &mut Session, eng: &mut ScriptedEngine<DirData>) -> (r: Option<
        Result<DirEntry, Error>,
    >)
        ensures
            consumed_call(old(eng)@, final(eng)@),
            final(sess).pending_dirs() is None,
            final(sess).spec_phase() == old(sess).spec_phase(),
            final(sess).spec_banner() == old(sess).spec_banner(),
            ({
                let s = old(eng)@;
                if has_settle(s) {
                    match s[settle_pos(s)] {
                        Outcome::Success(d) => if d.name@.len() == 0 {
                            r is None
                        } else {
                            r matches Some(Result::Ok(e)) && e.spec_path() == d.name@
                                && e.spec_attr() == d.attr
                        },
                        Outcome::Failure(f) => r matches Some(Result::Err(Error::Ssh2(e))) && e
                            == f,
                        Outcome::WouldBlock(d) => r matches Some(Result::Err(Error::Ssh2(e)))
                            && abort_error_for(s[settle_pos(s)], e),
                    }
                } else {
                    r matches Some(Result::Err(Error::Ssh2(e))) && e.spec_code() == i32::MIN
                        && e.spec_message() == "unknown error"@
                }
            }),
    {
        let (res, _) = sess.run_call(eng);
        match res {
            CallResult::Complete(d) => {
                if d.name.len() == 0 {
                    None
                } else {
                    Some(Ok(DirEntry { path: d.name, attr: d.attr }))
                }
            },
            CallResult::Abort(e) => Some(Err(Error::Ssh2(e))),
        }
    }
}

} // verus!
