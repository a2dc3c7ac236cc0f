//! The file-transfer subsystem: attribute records and their raw encoding,
//! open flags, file transfer, and directory enumeration.

use tokio_libssh2::sftp::{DirData, FileAttr, OpenOptions, RawFileAttr, Sftp};
use tokio_libssh2::{Directions, Error, Outcome, ScriptedEngine, Session, Ssh2Error};

fn sftp_session() -> (Session, Sftp) {
    let mut sess = Session::new();
    let mut eng = ScriptedEngine::new(vec![Outcome::Success(())]);
    sess.handshake(&mut eng).unwrap();
    let mut eng = ScriptedEngine::new(vec![Outcome::Success(())]);
    let sftp = sess.sftp(&mut eng).unwrap();
    (sess, sftp)
}

#[test]
fn attr_raw_encoding_round_trips() {
    let attrs = FileAttr {
        perm: Some(0o644),
        size: None,
        ids: Some((1000, 1000)),
        times: None,
    };
    let raw = attrs.to_raw();
    assert_eq!(raw.flags, 0x2 + 0x4);
    assert_eq!(raw.filesize, 0);
    assert_eq!(raw.uid, 1000);
    assert_eq!(raw.gid, 1000);
    assert_eq!(raw.permissions, 0o644);

    let back = FileAttr::from_raw(raw);
    assert_eq!(back, attrs);
    // Fields never set stay absent, not zero.
    assert_eq!(back.filesize(), None);
    assert_eq!(back.atime(), None);
    assert_eq!(back.mtime(), None);
}

#[test]
fn attr_raw_decoding_reads_only_valid_slots() {
    let raw = RawFileAttr {
        flags: 0x1 + 0x8,
        filesize: 4096,
        uid: 7,
        gid: 8,
        permissions: 0o777,
        atime: 100,
        mtime: 200,
    };
    let attrs = FileAttr::from_raw(raw);
    assert_eq!(attrs.filesize(), Some(4096));
    assert_eq!(attrs.atime(), Some(100));
    assert_eq!(attrs.mtime(), Some(200));
    // The uid/gid and permission slots carry values, but their validity
    // bits are clear: the fields stay absent.
    assert_eq!(attrs.uid(), None);
    assert_eq!(attrs.gid(), None);
    assert_eq!(attrs.permissions(), None);
}

#[test]
fn attr_getters_split_the_coupled_fields() {
    let attrs = FileAttr {
        perm: None,
        size: Some(10),
        ids: Some((42, 43)),
        times: Some((1000, 2000)),
    };
    assert_eq!(attrs.uid(), Some(42));
    assert_eq!(attrs.gid(), Some(43));
    assert_eq!(attrs.atime(), Some(1000));
    assert_eq!(attrs.mtime(), Some(2000));
    assert_eq!(attrs.filesize(), Some(10));
    assert_eq!(attrs.permissions(), None);
}

#[test]
fn setstat_then_stat_round_trips_the_attributes() {
    let (mut sess, mut sftp) = sftp_session();
    let attrs = FileAttr {
        perm: Some(0o600),
        size: None,
        ids: None,
        times: Some((11, 22)),
    };

    let mut eng = ScriptedEngine::new(vec![Outcome::Success(())]);
    sftp.setstat(&mut sess, &mut eng, b"/etc/motd", attrs).unwrap();

    // The mock remote side reports back exactly what was set.
    let mut eng = ScriptedEngine::new(vec![Outcome::Success(attrs)]);
    let got = sftp.stat(&mut sess, &mut eng, b"/etc/motd").unwrap();
    assert_eq!(got, attrs);
    assert_eq!(got.permissions(), Some(0o600));
    assert_eq!(got.atime(), Some(11));
    assert_eq!(got.mtime(), Some(22));
    // A field that was never requested stays absent.
    assert_eq!(got.filesize(), None);
    assert_eq!(got.uid(), None);

    let mut eng = ScriptedEngine::new(vec![Outcome::Success(attrs)]);
    let got = sftp.lstat(&mut sess, &mut eng, b"/etc/motd").unwrap();
    assert_eq!(got, attrs);
}

#[test]
fn open_options_encode_the_flag_bits() {
    let mut o = OpenOptions::new();
    assert_eq!(o.to_raw_flags(), 0);
    o.read(true).write(true).create(true).truncate(true).mode(0o644);
    assert_eq!(o.to_raw_flags(), 0x1 + 0x2 + 0x8 + 0x10);
    assert_eq!(o.mode, 0o644);
    o.write(false);
    assert_eq!(o.to_raw_flags(), 0x1 + 0x8 + 0x10);
    o.append(true).exclusive(true);
    assert_eq!(o.to_raw_flags(), 0x1 + 0x4 + 0x8 + 0x10 + 0x20);
}

#[test]
fn open_records_the_flag_set() {
    let (mut sess, mut sftp) = sftp_session();
    let mut o = OpenOptions::new();
    o.read(true).write(true).mode(0o600);
    let mut eng = ScriptedEngine::new(vec![Outcome::Success(())]);
    let file = o.open(b"/data/log", &mut sftp, &mut sess, &mut eng).unwrap();
    let opts = file.options();
    assert!(opts.read && opts.write);
    assert!(!opts.create && !opts.append && !opts.truncate && !opts.exclusive);
    assert_eq!(opts.mode, 0o600);
}

#[test]
fn sftp_open_defaults_to_read_only() {
    let (mut sess, mut sftp) = sftp_session();
    let mut eng = ScriptedEngine::new(vec![Outcome::Success(())]);
    let file = sftp.open(&mut sess, &mut eng, b"/etc/motd").unwrap();
    let opts = file.options();
    assert!(opts.read);
    assert!(!opts.write && !opts.create);
    assert_eq!(opts.mode, 0);
}

#[test]
fn open_without_create_on_missing_path_fails_without_retry() {
    let (mut sess, mut sftp) = sftp_session();
    let mut o = OpenOptions::new();
    o.read(true);
    // One failing answer, then an answer that must never be reached.
    let script: Vec<Outcome<()>> = vec![
        Outcome::Failure(Ssh2Error::from_code(2)),
        Outcome::Success(()),
    ];
    let mut eng = ScriptedEngine::new(script);
    match o.open(b"/no/such/file", &mut sftp, &mut sess, &mut eng) {
        Err(Error::Ssh2(e)) => {
            assert_eq!(e.code(), 2);
            assert_eq!(e.message(), "no such file");
        }
        _ => panic!("a missing path must surface the not-found engine error"),
    }
    // No retry was attempted after the hard failure.
    assert_eq!(eng.remaining(), 1);
}

#[test]
fn file_read_write_fsync_pass_through() {
    let (mut sess, mut sftp) = sftp_session();
    let mut eng = ScriptedEngine::new(vec![Outcome::Success(())]);
    let mut file = sftp.open(&mut sess, &mut eng, b"/data/blob").unwrap();

    let reads: Vec<Outcome<Vec<u8>>> = vec![
        Outcome::WouldBlock(Directions { read: true, write: false }),
        Outcome::Success(b"chunk".to_vec()),
    ];
    let mut eng = ScriptedEngine::new(reads);
    let chunk = file.read(&mut sess, &mut eng, 16).unwrap();
    assert_eq!(chunk, b"chunk".to_vec());

    let mut eng = ScriptedEngine::new(vec![Outcome::Success(4usize)]);
    let taken = file.write(&mut sess, &mut eng, b"abcdef").unwrap();
    assert_eq!(taken, 4);

    let mut eng = ScriptedEngine::new(vec![Outcome::Success(())]);
    file.fsync(&mut sess, &mut eng).unwrap();
}

#[test]
fn file_handle_stat_and_setstat_operate_on_the_open_handle() {
    let (mut sess, mut sftp) = sftp_session();
    let mut eng = ScriptedEngine::new(vec![Outcome::Success(())]);
    let mut file = sftp.open(&mut sess, &mut eng, b"/data/blob").unwrap();

    let attrs = FileAttr { perm: Some(0o400), size: Some(5), ids: None, times: None };
    let mut eng = ScriptedEngine::new(vec![Outcome::Success(attrs)]);
    let got = file.stat(&mut sess, &mut eng).unwrap();
    assert_eq!(got, attrs);

    let mut eng = ScriptedEngine::new(vec![Outcome::Success(())]);
    file.setstat(&mut sess, &mut eng, attrs).unwrap();
}

#[test]
fn directory_enumeration_yields_entries_then_end() {
    let (mut sess, mut sftp) = sftp_session();
    let attrs = FileAttr { perm: Some(0o644), size: Some(1), ids: None, times: None };

    let mut eng = ScriptedEngine::new(vec![Outcome::Success(())]);
    let mut dir = sftp.opendir(&mut sess, &mut eng, b"/dir").unwrap();

    let entries: Vec<Outcome<DirData>> = vec![
        Outcome::Success(DirData { name: b"a".to_vec(), attr: attrs }),
        Outcome::WouldBlock(Directions { read: true, write: false }),
        Outcome::Success(DirData { name: b"b".to_vec(), attr: attrs }),
        Outcome::Success(DirData { name: Vec::new(), attr: attrs }),
    ];
    let mut eng = ScriptedEngine::new(entries);

    let first = dir.readdir(&mut sess, &mut eng).unwrap().unwrap();
    assert_eq!(first.path().as_slice(), b"a");
    assert_eq!(first.attr().permissions(), Some(0o644));

    let second = dir.readdir(&mut sess, &mut eng).unwrap().unwrap();
    assert_eq!(second.path().as_slice(), b"b");

    // The zero-length name ends the sequence.
    assert!(dir.readdir(&mut sess, &mut eng).is_none());
    assert_eq!(eng.remaining(), 0);

    // The sequence is not restartable on the same handle; a second pass
    // needs a reopened directory, and yields the same two entries again.
    let mut eng = ScriptedEngine::new(vec![Outcome::Success(())]);
    let mut dir = sftp.opendir(&mut sess, &mut eng, b"/dir").unwrap();
    let entries: Vec<Outcome<DirData>> = vec![
        Outcome::Success(DirData { name: b"a".to_vec(), attr: attrs }),
        Outcome::Success(DirData { name: b"b".to_vec(), attr: attrs }),
        Outcome::Success(DirData { name: Vec::new(), attr: attrs }),
    ];
    let mut eng = ScriptedEngine::new(entries);
    let first = dir.readdir(&mut sess, &mut eng).unwrap().unwrap();
    assert_eq!(first.path().as_slice(), b"a");
    let second = dir.readdir(&mut sess, &mut eng).unwrap().unwrap();
    assert_eq!(second.path().as_slice(), b"b");
    assert!(dir.readdir(&mut sess, &mut eng).is_none());
}

#[test]
fn directory_enumeration_surfaces_errors() {
    let (mut sess, mut sftp) = sftp_session();
    let mut eng = ScriptedEngine::new(vec![Outcome::Success(())]);
    let mut dir = sftp.opendir(&mut sess, &mut eng, b"/dir").unwrap();

    let entries: Vec<Outcome<DirData>> = vec![Outcome::Failure(Ssh2Error::from_code(3))];
    let mut eng = ScriptedEngine::new(entries);
    match dir.readdir(&mut sess, &mut eng) {
        Some(Err(Error::Ssh2(e))) => assert_eq!(e.message(), "permission denied"),
        _ => panic!("a failing directory read must surface the engine error"),
    }
}

#[test]
fn dir_handle_stat_and_setstat_operate_on_the_open_handle() {
    let (mut sess, mut sftp) = sftp_session();
    let mut eng = ScriptedEngine::new(vec![Outcome::Success(())]);
    let mut dir = sftp.opendir(&mut sess, &mut eng, b"/dir").unwrap();

    let attrs = FileAttr { perm: Some(0o755), size: None, ids: None, times: None };
    let mut eng = ScriptedEngine::new(vec![Outcome::Success(attrs)]);
    let got = dir.stat(&mut sess, &mut eng).unwrap();
    assert_eq!(got, attrs);

    let mut eng = ScriptedEngine::new(vec![Outcome::Success(())]);
    dir.setstat(&mut sess, &mut eng, attrs).unwrap();
}
