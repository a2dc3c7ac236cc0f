//! Session lifecycle: handshake, banner, authentication, channel opening,
//! and the end-to-end remote-command scenario.

use tokio_libssh2::auth::password;
use tokio_libssh2::{ChannelData, Directions, Error, Outcome, ScriptedEngine, Session};

fn handshaken() -> Session {
    let mut sess = Session::new();
    let mut eng = ScriptedEngine::new(vec![Outcome::Success(())]);
    sess.handshake(&mut eng).unwrap();
    sess
}

#[test]
fn handshake_completes_after_retries() {
    let mut sess = Session::new();
    let script: Vec<Outcome<()>> = vec![
        Outcome::WouldBlock(Directions { read: true, write: false }),
        Outcome::Success(()),
    ];
    let mut eng = ScriptedEngine::new(script);
    sess.handshake(&mut eng).unwrap();
    assert!(!sess.authenticated());
}

#[test]
fn handshake_failure_is_surfaced() {
    let mut sess = Session::new();
    let script: Vec<Outcome<()>> =
        vec![Outcome::Failure(tokio_libssh2::Ssh2Error::from_code(-8))];
    let mut eng = ScriptedEngine::new(script);
    match sess.handshake(&mut eng) {
        Err(Error::Ssh2(e)) => {
            assert_eq!(e.code(), -8);
            assert_eq!(e.message(), "key exchange failure");
        }
        _ => panic!("a failed handshake must surface the engine error"),
    }
    // The session never reached the handshaken phase; a retry may be driven.
    let mut eng = ScriptedEngine::new(vec![Outcome::Success(())]);
    sess.handshake(&mut eng).unwrap();
}

#[test]
fn set_banner_records_clean_banners() {
    let mut sess = Session::new();
    sess.set_banner(b"SSH-2.0-testbanner").unwrap();
}

#[test]
fn set_banner_rejects_interior_nul() {
    let mut sess = Session::new();
    match sess.set_banner(b"SSH-2.0\0bad") {
        Err(Error::Io(e)) => assert_eq!(e.kind(), std::io::ErrorKind::InvalidInput),
        _ => panic!("a banner with a NUL byte must be rejected as invalid input"),
    }
}

#[test]
fn password_authentication_succeeds() {
    let mut sess = handshaken();
    assert!(!sess.authenticated());
    let script: Vec<Outcome<()>> = vec![
        Outcome::WouldBlock(Directions { read: false, write: true }),
        Outcome::Success(()),
    ];
    let mut eng = ScriptedEngine::new(script);
    sess.authenticate("user", password(String::from("test-password")), &mut eng).unwrap();
    assert!(sess.authenticated());
}

#[test]
fn password_authentication_failure_keeps_session_unauthenticated() {
    let mut sess = handshaken();
    let script: Vec<Outcome<()>> =
        vec![Outcome::Failure(tokio_libssh2::Ssh2Error::from_code(-18))];
    let mut eng = ScriptedEngine::new(script);
    match sess.authenticate("user", password(String::from("test-password")), &mut eng) {
        Err(Error::Ssh2(e)) => assert_eq!(e.message(), "authentication failed"),
        _ => panic!("a failed authentication must surface the engine error"),
    }
    assert!(!sess.authenticated());
}

#[test]
fn list_userauth_hands_the_list_through() {
    let mut sess = handshaken();
    let list = b"password,publickey".to_vec();
    let mut eng = ScriptedEngine::new(vec![Outcome::Success(list.clone())]);
    let got = sess.list_userauth("user", &mut eng).unwrap();
    assert_eq!(got, list);
}

#[test]
fn open_channel_applies_engine_defaults() {
    let mut sess = handshaken();
    let mut eng = ScriptedEngine::new(vec![Outcome::Success(())]);
    let ch = sess.open_channel("session", None, None, None, &mut eng).unwrap();
    assert_eq!(ch.window_size(), 2 * 1024 * 1024);
    assert_eq!(ch.packet_size(), 32768);
    assert!(!ch.is_closed());
}

#[test]
fn open_channel_keeps_explicit_sizes() {
    let mut sess = handshaken();
    let mut eng = ScriptedEngine::new(vec![Outcome::Success(())]);
    let ch = sess.open_channel("session", Some(4096), Some(1024), None, &mut eng).unwrap();
    assert_eq!(ch.window_size(), 4096);
    assert_eq!(ch.packet_size(), 1024);
}

#[test]
fn setenv_rejection_is_surfaced() {
    let mut sess = handshaken();
    let mut eng = ScriptedEngine::new(vec![Outcome::Success(())]);
    let mut ch = sess.open_channel_session(&mut eng).unwrap();

    let mut eng = ScriptedEngine::new(vec![Outcome::Failure(
        tokio_libssh2::Ssh2Error::from_code(-22),
    )]);
    match ch.setenv(&mut sess, &mut eng, "LC_ALL", "C") {
        Err(Error::Ssh2(e)) => assert_eq!(e.message(), "request denied"),
        _ => panic!("a rejected environment request must not be silently ignored"),
    }
}

#[test]
fn exec_env_scenario_reads_until_eof_and_reports_exit_status() {
    let mut sess = handshaken();

    let script: Vec<Outcome<()>> = vec![
        Outcome::WouldBlock(Directions { read: false, write: true }),
        Outcome::Success(()),
    ];
    let mut eng = ScriptedEngine::new(script);
    sess.authenticate("user", password(String::from("test-password")), &mut eng).unwrap();

    let mut eng = ScriptedEngine::new(vec![Outcome::Success(())]);
    let mut ch = sess.open_channel_session(&mut eng).unwrap();

    let mut eng = ScriptedEngine::new(vec![Outcome::Success(())]);
    ch.exec(&mut sess, &mut eng, "env").unwrap();

    let mut collected: Vec<u8> = Vec::new();
    let reads: Vec<Outcome<ChannelData>> = vec![
        Outcome::Success(ChannelData {
            bytes: b"PATH=/usr/bin\n".to_vec(),
            exit_status: None,
        }),
        Outcome::WouldBlock(Directions { read: true, write: false }),
        Outcome::Success(ChannelData { bytes: b"HOME=/root\n".to_vec(), exit_status: None }),
        Outcome::Success(ChannelData { bytes: Vec::new(), exit_status: Some(0) }),
    ];
    let mut eng = ScriptedEngine::new(reads);
    loop {
        let chunk = ch.read(&mut sess, &mut eng, 0, 1024).unwrap();
        if chunk.is_empty() {
            break;
        }
        collected.extend_from_slice(&chunk);
    }
    assert_eq!(collected, b"PATH=/usr/bin\nHOME=/root\n".to_vec());
    assert_eq!(ch.exit_status().unwrap(), 0);

    let mut eng = ScriptedEngine::new(vec![Outcome::Success(())]);
    ch.close(&mut sess, &mut eng).unwrap();
    assert!(ch.is_closed());
}

#[test]
fn stream_handles_address_numbered_streams() {
    let mut sess = handshaken();
    let mut eng = ScriptedEngine::new(vec![Outcome::Success(())]);
    let mut ch = sess.open_channel_session(&mut eng).unwrap();

    let stderr = ch.stream(1);
    let reads: Vec<Outcome<ChannelData>> = vec![Outcome::Success(ChannelData {
        bytes: b"oops\n".to_vec(),
        exit_status: None,
    })];
    let mut eng = ScriptedEngine::new(reads);
    let chunk = stderr.read(&mut ch, &mut sess, &mut eng, 64).unwrap();
    assert_eq!(chunk, b"oops\n".to_vec());

    let mut eng = ScriptedEngine::new(vec![Outcome::Success(3usize)]);
    let taken = stderr.write(&mut ch, &mut sess, &mut eng, b"abcdef").unwrap();
    assert_eq!(taken, 3);

    let mut eng = ScriptedEngine::new(vec![Outcome::Success(())]);
    stderr.flush(&mut ch, &mut sess, &mut eng).unwrap();
}

#[test]
fn channel_write_reports_partial_consumption() {
    let mut sess = handshaken();
    let mut eng = ScriptedEngine::new(vec![Outcome::Success(())]);
    let mut ch = sess.open_channel_session(&mut eng).unwrap();

    let script: Vec<Outcome<usize>> = vec![
        Outcome::WouldBlock(Directions { read: false, write: true }),
        Outcome::Success(2usize),
    ];
    let mut eng = ScriptedEngine::new(script);
    let taken = ch.write(&mut sess, &mut eng, 0, b"hello").unwrap();
    assert_eq!(taken, 2);
}
