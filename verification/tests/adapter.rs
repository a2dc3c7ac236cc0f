//! The readiness-driven call adapter against scripted engines: retry
//! counts, wait directions, sequencing, and the inconsistent-advisory and
//! exhausted-script edge cases.

use tokio_libssh2::session::{classify_return, CallResult};
use tokio_libssh2::{Directions, Outcome, ScriptedEngine, Session, Ssh2Error};

fn read_dir() -> Directions {
    Directions { read: true, write: false }
}

fn write_dir() -> Directions {
    Directions { read: false, write: true }
}

#[test]
fn retry_idempotence_three_blocks_then_success() {
    let mut sess = Session::new();
    let script: Vec<Outcome<u8>> = vec![
        Outcome::WouldBlock(read_dir()),
        Outcome::WouldBlock(read_dir()),
        Outcome::WouldBlock(write_dir()),
        Outcome::Success(42),
    ];
    let mut eng = ScriptedEngine::new(script);
    let (res, trace) = sess.run_call(&mut eng);
    match res {
        CallResult::Complete(v) => assert_eq!(v, 42),
        CallResult::Abort(e) => panic!("unexpected abort: {:?}", e),
    }
    assert_eq!(trace.attempts, 4);
    assert_eq!(trace.waits.len(), 3);
    assert_eq!(eng.remaining(), 0);
}

#[test]
fn no_retry_on_immediate_success() {
    let mut sess = Session::new();
    let mut eng = ScriptedEngine::new(vec![Outcome::Success(7u8)]);
    let (res, trace) = sess.run_call(&mut eng);
    assert!(matches!(res, CallResult::Complete(7)));
    assert_eq!(trace.attempts, 1);
    assert!(trace.waits.is_empty());
}

#[test]
fn direction_correctness_waits_on_write_not_read() {
    let mut sess = Session::new();
    let script: Vec<Outcome<()>> =
        vec![Outcome::WouldBlock(write_dir()), Outcome::Success(())];
    let mut eng = ScriptedEngine::new(script);
    let (_, trace) = sess.run_call(&mut eng);
    assert_eq!(trace.waits.len(), 1);
    assert!(trace.waits[0].write);
    assert!(!trace.waits[0].read);
}

#[test]
fn direction_correctness_mixed_advisories_in_order() {
    let mut sess = Session::new();
    let both = Directions { read: true, write: true };
    let script: Vec<Outcome<()>> = vec![
        Outcome::WouldBlock(read_dir()),
        Outcome::WouldBlock(both),
        Outcome::WouldBlock(write_dir()),
        Outcome::Success(()),
    ];
    let mut eng = ScriptedEngine::new(script);
    let (_, trace) = sess.run_call(&mut eng);
    assert_eq!(trace.waits.len(), 3);
    assert_eq!(trace.waits[0], read_dir());
    assert_eq!(trace.waits[1], both);
    assert_eq!(trace.waits[2], write_dir());
}

#[test]
fn single_flight_sequential_calls_consume_disjoint_spans() {
    let mut sess = Session::new();
    let script: Vec<Outcome<u8>> = vec![
        Outcome::WouldBlock(read_dir()),
        Outcome::Success(1),
        Outcome::WouldBlock(write_dir()),
        Outcome::Success(2),
    ];
    let mut eng = ScriptedEngine::new(script);

    let (res1, trace1) = sess.run_call(&mut eng);
    assert!(matches!(res1, CallResult::Complete(1)));
    assert_eq!(trace1.attempts, 2);
    assert_eq!(eng.remaining(), 2);

    let (res2, trace2) = sess.run_call(&mut eng);
    assert!(matches!(res2, CallResult::Complete(2)));
    assert_eq!(trace2.attempts, 2);
    assert_eq!(eng.remaining(), 0);
}

#[test]
fn pending_direction_is_waited_before_next_call() {
    let mut sess = Session::new();
    // A would-block absorbed directly leaves the advisory pending.
    let step = sess.absorb::<()>(Outcome::WouldBlock(write_dir()));
    assert!(matches!(
        step,
        tokio_libssh2::session::CallStep::Wait(Directions { read: false, write: true })
    ));
    let req = sess.required_readiness();
    assert!(req.write && !req.read);

    // The next call must first wait on that exact direction.
    let mut eng = ScriptedEngine::new(vec![Outcome::Success(5u8)]);
    let (_, trace) = sess.run_call(&mut eng);
    assert_eq!(trace.attempts, 1);
    assert_eq!(trace.waits.len(), 1);
    assert_eq!(trace.waits[0], write_dir());

    // Once settled, nothing is pending any more.
    let req = sess.required_readiness();
    assert!(!req.read && !req.write);
}

#[test]
fn would_block_without_direction_is_a_hard_failure() {
    let mut sess = Session::new();
    let none = Directions { read: false, write: false };
    let script: Vec<Outcome<u8>> = vec![Outcome::WouldBlock(none), Outcome::Success(9)];
    let mut eng = ScriptedEngine::new(script);
    let (res, trace) = sess.run_call(&mut eng);
    match res {
        CallResult::Abort(e) => {
            assert_eq!(e.code(), tokio_libssh2::error::LIBSSH2_ERROR_BAD_USE);
            assert_eq!(e.message(), "bad use error");
        }
        CallResult::Complete(_) => panic!("an inconsistent would-block must not settle as success"),
    }
    // No retry happened: the success answer was never consumed.
    assert_eq!(trace.attempts, 1);
    assert_eq!(eng.remaining(), 1);
}

#[test]
fn exhausted_script_aborts_with_placeholder_error() {
    let mut sess = Session::new();
    let script: Vec<Outcome<u8>> = vec![Outcome::WouldBlock(read_dir())];
    let mut eng = ScriptedEngine::new(script);
    let (res, trace) = sess.run_call(&mut eng);
    match res {
        CallResult::Abort(e) => {
            assert_eq!(e.code(), i32::MIN);
            assert_eq!(e.message(), "unknown error");
        }
        CallResult::Complete(_) => panic!("an exhausted script cannot succeed"),
    }
    assert_eq!(trace.attempts, 1);
    assert_eq!(trace.waits.len(), 1);
}

#[test]
fn failure_is_surfaced_without_retry() {
    let mut sess = Session::new();
    let script: Vec<Outcome<u8>> = vec![
        Outcome::Failure(Ssh2Error::from_code(-14)),
        Outcome::Success(1),
    ];
    let mut eng = ScriptedEngine::new(script);
    let (res, trace) = sess.run_call(&mut eng);
    match res {
        CallResult::Abort(e) => {
            assert_eq!(e.code(), -14);
            assert_eq!(e.message(), "protocol error");
        }
        CallResult::Complete(_) => panic!("a failure must abort the call"),
    }
    assert_eq!(trace.attempts, 1);
    assert_eq!(eng.remaining(), 1);
}

#[test]
fn classify_return_success_on_nonnegative() {
    let o = classify_return(12, Ssh2Error::from_code(-37), Directions { read: true, write: false });
    assert!(matches!(o, Outcome::Success(12)));
    let o = classify_return(0, Ssh2Error::from_code(-18), Directions { read: false, write: false });
    assert!(matches!(o, Outcome::Success(0)));
}

#[test]
fn classify_return_would_block_on_eagain() {
    let o = classify_return(
        -37,
        Ssh2Error::from_code(-37),
        Directions { read: false, write: true },
    );
    match o {
        Outcome::WouldBlock(d) => assert!(d.write && !d.read),
        _ => panic!("an eagain last error must ask for a retry"),
    }
}

#[test]
fn classify_return_failure_on_other_errors() {
    let o = classify_return(
        -18,
        Ssh2Error::from_code(-18),
        Directions { read: true, write: false },
    );
    match o {
        Outcome::Failure(e) => assert_eq!(e.code(), -18),
        _ => panic!("a non-eagain error must fail the call"),
    }
}

#[test]
fn directions_from_bits_decodes_the_advisory_mask() {
    let d = Directions::from_bits(1);
    assert!(d.read && !d.write);
    let d = Directions::from_bits(2);
    assert!(!d.read && d.write);
    let d = Directions::from_bits(3);
    assert!(d.read && d.write);
    let d = Directions::from_bits(0);
    assert!(!d.read && !d.write);
}
