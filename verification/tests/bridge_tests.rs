use fastly_http_client::body::NativeBody;
use fastly_http_client::bridge::{
    bridge_step, drive_fake, poll_fake, BridgeAction, BridgeState, FakeHandle, PollOutcome,
};
use fastly_http_client::error::{RootCause, SendFailure};
use fastly_http_client::message::NativeResponse;

fn ok_response(status: u16, body: &[u8]) -> NativeResponse {
    NativeResponse {
        status,
        headers: Vec::new(),
        body: NativeBody { bytes: body.to_vec() },
    }
}

#[test]
fn bridge_delivers_after_exactly_n_reschedules() {
    for n in [0usize, 1, 2, 7, 100] {
        let handle = FakeHandle {
            not_yet_remaining: n,
            result: Ok(ok_response(200, b"done")),
        };
        let (result, reschedules) = drive_fake(handle);
        assert_eq!(reschedules, n);
        assert_eq!(result, Ok(ok_response(200, b"done")));
    }
}

#[test]
fn bridge_step_done_delivers() {
    let outcome: PollOutcome<FakeHandle> = PollOutcome::Done(Ok(ok_response(204, b"")));
    let (state, action) = bridge_step(outcome);
    assert_eq!(action, BridgeAction::Deliver);
    assert_eq!(state, BridgeState::Done(Ok(ok_response(204, b""))));
}

#[test]
fn bridge_step_not_yet_rearms() {
    let handle = FakeHandle {
        not_yet_remaining: 3,
        result: Err(SendFailure { cause: RootCause::DnsTimeout }),
    };
    let expected = FakeHandle {
        not_yet_remaining: 3,
        result: Err(SendFailure { cause: RootCause::DnsTimeout }),
    };
    let (state, action) = bridge_step(PollOutcome::NotYet(handle));
    assert_eq!(action, BridgeAction::ArmTimer);
    assert_eq!(state, BridgeState::Holding(expected));
}

#[test]
fn poll_consumes_one_not_yet_report() {
    let handle = FakeHandle {
        not_yet_remaining: 2,
        result: Ok(ok_response(200, b"x")),
    };
    match poll_fake(handle) {
        PollOutcome::NotYet(next) => {
            assert_eq!(next.not_yet_remaining, 1);
            assert_eq!(next.result, Ok(ok_response(200, b"x")));
        }
        PollOutcome::Done(_) => panic!("poll reported done too early"),
    }
}

#[test]
fn interleaved_bridges_complete_independently() {
    // Two bridges driven by hand under an alternating schedule: each
    // completes with its own result after exactly its own NotYet count,
    // no matter how the other is doing.
    let first = FakeHandle {
        not_yet_remaining: 3,
        result: Ok(ok_response(200, b"first")),
    };
    let second = FakeHandle {
        not_yet_remaining: 1,
        result: Err(SendFailure { cause: RootCause::ConnectionTimeout }),
    };
    let mut states = (
        BridgeState::Holding(first),
        BridgeState::Holding(second),
    );
    let mut polls = (0usize, 0usize);
    let schedule = [true, false, true, false, true, false, true, false];
    for pick_first in schedule {
        if pick_first {
            if let BridgeState::Holding(h) = states.0 {
                states.0 = bridge_step(poll_fake(h)).0;
                polls.0 += 1;
            }
        } else if let BridgeState::Holding(h) = states.1 {
            states.1 = bridge_step(poll_fake(h)).0;
            polls.1 += 1;
        }
    }
    assert_eq!(states.0, BridgeState::Done(Ok(ok_response(200, b"first"))));
    assert_eq!(
        states.1,
        BridgeState::Done(Err(SendFailure { cause: RootCause::ConnectionTimeout }))
    );
    assert_eq!(polls.0, 4);
    assert_eq!(polls.1, 2);
}
