use mlx9064x::protocol::armed;
use mlx9064x::protocol::image_if_ready_accepts;
use mlx9064x::protocol::image_if_ready_start;
use mlx9064x::protocol::image_if_ready_step;
use mlx9064x::protocol::synchronize_accepts;
use mlx9064x::protocol::synchronize_start;
use mlx9064x::protocol::synchronize_step;
use mlx9064x::protocol::BusAction;
use mlx9064x::protocol::BusEvent;
use mlx9064x::protocol::ImageState;
use mlx9064x::protocol::SyncState;
use mlx9064x::register::AccessPattern;
use mlx9064x::register::StatusRegister;
use mlx9064x::register::Subpage;

#[test]
fn armed_register_starts_fresh_measurement() {
    let w = armed(&StatusRegister::from_raw(0x0009));
    assert_eq!(w.raw(), 0x0031);
    assert!(!w.new_data());
    assert!(w.overwrite_enabled());
    assert!(w.start_measurement());
}

#[test]
fn synchronize_ignores_pending_data_and_polls() {
    let (mut state, action) = synchronize_start();
    assert_eq!(action, BusAction::ReadStatus);
    // Data is pending at the start: it is dropped, and a measurement started.
    let (s, a) = synchronize_step(state, BusEvent::StatusRead(StatusRegister::from_raw(0x0008)));
    assert_eq!(s, SyncState::Arming);
    assert_eq!(a, BusAction::WriteStatus(StatusRegister::from_raw(0x0030)));
    state = s;
    let (s, a) = synchronize_step(state, BusEvent::StatusWritten);
    assert_eq!((s, a), (SyncState::Polling, BusAction::ReadStatus));
    state = s;
    let (s, a) = synchronize_step(state, BusEvent::StatusRead(StatusRegister::from_raw(0x0010)));
    assert_eq!((s, a), (SyncState::Polling, BusAction::Yield));
    state = s;
    let (s, a) = synchronize_step(state, BusEvent::Yielded);
    assert_eq!((s, a), (SyncState::Polling, BusAction::ReadStatus));
    state = s;
    let (s, a) = synchronize_step(state, BusEvent::StatusRead(StatusRegister::from_raw(0x0019)));
    assert_eq!((s, a), (SyncState::Done, BusAction::Finish(true)));
}

#[test]
fn image_if_ready_without_data() {
    let (state, action) = image_if_ready_start();
    assert_eq!(action, BusAction::ReadStatus);
    let r = image_if_ready_step(state, BusEvent::StatusRead(StatusRegister::from_raw(0x0011)), AccessPattern::Chess);
    assert_eq!(r, (ImageState::Done, BusAction::Finish(false)));
}

#[test]
fn image_if_ready_with_data() {
    let (state, _) = image_if_ready_start();
    let status = StatusRegister::from_raw(0x0019);
    let (s, a) = image_if_ready_step(state, BusEvent::StatusRead(status), AccessPattern::Interleave);
    assert_eq!(s, ImageState::Capturing(status));
    assert_eq!(a, BusAction::CaptureSubpage(Subpage::One, AccessPattern::Interleave));
    let (s, a) = image_if_ready_step(s, BusEvent::SubpageCaptured, AccessPattern::Interleave);
    assert_eq!(s, ImageState::Acknowledging);
    assert_eq!(a, BusAction::WriteStatus(StatusRegister::from_raw(0x0011)));
    let (s, a) = image_if_ready_step(s, BusEvent::StatusWritten, AccessPattern::Interleave);
    assert_eq!((s, a), (ImageState::Done, BusAction::Finish(true)));
}

#[test]
fn failed_capture_aborts_without_acknowledging() {
    let (state, _) = image_if_ready_start();
    let status = StatusRegister::from_raw(0x0008);
    let (s, _) = image_if_ready_step(state, BusEvent::StatusRead(status), AccessPattern::Chess);
    let r = image_if_ready_step(s, BusEvent::TransferFailed, AccessPattern::Chess);
    assert_eq!(r, (ImageState::Aborted, BusAction::Abort));
}

#[test]
fn failed_status_read_aborts() {
    let (state, _) = image_if_ready_start();
    assert_eq!(
        image_if_ready_step(state, BusEvent::TransferFailed, AccessPattern::Chess),
        (ImageState::Aborted, BusAction::Abort)
    );
    let (state, _) = synchronize_start();
    assert_eq!(synchronize_step(state, BusEvent::TransferFailed), (SyncState::Aborted, BusAction::Abort));
}

#[test]
fn failed_poll_aborts_synchronize() {
    let (state, _) = synchronize_start();
    let (s, _) = synchronize_step(state, BusEvent::StatusRead(StatusRegister::from_raw(0)));
    let (s, _) = synchronize_step(s, BusEvent::StatusWritten);
    assert_eq!(synchronize_step(s, BusEvent::TransferFailed), (SyncState::Aborted, BusAction::Abort));
}

#[test]
fn accepted_events() {
    assert!(synchronize_accepts(SyncState::Start, BusEvent::StatusRead(StatusRegister::from_raw(0))));
    assert!(!synchronize_accepts(SyncState::Start, BusEvent::StatusWritten));
    assert!(synchronize_accepts(SyncState::Polling, BusEvent::Yielded));
    assert!(!synchronize_accepts(SyncState::Done, BusEvent::TransferFailed));
    assert!(image_if_ready_accepts(ImageState::Acknowledging, BusEvent::StatusWritten));
    assert!(!image_if_ready_accepts(ImageState::Start, BusEvent::SubpageCaptured));
    assert!(!image_if_ready_accepts(ImageState::Aborted, BusEvent::TransferFailed));
}
