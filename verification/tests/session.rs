use camctl_rs::cam::Kraken;
use camctl_rs::protocol::Channel;
use camctl_rs::session::{Action, Event, Level, LogEvent, ReadState, WriteState};
use camctl_rs::usb::UsbError;

fn kraken() -> Kraken {
    Kraken { device_index: 0, iface: 0 }
}

#[test]
fn write_lifecycle_success() {
    let mut s = kraken().set_fan(50);
    assert_eq!(s.action(), Some(Action::Open));
    assert!(s.handle(Event::Opened(Ok(()))).is_empty());
    assert_eq!(s.action(), Some(Action::CheckDriver));
    assert!(s.handle(Event::DriverChecked(Ok(true))).is_empty());
    assert_eq!(s.action(), Some(Action::Detach));
    assert!(s.handle(Event::Detached(Ok(()))).is_empty());
    assert_eq!(s.action(), Some(Action::Claim));
    assert!(s.handle(Event::Claimed(Ok(()))).is_empty());
    assert_eq!(s.action(), Some(Action::Write));
    let payload = s.payload();
    assert_eq!(payload[2], 0);
    assert_eq!(payload[4], 50);
    assert!(s.handle(Event::Written(Ok(24))).is_empty());
    assert_eq!(s.action(), Some(Action::CheckDriver));
    assert!(s.handle(Event::DriverChecked(Ok(false))).is_empty());
    assert_eq!(s.action(), Some(Action::Attach));
    assert_eq!(s.handle(Event::Attached(Ok(()))), vec![LogEvent::DriverReattached]);
    assert_eq!(s.action(), Some(Action::Release));
    assert_eq!(s.handle(Event::Released(Ok(()))), vec![LogEvent::InterfaceReleased]);
    assert_eq!(s.action(), None);
    assert_eq!(s.state, WriteState::Finished(Ok(())));
}

#[test]
fn write_failure_still_cleans_up() {
    let mut s = kraken().set_pump(80);
    s.handle(Event::Opened(Ok(())));
    s.handle(Event::DriverChecked(Ok(false)));
    s.handle(Event::Claimed(Ok(())));
    assert_eq!(s.action(), Some(Action::Write));
    let fresh = s.handle(Event::Written(Err(UsbError::Io)));
    assert_eq!(fresh, vec![LogEvent::WriteFailed]);
    assert_eq!(fresh[0].level(), Level::Warn);
    assert_eq!(s.state, WriteState::AwaitReattachCheck);
    assert_eq!(s.action(), Some(Action::CheckDriver));
    s.handle(Event::DriverChecked(Ok(false)));
    assert_eq!(s.action(), Some(Action::Attach));
    s.handle(Event::Attached(Err(UsbError::Busy)));
    assert_eq!(s.action(), Some(Action::Release));
    s.handle(Event::Released(Ok(())));
    assert_eq!(s.state, WriteState::Finished(Ok(())));
    assert_eq!(
        s.logs,
        vec![
            LogEvent::WriteFailed,
            LogEvent::ReattachFailed(UsbError::Busy),
            LogEvent::InterfaceReleased,
        ]
    );
}

#[test]
fn unknown_write_error_logged_at_error_level() {
    let mut s = kraken().set_fan(10);
    s.handle(Event::Opened(Ok(())));
    s.handle(Event::DriverChecked(Ok(false)));
    s.handle(Event::Claimed(Ok(())));
    let fresh = s.handle(Event::Written(Err(UsbError::Timeout)));
    assert_eq!(fresh, vec![LogEvent::TransferUnknown]);
    assert_eq!(fresh[0].level(), Level::Error);
    assert_eq!(s.state, WriteState::AwaitReattachCheck);
}

#[test]
fn claim_failure_is_fatal_for_write() {
    let mut s = kraken().set_fan(30);
    s.handle(Event::Opened(Ok(())));
    s.handle(Event::DriverChecked(Ok(false)));
    s.handle(Event::Claimed(Err(UsbError::Busy)));
    assert_eq!(s.state, WriteState::Finished(Err(UsbError::Busy)));
    assert_eq!(s.action(), None);
    assert!(s.logs.is_empty());
}

#[test]
fn detach_failure_is_fatal_for_write() {
    let mut s = kraken().set_pump(30);
    s.handle(Event::Opened(Ok(())));
    s.handle(Event::DriverChecked(Ok(true)));
    s.handle(Event::Detached(Err(UsbError::Access)));
    assert_eq!(s.state, WriteState::Finished(Err(UsbError::Access)));
}

#[test]
fn over_range_pump_is_a_warned_no_op() {
    let s = kraken().set_pump(150);
    assert_eq!(s.state, WriteState::Finished(Ok(())));
    assert_eq!(s.action(), None);
    assert_eq!(s.logs, vec![LogEvent::SpeedOutOfRange(150)]);
    assert_eq!(s.logs[0].level(), Level::Warn);
}

#[test]
fn over_range_fan_is_a_warned_no_op() {
    let s = kraken().set_fan(101);
    assert_eq!(s.state, WriteState::Finished(Ok(())));
    assert_eq!(s.action(), None);
    assert_eq!(s.logs, vec![LogEvent::SpeedOutOfRange(101)]);
}

#[test]
fn cleanup_query_failure_is_absorbed() {
    let mut s = kraken().set_fan(65);
    s.handle(Event::Opened(Ok(())));
    s.handle(Event::DriverChecked(Ok(false)));
    s.handle(Event::Claimed(Ok(())));
    s.handle(Event::Written(Err(UsbError::Io)));
    assert_eq!(s.action(), Some(Action::CheckDriver));
    let fresh = s.handle(Event::DriverChecked(Err(UsbError::NoDevice)));
    assert_eq!(fresh, vec![LogEvent::ReattachCheckFailed(UsbError::NoDevice)]);
    assert_eq!(fresh[0].level(), Level::Warn);
    assert_eq!(s.state, WriteState::AwaitRelease);
    assert_eq!(s.action(), Some(Action::Release));
    s.handle(Event::Released(Ok(())));
    assert_eq!(s.state, WriteState::Finished(Ok(())));
    assert_eq!(s.action(), None);
    assert_eq!(
        s.logs,
        vec![
            LogEvent::WriteFailed,
            LogEvent::ReattachCheckFailed(UsbError::NoDevice),
            LogEvent::InterfaceReleased,
        ]
    );
}

#[test]
fn success_error_code_counts_as_cleanup_success() {
    let mut s = kraken().set_fan(42);
    s.handle(Event::Opened(Ok(())));
    s.handle(Event::DriverChecked(Ok(false)));
    s.handle(Event::Claimed(Ok(())));
    s.handle(Event::Written(Ok(24)));
    s.handle(Event::DriverChecked(Ok(false)));
    assert_eq!(s.handle(Event::Attached(Err(UsbError::Success))), vec![LogEvent::DriverReattached]);
    assert_eq!(s.handle(Event::Released(Err(UsbError::Success))), vec![
        LogEvent::InterfaceReleased,
    ]);
    assert_eq!(s.state, WriteState::Finished(Ok(())));
}

#[test]
fn two_identical_calls_run_identical_lifecycles() {
    let events = || {
        vec![
            Event::Opened(Ok(())),
            Event::DriverChecked(Ok(true)),
            Event::Detached(Ok(())),
            Event::Claimed(Ok(())),
            Event::Written(Ok(24)),
            Event::DriverChecked(Ok(true)),
            Event::Released(Ok(())),
        ]
    };
    let mut first = kraken().set_fan(50);
    let mut trace_first: Vec<(Option<Action>, WriteState)> = Vec::new();
    for e in events() {
        first.handle(e);
        trace_first.push((first.action(), first.state));
    }
    let mut second = kraken().set_fan(50);
    assert_eq!(second.state, WriteState::AwaitOpen);
    assert!(second.logs.is_empty());
    let mut trace_second: Vec<(Option<Action>, WriteState)> = Vec::new();
    for e in events() {
        second.handle(e);
        trace_second.push((second.action(), second.state));
    }
    assert_eq!(trace_first, trace_second);
    assert_eq!(first.logs, second.logs);
    assert_eq!(first.state, WriteState::Finished(Ok(())));
    assert_eq!(second.state, WriteState::Finished(Ok(())));
}

#[test]
fn read_open_failure_is_fatal() {
    let mut s = kraken().status();
    assert_eq!(s.action(), Some(Action::Open));
    s.handle(Event::Opened(Err(UsbError::NoDevice)));
    assert_eq!(s.state, ReadState::Finished(Err(UsbError::NoDevice)));
    assert_eq!(s.action(), None);
}

#[test]
fn read_claim_failure_is_ignored() {
    let mut s = kraken().status();
    s.handle(Event::Opened(Ok(())));
    assert_eq!(s.action(), Some(Action::Claim));
    let fresh = s.handle(Event::Claimed(Err(UsbError::Busy)));
    assert!(fresh.is_empty());
    assert_eq!(s.state, ReadState::AwaitRead);
    assert_eq!(s.action(), Some(Action::Read));
}

#[test]
fn read_failure_decodes_stale_buffer() {
    let mut s = kraken().status();
    s.handle(Event::Opened(Ok(())));
    s.handle(Event::Claimed(Ok(())));
    let fresh = s.handle(Event::ReadDone(Err(UsbError::Timeout), vec![0u8; 17]));
    assert_eq!(fresh, vec![LogEvent::ReadFailed(UsbError::Timeout)]);
    assert_eq!(fresh[0].level(), Level::Warn);
    match s.state {
        ReadState::Finished(Ok(info)) => {
            assert_eq!(info.liquid_temp_deg, 0);
            assert_eq!(info.liquid_temp_tenths, 0);
            assert_eq!(info.fan_speed, 0);
            assert_eq!(info.pump_speed, 0);
        }
        other => panic!("unexpected state: {:?}", other),
    }
}

#[test]
fn write_channel_and_percent_never_change() {
    let mut s = kraken().set_pump(77);
    s.handle(Event::Opened(Ok(())));
    s.handle(Event::DriverChecked(Ok(false)));
    s.handle(Event::Claimed(Ok(())));
    assert_eq!(s.channel, Channel::Pump);
    assert_eq!(s.percent, 77);
    let payload = s.payload();
    assert_eq!(payload[2], 64);
    assert_eq!(payload[4], 77);
}
