use gps_correct::error::{ConnectError, ErrorClass};
use gps_correct::relay::RelayEnd;
use gps_correct::serial::{device_path, port_short_name, SerialSettings, BAUD_RATE};
use gps_correct::supervisor::{
    decide, will_retry, Control, Directive, Event, Failure, Lifecycle, Mode, Phase, Supervisor,
};

const URL: &str = "http://caster.centipede.fr:2101/GDCRT";

fn started(mode: Mode) -> Supervisor {
    let mut supervisor = Supervisor::new(mode, URL, "/dev/ttyUSB0", "GpsCorrect").unwrap();
    assert_eq!(supervisor.step(Event::Start), Directive::OpenSerial);
    assert_eq!(supervisor.step(Event::SerialOpened), Directive::ConnectCaster);
    supervisor
}

fn streaming(mode: Mode) -> Supervisor {
    let mut supervisor = started(mode);
    assert_eq!(supervisor.step(Event::CasterConnected), Directive::StartStreaming);
    supervisor
}

#[test]
fn new_supervisor_is_idle_and_knows_what_to_open() {
    let supervisor = Supervisor::new(Mode::AlwaysOn, URL, "/dev/ttyUSB0", "GpsCorrect").unwrap();
    assert_eq!(supervisor.phase(), Phase::Idle);
    assert_eq!(
        supervisor.control(),
        Control {
            mode: Mode::AlwaysOn,
            phase: Phase::Idle,
            serial_open: false,
            receiving: false,
            failure: None,
        }
    );
    assert_eq!(supervisor.lifecycle(), None);
    assert_eq!(supervisor.failure(), None);
    assert_eq!(supervisor.plan().host, "caster.centipede.fr");
    assert_eq!(supervisor.plan().port, 2101);
    assert_eq!(supervisor.plan().request.target, "/GDCRT");
    assert_eq!(supervisor.plan().request.user_agent, "NTRIP GpsCorrect/1.0");
    assert_eq!(supervisor.serial().device, "/dev/ttyUSB0");
    assert_eq!(supervisor.serial().baud, 115200);
}

#[test]
fn bad_url_makes_no_supervisor() {
    assert_eq!(
        Supervisor::new(Mode::AlwaysOn, "https://example.org/M", "ttyUSB0", "x").err(),
        Some(ConnectError::InvalidScheme)
    );
    assert_eq!(
        Supervisor::new(Mode::SingleShot, "", "ttyUSB0", "x").err(),
        Some(ConnectError::MalformedUrl)
    );
}

#[test]
fn start_opens_serial_then_dials_then_streams() {
    let mut supervisor = Supervisor::new(Mode::SingleShot, URL, "COM3", "GpsCorrect").unwrap();
    assert_eq!(supervisor.step(Event::Start), Directive::OpenSerial);
    assert_eq!(supervisor.phase(), Phase::ConnectingCaster);
    assert!(!supervisor.control().serial_open);
    assert_eq!(supervisor.step(Event::SerialOpened), Directive::ConnectCaster);
    assert_eq!(supervisor.phase(), Phase::ConnectingCaster);
    assert!(supervisor.control().serial_open);
    assert_eq!(supervisor.step(Event::CasterConnected), Directive::StartStreaming);
    assert_eq!(supervisor.phase(), Phase::Streaming);
    assert!(supervisor.control().receiving);
    assert_eq!(supervisor.lifecycle(), Some(Lifecycle::Connected));
    assert_eq!(supervisor.plan().host, "caster.centipede.fr");
    assert_eq!(supervisor.serial().device, "COM3");
}

#[test]
fn serial_failure_is_the_end() {
    for mode in [Mode::AlwaysOn, Mode::SingleShot] {
        let mut supervisor = Supervisor::new(mode, URL, "ttyUSB0", "x").unwrap();
        supervisor.step(Event::Start);
        assert_eq!(supervisor.step(Event::SerialFailed), Directive::Halt(Failure::SerialOpen));
        assert_eq!(supervisor.phase(), Phase::Failed);
        assert_eq!(supervisor.failure(), Some(Failure::SerialOpen));
        assert_eq!(supervisor.lifecycle(), Some(Lifecycle::Failed));
        assert_eq!(Failure::SerialOpen.class(), ErrorClass::Connection);
    }
}

#[test]
fn caster_is_not_dialled_before_the_serial_link_is_open() {
    let mut supervisor = Supervisor::new(Mode::AlwaysOn, URL, "ttyUSB0", "x").unwrap();
    supervisor.step(Event::Start);
    assert_eq!(supervisor.step(Event::CasterConnected), Directive::Nothing);
    assert_eq!(
        supervisor.step(Event::CasterRefused(ConnectError::ConnectFailed)),
        Directive::Nothing
    );
    assert_eq!(supervisor.phase(), Phase::ConnectingCaster);
    assert_eq!(supervisor.step(Event::SerialOpened), Directive::ConnectCaster);
    assert_eq!(supervisor.step(Event::SerialOpened), Directive::Nothing);
    assert_eq!(supervisor.step(Event::SerialFailed), Directive::Nothing);
}

#[test]
fn second_start_is_turned_down() {
    let mut supervisor = started(Mode::AlwaysOn);
    let before = supervisor.control();
    assert_eq!(supervisor.step(Event::Start), Directive::Reject);
    assert_eq!(supervisor.control(), before);
    let mut supervisor = streaming(Mode::AlwaysOn);
    assert_eq!(supervisor.step(Event::Start), Directive::Reject);
    assert_eq!(supervisor.phase(), Phase::Streaming);
    supervisor.step(Event::Stop);
    assert_eq!(supervisor.step(Event::Start), Directive::Reject);
    assert_eq!(supervisor.phase(), Phase::Stopped);
}

#[test]
fn always_on_dials_again_after_the_relay_ended() {
    let mut supervisor = streaming(Mode::AlwaysOn);
    assert_eq!(supervisor.step(Event::Tick), Directive::Nothing);
    assert_eq!(supervisor.step(Event::RelayEnded(RelayEnd::CasterClosed)), Directive::AwaitTick);
    assert_eq!(supervisor.phase(), Phase::Retrying);
    assert_eq!(supervisor.lifecycle(), Some(Lifecycle::Retrying));
    assert_eq!(supervisor.step(Event::Tick), Directive::ConnectCaster);
    assert_eq!(supervisor.phase(), Phase::ConnectingCaster);
    assert!(supervisor.control().serial_open);
    assert!(supervisor.control().receiving);
    assert_eq!(supervisor.step(Event::CasterConnected), Directive::RespawnRelay);
    assert_eq!(supervisor.phase(), Phase::Streaming);
    assert_eq!(supervisor.failure(), None);
}

#[test]
fn always_on_keeps_dialling_while_the_caster_refuses() {
    let mut supervisor = started(Mode::AlwaysOn);
    for error in [
        ConnectError::ConnectFailed,
        ConnectError::HandshakeFailed,
        ConnectError::NonSuccessStatus,
    ] {
        assert_eq!(supervisor.step(Event::CasterRefused(error)), Directive::AwaitTick);
        assert_eq!(supervisor.phase(), Phase::Retrying);
        assert_eq!(supervisor.step(Event::Tick), Directive::ConnectCaster);
    }
    assert_eq!(supervisor.step(Event::CasterConnected), Directive::StartStreaming);
}

#[test]
fn single_shot_fails_when_the_relay_ends() {
    let mut supervisor = streaming(Mode::SingleShot);
    let failure = Failure::Relay(RelayEnd::SerialFailed);
    assert_eq!(supervisor.step(Event::RelayEnded(RelayEnd::SerialFailed)), Directive::Halt(failure));
    assert_eq!(supervisor.phase(), Phase::Failed);
    assert_eq!(supervisor.failure(), Some(failure));
    assert_eq!(failure.class(), ErrorClass::Io);
}

#[test]
fn single_shot_fails_when_the_caster_refuses() {
    let mut supervisor = started(Mode::SingleShot);
    let failure = Failure::Caster(ConnectError::NonSuccessStatus);
    assert_eq!(
        supervisor.step(Event::CasterRefused(ConnectError::NonSuccessStatus)),
        Directive::Halt(failure)
    );
    assert_eq!(supervisor.failure(), Some(failure));
    assert_eq!(failure.class(), ErrorClass::Protocol);
    assert_eq!(Failure::Caster(ConnectError::ConnectFailed).class(), ErrorClass::Connection);
}

#[test]
fn bad_configuration_is_never_retried() {
    let mut supervisor = started(Mode::AlwaysOn);
    assert_eq!(
        supervisor.step(Event::CasterRefused(ConnectError::InvalidScheme)),
        Directive::Halt(Failure::Caster(ConnectError::InvalidScheme))
    );
    assert_eq!(supervisor.phase(), Phase::Failed);
    assert!(!will_retry(Mode::AlwaysOn, ConnectError::MalformedUrl));
    assert!(will_retry(Mode::AlwaysOn, ConnectError::ConnectFailed));
    assert!(!will_retry(Mode::SingleShot, ConnectError::ConnectFailed));
}

#[test]
fn stop_tears_down_from_every_running_phase() {
    let mut idle = Supervisor::new(Mode::AlwaysOn, URL, "ttyUSB0", "x").unwrap();
    assert_eq!(idle.step(Event::Stop), Directive::Teardown);
    assert_eq!(idle.phase(), Phase::Stopped);
    let mut connecting = started(Mode::AlwaysOn);
    assert_eq!(connecting.step(Event::Stop), Directive::Teardown);
    let mut running = streaming(Mode::SingleShot);
    assert_eq!(running.step(Event::Stop), Directive::Teardown);
    assert_eq!(running.phase(), Phase::Stopped);
    assert_eq!(running.lifecycle(), None);
    let mut retrying = streaming(Mode::AlwaysOn);
    retrying.step(Event::RelayEnded(RelayEnd::CasterFailed));
    assert_eq!(retrying.step(Event::Stop), Directive::Teardown);
    assert_eq!(retrying.phase(), Phase::Stopped);
}

#[test]
fn failed_and_stopped_stay_as_they_are() {
    let events = [
        Event::SerialOpened,
        Event::SerialFailed,
        Event::CasterConnected,
        Event::CasterRefused(ConnectError::ConnectFailed),
        Event::RelayEnded(RelayEnd::CasterClosed),
        Event::Tick,
        Event::Stop,
    ];
    let mut stopped = streaming(Mode::AlwaysOn);
    stopped.step(Event::Stop);
    let mut failed = streaming(Mode::SingleShot);
    failed.step(Event::RelayEnded(RelayEnd::CasterClosed));
    for mut supervisor in [stopped, failed] {
        let before = supervisor.control();
        for event in events {
            assert_eq!(supervisor.step(event), Directive::Nothing);
            assert_eq!(supervisor.control(), before);
        }
    }
}

#[test]
fn events_out_of_place_change_nothing() {
    let mut idle = Supervisor::new(Mode::AlwaysOn, URL, "ttyUSB0", "x").unwrap();
    let before = idle.control();
    for event in [Event::SerialOpened, Event::CasterConnected, Event::Tick] {
        assert_eq!(idle.step(event), Directive::Nothing);
        assert_eq!(idle.control(), before);
    }
    let mut running = streaming(Mode::AlwaysOn);
    let before = running.control();
    for event in [Event::SerialFailed, Event::CasterConnected, Event::Tick] {
        assert_eq!(running.step(event), Directive::Nothing);
        assert_eq!(running.control(), before);
    }
}

#[test]
fn decide_is_the_rule_of_step() {
    let control = Control {
        mode: Mode::AlwaysOn,
        phase: Phase::Retrying,
        serial_open: true,
        receiving: true,
        failure: None,
    };
    assert_eq!(
        decide(control, Event::Tick),
        (Control { phase: Phase::ConnectingCaster, ..control }, Directive::ConnectCaster)
    );
    assert_eq!(decide(control, Event::CasterConnected), (control, Directive::Nothing));
}

#[test]
fn serial_link_runs_at_115200() {
    assert_eq!(BAUD_RATE, 115200);
    assert_eq!(
        SerialSettings::new("/dev/ttyACM0"),
        SerialSettings { device: "/dev/ttyACM0".to_string(), baud: 115200 }
    );
}

#[test]
fn device_path_joins_prefix_and_port() {
    assert_eq!(device_path("/dev/", "ttyUSB0"), "/dev/ttyUSB0");
    assert_eq!(device_path("", "COM3"), "COM3");
}

#[test]
fn short_name_is_the_last_part_of_the_path() {
    assert_eq!(port_short_name("/dev/ttyUSB0"), "ttyUSB0");
    assert_eq!(port_short_name("COM3"), "COM3");
    assert_eq!(port_short_name("/dev/serial/by-id/usb-u-blox"), "usb-u-blox");
    assert_eq!(port_short_name("/dev/"), "");
    assert_eq!(port_short_name(""), "");
    assert_eq!(port_short_name("/"), "");
    assert_eq!(port_short_name("/d\u{e9}v/t\u{e9}l\u{e9}"), "t\u{e9}l\u{e9}");
}
