use uart_term::baud::BaudRate;
use uart_term::inbound::{inbound_step, InboundNext, ReadOutcome, READ_CAPACITY};
use uart_term::outbound::{outbound_step, OutboundAction};
use uart_term::session::{inbound_event, outbound_event, Directive, Session, SessionEvent};
use uart_term::settings::{setup_commands, LineSettings, SetupCommand};
use uart_term::startup::{plan_startup, StartupPlan};

/// What a run of the program against a scripted device and operator left
/// behind.
#[derive(Debug, Default)]
struct Run {
    exit_status: i32,
    standard_error: Vec<String>,
    console: Vec<u8>,
    opened: Vec<String>,
    fetched: usize,
    loaded: Vec<(LineSettings, u32)>,
    applied: Vec<i32>,
    flushed: Vec<i32>,
    device_received: Vec<u8>,
    device_writes: usize,
}

/// One read of the scripted device: bytes, or a failure.
enum DeviceRead {
    Bytes(Vec<u8>),
    Failure,
}

/// Lets the inbound path read the device until the script is used up and an
/// idle read has been seen, or until the path has something to report.
fn pump_inbound(
    run: &mut Run,
    script: &mut Vec<DeviceRead>,
    stop_requested: bool,
) -> Option<SessionEvent> {
    loop {
        let mut buffer = [0u8; READ_CAPACITY];
        let (outcome, last) = if script.is_empty() {
            (ReadOutcome::Received(0), true)
        } else {
            match script.remove(0) {
                DeviceRead::Bytes(bytes) => {
                    buffer[..bytes.len()].copy_from_slice(&bytes);
                    (ReadOutcome::Received(bytes.len()), false)
                }
                DeviceRead::Failure => (ReadOutcome::Failed, false),
            }
        };
        let step = inbound_step(&buffer, outcome, stop_requested);
        run.console.extend_from_slice(&step.output);
        let event = inbound_event(step.next, true);
        if event.is_some() || last {
            assert_eq!(event.is_none(), matches!(step.next, InboundNext::Pause { millis: 10 }));
            return event;
        }
    }
}

/// Runs the program on `args` with a device that answers as `script` says and
/// an operator who types `typed`.
fn run_program(args: &[&str], mut script: Vec<DeviceRead>, typed: &str) -> Run {
    let args: Vec<String> = args.iter().map(|word| word.to_string()).collect();
    let mut lines = typed.split_inclusive('\n');
    let mut run = Run::default();
    let mut session = Session::new();
    let mut inbound: Option<SessionEvent> = None;
    loop {
        match session.directive() {
            Directive::StartUp => match plan_startup(&args) {
                StartupPlan::Open { device_path, settings } => {
                    run.opened.push(device_path);
                    for command in setup_commands(settings) {
                        match command {
                            SetupCommand::FetchAttributes => run.fetched += 1,
                            SetupCommand::LoadSettings { settings, speed_code } => {
                                run.loaded.push((settings, speed_code))
                            }
                            SetupCommand::ApplyAttributes { when } => run.applied.push(when),
                            SetupCommand::DiscardQueues { which } => run.flushed.push(which),
                        }
                    }
                    session = session.advance(SessionEvent::StartupSucceeded);
                }
                StartupPlan::Refuse { message, status } => {
                    run.standard_error.push(message);
                    session = session.advance(SessionEvent::StartupFailed);
                    assert_eq!(session.exit_status(), Some(status));
                }
            },
            Directive::Relay => {
                assert!(session.data_flows());
                if inbound.is_none() {
                    inbound = pump_inbound(&mut run, &mut script, false);
                }
                let action = outbound_step(lines.next().unwrap_or(""));
                if let OutboundAction::Send { payload, acknowledgment } = &action {
                    run.device_received.extend_from_slice(payload);
                    run.device_writes += 1;
                    run.console.extend_from_slice(acknowledgment.as_bytes());
                    run.console.push(b'\n');
                }
                if let Some(event) = outbound_event(&action, true) {
                    session = session.advance(event);
                }
            }
            Directive::AwaitInbound { limit_millis } => {
                assert_eq!(limit_millis, 1000);
                if inbound.is_none() {
                    inbound = pump_inbound(&mut run, &mut script, true);
                }
                session = session.advance(inbound.unwrap_or(SessionEvent::InboundAbandoned));
            }
            Directive::Exit { status } => {
                run.exit_status = status;
                return run;
            }
        }
    }
}

fn contains(haystack: &[u8], needle: &[u8]) -> bool {
    haystack.windows(needle.len()).any(|window| window == needle)
}

#[test]
fn scenario_device_says_ok_at_115200() {
    let script = vec![DeviceRead::Bytes(b"OK\n".to_vec())];
    let run = run_program(&["uart", "/dev/ttyFAKE", "115200"], script, "q!\n");
    assert!(contains(&run.console, b"OK\n"));
    assert_eq!(run.opened, ["/dev/ttyFAKE"]);
    assert_eq!(run.fetched, 1);
    assert_eq!(run.loaded.len(), 1);
    let (settings, speed_code) = run.loaded[0];
    assert_eq!(run.applied, [termios::TCSANOW]);
    assert_eq!(run.flushed, [termios::TCIOFLUSH]);
    assert_eq!(settings.rate, BaudRate::B115200);
    assert_eq!(settings.rate.bits_per_second(), 115200);
    assert_eq!(speed_code, termios::os::linux::B115200);
    assert_eq!(settings.control_modes & termios::CSIZE, termios::CS8);
    assert_eq!(settings.control_modes & termios::PARENB, 0);
    assert_eq!(settings.local_modes & (termios::ICANON | termios::ECHO | termios::ISIG), 0);
    assert_eq!(settings.output_modes & termios::OPOST, 0);
    assert!(run.standard_error.is_empty());
    assert_eq!(run.exit_status, 0);
}

#[test]
fn scenario_unsupported_rate_4800() {
    let script = vec![DeviceRead::Bytes(b"OK\n".to_vec())];
    let run = run_program(&["uart", "/dev/ttyFAKE", "4800"], script, "AT\nq!\n");
    assert_eq!(run.exit_status, 1);
    assert!(run.opened.is_empty());
    assert_eq!(run.fetched, 0);
    assert!(run.loaded.is_empty());
    assert!(run.applied.is_empty());
    assert!(run.flushed.is_empty());
    assert_eq!(run.standard_error.len(), 1);
    assert!(run.standard_error[0].contains("Unsupported baudrate"));
    assert_eq!(run.standard_error[0], "Unsupported baudrate: 4800");
    assert!(run.console.is_empty());
    assert!(run.device_received.is_empty());
    assert_eq!(run.device_writes, 0);
}

#[test]
fn scenario_operator_types_at() {
    let run = run_program(&["uart", "/dev/ttyFAKE", "9600"], Vec::new(), "AT\nq!\n");
    assert_eq!(run.device_received, b"AT");
    assert_eq!(run.device_received.len(), 2);
    assert_eq!(run.device_writes, 1);
    assert!(contains(&run.console, b"Sent command: AT"));
    assert_eq!(run.console, b"Sent command: AT\n");
    assert_eq!(run.exit_status, 0);
}

#[test]
fn scenario_operator_types_quit() {
    let run = run_program(&["uart", "/dev/ttyFAKE", "9600"], Vec::new(), "q!\n");
    assert_eq!(run.exit_status, 0);
    assert!(run.device_received.is_empty());
    assert_eq!(run.device_writes, 0);
    assert!(run.console.is_empty());
    assert!(run.standard_error.is_empty());
}

#[test]
fn scenario_missing_arguments() {
    for args in [&["uart"][..], &["uart", "/dev/ttyFAKE"][..]] {
        let run = run_program(args, Vec::new(), "q!\n");
        assert_eq!(run.exit_status, 1);
        assert!(run.opened.is_empty());
        assert_eq!(run.standard_error, ["Usage: uart <device_path> <baudrate>"]);
    }
}

#[test]
fn scenario_lines_after_quit_are_not_sent() {
    let run = run_program(&["uart", "/dev/ttyFAKE", "57600"], Vec::new(), "one\nq!\ntwo\n");
    assert_eq!(run.device_received, b"one");
    assert_eq!(run.console, b"Sent command: one\n");
    assert_eq!(run.exit_status, 0);
}

#[test]
fn scenario_end_of_input_is_a_failure() {
    let run = run_program(&["uart", "/dev/ttyFAKE", "57600"], Vec::new(), "one\ntwo\n");
    assert_eq!(run.device_received, b"onetwo");
    assert_eq!(run.device_writes, 2);
    assert_eq!(run.exit_status, 1);
}

#[test]
fn scenario_empty_line_is_a_zero_byte_write() {
    let run = run_program(&["uart", "/dev/ttyFAKE", "38400"], Vec::new(), "\nq!\n");
    assert!(run.device_received.is_empty());
    assert_eq!(run.device_writes, 1);
    assert_eq!(run.console, b"Sent command: \n");
    assert_eq!(run.exit_status, 0);
}

#[test]
fn scenario_device_read_error_fails_the_session() {
    let script = vec![DeviceRead::Bytes(b"boot".to_vec()), DeviceRead::Failure];
    let run = run_program(&["uart", "/dev/ttyFAKE", "9600"], script, "AT\nq!\n");
    assert!(contains(&run.console, b"boot"));
    assert_eq!(run.device_received, b"AT");
    assert_eq!(run.exit_status, 1);
}

#[test]
fn scenario_device_output_keeps_its_order() {
    let script = vec![
        DeviceRead::Bytes(b"first ".to_vec()),
        DeviceRead::Bytes(Vec::new()),
        DeviceRead::Bytes(b"second ".to_vec()),
        DeviceRead::Bytes(Vec::new()),
        DeviceRead::Bytes(Vec::new()),
        DeviceRead::Bytes(b"third".to_vec()),
    ];
    let run = run_program(&["uart", "/dev/ttyFAKE", "9600"], script, "q!\n");
    assert_eq!(run.console, b"first second third");
    assert_eq!(run.exit_status, 0);
}
