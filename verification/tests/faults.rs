use satman::action::{Capabilities, Command, Event, LinkOrder, Query, Report};
use satman::faults::{
    drtiosat_process_errors, poll_faults, report_fault, BUFFER_SPACE_TIMEOUT, PROTOCOL_FAULTS,
    TRUNCATED_PACKET, UNKNOWN_PACKET_TYPE, WRITE_OVERFLOW, WRITE_UNDERFLOW,
};
use satman::script::Mode;

fn caps(links: u8) -> Capabilities {
    Capabilities {
        routing: true,
        links,
        monitoring: false,
        converters: false,
        slave_fpga: false,
        serwb: false,
        synthesizer: false,
        attenuators: false,
    }
}

fn poll(errors: u8) -> Vec<Command> {
    let mut commands = Vec::new();
    drtiosat_process_errors(errors, &mut commands);
    commands
}

fn clear(mask: u8) -> Command {
    Command::ClearProtocolError { mask }
}

/// The register after the commands, on hardware that clears what is written.
fn register_after(mut register: u8, commands: &[Command]) -> u8 {
    for command in commands {
        if let Command::ClearProtocolError { mask } = command {
            register &= !mask;
        }
    }
    register
}

#[test]
fn no_fault_asks_for_nothing() {
    assert_eq!(poll(0), vec![]);
}

#[test]
fn each_fault_alone() {
    assert_eq!(poll(1), vec![clear(1)]);
    assert_eq!(poll(2), vec![clear(2)]);
    assert_eq!(poll(4), vec![Command::ReadBufferSpaceTimeoutDest, clear(4)]);
    assert_eq!(poll(8), vec![Command::ReadUnderflow, clear(8)]);
    assert_eq!(poll(16), vec![clear(16)]);
}

#[test]
fn all_faults_are_handled_in_one_poll_in_order() {
    assert_eq!(
        poll(0x1f),
        vec![
            clear(1),
            clear(2),
            Command::ReadBufferSpaceTimeoutDest,
            clear(4),
            Command::ReadUnderflow,
            clear(8),
            clear(16),
        ]
    );
}

#[test]
fn unknown_bits_ask_for_nothing() {
    assert_eq!(poll(0x20), vec![]);
    assert_eq!(poll(0x40), vec![]);
    assert_eq!(poll(0x80), vec![]);
    assert_eq!(poll(0xe0), vec![]);
    assert_eq!(poll(0xe0 | 2), vec![clear(2)]);
}

#[test]
fn poll_appends_to_what_is_there() {
    let mut commands = vec![Command::ResetAux];
    drtiosat_process_errors(WRITE_OVERFLOW | UNKNOWN_PACKET_TYPE, &mut commands);
    assert_eq!(commands, vec![Command::ResetAux, clear(1), clear(16)]);
}

#[test]
fn poll_clears_only_what_it_recognized() {
    for errors in 0..=255u8 {
        let commands = poll(errors);
        assert_eq!(register_after(errors, &commands), errors & !PROTOCOL_FAULTS);
        assert_eq!(register_after(errors, &commands) & 0xe0, errors & 0xe0);
        for command in &commands {
            if let Command::ClearProtocolError { mask } = command {
                assert_eq!(mask.count_ones(), 1);
                assert_ne!(mask & PROTOCOL_FAULTS, 0);
                assert_ne!(errors & mask, 0);
            }
        }
    }
}

#[test]
fn poll_keeps_a_fault_that_came_in_after_the_read() {
    let read = TRUNCATED_PACKET;
    let by_then = TRUNCATED_PACKET | WRITE_UNDERFLOW | 0x40;
    assert_eq!(register_after(by_then, &poll(read)), WRITE_UNDERFLOW | 0x40);
}

#[test]
fn every_clear_is_reported() {
    for errors in 0..=255u8 {
        let commands = poll(errors);
        for (place, command) in commands.iter().enumerate() {
            if let Command::ClearProtocolError { .. } = command {
                let by_itself = report_fault(command, &Event::Done).is_some();
                let by_the_read =
                    place > 0 && report_fault(&commands[place - 1], &Event::Done).is_some();
                assert!(by_itself || by_the_read);
            }
        }
    }
}

#[test]
fn reports_of_faults_without_details() {
    assert_eq!(report_fault(&clear(UNKNOWN_PACKET_TYPE), &Event::Done), Some(Report::UnknownPacketType));
    assert_eq!(report_fault(&clear(TRUNCATED_PACKET), &Event::Done), Some(Report::TruncatedPacket));
    assert_eq!(report_fault(&clear(WRITE_OVERFLOW), &Event::Done), Some(Report::WriteOverflow));
    assert_eq!(report_fault(&clear(BUFFER_SPACE_TIMEOUT), &Event::Done), None);
    assert_eq!(report_fault(&clear(WRITE_UNDERFLOW), &Event::Done), None);
    assert_eq!(report_fault(&clear(3), &Event::Done), None);
    assert_eq!(report_fault(&Command::ResetAux, &Event::Failed), None);
    assert_eq!(report_fault(&Command::ClearRtioError { mask: 1 }, &Event::Done), None);
}

#[test]
fn buffer_space_timeout_reports_the_destination() {
    assert_eq!(
        report_fault(&Command::ReadBufferSpaceTimeoutDest, &Event::Byte { value: 0x2a }),
        Some(Report::BufferSpaceTimeout { destination: 0x2a })
    );
    assert_eq!(
        report_fault(&Command::ReadBufferSpaceTimeoutDest, &Event::Done),
        Some(Report::BufferSpaceTimeout { destination: 0 })
    );
}

#[test]
fn underflow_reports_the_slack() {
    assert_eq!(
        report_fault(
            &Command::ReadUnderflow,
            &Event::Underflow { channel: 7, timestamp: 1000, counter: 1250 }
        ),
        Some(Report::WriteUnderflow { channel: 7, timestamp: 1000, counter: 1250, slack: -250 })
    );
    assert_eq!(
        report_fault(
            &Command::ReadUnderflow,
            &Event::Underflow { channel: 1, timestamp: 5000, counter: 8 }
        ),
        Some(Report::WriteUnderflow { channel: 1, timestamp: 5000, counter: 8, slack: 4992 })
    );
}

#[test]
fn underflow_slack_does_not_wrap() {
    assert_eq!(
        report_fault(
            &Command::ReadUnderflow,
            &Event::Underflow { channel: 0, timestamp: i64::MIN, counter: i64::MAX }
        ),
        Some(Report::WriteUnderflow {
            channel: 0,
            timestamp: i64::MIN,
            counter: i64::MAX,
            slack: i64::MIN as i128 - i64::MAX as i128,
        })
    );
    assert_eq!(
        report_fault(
            &Command::ReadUnderflow,
            &Event::Underflow { channel: 0, timestamp: i64::MAX, counter: i64::MIN }
        ),
        Some(Report::WriteUnderflow {
            channel: 0,
            timestamp: i64::MAX,
            counter: i64::MIN,
            slack: 18446744073709551615,
        })
    );
}

#[test]
fn underflow_without_details_reports_zeros() {
    assert_eq!(
        report_fault(&Command::ReadUnderflow, &Event::Failed),
        Some(Report::WriteUnderflow { channel: 0, timestamp: 0, counter: 0, slack: 0 })
    );
}

#[test]
fn active_node_looks_for_a_request_after_the_poll() {
    let plan = poll_faults(&caps(2), Mode::Active, Event::Byte { value: 0x12 });
    assert_eq!(plan.mode, Mode::Active);
    assert_eq!(plan.commands, vec![clear(2), clear(16)]);
    assert_eq!(plan.query, Query::ReceiveAux);
    assert_eq!(plan.report, None);
}

#[test]
fn node_without_uplink_services_its_links_after_the_poll() {
    let plan = poll_faults(&caps(2), Mode::Down, Event::Byte { value: 4 });
    assert_eq!(plan.mode, Mode::Down);
    assert_eq!(
        plan.commands,
        vec![
            Command::ReadBufferSpaceTimeoutDest,
            clear(4),
            Command::Link { link: 0, order: LinkOrder::Service },
            Command::Link { link: 1, order: LinkOrder::Service },
        ]
    );
    assert_eq!(plan.query, Query::LinkUp);
}

#[test]
fn poll_that_read_nothing_finds_no_fault() {
    let plan = poll_faults(&caps(0), Mode::Active, Event::Failed);
    assert_eq!(plan.commands, vec![]);
    assert_eq!(plan.query, Query::ReceiveAux);
}
