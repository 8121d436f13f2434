//! Polling the fault registers.
//!
//! Both registers clear the bits that are written to them. The node writes
//! back one bit at a time and only a bit that it has just handled, so that a
//! bit it does not know stays set.

use crate::action::{Capabilities, Command, Event, Query, Report};
use crate::script::{service, service_links, Mode, Plan, Reaction, Script};
use vstd::prelude::*;

verus! {

/// A packet of an unknown type was received.
pub const UNKNOWN_PACKET_TYPE: u8 = 1;

/// A truncated packet was received.
pub const TRUNCATED_PACKET: u8 = 2;

/// Buffer space could not be had in time.
pub const BUFFER_SPACE_TIMEOUT: u8 = 4;

/// An event was written after its time had passed.
pub const WRITE_UNDERFLOW: u8 = 8;

/// An event was written to a full queue.
pub const WRITE_OVERFLOW: u8 = 16;

/// All the protocol faults that the node knows.
pub const PROTOCOL_FAULTS: u8 = 0x1f;

/// An event was out of sequence.
pub const SEQUENCE_ERROR: u8 = 1;

/// Two events collided.
pub const COLLISION: u8 = 2;

/// The channel was busy.
pub const BUSY: u8 = 4;

/// `bit` is set in `register`.
pub open spec fn pending(register: u8, bit: u8) -> bool {
    register & bit != 0
}

/// The commands for one protocol fault: nothing if its bit is clear, else
/// `reads` followed by the write that clears this bit alone.
pub open spec fn fault_commands(errors: u8, bit: u8, reads: Seq<Command>) -> Seq<Command> {
    if pending(errors, bit) {
        reads.push(Command::ClearProtocolError { mask: bit })
    } else {
        Seq::empty()
    }
}

/// What one poll of the protocol-error register asks for, given that it
/// read `errors`: for each known fault that is pending, in the order of the
/// bits, the reads that its report needs and then the write that clears it.
pub open spec fn protocol_error_commands(errors: u8) -> Seq<Command> {
    fault_commands(errors, UNKNOWN_PACKET_TYPE, seq![])
        + fault_commands(errors, TRUNCATED_PACKET, seq![])
        + fault_commands(errors, BUFFER_SPACE_TIMEOUT, seq![Command::ReadBufferSpaceTimeoutDest])
        + fault_commands(errors, WRITE_UNDERFLOW, seq![Command::ReadUnderflow])
        + fault_commands(errors, WRITE_OVERFLOW, seq![])
}

/// Appends what one poll of the protocol-error register asks for, given that
/// it read `errors`.
pub fn drtiosat_process_errors(errors: u8, commands: &mut Vec<Command>)
    ensures
        final(commands)@ == old(commands)@ + protocol_error_commands(errors),
{
    let ghost before = commands@;
    if errors & UNKNOWN_PACKET_TYPE != 0 {
        commands.push(Command::ClearProtocolError { mask: UNKNOWN_PACKET_TYPE });
    }
    let ghost one = fault_commands(errors, UNKNOWN_PACKET_TYPE, seq![]);
    assert(commands@ =~= before + one);
    if errors & TRUNCATED_PACKET != 0 {
        commands.push(Command::ClearProtocolError { mask: TRUNCATED_PACKET });
    }
    let ghost two = one + fault_commands(errors, TRUNCATED_PACKET, seq![]);
    assert(commands@ =~= before + two);
    if errors & BUFFER_SPACE_TIMEOUT != 0 {
        commands.push(Command::ReadBufferSpaceTimeoutDest);
        commands.push(Command::ClearProtocolError { mask: BUFFER_SPACE_TIMEOUT });
    }
    let ghost three = two + fault_commands(
        errors,
        BUFFER_SPACE_TIMEOUT,
        seq![Command::ReadBufferSpaceTimeoutDest],
    );
    assert(commands@ =~= before + three);
    if errors & WRITE_UNDERFLOW != 0 {
        commands.push(Command::ReadUnderflow);
        commands.push(Command::ClearProtocolError { mask: WRITE_UNDERFLOW });
    }
    let ghost four = three + fault_commands(errors, WRITE_UNDERFLOW, seq![Command::ReadUnderflow]);
    assert(commands@ =~= before + four);
    if errors & WRITE_OVERFLOW != 0 {
        commands.push(Command::ClearProtocolError { mask: WRITE_OVERFLOW });
    }
    assert(commands@ =~= before + protocol_error_commands(errors));
}

/// What the protocol-error register leads to: the pending faults are
/// handled; then an active node looks for a request, and any other services
/// its links and reads the uplink flag again.
pub open spec fn fault_reaction(caps: Capabilities, mode: Mode, event: Event) -> Reaction {
    let commands = protocol_error_commands(event.byte());
    if mode is Active {
        Reaction { mode, script: Script { commands, query: Query::ReceiveAux }, report: None }
    } else {
        Reaction {
            mode,
            script: Script { commands: commands + service(caps), query: Query::LinkUp },
            report: None,
        }
    }
}

/// Takes what the protocol-error register read as and plans what follows.
pub fn poll_faults(caps: &Capabilities, mode: Mode, event: Event) -> (plan: Plan)
    ensures
        plan@ == fault_reaction(*caps, mode, event),
{
    let mut commands: Vec<Command> = Vec::new();
    drtiosat_process_errors(event.as_byte(), &mut commands);
    assert(commands@ =~= protocol_error_commands(event.byte()));
    let query = match mode {
        Mode::Active => Query::ReceiveAux,
        _ => {
            service_links(caps, &mut commands);
            Query::LinkUp
        },
    };
    Plan { mode, commands, query, report: None }
}

/// The report that goes with a fault command once it has been carried out.
/// A fault that needs no read is reported with the write that clears it; the
/// others with the read that fetched their details.
pub open spec fn fault_report(command: Command, event: Event) -> Option<Report> {
    match command {
        Command::ClearProtocolError { mask } => if mask == UNKNOWN_PACKET_TYPE {
            Some(Report::UnknownPacketType)
        } else if mask == TRUNCATED_PACKET {
            Some(Report::TruncatedPacket)
        } else if mask == WRITE_OVERFLOW {
            Some(Report::WriteOverflow)
        } else {
            None
        },
        Command::ReadBufferSpaceTimeoutDest => Some(
            Report::BufferSpaceTimeout { destination: event.byte() },
        ),
        Command::ReadUnderflow => Some(underflow_report(event)),
        _ => None,
    }
}

/// The report of a write underflow. The slack is how far the event's
/// timestamp lay ahead of the counter; it is negative for an event that came
/// too late.
pub open spec fn underflow_report(event: Event) -> Report {
    match event {
        Event::Underflow { channel, timestamp, counter } => Report::WriteUnderflow {
            channel,
            timestamp,
            counter,
            slack: (timestamp - counter) as i128,
        },
        _ => Report::WriteUnderflow { channel: 0, timestamp: 0, counter: 0, slack: 0 },
    }
}

/// The report that goes with a fault command once it has been carried out.
pub fn report_fault(command: &Command, event: &Event) -> (report: Option<Report>)
    ensures
        report == fault_report(*command, *event),
{
    match command {
        Command::ClearProtocolError { mask } => {
            if *mask == UNKNOWN_PACKET_TYPE {
                Some(Report::UnknownPacketType)
            } else if *mask == TRUNCATED_PACKET {
                Some(Report::TruncatedPacket)
            } else if *mask == WRITE_OVERFLOW {
                Some(Report::WriteOverflow)
            } else {
                None
            }
        },
        Command::ReadBufferSpaceTimeoutDest => Some(
            Report::BufferSpaceTimeout { destination: event.as_byte() },
        ),
        Command::ReadUnderflow => {
            match event {
                Event::Underflow { channel, timestamp, counter } => Some(
                    Report::WriteUnderflow {
                        channel: *channel,
                        timestamp: *timestamp,
                        counter: *counter,
                        slack: *timestamp as i128 - *counter as i128,
                    },
                ),
                _ => Some(
                    Report::WriteUnderflow { channel: 0, timestamp: 0, counter: 0, slack: 0 },
                ),
            }
        },
        _ => None,
    }
}

/// What a register that clears on write holds after `mask` was written.
pub open spec fn after_clear(register: u8, mask: u8) -> u8 {
    register & !mask
}

/// What the protocol-error register holds after `commands`, if it held
/// `register` before and no new fault came in.
pub open spec fn protocol_errors_after(register: u8, commands: Seq<Command>) -> u8
    decreases commands.len(),
{
    if commands.len() == 0 {
        register
    } else {
        let before = protocol_errors_after(register, commands.drop_last());
        match commands.last() {
            Command::ClearProtocolError { mask } => after_clear(before, mask),
            _ => before,
        }
    }
}

/// `bit` is one of the protocol faults that the node knows.
pub open spec fn known_fault(bit: u8) -> bool {
    ||| bit == UNKNOWN_PACKET_TYPE
    ||| bit == TRUNCATED_PACKET
    ||| bit == BUFFER_SPACE_TIMEOUT
    ||| bit == WRITE_UNDERFLOW
    ||| bit == WRITE_OVERFLOW
}

/// Commands after commands: the register goes through both in turn.
pub proof fn lemma_protocol_errors_after_concat(register: u8, a: Seq<Command>, b: Seq<Command>)
    ensures
        protocol_errors_after(register, a + b) == protocol_errors_after(
            protocol_errors_after(register, a),
            b,
        ),
    decreases b.len(),
{
    if b.len() == 0 {
        assert(a + b =~= a);
    } else {
        assert((a + b).drop_last() =~= a + b.drop_last());
        assert((a + b).last() == b.last());
        lemma_protocol_errors_after_concat(register, a, b.drop_last());
    }
}

/// Commands that write nothing to the register leave it as it was.
proof fn lemma_reads_clear_nothing(register: u8, reads: Seq<Command>)
    requires
        forall|i: int| 0 <= i < reads.len() ==> !(#[trigger] reads[i] is ClearProtocolError),
    ensures
        protocol_errors_after(register, reads) == register,
    decreases reads.len(),
{
    if reads.len() > 0 {
        assert(reads.last() == reads[reads.len() - 1]);
        lemma_reads_clear_nothing(register, reads.drop_last());
    }
}

/// The commands for one fault clear its bit where it was pending and
/// nothing else.
proof fn lemma_one_fault(register: u8, errors: u8, bit: u8, reads: Seq<Command>)
    requires
        forall|i: int| 0 <= i < reads.len() ==> !(#[trigger] reads[i] is ClearProtocolError),
    ensures
        protocol_errors_after(register, fault_commands(errors, bit, reads)) == if pending(
            errors,
            bit,
        ) {
            after_clear(register, bit)
        } else {
            register
        },
{
    if pending(errors, bit) {
        let commands = reads.push(Command::ClearProtocolError { mask: bit });
        assert(commands.drop_last() =~= reads);
        assert(commands.last() == (Command::ClearProtocolError { mask: bit }));
        lemma_reads_clear_nothing(register, reads);
    } else {
        assert(fault_commands(errors, bit, reads).len() == 0);
    }
}

/// A poll clears, of whatever the register holds by then, exactly the known
/// faults that it read as pending. A bit that it does not know, and a bit
/// that was set after the register was read, stay set.
pub proof fn lemma_poll_clears_only_what_it_read(register: u8, errors: u8)
    ensures
        protocol_errors_after(register, protocol_error_commands(errors)) == register & !(errors
            & PROTOCOL_FAULTS),
        protocol_errors_after(errors, protocol_error_commands(errors)) == errors
            & !PROTOCOL_FAULTS,
{
    lemma_poll_from(register, errors);
    lemma_poll_from(errors, errors);
    assert(errors & !(errors & 0x1fu8) == errors & !0x1fu8) by (bit_vector);
}

proof fn lemma_poll_from(register: u8, errors: u8)
    ensures
        protocol_errors_after(register, protocol_error_commands(errors)) == register & !(errors
            & PROTOCOL_FAULTS),
{
    let f1 = fault_commands(errors, UNKNOWN_PACKET_TYPE, seq![]);
    let f2 = fault_commands(errors, TRUNCATED_PACKET, seq![]);
    let f3 = fault_commands(
        errors,
        BUFFER_SPACE_TIMEOUT,
        seq![Command::ReadBufferSpaceTimeoutDest],
    );
    let f4 = fault_commands(errors, WRITE_UNDERFLOW, seq![Command::ReadUnderflow]);
    let f5 = fault_commands(errors, WRITE_OVERFLOW, seq![]);
    let r1 = protocol_errors_after(register, f1);
    let r2 = protocol_errors_after(r1, f2);
    let r3 = protocol_errors_after(r2, f3);
    let r4 = protocol_errors_after(r3, f4);
    let r5 = protocol_errors_after(r4, f5);
    lemma_one_fault(register, errors, UNKNOWN_PACKET_TYPE, seq![]);
    lemma_one_fault(r1, errors, TRUNCATED_PACKET, seq![]);
    lemma_one_fault(r2, errors, BUFFER_SPACE_TIMEOUT, seq![Command::ReadBufferSpaceTimeoutDest]);
    lemma_one_fault(r3, errors, WRITE_UNDERFLOW, seq![Command::ReadUnderflow]);
    lemma_one_fault(r4, errors, WRITE_OVERFLOW, seq![]);
    lemma_protocol_errors_after_concat(register, f1, f2);
    lemma_protocol_errors_after_concat(register, f1 + f2, f3);
    lemma_protocol_errors_after_concat(register, f1 + f2 + f3, f4);
    lemma_protocol_errors_after_concat(register, f1 + f2 + f3 + f4, f5);
    assert(r5 == register & !(errors & 0x1fu8)) by (bit_vector)
        requires
            r1 == (if errors & 1u8 != 0 { register & !1u8 } else { register }),
            r2 == (if errors & 2u8 != 0 { r1 & !2u8 } else { r1 }),
            r3 == (if errors & 4u8 != 0 { r2 & !4u8 } else { r2 }),
            r4 == (if errors & 8u8 != 0 { r3 & !8u8 } else { r3 }),
            r5 == (if errors & 16u8 != 0 { r4 & !16u8 } else { r4 }),
    ;
}

/// A poll writes no bit but a known fault that it read as pending, and each
/// such write is reported: by itself, or by the read that stands just before
/// it.
pub proof fn lemma_poll_reports_what_it_clears(errors: u8, place: int, event: Event)
    requires
        0 <= place < protocol_error_commands(errors).len(),
        protocol_error_commands(errors)[place] is ClearProtocolError,
    ensures
        ({
            let commands = protocol_error_commands(errors);
            let mask = commands[place]->ClearProtocolError_mask;
            &&& known_fault(mask)
            &&& pending(errors, mask)
            &&& fault_report(commands[place], event) is Some || (place > 0 && fault_report(
                commands[place - 1],
                event,
            ) is Some)
        }),
{
}

} // verus!
