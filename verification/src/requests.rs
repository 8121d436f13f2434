//! The requests of the auxiliary channel.
//!
//! A request is handled in one go where the node can answer from what it
//! knows. Where the answer needs the hardware, handling ends in a query, and
//! the reply is made from what the query brought back.

use crate::action::{Capabilities, Command, Event, LinkOrder, Query, Report};
use crate::fanout::{fan_out, fan_out_to};
use crate::faults::{pending, BUSY, COLLISION, SEQUENCE_ERROR};
use crate::packet::Packet;
use crate::routing::{hop_at, HopPath, RoutingState, RoutingView, DEST_COUNT, MAX_RANK};
use crate::script::{finish_tick, rest_of_tick, Mode, Next, Plan, Reaction};
use vstd::prelude::*;

verus! {

/// What a request leads to, up to its reply or to the query that the reply
/// waits for.
#[verifier::ext_equal]
pub struct Handling {
    /// Routing table and rank after the request.
    pub routing: RoutingView,
    /// What the hardware is told, in order.
    pub commands: Seq<Command>,
    pub next: Next,
    pub report: Option<Report>,
}

/// What a query of a request leads to.
#[verifier::ext_equal]
pub struct Answer {
    pub commands: Seq<Command>,
    pub next: Next,
}

/// One interconnect entry for each destination: the hop that a node of this
/// rank takes towards it.
pub open spec fn interconnect(routing: RoutingView) -> Seq<Command> {
    Seq::new(
        DEST_COUNT as nat,
        |d: int| Command::ProgramHop { destination: d as u8, hop: routing.hop(d as u8) },
    )
}

/// A pulse on one of the two local reset lines: the physical layer's alone,
/// or that of the whole timing domain.
pub open spec fn reset_pulse(phy: bool) -> Seq<Command> {
    if phy {
        seq![
            Command::SetResetPhy { asserted: true },
            Command::SetResetPhy { asserted: false },
        ]
    } else {
        seq![Command::SetReset { asserted: true }, Command::SetReset { asserted: false }]
    }
}

/// The successor of this node's rank, handed to every downstream link as
/// its own.
pub open spec fn rank_fan_out(caps: Capabilities, routing: RoutingView) -> Seq<Command> {
    fan_out(caps.link_count(), LinkOrder::SetRank { rank: routing.downstream_rank() })
}

/// A request that changes nothing and is answered at once.
pub open spec fn answered(routing: RoutingView, packet: Packet) -> Handling {
    Handling { routing, commands: Seq::empty(), next: Next::Reply { packet }, report: None }
}

/// A request whose reply waits for `query`.
pub open spec fn deferred(routing: RoutingView, query: Query) -> Handling {
    Handling { routing, commands: Seq::empty(), next: Next::Ask { query }, report: None }
}

/// What the request `packet` leads to on a node with these capabilities and
/// this routing state.
///
/// Routing requests are acknowledged without effect where the build has no
/// routing, and so is a rank that has no successor. Monitor and injection
/// requests read as zero and write nothing where the build has no such
/// hardware. A packet that is no request is reported and gets no reply.
pub open spec fn handle(caps: Capabilities, routing: RoutingView, packet: Packet) -> Handling {
    match packet {
        Packet::EchoRequest => answered(routing, Packet::EchoReply),
        Packet::ResetRequest { phy } => Handling {
            routing,
            commands: reset_pulse(phy) + fan_out(caps.link_count(), LinkOrder::Reset { phy }),
            next: Next::Reply { packet: Packet::ResetAck },
            report: Some(Report::ResettingRtio),
        },
        Packet::RtioErrorRequest => deferred(routing, Query::RtioErrors),
        Packet::RoutingSetPath { destination, hops } => if caps.routing {
            let routing = routing.with_path(destination as int, hops);
            Handling {
                routing,
                commands: fan_out(caps.link_count(), LinkOrder::SetPath { destination, hops })
                    + rank_fan_out(caps, routing),
                next: Next::Reply { packet: Packet::RoutingAck },
                report: None,
            }
        } else {
            answered(routing, Packet::RoutingAck)
        },
        Packet::RoutingSetRank { rank } => if !caps.routing {
            answered(routing, Packet::RoutingAck)
        } else if rank <= MAX_RANK {
            let routing = routing.with_rank(rank);
            Handling {
                routing,
                commands: interconnect(routing) + rank_fan_out(caps, routing),
                next: Next::Reply { packet: Packet::RoutingAck },
                report: Some(Report::RankChanged { rank }),
            }
        } else {
            Handling {
                routing,
                commands: Seq::empty(),
                next: Next::Reply { packet: Packet::RoutingAck },
                report: Some(Report::RankRejected { rank }),
            }
        },
        Packet::MonitorRequest { channel, probe } => if caps.monitoring {
            deferred(routing, Query::Monitor { channel, probe })
        } else {
            answered(routing, Packet::MonitorReply { value: 0 })
        },
        Packet::InjectionRequest { channel, overrd, value } => Handling {
            routing,
            commands: if caps.monitoring {
                seq![Command::SetInjection { channel, overrd, value }]
            } else {
                Seq::empty()
            },
            next: Next::Silent,
            report: None,
        },
        Packet::InjectionStatusRequest { channel, overrd } => if caps.monitoring {
            deferred(routing, Query::InjectionStatus { channel, overrd })
        } else {
            answered(routing, Packet::InjectionStatusReply { value: 0 })
        },
        Packet::I2cStartRequest { busno } => deferred(routing, Query::I2cStart { busno }),
        Packet::I2cRestartRequest { busno } => deferred(routing, Query::I2cRestart { busno }),
        Packet::I2cStopRequest { busno } => deferred(routing, Query::I2cStop { busno }),
        Packet::I2cWriteRequest { busno, data } => deferred(
            routing,
            Query::I2cWrite { busno, data },
        ),
        Packet::I2cReadRequest { busno, ack } => deferred(routing, Query::I2cRead { busno, ack }),
        Packet::SpiSetConfigRequest { busno, flags, length, div, cs } => deferred(
            routing,
            Query::SpiSetConfig { busno, flags, length, div, cs },
        ),
        Packet::SpiWriteRequest { busno, data } => deferred(
            routing,
            Query::SpiWrite { busno, data },
        ),
        Packet::SpiReadRequest { busno } => deferred(routing, Query::SpiRead { busno }),
        _ => Handling {
            routing,
            commands: Seq::empty(),
            next: Next::Silent,
            report: Some(Report::UnexpectedPacket),
        },
    }
}

/// The reply `packet`, with nothing more asked of the hardware.
pub open spec fn reply(packet: Packet) -> Answer {
    Answer { commands: Seq::empty(), next: Next::Reply { packet }, }
}

/// What the answer `event` to the query `query` of a request leads to.
///
/// Of the RTIO errors only the first that is pending is reported, sequence
/// error before collision before busy channel, and only its bit is cleared.
/// A bus transaction that failed is answered as failed, with the
/// acknowledge bit clear and with `0xff` or zero in place of what was read.
pub open spec fn answer(query: Query, event: Event) -> Answer {
    match query {
        Query::RtioErrors => {
            let errors = event.byte();
            if pending(errors, SEQUENCE_ERROR) {
                Answer {
                    commands: Seq::empty(),
                    next: Next::Ask { query: Query::SequenceErrorChannel },
                }
            } else if pending(errors, COLLISION) {
                Answer {
                    commands: Seq::empty(),
                    next: Next::Ask { query: Query::CollisionChannel },
                }
            } else if pending(errors, BUSY) {
                Answer { commands: Seq::empty(), next: Next::Ask { query: Query::BusyChannel } }
            } else {
                reply(Packet::RtioNoErrorReply)
            }
        },
        Query::SequenceErrorChannel => Answer {
            commands: seq![Command::ClearRtioError { mask: SEQUENCE_ERROR }],
            next: Next::Reply {
                packet: Packet::RtioErrorSequenceErrorReply { channel: event.half() },
            },
        },
        Query::CollisionChannel => Answer {
            commands: seq![Command::ClearRtioError { mask: COLLISION }],
            next: Next::Reply {
                packet: Packet::RtioErrorCollisionReply { channel: event.half() },
            },
        },
        Query::BusyChannel => Answer {
            commands: seq![Command::ClearRtioError { mask: BUSY }],
            next: Next::Reply { packet: Packet::RtioErrorBusyReply { channel: event.half() } },
        },
        Query::Monitor { .. } => reply(Packet::MonitorReply { value: event.word() }),
        Query::InjectionStatus { .. } => reply(
            Packet::InjectionStatusReply { value: event.byte() },
        ),
        Query::I2cStart { .. } | Query::I2cRestart { .. } | Query::I2cStop { .. } => reply(
            Packet::I2cBasicReply { succeeded: event.succeeded() },
        ),
        Query::I2cWrite { .. } => match event {
            Event::Flag { value } => reply(Packet::I2cWriteReply { succeeded: true, ack: value }),
            _ => reply(Packet::I2cWriteReply { succeeded: false, ack: false }),
        },
        Query::I2cRead { .. } => match event {
            Event::Byte { value } => reply(Packet::I2cReadReply { succeeded: true, data: value }),
            _ => reply(Packet::I2cReadReply { succeeded: false, data: 0xff }),
        },
        Query::SpiSetConfig { .. } | Query::SpiWrite { .. } => reply(
            Packet::SpiBasicReply { succeeded: event.succeeded() },
        ),
        Query::SpiRead { .. } => match event {
            Event::Word { value } => reply(Packet::SpiReadReply { succeeded: true, data: value }),
            _ => reply(Packet::SpiReadReply { succeeded: false, data: 0 }),
        },
        _ => Answer { commands: Seq::empty(), next: Next::Silent },
    }
}

/// Appends one interconnect entry for each destination.
pub fn program_interconnect(routing: &RoutingState, commands: &mut Vec<Command>)
    requires
        routing.wf(),
    ensures
        final(commands)@ == old(commands)@ + interconnect(routing@),
{
    let ghost before = commands@;
    let mut d: usize = 0;
    while d < DEST_COUNT
        invariant
            d <= DEST_COUNT,
            routing.wf(),
            commands@ == before + interconnect(routing@).take(d as int),
        decreases DEST_COUNT - d,
    {
        let destination = d as u8;
        let hop = routing.hop(destination);
        commands.push(Command::ProgramHop { destination, hop });
        assert(interconnect(routing@).take(d as int).push(
            Command::ProgramHop { destination, hop },
        ) =~= interconnect(routing@).take(d + 1));
        assert(commands@ =~= before + interconnect(routing@).take(d + 1));
        d = d + 1;
    }
    assert(interconnect(routing@).take(DEST_COUNT as int) =~= interconnect(routing@));
}

/// Handles the request `packet`: updates the routing state, appends what the
/// hardware is to be told, and says how to go on and what to report.
pub fn process_aux_packet(
    caps: &Capabilities,
    routing: &mut RoutingState,
    packet: Packet,
    commands: &mut Vec<Command>,
) -> (out: (Next, Option<Report>))
    requires
        old(routing).wf(),
    ensures
        final(routing).wf(),
        final(routing)@ == handle(*caps, old(routing)@, packet).routing,
        final(commands)@ == old(commands)@ + handle(*caps, old(routing)@, packet).commands,
        out.0 == handle(*caps, old(routing)@, packet).next,
        out.1 == handle(*caps, old(routing)@, packet).report,
{
    let ghost before = commands@;
    let ghost handled = handle(*caps, routing@, packet);
    let links = caps.links_driven();
    match packet {
        Packet::EchoRequest => {
            assert(commands@ =~= before + handled.commands);
            (Next::Reply { packet: Packet::EchoReply }, None)
        },
        Packet::ResetRequest { phy } => {
            if phy {
                commands.push(Command::SetResetPhy { asserted: true });
                commands.push(Command::SetResetPhy { asserted: false });
            } else {
                commands.push(Command::SetReset { asserted: true });
                commands.push(Command::SetReset { asserted: false });
            }
            assert(commands@ =~= before + reset_pulse(phy));
            fan_out_to(links, LinkOrder::Reset { phy }, commands);
            assert(commands@ =~= before + handled.commands);
            (Next::Reply { packet: Packet::ResetAck }, Some(Report::ResettingRtio))
        },
        Packet::RtioErrorRequest => {
            assert(commands@ =~= before + handled.commands);
            (Next::Ask { query: Query::RtioErrors }, None)
        },
        Packet::RoutingSetPath { destination, hops } => {
            if caps.routing {
                match routing.set_path(destination as usize, hops) {
                    Ok(()) => {
                        fan_out_to(links, LinkOrder::SetPath { destination, hops }, commands);
                        fan_out_to(
                            links,
                            LinkOrder::SetRank { rank: routing.downstream_rank() },
                            commands,
                        );
                    },
                    Err(_) => {},
                }
            }
            assert(commands@ =~= before + handled.commands);
            (Next::Reply { packet: Packet::RoutingAck }, None)
        },
        Packet::RoutingSetRank { rank } => {
            if !caps.routing {
                assert(commands@ =~= before + handled.commands);
                (Next::Reply { packet: Packet::RoutingAck }, None)
            } else {
                match routing.set_rank(rank) {
                    Ok(()) => {
                        program_interconnect(routing, commands);
                        fan_out_to(
                            links,
                            LinkOrder::SetRank { rank: routing.downstream_rank() },
                            commands,
                        );
                        assert(commands@ =~= before + handled.commands);
                        (
                            Next::Reply { packet: Packet::RoutingAck },
                            Some(Report::RankChanged { rank }),
                        )
                    },
                    Err(_) => {
                        assert(commands@ =~= before + handled.commands);
                        (
                            Next::Reply { packet: Packet::RoutingAck },
                            Some(Report::RankRejected { rank }),
                        )
                    },
                }
            }
        },
        Packet::MonitorRequest { channel, probe } => {
            assert(commands@ =~= before + handled.commands);
            if caps.monitoring {
                (Next::Ask { query: Query::Monitor { channel, probe } }, None)
            } else {
                (Next::Reply { packet: Packet::MonitorReply { value: 0 } }, None)
            }
        },
        Packet::InjectionRequest { channel, overrd, value } => {
            if caps.monitoring {
                commands.push(Command::SetInjection { channel, overrd, value });
            }
            assert(commands@ =~= before + handled.commands);
            (Next::Silent, None)
        },
        Packet::InjectionStatusRequest { channel, overrd } => {
            assert(commands@ =~= before + handled.commands);
            if caps.monitoring {
                (Next::Ask { query: Query::InjectionStatus { channel, overrd } }, None)
            } else {
                (Next::Reply { packet: Packet::InjectionStatusReply { value: 0 } }, None)
            }
        },
        Packet::I2cStartRequest { busno } => {
            assert(commands@ =~= before + handled.commands);
            (Next::Ask { query: Query::I2cStart { busno } }, None)
        },
        Packet::I2cRestartRequest { busno } => {
            assert(commands@ =~= before + handled.commands);
            (Next::Ask { query: Query::I2cRestart { busno } }, None)
        },
        Packet::I2cStopRequest { busno } => {
            assert(commands@ =~= before + handled.commands);
            (Next::Ask { query: Query::I2cStop { busno } }, None)
        },
        Packet::I2cWriteRequest { busno, data } => {
            assert(commands@ =~= before + handled.commands);
            (Next::Ask { query: Query::I2cWrite { busno, data } }, None)
        },
        Packet::I2cReadRequest { busno, ack } => {
            assert(commands@ =~= before + handled.commands);
            (Next::Ask { query: Query::I2cRead { busno, ack } }, None)
        },
        Packet::SpiSetConfigRequest { busno, flags, length, div, cs } => {
            assert(commands@ =~= before + handled.commands);
            (Next::Ask { query: Query::SpiSetConfig { busno, flags, length, div, cs } }, None)
        },
        Packet::SpiWriteRequest { busno, data } => {
            assert(commands@ =~= before + handled.commands);
            (Next::Ask { query: Query::SpiWrite { busno, data } }, None)
        },
        Packet::SpiReadRequest { busno } => {
            assert(commands@ =~= before + handled.commands);
            (Next::Ask { query: Query::SpiRead { busno } }, None)
        },
        _ => {
            assert(commands@ =~= before + handled.commands);
            (Next::Silent, Some(Report::UnexpectedPacket))
        },
    }
}

/// Goes on with a request whose query `query` was answered with `event`:
/// appends what the hardware is to be told and says how to go on.
pub fn complete_request(query: Query, event: Event, commands: &mut Vec<Command>) -> (next: Next)
    ensures
        final(commands)@ == old(commands)@ + answer(query, event).commands,
        next == answer(query, event).next,
{
    let ghost before = commands@;
    let next = match query {
        Query::RtioErrors => {
            let errors = event.as_byte();
            if errors & SEQUENCE_ERROR != 0 {
                Next::Ask { query: Query::SequenceErrorChannel }
            } else if errors & COLLISION != 0 {
                Next::Ask { query: Query::CollisionChannel }
            } else if errors & BUSY != 0 {
                Next::Ask { query: Query::BusyChannel }
            } else {
                Next::Reply { packet: Packet::RtioNoErrorReply }
            }
        },
        Query::SequenceErrorChannel => {
            commands.push(Command::ClearRtioError { mask: SEQUENCE_ERROR });
            Next::Reply { packet: Packet::RtioErrorSequenceErrorReply { channel: event.as_half() } }
        },
        Query::CollisionChannel => {
            commands.push(Command::ClearRtioError { mask: COLLISION });
            Next::Reply { packet: Packet::RtioErrorCollisionReply { channel: event.as_half() } }
        },
        Query::BusyChannel => {
            commands.push(Command::ClearRtioError { mask: BUSY });
            Next::Reply { packet: Packet::RtioErrorBusyReply { channel: event.as_half() } }
        },
        Query::Monitor { .. } => Next::Reply {
            packet: Packet::MonitorReply { value: event.as_word() },
        },
        Query::InjectionStatus { .. } => Next::Reply {
            packet: Packet::InjectionStatusReply { value: event.as_byte() },
        },
        Query::I2cStart { .. } | Query::I2cRestart { .. } | Query::I2cStop { .. } => Next::Reply {
            packet: Packet::I2cBasicReply { succeeded: event.has_succeeded() },
        },
        Query::I2cWrite { .. } => match event {
            Event::Flag { value } => Next::Reply {
                packet: Packet::I2cWriteReply { succeeded: true, ack: value },
            },
            _ => Next::Reply { packet: Packet::I2cWriteReply { succeeded: false, ack: false } },
        },
        Query::I2cRead { .. } => match event {
            Event::Byte { value } => Next::Reply {
                packet: Packet::I2cReadReply { succeeded: true, data: value },
            },
            _ => Next::Reply { packet: Packet::I2cReadReply { succeeded: false, data: 0xff } },
        },
        Query::SpiSetConfig { .. } | Query::SpiWrite { .. } => Next::Reply {
            packet: Packet::SpiBasicReply { succeeded: event.has_succeeded() },
        },
        Query::SpiRead { .. } => match event {
            Event::Word { value } => Next::Reply {
                packet: Packet::SpiReadReply { succeeded: true, data: value },
            },
            _ => Next::Reply { packet: Packet::SpiReadReply { succeeded: false, data: 0 } },
        },
        _ => Next::Silent,
    };
    assert(commands@ =~= before + answer(query, event).commands);
    next
}

/// The routing state after the answer `event` to `query`: nothing but a
/// request that came in changes it.
pub open spec fn routing_after(
    caps: Capabilities,
    routing: RoutingView,
    query: Query,
    event: Event,
) -> RoutingView {
    match (query, event) {
        (Query::ReceiveAux, Event::Received { packet }) => handle(caps, routing, packet).routing,
        _ => routing,
    }
}

/// What a look at the auxiliary channel leads to: a packet is handled as a
/// request, a failure is reported, and in every case the tick goes on.
pub open spec fn receive_reaction(
    caps: Capabilities,
    routing: RoutingView,
    mode: Mode,
    event: Event,
) -> Reaction {
    match event {
        Event::Received { packet } => {
            let handled = handle(caps, routing, packet);
            Reaction {
                mode,
                script: rest_of_tick(caps, handled.commands, handled.next),
                report: handled.report,
            }
        },
        Event::Failed => Reaction {
            mode,
            script: rest_of_tick(caps, Seq::empty(), Next::Silent),
            report: Some(Report::AuxError),
        },
        _ => Reaction {
            mode,
            script: rest_of_tick(caps, Seq::empty(), Next::Silent),
            report: None,
        },
    }
}

/// What the answer to the query of a request leads to: the request is
/// completed and the tick goes on.
pub open spec fn request_reaction(
    caps: Capabilities,
    mode: Mode,
    query: Query,
    event: Event,
) -> Reaction {
    let answered = answer(query, event);
    Reaction {
        mode,
        script: rest_of_tick(caps, answered.commands, answered.next),
        report: None,
    }
}

/// Takes what a look at the auxiliary channel brought: handles the packet,
/// if there is one, up to its reply or to the query that the reply waits
/// for, and plans the rest of the tick.
pub fn process_aux_packets(
    caps: &Capabilities,
    routing: &mut RoutingState,
    mode: Mode,
    event: Event,
) -> (plan: Plan)
    requires
        old(routing).wf(),
    ensures
        final(routing).wf(),
        final(routing)@ == routing_after(*caps, old(routing)@, Query::ReceiveAux, event),
        plan@ == receive_reaction(*caps, old(routing)@, mode, event),
{
    let mut commands: Vec<Command> = Vec::new();
    let mut report: Option<Report> = None;
    let next = match event {
        Event::Received { packet } => {
            let handled = process_aux_packet(caps, routing, packet, &mut commands);
            report = handled.1;
            assert(commands@ =~= handle(*caps, old(routing)@, packet).commands);
            handled.0
        },
        Event::Failed => {
            report = Some(Report::AuxError);
            Next::Silent
        },
        _ => Next::Silent,
    };
    let query = finish_tick(caps, next, &mut commands);
    Plan { mode, commands, query, report }
}

/// Takes the answer to the query of a request: completes the request and
/// plans the rest of the tick.
pub fn answer_request(caps: &Capabilities, mode: Mode, query: Query, event: Event) -> (plan: Plan)
    ensures
        plan@ == request_reaction(*caps, mode, query, event),
{
    let mut commands: Vec<Command> = Vec::new();
    let next = complete_request(query, event, &mut commands);
    assert(commands@ =~= answer(query, event).commands);
    let query = finish_tick(caps, next, &mut commands);
    Plan { mode, commands, query, report: None }
}

/// A request leaves the routing state well formed.
pub proof fn lemma_handle_keeps_routing_well_formed(
    caps: Capabilities,
    routing: RoutingView,
    packet: Packet,
)
    requires
        routing.wf(),
    ensures
        handle(caps, routing, packet).routing.wf(),
{
}

/// A path request on a node with routing stores the path: it is what a
/// look at the table finds afterwards, and no other entry has changed.
pub proof fn lemma_set_path_is_stored(
    caps: Capabilities,
    routing: RoutingView,
    destination: u8,
    hops: HopPath,
    other: u8,
)
    requires
        routing.wf(),
        caps.routing,
    ensures
        ({
            let handled = handle(caps, routing, Packet::RoutingSetPath { destination, hops });
            &&& handled.routing.paths[destination as int] == hops
            &&& other != destination ==> handled.routing.paths[other as int]
                == routing.paths[other as int]
            &&& handled.routing.rank == routing.rank
            &&& handled.next == Next::Reply { packet: Packet::RoutingAck }
        }),
{
}

/// Whenever the rank or the routing table changes, every downstream link is
/// told the rank of this node plus one, after everything else that the
/// request asks for.
pub proof fn lemma_rank_reaches_every_link(
    caps: Capabilities,
    routing: RoutingView,
    packet: Packet,
    link: u8,
)
    requires
        routing.wf(),
        caps.routing,
        link < caps.links,
        packet is RoutingSetPath || (packet matches Packet::RoutingSetRank { rank } && rank
            <= MAX_RANK),
    ensures
        ({
            let handled = handle(caps, routing, packet);
            let told = Command::Link {
                link,
                order: LinkOrder::SetRank { rank: (handled.routing.rank + 1) as u8 },
            };
            let first = handled.commands.len() - caps.links;
            &&& packet matches Packet::RoutingSetRank { rank } ==> handled.routing.rank == rank
            &&& handled.routing.rank < 255
            &&& first >= 0
            &&& handled.commands[first + link] == told
            &&& handled.commands.contains(told)
        }),
{
    let handled = handle(caps, routing, packet);
    let first = handled.commands.len() - caps.links;
    assert(rank_fan_out(caps, handled.routing).len() == caps.links);
    assert(handled.commands[first + link] == rank_fan_out(caps, handled.routing)[link as int]);
}

/// A path request hands the path to every downstream link.
pub proof fn lemma_path_reaches_every_link(
    caps: Capabilities,
    routing: RoutingView,
    destination: u8,
    hops: HopPath,
    link: u8,
)
    requires
        caps.routing,
        link < caps.links,
    ensures
        ({
            let handled = handle(caps, routing, Packet::RoutingSetPath { destination, hops });
            let told = Command::Link { link, order: LinkOrder::SetPath { destination, hops } };
            &&& handled.commands[link as int] == told
            &&& handled.commands.contains(told)
        }),
{
    let handled = handle(caps, routing, Packet::RoutingSetPath { destination, hops });
    assert(handled.commands[link as int] == fan_out(
        caps.link_count(),
        LinkOrder::SetPath { destination, hops },
    )[link as int]);
}

/// A rank request programs the interconnect for the new rank: for each
/// destination the hop that a node of that rank takes along its path.
pub proof fn lemma_set_rank_programs_interconnect(
    caps: Capabilities,
    routing: RoutingView,
    rank: u8,
    destination: u8,
)
    requires
        caps.routing,
        rank <= MAX_RANK,
    ensures
        handle(caps, routing, Packet::RoutingSetRank { rank }).commands[destination as int] == (
        Command::ProgramHop {
            destination,
            hop: hop_at(routing.paths[destination as int], rank),
        }),
{
    let updated = routing.with_rank(rank);
    assert(interconnect(updated)[destination as int] == (Command::ProgramHop {
        destination,
        hop: updated.hop(destination),
    }));
}

/// A reset of the physical layer never touches the reset line of the whole
/// timing domain, and a full reset never touches that of the physical
/// layer. Either way the line is asserted, then deasserted, and every
/// downstream link is handed the reset with the same flag.
pub proof fn lemma_reset_keeps_to_its_line(
    caps: Capabilities,
    routing: RoutingView,
    phy: bool,
    place: int,
)
    requires
        0 <= place < handle(caps, routing, Packet::ResetRequest { phy }).commands.len(),
    ensures
        ({
            let commands = handle(caps, routing, Packet::ResetRequest { phy }).commands;
            &&& commands.len() == 2 + caps.link_count()
            &&& phy ==> commands[0] == (Command::SetResetPhy { asserted: true }) && commands[1]
                == (Command::SetResetPhy { asserted: false })
            &&& !phy ==> commands[0] == (Command::SetReset { asserted: true }) && commands[1] == (
            Command::SetReset { asserted: false })
            &&& phy ==> !(commands[place] is SetReset)
            &&& !phy ==> !(commands[place] is SetResetPhy)
            &&& place >= 2 ==> commands[place] == (Command::Link {
                link: (place - 2) as u8,
                order: LinkOrder::Reset { phy },
            })
        }),
{
    let commands = handle(caps, routing, Packet::ResetRequest { phy }).commands;
    if place >= 2 {
        assert(commands[place] == fan_out(caps.link_count(), LinkOrder::Reset { phy })[place - 2]);
    }
}

/// A request is answered at most once by the time its handling ends, and
/// nothing that is told to the hardware on the way is a packet upstream.
pub proof fn lemma_handling_sends_nothing(
    caps: Capabilities,
    routing: RoutingView,
    packet: Packet,
    place: int,
)
    requires
        0 <= place < handle(caps, routing, packet).commands.len(),
    ensures
        !(handle(caps, routing, packet).commands[place] is Send),
{
    let commands = handle(caps, routing, packet).commands;
    match packet {
        Packet::ResetRequest { phy } => {
            lemma_reset_keeps_to_its_line(caps, routing, phy, place);
        },
        Packet::RoutingSetPath { destination, hops } => {
            if caps.routing {
                let paths = fan_out(caps.link_count(), LinkOrder::SetPath { destination, hops });
                let updated = routing.with_path(destination as int, hops);
                if place < paths.len() {
                    assert(commands[place] == paths[place]);
                } else {
                    assert(commands[place] == rank_fan_out(caps, updated)[place - paths.len()]);
                }
            }
        },
        Packet::RoutingSetRank { rank } => {
            if caps.routing && rank <= MAX_RANK {
                let updated = routing.with_rank(rank);
                if place < DEST_COUNT {
                    assert(commands[place] == interconnect(updated)[place]);
                } else {
                    assert(commands[place] == rank_fan_out(caps, updated)[place - DEST_COUNT]);
                }
            }
        },
        _ => {},
    }
}

/// Every query of a request ends in exactly one reply: the RTIO-error query
/// either replies that there is none or asks for the channel of one error,
/// and every other query of a request replies at once.
pub proof fn lemma_queries_end_in_a_reply(query: Query, event: Event)
    requires
        !(query is LoadSlaveFpga || query is SetupClockDevice || query is InitSynthesizer
            || query is LinkUp || query is SelectRecoveredClock || query is CalibrateSkew
            || query is ProtocolErrors || query is ReceiveAux || query is TscLoaded),
    ensures
        ({
            let answered = answer(query, event);
            &&& forall|place: int|
                0 <= place < answered.commands.len() ==> !(#[trigger] answered.commands[place]
                    is Send)
            &&& query is RtioErrors ==> answered.next is Reply || (answered.next matches Next::Ask {
                query: channel,
            } && (channel is SequenceErrorChannel || channel is CollisionChannel
                || channel is BusyChannel))
            &&& !(query is RtioErrors) ==> answered.next is Reply
        }),
{
}

} // verus!
