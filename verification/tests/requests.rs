use satman::action::{Capabilities, Command, Event, LinkOrder, Query, Report};
use satman::fanout::fan_out_to;
use satman::packet::Packet;
use satman::requests::{answer_request, complete_request, process_aux_packet, process_aux_packets};
use satman::routing::{HopPath, RoutingState, INVALID_HOP, MAX_HOPS};
use satman::script::{finish_tick, service_links, Mode, Next};

fn hops(prefix: &[u8]) -> HopPath {
    let mut path = [INVALID_HOP; MAX_HOPS];
    path[..prefix.len()].copy_from_slice(prefix);
    path
}

fn caps(links: u8, monitoring: bool) -> Capabilities {
    Capabilities {
        routing: true,
        links,
        monitoring,
        converters: false,
        slave_fpga: false,
        serwb: false,
        synthesizer: false,
        attenuators: false,
    }
}

fn handle(caps: &Capabilities, packet: Packet) -> (Vec<Command>, Next, Option<Report>) {
    let mut routing = RoutingState::default_empty();
    let mut commands = Vec::new();
    let (next, report) = process_aux_packet(caps, &mut routing, packet, &mut commands);
    (commands, next, report)
}

fn complete(query: Query, event: Event) -> (Vec<Command>, Next) {
    let mut commands = Vec::new();
    let next = complete_request(query, event, &mut commands);
    (commands, next)
}

fn reply(packet: Packet) -> Next {
    Next::Reply { packet }
}

fn service(link: u8) -> Command {
    Command::Link { link, order: LinkOrder::Service }
}

#[test]
fn fan_out_names_every_link_in_order() {
    let mut commands = vec![Command::ResetAux];
    fan_out_to(3, LinkOrder::SyncTsc, &mut commands);
    assert_eq!(
        commands,
        vec![
            Command::ResetAux,
            Command::Link { link: 0, order: LinkOrder::SyncTsc },
            Command::Link { link: 1, order: LinkOrder::SyncTsc },
            Command::Link { link: 2, order: LinkOrder::SyncTsc },
        ]
    );
}

#[test]
fn fan_out_over_no_link_is_empty() {
    let mut commands = Vec::new();
    fan_out_to(0, LinkOrder::Reset { phy: true }, &mut commands);
    assert!(commands.is_empty());
}

#[test]
fn fan_out_over_all_links() {
    let mut commands = Vec::new();
    fan_out_to(255, LinkOrder::Service, &mut commands);
    assert_eq!(commands.len(), 255);
    assert_eq!(commands[254], service(254));
}

#[test]
fn links_are_driven_only_with_routing() {
    let mut with = caps(4, false);
    assert_eq!(with.links_driven(), 4);
    with.routing = false;
    assert_eq!(with.links_driven(), 0);
    let mut commands = Vec::new();
    service_links(&with, &mut commands);
    assert!(commands.is_empty());
}

#[test]
fn echo_is_answered() {
    assert_eq!(handle(&caps(2, true), Packet::EchoRequest), (vec![], reply(Packet::EchoReply), None));
}

#[test]
fn full_reset_never_touches_the_phy_line() {
    let (commands, next, report) = handle(&caps(2, false), Packet::ResetRequest { phy: false });
    assert_eq!(
        commands,
        vec![
            Command::SetReset { asserted: true },
            Command::SetReset { asserted: false },
            Command::Link { link: 0, order: LinkOrder::Reset { phy: false } },
            Command::Link { link: 1, order: LinkOrder::Reset { phy: false } },
        ]
    );
    assert!(commands.iter().all(|command| !matches!(command, Command::SetResetPhy { .. })));
    assert_eq!(next, reply(Packet::ResetAck));
    assert_eq!(report, Some(Report::ResettingRtio));
}

#[test]
fn phy_reset_never_touches_the_full_line() {
    let (commands, next, report) = handle(&caps(3, false), Packet::ResetRequest { phy: true });
    assert_eq!(
        commands,
        vec![
            Command::SetResetPhy { asserted: true },
            Command::SetResetPhy { asserted: false },
            Command::Link { link: 0, order: LinkOrder::Reset { phy: true } },
            Command::Link { link: 1, order: LinkOrder::Reset { phy: true } },
            Command::Link { link: 2, order: LinkOrder::Reset { phy: true } },
        ]
    );
    assert!(commands.iter().all(|command| !matches!(command, Command::SetReset { .. })));
    assert_eq!(next, reply(Packet::ResetAck));
    assert_eq!(report, Some(Report::ResettingRtio));
}

#[test]
fn reset_without_links_pulses_the_line_only() {
    let (commands, _, _) = handle(&caps(0, false), Packet::ResetRequest { phy: true });
    assert_eq!(
        commands,
        vec![Command::SetResetPhy { asserted: true }, Command::SetResetPhy { asserted: false }]
    );
}

#[test]
fn rtio_error_request_reads_the_register() {
    assert_eq!(
        handle(&caps(0, false), Packet::RtioErrorRequest),
        (vec![], Next::Ask { query: Query::RtioErrors }, None)
    );
}

#[test]
fn rtio_errors_are_taken_by_priority() {
    let ask = |query| (vec![], Next::Ask { query });
    assert_eq!(complete(Query::RtioErrors, Event::Byte { value: 0 }), (vec![], reply(Packet::RtioNoErrorReply)));
    assert_eq!(complete(Query::RtioErrors, Event::Byte { value: 1 }), ask(Query::SequenceErrorChannel));
    assert_eq!(complete(Query::RtioErrors, Event::Byte { value: 2 }), ask(Query::CollisionChannel));
    assert_eq!(complete(Query::RtioErrors, Event::Byte { value: 4 }), ask(Query::BusyChannel));
    assert_eq!(complete(Query::RtioErrors, Event::Byte { value: 7 }), ask(Query::SequenceErrorChannel));
    assert_eq!(complete(Query::RtioErrors, Event::Byte { value: 6 }), ask(Query::CollisionChannel));
    assert_eq!(complete(Query::RtioErrors, Event::Byte { value: 5 }), ask(Query::SequenceErrorChannel));
    assert_eq!(complete(Query::RtioErrors, Event::Byte { value: 8 }), (vec![], reply(Packet::RtioNoErrorReply)));
    assert_eq!(complete(Query::RtioErrors, Event::Failed), (vec![], reply(Packet::RtioNoErrorReply)));
}

#[test]
fn rtio_error_clears_its_own_bit_and_reports_the_channel() {
    assert_eq!(
        complete(Query::SequenceErrorChannel, Event::Half { value: 0x1234 }),
        (
            vec![Command::ClearRtioError { mask: 1 }],
            reply(Packet::RtioErrorSequenceErrorReply { channel: 0x1234 })
        )
    );
    assert_eq!(
        complete(Query::CollisionChannel, Event::Half { value: 9 }),
        (
            vec![Command::ClearRtioError { mask: 2 }],
            reply(Packet::RtioErrorCollisionReply { channel: 9 })
        )
    );
    assert_eq!(
        complete(Query::BusyChannel, Event::Half { value: 65535 }),
        (
            vec![Command::ClearRtioError { mask: 4 }],
            reply(Packet::RtioErrorBusyReply { channel: 65535 })
        )
    );
}

#[test]
fn monitor_reads_the_probe_where_there_is_one() {
    let request = Packet::MonitorRequest { channel: 300, probe: 2 };
    assert_eq!(
        handle(&caps(0, true), request),
        (vec![], Next::Ask { query: Query::Monitor { channel: 300, probe: 2 } }, None)
    );
    assert_eq!(
        complete(Query::Monitor { channel: 300, probe: 2 }, Event::Word { value: 0xdead_beef }),
        (vec![], reply(Packet::MonitorReply { value: 0xdead_beef }))
    );
    assert_eq!(handle(&caps(0, false), request), (vec![], reply(Packet::MonitorReply { value: 0 }), None));
}

#[test]
fn injection_writes_where_there_is_hardware_and_never_replies() {
    let request = Packet::InjectionRequest { channel: 3, overrd: 1, value: 0x55 };
    assert_eq!(
        handle(&caps(0, true), request),
        (vec![Command::SetInjection { channel: 3, overrd: 1, value: 0x55 }], Next::Silent, None)
    );
    assert_eq!(handle(&caps(0, false), request), (vec![], Next::Silent, None));
}

#[test]
fn injection_status_reads_where_there_is_hardware() {
    let request = Packet::InjectionStatusRequest { channel: 3, overrd: 1 };
    assert_eq!(
        handle(&caps(0, true), request),
        (vec![], Next::Ask { query: Query::InjectionStatus { channel: 3, overrd: 1 } }, None)
    );
    assert_eq!(
        complete(Query::InjectionStatus { channel: 3, overrd: 1 }, Event::Byte { value: 0x81 }),
        (vec![], reply(Packet::InjectionStatusReply { value: 0x81 }))
    );
    assert_eq!(
        handle(&caps(0, false), request),
        (vec![], reply(Packet::InjectionStatusReply { value: 0 }), None)
    );
}

#[test]
fn i2c_requests_go_to_the_bus() {
    let caps = caps(0, false);
    let ask = |query| (vec![], Next::Ask { query }, None);
    assert_eq!(handle(&caps, Packet::I2cStartRequest { busno: 1 }), ask(Query::I2cStart { busno: 1 }));
    assert_eq!(handle(&caps, Packet::I2cRestartRequest { busno: 2 }), ask(Query::I2cRestart { busno: 2 }));
    assert_eq!(handle(&caps, Packet::I2cStopRequest { busno: 3 }), ask(Query::I2cStop { busno: 3 }));
    assert_eq!(
        handle(&caps, Packet::I2cWriteRequest { busno: 4, data: 0xa5 }),
        ask(Query::I2cWrite { busno: 4, data: 0xa5 })
    );
    assert_eq!(
        handle(&caps, Packet::I2cReadRequest { busno: 5, ack: true }),
        ask(Query::I2cRead { busno: 5, ack: true })
    );
}

#[test]
fn i2c_basic_replies_say_whether_it_worked() {
    for query in [Query::I2cStart { busno: 0 }, Query::I2cRestart { busno: 0 }, Query::I2cStop { busno: 0 }] {
        assert_eq!(complete(query, Event::Done), (vec![], reply(Packet::I2cBasicReply { succeeded: true })));
        assert_eq!(complete(query, Event::Failed), (vec![], reply(Packet::I2cBasicReply { succeeded: false })));
    }
}

#[test]
fn i2c_write_reply_carries_the_ack_bit() {
    let query = Query::I2cWrite { busno: 0, data: 1 };
    assert_eq!(
        complete(query, Event::Flag { value: true }),
        (vec![], reply(Packet::I2cWriteReply { succeeded: true, ack: true }))
    );
    assert_eq!(
        complete(query, Event::Flag { value: false }),
        (vec![], reply(Packet::I2cWriteReply { succeeded: true, ack: false }))
    );
    assert_eq!(
        complete(query, Event::Failed),
        (vec![], reply(Packet::I2cWriteReply { succeeded: false, ack: false }))
    );
}

#[test]
fn i2c_read_reply_carries_the_byte() {
    let query = Query::I2cRead { busno: 0, ack: false };
    assert_eq!(
        complete(query, Event::Byte { value: 0x3c }),
        (vec![], reply(Packet::I2cReadReply { succeeded: true, data: 0x3c }))
    );
}

#[test]
fn failed_i2c_read_replies_ff() {
    let query = Query::I2cRead { busno: 0, ack: false };
    assert_eq!(
        complete(query, Event::Failed),
        (vec![], reply(Packet::I2cReadReply { succeeded: false, data: 0xff }))
    );
}

#[test]
fn spi_requests_go_to_the_bus() {
    let caps = caps(0, false);
    let ask = |query| (vec![], Next::Ask { query }, None);
    assert_eq!(
        handle(&caps, Packet::SpiSetConfigRequest { busno: 1, flags: 2, length: 3, div: 4, cs: 5 }),
        ask(Query::SpiSetConfig { busno: 1, flags: 2, length: 3, div: 4, cs: 5 })
    );
    assert_eq!(
        handle(&caps, Packet::SpiWriteRequest { busno: 1, data: 0x0102_0304 }),
        ask(Query::SpiWrite { busno: 1, data: 0x0102_0304 })
    );
    assert_eq!(handle(&caps, Packet::SpiReadRequest { busno: 6 }), ask(Query::SpiRead { busno: 6 }));
}

#[test]
fn spi_replies() {
    let config = Query::SpiSetConfig { busno: 1, flags: 2, length: 3, div: 4, cs: 5 };
    let write = Query::SpiWrite { busno: 1, data: 7 };
    let read = Query::SpiRead { busno: 1 };
    assert_eq!(complete(config, Event::Done), (vec![], reply(Packet::SpiBasicReply { succeeded: true })));
    assert_eq!(complete(config, Event::Failed), (vec![], reply(Packet::SpiBasicReply { succeeded: false })));
    assert_eq!(complete(write, Event::Done), (vec![], reply(Packet::SpiBasicReply { succeeded: true })));
    assert_eq!(complete(write, Event::Failed), (vec![], reply(Packet::SpiBasicReply { succeeded: false })));
    assert_eq!(
        complete(read, Event::Word { value: 0xcafe }),
        (vec![], reply(Packet::SpiReadReply { succeeded: true, data: 0xcafe }))
    );
    assert_eq!(
        complete(read, Event::Failed),
        (vec![], reply(Packet::SpiReadReply { succeeded: false, data: 0 }))
    );
}

#[test]
fn packets_that_are_no_request_get_no_reply() {
    for packet in [
        Packet::EchoReply,
        Packet::ResetAck,
        Packet::TSCAck,
        Packet::RtioNoErrorReply,
        Packet::RoutingAck,
        Packet::MonitorReply { value: 1 },
        Packet::I2cBasicReply { succeeded: true },
        Packet::SpiReadReply { succeeded: true, data: 0 },
    ] {
        assert_eq!(
            handle(&caps(2, true), packet),
            (vec![], Next::Silent, Some(Report::UnexpectedPacket))
        );
    }
}

#[test]
fn a_query_that_belongs_to_no_request_completes_nothing() {
    assert_eq!(complete(Query::LinkUp, Event::Byte { value: 1 }), (vec![], Next::Silent));
}

#[test]
fn reply_is_sent_before_the_links_are_serviced() {
    let mut commands = vec![Command::ClearRtioError { mask: 1 }];
    let query = finish_tick(&caps(2, false), reply(Packet::EchoReply), &mut commands);
    assert_eq!(query, Query::TscLoaded);
    assert_eq!(
        commands,
        vec![
            Command::ClearRtioError { mask: 1 },
            Command::Send { packet: Packet::EchoReply },
            service(0),
            service(1),
        ]
    );
}

#[test]
fn silent_request_goes_straight_to_service() {
    let mut commands = Vec::new();
    let query = finish_tick(&caps(1, false), Next::Silent, &mut commands);
    assert_eq!(query, Query::TscLoaded);
    assert_eq!(commands, vec![service(0)]);
}

#[test]
fn request_that_waits_ends_in_its_query() {
    let mut commands = Vec::new();
    let query = finish_tick(&caps(1, false), Next::Ask { query: Query::RtioErrors }, &mut commands);
    assert_eq!(query, Query::RtioErrors);
    assert!(commands.is_empty());
}

#[test]
fn received_request_is_handled_and_the_tick_goes_on() {
    let caps = caps(1, false);
    let mut routing = RoutingState::default_empty();
    let plan = process_aux_packets(
        &caps,
        &mut routing,
        Mode::Active,
        Event::Received { packet: Packet::RoutingSetPath { destination: 1, hops: hops(&[0]) } },
    );
    assert_eq!(routing.path(1), Some(hops(&[0])));
    assert_eq!(plan.mode, Mode::Active);
    assert_eq!(
        plan.commands,
        vec![
            Command::Link { link: 0, order: LinkOrder::SetPath { destination: 1, hops: hops(&[0]) } },
            Command::Link { link: 0, order: LinkOrder::SetRank { rank: 2 } },
            Command::Send { packet: Packet::RoutingAck },
            service(0),
        ]
    );
    assert_eq!(plan.query, Query::TscLoaded);
    assert_eq!(plan.report, None);
}

#[test]
fn nothing_received_leaves_the_rest_of_the_tick() {
    let caps = caps(2, false);
    let mut routing = RoutingState::default_empty();
    let plan = process_aux_packets(&caps, &mut routing, Mode::Active, Event::Idle);
    assert_eq!(plan.commands, vec![service(0), service(1)]);
    assert_eq!(plan.query, Query::TscLoaded);
    assert_eq!(plan.report, None);
}

#[test]
fn failed_receive_plans_the_rest_of_the_tick() {
    let caps = caps(2, false);
    let mut routing = RoutingState::default_empty();
    let plan = process_aux_packets(&caps, &mut routing, Mode::Active, Event::Failed);
    assert_eq!(plan.commands, vec![service(0), service(1)]);
    assert_eq!(plan.query, Query::TscLoaded);
    assert_eq!(plan.report, Some(Report::AuxError));
}

#[test]
fn answered_query_sends_the_reply_and_the_tick_goes_on() {
    let plan = answer_request(
        &caps(1, false),
        Mode::Active,
        Query::I2cRead { busno: 0, ack: true },
        Event::Failed,
    );
    assert_eq!(
        plan.commands,
        vec![
            Command::Send { packet: Packet::I2cReadReply { succeeded: false, data: 0xff } },
            service(0),
        ]
    );
    assert_eq!(plan.query, Query::TscLoaded);
    assert_eq!(plan.mode, Mode::Active);
    assert_eq!(plan.report, None);
}

#[test]
fn rtio_error_answer_asks_for_the_channel_before_anything_is_sent() {
    let plan = answer_request(&caps(1, false), Mode::Active, Query::RtioErrors, Event::Byte { value: 2 });
    assert_eq!(plan.commands, vec![]);
    assert_eq!(plan.query, Query::CollisionChannel);
}
