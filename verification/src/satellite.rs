//! The satellite node as a machine.
//!
//! The node holds a script: commands to carry out in order, and then one
//! query. It names the action that is due, is handed the event that the
//! action ended in, and names the next. Whatever a command ends in, the next
//! command of the script follows; only the answer to the query chooses the
//! next script.
//!
//! A tick of an active node is, in this order: the uplink flag is read, the
//! faults are polled, at most one request is handled and answered, every
//! downstream link is serviced, and the time-base latch is read.

use crate::action::{
    Action, Capabilities, Command, Event, Fatal, LinkOrder, Query, Report, Step, SIPHASER_PHASE,
};
use crate::faults::{
    fault_reaction, fault_report, poll_faults, protocol_error_commands, report_fault,
};
use crate::packet::Packet;
use crate::requests::{
    answer_request, handle, lemma_handle_keeps_routing_well_formed,
    lemma_rank_reaches_every_link, process_aux_packets, receive_reaction, request_reaction,
    routing_after,
};
use crate::routing::{empty_routing, HopPath, RoutingState, RoutingView, DEST_COUNT, MAX_RANK};
use crate::script::{ask, service, Mode, Next, Plan, Reaction};
use crate::uplink::{
    after_calibration, after_clock_device, after_clock_switch, after_slave_fpga,
    after_synthesizer, arm_commands, bring_up, calibration_reaction, clock_device_reaction,
    clock_switch_reaction, disarm_commands, drtiosat_link_rx_up, drtiosat_tsc_loaded,
    latch_reaction, link_reaction, slave_fpga_reaction, start_bring_up, synthesizer_reaction,
};
use vstd::prelude::*;

verus! {

/// What the report of a command that has been carried out is. A downstream
/// link that did not carry out an order, a packet that could not be sent and
/// an alignment that failed are reported; so is every protocol fault.
pub open spec fn observed(command: Command, event: Event) -> Option<Report> {
    match command {
        Command::Link { link, order } => if event.succeeded() || order is Service {
            None
        } else {
            Some(Report::LinkFailed { link, order })
        },
        Command::Send { .. } => if event.succeeded() {
            None
        } else {
            Some(Report::AuxError)
        },
        Command::AlignSysrefRtio => if event.succeeded() {
            None
        } else {
            Some(Report::SysrefRtioAlignFailed)
        },
        Command::AlignSysrefDac => if event.succeeded() {
            None
        } else {
            Some(Report::SysrefDacAlignFailed)
        },
        _ => fault_report(command, event),
    }
}

/// What the answer `event` to `query` leads to.
pub open spec fn react(
    caps: Capabilities,
    routing: RoutingView,
    mode: Mode,
    query: Query,
    event: Event,
) -> Reaction {
    match query {
        Query::LoadSlaveFpga => slave_fpga_reaction(caps, mode, event),
        Query::SetupClockDevice { settings } => clock_device_reaction(caps, mode, settings, event),
        Query::InitSynthesizer => synthesizer_reaction(caps, mode, event),
        Query::LinkUp => link_reaction(caps, mode, event),
        Query::SelectRecoveredClock { recovered } => clock_switch_reaction(mode, recovered, event),
        Query::CalibrateSkew { phase } => calibration_reaction(caps, phase, event),
        Query::ProtocolErrors => fault_reaction(caps, mode, event),
        Query::ReceiveAux => receive_reaction(caps, routing, mode, event),
        Query::TscLoaded => latch_reaction(caps, mode, event),
        _ => request_reaction(caps, mode, query, event),
    }
}

/// What a `Satellite` holds.
#[verifier::ext_equal]
pub struct SatelliteView {
    pub caps: Capabilities,
    pub routing: RoutingView,
    pub mode: Mode,
    /// The commands of the script.
    pub commands: Seq<Command>,
    /// How many of them have been carried out.
    pub cursor: nat,
    /// The query of the script.
    pub query: Query,
}

impl SatelliteView {
    pub open spec fn wf(self) -> bool {
        &&& self.routing.wf()
        &&& self.cursor <= self.commands.len()
    }

    /// The action that is due.
    pub open spec fn pending(self) -> Action {
        match self.mode {
            Mode::Halted { cause } => Action::Halt { cause },
            _ => if self.cursor < self.commands.len() {
                Action::Do { command: self.commands[self.cursor as int] }
            } else {
                Action::Ask { query: self.query }
            },
        }
    }

    /// What the answer to the query leads to.
    pub open spec fn reaction(self, event: Event) -> Reaction {
        react(self.caps, self.routing, self.mode, self.query, event)
    }

    /// The node after the action that was due has ended in `event`. A node
    /// that has halted stays as it is. After a command the script moves on
    /// by one. After the query the node takes up the script that the answer
    /// leads to.
    pub open spec fn after(self, event: Event) -> SatelliteView {
        if self.mode is Halted {
            self
        } else if self.cursor < self.commands.len() {
            SatelliteView { cursor: self.cursor + 1, ..self }
        } else {
            let reaction = self.reaction(event);
            SatelliteView {
                caps: self.caps,
                routing: routing_after(self.caps, self.routing, self.query, event),
                mode: reaction.mode,
                commands: reaction.script.commands,
                cursor: 0,
                query: reaction.script.query,
            }
        }
    }

    /// What there is to report once the action that was due has ended in
    /// `event`.
    pub open spec fn report(self, event: Event) -> Option<Report> {
        if self.mode is Halted {
            None
        } else if self.cursor < self.commands.len() {
            observed(self.commands[self.cursor as int], event)
        } else {
            self.reaction(event).report
        }
    }

    /// The node after its actions have ended in `events`, one after the
    /// other.
    pub open spec fn run(self, events: Seq<Event>) -> SatelliteView
        decreases events.len(),
    {
        if events.len() == 0 {
            self
        } else {
            self.run(events.drop_last()).after(events.last())
        }
    }
}

/// The node at power-up: nothing is routed, the rank is 1, and bring-up is
/// about to start.
pub open spec fn initial(caps: Capabilities) -> SatelliteView {
    SatelliteView {
        caps,
        routing: empty_routing(),
        mode: Mode::Boot,
        commands: bring_up(caps).commands,
        cursor: 0,
        query: bring_up(caps).query,
    }
}

/// The report of a command that has been carried out.
pub fn observe(command: &Command, event: &Event) -> (report: Option<Report>)
    ensures
        report == observed(*command, *event),
{
    match command {
        Command::Link { link, order } => {
            if event.has_succeeded() {
                None
            } else {
                match order {
                    LinkOrder::Service => None,
                    _ => Some(Report::LinkFailed { link: *link, order: *order }),
                }
            }
        },
        Command::Send { .. } => {
            if event.has_succeeded() {
                None
            } else {
                Some(Report::AuxError)
            }
        },
        Command::AlignSysrefRtio => {
            if event.has_succeeded() {
                None
            } else {
                Some(Report::SysrefRtioAlignFailed)
            }
        },
        Command::AlignSysrefDac => {
            if event.has_succeeded() {
                None
            } else {
                Some(Report::SysrefDacAlignFailed)
            }
        },
        _ => report_fault(command, event),
    }
}

/// A satellite node.
pub struct Satellite {
    caps: Capabilities,
    routing: RoutingState,
    mode: Mode,
    commands: Vec<Command>,
    cursor: usize,
    query: Query,
}

impl View for Satellite {
    type V = SatelliteView;

    closed spec fn view(&self) -> SatelliteView {
        SatelliteView {
            caps: self.caps,
            routing: self.routing@,
            mode: self.mode,
            commands: self.commands@,
            cursor: self.cursor as nat,
            query: self.query,
        }
    }
}

impl Satellite {
    /// The invariant of the type.
    pub open spec fn wf(&self) -> bool {
        self@.wf()
    }

    /// The node at power-up.
    pub fn new(caps: Capabilities) -> (node: Satellite)
        ensures
            node.wf(),
            node@ == initial(caps),
    {
        let plan = start_bring_up(&caps);
        let node = Satellite {
            caps,
            routing: RoutingState::default_empty(),
            mode: plan.mode,
            commands: plan.commands,
            cursor: 0,
            query: plan.query,
        };
        assert(node@ =~= initial(caps));
        node
    }

    /// What the hardware build offers.
    pub fn capabilities(&self) -> (caps: Capabilities)
        ensures
            caps == self@.caps,
    {
        self.caps
    }

    /// Where the node stands in its life.
    pub fn mode(&self) -> (mode: Mode)
        ensures
            mode == self@.mode,
    {
        self.mode
    }

    /// This node's rank.
    pub fn rank(&self) -> (rank: u8)
        ensures
            rank == self@.routing.rank,
    {
        self.routing.rank()
    }

    /// The path of `destination`, if the address is in the table.
    pub fn path(&self, destination: usize) -> (found: Option<HopPath>)
        requires
            self.wf(),
        ensures
            destination < DEST_COUNT ==> found == Some(self@.routing.paths[destination as int]),
            destination >= DEST_COUNT ==> found == None::<HopPath>,
    {
        self.routing.path(destination)
    }

    /// The action that is due.
    pub fn pending(&self) -> (action: Action)
        requires
            self.wf(),
        ensures
            action == self@.pending(),
    {
        match self.mode {
            Mode::Halted { cause } => Action::Halt { cause },
            _ => {
                if self.cursor < self.commands.len() {
                    Action::Do { command: self.commands[self.cursor] }
                } else {
                    Action::Ask { query: self.query }
                }
            },
        }
    }

    /// Plans what the answer `event` to the query leads to, and brings the
    /// routing state up to date.
    fn decide(&mut self, event: Event) -> (plan: Plan)
        requires
            old(self).wf(),
        ensures
            final(self).wf(),
            final(self)@ == (SatelliteView {
                routing: routing_after(old(self)@.caps, old(self)@.routing, old(self)@.query, event),
                ..old(self)@
            }),
            plan@ == old(self)@.reaction(event),
    {
        let caps = self.caps;
        let mode = self.mode;
        match self.query {
            Query::LoadSlaveFpga => after_slave_fpga(&caps, mode, event),
            Query::SetupClockDevice { settings } => after_clock_device(
                &caps,
                mode,
                settings,
                event,
            ),
            Query::InitSynthesizer => after_synthesizer(&caps, mode, event),
            Query::LinkUp => drtiosat_link_rx_up(&caps, mode, event),
            Query::SelectRecoveredClock { recovered } => after_clock_switch(mode, recovered, event),
            Query::CalibrateSkew { phase } => after_calibration(&caps, phase, event),
            Query::ProtocolErrors => poll_faults(&caps, mode, event),
            Query::ReceiveAux => process_aux_packets(&caps, &mut self.routing, mode, event),
            Query::TscLoaded => drtiosat_tsc_loaded(&caps, mode, event),
            _ => answer_request(&caps, mode, self.query, event),
        }
    }

    /// Takes the event that the pending action ended in, and returns what
    /// there is to report and the action that is due next.
    pub fn step(&mut self, event: Event) -> (step: Step)
        requires
            old(self).wf(),
        ensures
            final(self).wf(),
            final(self)@ == old(self)@.after(event),
            step.report == old(self)@.report(event),
            step.action == final(self)@.pending(),
    {
        let halted = match self.mode {
            Mode::Halted { .. } => true,
            _ => false,
        };
        let report = if halted {
            None
        } else if self.cursor < self.commands.len() {
            let report = observe(&self.commands[self.cursor], &event);
            self.cursor = self.cursor + 1;
            report
        } else {
            let plan = self.decide(event);
            self.mode = plan.mode;
            self.commands = plan.commands;
            self.cursor = 0;
            self.query = plan.query;
            plan.report
        };
        assert(self@ =~= old(self)@.after(event));
        Step { report, action: self.pending() }
    }
}

/// A step leaves the node well formed.
pub proof fn lemma_step_keeps_well_formed(node: SatelliteView, event: Event)
    requires
        node.wf(),
    ensures
        node.after(event).wf(),
{
    if let Event::Received { packet } = event {
        lemma_handle_keeps_routing_well_formed(node.caps, node.routing, packet);
    }
}

/// A node that has halted does nothing more: the action that is due is to
/// halt, and no event changes that.
pub proof fn lemma_halt_is_final(node: SatelliteView, event: Event)
    requires
        node.mode is Halted,
    ensures
        node.pending() is Halt,
        node.after(event) == node,
        node.report(event) is None,
{
}

/// The node halts exactly where a vital operation did not succeed: loading
/// the second FPGA, setting up the clock recombiner, initializing the
/// synthesizer, switching the clock, or calibrating the skew.
pub proof fn lemma_only_vital_failures_halt(node: SatelliteView, event: Event)
    requires
        !(node.mode is Halted),
    ensures
        node.after(event).mode is Halted <==> node.cursor >= node.commands.len()
            && !event.succeeded() && (node.query is LoadSlaveFpga || node.query is SetupClockDevice
            || node.query is InitSynthesizer || node.query is SelectRecoveredClock
            || node.query is CalibrateSkew),
{
}

/// What a command ends in never steers the node: after any two events the
/// node is the same and the same action is due.
pub proof fn lemma_command_outcome_never_steers(node: SatelliteView, one: Event, other: Event)
    requires
        node.cursor < node.commands.len(),
    ensures
        node.after(one) == node.after(other),
        node.after(one).pending() == node.after(other).pending(),
{
}

/// The commands of a script are all carried out, in order, whatever they
/// end in: after as many events as there are commands left, or fewer, the
/// node has moved on by that many commands and nothing else has changed.
/// So a downstream link that fails an order never keeps the links after it
/// from getting theirs.
pub proof fn lemma_commands_follow_whatever_happens(node: SatelliteView, events: Seq<Event>)
    requires
        !(node.mode is Halted),
        node.cursor + events.len() <= node.commands.len(),
    ensures
        node.run(events) == (SatelliteView { cursor: node.cursor + events.len(), ..node }),
        node.cursor + events.len() < node.commands.len() ==> node.run(events).pending() == (
        Action::Do { command: node.commands[(node.cursor + events.len()) as int] }),
        node.cursor + events.len() == node.commands.len() ==> node.run(events).pending() == (
        Action::Ask { query: node.query }),
    decreases events.len(),
{
    if events.len() > 0 {
        lemma_commands_follow_whatever_happens(node, events.drop_last());
    }
}

/// Only a request changes the routing state: whatever else happens, table
/// and rank stay as they are.
pub proof fn lemma_only_requests_change_routing(node: SatelliteView, event: Event)
    requires
        !(node.pending() == (Action::Ask { query: Query::ReceiveAux }) && event is Received),
    ensures
        node.after(event).routing == node.routing,
{
}

/// When the uplink comes up and both the clock switch and the skew
/// calibration succeed, the node is active, and what it does next ends with
/// both reset lines deasserted. When either fails, the node halts and does
/// not become active.
pub proof fn lemma_link_up_arms_the_node(node: SatelliteView, switched: Event, calibrated: Event)
    requires
        node.mode is Down,
        node.cursor == node.commands.len(),
        node.query is LinkUp,
    ensures
        ({
            let up = node.after(Event::Byte { value: 1 });
            let armed = up.after(switched).after(calibrated);
            let count = armed.commands.len();
            &&& up.mode is CalibratingClock
            &&& up.pending() == (Action::Ask {
                query: Query::SelectRecoveredClock { recovered: true },
            })
            &&& switched.succeeded() ==> up.after(switched).pending() == (Action::Ask {
                query: Query::CalibrateSkew { phase: SIPHASER_PHASE },
            })
            &&& switched.succeeded() && calibrated.succeeded() ==> {
                &&& armed.mode is Active
                &&& armed.commands == arm_commands(node.caps)
                &&& armed.cursor == 0
                &&& count >= 3
                &&& armed.commands[count - 3] == Command::ResetAux
                &&& armed.commands[count - 2] == (Command::SetReset { asserted: false })
                &&& armed.commands[count - 1] == (Command::SetResetPhy { asserted: false })
                &&& armed.query is LinkUp
            }
            &&& !switched.succeeded() ==> armed.mode == (Mode::Halted { cause: Fatal::ClockSwitch })
            &&& switched.succeeded() && !calibrated.succeeded() ==> armed.mode == (Mode::Halted {
                cause: Fatal::SkewCalibration,
            })
            &&& !(switched.succeeded() && calibrated.succeeded()) ==> armed.pending() is Halt
        }),
{
}

/// When the uplink of an active node goes down, both reset lines are
/// asserted, the time-base latch is drained, and the clock is switched back
/// to the crystal before the node looks at the uplink again.
pub proof fn lemma_link_down_disarms_the_node(node: SatelliteView, flag: u8, latch: u8)
    requires
        node.mode is Active,
        node.cursor == node.commands.len(),
        node.query is LinkUp,
        flag != 1,
    ensures
        ({
            let down = node.after(Event::Byte { value: flag });
            let count = down.commands.len();
            let drained = (SatelliteView { cursor: count, ..down }).after(
                Event::Byte { value: latch },
            );
            &&& down.mode is Down
            &&& down.commands == disarm_commands(node.caps)
            &&& count >= 2
            &&& down.commands[count - 2] == (Command::SetResetPhy { asserted: true })
            &&& down.commands[count - 1] == (Command::SetReset { asserted: true })
            &&& down.query is TscLoaded
            &&& drained.mode is Down
            &&& drained.query == (Query::SelectRecoveredClock { recovered: false })
            &&& latch == 1 ==> drained.commands == seq![Command::ClearTscLoaded]
            &&& latch != 1 ==> drained.commands.len() == 0
        }),
{
    let down = node.after(Event::Byte { value: flag });
    assert(down.commands =~= disarm_commands(node.caps));
}

/// No failure passes in silence: a downstream link that did not carry out
/// an order, a packet that could not be sent and an alignment that failed
/// are reported, and so is a look at the auxiliary channel that failed.
pub proof fn lemma_failures_are_reported(node: SatelliteView, event: Event)
    requires
        !(node.mode is Halted),
        !event.succeeded(),
    ensures
        node.pending() matches Action::Do { command } && (command is Send
            || command is AlignSysrefRtio || command is AlignSysrefDac || (
        command matches Command::Link { order, .. } && !(order is Service))) ==> node.report(
            event,
        ) is Some,
        node.pending() == (Action::Ask { query: Query::ReceiveAux }) && event is Failed
            ==> node.report(event) == Some(Report::AuxError),
{
}

/// What a request asks of the hardware is carried out to the end, in
/// order, whatever each command ends in: once the request has come in, the
/// command at each place of its script falls due after as many events as
/// there are commands before it.
pub proof fn lemma_request_is_carried_out(node: SatelliteView, packet: Packet, events: Seq<Event>)
    requires
        !(node.mode is Halted),
        node.cursor == node.commands.len(),
        node.query is ReceiveAux,
        events.len() < receive_reaction(
            node.caps,
            node.routing,
            node.mode,
            Event::Received { packet },
        ).script.commands.len(),
    ensures
        ({
            let script = receive_reaction(
                node.caps,
                node.routing,
                node.mode,
                Event::Received { packet },
            ).script;
            node.after(Event::Received { packet }).run(events).pending() == (Action::Do {
                command: script.commands[events.len() as int],
            })
        }),
{
    lemma_commands_follow_whatever_happens(node.after(Event::Received { packet }), events);
}

/// Whenever the rank or the routing table changes, every downstream link
/// is told the new rank plus one, whatever became of the orders before
/// its own.
pub proof fn lemma_every_link_is_told_its_rank(
    node: SatelliteView,
    packet: Packet,
    link: u8,
    events: Seq<Event>,
)
    requires
        node.wf(),
        !(node.mode is Halted),
        node.cursor == node.commands.len(),
        node.query is ReceiveAux,
        node.caps.routing,
        link < node.caps.links,
        packet is RoutingSetPath || (packet matches Packet::RoutingSetRank { rank } && rank
            <= MAX_RANK),
        events.len() == handle(node.caps, node.routing, packet).commands.len() - node.caps.links
            + link,
    ensures
        ({
            let changed = node.after(Event::Received { packet });
            &&& packet matches Packet::RoutingSetRank { rank } ==> changed.routing.rank == rank
            &&& changed.run(events).pending() == (Action::Do {
                command: Command::Link {
                    link,
                    order: LinkOrder::SetRank { rank: (changed.routing.rank + 1) as u8 },
                },
            })
        }),
{
    lemma_rank_reaches_every_link(node.caps, node.routing, packet, link);
    lemma_request_is_carried_out(node, packet, events);
}

/// A tick of an active node keeps its order: after the uplink flag the
/// faults are polled; after the faults the auxiliary channel is looked at;
/// after the request, if there was one, and its reply, every downstream link
/// is serviced and then the time-base latch is read; after the latch the
/// uplink flag is read again. Nothing on the way changes the mode.
pub proof fn lemma_active_tick_keeps_its_order(
    caps: Capabilities,
    routing: RoutingView,
    errors: Event,
    received: Event,
    latch: Event,
)
    ensures
        ({
            let mode = Mode::Active;
            let polled = react(caps, routing, mode, Query::ProtocolErrors, errors);
            let looked = react(caps, routing, mode, Query::ReceiveAux, received);
            let read = react(caps, routing, mode, Query::TscLoaded, latch);
            &&& react(caps, routing, mode, Query::LinkUp, Event::Byte { value: 1 }) == ask(
                mode,
                Query::ProtocolErrors,
            )
            &&& polled.mode == mode && polled.script.query == Query::ReceiveAux
            &&& looked.mode == mode
            &&& looked.script.query is TscLoaded || (received matches Event::Received { packet }
                && handle(caps, routing, packet).next == (Next::Ask {
                query: looked.script.query,
            }))
            &&& read.mode == mode && read.script.query == Query::LinkUp
        }),
{
}

/// A node whose uplink is down still polls its faults and services every
/// downstream link, and then reads the uplink flag again.
pub proof fn lemma_idle_tick_services_the_links(caps: Capabilities, errors: u8, link: u8)
    requires
        link < caps.link_count(),
    ensures
        ({
            let mode = Mode::Down;
            let polled = fault_reaction(caps, mode, Event::Byte { value: errors });
            let count = polled.script.commands.len();
            &&& link_reaction(caps, mode, Event::Byte { value: 0 }) == ask(
                mode,
                Query::ProtocolErrors,
            )
            &&& polled.mode == mode
            &&& polled.script.query == Query::LinkUp
            &&& count == protocol_error_commands(errors).len() + caps.link_count()
            &&& polled.script.commands[count - caps.link_count() + link] == (Command::Link {
                link,
                order: LinkOrder::Service,
            })
        }),
{
    let polled = fault_reaction(caps, Mode::Down, Event::Byte { value: errors });
    let count = polled.script.commands.len();
    assert(polled.script.commands[count - caps.link_count() + link] == service(caps)[link as int]);
}

} // verus!
