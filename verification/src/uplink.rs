//! The uplink: bring-up, the link and clock state machine, and the time
//! base.
//!
//! The node trusts nothing that comes down the uplink before its clock has
//! been switched to the recovered one and its skew calibrated. Both are
//! vital: if either fails the node halts, since a time base that is off
//! would spoil every node below.

use crate::action::{
    rtio_150mhz, si5324_settings, Capabilities, Command, Event, Fatal, FrequencySettings,
    LinkOrder, Query, Report, ATTENUATION, SIPHASER_PHASE,
};
use crate::fanout::{fan_out, fan_out_to};
use crate::packet::Packet;
use crate::script::{ask, halt, Mode, Plan, Reaction, Script};
use vstd::prelude::*;

verus! {

/// Bring-up from the clock recombiner on.
pub open spec fn clock_device_stage(caps: Capabilities) -> Script {
    Script {
        commands: (if caps.serwb {
            seq![Command::WaitSerwb]
        } else {
            Seq::empty()
        }) + seq![Command::InitI2c],
        query: Query::SetupClockDevice { settings: rtio_150mhz() },
    }
}

/// The first stage of bring-up.
pub open spec fn bring_up(caps: Capabilities) -> Script {
    if caps.slave_fpga {
        Script { commands: Seq::empty(), query: Query::LoadSlaveFpga }
    } else {
        clock_device_stage(caps)
    }
}

/// The end of bring-up. From here on the node watches the uplink.
pub open spec fn ready(caps: Capabilities) -> Script {
    Script {
        commands: seq![Command::MarkClockInputStable] + (if caps.attenuators {
            seq![Command::ProgramAttenuators { attenuation: ATTENUATION }]
        } else {
            Seq::empty()
        }),
        query: Query::LinkUp,
    }
}

/// What is done on entering `Active`: the converters are released, the
/// auxiliary channel is reset, and both local reset lines are deasserted.
pub open spec fn arm_commands(caps: Capabilities) -> Seq<Command> {
    (if caps.converters {
        seq![Command::SetConverterReset { asserted: false }, Command::InitConverters]
    } else {
        Seq::empty()
    }) + seq![
        Command::ResetAux,
        Command::SetReset { asserted: false },
        Command::SetResetPhy { asserted: false },
    ]
}

/// What is done on leaving `Active`: the converters are held in reset and
/// both local reset lines are asserted.
pub open spec fn disarm_commands(caps: Capabilities) -> Seq<Command> {
    (if caps.converters {
        seq![Command::SetConverterReset { asserted: true }]
    } else {
        Seq::empty()
    }) + seq![Command::SetResetPhy { asserted: true }, Command::SetReset { asserted: true }]
}

/// What is done once the time base has been loaded: the latch is cleared
/// first, then the converters are aligned, every downstream link is told to
/// align, and the load is acknowledged upstream.
pub open spec fn time_base_commands(caps: Capabilities) -> Seq<Command> {
    seq![Command::ClearTscLoaded] + (if caps.converters {
        seq![Command::AlignSysrefRtio, Command::AlignSysrefDac]
    } else {
        Seq::empty()
    }) + fan_out(caps.link_count(), LinkOrder::SyncTsc) + seq![
        Command::Send { packet: Packet::TSCAck },
    ]
}

/// What loading the second FPGA leads to. Vital.
pub open spec fn slave_fpga_reaction(caps: Capabilities, mode: Mode, event: Event) -> Reaction {
    if event.succeeded() {
        Reaction { mode, script: clock_device_stage(caps), report: None }
    } else {
        halt(Query::LoadSlaveFpga, Fatal::SlaveFpgaLoad)
    }
}

/// What setting up the clock recombiner leads to. Vital.
pub open spec fn clock_device_reaction(
    caps: Capabilities,
    mode: Mode,
    settings: FrequencySettings,
    event: Event,
) -> Reaction {
    if !event.succeeded() {
        halt(Query::SetupClockDevice { settings }, Fatal::ClockDeviceSetup)
    } else if caps.synthesizer {
        ask(mode, Query::InitSynthesizer)
    } else {
        Reaction { mode: Mode::Down, script: ready(caps), report: None }
    }
}

/// What initializing the synthesizer leads to. Vital.
pub open spec fn synthesizer_reaction(caps: Capabilities, mode: Mode, event: Event) -> Reaction {
    if event.succeeded() {
        Reaction { mode: Mode::Down, script: ready(caps), report: None }
    } else {
        halt(Query::InitSynthesizer, Fatal::SynthesizerInit)
    }
}

/// What the uplink flag leads to. A node that is not active starts to
/// calibrate its clock when the flag is set, and else polls faults and
/// services its links. An active node goes on with its tick while the flag
/// is set, and else disarms and drains the time-base latch.
pub open spec fn link_reaction(caps: Capabilities, mode: Mode, event: Event) -> Reaction {
    if mode is Active {
        if event.is_set() {
            ask(mode, Query::ProtocolErrors)
        } else {
            Reaction {
                mode: Mode::Down,
                script: Script { commands: disarm_commands(caps), query: Query::TscLoaded },
                report: Some(Report::UplinkDown),
            }
        }
    } else {
        if event.is_set() {
            Reaction {
                mode: Mode::CalibratingClock,
                script: Script {
                    commands: Seq::empty(),
                    query: Query::SelectRecoveredClock { recovered: true },
                },
                report: Some(Report::UplinkUp),
            }
        } else {
            ask(Mode::Down, Query::ProtocolErrors)
        }
    }
}

/// What switching the clock leads to: to the recovered clock, calibration;
/// back to the crystal, a node whose uplink is down. Vital.
pub open spec fn clock_switch_reaction(mode: Mode, recovered: bool, event: Event) -> Reaction {
    if !event.succeeded() {
        halt(Query::SelectRecoveredClock { recovered }, Fatal::ClockSwitch)
    } else if recovered {
        ask(mode, Query::CalibrateSkew { phase: SIPHASER_PHASE })
    } else {
        ask(Mode::Down, Query::LinkUp)
    }
}

/// What calibrating the skew leads to: an active node. Vital.
pub open spec fn calibration_reaction(caps: Capabilities, phase: u16, event: Event) -> Reaction {
    if event.succeeded() {
        Reaction {
            mode: Mode::Active,
            script: Script { commands: arm_commands(caps), query: Query::LinkUp },
            report: None,
        }
    } else {
        halt(Query::CalibrateSkew { phase }, Fatal::SkewCalibration)
    }
}

/// What the time-base latch leads to. In an active node a set latch starts
/// the alignment; in a node whose uplink just went down the latch is only
/// cleared, and the clock is switched back to the crystal.
pub open spec fn latch_reaction(caps: Capabilities, mode: Mode, event: Event) -> Reaction {
    if mode is Active {
        if event.is_set() {
            Reaction {
                mode,
                script: Script { commands: time_base_commands(caps), query: Query::LinkUp },
                report: Some(Report::TscLoaded),
            }
        } else {
            ask(mode, Query::LinkUp)
        }
    } else {
        Reaction {
            mode,
            script: Script {
                commands: if event.is_set() {
                    seq![Command::ClearTscLoaded]
                } else {
                    Seq::empty()
                },
                query: Query::SelectRecoveredClock { recovered: false },
            },
            report: None,
        }
    }
}

/// Appends the commands of `clock_device_stage` and returns its query.
fn start_clock_device(caps: &Capabilities, commands: &mut Vec<Command>) -> (query: Query)
    ensures
        final(commands)@ == old(commands)@ + clock_device_stage(*caps).commands,
        query == clock_device_stage(*caps).query,
{
    let ghost before = commands@;
    if caps.serwb {
        commands.push(Command::WaitSerwb);
    }
    commands.push(Command::InitI2c);
    assert(commands@ =~= before + clock_device_stage(*caps).commands);
    Query::SetupClockDevice { settings: si5324_settings() }
}

/// Appends the commands of `ready` and returns its query.
fn finish_bring_up(caps: &Capabilities, commands: &mut Vec<Command>) -> (query: Query)
    ensures
        final(commands)@ == old(commands)@ + ready(*caps).commands,
        query == ready(*caps).query,
{
    let ghost before = commands@;
    commands.push(Command::MarkClockInputStable);
    if caps.attenuators {
        commands.push(Command::ProgramAttenuators { attenuation: ATTENUATION });
    }
    assert(commands@ =~= before + ready(*caps).commands);
    Query::LinkUp
}

/// The first script of a node: the start of bring-up.
pub fn start_bring_up(caps: &Capabilities) -> (plan: Plan)
    ensures
        plan@ == (Reaction { mode: Mode::Boot, script: bring_up(*caps), report: None }),
{
    let mut commands: Vec<Command> = Vec::new();
    let query = if caps.slave_fpga {
        Query::LoadSlaveFpga
    } else {
        start_clock_device(caps, &mut commands)
    };
    assert(commands@ =~= bring_up(*caps).commands);
    Plan { mode: Mode::Boot, commands, query, report: None }
}

/// Takes what loading the second FPGA ended in.
pub fn after_slave_fpga(caps: &Capabilities, mode: Mode, event: Event) -> (plan: Plan)
    ensures
        plan@ == slave_fpga_reaction(*caps, mode, event),
{
    let mut commands: Vec<Command> = Vec::new();
    if event.has_succeeded() {
        let query = start_clock_device(caps, &mut commands);
        assert(commands@ =~= clock_device_stage(*caps).commands);
        Plan { mode, commands, query, report: None }
    } else {
        Plan {
            mode: Mode::Halted { cause: Fatal::SlaveFpgaLoad },
            commands,
            query: Query::LoadSlaveFpga,
            report: None,
        }
    }
}

/// Takes what setting up the clock recombiner ended in.
pub fn after_clock_device(
    caps: &Capabilities,
    mode: Mode,
    settings: FrequencySettings,
    event: Event,
) -> (plan: Plan)
    ensures
        plan@ == clock_device_reaction(*caps, mode, settings, event),
{
    let mut commands: Vec<Command> = Vec::new();
    if !event.has_succeeded() {
        Plan {
            mode: Mode::Halted { cause: Fatal::ClockDeviceSetup },
            commands,
            query: Query::SetupClockDevice { settings },
            report: None,
        }
    } else if caps.synthesizer {
        Plan { mode, commands, query: Query::InitSynthesizer, report: None }
    } else {
        let query = finish_bring_up(caps, &mut commands);
        assert(commands@ =~= ready(*caps).commands);
        Plan { mode: Mode::Down, commands, query, report: None }
    }
}

/// Takes what initializing the synthesizer ended in.
pub fn after_synthesizer(caps: &Capabilities, mode: Mode, event: Event) -> (plan: Plan)
    ensures
        plan@ == synthesizer_reaction(*caps, mode, event),
{
    let mut commands: Vec<Command> = Vec::new();
    if event.has_succeeded() {
        let query = finish_bring_up(caps, &mut commands);
        assert(commands@ =~= ready(*caps).commands);
        Plan { mode: Mode::Down, commands, query, report: None }
    } else {
        Plan {
            mode: Mode::Halted { cause: Fatal::SynthesizerInit },
            commands,
            query: Query::InitSynthesizer,
            report: None,
        }
    }
}

/// Takes what the uplink flag read as.
pub fn drtiosat_link_rx_up(caps: &Capabilities, mode: Mode, event: Event) -> (plan: Plan)
    ensures
        plan@ == link_reaction(*caps, mode, event),
{
    let mut commands: Vec<Command> = Vec::new();
    let up = event.reads_set();
    match mode {
        Mode::Active => {
            if up {
                Plan { mode, commands, query: Query::ProtocolErrors, report: None }
            } else {
                if caps.converters {
                    commands.push(Command::SetConverterReset { asserted: true });
                }
                commands.push(Command::SetResetPhy { asserted: true });
                commands.push(Command::SetReset { asserted: true });
                assert(commands@ =~= disarm_commands(*caps));
                Plan {
                    mode: Mode::Down,
                    commands,
                    query: Query::TscLoaded,
                    report: Some(Report::UplinkDown),
                }
            }
        },
        _ => {
            if up {
                Plan {
                    mode: Mode::CalibratingClock,
                    commands,
                    query: Query::SelectRecoveredClock { recovered: true },
                    report: Some(Report::UplinkUp),
                }
            } else {
                Plan { mode: Mode::Down, commands, query: Query::ProtocolErrors, report: None }
            }
        },
    }
}

/// Takes what switching the clock ended in.
pub fn after_clock_switch(mode: Mode, recovered: bool, event: Event) -> (plan: Plan)
    ensures
        plan@ == clock_switch_reaction(mode, recovered, event),
{
    let commands: Vec<Command> = Vec::new();
    if !event.has_succeeded() {
        Plan {
            mode: Mode::Halted { cause: Fatal::ClockSwitch },
            commands,
            query: Query::SelectRecoveredClock { recovered },
            report: None,
        }
    } else if recovered {
        Plan { mode, commands, query: Query::CalibrateSkew { phase: SIPHASER_PHASE }, report: None }
    } else {
        Plan { mode: Mode::Down, commands, query: Query::LinkUp, report: None }
    }
}

/// Takes what calibrating the skew ended in.
pub fn after_calibration(caps: &Capabilities, phase: u16, event: Event) -> (plan: Plan)
    ensures
        plan@ == calibration_reaction(*caps, phase, event),
{
    let mut commands: Vec<Command> = Vec::new();
    if event.has_succeeded() {
        if caps.converters {
            commands.push(Command::SetConverterReset { asserted: false });
            commands.push(Command::InitConverters);
        }
        commands.push(Command::ResetAux);
        commands.push(Command::SetReset { asserted: false });
        commands.push(Command::SetResetPhy { asserted: false });
        assert(commands@ =~= arm_commands(*caps));
        Plan { mode: Mode::Active, commands, query: Query::LinkUp, report: None }
    } else {
        Plan {
            mode: Mode::Halted { cause: Fatal::SkewCalibration },
            commands,
            query: Query::CalibrateSkew { phase },
            report: None,
        }
    }
}

/// Takes what the time-base latch read as. A latch that is set is cleared
/// before anything else is done.
pub fn drtiosat_tsc_loaded(caps: &Capabilities, mode: Mode, event: Event) -> (plan: Plan)
    ensures
        plan@ == latch_reaction(*caps, mode, event),
{
    let mut commands: Vec<Command> = Vec::new();
    let loaded = event.reads_set();
    if loaded {
        commands.push(Command::ClearTscLoaded);
    }
    match mode {
        Mode::Active => {
            if loaded {
                if caps.converters {
                    commands.push(Command::AlignSysrefRtio);
                    commands.push(Command::AlignSysrefDac);
                }
                fan_out_to(caps.links_driven(), LinkOrder::SyncTsc, &mut commands);
                commands.push(Command::Send { packet: Packet::TSCAck });
                assert(commands@ =~= time_base_commands(*caps));
                Plan { mode, commands, query: Query::LinkUp, report: Some(Report::TscLoaded) }
            } else {
                Plan { mode, commands, query: Query::LinkUp, report: None }
            }
        },
        _ => {
            assert(commands@ =~= latch_reaction(*caps, mode, event).script.commands);
            Plan {
                mode,
                commands,
                query: Query::SelectRecoveredClock { recovered: false },
                report: None,
            }
        },
    }
}

/// What the time-base latch holds after `commands`, if it held `latch`
/// before and the time base was not loaded again.
pub open spec fn latch_after(latch: u8, commands: Seq<Command>) -> u8
    decreases commands.len(),
{
    if commands.len() == 0 {
        latch
    } else {
        match commands.last() {
            Command::ClearTscLoaded => 0,
            _ => latch_after(latch, commands.drop_last()),
        }
    }
}

/// Once the latch has been cleared it stays clear, whatever else follows.
pub proof fn lemma_latch_cleared_first(latch: u8, commands: Seq<Command>)
    requires
        commands.len() > 0,
        commands[0] == Command::ClearTscLoaded,
    ensures
        latch_after(latch, commands) == 0,
    decreases commands.len(),
{
    if commands.len() > 1 {
        lemma_latch_cleared_first(latch, commands.drop_last());
    }
}

/// The alignment sequence clears the latch before anything else, tells
/// every downstream link to align, and acknowledges upstream last.
pub proof fn lemma_time_base_commands(caps: Capabilities, latch: u8, link: u8)
    requires
        link < caps.link_count(),
    ensures
        ({
            let commands = time_base_commands(caps);
            let aligned: int = if caps.converters {
                3
            } else {
                1
            };
            &&& commands.len() == aligned + caps.link_count() + 1
            &&& commands[0] == Command::ClearTscLoaded
            &&& commands[aligned + link] == (Command::Link { link, order: LinkOrder::SyncTsc })
            &&& commands.last() == (Command::Send { packet: Packet::TSCAck })
            &&& latch_after(latch, commands) == 0
        }),
{
    let commands = time_base_commands(caps);
    let aligned: int = if caps.converters {
        3
    } else {
        1
    };
    assert(commands[aligned + link] == fan_out(caps.link_count(), LinkOrder::SyncTsc)[link as int]);
    lemma_latch_cleared_first(latch, commands);
}

/// Reading the time-base latch clears it: if it was set, the first command
/// that follows clears it, so that a second read finds it clear unless the
/// time base was loaded again; if it was not set, nothing is done to it. The
/// alignment sequence is what follows a set latch in an active node, and
/// nothing else starts it.
pub proof fn lemma_latch_is_read_once(caps: Capabilities, mode: Mode, latch: u8)
    ensures
        ({
            let reaction = latch_reaction(caps, mode, Event::Byte { value: latch });
            let commands = reaction.script.commands;
            &&& latch_after(latch, commands) != 1
            &&& latch == 1 ==> commands.len() > 0 && commands[0] == Command::ClearTscLoaded
            &&& latch != 1 ==> commands.len() == 0
            &&& commands == time_base_commands(caps) <==> mode is Active && latch == 1
            &&& reaction.mode == mode
        }),
{
    let reaction = latch_reaction(caps, mode, Event::Byte { value: latch });
    let commands = reaction.script.commands;
    assert(time_base_commands(caps)[0] == Command::ClearTscLoaded);
    assert(time_base_commands(caps).len() >= 2);
    if latch == 1 {
        lemma_latch_cleared_first(latch, commands);
    }
}

} // verus!
