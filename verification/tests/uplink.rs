use satman::action::{
    si5324_settings, Capabilities, Command, Event, Fatal, FrequencySettings, LinkOrder, Query,
    Report, ATTENUATION, SIPHASER_PHASE,
};
use satman::packet::Packet;
use satman::script::{Mode, Plan};
use satman::uplink::{
    after_calibration, after_clock_device, after_clock_switch, after_slave_fpga,
    after_synthesizer, drtiosat_link_rx_up, drtiosat_tsc_loaded, start_bring_up,
};

fn bare() -> Capabilities {
    Capabilities {
        routing: false,
        links: 0,
        monitoring: false,
        converters: false,
        slave_fpga: false,
        serwb: false,
        synthesizer: false,
        attenuators: false,
    }
}

fn full(links: u8) -> Capabilities {
    Capabilities {
        routing: true,
        links,
        monitoring: true,
        converters: true,
        slave_fpga: true,
        serwb: true,
        synthesizer: true,
        attenuators: true,
    }
}

fn plan(mode: Mode, commands: Vec<Command>, query: Query, report: Option<Report>) -> Plan {
    Plan { mode, commands, query, report }
}

fn halted(cause: Fatal, query: Query) -> Plan {
    plan(Mode::Halted { cause }, vec![], query, None)
}

fn setup() -> Query {
    Query::SetupClockDevice { settings: si5324_settings() }
}

#[test]
fn clock_recombiner_settings() {
    assert_eq!(
        si5324_settings(),
        FrequencySettings {
            n1_hs: 6,
            nc1_ls: 6,
            n2_hs: 10,
            n2_ls: 270,
            n31: 75,
            n32: 75,
            bwsel: 4,
            crystal_ref: true,
        }
    );
    assert_eq!(SIPHASER_PHASE, 32);
    assert_eq!(ATTENUATION, 8);
}

#[test]
fn bring_up_starts_with_the_second_fpga_where_there_is_one() {
    assert_eq!(start_bring_up(&full(1)), plan(Mode::Boot, vec![], Query::LoadSlaveFpga, None));
}

#[test]
fn bring_up_starts_with_the_bus_where_there_is_no_second_fpga() {
    assert_eq!(start_bring_up(&bare()), plan(Mode::Boot, vec![Command::InitI2c], setup(), None));
    let mut caps = bare();
    caps.serwb = true;
    assert_eq!(
        start_bring_up(&caps),
        plan(Mode::Boot, vec![Command::WaitSerwb, Command::InitI2c], setup(), None)
    );
}

#[test]
fn loaded_fpga_leads_to_the_clock_recombiner() {
    assert_eq!(
        after_slave_fpga(&full(1), Mode::Boot, Event::Done),
        plan(Mode::Boot, vec![Command::WaitSerwb, Command::InitI2c], setup(), None)
    );
}

#[test]
fn fpga_that_does_not_load_halts() {
    assert_eq!(
        after_slave_fpga(&full(1), Mode::Boot, Event::Failed),
        halted(Fatal::SlaveFpgaLoad, Query::LoadSlaveFpga)
    );
}

#[test]
fn clock_recombiner_leads_to_the_synthesizer_or_to_the_uplink() {
    let settings = si5324_settings();
    assert_eq!(
        after_clock_device(&full(1), Mode::Boot, settings, Event::Done),
        plan(Mode::Boot, vec![], Query::InitSynthesizer, None)
    );
    assert_eq!(
        after_clock_device(&bare(), Mode::Boot, settings, Event::Done),
        plan(Mode::Down, vec![Command::MarkClockInputStable], Query::LinkUp, None)
    );
}

#[test]
fn clock_recombiner_that_fails_halts() {
    let settings = si5324_settings();
    assert_eq!(
        after_clock_device(&full(1), Mode::Boot, settings, Event::Failed),
        halted(Fatal::ClockDeviceSetup, setup())
    );
}

#[test]
fn synthesizer_leads_to_the_uplink() {
    assert_eq!(
        after_synthesizer(&full(1), Mode::Boot, Event::Done),
        plan(
            Mode::Down,
            vec![
                Command::MarkClockInputStable,
                Command::ProgramAttenuators { attenuation: 8 },
            ],
            Query::LinkUp,
            None
        )
    );
}

#[test]
fn synthesizer_that_fails_halts() {
    assert_eq!(
        after_synthesizer(&full(1), Mode::Boot, Event::Failed),
        halted(Fatal::SynthesizerInit, Query::InitSynthesizer)
    );
}

#[test]
fn link_up_starts_calibration() {
    assert_eq!(
        drtiosat_link_rx_up(&bare(), Mode::Down, Event::Byte { value: 1 }),
        plan(
            Mode::CalibratingClock,
            vec![],
            Query::SelectRecoveredClock { recovered: true },
            Some(Report::UplinkUp)
        )
    );
}

#[test]
fn link_still_down_polls_faults() {
    assert_eq!(
        drtiosat_link_rx_up(&bare(), Mode::Down, Event::Byte { value: 0 }),
        plan(Mode::Down, vec![], Query::ProtocolErrors, None)
    );
}

#[test]
fn link_flag_counts_only_as_one() {
    for value in [0u8, 2, 3, 0x80, 0xff] {
        assert_eq!(
            drtiosat_link_rx_up(&bare(), Mode::Down, Event::Byte { value }),
            plan(Mode::Down, vec![], Query::ProtocolErrors, None)
        );
    }
    assert_eq!(
        drtiosat_link_rx_up(&bare(), Mode::Down, Event::Failed),
        plan(Mode::Down, vec![], Query::ProtocolErrors, None)
    );
}

#[test]
fn link_still_up_goes_on_with_the_tick() {
    assert_eq!(
        drtiosat_link_rx_up(&full(2), Mode::Active, Event::Byte { value: 1 }),
        plan(Mode::Active, vec![], Query::ProtocolErrors, None)
    );
}

#[test]
fn link_down_disarms() {
    assert_eq!(
        drtiosat_link_rx_up(&bare(), Mode::Active, Event::Byte { value: 0 }),
        plan(
            Mode::Down,
            vec![Command::SetResetPhy { asserted: true }, Command::SetReset { asserted: true }],
            Query::TscLoaded,
            Some(Report::UplinkDown)
        )
    );
    assert_eq!(
        drtiosat_link_rx_up(&full(2), Mode::Active, Event::Byte { value: 0 }),
        plan(
            Mode::Down,
            vec![
                Command::SetConverterReset { asserted: true },
                Command::SetResetPhy { asserted: true },
                Command::SetReset { asserted: true },
            ],
            Query::TscLoaded,
            Some(Report::UplinkDown)
        )
    );
}

#[test]
fn switched_clock_leads_to_calibration() {
    assert_eq!(
        after_clock_switch(Mode::CalibratingClock, true, Event::Done),
        plan(Mode::CalibratingClock, vec![], Query::CalibrateSkew { phase: 32 }, None)
    );
}

#[test]
fn clock_back_on_the_crystal_leads_to_the_uplink_flag() {
    assert_eq!(
        after_clock_switch(Mode::Down, false, Event::Done),
        plan(Mode::Down, vec![], Query::LinkUp, None)
    );
}

#[test]
fn clock_that_does_not_switch_halts() {
    assert_eq!(
        after_clock_switch(Mode::CalibratingClock, true, Event::Failed),
        halted(Fatal::ClockSwitch, Query::SelectRecoveredClock { recovered: true })
    );
    assert_eq!(
        after_clock_switch(Mode::Down, false, Event::Failed),
        halted(Fatal::ClockSwitch, Query::SelectRecoveredClock { recovered: false })
    );
}

#[test]
fn calibration_arms_the_node() {
    assert_eq!(
        after_calibration(&bare(), 32, Event::Done),
        plan(
            Mode::Active,
            vec![
                Command::ResetAux,
                Command::SetReset { asserted: false },
                Command::SetResetPhy { asserted: false },
            ],
            Query::LinkUp,
            None
        )
    );
    assert_eq!(
        after_calibration(&full(2), 32, Event::Done),
        plan(
            Mode::Active,
            vec![
                Command::SetConverterReset { asserted: false },
                Command::InitConverters,
                Command::ResetAux,
                Command::SetReset { asserted: false },
                Command::SetResetPhy { asserted: false },
            ],
            Query::LinkUp,
            None
        )
    );
}

#[test]
fn calibration_that_fails_halts() {
    assert_eq!(
        after_calibration(&bare(), 32, Event::Failed),
        halted(Fatal::SkewCalibration, Query::CalibrateSkew { phase: 32 })
    );
}

#[test]
fn loaded_time_base_is_cleared_then_aligned() {
    assert_eq!(
        drtiosat_tsc_loaded(&full(2), Mode::Active, Event::Byte { value: 1 }),
        plan(
            Mode::Active,
            vec![
                Command::ClearTscLoaded,
                Command::AlignSysrefRtio,
                Command::AlignSysrefDac,
                Command::Link { link: 0, order: LinkOrder::SyncTsc },
                Command::Link { link: 1, order: LinkOrder::SyncTsc },
                Command::Send { packet: Packet::TSCAck },
            ],
            Query::LinkUp,
            Some(Report::TscLoaded)
        )
    );
    assert_eq!(
        drtiosat_tsc_loaded(&bare(), Mode::Active, Event::Byte { value: 1 }),
        plan(
            Mode::Active,
            vec![Command::ClearTscLoaded, Command::Send { packet: Packet::TSCAck }],
            Query::LinkUp,
            Some(Report::TscLoaded)
        )
    );
}

#[test]
fn time_base_that_was_not_loaded_is_left_alone() {
    for value in [0u8, 2, 0xff] {
        assert_eq!(
            drtiosat_tsc_loaded(&full(2), Mode::Active, Event::Byte { value }),
            plan(Mode::Active, vec![], Query::LinkUp, None)
        );
    }
}

#[test]
fn latch_is_drained_when_the_uplink_went_down() {
    assert_eq!(
        drtiosat_tsc_loaded(&full(2), Mode::Down, Event::Byte { value: 1 }),
        plan(
            Mode::Down,
            vec![Command::ClearTscLoaded],
            Query::SelectRecoveredClock { recovered: false },
            None
        )
    );
    assert_eq!(
        drtiosat_tsc_loaded(&full(2), Mode::Down, Event::Byte { value: 0 }),
        plan(Mode::Down, vec![], Query::SelectRecoveredClock { recovered: false }, None)
    );
}
