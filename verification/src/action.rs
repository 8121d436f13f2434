//! What the node asks of the hardware, and what the hardware answers.
//!
//! A `Command` is work whose outcome never changes what the node does next:
//! at most it is reported. A `Query` is work whose answer decides what
//! follows. The node names one `Action` at a time and is handed one `Event`
//! for it.

use crate::packet::Packet;
use crate::routing::HopPath;
use vstd::prelude::*;

verus! {

/// Phase that skew calibration aims at.
pub const SIPHASER_PHASE: u16 = 32;

/// Attenuation, in steps of half a decibel, that every attenuator is
/// programmed with at boot.
pub const ATTENUATION: u8 = 8;

/// Divider and bandwidth settings of the clock recombiner.
#[derive(Clone, Copy, Debug, PartialEq, Eq)]
pub struct FrequencySettings {
    pub n1_hs: u8,
    pub nc1_ls: u32,
    pub n2_hs: u8,
    pub n2_ls: u32,
    pub n31: u32,
    pub n32: u32,
    pub bwsel: u8,
    pub crystal_ref: bool,
}

/// The settings for an RTIO clock of 150 MHz.
pub open spec fn rtio_150mhz() -> FrequencySettings {
    FrequencySettings {
        n1_hs: 6,
        nc1_ls: 6,
        n2_hs: 10,
        n2_ls: 270,
        n31: 75,
        n32: 75,
        bwsel: 4,
        crystal_ref: true,
    }
}

/// The settings for an RTIO clock of 150 MHz.
pub fn si5324_settings() -> (settings: FrequencySettings)
    ensures
        settings == rtio_150mhz(),
{
    FrequencySettings {
        n1_hs: 6,
        nc1_ls: 6,
        n2_hs: 10,
        n2_ls: 270,
        n31: 75,
        n32: 75,
        bwsel: 4,
        crystal_ref: true,
    }
}

/// What the hardware build offers. Assembled once at startup.
#[derive(Clone, Copy, Debug, PartialEq, Eq)]
pub struct Capabilities {
    /// Downstream routing: repeaters and the routing interconnect.
    pub routing: bool,
    /// Number of downstream links, counted only where `routing` is set.
    pub links: u8,
    /// Monitoring and injection hardware.
    pub monitoring: bool,
    /// Data converters behind a JESD204 link.
    pub converters: bool,
    /// A second FPGA that is loaded at boot.
    pub slave_fpga: bool,
    /// A serial bridge to the second board.
    pub serwb: bool,
    /// A clock synthesizer and distribution chip pair.
    pub synthesizer: bool,
    /// Programmable attenuators.
    pub attenuators: bool,
}

impl Capabilities {
    /// Number of downstream links that the node drives.
    pub open spec fn link_count(self) -> nat {
        if self.routing {
            self.links as nat
        } else {
            0
        }
    }

    /// Number of downstream links that the node drives.
    pub fn links_driven(&self) -> (n: u8)
        ensures
            n == self.link_count(),
    {
        if self.routing {
            self.links
        } else {
            0
        }
    }
}

/// What is asked of one downstream link.
#[derive(Clone, Copy, Debug, PartialEq, Eq)]
pub enum LinkOrder {
    /// Run the link's own state machine once.
    Service,
    /// Reset the remote timing domain, whole or physical layer only.
    Reset { phy: bool },
    /// Replace one routing entry.
    SetPath { destination: u8, hops: HopPath },
    /// Tell the remote node its rank.
    SetRank { rank: u8 },
    /// Align the remote time base.
    SyncTsc,
}

/// Work whose outcome does not steer the node.
#[derive(Clone, Copy, Debug, PartialEq, Eq)]
pub enum Command {
    /// Wait for the serial bridge.
    WaitSerwb,
    /// Bring up the two-wire bus.
    InitI2c,
    /// Tell the transceiver that its input clock is stable.
    MarkClockInputStable,
    /// Program every attenuator.
    ProgramAttenuators { attenuation: u8 },
    /// Drive the reset line of the whole local timing domain.
    SetReset { asserted: bool },
    /// Drive the reset line of the physical layer only.
    SetResetPhy { asserted: bool },
    /// Reset the auxiliary-channel transport.
    ResetAux,
    /// Drive the reset of the converter link.
    SetConverterReset { asserted: bool },
    /// Initialize the converters.
    InitConverters,
    /// Read the destination of the last buffer-space timeout. Answered
    /// with `Event::Byte`.
    ReadBufferSpaceTimeoutDest,
    /// Read channel, event timestamp and counter of the last write
    /// underflow. Answered with `Event::Underflow`.
    ReadUnderflow,
    /// Write `mask` to the protocol-error register, which clears those bits.
    ClearProtocolError { mask: u8 },
    /// Write `mask` to the RTIO-error register, which clears those bits.
    ClearRtioError { mask: u8 },
    /// Clear the latch that says the time base was loaded.
    ClearTscLoaded,
    /// Align the reference pulse at the FPGA.
    AlignSysrefRtio,
    /// Align the reference pulse at the converters.
    AlignSysrefDac,
    /// Program one entry of the routing interconnect.
    ProgramHop { destination: u8, hop: u8 },
    /// Write an injection override.
    SetInjection { channel: u16, overrd: u8, value: u8 },
    /// Hand an order to one downstream link.
    Link { link: u8, order: LinkOrder },
    /// Send a packet upstream.
    Send { packet: Packet },
}

/// Work whose answer decides what the node does next.
#[allow(inconsistent_fields)]
#[derive(Clone, Copy, Debug, PartialEq, Eq)]
pub enum Query {
    /// Load the second FPGA. Vital.
    LoadSlaveFpga,
    /// Set up the clock recombiner. Vital.
    SetupClockDevice { settings: FrequencySettings },
    /// Initialize the clock synthesizer. Vital.
    InitSynthesizer,
    /// Read the flag that says the uplink receiver is up. `Event::Byte`.
    LinkUp,
    /// Switch the local time domain to the recovered clock, or back to the
    /// crystal. Vital.
    SelectRecoveredClock { recovered: bool },
    /// Calibrate the skew against `phase`. Vital.
    CalibrateSkew { phase: u16 },
    /// Read the protocol-error register. `Event::Byte`.
    ProtocolErrors,
    /// Take one packet from the auxiliary channel, if one is waiting.
    /// `Event::Received`, `Event::Idle` or `Event::Failed`.
    ReceiveAux,
    /// Read the latch that says the time base was loaded. `Event::Byte`.
    TscLoaded,
    /// Read the RTIO-error register. `Event::Byte`.
    RtioErrors,
    /// Read the channel of the last sequence error. `Event::Half`.
    SequenceErrorChannel,
    /// Read the channel of the last collision. `Event::Half`.
    CollisionChannel,
    /// Read the channel that was last found busy. `Event::Half`.
    BusyChannel,
    /// Read a monitor probe. `Event::Word`.
    Monitor { channel: u16, probe: u8 },
    /// Read an injection override. `Event::Byte`.
    InjectionStatus { channel: u16, overrd: u8 },
    I2cStart { busno: u8 },
    I2cRestart { busno: u8 },
    I2cStop { busno: u8 },
    /// Write a byte; `Event::Flag` carries the acknowledge bit.
    I2cWrite { busno: u8, data: u8 },
    /// Read a byte; `Event::Byte` carries it.
    I2cRead { busno: u8, ack: bool },
    SpiSetConfig { busno: u8, flags: u8, length: u8, div: u8, cs: u8 },
    SpiWrite { busno: u8, data: u32 },
    /// Read a word; `Event::Word` carries it.
    SpiRead { busno: u8 },
}

/// Why the node halted.
#[derive(Clone, Copy, Debug, PartialEq, Eq)]
pub enum Fatal {
    SlaveFpgaLoad,
    ClockDeviceSetup,
    SynthesizerInit,
    ClockSwitch,
    SkewCalibration,
}

/// What the node wants done next.
#[derive(Clone, Copy, Debug, PartialEq, Eq)]
pub enum Action {
    Do { command: Command },
    Ask { query: Query },
    /// Nothing more will be asked: dump diagnostics and stop.
    Halt { cause: Fatal },
}

/// How an action ended.
///
/// An event of a shape that the action does not produce is read as a failure
/// where the action can fail, and as zero where it yields a number.
#[allow(inconsistent_fields)]
#[derive(Clone, Copy, Debug, PartialEq, Eq)]
pub enum Event {
    /// Completed, with nothing to hand back.
    Done,
    /// The collaborator reported an error.
    Failed,
    Flag { value: bool },
    Byte { value: u8 },
    Half { value: u16 },
    Word { value: u32 },
    Underflow { channel: u16, timestamp: i64, counter: i64 },
    /// A packet came off the auxiliary channel.
    Received { packet: Packet },
    /// No packet was waiting.
    Idle,
}

impl Event {
    /// The action completed without an error and without a value.
    pub open spec fn succeeded(self) -> bool {
        self is Done
    }

    /// The byte that the event carries, zero if it carries none.
    pub open spec fn byte(self) -> u8 {
        match self {
            Event::Byte { value } => value,
            _ => 0,
        }
    }

    /// The half word that the event carries, zero if it carries none.
    pub open spec fn half(self) -> u16 {
        match self {
            Event::Half { value } => value,
            _ => 0,
        }
    }

    /// The word that the event carries, zero if it carries none.
    pub open spec fn word(self) -> u32 {
        match self {
            Event::Word { value } => value,
            _ => 0,
        }
    }

    /// The register read back as exactly one.
    pub open spec fn is_set(self) -> bool {
        self.byte() == 1
    }

    /// The action completed without an error and without a value.
    pub fn has_succeeded(&self) -> (ok: bool)
        ensures
            ok == self.succeeded(),
    {
        match self {
            Event::Done => true,
            _ => false,
        }
    }

    /// The byte that the event carries, zero if it carries none.
    pub fn as_byte(&self) -> (value: u8)
        ensures
            value == self.byte(),
    {
        match self {
            Event::Byte { value } => *value,
            _ => 0,
        }
    }

    /// The register read back as exactly one.
    pub fn reads_set(&self) -> (set: bool)
        ensures
            set == self.is_set(),
    {
        self.as_byte() == 1
    }

    /// The word that the event carries, zero if it carries none.
    pub fn as_word(&self) -> (value: u32)
        ensures
            value == self.word(),
    {
        match self {
            Event::Word { value } => *value,
            _ => 0,
        }
    }

    /// The half word that the event carries, zero if it carries none.
    pub fn as_half(&self) -> (value: u16)
        ensures
            value == self.half(),
    {
        match self {
            Event::Half { value } => *value,
            _ => 0,
        }
    }
}

/// Something worth a line in the log.
#[derive(Clone, Copy, Debug, PartialEq, Eq)]
pub enum Report {
    /// The uplink came up; the node switches to the recovered clock.
    UplinkUp,
    /// The uplink went down; the node switches to the local crystal.
    UplinkDown,
    /// The time base was loaded from the uplink.
    TscLoaded,
    /// A reset request is being carried out.
    ResettingRtio,
    /// The rank changed; the log shows it with the routing table.
    RankChanged { rank: u8 },
    /// A rank without a successor was asked for and refused.
    RankRejected { rank: u8 },
    /// A packet arrived that is no request.
    UnexpectedPacket,
    /// Receiving or sending on the auxiliary channel failed.
    AuxError,
    /// A downstream link did not carry out an order.
    LinkFailed { link: u8, order: LinkOrder },
    SysrefRtioAlignFailed,
    SysrefDacAlignFailed,
    UnknownPacketType,
    TruncatedPacket,
    BufferSpaceTimeout { destination: u8 },
    WriteUnderflow { channel: u16, timestamp: i64, counter: i64, slack: i128 },
    WriteOverflow,
}

/// What one step of the node hands back: at most one report on what just
/// happened, and the action to perform next.
#[derive(Clone, Copy, Debug, PartialEq, Eq)]
pub struct Step {
    pub report: Option<Report>,
    pub action: Action,
}

} // verus!
