//! Control logic of a satellite node in a tree of hardware-timestamped
//! real-time I/O boards.
//!
//! The node never touches hardware here. It is a machine that names the next
//! hardware operation and is told how that operation ended; everything it
//! decides in between is verified.
//!
//! - `action`: what the node asks of the hardware and what it is answered.
//! - `packet`: the packets of the auxiliary channel.
//! - `routing`: the routing table and the rank.
//! - `fanout`: orders that go to every downstream link.
//! - `faults`: polling the fault registers.
//! - `requests`: the requests of the auxiliary channel.
//! - `uplink`: bring-up, the link and clock state machine, the time base.
//! - `script`: what the node does between two decisions.
//! - `satellite`: the node as a whole.

pub mod action;
pub mod fanout;
pub mod faults;
pub mod packet;
pub mod requests;
pub mod routing;
pub mod satellite;
pub mod script;
pub mod uplink;
