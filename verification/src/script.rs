//! Scripts: what the node does between two decisions.
//!
//! A script is a run of commands and the query that ends it. What the
//! commands end in is reported at most; the answer to the query picks the
//! next script.

use crate::action::{Capabilities, Command, Fatal, LinkOrder, Query, Report};
use crate::fanout::{fan_out, fan_out_to};
use crate::packet::Packet;
use vstd::prelude::*;

verus! {

/// Where the node stands in its life.
#[derive(Clone, Copy, Debug, PartialEq, Eq)]
pub enum Mode {
    /// The peripherals are being brought up.
    Boot,
    /// The uplink is down. Faults are polled and the downstream links are
    /// serviced, nothing else.
    Down,
    /// The uplink came up and the clock is being switched and calibrated.
    CalibratingClock,
    /// The uplink is up and its clock is trusted.
    Active,
    /// A vital operation failed. The node does nothing more.
    Halted { cause: Fatal },
}

/// How the handling of a request goes on.
#[derive(Clone, Copy, Debug, PartialEq, Eq)]
pub enum Next {
    /// The request is done: send this reply.
    Reply { packet: Packet },
    /// The request is done and has no reply.
    Silent,
    /// The reply depends on what this query brings back.
    Ask { query: Query },
}

/// Commands to carry out in order, and the query whose answer decides what
/// comes after them.
#[verifier::ext_equal]
pub struct Script {
    pub commands: Seq<Command>,
    pub query: Query,
}

/// What the answer to a query leads to: the mode from then on, the next
/// script, and what there is to report.
#[verifier::ext_equal]
pub struct Reaction {
    pub mode: Mode,
    pub script: Script,
    pub report: Option<Report>,
}

/// A `Reaction` as the node holds it.
#[derive(Clone, Debug, PartialEq, Eq)]
pub struct Plan {
    pub mode: Mode,
    pub commands: Vec<Command>,
    pub query: Query,
    pub report: Option<Report>,
}

impl View for Plan {
    type V = Reaction;

    open spec fn view(&self) -> Reaction {
        Reaction {
            mode: self.mode,
            script: Script { commands: self.commands@, query: self.query },
            report: self.report,
        }
    }
}

/// The node goes straight on to `query`.
pub open spec fn ask(mode: Mode, query: Query) -> Reaction {
    Reaction { mode, script: Script { commands: Seq::empty(), query }, report: None }
}

/// The node stops for `cause`. The query stays as it was and is never asked
/// again.
pub open spec fn halt(query: Query, cause: Fatal) -> Reaction {
    ask(Mode::Halted { cause }, query)
}

/// One turn of every downstream link's own state machine.
pub open spec fn service(caps: Capabilities) -> Seq<Command> {
    fan_out(caps.link_count(), LinkOrder::Service)
}

/// The rest of an active tick once the request, if there was one, has been
/// handled up to its reply: the reply is sent, every downstream link is
/// serviced, and the time-base latch is read. A request that waits for the
/// hardware ends in its own query instead.
pub open spec fn rest_of_tick(caps: Capabilities, commands: Seq<Command>, next: Next) -> Script {
    match next {
        Next::Reply { packet } => Script {
            commands: commands + seq![Command::Send { packet }] + service(caps),
            query: Query::TscLoaded,
        },
        Next::Silent => Script { commands: commands + service(caps), query: Query::TscLoaded },
        Next::Ask { query } => Script { commands, query },
    }
}

/// Appends one turn of every downstream link's own state machine.
pub fn service_links(caps: &Capabilities, commands: &mut Vec<Command>)
    ensures
        final(commands)@ == old(commands)@ + service(*caps),
{
    fan_out_to(caps.links_driven(), LinkOrder::Service, commands);
}

/// Appends the rest of an active tick and returns the query it ends in.
pub fn finish_tick(caps: &Capabilities, next: Next, commands: &mut Vec<Command>) -> (query: Query)
    ensures
        final(commands)@ == rest_of_tick(*caps, old(commands)@, next).commands,
        query == rest_of_tick(*caps, old(commands)@, next).query,
{
    match next {
        Next::Reply { packet } => {
            commands.push(Command::Send { packet });
            service_links(caps, commands);
            Query::TscLoaded
        },
        Next::Silent => {
            service_links(caps, commands);
            Query::TscLoaded
        },
        Next::Ask { query } => query,
    }
}

/// A tick that goes on to the time-base latch has serviced every
/// downstream link just before, whatever the request was.
pub proof fn lemma_tick_services_every_link(
    caps: Capabilities,
    commands: Seq<Command>,
    next: Next,
    link: u8,
)
    requires
        link < caps.link_count(),
        !(next is Ask),
    ensures
        ({
            let script = rest_of_tick(caps, commands, next);
            let first = script.commands.len() - caps.link_count();
            &&& script.query is TscLoaded
            &&& first >= commands.len()
            &&& script.commands[first + link] == (Command::Link {
                link,
                order: LinkOrder::Service,
            })
            &&& next matches Next::Reply { packet } ==> first == commands.len() + 1
                && script.commands[first - 1] == (Command::Send { packet })
            &&& forall|place: int|
                0 <= place < commands.len() ==> script.commands[place] == commands[place]
        }),
{
    let script = rest_of_tick(caps, commands, next);
    let first = script.commands.len() - caps.link_count();
    assert(script.commands[first + link] == service(caps)[link as int]);
}

} // verus!
