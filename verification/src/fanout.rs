//! Orders that go to every downstream link.
//!
//! A fan-out is a broadcast, not a transaction: one command per link, in the
//! order of the links, each of them issued whatever became of the others.

use crate::action::{Command, LinkOrder};
use vstd::prelude::*;

verus! {

/// `order`, once for each of the first `links` downstream links.
pub open spec fn fan_out(links: nat, order: LinkOrder) -> Seq<Command> {
    Seq::new(links, |i: int| Command::Link { link: i as u8, order })
}

/// Appends `order` for each of the first `links` downstream links.
pub fn fan_out_to(links: u8, order: LinkOrder, commands: &mut Vec<Command>)
    ensures
        final(commands)@ == old(commands)@ + fan_out(links as nat, order),
{
    let ghost before = commands@;
    let mut link: u8 = 0;
    while link < links
        invariant
            link <= links,
            commands@ == before + fan_out(link as nat, order),
        decreases links - link,
    {
        commands.push(Command::Link { link, order });
        assert(fan_out(link as nat, order).push(Command::Link { link, order }) =~= fan_out(
            (link + 1) as nat,
            order,
        ));
        assert(commands@ =~= before + fan_out((link + 1) as nat, order));
        link = link + 1;
    }
}

/// A fan-out reaches every link: the command at place `link` is for that
/// link and carries the order unchanged.
pub proof fn lemma_fan_out_reaches_every_link(links: nat, order: LinkOrder, link: u8)
    requires
        link < links,
    ensures
        fan_out(links, order).len() == links,
        fan_out(links, order)[link as int] == (Command::Link { link, order }),
        fan_out(links, order).contains(Command::Link { link, order }),
{
    assert(fan_out(links, order)[link as int] == (Command::Link { link, order }));
}

/// A fan-out holds nothing but its order.
pub proof fn lemma_fan_out_holds_only_its_order(links: nat, order: LinkOrder, command: Command)
    requires
        links <= 256,
        fan_out(links, order).contains(command),
    ensures
        command matches Command::Link { link, order: o } && o == order && link < links,
{
    let i = choose|i: int| 0 <= i < fan_out(links, order).len() && fan_out(links, order)[i] == command;
    assert(fan_out(links, order)[i] == (Command::Link { link: i as u8, order }));
}

} // verus!
