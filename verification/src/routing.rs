//! The routing table and this node's rank in the distribution tree.

use vstd::prelude::*;

verus! {

/// Number of destination addresses.
pub const DEST_COUNT: usize = 256;

/// Longest hop path that a destination can have.
pub const MAX_HOPS: usize = 32;

/// The hop that stands for "no route".
pub const INVALID_HOP: u8 = 0xff;

/// Largest rank a node can take: its downstream nodes need a rank one higher.
pub const MAX_RANK: u8 = 254;

/// The rank of a node that has not been told its place yet.
pub const DEFAULT_RANK: u8 = 1;

/// The downstream link to take at each depth of the tree, padded with
/// `INVALID_HOP`.
pub type HopPath = [u8; MAX_HOPS];

/// Why a routing update was refused.
#[derive(Clone, Copy, Debug, PartialEq, Eq)]
pub enum RoutingError {
    /// The destination address is not in the table.
    DestinationOutOfRange,
    /// The rank has no successor to hand to downstream nodes.
    RankOutOfRange,
}

/// The path of a destination that has no route: `INVALID_HOP` at every depth.
pub open spec fn unrouted() -> HopPath {
    vstd::array::spec_array_fill_for_copy_type::<u8, MAX_HOPS>(INVALID_HOP)
}

/// The hop that a node of rank `rank` takes along `path`.
pub open spec fn hop_at(path: HopPath, rank: u8) -> u8 {
    if rank < MAX_HOPS {
        path[rank as int]
    } else {
        INVALID_HOP
    }
}

/// What a `RoutingState` holds: one hop path for each destination, and the
/// rank.
#[verifier::ext_equal]
pub struct RoutingView {
    pub paths: Seq<HopPath>,
    pub rank: u8,
}

impl RoutingView {
    /// Every destination has an entry and the rank has a successor.
    pub open spec fn wf(self) -> bool {
        &&& self.paths.len() == DEST_COUNT
        &&& self.rank <= MAX_RANK
    }

    /// The rank that downstream nodes are given.
    pub open spec fn downstream_rank(self) -> u8 {
        (self.rank + 1) as u8
    }

    /// The hop this node takes towards `destination`.
    pub open spec fn hop(self, destination: u8) -> u8 {
        hop_at(self.paths[destination as int], self.rank)
    }

    /// The table after `set_path` on an address in range.
    pub open spec fn with_path(self, destination: int, hops: HopPath) -> RoutingView {
        RoutingView { paths: self.paths.update(destination, hops), rank: self.rank }
    }

    /// The state after `set_rank` on a rank in range.
    pub open spec fn with_rank(self, rank: u8) -> RoutingView {
        RoutingView { paths: self.paths, rank }
    }
}

/// The state at boot: no destination has a route, and the rank is 1.
pub open spec fn empty_routing() -> RoutingView {
    RoutingView {
        paths: Seq::new(DEST_COUNT as nat, |d: int| unrouted()),
        rank: DEFAULT_RANK,
    }
}

/// Routing table and rank of this node.
pub struct RoutingState {
    paths: Vec<HopPath>,
    rank: u8,
}

impl View for RoutingState {
    type V = RoutingView;

    closed spec fn view(&self) -> RoutingView {
        RoutingView { paths: self.paths@, rank: self.rank }
    }
}

impl RoutingState {
    /// The invariant of the type.
    pub open spec fn wf(&self) -> bool {
        self@.wf()
    }

    /// The state at boot.
    pub fn default_empty() -> (state: RoutingState)
        ensures
            state.wf(),
            state@ == empty_routing(),
    {
        let mut paths: Vec<HopPath> = Vec::new();
        let mut d: usize = 0;
        while d < DEST_COUNT
            invariant
                d <= DEST_COUNT,
                paths@ == Seq::new(d as nat, |d: int| unrouted()),
            decreases DEST_COUNT - d,
        {
            paths.push([INVALID_HOP; MAX_HOPS]);
            d = d + 1;
        }
        RoutingState { paths, rank: DEFAULT_RANK }
    }

    /// Replaces the path of `destination`. An address outside the table is
    /// refused and nothing changes.
    pub fn set_path(&mut self, destination: usize, hops: HopPath) -> (done: Result<
        (),
        RoutingError,
    >)
        requires
            old(self).wf(),
        ensures
            final(self).wf(),
            destination < DEST_COUNT ==> done == Ok::<(), RoutingError>(()) && final(self)@ == old(
                self,
            )@.with_path(destination as int, hops),
            destination >= DEST_COUNT ==> done == Err::<(), RoutingError>(
                RoutingError::DestinationOutOfRange,
            ) && final(self)@ == old(self)@,
    {
        if destination < DEST_COUNT {
            self.paths.set(destination, hops);
            Ok(())
        } else {
            Err(RoutingError::DestinationOutOfRange)
        }
    }

    /// Stores the rank. A rank above `MAX_RANK` is refused and nothing
    /// changes.
    pub fn set_rank(&mut self, rank: u8) -> (done: Result<(), RoutingError>)
        requires
            old(self).wf(),
        ensures
            final(self).wf(),
            rank <= MAX_RANK ==> done == Ok::<(), RoutingError>(()) && final(self)@ == old(
                self,
            )@.with_rank(rank),
            rank > MAX_RANK ==> done == Err::<(), RoutingError>(RoutingError::RankOutOfRange)
                && final(self)@ == old(self)@,
    {
        if rank <= MAX_RANK {
            self.rank = rank;
            Ok(())
        } else {
            Err(RoutingError::RankOutOfRange)
        }
    }

    /// The path of `destination`, if the address is in the table.
    pub fn path(&self, destination: usize) -> (found: Option<HopPath>)
        requires
            self.wf(),
        ensures
            destination < DEST_COUNT ==> found == Some(self@.paths[destination as int]),
            destination >= DEST_COUNT ==> found == None::<HopPath>,
    {
        if destination < DEST_COUNT {
            Some(self.paths[destination])
        } else {
            None
        }
    }

    /// This node's rank.
    pub fn rank(&self) -> (rank: u8)
        ensures
            rank == self@.rank,
    {
        self.rank
    }

    /// The rank that downstream nodes are given.
    pub fn downstream_rank(&self) -> (rank: u8)
        requires
            self.wf(),
        ensures
            rank == self@.downstream_rank(),
            rank == self@.rank + 1,
    {
        self.rank + 1
    }

    /// The hop this node takes towards `destination`.
    pub fn hop(&self, destination: u8) -> (hop: u8)
        requires
            self.wf(),
        ensures
            hop == self@.hop(destination),
    {
        let path: HopPath = self.paths[destination as usize];
        if (self.rank as usize) < MAX_HOPS {
            path[self.rank as usize]
        } else {
            INVALID_HOP
        }
    }
}

/// No hop of an unrouted path leads anywhere.
pub proof fn lemma_unrouted(depth: int)
    requires
        0 <= depth < MAX_HOPS,
    ensures
        unrouted()[depth] == INVALID_HOP,
{
    vstd::array::axiom_spec_array_fill_for_copy_type::<u8, MAX_HOPS>(INVALID_HOP);
}

/// At boot the state is well formed and every destination is unrouted.
pub proof fn lemma_empty_routing(destination: int)
    requires
        0 <= destination < DEST_COUNT,
    ensures
        empty_routing().wf(),
        empty_routing().rank == DEFAULT_RANK,
        empty_routing().paths[destination] == unrouted(),
{
}

/// A path that was set is the path that is found, until it is set again;
/// setting it leaves every other destination and the rank as they were.
pub proof fn lemma_path_is_the_last_set(
    routing: RoutingView,
    destination: int,
    hops: HopPath,
    other: int,
)
    requires
        routing.wf(),
        0 <= destination < DEST_COUNT,
        0 <= other < DEST_COUNT,
    ensures
        routing.with_path(destination, hops).wf(),
        routing.with_path(destination, hops).paths[destination] == hops,
        other != destination ==> routing.with_path(destination, hops).paths[other]
            == routing.paths[other],
        routing.with_path(destination, hops).rank == routing.rank,
{
}

/// A rank that was set is the rank of the node, its successor is the rank
/// of the nodes below, and the table is as it was.
pub proof fn lemma_rank_is_the_last_set(routing: RoutingView, rank: u8)
    requires
        routing.wf(),
        rank <= MAX_RANK,
    ensures
        routing.with_rank(rank).wf(),
        routing.with_rank(rank).rank == rank,
        routing.with_rank(rank).downstream_rank() == rank + 1,
        routing.with_rank(rank).paths == routing.paths,
{
}

} // verus!
