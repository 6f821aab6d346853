//! The downstream side: one network client at a time gets what the receiver
//! sends, chunk by chunk and unchanged.
//!
//! A client that goes away ends the forwarding and nothing else: chunks are
//! still read and scanned, and the correction relay is not touched.

use crate::fix::{extract_fix, fix_of, FixRecord};
use vstd::prelude::*;

verus! {

/// The TCP port on which the downstream client is awaited.
pub const DOWNSTREAM_PORT: u16 = 6543;

/// Whether there is a client to forward to.
#[derive(Clone, Copy, Debug, PartialEq, Eq, Structural)]
pub enum DownstreamState {
    /// No client has connected yet.
    Listening,
    /// A client is connected and gets every chunk.
    Connected,
    /// The client is gone; nothing is forwarded.
    Disconnected,
}

/// What is to be done with one chunk of receiver output.
#[derive(Clone, Debug, PartialEq, Eq)]
pub struct ChunkPlan {
    /// The fix sentence to report, if the chunk holds one.
    pub fix: Option<FixRecord>,
    /// Whether the chunk is to be written to the client, whole.
    pub forward: bool,
}

/// The fix sentence of a plan, as text.
pub open spec fn planned_fix(plan: ChunkPlan) -> Option<Seq<char>> {
    match plan.fix {
        Some(record) => Some(record.raw@),
        None => None,
    }
}

/// Whether a chunk is written to the client: there must be a client, and the
/// chunk must hold something.
pub open spec fn forwards(state: DownstreamState, chunk: Seq<u8>) -> bool {
    state is Connected && chunk.len() > 0
}

/// The bytes that reach the client for one chunk.
pub open spec fn sent_for(state: DownstreamState, chunk: Seq<u8>) -> Seq<u8> {
    if forwards(state, chunk) {
        chunk
    } else {
        Seq::empty()
    }
}

/// The bytes that reach the client for a run of chunks, none of whose writes
/// fails.
pub open spec fn sent_for_all(state: DownstreamState, chunks: Seq<Seq<u8>>) -> Seq<u8>
    decreases chunks.len(),
{
    if chunks.len() == 0 {
        Seq::empty()
    } else {
        sent_for(state, chunks.first()) + sent_for_all(state, chunks.drop_first())
    }
}

/// A connected client gets each chunk as it is, whether or not the chunk
/// holds a fix sentence.
pub proof fn lemma_chunk_is_forwarded_whole(chunk: Seq<u8>)
    ensures
        sent_for(DownstreamState::Connected, chunk) == chunk,
{
    if chunk.len() == 0 {
        assert(chunk =~= Seq::<u8>::empty());
    }
}

/// A connected client gets the chunks joined in the order in which they were
/// read: each one once, none left out.
pub proof fn lemma_every_chunk_is_forwarded_once(chunks: Seq<Seq<u8>>)
    ensures
        sent_for_all(DownstreamState::Connected, chunks) == chunks.flatten(),
    decreases chunks.len(),
{
    if chunks.len() == 0 {
        assert(chunks.flatten() =~= Seq::<u8>::empty());
    } else {
        lemma_chunk_is_forwarded_whole(chunks.first());
        lemma_every_chunk_is_forwarded_once(chunks.drop_first());
        assert(chunks.flatten() =~= chunks.first() + chunks.drop_first().flatten());
    }
}

/// Without a connected client nothing is sent.
pub proof fn lemma_nothing_is_sent_without_client(state: DownstreamState, chunks: Seq<Seq<u8>>)
    requires
        !(state is Connected),
    ensures
        sent_for_all(state, chunks) == Seq::<u8>::empty(),
    decreases chunks.len(),
{
    if chunks.len() > 0 {
        lemma_nothing_is_sent_without_client(state, chunks.drop_first());
        assert(Seq::<u8>::empty() + Seq::<u8>::empty() =~= Seq::<u8>::empty());
    }
}

/// The server for the one downstream client.
#[derive(Debug)]
pub struct DownstreamServer {
    state: DownstreamState,
}

impl DownstreamServer {
    /// The server's state.
    pub closed spec fn state_of(&self) -> DownstreamState {
        self.state
    }

    /// A server that waits for its client.
    pub fn new() -> (r: DownstreamServer)
        ensures
            r.state_of() == DownstreamState::Listening,
    {
        DownstreamServer { state: DownstreamState::Listening }
    }

    /// The server's state.
    pub fn state(&self) -> (r: DownstreamState)
        ensures
            r == self.state_of(),
    {
        self.state
    }

    /// Tells whether a client may be accepted now: not while one is connected.
    pub fn may_accept(&self) -> (r: bool)
        ensures
            r == !(self.state_of() is Connected),
    {
        match self.state {
            DownstreamState::Connected => false,
            _ => true,
        }
    }

    /// Takes note of a client that asks to connect. Returns whether it is
    /// taken: a second client beside a connected one is turned away, and the
    /// first one stays.
    pub fn accept(&mut self) -> (taken: bool)
        ensures
            taken == !(old(self).state_of() is Connected),
            final(self).state_of() == DownstreamState::Connected,
    {
        let taken = self.may_accept();
        self.state = DownstreamState::Connected;
        taken
    }

    /// Takes note that a write to the client failed: the client counts as gone.
    /// Where there was no client nothing changes.
    pub fn write_failed(&mut self)
        ensures
            final(self).state_of() == (if old(self).state_of() is Connected {
                DownstreamState::Disconnected
            } else {
                old(self).state_of()
            }),
    {
        match self.state {
            DownstreamState::Connected => {
                self.state = DownstreamState::Disconnected;
            },
            _ => {},
        }
    }

    /// Decides what is done with one chunk read from the receiver. The scan for
    /// a fix sentence and the forwarding do not depend on each other.
    pub fn on_chunk(&self, chunk: &[u8]) -> (plan: ChunkPlan)
        ensures
            planned_fix(plan) == fix_of(chunk@),
            plan.forward == forwards(self.state_of(), chunk@),
    {
        let fix = extract_fix(chunk);
        let forward = match self.state {
            DownstreamState::Connected => chunk.len() > 0,
            _ => false,
        };
        ChunkPlan { fix, forward }
    }
}

} // verus!
