//! The correction relay: frames from the caster go to the receiver's serial
//! link, one at a time and in the order in which they came.
//!
//! The relay itself neither reads nor writes. It is told what happened and says
//! what to do next; the program around it does the reading and writing. A frame
//! is written in full before the next one is asked for, so a slow serial link
//! holds back the caster.

use vstd::prelude::*;

verus! {

/// Why a relay came to its end.
#[derive(Clone, Copy, Debug, PartialEq, Eq, Structural)]
pub enum RelayEnd {
    /// The caster closed the stream.
    CasterClosed,
    /// Reading from the caster failed.
    CasterFailed,
    /// Writing to the serial link failed.
    SerialFailed,
}

/// Whether a relay is still at work.
#[derive(Clone, Copy, Debug, PartialEq, Eq, Structural)]
pub enum RelayState {
    /// Frames are being taken and written.
    Running,
    /// The relay has ended and does nothing more.
    Ended(RelayEnd),
}

/// What the relay is told.
#[derive(Clone, Debug, PartialEq, Eq)]
pub enum RelayEvent {
    /// The caster sent a frame of correction data.
    Frame(Vec<u8>),
    /// The caster sent a frame that carries no data.
    Empty,
    /// The caster closed the stream.
    Closed,
    /// Reading the next frame failed.
    ReadFailed,
    /// Writing the last frame to the serial link failed.
    WriteFailed,
}

/// A `RelayEvent` as mathematical values.
pub ghost enum RelayEventView {
    Frame(Seq<u8>),
    Empty,
    Closed,
    ReadFailed,
    WriteFailed,
}

impl View for RelayEvent {
    type V = RelayEventView;

    open spec fn view(&self) -> RelayEventView {
        match self {
            RelayEvent::Frame(bytes) => RelayEventView::Frame(bytes@),
            RelayEvent::Empty => RelayEventView::Empty,
            RelayEvent::Closed => RelayEventView::Closed,
            RelayEvent::ReadFailed => RelayEventView::ReadFailed,
            RelayEvent::WriteFailed => RelayEventView::WriteFailed,
        }
    }
}

/// What the relay asks for.
#[derive(Clone, Debug, PartialEq, Eq)]
pub enum RelayAction {
    /// Write these bytes to the serial link, all of them, then take the next
    /// frame.
    Write(Vec<u8>),
    /// Take the next frame.
    Next,
    /// Stop: the relay has ended.
    Stop(RelayEnd),
}

/// A `RelayAction` as mathematical values.
pub ghost enum RelayActionView {
    Write(Seq<u8>),
    Next,
    Stop(RelayEnd),
}

impl View for RelayAction {
    type V = RelayActionView;

    open spec fn view(&self) -> RelayActionView {
        match self {
            RelayAction::Write(bytes) => RelayActionView::Write(bytes@),
            RelayAction::Next => RelayActionView::Next,
            RelayAction::Stop(end) => RelayActionView::Stop(*end),
        }
    }
}

/// The relay's rule: the state after an event, and what is asked for.
pub open spec fn relay_step(state: RelayState, event: RelayEventView) -> (
    RelayState,
    RelayActionView,
) {
    match state {
        RelayState::Ended(end) => (state, RelayActionView::Stop(end)),
        RelayState::Running => match event {
            RelayEventView::Frame(bytes) => (state, RelayActionView::Write(bytes)),
            RelayEventView::Empty => (state, RelayActionView::Next),
            RelayEventView::Closed => (
                RelayState::Ended(RelayEnd::CasterClosed),
                RelayActionView::Stop(RelayEnd::CasterClosed),
            ),
            RelayEventView::ReadFailed => (
                RelayState::Ended(RelayEnd::CasterFailed),
                RelayActionView::Stop(RelayEnd::CasterFailed),
            ),
            RelayEventView::WriteFailed => (
                RelayState::Ended(RelayEnd::SerialFailed),
                RelayActionView::Stop(RelayEnd::SerialFailed),
            ),
        },
    }
}

/// The bytes that an action puts on the serial link.
pub open spec fn written_by(action: RelayActionView) -> Seq<u8> {
    match action {
        RelayActionView::Write(bytes) => bytes,
        _ => Seq::empty(),
    }
}

/// The state after a run of events, and all that was put on the serial link
/// in its course.
pub open spec fn relay_run(state: RelayState, events: Seq<RelayEventView>) -> (
    RelayState,
    Seq<u8>,
)
    decreases events.len(),
{
    if events.len() == 0 {
        (state, Seq::empty())
    } else {
        let (next, action) = relay_step(state, events.first());
        let (last, rest) = relay_run(next, events.drop_first());
        (last, written_by(action) + rest)
    }
}

/// The events of a caster that sends `frames` and nothing else, with both
/// ends healthy.
pub open spec fn frame_events(frames: Seq<Seq<u8>>) -> Seq<RelayEventView> {
    frames.map_values(|frame: Seq<u8>| RelayEventView::Frame(frame))
}

/// Whatever frames the caster sends, the serial link gets their bytes joined
/// in the order of arrival: nothing lost, nothing twice, nothing out of place.
/// The relay is still running afterwards.
pub proof fn lemma_relay_keeps_the_stream(frames: Seq<Seq<u8>>)
    ensures
        relay_run(RelayState::Running, frame_events(frames)) == (
            RelayState::Running,
            frames.flatten(),
        ),
    decreases frames.len(),
{
    let events = frame_events(frames);
    if frames.len() == 0 {
        assert(frames.flatten() =~= Seq::<u8>::empty());
    } else {
        lemma_relay_keeps_the_stream(frames.drop_first());
        assert(events.drop_first() =~= frame_events(frames.drop_first()));
        assert(events.first() == RelayEventView::Frame(frames.first()));
        assert(frames.flatten() =~= frames.first() + frames.drop_first().flatten());
    }
}

/// A relay that has ended puts nothing more on the serial link and stays
/// ended, whatever it is told.
pub proof fn lemma_ended_relay_is_silent(end: RelayEnd, events: Seq<RelayEventView>)
    ensures
        relay_run(RelayState::Ended(end), events) == (
            RelayState::Ended(end),
            Seq::<u8>::empty(),
        ),
    decreases events.len(),
{
    if events.len() > 0 {
        lemma_ended_relay_is_silent(end, events.drop_first());
        assert(Seq::<u8>::empty() + Seq::<u8>::empty() =~= Seq::<u8>::empty());
    }
}

/// The relay between one correction stream and the serial link's write side.
#[derive(Debug)]
pub struct CorrectionRelay {
    state: RelayState,
}

impl CorrectionRelay {
    /// The relay's state.
    pub closed spec fn state_of(&self) -> RelayState {
        self.state
    }

    /// A relay at the start of a stream.
    pub fn new() -> (r: CorrectionRelay)
        ensures
            r.state_of() == RelayState::Running,
    {
        CorrectionRelay { state: RelayState::Running }
    }

    /// The relay's state.
    pub fn state(&self) -> (r: RelayState)
        ensures
            r == self.state_of(),
    {
        self.state
    }

    /// Tells the relay what happened, and learns what to do next.
    pub fn step(&mut self, event: RelayEvent) -> (action: RelayAction)
        ensures
            (final(self).state_of(), action@) == relay_step(old(self).state_of(), event@),
    {
        match self.state {
            RelayState::Ended(end) => RelayAction::Stop(end),
            RelayState::Running => match event {
                RelayEvent::Frame(bytes) => RelayAction::Write(bytes),
                RelayEvent::Empty => RelayAction::Next,
                RelayEvent::Closed => self.finish(RelayEnd::CasterClosed),
                RelayEvent::ReadFailed => self.finish(RelayEnd::CasterFailed),
                RelayEvent::WriteFailed => self.finish(RelayEnd::SerialFailed),
            },
        }
    }

    fn finish(&mut self, end: RelayEnd) -> (action: RelayAction)
        ensures
            final(self).state_of() == RelayState::Ended(end),
            action == RelayAction::Stop(end),
    {
        self.state = RelayState::Ended(end);
        RelayAction::Stop(end)
    }
}

} // verus!
