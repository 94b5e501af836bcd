//! The life of a player's pipeline: started on the first frame, watched
//! through its bus while it runs, and wound down on shutdown.

use vstd::prelude::*;

verus! {

/// States of a media pipeline.
#[derive(Debug, Clone, Copy, PartialEq, Eq, Structural)]
pub enum PipelineState {
    VoidPending,
    Null,
    Ready,
    Paused,
    Playing,
}

/// Where a bus message comes from.
#[derive(Debug, Clone, Copy, PartialEq, Eq, Structural)]
pub enum MessageOrigin {
    /// The message names no source object.
    Unknown,
    /// The player's pipeline itself.
    Pipeline,
    /// Some other element, such as one stage of the pipeline.
    OtherElement,
}

/// What a bus message reports.
#[derive(Debug, Clone, Copy, PartialEq, Eq, Structural)]
pub enum MessageKind {
    Eos,
    Error,
    Warning,
    Info,
    StateChanged { current: PipelineState },
    Other,
}

#[derive(Debug, Clone, Copy, PartialEq, Eq, Structural)]
pub struct BusMessage {
    pub kind: MessageKind,
    pub origin: MessageOrigin,
}

/// What the player does about a bus message.
#[derive(Debug, Clone, Copy, PartialEq, Eq, Structural)]
pub enum BusReaction {
    Ignore,
    /// The stream ended: bring the pipeline to `Null` and release it.
    EndOfStream,
    /// Report an error; when `stop`, also bring the pipeline to `Null` and release it.
    Failure { stop: bool },
    /// Report a warning.
    Warning,
    /// Report an informational message.
    Notice,
    /// Report that the pipeline entered this state.
    StateReached { state: PipelineState },
}

/// What to do with the pipeline during one rendered frame.
#[derive(Debug, Clone, Copy, PartialEq, Eq, Structural)]
pub struct StepAction {
    /// Set the pipeline playing and start its sound.
    pub start: bool,
    /// Look for one message on the pipeline's bus.
    pub poll_bus: bool,
}

/// What to release when the player shuts down.
#[derive(Debug, Clone, Copy, PartialEq, Eq, Structural)]
pub struct Teardown {
    /// Stop the sound instance started with the pipeline.
    pub stop_sound: bool,
    /// The first state to take the pipeline to, if there is one to wind down.
    pub first_target: Option<PipelineState>,
}

/// Lifecycle flags of a player.
#[derive(Debug, Clone, Copy, PartialEq, Eq, Structural)]
pub struct Playback {
    /// A pipeline is built and held.
    pub has_pipeline: bool,
    /// The pipeline has not been started yet.
    pub first: bool,
    /// The stream is running and its bus is watched.
    pub stream_running: bool,
}

pub open spec fn idle_playback() -> Playback {
    Playback { has_pipeline: false, first: true, stream_running: false }
}

/// How a player in state `p` reacts to message `m`.
pub open spec fn reaction_of(p: Playback, m: BusMessage) -> BusReaction {
    if m.origin == MessageOrigin::Unknown {
        BusReaction::Ignore
    } else {
        match m.kind {
            MessageKind::Eos => if p.has_pipeline && m.origin == MessageOrigin::Pipeline {
                BusReaction::EndOfStream
            } else {
                BusReaction::Ignore
            },
            MessageKind::Error => if p.has_pipeline {
                BusReaction::Failure { stop: m.origin == MessageOrigin::Pipeline }
            } else {
                BusReaction::Ignore
            },
            MessageKind::Warning => BusReaction::Warning,
            MessageKind::Info => BusReaction::Notice,
            MessageKind::StateChanged { current } => if p.has_pipeline && m.origin
                == MessageOrigin::Pipeline {
                BusReaction::StateReached { state: current }
            } else {
                BusReaction::Ignore
            },
            MessageKind::Other => BusReaction::Ignore,
        }
    }
}

/// The reaction brings the pipeline down and releases it.
pub open spec fn releases(r: BusReaction) -> bool {
    r == BusReaction::EndOfStream || r == BusReaction::Failure { stop: true }
}

/// The player's state once reaction `r` has been carried out.
pub open spec fn after_reaction(p: Playback, r: BusReaction) -> Playback {
    if releases(r) {
        Playback { has_pipeline: false, stream_running: false, ..p }
    } else {
        p
    }
}

/// The player's state once building its pipeline succeeded (`ok`) or failed.
pub open spec fn built_state(p: Playback, ok: bool) -> Playback {
    if ok {
        Playback { has_pipeline: true, stream_running: true, ..p }
    } else {
        p
    }
}

/// The player's state after one frame: a held pipeline has been started.
pub open spec fn after_step(p: Playback) -> Playback {
    Playback { first: p.first && !p.has_pipeline, ..p }
}

/// The player's state once its pipeline is let go.
pub open spec fn without_pipeline(p: Playback) -> Playback {
    Playback { has_pipeline: false, ..p }
}

/// A held pipeline is first paused on shutdown.
pub open spec fn first_teardown_target(p: Playback) -> Option<PipelineState> {
    if p.has_pipeline {
        Some(PipelineState::Paused)
    } else {
        None
    }
}

/// After taking the pipeline to `reached` (successfully or not), the next
/// state to take it to while winding down.
pub open spec fn teardown_next_of(reached: PipelineState, succeeded: bool) -> Option<PipelineState> {
    if reached == PipelineState::Paused && succeeded {
        Some(PipelineState::Null)
    } else {
        None
    }
}

impl Playback {
    /// A player with no pipeline yet.
    pub fn new() -> (r: Playback)
        ensures
            r == idle_playback(),
    {
        Playback { has_pipeline: false, first: true, stream_running: false }
    }

    /// Records the outcome of building the pipeline; returns whether the
    /// player is ready.
    pub fn pipeline_built(&mut self, ok: bool) -> (r: bool)
        ensures
            r == ok,
            *final(self) == built_state(*old(self), ok),
    {
        if ok {
            self.has_pipeline = true;
            self.stream_running = true;
        }
        ok
    }

    /// Decides the pipeline work of one frame: the first frame with a
    /// pipeline starts it, and every frame of a running stream polls its bus.
    pub fn step(&mut self) -> (r: StepAction)
        ensures
            r.start == (old(self).has_pipeline && old(self).first),
            r.poll_bus == (old(self).has_pipeline && old(self).stream_running),
            *final(self) == after_step(*old(self)),
    {
        if self.has_pipeline {
            let start = self.first;
            self.first = false;
            StepAction { start, poll_bus: self.stream_running }
        } else {
            StepAction { start: false, poll_bus: false }
        }
    }

    /// Reacts to one message of the pipeline's bus.
    pub fn on_bus_message(&mut self, m: BusMessage) -> (r: BusReaction)
        ensures
            r == reaction_of(*old(self), m),
            *final(self) == after_reaction(*old(self), r),
    {
        if m.origin == MessageOrigin::Unknown {
            return BusReaction::Ignore;
        }
        let from_pipeline = m.origin == MessageOrigin::Pipeline;
        let r = match m.kind {
            MessageKind::Eos => if self.has_pipeline && from_pipeline {
                BusReaction::EndOfStream
            } else {
                BusReaction::Ignore
            },
            MessageKind::Error => if self.has_pipeline {
                BusReaction::Failure { stop: from_pipeline }
            } else {
                BusReaction::Ignore
            },
            MessageKind::Warning => BusReaction::Warning,
            MessageKind::Info => BusReaction::Notice,
            MessageKind::StateChanged { current } => if self.has_pipeline && from_pipeline {
                BusReaction::StateReached { state: current }
            } else {
                BusReaction::Ignore
            },
            MessageKind::Other => BusReaction::Ignore,
        };
        if r == BusReaction::EndOfStream || r == (BusReaction::Failure { stop: true }) {
            self.has_pipeline = false;
            self.stream_running = false;
        }
        r
    }

    /// Starts shutting down: the pipeline, if any, is let go once wound down.
    pub fn shutdown(&mut self) -> (r: Teardown)
        ensures
            r.stop_sound == (old(self).has_pipeline && !old(self).first),
            r.first_target == first_teardown_target(*old(self)),
            *final(self) == without_pipeline(*old(self)),
    {
        let r = if self.has_pipeline {
            Teardown { stop_sound: !self.first, first_target: Some(PipelineState::Paused) }
        } else {
            Teardown { stop_sound: false, first_target: None }
        };
        self.has_pipeline = false;
        r
    }
}

/// The next state to take a pipeline to while winding it down, after it was
/// taken to `reached`: from a successful pause on to `Null`, then no further.
pub fn teardown_next(reached: PipelineState, succeeded: bool) -> (r: Option<PipelineState>)
    ensures
        r == teardown_next_of(reached, succeeded),
{
    if reached == PipelineState::Paused && succeeded {
        Some(PipelineState::Null)
    } else {
        None
    }
}

} // verus!
