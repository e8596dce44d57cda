//! Materializing a video: the decisions between staging the bytes and
//! opening them in a video backend. The shell does the staging and the
//! opening; this module says what comes next and how it ends.

use vstd::prelude::*;

verus! {

/// Why a video could not be materialized.
#[derive(Clone, Copy, Debug, PartialEq, Eq, Hash, Structural)]
pub enum VideoError {
    /// The bytes could not be written to the staging artifact.
    StageFailed,
    /// The backend rejected the staged artifact.
    OpenFailed,
}

/// Where the materialization of one video stands.
#[derive(Clone, Copy, Debug, PartialEq, Eq, Hash, Structural)]
pub enum VideoStaging {
    /// Nothing has been written yet.
    Unstaged,
    /// The bytes are written and flushed to a private temporary location.
    Staged,
    /// The backend has opened the staged artifact.
    Ready,
    /// The materialization has failed.
    Failed(VideoError),
}

/// What the shell reports.
#[derive(Clone, Copy, Debug, PartialEq, Eq, Hash, Structural)]
pub enum VideoEvent {
    /// All bytes are written and flushed.
    Staged,
    /// Writing or flushing failed.
    StageFailed,
    /// The backend opened the staged artifact.
    Opened,
    /// The backend rejected the staged artifact.
    OpenFailed,
}

/// What the shell has to do.
#[derive(Clone, Copy, Debug, PartialEq, Eq, Hash, Structural)]
pub enum VideoAction {
    /// Write the bytes to a fresh, private, uniquely named temporary
    /// location and flush them.
    Stage,
    /// Open the staged artifact in the backend, with looping set as given.
    Open { looping: bool },
    /// Hand out the handle; the staged artifact lives as long as the handle.
    Finish,
    /// Remove the staged artifact, if there is one, and report the error.
    Abandon(VideoError),
}

impl VideoStaging {
    /// The state after an event. An event that does not answer the pending
    /// action changes nothing.
    pub open spec fn spec_on_event(self, event: VideoEvent) -> VideoStaging {
        match (self, event) {
            (VideoStaging::Unstaged, VideoEvent::Staged) => VideoStaging::Staged,
            (VideoStaging::Unstaged, VideoEvent::StageFailed) => VideoStaging::Failed(
                VideoError::StageFailed,
            ),
            (VideoStaging::Staged, VideoEvent::Opened) => VideoStaging::Ready,
            (VideoStaging::Staged, VideoEvent::OpenFailed) => VideoStaging::Failed(
                VideoError::OpenFailed,
            ),
            _ => self,
        }
    }

    /// The action that a state asks for. Backgrounds are ambient, so a video
    /// is opened looping.
    pub open spec fn spec_next_action(self) -> VideoAction {
        match self {
            VideoStaging::Unstaged => VideoAction::Stage,
            VideoStaging::Staged => VideoAction::Open { looping: true },
            VideoStaging::Ready => VideoAction::Finish,
            VideoStaging::Failed(error) => VideoAction::Abandon(error),
        }
    }

    /// How the materialization ended, if it has ended.
    pub open spec fn spec_outcome(self) -> Option<Result<(), VideoError>> {
        match self {
            VideoStaging::Ready => Some(Ok(())),
            VideoStaging::Failed(error) => Some(Err(error)),
            _ => None,
        }
    }

    /// The state after a run of events, taken one after another.
    pub open spec fn spec_after(self, events: Seq<VideoEvent>) -> VideoStaging
        decreases events.len(),
    {
        if events.len() == 0 {
            self
        } else {
            self.spec_after(events.drop_last()).spec_on_event(events.last())
        }
    }

    /// The state in which every materialization starts.
    pub fn start() -> (state: VideoStaging)
        ensures
            state == VideoStaging::Unstaged,
    {
        VideoStaging::Unstaged
    }

    /// The state after an event.
    pub fn on_event(self, event: VideoEvent) -> (next: VideoStaging)
        ensures
            next == self.spec_on_event(event),
    {
        match self {
            VideoStaging::Unstaged => match event {
                VideoEvent::Staged => VideoStaging::Staged,
                VideoEvent::StageFailed => VideoStaging::Failed(VideoError::StageFailed),
                _ => self,
            },
            VideoStaging::Staged => match event {
                VideoEvent::Opened => VideoStaging::Ready,
                VideoEvent::OpenFailed => VideoStaging::Failed(VideoError::OpenFailed),
                _ => self,
            },
            _ => self,
        }
    }

    /// The action that the state asks for.
    pub fn next_action(self) -> (action: VideoAction)
        ensures
            action == self.spec_next_action(),
    {
        match self {
            VideoStaging::Unstaged => VideoAction::Stage,
            VideoStaging::Staged => VideoAction::Open { looping: true },
            VideoStaging::Ready => VideoAction::Finish,
            VideoStaging::Failed(error) => VideoAction::Abandon(error),
        }
    }

    /// How the materialization ended, if it has ended.
    pub fn outcome(self) -> (outcome: Option<Result<(), VideoError>>)
        ensures
            outcome == self.spec_outcome(),
    {
        match self {
            VideoStaging::Ready => Some(Ok(())),
            VideoStaging::Failed(error) => Some(Err(error)),
            _ => None,
        }
    }
}

/// One more event after a run of events is one more step.
pub proof fn lemma_after_push(state: VideoStaging, events: Seq<VideoEvent>, event: VideoEvent)
    ensures
        state.spec_after(events.push(event)) == state.spec_after(events).spec_on_event(event),
{
    assert(events.push(event).drop_last() =~= events);
}

/// An ended materialization stays as it ended, whatever is reported later.
pub proof fn lemma_outcome_is_final(state: VideoStaging, events: Seq<VideoEvent>)
    requires
        state.spec_outcome() is Some,
    ensures
        state.spec_after(events) == state,
    decreases events.len(),
{
    if events.len() > 0 {
        lemma_outcome_is_final(state, events.drop_last());
    }
}

/// The backend is asked to open only what has been staged and flushed: the
/// state that asks for it is reached from the start by no run of events
/// without a `Staged` report in it, and it asks for looping.
pub proof fn lemma_open_follows_staging(events: Seq<VideoEvent>)
    requires
        VideoStaging::Unstaged.spec_after(events).spec_next_action() is Open,
    ensures
        events.contains(VideoEvent::Staged),
        VideoStaging::Unstaged.spec_after(events).spec_next_action() == (VideoAction::Open {
            looping: true,
        }),
    decreases events.len(),
{
    let start = VideoStaging::Unstaged;
    assert(events.len() > 0);
    let before = start.spec_after(events.drop_last());
    if before == VideoStaging::Staged {
        lemma_open_follows_staging(events.drop_last());
        let i = choose|i: int|
            0 <= i < events.drop_last().len() && events.drop_last()[i] == VideoEvent::Staged;
        assert(events[i] == VideoEvent::Staged);
    } else {
        assert(events.last() == VideoEvent::Staged);
        assert(events[events.len() - 1] == VideoEvent::Staged);
    }
}

/// How a materialization ends after the two reports that it asks for: ready
/// if both steps succeeded, with the error of the step that failed if one
/// did not.
pub proof fn lemma_two_step_outcome(first: VideoEvent, second: VideoEvent)
    ensures
        first == VideoEvent::StageFailed ==> VideoStaging::Unstaged.spec_on_event(
            first,
        ).spec_outcome() == Some(Err::<(), _>(VideoError::StageFailed)),
        first == VideoEvent::Staged && second == VideoEvent::Opened
            ==> VideoStaging::Unstaged.spec_on_event(first).spec_on_event(second).spec_outcome()
            == Some(Ok::<_, VideoError>(())),
        first == VideoEvent::Staged && second == VideoEvent::OpenFailed
            ==> VideoStaging::Unstaged.spec_on_event(first).spec_on_event(second).spec_outcome()
            == Some(Err::<(), _>(VideoError::OpenFailed)),
{
}

} // verus!
