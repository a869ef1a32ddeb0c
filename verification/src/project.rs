//! The application state machine: lifecycle states, navigation messages,
//! and the transition relation that clamps the frame cursor into range.

use vstd::prelude::*;

use crate::decode::decode_frames;
use crate::decode::frame_views;
use crate::decode::gif_frames;
use crate::decode::gif_valid;
use crate::frame::Frame;
use vstd::slice::slice_to_vec;

verus! {

/// Relies on the std `Clone` impl for `Result`, so that messages carrying a
/// load result can be cloned; nothing is claimed about the copy.
pub assume_specification<T: Clone, E: Clone>[ <Result<T, E> as Clone>::clone ](
    r: &Result<T, E>,
) -> Result<T, E>;

/// The kinds of failure a load can surface: the transport failed, the bytes
/// were not a well-formed animated image, or the image held no frames at all.
#[derive(Debug, Clone, PartialEq, Eq, Structural)]
pub enum Error {
    RequestError,
    DecodingError,
    EmptyProject,
}

/// The application lifecycle. `NoProject` precedes the completion of the
/// one-shot load; `Editing` holds the decoded frames and the cursor; `Errored`
/// is terminal for the session.
#[derive(Debug, Clone)]
pub enum GifProject {
    NoProject,
    Editing { frames: Vec<Frame>, current: usize },
    Errored,
}

/// The events the state machine reacts to: the two navigation buttons and
/// the one-shot completion of the load pipeline.
#[derive(Debug, Clone)]
pub enum Message {
    FrameStepForward,
    FrameStepBackward,
    ProjectLoaded(Result<GifProject, Error>),
}

/// What one redraw shows: a placeholder before anything is loaded, the
/// current frame with the cursor readout and the two navigation controls
/// while editing, or a static error view with no controls.
#[derive(Debug, Clone)]
pub enum ViewModel {
    Placeholder,
    FrameView { frame_data: Vec<u8>, current: usize },
    ErrorView,
}

impl Message {
    /// A message is well formed when any project it carries is.
    pub open spec fn wf(self) -> bool {
        self matches Message::ProjectLoaded(Ok(p)) ==> p.wf()
    }

    /// Runtime counterpart of `wf`, for callers outside verified code.
    pub fn is_well_formed(&self) -> (b: bool)
        ensures
            b == self.wf(),
    {
        match self {
            Message::ProjectLoaded(Ok(p)) => p.is_well_formed(),
            _ => true,
        }
    }
}

impl GifProject {
    /// Well-formedness: while editing there is at least one frame and the
    /// cursor denotes a valid index into the frame sequence.
    pub open spec fn wf(self) -> bool {
        self matches GifProject::Editing { frames, current } ==> frames.len() > 0 && current
            < frames.len()
    }

    /// Runtime counterpart of `wf`, for callers outside verified code.
    pub fn is_well_formed(&self) -> (b: bool)
        ensures
            b == self.wf(),
    {
        match self {
            GifProject::Editing { frames, current } => frames.len() > 0 && *current
                < frames.len(),
            _ => true,
        }
    }

    /// The initial state of every run.
    pub fn new() -> (p: GifProject)
        ensures
            p == GifProject::NoProject,
    {
        GifProject::NoProject
    }

    /// The window title.
    pub fn title(&self) -> (t: &'static str)
        ensures
            t@ == "gifhacker"@,
    {
        "gifhacker"
    }

    /// The transition relation of the state machine.
    ///
    /// Navigation clamps the cursor into `0 .. frames.len()`; a load
    /// completion is adopted only from `NoProject`, so it takes effect at
    /// most once; every other pairing of state and event changes nothing.
    pub open spec fn transition(self, message: Message) -> GifProject {
        match message {
            Message::FrameStepForward => match self {
                GifProject::Editing { frames, current } => GifProject::Editing {
                    frames,
                    current: if current + 1 < frames.len() {
                        (current + 1) as usize
                    } else {
                        current
                    },
                },
                _ => self,
            },
            Message::FrameStepBackward => match self {
                GifProject::Editing { frames, current } => GifProject::Editing {
                    frames,
                    current: if current > 0 {
                        (current - 1) as usize
                    } else {
                        current
                    },
                },
                _ => self,
            },
            Message::ProjectLoaded(result) => match self {
                GifProject::NoProject => match result {
                    Ok(p) => p,
                    Err(_) => GifProject::Errored,
                },
                _ => self,
            },
        }
    }

    /// Consume the current state and produce the next one.
    pub fn apply(self, message: Message) -> (r: GifProject)
        requires
            self.wf(),
            message.wf(),
        ensures
            r == self.transition(message),
            r.wf(),
    {
        match message {
            Message::FrameStepForward => match self {
                GifProject::Editing { frames, current } => {
                    let len = frames.len();
                    let next: usize = if current + 1 < len {
                        current + 1
                    } else {
                        current
                    };
                    GifProject::Editing { frames, current: next }
                },
                other => other,
            },
            Message::FrameStepBackward => match self {
                GifProject::Editing { frames, current } => {
                    let next: usize = if current > 0 {
                        current - 1
                    } else {
                        current
                    };
                    GifProject::Editing { frames, current: next }
                },
                other => other,
            },
            Message::ProjectLoaded(result) => match self {
                GifProject::NoProject => match result {
                    Ok(p) => p,
                    Err(_) => GifProject::Errored,
                },
                other => other,
            },
        }
    }

    /// React to one event in place.
    pub fn update(&mut self, message: Message)
        requires
            old(self).wf(),
            message.wf(),
        ensures
            *final(self) == old(self).transition(message),
            final(self).wf(),
    {
        let mut taken = GifProject::NoProject;
        core::mem::swap(self, &mut taken);
        *self = taken.apply(message);
    }

    /// Finish the load pipeline once the fetch has settled: `fetched` is the
    /// response body, or `None` on any transport failure.
    ///
    /// Decodes the bytes and builds the editing state with the cursor on the
    /// first frame; each failure is mapped to its own error kind, and a
    /// container with no frames at all is rejected rather than left with an
    /// unusable cursor.
    pub fn load(fetched: Option<Vec<u8>>) -> (r: Result<GifProject, Error>)
        ensures
            (match fetched {
                None => r == Err::<GifProject, Error>(Error::RequestError),
                Some(bytes) => (match r {
                    Ok(p) => {
                        &&& gif_valid(bytes@)
                        &&& gif_frames(bytes@).len() > 0
                        &&& p matches GifProject::Editing { frames, current }
                        &&& frame_views(frames@) == gif_frames(bytes@)
                        &&& current == 0
                        &&& p.wf()
                    },
                    Err(e) => (match e {
                        Error::RequestError => false,
                        Error::DecodingError => !gif_valid(bytes@),
                        Error::EmptyProject => gif_valid(bytes@) && gif_frames(bytes@).len() == 0,
                    }),
                }),
            }),
    {
        match fetched {
            None => Err(Error::RequestError),
            Some(bytes) => match decode_frames(&bytes) {
                Err(e) => Err(e),
                Ok(frames) => {
                    if frames.len() == 0 {
                        Err(Error::EmptyProject)
                    } else {
                        Ok(GifProject::Editing { frames, current: 0 })
                    }
                },
            },
        }
    }

    /// Render the current state as a view model.
    pub fn view(&self) -> (vm: ViewModel)
        requires
            self.wf(),
        ensures
            (match *self {
                GifProject::NoProject => vm == ViewModel::Placeholder,
                GifProject::Editing { frames, current } => (match vm {
                    ViewModel::FrameView { frame_data, current: shown } => frame_data@ == frames[
                        current as int
                    ]@ && shown == current,
                    _ => false,
                }),
                GifProject::Errored => vm == ViewModel::ErrorView,
            }),
    {
        match self {
            GifProject::NoProject => ViewModel::Placeholder,
            GifProject::Editing { frames, current } => ViewModel::FrameView {
                frame_data: slice_to_vec(frames[*current].data.as_slice()),
                current: *current,
            },
            GifProject::Errored => ViewModel::ErrorView,
        }
    }
}

} // verus!
