//! Properties of the state machine, stated over the transition relation and
//! proved once for all states and event sequences.

use vstd::prelude::*;

use crate::frame::Frame;
use crate::project::Error;
use crate::project::GifProject;
use crate::project::Message;

verus! {

/// The two navigation events.
pub open spec fn is_step(message: Message) -> bool {
    message is FrameStepForward || message is FrameStepBackward
}

/// The state after a whole sequence of events, applied front to back.
pub open spec fn apply_all(p: GifProject, messages: Seq<Message>) -> GifProject
    decreases messages.len(),
{
    if messages.len() == 0 {
        p
    } else {
        apply_all(p.transition(messages[0]), messages.drop_first())
    }
}

/// One transition from a well-formed state on a well-formed message yields a
/// well-formed state: in particular the cursor stays inside the frame
/// sequence.
pub proof fn lemma_transition_preserves_wf(p: GifProject, message: Message)
    requires
        p.wf(),
        message.wf(),
    ensures
        p.transition(message).wf(),
{
}

/// A whole sequence of well-formed events leaves the state well formed.
pub proof fn lemma_apply_all_wf(p: GifProject, messages: Seq<Message>)
    requires
        p.wf(),
        forall|i: int| 0 <= i < messages.len() ==> #[trigger] messages[i].wf(),
    ensures
        apply_all(p, messages).wf(),
    decreases messages.len(),
{
    if messages.len() > 0 {
        lemma_transition_preserves_wf(p, messages[0]);
        assert forall|i: int|
            0 <= i < messages.drop_first().len() implies #[trigger] messages.drop_first()[i].wf() by {
            assert(messages[i + 1].wf());
        }
        lemma_apply_all_wf(p.transition(messages[0]), messages.drop_first());
    }
}

/// After every sequence of navigation events, and after each of its
/// prefixes, the cursor is a valid index whenever the state is `Editing`:
/// stepping never underflows, overflows, or leaves the frame sequence.
pub proof fn lemma_navigation_stays_in_range(p: GifProject, messages: Seq<Message>, k: int)
    requires
        p.wf(),
        forall|i: int| 0 <= i < messages.len() ==> #[trigger] is_step(messages[i]),
        0 <= k <= messages.len(),
    ensures
        apply_all(p, messages.subrange(0, k)).wf(),
        apply_all(p, messages.subrange(0, k)) matches GifProject::Editing { frames, current }
            ==> 0 <= current < frames.len(),
{
    assert forall|i: int|
        0 <= i < messages.subrange(0, k).len() implies #[trigger] messages.subrange(0, k)[i].wf() by {
        assert(is_step(messages[i]));
    }
    lemma_apply_all_wf(p, messages.subrange(0, k));
}

/// With the cursor on the last frame, stepping forward is clamped: the state
/// is left exactly as it was, not incremented past the bound.
pub proof fn lemma_step_forward_clamped(frames: Vec<Frame>, current: usize)
    requires
        frames.len() > 0,
        current == frames.len() - 1,
    ensures
        (GifProject::Editing { frames, current }).transition(Message::FrameStepForward)
            == (GifProject::Editing { frames, current }),
{
}

/// With the cursor on frame 0, stepping backward is clamped: the state is
/// left exactly as it was, not decremented below 0.
pub proof fn lemma_step_backward_clamped(frames: Vec<Frame>, current: usize)
    requires
        current == 0,
    ensures
        (GifProject::Editing { frames, current }).transition(Message::FrameStepBackward)
            == (GifProject::Editing { frames, current }),
{
}

/// A successful load completion drives `NoProject` to exactly the loaded
/// state.
pub proof fn lemma_load_completion_adopts(p: GifProject)
    ensures
        GifProject::NoProject.transition(Message::ProjectLoaded(Ok(p))) == p,
{
}

/// A failed load completion drives `NoProject` to `Errored`, whatever the
/// error kind.
pub proof fn lemma_load_completion_fails(e: Error)
    ensures
        GifProject::NoProject.transition(Message::ProjectLoaded(Err(e)))
            == GifProject::Errored,
{
}

/// The load transition happens at most once: away from `NoProject`, a load
/// completion changes nothing.
pub proof fn lemma_load_completion_at_most_once(p: GifProject, result: Result<GifProject, Error>)
    requires
        !(p is NoProject),
    ensures
        p.transition(Message::ProjectLoaded(result)) == p,
{
}

/// `Errored` is terminal: no further event transitions out of it.
pub proof fn lemma_errored_is_terminal(message: Message)
    ensures
        GifProject::Errored.transition(message) == GifProject::Errored,
{
}

} // verus!
