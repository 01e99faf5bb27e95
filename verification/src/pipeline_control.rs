//! Play/pause decisions of the video pipeline.

use vstd::prelude::*;

verus! {

/// The states of a media pipeline.
#[derive(Debug, Clone, Copy, PartialEq, Eq, Structural)]
pub enum PipelineState {
    VoidPending,
    Null,
    Ready,
    Paused,
    Playing,
}

/// The state that toggling play/pause moves a pipeline in state `current` to.
pub open spec fn toggled(current: PipelineState) -> PipelineState {
    if current == PipelineState::Playing {
        PipelineState::Paused
    } else {
        PipelineState::Playing
    }
}

/// The state to request when play/pause is toggled on a pipeline that is in
/// state `current`: a playing pipeline is paused, any other is played. This is
/// also the state reported back to the user interface, whether or not the
/// change succeeds.
pub fn toggle_target(current: PipelineState) -> (r: PipelineState)
    ensures
        r == toggled(current),
{
    match current {
        PipelineState::Playing => PipelineState::Paused,
        _ => PipelineState::Playing,
    }
}

/// Whether the pause image is to be shown after a request to change to
/// `target`: only after a change that succeeded and left the video not
/// playing.
pub fn shows_pause_image(target: PipelineState, change_succeeded: bool) -> (r: bool)
    ensures
        r == (change_succeeded && target != PipelineState::Playing),
{
    change_succeeded && target != PipelineState::Playing
}

/// Toggling always asks for playing or paused, and never for the state the
/// pipeline is in when that is one of the two.
pub proof fn law_toggle_alternates(current: PipelineState)
    ensures
        toggled(current) == PipelineState::Playing || toggled(current) == PipelineState::Paused,
        (current == PipelineState::Playing || current == PipelineState::Paused) ==> toggled(current)
            != current,
{
}

/// Toggling twice from playing or from paused returns to the same state.
pub proof fn law_toggle_twice(current: PipelineState)
    requires
        current == PipelineState::Playing || current == PipelineState::Paused,
    ensures
        toggled(toggled(current)) == current,
{
}

} // verus!
