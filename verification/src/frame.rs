//! One frame from end to end: sample, project, render.

use crate::geometry::CanvasDimensions;
use crate::projector::{project, project_spec};
use crate::renderer::{render, render_spec, DrawCommand};
use crate::sampler::{acceptable, decode_window, rejects, sample_spec, FrameSampler, SampleError};
use crate::sample::Sample;
use vstd::prelude::*;

verus! {

/// The commands that paint the frame of a window of samples.
pub open spec fn frame_spec(window: Seq<Sample>, dims: CanvasDimensions) -> Seq<DrawCommand> {
    render_spec(project_spec(window, dims), dims)
}

/// A frame is a function of the capture and the canvas alone: two samplers
/// that are offered the same acceptable capture paint the same frame, and so
/// does one sampler that is offered it twice.
pub proof fn lemma_frame_repeatable(
    first: Seq<Sample>,
    second: Seq<Sample>,
    capture: Seq<u32>,
    dims: CanvasDimensions,
)
    requires
        first.len() == second.len(),
    ensures
        acceptable(first.len(), capture) ==> sample_spec(first, capture) == sample_spec(
            second,
            capture,
        ),
        project_spec(sample_spec(sample_spec(first, capture), capture), dims) == project_spec(
            sample_spec(first, capture),
            dims,
        ),
        frame_spec(sample_spec(sample_spec(first, capture), capture), dims) == frame_spec(
            sample_spec(first, capture),
            dims,
        ),
{
}

/// Draws one frame: offers `capture` to the sampler, projects the window
/// onto a canvas of size `dims` and lists the commands that paint the trace.
///
/// A capture that the sampler rejects gives its error and no commands, and
/// leaves the window as it was.
pub fn draw_frame(sampler: &mut FrameSampler, capture: &Vec<u32>, dims: CanvasDimensions) -> (outcome:
    Result<Vec<DrawCommand>, SampleError>)
    ensures
        final(sampler)@ == sample_spec(old(sampler)@, capture@),
        match outcome {
            Ok(commands) => {
                &&& acceptable(old(sampler)@.len(), capture@)
                &&& commands@ == frame_spec(decode_window(capture@), dims)
                &&& commands.len() == capture.len() + 5
            },
            Err(error) => rejects(old(sampler)@.len(), capture@, error),
        },
{
    match sampler.sample(capture) {
        Ok(()) => {
            let points = project(sampler.buffer(), dims);
            Ok(render(&points, dims))
        },
        Err(error) => Err(error),
    }
}

} // verus!
