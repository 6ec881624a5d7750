//! The frame pipeline: an ordered chain of normalisation stages followed by
//! the estimator, fixed when it is built. The caller runs each stage on the
//! frame and reports whether it succeeded; the first failure ends the chain
//! for that frame.

use vstd::prelude::*;
use crate::estimator::Ratio;

verus! {

/// A normalisation stage and its parameters.
#[derive(Debug, Clone, Copy, PartialEq, Eq, Structural)]
pub enum Normalization {
    /// Automatic gamma correction; `factor` is the share of its effect, in
    /// percent.
    Gamma { factor: Ratio },
    /// Automatic brightness and contrast, clipping the histogram on both
    /// sides by the given percentages.
    BrightnessContrast { clip_left: Ratio, clip_right: Ratio },
    /// Keeps the `width` by `height` rectangle at `(x, y)`.
    Cropping { x: u32, y: u32, width: u32, height: u32 },
    /// Conversion to one grey channel.
    GrayScale,
}

#[derive(Debug, Clone, Copy, PartialEq, Eq, Structural)]
pub enum Stage {
    Normalize(Normalization),
    /// Feature matching and the centroid estimator.
    Estimate,
}

/// The stages of a pipeline built from `normalizations`: each of them in
/// order, then the estimator.
pub open spec fn stages_of(normalizations: Seq<Normalization>) -> Seq<Stage> {
    Seq::new(normalizations.len(), |i: int| Stage::Normalize(normalizations[i])).push(
        Stage::Estimate,
    )
}

/// An ordered chain of stages that ends with the estimator.
#[derive(Debug)]
pub struct Pipeline {
    stages: Vec<Stage>,
}

/// Where a frame's run through the pipeline stands after a stage.
#[derive(Debug, Clone, Copy, PartialEq, Eq, Structural)]
pub enum Progress {
    /// Run the stage with this index next.
    Next(usize),
    /// The stage with this index failed; the frame is skipped.
    Failed(usize),
    /// Every stage succeeded.
    Finished,
}

impl Pipeline {
    /// The stages, in the order they run.
    pub closed spec fn stages(&self) -> Seq<Stage> {
        self.stages@
    }

    /// A pipeline that runs `normalizations` in order, then the estimator.
    pub fn new(normalizations: &Vec<Normalization>) -> (r: Pipeline)
        requires
            normalizations@.len() < usize::MAX,
        ensures
            r.stages() == stages_of(normalizations@),
    {
        let mut stages: Vec<Stage> = Vec::new();
        let mut i: usize = 0;
        while i < normalizations.len()
            invariant
                i <= normalizations@.len(),
                stages@ == Seq::new(i as nat, |j: int| Stage::Normalize(normalizations@[j])),
            decreases normalizations@.len() - i,
        {
            stages.push(Stage::Normalize(normalizations[i]));
            i = i + 1;
            assert(stages@ =~= Seq::new(i as nat, |j: int| Stage::Normalize(normalizations@[j])));
        }
        stages.push(Stage::Estimate);
        assert(stages@ =~= stages_of(normalizations@));
        Pipeline { stages }
    }

    /// The number of stages.
    pub fn len(&self) -> (n: usize)
        ensures
            n == self.stages().len(),
    {
        self.stages.len()
    }

    /// The stage with index `i`.
    pub fn stage(&self, i: usize) -> (s: Stage)
        requires
            i < self.stages().len(),
        ensures
            s == self.stages()[i as int],
    {
        self.stages[i]
    }

    /// Where the run stands once stage `at` has finished: a failure stops
    /// the chain, a success moves to the following stage or ends the run.
    pub fn after_stage(&self, at: usize, succeeded: bool) -> (p: Progress)
        requires
            at < self.stages().len(),
        ensures
            !succeeded ==> p == Progress::Failed(at),
            succeeded && at + 1 < self.stages().len() ==> p == Progress::Next((at + 1) as usize),
            succeeded && at + 1 == self.stages().len() ==> p == Progress::Finished,
    {
        if !succeeded {
            Progress::Failed(at)
        } else if at < self.stages.len() - 1 {
            Progress::Next(at + 1)
        } else {
            Progress::Finished
        }
    }
}

/// In every pipeline the normalisation stages come first, in the order
/// given, and the estimator runs last and only once.
pub proof fn law_estimator_runs_last(normalizations: Seq<Normalization>)
    ensures
        stages_of(normalizations).len() == normalizations.len() + 1,
        stages_of(normalizations).last() == Stage::Estimate,
        forall|i: int|
            0 <= i < normalizations.len() ==> stages_of(normalizations)[i] == Stage::Normalize(
                normalizations[i],
            ),
{
}

} // verus!
