use position_tracking::estimator::Ratio;
use position_tracking::pipeline::{Normalization, Pipeline, Progress, Stage};

#[test]
fn estimator_is_the_last_stage() {
    let norms = vec![
        Normalization::Gamma { factor: Ratio { num: 95, den: 1 } },
        Normalization::BrightnessContrast {
            clip_left: Ratio { num: 1, den: 1 },
            clip_right: Ratio { num: 1, den: 1 },
        },
    ];
    let p = Pipeline::new(&norms);
    assert_eq!(p.len(), 3);
    assert_eq!(p.stage(0), Stage::Normalize(norms[0]));
    assert_eq!(p.stage(1), Stage::Normalize(norms[1]));
    assert_eq!(p.stage(2), Stage::Estimate);
    let bare = Pipeline::new(&vec![]);
    assert_eq!(bare.len(), 1);
    assert_eq!(bare.stage(0), Stage::Estimate);
}

#[test]
fn a_failed_stage_ends_the_run() {
    let p = Pipeline::new(&vec![Normalization::GrayScale, Normalization::GrayScale]);
    assert_eq!(p.after_stage(0, true), Progress::Next(1));
    assert_eq!(p.after_stage(1, false), Progress::Failed(1));
    assert_eq!(p.after_stage(2, true), Progress::Finished);
}
