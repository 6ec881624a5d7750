//! The tracking service's configuration:
//!
//! ```yaml
//! service CameraService:
//!     wait-started: 10 ms             # optional
//!     deviation-ratio: 1.0            # optional, 1 when absent
//!     image:
//!         gamma:
//!             factor: 95.0            # percent
//!         brightness-contrast:
//!             hist-clip-left: 1.0     # optional, 0 when absent, percent
//!             hist-clip-right: 1.0    # optional, 0 when absent, percent
//!     camera Camera1:
//!         from-path: ./frames         # optional: replay recorded frames
//!     template-match:
//!         template: ./template.png
//!         method: TM_CCOEFF_NORMED
//!         match-ratio: 0.8
//! ```

use vstd::prelude::*;
use crate::conf::{find_key, find_keyword, key_index, keyword_index, read_wait_started, wait_started_spec, ConfEntry, ConfValue};
use crate::estimator::Ratio;
use crate::pipeline::Normalization;
use crate::text::{parse_ratio, ratio_spec, same_chars, to_chars};

verus! {

/// Camera unique identifier, used for the database and the folder name.
#[derive(Debug, Clone, Copy, PartialEq, Eq, Structural)]
pub struct CameraId(pub usize);

impl Default for CameraId {
    fn default() -> (r: Self)
        ensures
            r == CameraId(0),
    {
        CameraId(0)
    }
}

/// The image-comparison method named in the configuration.
#[derive(Debug, Clone, Copy, PartialEq, Eq, Structural)]
pub enum MatchMethod {
    SqDiff,
    SqDiffNormed,
    CCorr,
    CCorrNormed,
    CCoeff,
    CCoeffNormed,
}

/// What `str::to_lowercase` makes of a string.
pub uninterp spec fn lower_of(s: Seq<char>) -> Seq<char>;

/// Relies on str::to_lowercase: the lowercase form depends on the characters
/// alone.
#[verifier::external_body]
fn lowercase(s: &str) -> (r: String)
    ensures
        r@ == lower_of(s@),
{
    s.to_lowercase()
}

/// The method that a lowercase name stands for.
pub open spec fn method_spec(s: Seq<char>) -> Option<MatchMethod> {
    if s == "tm_sqdiff"@ {
        Some(MatchMethod::SqDiff)
    } else if s == "tm_sqdiff_normed"@ {
        Some(MatchMethod::SqDiffNormed)
    } else if s == "tm_ccorr"@ {
        Some(MatchMethod::CCorr)
    } else if s == "tm_ccorr_normed"@ {
        Some(MatchMethod::CCorrNormed)
    } else if s == "tm_ccoeff"@ {
        Some(MatchMethod::CCoeff)
    } else if s == "tm_ccoeff_normed"@ {
        Some(MatchMethod::CCoeffNormed)
    } else {
        None
    }
}

fn is_name(s: &Vec<char>, name: &str) -> (r: bool)
    ensures
        r == (s@ == name@),
{
    same_chars(s, &to_chars(name))
}

/// The method named by an already lowercase name.
pub fn method_from_lowercase(name: &str) -> (r: Option<MatchMethod>)
    ensures
        r == method_spec(name@),
{
    let s = to_chars(name);
    if is_name(&s, "tm_sqdiff") {
        Some(MatchMethod::SqDiff)
    } else if is_name(&s, "tm_sqdiff_normed") {
        Some(MatchMethod::SqDiffNormed)
    } else if is_name(&s, "tm_ccorr") {
        Some(MatchMethod::CCorr)
    } else if is_name(&s, "tm_ccorr_normed") {
        Some(MatchMethod::CCorrNormed)
    } else if is_name(&s, "tm_ccoeff") {
        Some(MatchMethod::CCoeff)
    } else if is_name(&s, "tm_ccoeff_normed") {
        Some(MatchMethod::CCoeffNormed)
    } else {
        None
    }
}

/// The method named by `method`, in any letter case.
pub fn template_match_modes_from_str(method: &str) -> (r: Option<MatchMethod>)
    ensures
        r == method_spec(lower_of(method@)),
{
    let lower = lowercase(method);
    method_from_lowercase(lower.as_str())
}

/// Why a tracking-service configuration was refused.
#[derive(Debug, Clone, Copy, PartialEq, Eq, Structural)]
pub enum CameraConfError {
    MissingTemplateMatch,
    MissingTemplate,
    MissingMethod,
    UnknownMethod,
    MissingMatchRatio,
    /// The match ratio is not a number strictly between 0 and 1.
    BadMatchRatio,
    /// The deviation ratio is not a positive number.
    BadDeviationRatio,
    MissingImage,
    MissingGamma,
    /// The gamma section has no factor that reads as a number.
    BadGamma,
    MissingBrightnessContrast,
    /// A histogram clip does not read as a number.
    BadHistClip,
}

/// The fraction that a configuration value writes: a decimal text or a
/// whole number.
pub open spec fn ratio_value_spec(v: ConfValue) -> Option<Ratio> {
    match v {
        ConfValue::Text(t) => ratio_spec(t@),
        ConfValue::Number(n) => if n <= u32::MAX {
            Some(Ratio { num: n as u32, den: 1 })
        } else {
            None
        },
        _ => None,
    }
}

fn read_ratio(v: &ConfValue) -> (r: Option<Ratio>)
    ensures
        r == ratio_value_spec(*v),
{
    match v {
        ConfValue::Text(t) => parse_ratio(t.as_str()),
        ConfValue::Number(n) => {
            if *n <= 0xffff_ffff {
                Some(Ratio { num: *n as u32, den: 1 })
            } else {
                None
            }
        },
        _ => None,
    }
}

/// Template matching parameters.
#[derive(Debug)]
pub struct TemplateMatchConf {
    pub name: String,
    /// Path of the template image.
    pub template: String,
    pub method: MatchMethod,
    /// Lowe's ratio, strictly between 0 and 1.
    pub match_ratio: Ratio,
}

/// Template path, method and match ratio of a `template-match` section, or
/// the first thing wrong with it.
pub open spec fn template_match_spec(es: Seq<ConfEntry>) -> Result<
    (Seq<char>, MatchMethod, Ratio),
    CameraConfError,
> {
    match find_key(es, "template"@) {
        Some(ConfValue::Text(t)) => match find_key(es, "method"@) {
            Some(ConfValue::Text(m)) => match method_spec(lower_of(m@)) {
                None => Err(CameraConfError::UnknownMethod),
                Some(method) => match find_key(es, "match-ratio"@) {
                    None => Err(CameraConfError::MissingMatchRatio),
                    Some(v) => match ratio_value_spec(v) {
                        Some(q) => if 0 < q.num < q.den {
                            Ok((t@, method, q))
                        } else {
                            Err(CameraConfError::BadMatchRatio)
                        },
                        None => Err(CameraConfError::BadMatchRatio),
                    },
                },
            },
            _ => Err(CameraConfError::MissingMethod),
        },
        _ => Err(CameraConfError::MissingTemplate),
    }
}

impl TemplateMatchConf {
    /// Reads the `template-match` section `conf`.
    pub fn new(name: String, conf: &Vec<ConfEntry>) -> (r: Result<TemplateMatchConf, CameraConfError>)
        ensures
            match template_match_spec(conf@) {
                Ok((t, m, q)) => r matches Ok(c) && c.name == name && c.template@ == t
                    && c.method == m && c.match_ratio == q,
                Err(e) => r == Err::<TemplateMatchConf, CameraConfError>(e),
            },
    {
        let template = match key_index(conf, "template") {
            Some(i) => match &conf[i].value {
                ConfValue::Text(t) => t.clone(),
                _ => return Err(CameraConfError::MissingTemplate),
            },
            None => return Err(CameraConfError::MissingTemplate),
        };
        let method = match key_index(conf, "method") {
            Some(i) => match &conf[i].value {
                ConfValue::Text(m) => match template_match_modes_from_str(m.as_str()) {
                    Some(method) => method,
                    None => return Err(CameraConfError::UnknownMethod),
                },
                _ => return Err(CameraConfError::MissingMethod),
            },
            None => return Err(CameraConfError::MissingMethod),
        };
        let match_ratio = match key_index(conf, "match-ratio") {
            Some(i) => match read_ratio(&conf[i].value) {
                Some(q) => {
                    if 0 < q.num && q.num < q.den {
                        q
                    } else {
                        return Err(CameraConfError::BadMatchRatio);
                    }
                },
                None => return Err(CameraConfError::BadMatchRatio),
            },
            None => return Err(CameraConfError::MissingMatchRatio),
        };
        Ok(TemplateMatchConf { name, template, method, match_ratio })
    }
}

/// Parameters of the normalisation stages.
#[derive(Debug, Clone, Copy, PartialEq, Eq, Structural)]
pub struct ImageConf {
    /// Share of the automatic gamma correction's effect, in percent.
    pub gamma_factor: Ratio,
    /// Histogram clipping of the automatic brightness and contrast, in
    /// percent, on the dark side.
    pub hist_clip_left: Ratio,
    /// The same on the bright side.
    pub hist_clip_right: Ratio,
}

/// A histogram clip: 0 when absent.
pub open spec fn clip_spec(es: Seq<ConfEntry>, key: Seq<char>) -> Option<Ratio> {
    match find_key(es, key) {
        None => Some(Ratio { num: 0, den: 1 }),
        Some(v) => ratio_value_spec(v),
    }
}

/// Gamma factor and the two histogram clips of an `image` section, or the
/// first thing wrong with it.
pub open spec fn image_conf_spec(es: Seq<ConfEntry>) -> Result<ImageConf, CameraConfError> {
    match find_key(es, "gamma"@) {
        Some(ConfValue::Section(g)) => match find_key(g@, "factor"@) {
            Some(v) => match ratio_value_spec(v) {
                Some(f) => match find_key(es, "brightness-contrast"@) {
                    Some(ConfValue::Section(b)) => match (
                        clip_spec(b@, "hist-clip-left"@),
                        clip_spec(b@, "hist-clip-right"@),
                    ) {
                        (Some(l), Some(r)) => Ok(
                            ImageConf { gamma_factor: f, hist_clip_left: l, hist_clip_right: r },
                        ),
                        _ => Err(CameraConfError::BadHistClip),
                    },
                    _ => Err(CameraConfError::MissingBrightnessContrast),
                },
                None => Err(CameraConfError::BadGamma),
            },
            None => Err(CameraConfError::BadGamma),
        },
        _ => Err(CameraConfError::MissingGamma),
    }
}

fn read_clip(es: &Vec<ConfEntry>, key: &str) -> (r: Option<Ratio>)
    ensures
        r == clip_spec(es@, key@),
{
    match key_index(es, key) {
        None => Some(Ratio { num: 0, den: 1 }),
        Some(i) => read_ratio(&es[i].value),
    }
}

impl ImageConf {
    /// Reads an `image` section.
    pub fn new(conf: &Vec<ConfEntry>) -> (r: Result<ImageConf, CameraConfError>)
        ensures
            r == image_conf_spec(conf@),
    {
        let gamma_factor = match key_index(conf, "gamma") {
            Some(i) => match &conf[i].value {
                ConfValue::Section(g) => match key_index(g, "factor") {
                    Some(j) => match read_ratio(&g[j].value) {
                        Some(f) => f,
                        None => return Err(CameraConfError::BadGamma),
                    },
                    None => return Err(CameraConfError::BadGamma),
                },
                _ => return Err(CameraConfError::MissingGamma),
            },
            None => return Err(CameraConfError::MissingGamma),
        };
        let (hist_clip_left, hist_clip_right) = match key_index(conf, "brightness-contrast") {
            Some(i) => match &conf[i].value {
                ConfValue::Section(b) => match (
                    read_clip(b, "hist-clip-left"),
                    read_clip(b, "hist-clip-right"),
                ) {
                    (Some(l), Some(r)) => (l, r),
                    _ => return Err(CameraConfError::BadHistClip),
                },
                _ => return Err(CameraConfError::MissingBrightnessContrast),
            },
            None => return Err(CameraConfError::MissingBrightnessContrast),
        };
        Ok(ImageConf { gamma_factor, hist_clip_left, hist_clip_right })
    }

    /// The normalisation stages these parameters set up: automatic gamma,
    /// then automatic brightness and contrast.
    pub fn normalizations(&self) -> (r: Vec<Normalization>)
        ensures
            r@ == seq![
                Normalization::Gamma { factor: self.gamma_factor },
                Normalization::BrightnessContrast {
                    clip_left: self.hist_clip_left,
                    clip_right: self.hist_clip_right,
                },
            ],
    {
        let mut r: Vec<Normalization> = Vec::new();
        r.push(Normalization::Gamma { factor: self.gamma_factor });
        r.push(
            Normalization::BrightnessContrast {
                clip_left: self.hist_clip_left,
                clip_right: self.hist_clip_right,
            },
        );
        assert(r@ =~= seq![
            Normalization::Gamma { factor: self.gamma_factor },
            Normalization::BrightnessContrast {
                clip_left: self.hist_clip_left,
                clip_right: self.hist_clip_right,
            },
        ]);
        r
    }
}

/// The tracking service's configuration.
#[derive(Debug)]
pub struct CameraServiceConf {
    pub name: String,
    /// How long the next service waits for this one to start, in
    /// milliseconds.
    pub wait_started_ms: Option<u64>,
    pub image: ImageConf,
    pub template_match: TemplateMatchConf,
    /// How far, relative to the mean deviation, a point may lie from the
    /// centroid and still count.
    pub deviation_ratio: Ratio,
    /// A directory of recorded frames to replay instead of the live camera.
    pub from_path: Option<String>,
}

/// The deviation ratio of a section: 1 when absent, else a positive number.
pub open spec fn deviation_ratio_spec(es: Seq<ConfEntry>) -> Result<Ratio, CameraConfError> {
    match find_key(es, "deviation-ratio"@) {
        None => Ok(Ratio { num: 1, den: 1 }),
        Some(v) => match ratio_value_spec(v) {
            Some(q) => if q.num > 0 {
                Ok(q)
            } else {
                Err(CameraConfError::BadDeviationRatio)
            },
            None => Err(CameraConfError::BadDeviationRatio),
        },
    }
}

/// The image parameters, template matching parameters and deviation ratio
/// of a tracking-service section, or the first thing wrong with it.
pub open spec fn camera_conf_spec(es: Seq<ConfEntry>) -> Result<
    (ImageConf, (Seq<char>, MatchMethod, Ratio), Ratio),
    CameraConfError,
> {
    match find_key(es, "image"@) {
        Some(ConfValue::Section(img)) => match image_conf_spec(img@) {
            Err(e) => Err(e),
            Ok(image) => match find_key(es, "template-match"@) {
                Some(ConfValue::Section(sec)) => match template_match_spec(sec@) {
                    Err(e) => Err(e),
                    Ok(tm) => match deviation_ratio_spec(es) {
                        Err(e) => Err(e),
                        Ok(d) => Ok((image, tm, d)),
                    },
                },
                _ => Err(CameraConfError::MissingTemplateMatch),
            },
        },
        _ => Err(CameraConfError::MissingImage),
    }
}

/// The replay directory: the `from-path` text of the `camera <name>`
/// section, if there is one.
pub open spec fn from_path_spec(es: Seq<ConfEntry>) -> Option<Seq<char>> {
    match find_keyword(es, "camera"@) {
        Some((_, ConfValue::Section(cam))) => match find_key(cam@, "from-path"@) {
            Some(ConfValue::Text(p)) => Some(p@),
            _ => None,
        },
        _ => None,
    }
}

fn read_from_path(conf: &Vec<ConfEntry>) -> (r: Option<String>)
    ensures
        r matches Some(p) ==> from_path_spec(conf@) == Some(p@),
        r is None ==> from_path_spec(conf@) is None,
{
    match keyword_index(conf, "camera") {
        Some((i, _)) => match &conf[i].value {
            ConfValue::Section(cam) => match key_index(cam, "from-path") {
                Some(j) => match &cam[j].value {
                    ConfValue::Text(p) => Some(p.clone()),
                    _ => None,
                },
                None => None,
            },
            _ => None,
        },
        None => None,
    }
}

impl CameraServiceConf {
    /// Reads the configuration of a tracking service named `name` from its
    /// section `conf`.
    pub fn new(name: String, conf: &Vec<ConfEntry>) -> (r: Result<CameraServiceConf, CameraConfError>)
        ensures
            match camera_conf_spec(conf@) {
                Ok((image, (t, m, q), d)) => r matches Ok(c) && c.name == name && c.image == image
                    && c.template_match.template@ == t && c.template_match.method == m
                    && c.template_match.match_ratio == q && c.deviation_ratio == d
                    && c.wait_started_ms == wait_started_spec(conf@) && match c.from_path {
                    Some(p) => from_path_spec(conf@) == Some(p@),
                    None => from_path_spec(conf@) is None,
                },
                Err(e) => r == Err::<CameraServiceConf, CameraConfError>(e),
            },
    {
        let image = match key_index(conf, "image") {
            Some(i) => match &conf[i].value {
                ConfValue::Section(img) => ImageConf::new(img)?,
                _ => return Err(CameraConfError::MissingImage),
            },
            None => return Err(CameraConfError::MissingImage),
        };
        let template_match = match key_index(conf, "template-match") {
            Some(i) => match &conf[i].value {
                ConfValue::Section(sec) => TemplateMatchConf::new(name.clone(), sec)?,
                _ => return Err(CameraConfError::MissingTemplateMatch),
            },
            None => return Err(CameraConfError::MissingTemplateMatch),
        };
        let deviation_ratio = match key_index(conf, "deviation-ratio") {
            None => Ratio { num: 1, den: 1 },
            Some(i) => match read_ratio(&conf[i].value) {
                Some(q) => {
                    if q.num > 0 {
                        q
                    } else {
                        return Err(CameraConfError::BadDeviationRatio);
                    }
                },
                None => return Err(CameraConfError::BadDeviationRatio),
            },
        };
        Ok(CameraServiceConf {
            name,
            wait_started_ms: read_wait_started(conf),
            image,
            template_match,
            deviation_ratio,
            from_path: read_from_path(conf),
        })
    }
}

} // verus!
