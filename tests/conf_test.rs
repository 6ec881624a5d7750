use position_tracking::camera_conf::{
    ImageConf, method_from_lowercase, template_match_modes_from_str, CameraConfError, CameraServiceConf,
    MatchMethod, TemplateMatchConf,
};
use position_tracking::conf::{parse_duration_ms, ConfEntry, ConfValue};
use position_tracking::estimator::Ratio;
use position_tracking::pipeline::Normalization;
use position_tracking::modbus_conf::{CameraId, ConfError, ModbusServiceConf};
use position_tracking::protocol::{FunctionCode, Register};
use position_tracking::text::{parse_decimal, parse_ratio, to_chars};

fn text(key: &str, v: &str) -> ConfEntry {
    ConfEntry { key: key.to_string(), value: ConfValue::Text(v.to_string()) }
}

fn num(key: &str, v: u64) -> ConfEntry {
    ConfEntry { key: key.to_string(), value: ConfValue::Number(v) }
}

fn section(key: &str, entries: Vec<ConfEntry>) -> ConfEntry {
    ConfEntry { key: key.to_string(), value: ConfValue::Section(entries) }
}

fn modbus_section() -> Vec<ConfEntry> {
    vec![
        text("wait-started", "10 ms"),
        section(
            "unit 01",
            vec![
                text("address", "192.168.100.1:502"),
                num("x-function 06", 101),
                num("y-function 03", 65539),
            ],
        ),
    ]
}

#[test]
fn modbus_conf_reads_unit_address_and_registers() {
    let c = ModbusServiceConf::new("writer".to_string(), &modbus_section()).unwrap();
    assert_eq!(c.name, "writer");
    assert_eq!(c.wait_started_ms, Some(10));
    assert_eq!(c.unit, 1);
    assert_eq!(c.addr, "192.168.100.1:502");
    assert_eq!(c.register_x.function, FunctionCode(6));
    assert_eq!(c.register_x.register, Register(101));
    assert_eq!(c.register_y.function, FunctionCode(3));
    // register addresses keep their low 16 bits
    assert_eq!(c.register_y.register, Register(3));
    assert_eq!(c.target().unit, 1);
}

#[test]
fn modbus_conf_errors() {
    assert_eq!(ModbusServiceConf::new("w".to_string(), &vec![]).unwrap_err(), ConfError::MissingUnit);
    let bad_unit = vec![section("unit 300", vec![])];
    assert_eq!(ModbusServiceConf::new("w".to_string(), &bad_unit).unwrap_err(), ConfError::BadUnitNumber);
    let no_addr = vec![section("unit 1", vec![num("x-function 6", 1)])];
    assert_eq!(ModbusServiceConf::new("w".to_string(), &no_addr).unwrap_err(), ConfError::MissingAddress);
    let no_x = vec![section("unit 1", vec![text("address", "a:1")])];
    assert_eq!(ModbusServiceConf::new("w".to_string(), &no_x).unwrap_err(), ConfError::MissingXFunction);
    let bad_x = vec![section("unit 1", vec![text("address", "a:1"), text("x-function 6", "1")])];
    assert_eq!(ModbusServiceConf::new("w".to_string(), &bad_x).unwrap_err(), ConfError::BadXFunction);
    let no_y = vec![section("unit 1", vec![text("address", "a:1"), num("x-function 6", 1)])];
    assert_eq!(ModbusServiceConf::new("w".to_string(), &no_y).unwrap_err(), ConfError::MissingYFunction);
    let bad_y = vec![section(
        "unit 1",
        vec![text("address", "a:1"), num("x-function 6", 1), num("y-function x", 2)],
    )];
    assert_eq!(ModbusServiceConf::new("w".to_string(), &bad_y).unwrap_err(), ConfError::BadYFunction);
}

#[test]
fn durations_in_milliseconds_and_seconds() {
    assert_eq!(parse_duration_ms("10 ms"), Some(10));
    assert_eq!(parse_duration_ms("3 s"), Some(3000));
    assert_eq!(parse_duration_ms("3s"), None);
    assert_eq!(parse_duration_ms(" ms"), None);
    assert_eq!(parse_duration_ms("1 min"), None);
}

#[test]
fn decimals_and_ratios() {
    assert_eq!(parse_decimal(&to_chars("255"), 255), Some(255));
    assert_eq!(parse_decimal(&to_chars("256"), 255), None);
    assert_eq!(parse_decimal(&to_chars("007"), 255), Some(7));
    assert_eq!(parse_decimal(&to_chars(""), 255), None);
    assert_eq!(parse_decimal(&to_chars("1a"), 255), None);
    assert_eq!(parse_ratio("0.8"), Some(Ratio { num: 8, den: 10 }));
    assert_eq!(parse_ratio("1.25"), Some(Ratio { num: 125, den: 100 }));
    assert_eq!(parse_ratio("2"), Some(Ratio { num: 2, den: 1 }));
    assert_eq!(parse_ratio(".5"), None);
    assert_eq!(parse_ratio("5."), None);
    assert_eq!(parse_ratio("0.1234567891"), None);
}

#[test]
fn method_names_in_any_case() {
    assert_eq!(template_match_modes_from_str("TM_CCOEFF_NORMED"), Some(MatchMethod::CCoeffNormed));
    assert_eq!(template_match_modes_from_str("Tm_SqDiff"), Some(MatchMethod::SqDiff));
    assert_eq!(template_match_modes_from_str("tm_unknown"), None);
    assert_eq!(method_from_lowercase("tm_ccorr_normed"), Some(MatchMethod::CCorrNormed));
    assert_eq!(method_from_lowercase("TM_CCORR"), None);
}

fn template_section(ratio: &str) -> Vec<ConfEntry> {
    vec![
        text("template", "./template.png"),
        text("method", "TM_CCOEFF_NORMED"),
        text("match-ratio", ratio),
    ]
}

#[test]
fn template_match_conf_checks_ratio() {
    let c = TemplateMatchConf::new("t".to_string(), &template_section("0.8")).unwrap();
    assert_eq!(c.template, "./template.png");
    assert_eq!(c.method, MatchMethod::CCoeffNormed);
    assert_eq!(c.match_ratio, Ratio { num: 8, den: 10 });
    assert_eq!(
        TemplateMatchConf::new("t".to_string(), &template_section("1.0")).unwrap_err(),
        CameraConfError::BadMatchRatio
    );
    assert_eq!(
        TemplateMatchConf::new("t".to_string(), &template_section("0.0")).unwrap_err(),
        CameraConfError::BadMatchRatio
    );
    let no_method = vec![text("template", "x"), text("match-ratio", "0.5")];
    assert_eq!(TemplateMatchConf::new("t".to_string(), &no_method).unwrap_err(), CameraConfError::MissingMethod);
    let unknown = vec![text("template", "x"), text("method", "fast"), text("match-ratio", "0.5")];
    assert_eq!(TemplateMatchConf::new("t".to_string(), &unknown).unwrap_err(), CameraConfError::UnknownMethod);
    let no_ratio = vec![text("template", "x"), text("method", "tm_ccorr")];
    assert_eq!(TemplateMatchConf::new("t".to_string(), &no_ratio).unwrap_err(), CameraConfError::MissingMatchRatio);
    assert_eq!(TemplateMatchConf::new("t".to_string(), &vec![]).unwrap_err(), CameraConfError::MissingTemplate);
}

#[test]
fn camera_service_conf_reads_sections() {
    let conf = vec![
        text("wait-started", "2 s"),
        section("image", image_section()),
        section("camera Camera1", vec![text("from-path", "./frames")]),
        section("template-match", template_section("0.75")),
        text("deviation-ratio", "1.5"),
    ];
    let c = CameraServiceConf::new("cam".to_string(), &conf).unwrap();
    assert_eq!(c.wait_started_ms, Some(2000));
    assert_eq!(c.from_path, Some("./frames".to_string()));
    assert_eq!(c.template_match.match_ratio, Ratio { num: 75, den: 100 });
    assert_eq!(c.deviation_ratio, Ratio { num: 15, den: 10 });
    assert_eq!(c.image.gamma_factor, Ratio { num: 95, den: 1 });
    let plain = vec![section("image", image_section()), section("template-match", template_section("0.75"))];
    let c = CameraServiceConf::new("cam".to_string(), &plain).unwrap();
    assert_eq!(c.deviation_ratio, Ratio { num: 1, den: 1 });
    assert_eq!(c.from_path, None);
    assert_eq!(c.wait_started_ms, None);
    assert_eq!(
        CameraServiceConf::new("cam".to_string(), &vec![]).unwrap_err(),
        CameraConfError::MissingImage
    );
    assert_eq!(
        CameraServiceConf::new("cam".to_string(), &vec![section("image", image_section())]).unwrap_err(),
        CameraConfError::MissingTemplateMatch
    );
    let bad_dev = vec![
        section("image", image_section()),
        section("template-match", template_section("0.75")),
        num("deviation-ratio", 0),
    ];
    assert_eq!(
        CameraServiceConf::new("cam".to_string(), &bad_dev).unwrap_err(),
        CameraConfError::BadDeviationRatio
    );
}

#[test]
fn camera_id_defaults_to_zero() {
    assert_eq!(CameraId::default(), CameraId(0));
    assert_eq!(position_tracking::camera_conf::CameraId::default().0, 0);
}

fn image_section() -> Vec<ConfEntry> {
    vec![
        section("gamma", vec![num("factor", 95)]),
        section("brightness-contrast", vec![text("hist-clip-left", "1.5")]),
    ]
}

#[test]
fn image_conf_reads_stage_parameters() {
    let c = ImageConf::new(&image_section()).unwrap();
    assert_eq!(c.gamma_factor, Ratio { num: 95, den: 1 });
    assert_eq!(c.hist_clip_left, Ratio { num: 15, den: 10 });
    assert_eq!(c.hist_clip_right, Ratio { num: 0, den: 1 });
    assert_eq!(
        c.normalizations(),
        vec![
            Normalization::Gamma { factor: Ratio { num: 95, den: 1 } },
            Normalization::BrightnessContrast {
                clip_left: Ratio { num: 15, den: 10 },
                clip_right: Ratio { num: 0, den: 1 },
            },
        ]
    );
    assert_eq!(ImageConf::new(&vec![]).unwrap_err(), CameraConfError::MissingGamma);
    let no_factor = vec![section("gamma", vec![])];
    assert_eq!(ImageConf::new(&no_factor).unwrap_err(), CameraConfError::BadGamma);
    let no_bc = vec![section("gamma", vec![text("factor", "95.0")])];
    assert_eq!(ImageConf::new(&no_bc).unwrap_err(), CameraConfError::MissingBrightnessContrast);
    let bad_clip = vec![
        section("gamma", vec![text("factor", "95.0")]),
        section("brightness-contrast", vec![text("hist-clip-right", "x")]),
    ];
    assert_eq!(ImageConf::new(&bad_clip).unwrap_err(), CameraConfError::BadHistClip);
}
