use std::path::PathBuf;

use dwm_lut::config::{
    build_manifest, manifest_from_document, resolved_lut_path, AdapterLuid, AdapterLuidError, ColorMode, ConfigError,
    LutAssignment, LutManifest, ManifestAssignmentDocument, ManifestDocument, ManifestMonitorDocument,
    MonitorIdentity, MonitorTarget,
};

fn test_luid() -> AdapterLuid {
    AdapterLuid { high_part: 0, low_part: 0x14e02 }
}

fn entry(color_mode: ColorMode, lut_path: &str, lut_size: u32) -> ManifestAssignmentDocument {
    ManifestAssignmentDocument {
        monitor: ManifestMonitorDocument { adapter_luid: test_luid(), target_id: 4357 },
        color_mode,
        lut_path: lut_path.to_string(),
        lut_size,
    }
}

fn base_dir() -> &'static str {
    r"C:\work\profiles"
}

#[test]
fn load_manifest_resolves_relative_lut_paths() {
    let document = ManifestDocument { assignments: vec![entry(ColorMode::Sdr, "panel.cube", 33)] };
    let manifest = manifest_from_document(base_dir(), document).expect("manifest should build");
    assert_eq!(manifest.assignments.len(), 1);
    assert_eq!(
        manifest.assignments[0].target.identity,
        MonitorIdentity { adapter_luid: test_luid(), target_id: 4357 }
    );
    assert_eq!(manifest.assignments[0].target.color_mode, ColorMode::Sdr);
    assert_eq!(
        PathBuf::from(&manifest.assignments[0].lut_path),
        PathBuf::from(base_dir()).join("panel.cube")
    );
    assert_eq!(manifest.assignments[0].lut_size, 33);
}

#[test]
fn load_manifest_accepts_runtime_monitor_identity() {
    let document = ManifestDocument { assignments: vec![entry(ColorMode::Sdr, "panel.cube", 33)] };
    let manifest = manifest_from_document(base_dir(), document).expect("runtime manifest should build");
    let target = &manifest.assignments[0].target;
    assert_eq!(target.identity, MonitorIdentity { adapter_luid: test_luid(), target_id: 4357 });
    assert_eq!(target.color_mode, ColorMode::Sdr);
}

#[test]
fn load_manifest_rejects_duplicate_runtime_monitor_identity_for_same_color_mode() {
    let document = ManifestDocument {
        assignments: vec![
            entry(ColorMode::Sdr, "panel-a.cube", 33),
            entry(ColorMode::Sdr, "panel-b.cube", 33),
        ],
    };
    match manifest_from_document(base_dir(), document) {
        Err(ConfigError::Parse { line: None, message }) => assert_eq!(
            message,
            "duplicate assignment for monitor adapter_luid=00000000:00014e02, target_id=4357, color_mode=Sdr"
        ),
        other => panic!("unexpected result: {other:?}"),
    }
}

#[test]
fn load_manifest_accepts_same_runtime_monitor_identity_for_sdr_and_hdr() {
    let document = ManifestDocument {
        assignments: vec![
            entry(ColorMode::Sdr, "panel-sdr.cube", 33),
            entry(ColorMode::Hdr, "panel-hdr.cube", 65),
        ],
    };
    let manifest = manifest_from_document(base_dir(), document).expect("SDR and HDR coexist");
    assert_eq!(manifest.assignments.len(), 2);
    assert_eq!(manifest.assignments[0].target.identity, manifest.assignments[1].target.identity);
    assert_ne!(manifest.assignments[0].target.color_mode, manifest.assignments[1].target.color_mode);
    assert_eq!(manifest.assignments[1].lut_size, 65);
}

#[test]
fn load_manifest_accepts_empty_assignments_array() {
    let manifest = manifest_from_document(base_dir(), ManifestDocument { assignments: Vec::new() })
        .expect("empty assignments should build");
    assert!(manifest.assignments.is_empty());
}

#[test]
fn manifest_rejects_zero_lut_size_before_later_duplicates() {
    let document = ManifestDocument {
        assignments: vec![
            entry(ColorMode::Sdr, "a.cube", 0),
            entry(ColorMode::Sdr, "b.cube", 33),
            entry(ColorMode::Sdr, "c.cube", 33),
        ],
    };
    match build_manifest(document, vec!["a".into(), "b".into(), "c".into()]) {
        Err(ConfigError::Parse { line: None, message }) => {
            assert_eq!(message, "lut_size must be greater than 0")
        }
        other => panic!("unexpected result: {other:?}"),
    }
}

#[test]
fn build_manifest_keeps_resolved_paths_in_order() {
    let document = ManifestDocument {
        assignments: vec![entry(ColorMode::Sdr, "a.cube", 17), entry(ColorMode::Hdr, "b.cube", 33)],
    };
    let manifest =
        build_manifest(document, vec!["/luts/a.cube".into(), "/luts/b.cube".into()]).expect("builds");
    assert_eq!(manifest.assignments[0].lut_path, "/luts/a.cube");
    assert_eq!(manifest.assignments[1].lut_path, "/luts/b.cube");
    assert_eq!(manifest.assignments[1].target.color_mode, ColorMode::Hdr);
}

#[test]
fn adapter_luid_parses_high_low_hex() {
    assert_eq!(
        "00000000:00014e02".parse::<AdapterLuid>(),
        Ok(AdapterLuid { high_part: 0, low_part: 0x14e02 })
    );
    assert_eq!(
        AdapterLuid::parse("ffffffff:0000000A"),
        Ok(AdapterLuid { high_part: -1, low_part: 10 })
    );
    assert_eq!(AdapterLuid::parse("0000000000014e02"), Err(AdapterLuidError::MissingSeparator));
    assert_eq!(AdapterLuid::parse("0:00014e02"), Err(AdapterLuidError::InvalidLength));
    assert_eq!(AdapterLuid::parse("0000000g:00014e02"), Err(AdapterLuidError::HighPartNotHex));
    assert_eq!(AdapterLuid::parse("00000000:0001 e02"), Err(AdapterLuidError::LowPartNotHex));
    assert_eq!(
        "00000000".parse::<AdapterLuid>(),
        Err("adapter_luid must use high:low hex format")
    );
    assert_eq!(
        "0000000:000014e02".parse::<AdapterLuid>(),
        Err("adapter_luid must use 8-digit high and low hex parts")
    );
}

#[test]
fn adapter_luid_text_round_trips() {
    let luid = AdapterLuid { high_part: -2, low_part: 0xdead_beef };
    assert_eq!(luid.to_text(), "fffffffe:deadbeef");
    assert_eq!(AdapterLuid::parse(&luid.to_text()), Ok(luid));
}

#[test]
fn json_failures_at_line_zero_have_no_line() {
    match ConfigError::from_json_failure(0, "eof".to_string()) {
        ConfigError::Parse { line: None, message } => assert_eq!(message, "eof"),
        other => panic!("unexpected error: {other:?}"),
    }
    match ConfigError::from_json_failure(8, "missing field `monitor`".to_string()) {
        ConfigError::Parse { line: Some(8), .. } => {}
        other => panic!("unexpected error: {other:?}"),
    }
}

#[test]
fn manifest_add_appends_in_order() {
    let mut manifest = LutManifest::empty();
    let target = MonitorTarget {
        identity: MonitorIdentity { adapter_luid: test_luid(), target_id: 1 },
        color_mode: ColorMode::Sdr,
    };
    manifest.add(LutAssignment { target, lut_path: "a".into(), lut_size: 2 });
    manifest.add(LutAssignment { target, lut_path: "b".into(), lut_size: 3 });
    assert_eq!(manifest.assignments.len(), 2);
    assert_eq!(manifest.assignments[1].lut_path, "b");
}

#[test]
fn adapter_luid_from_str_reports_parse_messages() {
    assert_eq!("00000000:00014e02".parse::<AdapterLuid>(), Ok(test_luid()));
    assert_eq!(
        "0000000000014e02".parse::<AdapterLuid>(),
        Err("adapter_luid must use high:low hex format")
    );
    assert_eq!(
        "0:00014e02".parse::<AdapterLuid>(),
        Err("adapter_luid must use 8-digit high and low hex parts")
    );
    assert_eq!("0000000g:00014e02".parse::<AdapterLuid>(), Err("adapter_luid high part must be hex"));
    assert_eq!("00000000:00014e0x".parse::<AdapterLuid>(), Err("adapter_luid low part must be hex"));
}

#[test]
fn resolved_lut_path_keeps_absolute_paths_and_takes_the_joined_one_otherwise() {
    let written = "/luts/panel.cube".to_string();
    assert_eq!(resolved_lut_path(&written, true, "/profiles/luts/panel.cube".to_string()), "/luts/panel.cube");
    let relative = "panel.cube".to_string();
    assert_eq!(
        resolved_lut_path(&relative, false, "/profiles/panel.cube".to_string()),
        "/profiles/panel.cube"
    );
}
