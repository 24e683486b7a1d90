use dwm_lut::config::{AdapterLuid, ColorMode, LutAssignment, MonitorIdentity, MonitorTarget};
use dwm_lut::flip_gate::{flip_gate_armed, should_block};

fn test_monitor_identity() -> MonitorIdentity {
    MonitorIdentity { adapter_luid: AdapterLuid { high_part: 0, low_part: 0x14e02 }, target_id: 7 }
}

fn assignments() -> Vec<LutAssignment> {
    vec![LutAssignment {
        target: MonitorTarget { identity: test_monitor_identity(), color_mode: ColorMode::Sdr },
        lut_path: "panel.cube".to_string(),
        lut_size: 33,
    }]
}

#[test]
fn should_block_assigned_monitor_only() {
    let assignments = assignments();
    let other = MonitorIdentity {
        adapter_luid: AdapterLuid { high_part: 0, low_part: 0x9999 },
        target_id: 1,
    };
    assert!(should_block(true, Some(&assignments), Some(test_monitor_identity())));
    assert!(!should_block(true, Some(&assignments), Some(other)));
    // An overlay context at address 0 yields no monitor.
    assert!(!should_block(true, Some(&assignments), None));
}

#[test]
fn flip_gate_is_open_while_runtime_inactive_or_unassigned() {
    let assignments = assignments();
    let empty: Vec<LutAssignment> = Vec::new();
    assert!(!should_block(false, Some(&assignments), Some(test_monitor_identity())));
    assert!(!should_block(true, None, Some(test_monitor_identity())));
    assert!(!should_block(true, Some(&empty), Some(test_monitor_identity())));
    assert!(flip_gate_armed(true, Some(&assignments)));
    assert!(!flip_gate_armed(true, Some(&empty)));
    assert!(!flip_gate_armed(false, Some(&assignments)));
    assert!(!flip_gate_armed(true, None));
}

#[test]
fn flip_gate_matches_the_monitor_not_the_colour_mode() {
    let mut assignments = assignments();
    assignments[0].target.color_mode = ColorMode::Hdr;
    let same_target_other_adapter = MonitorIdentity {
        adapter_luid: AdapterLuid { high_part: 1, low_part: 0x14e02 },
        target_id: 7,
    };
    assert!(should_block(true, Some(&assignments), Some(test_monitor_identity())));
    assert!(!should_block(true, Some(&assignments), Some(same_target_other_adapter)));
}
