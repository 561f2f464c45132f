use glimpse_shell::battery::{label, select_templates, BatteryState, BatteryStatus, Config};
use glimpse_shell::power_profiles::{
    build_profile_rows, profile_display_name, profile_icon, PowerProfiles,
};

#[test]
fn default_config_hides_label() {
    let config = Config::default();
    let status = BatteryStatus {
        present: true,
        on_battery: true,
        percentage: 73,
        state: BatteryState::Discharging,
        ..BatteryStatus::default()
    };
    let (label_template, _) = select_templates(&config, &status);

    assert_eq!(label_template, "");
    assert_eq!(label(label_template, &status), "");
}

#[test]
fn profile_rows_skip_unnamed_profiles_and_mark_active() {
    let profiles = PowerProfiles {
        available: vec!["power-saver".into(), String::new(), "balanced".into(), "turbo".into()],
        active: "balanced".into(),
    };
    let rows = build_profile_rows(&profiles);

    assert_eq!(rows.len(), 3);
    assert_eq!(rows[0].display, "Power Saver");
    assert!(!rows[0].active);
    assert_eq!(rows[1].profile, "balanced");
    assert!(rows[1].active);
    assert_eq!(rows[2].display, "Unknown");
}

#[test]
fn profile_icons_fall_back_to_balanced() {
    assert_eq!(profile_icon("performance"), "power-profile-performance-symbolic");
    assert_eq!(profile_icon("power-saver"), "power-profile-power-saver-symbolic");
    assert_eq!(profile_icon("balanced"), "power-profile-balanced-symbolic");
    assert_eq!(profile_icon("custom"), "power-profile-balanced-symbolic");
    assert_eq!(profile_display_name("performance"), "Performance");
}
