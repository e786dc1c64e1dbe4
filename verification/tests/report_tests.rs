use version_report::error::ReportError;
use version_report::report::{produce_report, render_report, Settings, VersionInfo};

fn sample_info() -> VersionInfo {
    VersionInfo {
        supported: true,
        suggested_upgrade: None,
        latest_stable: "2024.2".to_string(),
        latest_beta: "2024.3-beta1".to_string(),
    }
}

#[test]
fn report_without_beta_has_four_lines() {
    let lines = render_report(
        "2024.1",
        &sample_info(),
        &Settings { show_beta_releases: false },
    );
    assert_eq!(
        lines,
        vec![
            "Current version      : 2024.1",
            "Is supported         : true",
            "Suggested upgrade    : none",
            "Latest stable version: 2024.2",
        ]
    );
}

#[test]
fn report_with_beta_has_five_lines() {
    let lines = render_report(
        "2024.1",
        &sample_info(),
        &Settings { show_beta_releases: true },
    );
    assert_eq!(
        lines,
        vec![
            "Current version      : 2024.1",
            "Is supported         : true",
            "Suggested upgrade    : none",
            "Latest stable version: 2024.2",
            "Latest beta version  : 2024.3-beta1",
        ]
    );
}

#[test]
fn report_without_stable_has_three_lines() {
    let mut info = sample_info();
    info.latest_stable = String::new();
    let lines = render_report("2024.1", &info, &Settings { show_beta_releases: false });
    assert_eq!(
        lines,
        vec![
            "Current version      : 2024.1",
            "Is supported         : true",
            "Suggested upgrade    : none",
        ]
    );
}

#[test]
fn beta_line_present_even_when_beta_version_empty() {
    let mut info = sample_info();
    info.latest_beta = String::new();
    let lines = render_report("2024.1", &info, &Settings { show_beta_releases: true });
    assert_eq!(lines.len(), 5);
    assert_eq!(lines[4], "Latest beta version  : ");
}

#[test]
fn stable_line_absent_even_when_beta_shown() {
    let mut info = sample_info();
    info.latest_stable = String::new();
    let lines = render_report("2024.1", &info, &Settings { show_beta_releases: true });
    assert_eq!(
        lines,
        vec![
            "Current version      : 2024.1",
            "Is supported         : true",
            "Suggested upgrade    : none",
            "Latest beta version  : 2024.3-beta1",
        ]
    );
}

#[test]
fn suggested_upgrade_rendered_verbatim() {
    let mut info = sample_info();
    info.suggested_upgrade = Some("2024.4".to_string());
    let lines = render_report("2024.1", &info, &Settings { show_beta_releases: false });
    assert_eq!(lines[2], "Suggested upgrade    : 2024.4");
}

#[test]
fn unsupported_version_renders_false() {
    let mut info = sample_info();
    info.supported = false;
    let lines = render_report("2020.8", &info, &Settings { show_beta_releases: false });
    assert_eq!(lines[1], "Is supported         : false");
}

#[test]
fn all_fetches_ok_produces_the_rendered_report() {
    let info = sample_info();
    let settings = Settings { show_beta_releases: true };
    let expected = render_report("2024.1", &info, &settings);
    let produced = produce_report(
        Ok("2024.1".to_string()),
        Ok(info),
        Ok(settings),
    );
    assert_eq!(produced, Ok(expected));
}

#[test]
fn current_version_failure_aborts_report() {
    let r = produce_report(
        Err("connection refused".to_string()),
        Ok(sample_info()),
        Ok(Settings { show_beta_releases: false }),
    );
    let err = r.unwrap_err();
    assert_eq!(
        err,
        ReportError::CurrentVersionUnavailable("connection refused".to_string())
    );
    assert_eq!(
        err.describe(),
        "Failed to get current version: connection refused"
    );
}

#[test]
fn version_info_failure_aborts_report() {
    let r = produce_report(
        Ok("2024.1".to_string()),
        Err("daemon is down".to_string()),
        Ok(Settings { show_beta_releases: false }),
    );
    let err = r.unwrap_err();
    assert_eq!(
        err,
        ReportError::VersionInfoUnavailable("daemon is down".to_string())
    );
    assert_eq!(err.describe(), "Failed to get version info: daemon is down");
}

#[test]
fn settings_failure_aborts_report() {
    let r = produce_report(
        Ok("2024.1".to_string()),
        Ok(sample_info()),
        Err("timed out".to_string()),
    );
    let err = r.unwrap_err();
    assert_eq!(err, ReportError::SettingsUnavailable("timed out".to_string()));
    assert_eq!(err.describe(), "Failed to obtain settings: timed out");
}

#[test]
fn earliest_failing_fetch_identifies_the_error() {
    let r = produce_report(
        Err("first".to_string()),
        Err("second".to_string()),
        Err("third".to_string()),
    );
    assert_eq!(
        r.unwrap_err(),
        ReportError::CurrentVersionUnavailable("first".to_string())
    );
    let r = produce_report(
        Ok("2024.1".to_string()),
        Err("second".to_string()),
        Err("third".to_string()),
    );
    assert_eq!(
        r.unwrap_err(),
        ReportError::VersionInfoUnavailable("second".to_string())
    );
}

#[test]
fn long_current_version_is_reported_verbatim() {
    let lines = render_report(
        "2024.1-dev-abcdef0123456789",
        &sample_info(),
        &Settings { show_beta_releases: false },
    );
    assert_eq!(lines[0], "Current version      : 2024.1-dev-abcdef0123456789");
}
