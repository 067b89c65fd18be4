use boosty_loader::process::build_process_command;
use boosty_loader::json::json_scalar;
use boosty_loader::settings::{build_download_args, validate_settings, CommandSpec, DownloadSettings};
use boosty_loader::version::parse_python_version;

fn valid_settings() -> DownloadSettings {
    let request_delay_seconds: f64 = 3.0;
    DownloadSettings {
        username: " creator ".into(),
        auth_header: "Bearer token".into(),
        cookie: "auth=value".into(),
        destination_directory: "/tmp/downloads".into(),
        post_url: "https://boosty.to/creator/posts/id".into(),
        preferred_video_quality: "high".into(),
        content_types: vec!["post_content".into(), "files".into()],
        request_delay_seconds: request_delay_seconds.to_string(),
        skip_all_failures: true,
    }
}

fn delay_below_minimum(delay: f64) -> bool {
    delay < 1.0
}

#[test]
fn builds_supported_cli_arguments() {
    let args = build_download_args(
        &CommandSpec {
            program: "boosty-downloader".into(),
            prefix_args: vec![],
        },
        &valid_settings(),
    );

    assert_eq!(args[0], "download");
    assert!(args
        .windows(2)
        .any(|pair| pair == ["--username", "creator"]));
    assert!(args
        .windows(2)
        .any(|pair| pair == ["--preferred-video-quality", "high"]));
    assert_eq!(
        args.iter()
            .filter(|arg| *arg == "--content-type-filter")
            .count(),
        2
    );
    assert!(args.contains(&"--skip-all-failures".to_string()));
}

#[test]
fn rejects_missing_credentials() {
    let mut settings = valid_settings();
    settings.cookie.clear();
    assert!(validate_settings(&settings, delay_below_minimum(3.0)).is_err());
}

#[test]
fn json_strings_are_valid_yaml_scalars() {
    assert_eq!(json_scalar("a'b\nline").unwrap(), "\"a'b\\nline\"");
}

#[test]
fn managed_process_uses_explicit_ca_bundle() {
    let spec = CommandSpec {
        program: "boosty-downloader".into(),
        prefix_args: vec![],
    };
    let ca_bundle = "/app/venv/certifi/cacert.pem";
    let command = build_process_command(&spec, &vec![], "/app", Some(ca_bundle));
    let ssl_cert_file = command
        .envs
        .iter()
        .find(|(key, _)| key == "SSL_CERT_FILE")
        .map(|(_, value)| value.as_str());

    assert_eq!(ssl_cert_file, Some(ca_bundle));
}

#[test]
fn parses_python_version_strings() {
    assert_eq!(parse_python_version("3.12"), Some((3, 12)));
    assert_eq!(parse_python_version("Python 3.9.6"), Some((3, 9)));
    assert_eq!(parse_python_version("nope"), None);
}
