use boosty_loader::json::json_scalar;
use boosty_loader::output::{
    classify_output_line, default_progress_active, progress_message, OutputLine, OutputStream,
    PROGRESS_PREFIX,
};
use boosty_loader::process::{
    build_process_command, command_succeeded, command_works, dedup_positions, tool_dirs,
    DownloadState,
};
use boosty_loader::runtime::{
    ca_bundle_for_download, certifi_location, download_command, extract_command, find_downloader,
    install_failure_message, install_outcome, pip_install_command, pip_upgrade_command,
    prepare_download_command, runtime_status, uses_managed_runtime, uv_binary_name,
    uv_download_target, uv_download_url, uv_install_command, uv_venv_command, venv_command,
    venv_program_path, DownloaderSearch, VenvProgram,
};
use boosty_loader::runtime::{
    install_step, locate_extracted_binary, system_install_plan, uv_install_plan, ExtractedBinary,
    InstallAction,
};
use boosty_loader::settings::{
    prepare_start,
    build_download_args, config_yaml, default_content_types, default_video_quality,
    validate_settings, CommandSpec, DownloadSettings,
};
use boosty_loader::text::{
    blank, decimal_string, signed_decimal_string, strip_prefix, text_eq, trim,
};
use boosty_loader::version::{
    find_compatible_python, is_compatible_python, parse_python_version, python_candidate,
    python_version, venv_python_compatible, PythonSearch,
};

fn settings() -> DownloadSettings {
    DownloadSettings {
        username: "  author\t".into(),
        auth_header: " Bearer abc ".into(),
        cookie: "\nsession=1 ".into(),
        destination_directory: "/home/me/Boosty Downloads".into(),
        post_url: "   ".into(),
        preferred_video_quality: "medium".into(),
        content_types: vec!["post_content".into(), "boosty_videos".into(), "audio".into()],
        request_delay_seconds: 2.5f64.to_string(),
        skip_all_failures: false,
    }
}

fn strings(items: &[&str]) -> Vec<String> {
    items.iter().map(|s| s.to_string()).collect()
}

#[test]
fn trim_removes_unicode_whitespace_at_both_ends() {
    assert_eq!(trim("  a b \t\n"), "a b");
    assert_eq!(trim("\u{a0}\u{3000}x\u{2028}"), "x");
    assert_eq!(trim(""), "");
    assert_eq!(trim(" \r\n "), "");
    assert_eq!(trim("inner  space"), "inner  space");
}

#[test]
fn trim_twice_is_trim_once() {
    for s in ["  a ", "\tb\t", "", "   ", "c"] {
        assert_eq!(trim(&trim(s)), trim(s));
    }
}

#[test]
fn blank_means_only_whitespace() {
    assert!(blank(""));
    assert!(blank(" \t\u{85}"));
    assert!(!blank(" a "));
}

#[test]
fn decimal_rendering_matches_display() {
    for n in [0u64, 7, 10, 99, 100, 4294967295, u64::MAX] {
        assert_eq!(decimal_string(n), n.to_string());
    }
    for i in [0i32, -1, 5, -128, i32::MAX, i32::MIN] {
        assert_eq!(signed_decimal_string(i), i.to_string());
    }
}

#[test]
fn text_helpers() {
    assert!(text_eq("macos", "macos"));
    assert!(!text_eq("macos", "mac"));
    assert_eq!(strip_prefix("__BOOSTY_PROGRESS__{}", PROGRESS_PREFIX), Some("{}".to_string()));
    assert_eq!(strip_prefix("__BOOSTY", PROGRESS_PREFIX), None);
    assert_eq!(strip_prefix("x__BOOSTY_PROGRESS__", PROGRESS_PREFIX), None);
}

#[test]
fn version_parsing_edge_cases() {
    assert_eq!(parse_python_version("Python 3.12.1\n"), Some((3, 12)));
    assert_eq!(parse_python_version("3"), None);
    assert_eq!(parse_python_version(""), None);
    assert_eq!(parse_python_version("v03.010"), Some((3, 10)));
    assert_eq!(parse_python_version("4294967295.0"), Some((4294967295, 0)));
    assert_eq!(parse_python_version("4294967296.0"), None);
    assert_eq!(parse_python_version("3.99999999999"), None);
    assert_eq!(parse_python_version("3.11 and 99999999999"), Some((3, 11)));
}

#[test]
fn probe_output_reads_back_as_the_printed_version() {
    for (major, minor) in [(3u32, 10u32), (0, 0), (12, 345), (u32::MAX, 7)] {
        let text = format!("{}.{}", major, minor);
        assert_eq!(parse_python_version(&text), Some((major, minor)));
    }
}

#[test]
fn python_probe_and_compatibility() {
    assert_eq!(python_version(true, " 3.11\n"), Some((3, 11)));
    assert_eq!(python_version(false, "3.11"), None);
    assert!(is_compatible_python(Some((3, 10))));
    assert!(is_compatible_python(Some((3, 13))));
    assert!(!is_compatible_python(Some((3, 9))));
    assert!(!is_compatible_python(Some((2, 12))));
    assert!(!is_compatible_python(None));
    assert!(venv_python_compatible(true, Some((3, 12))));
    assert!(!venv_python_compatible(false, Some((3, 12))));
    assert!(!venv_python_compatible(true, Some((3, 8))));
}

#[test]
fn python_candidates_in_order() {
    assert_eq!(python_candidate(0), Some("python3.13".to_string()));
    assert_eq!(python_candidate(4), Some("python3".to_string()));
    assert_eq!(python_candidate(6), Some("py".to_string()));
    assert_eq!(python_candidate(7), None);
}

#[test]
fn python_search_steps() {
    match find_compatible_python(&vec![]) {
        PythonSearch::Probe(name) => assert_eq!(name, "python3.13"),
        _ => panic!("the first candidate must be probed"),
    }
    match find_compatible_python(&vec![None, Some((3, 9))]) {
        PythonSearch::Probe(name) => assert_eq!(name, "python3.11"),
        _ => panic!("the third candidate must be probed"),
    }
    match find_compatible_python(&vec![None, Some((3, 12)), Some((3, 13))]) {
        PythonSearch::Found(name) => assert_eq!(name, "python3.12"),
        _ => panic!("the first compatible candidate must be chosen"),
    }
    match find_compatible_python(&vec![None; 7]) {
        PythonSearch::Exhausted => {}
        _ => panic!("all candidates failed"),
    }
}

#[test]
fn validation_reports_the_first_problem() {
    assert!(validate_settings(&settings(), false).is_ok());
    let mut s = settings();
    s.username = " ".into();
    s.cookie = String::new();
    assert_eq!(
        validate_settings(&s, true).unwrap_err(),
        "Укажите имя автора из адреса boosty.to/имя"
    );
    let mut s = settings();
    s.auth_header = "\t".into();
    assert_eq!(
        validate_settings(&s, false).unwrap_err(),
        "Добавьте Authorization и Cookie из авторизованной сессии Boosty"
    );
    let mut s = settings();
    s.destination_directory = String::new();
    assert_eq!(validate_settings(&s, false).unwrap_err(), "Выберите папку для загрузок");
    let mut s = settings();
    s.content_types.clear();
    assert_eq!(
        validate_settings(&s, false).unwrap_err(),
        "Выберите хотя бы один тип контента"
    );
    assert_eq!(
        validate_settings(&settings(), 0.5 < 1.0).unwrap_err(),
        "Задержка между запросами должна быть не меньше 1 секунды"
    );
}

#[test]
fn download_arguments_in_full() {
    let spec = CommandSpec {
        program: "python".into(),
        prefix_args: strings(&["/rt/boosty_launcher.py"]),
    };
    let args = build_download_args(&spec, &settings());
    assert_eq!(
        args,
        strings(&[
            "/rt/boosty_launcher.py",
            "download",
            "--username",
            "author",
            "--preferred-video-quality",
            "medium",
            "--request-delay-seconds",
            "2.5",
            "--destination-directory",
            "/home/me/Boosty Downloads",
            "--content-type-filter",
            "post_content",
            "--content-type-filter",
            "boosty_videos",
            "--content-type-filter",
            "audio",
        ])
    );
    let mut single = settings();
    single.post_url = " https://boosty.to/a/posts/1 ".into();
    single.skip_all_failures = true;
    let args = build_download_args(&spec, &single);
    assert!(args.windows(2).any(|w| w == ["--post-url", "https://boosty.to/a/posts/1"]));
    assert_eq!(args.last().unwrap(), "--skip-all-failures");
}

#[test]
fn each_content_type_follows_its_filter() {
    let spec = CommandSpec { program: "d".into(), prefix_args: vec![] };
    let s = settings();
    let args = build_download_args(&spec, &s);
    let at = args.iter().position(|a| a == "--content-type-filter").unwrap();
    for (k, t) in s.content_types.iter().enumerate() {
        assert_eq!(args[at + 2 * k], "--content-type-filter");
        assert_eq!(&args[at + 2 * k + 1], t);
    }
}

#[test]
fn config_file_quotes_trimmed_credentials() {
    let yaml = config_yaml(&settings()).unwrap();
    assert_eq!(
        yaml,
        "auth:\n  cookie: \"session=1\"\n  auth_header: \"Bearer abc\"\ndownloading_settings:\n  target_directory: \"/home/me/Boosty Downloads\"\n"
    );
}

#[test]
fn json_scalar_escapes_like_serde_json() {
    for s in ["plain", "q\"uote", "back\\slash", "\u{1}\u{8}\t\n\u{c}\r\u{1f}", "юникод ✓", "/"] {
        assert_eq!(json_scalar(s).unwrap(), serde_json::to_string(s).unwrap());
    }
    assert_eq!(json_scalar("\u{1}").unwrap(), "\"\\u0001\"");
    assert_eq!(json_scalar("\u{1f}").unwrap(), "\"\\u001f\"");
}

#[test]
fn json_scalar_stays_on_one_line() {
    let quoted = json_scalar("line one\nline two\r\n\tend").unwrap();
    assert!(!quoted.contains('\n') && !quoted.contains('\r') && !quoted.contains('\t'));
    assert!(quoted.starts_with('"') && quoted.ends_with('"'));
}

#[test]
fn defaults() {
    assert_eq!(
        default_content_types(),
        strings(&["post_content", "boosty_videos", "external_videos", "files", "audio"])
    );
    assert_eq!(default_video_quality(), "medium");
    assert!(default_progress_active());
}

#[test]
fn output_lines_are_sorted() {
    assert!(matches!(classify_output_line("   ", &OutputStream::Log), OutputLine::Skip));
    match classify_output_line("  __BOOSTY_PROGRESS__{\"label\":\"x\"} ", &OutputStream::Log) {
        OutputLine::Progress(raw) => assert_eq!(raw, "{\"label\":\"x\"}"),
        _ => panic!("a progress report was expected"),
    }
    assert!(matches!(
        classify_output_line("__BOOSTY_PROGRESS__{}", &OutputStream::Error),
        OutputLine::Plain
    ));
    assert!(matches!(classify_output_line("Downloading post", &OutputStream::Log), OutputLine::Plain));
    assert_eq!(OutputStream::Log.kind(), "log");
    assert_eq!(OutputStream::Error.kind(), "error");
}

#[test]
fn progress_messages() {
    assert_eq!(progress_message("Видео", Some("42"), "1/3", true), "Видео — 42% · 1/3");
    assert_eq!(progress_message("Видео", Some("42"), "", true), "Видео — 42%");
    assert_eq!(progress_message("Видео", None, "1/3", true), "Видео — 1/3");
    assert_eq!(progress_message("Видео", None, "", true), "Видео");
    assert_eq!(progress_message("Видео", Some("42"), "1/3", false), "");
}

#[test]
fn helper_command_results() {
    assert_eq!(command_succeeded(true, " out \n", "err", "ctx"), Ok("out".to_string()));
    assert_eq!(command_succeeded(true, "  ", " err ", "ctx"), Ok("err".to_string()));
    assert_eq!(command_succeeded(false, "out", " err ", "ctx"), Err("ctx\nerr".to_string()));
    assert_eq!(command_succeeded(false, " out ", "", "ctx"), Err("ctx\nout".to_string()));
    assert_eq!(command_works(true, "1.2.3\n"), Some("1.2.3".to_string()));
    assert_eq!(command_works(true, ""), Some("установлен".to_string()));
    assert_eq!(command_works(false, "1.2.3"), None);
}

#[test]
fn process_environment() {
    let spec = CommandSpec { program: "prog".into(), prefix_args: vec![] };
    let command = build_process_command(&spec, &strings(&["a", "b"]), "/wd", None);
    assert_eq!(command.program, "prog");
    assert_eq!(command.args, strings(&["a", "b"]));
    assert_eq!(command.working_directory, "/wd");
    assert_eq!(
        command.envs,
        vec![("NO_COLOR".to_string(), "1".to_string()), ("TERM".to_string(), "dumb".to_string())]
    );
}

#[test]
fn search_path_dedup() {
    let keys = strings(&["/a", "/a", "/b", "/a", "/b", "/b"]);
    assert_eq!(dedup_positions(&keys), vec![0, 2, 3, 4]);
    assert_eq!(dedup_positions(&vec![]), Vec::<usize>::new());
    assert_eq!(tool_dirs(true), strings(&["/opt/homebrew/bin", "/usr/local/bin", "/opt/local/bin"]));
    assert!(tool_dirs(false).is_empty());
}

#[test]
fn download_lifecycle() {
    let mut state = DownloadState::new();
    assert!(state.check_can_start().is_ok());
    assert_eq!(state.check_can_stop().unwrap_err(), "Активной загрузки нет");
    state.mark_started();
    assert_eq!(state.check_can_start().unwrap_err(), "Загрузка уже выполняется");
    assert!(state.check_can_stop().is_ok());
    let event = state.finish(true, Some(0));
    assert_eq!((event.kind.as_str(), event.message.as_str()), ("completed", "Загрузка завершена"));
    assert!(state.check_can_start().is_ok());

    state.mark_started();
    let event = state.finish(false, Some(2));
    assert_eq!(event.kind, "failed");
    assert_eq!(event.message, "Загрузка завершилась с кодом 2");

    state.mark_started();
    let event = state.finish(false, None);
    assert_eq!(event.message, "Загрузка завершилась с кодом -1");
}

#[test]
fn stopped_download_is_cancelled_whatever_its_status() {
    for (succeeded, code) in [(true, Some(0)), (false, Some(137)), (false, None)] {
        let mut state = DownloadState::new();
        state.mark_started();
        assert!(state.check_can_stop().is_ok());
        state.mark_cancelled();
        assert!(state.check_can_start().is_err());
        let event = state.finish(succeeded, code);
        assert_eq!((event.kind.as_str(), event.message.as_str()), ("cancelled", "Загрузка остановлена"));
        assert!(state.check_can_start().is_ok());
    }
}

#[test]
fn lost_process_keeps_stop_request() {
    let mut state = DownloadState::new();
    state.mark_started();
    state.mark_cancelled();
    state.mark_lost();
    assert!(!state.running && state.cancelled);
    assert!(state.check_can_start().is_ok());
}

#[test]
fn uv_targets() {
    assert_eq!(
        uv_download_target("macos", "aarch64"),
        Ok(("uv-aarch64-apple-darwin.tar.gz".to_string(), "uv".to_string()))
    );
    assert_eq!(
        uv_download_target("linux", "x86_64"),
        Ok(("uv-x86_64-unknown-linux-gnu.tar.gz".to_string(), "uv".to_string()))
    );
    assert_eq!(
        uv_download_target("windows", "aarch64"),
        Ok(("uv-aarch64-pc-windows-msvc.zip".to_string(), "uv.exe".to_string()))
    );
    assert_eq!(
        uv_download_target("freebsd", "x86_64").unwrap_err(),
        "Автоустановка Python не поддерживается для freebsd-x86_64. Установите Python 3.10+ вручную."
    );
    assert_eq!(
        uv_download_url("uv-x86_64-apple-darwin.tar.gz"),
        "https://github.com/astral-sh/uv/releases/download/0.8.4/uv-x86_64-apple-darwin.tar.gz"
    );
    assert_eq!(uv_binary_name(true), "uv.exe");
    assert_eq!(uv_binary_name(false), "uv");
}

#[test]
fn helper_command_lines() {
    let c = download_command("https://x/y.zip", "C:\\t\\y.zip", true).unwrap();
    assert_eq!(c.program, "powershell");
    assert_eq!(
        c.args,
        strings(&[
            "-NoProfile",
            "-Command",
            "Invoke-WebRequest -UseBasicParsing -Uri \"https://x/y.zip\" -OutFile \"C:\\\\t\\\\y.zip\"",
        ])
    );
    assert_eq!(c.failure_context, "Не удалось скачать вспомогательный установщик");
    let c = download_command("https://x/y.tgz", "/t/y.tgz", false).unwrap();
    assert_eq!((c.program.as_str(), c.args.clone()), ("curl", strings(&["-fsSL", "https://x/y.tgz", "-o", "/t/y.tgz"])));
    let c = extract_command("/t/y.tgz", "/t/out", false).unwrap();
    assert_eq!((c.program.as_str(), c.args.clone()), ("tar", strings(&["-xzf", "/t/y.tgz", "-C", "/t/out"])));
    assert_eq!(c.failure_context, "Не удалось распаковать вспомогательный установщик");
    let c = extract_command("a.zip", "out dir", true).unwrap();
    assert_eq!(c.args[2], "Expand-Archive -Force -Path \"a.zip\" -DestinationPath \"out dir\"");
    let c = uv_venv_command("/rt/uv", "/rt/venv");
    assert_eq!(c.args, strings(&["venv", "--python", "3.12", "--seed", "/rt/venv"]));
    let c = uv_install_command("/rt/uv", "/rt/venv/bin/python");
    assert_eq!(
        c.args,
        strings(&["pip", "install", "--python", "/rt/venv/bin/python", "--upgrade", "boosty-downloader", "certifi"])
    );
    assert_eq!(venv_command("python3", "/v").args, strings(&["-m", "venv", "/v"]));
    assert_eq!(pip_upgrade_command("/v/bin/python").failure_context, "Не удалось обновить pip");
    assert_eq!(
        pip_install_command("/v/bin/python").args,
        strings(&["-m", "pip", "install", "--upgrade", "boosty-downloader", "certifi"])
    );
}

#[test]
fn installation_messages() {
    assert_eq!(
        install_failure_message("first", "second"),
        "first\n\nРезервная установка тоже не удалась:\nsecond"
    );
    assert_eq!(install_outcome(true, true), Ok("Boosty Downloader готов к работе".to_string()));
    assert!(install_outcome(true, false).is_err());
    assert!(install_outcome(false, true).is_err());
}

#[test]
fn managed_runtime_paths_and_launcher() {
    assert_eq!(venv_program_path(false, VenvProgram::Downloader), ("bin".to_string(), "boosty-downloader".to_string()));
    assert_eq!(venv_program_path(true, VenvProgram::Python), ("Scripts".to_string(), "python.exe".to_string()));
    assert!(uses_managed_runtime("/v/bin/boosty-downloader", "/v/bin/boosty-downloader"));
    assert!(!uses_managed_runtime("boosty-downloader", "/v/bin/boosty-downloader"));
    let own = prepare_download_command(
        CommandSpec { program: "/v/bin/boosty-downloader".into(), prefix_args: vec![] },
        "/v/bin/boosty-downloader",
        "/v/bin/python",
        "/rt/boosty_launcher.py",
    );
    assert_eq!(own.program, "/v/bin/python");
    assert_eq!(own.prefix_args, strings(&["/rt/boosty_launcher.py"]));
    let other = prepare_download_command(
        CommandSpec { program: "boosty-downloader".into(), prefix_args: vec![] },
        "/v/bin/boosty-downloader",
        "/v/bin/python",
        "/rt/boosty_launcher.py",
    );
    assert_eq!(other.program, "boosty-downloader");
    assert!(other.prefix_args.is_empty());
}

#[test]
fn certificate_bundle_rules() {
    assert_eq!(certifi_location(true, " /v/cacert.pem\n"), Some("/v/cacert.pem".to_string()));
    assert_eq!(certifi_location(false, "/v/cacert.pem"), None);
    assert_eq!(ca_bundle_for_download(false, None), Ok(None));
    assert_eq!(ca_bundle_for_download(true, Some("/c".into())), Ok(Some("/c".to_string())));
    assert!(ca_bundle_for_download(true, None).is_err());
}

#[test]
fn downloader_search_and_status() {
    match find_downloader("/v/bin/boosty-downloader", &vec![]) {
        DownloaderSearch::Probe(spec) => assert_eq!(spec.program, "/v/bin/boosty-downloader"),
        _ => panic!("the app's own downloader is tried first"),
    }
    match find_downloader("/v/bin/boosty-downloader", &vec![None]) {
        DownloaderSearch::Probe(spec) => assert_eq!(spec.program, "boosty-downloader"),
        _ => panic!("the one on the search path is tried next"),
    }
    match find_downloader("/v/bin/boosty-downloader", &vec![None, Some("1.0".into())]) {
        DownloaderSearch::Found(spec, version) => {
            assert_eq!(spec.program, "boosty-downloader");
            assert_eq!(version, "1.0");
        }
        _ => panic!("the working downloader is found"),
    }
    assert!(matches!(find_downloader("/v", &vec![None, None]), DownloaderSearch::Exhausted));

    let found = Some(("/v/bin/boosty-downloader".to_string(), "1.0".to_string()));
    let status = runtime_status(found.clone(), Some("/v/bin/boosty-downloader"), false, true);
    assert!(!status.installed);
    assert_eq!(status.version, Some("1.0".to_string()));
    assert!(status.running);
    assert!(runtime_status(found.clone(), Some("/v/bin/boosty-downloader"), true, false).installed);
    assert!(runtime_status(Some(("boosty-downloader".into(), "1.0".into())), Some("/v"), false, false).installed);
    assert!(runtime_status(found, None, false, false).installed);
    assert!(!runtime_status(None, None, true, false).installed);
}

#[test]
fn json_scalar_reads_back_as_the_same_text() {
    for s in ["", "a'b\nline", "\"quoted\" \\ back", "\u{0}\u{7}\u{1b}\u{7f}", "ключ=значение; ✓"] {
        let quoted = json_scalar(s).unwrap();
        assert_eq!(serde_json::from_str::<String>(&quoted).unwrap(), s);
    }
}

#[test]
fn install_route_choice() {
    assert!(matches!(install_step(Some("python3"), None, None), InstallAction::RunSystem(p) if p == "python3"));
    assert!(matches!(install_step(Some("python3"), Some(Ok(())), None), InstallAction::Installed));
    assert!(matches!(
        install_step(Some("python3"), Some(Err("e".into())), None),
        InstallAction::RunUv(n) if n == "Системный Python не подошёл, пробую встроенную установку…"
    ));
    assert!(matches!(install_step(Some("python3"), Some(Err("e".into())), Some(Ok(()))), InstallAction::Installed));
    assert!(matches!(
        install_step(Some("python3"), Some(Err("e".into())), Some(Err("f".into()))),
        InstallAction::Failed(m) if m == "e\n\nРезервная установка тоже не удалась:\nf"
    ));
    assert!(matches!(
        install_step(None, None, None),
        InstallAction::RunUv(n) if n == "Подходящий Python не найден — ставлю изолированный runtime…"
    ));
    assert!(matches!(install_step(None, None, Some(Ok(()))), InstallAction::Installed));
    assert!(matches!(install_step(None, None, Some(Err("f".into()))), InstallAction::Failed(m) if m == "f"));
}

#[test]
fn system_python_only_creates_the_environment() {
    let plan = system_install_plan("/usr/bin/python3", "/rt/venv", "/rt/venv/bin/python", false, true);
    assert!(plan.remove_venv);
    assert_eq!(plan.steps.len(), 3);
    assert_eq!(plan.steps[0].notice, "Создаю изолированное окружение Python…");
    assert_eq!(plan.steps[0].command.program, "/usr/bin/python3");
    assert_eq!(plan.steps[0].command.args, strings(&["-m", "venv", "/rt/venv"]));
    for step in &plan.steps[1..] {
        assert_eq!(step.command.program, "/rt/venv/bin/python");
    }
    assert_eq!(plan.steps[1].notice, "Обновляю pip…");
    assert_eq!(plan.steps[2].notice, "Устанавливаю boosty-downloader…");

    let kept = system_install_plan("/usr/bin/python3", "/rt/venv", "/rt/venv/bin/python", true, true);
    assert!(!kept.remove_venv);
    assert_eq!(kept.steps.len(), 2);
    assert!(kept.steps.iter().all(|s| s.command.program == "/rt/venv/bin/python"));

    let missing = system_install_plan("py", "/v", "/v/bin/python", false, false);
    assert_eq!(missing.steps.len(), 3);
}

#[test]
fn uv_route_steps() {
    let steps = uv_install_plan("/rt/uv", "/rt/venv", "/rt/venv/bin/python");
    assert_eq!(steps.len(), 2);
    assert_eq!(steps[0].notice, "Готовлю изолированный Python 3.12…");
    assert_eq!(steps[0].command.args, strings(&["venv", "--python", "3.12", "--seed", "/rt/venv"]));
    assert_eq!(steps[1].notice, "Устанавливаю boosty-downloader…");
    assert_eq!(steps[1].command.program, "/rt/uv");
}

#[test]
fn unpacked_uv_lookup() {
    assert!(matches!(locate_extracted_binary(true, &vec![], false), ExtractedBinary::Direct));
    assert!(matches!(locate_extracted_binary(false, &vec![], false), ExtractedBinary::CheckNextEntry));
    assert!(matches!(locate_extracted_binary(false, &vec![false, true, true], false), ExtractedBinary::InEntry(1)));
    assert!(matches!(
        locate_extracted_binary(false, &vec![false, false], true),
        ExtractedBinary::Missing(m) if m == "В архиве установщика не найден исполняемый файл uv"
    ));
}

#[test]
fn start_refuses_before_writing() {
    let mut s = settings();
    s.cookie = " ".into();
    assert_eq!(
        prepare_start(&s, false).unwrap_err(),
        "Добавьте Authorization и Cookie из авторизованной сессии Boosty"
    );
    assert!(prepare_start(&settings(), true).is_err());
    assert_eq!(prepare_start(&settings(), false).unwrap(), config_yaml(&settings()).unwrap());
}
