//! Getting the downloader onto the machine and finding it again: the `uv`
//! release to fetch for a platform, the helper commands of both installation
//! routes, the search for a working downloader, and what the window is told
//! about the runtime.

use vstd::prelude::*;

use crate::json::{json_quoted, json_scalar};
use crate::settings::{push_text, texts, CommandSpec};
use crate::text::{text_eq, trim, trimmed};

verus! {

/// The release of `uv` that the built-in installer fetches.
pub const UV_VERSION: &'static str = "0.8.4";

/// The Python release that `uv` installs for the downloader.
pub const MANAGED_PYTHON: &'static str = "3.12";

/// The `uv` archive and the executable inside it for an operating system and
/// processor architecture, as Rust names them; `None` where `uv` is not
/// offered.
pub open spec fn uv_target(os: Seq<char>, arch: Seq<char>) -> Option<(Seq<char>, Seq<char>)> {
    if os == "macos"@ && arch == "aarch64"@ {
        Some(("uv-aarch64-apple-darwin.tar.gz"@, "uv"@))
    } else if os == "macos"@ && arch == "x86_64"@ {
        Some(("uv-x86_64-apple-darwin.tar.gz"@, "uv"@))
    } else if os == "linux"@ && arch == "aarch64"@ {
        Some(("uv-aarch64-unknown-linux-gnu.tar.gz"@, "uv"@))
    } else if os == "linux"@ && arch == "x86_64"@ {
        Some(("uv-x86_64-unknown-linux-gnu.tar.gz"@, "uv"@))
    } else if os == "windows"@ && arch == "x86_64"@ {
        Some(("uv-x86_64-pc-windows-msvc.zip"@, "uv.exe"@))
    } else if os == "windows"@ && arch == "aarch64"@ {
        Some(("uv-aarch64-pc-windows-msvc.zip"@, "uv.exe"@))
    } else {
        None
    }
}

/// The message for a platform without a `uv` release.
pub open spec fn unsupported_platform_message(os: Seq<char>, arch: Seq<char>) -> Seq<char> {
    "Автоустановка Python не поддерживается для "@ + os + "-"@ + arch
        + ". Установите Python 3.10+ вручную."@
}

fn pair(archive: &str, binary: &str) -> (res: (String, String))
    ensures
        res.0@ == archive@,
        res.1@ == binary@,
{
    (archive.to_owned(), binary.to_owned())
}

/// The `uv` archive to download and the executable to take from it on this
/// platform, or the message that says the platform is not supported.
pub fn uv_download_target(os: &str, arch: &str) -> (res: Result<(String, String), String>)
    ensures
        match uv_target(os@, arch@) {
            Some((archive, binary)) => res is Ok && res->Ok_0.0@ == archive && res->Ok_0.1@
                == binary,
            None => res is Err && res->Err_0@ == unsupported_platform_message(os@, arch@),
        },
{
    let mac = text_eq(os, "macos");
    let linux = text_eq(os, "linux");
    let windows = text_eq(os, "windows");
    let arm = text_eq(arch, "aarch64");
    let intel = text_eq(arch, "x86_64");
    if mac && arm {
        Ok(pair("uv-aarch64-apple-darwin.tar.gz", "uv"))
    } else if mac && intel {
        Ok(pair("uv-x86_64-apple-darwin.tar.gz", "uv"))
    } else if linux && arm {
        Ok(pair("uv-aarch64-unknown-linux-gnu.tar.gz", "uv"))
    } else if linux && intel {
        Ok(pair("uv-x86_64-unknown-linux-gnu.tar.gz", "uv"))
    } else if windows && intel {
        Ok(pair("uv-x86_64-pc-windows-msvc.zip", "uv.exe"))
    } else if windows && arm {
        Ok(pair("uv-aarch64-pc-windows-msvc.zip", "uv.exe"))
    } else {
        let mut message = "Автоустановка Python не поддерживается для ".to_owned();
        message.append(os);
        message.append("-");
        message.append(arch);
        message.append(". Установите Python 3.10+ вручную.");
        Err(message)
    }
}

/// Where the `uv` archive of the pinned release is published.
pub open spec fn uv_url(archive: Seq<char>) -> Seq<char> {
    "https://github.com/astral-sh/uv/releases/download/"@ + UV_VERSION@ + "/"@ + archive
}

/// The download address of a `uv` archive of the pinned release.
pub fn uv_download_url(archive: &str) -> (res: String)
    ensures
        res@ == uv_url(archive@),
{
    let mut url = "https://github.com/astral-sh/uv/releases/download/".to_owned();
    url.append(UV_VERSION);
    url.append("/");
    url.append(archive);
    url
}

/// A helper command of the installation: the program, its arguments, and
/// the line that heads the error when it fails.
pub struct ToolCommand {
    pub program: String,
    pub args: Vec<String>,
    pub failure_context: String,
}

fn tool(program: &str, args: Vec<String>, failure_context: &str) -> (res: ToolCommand)
    ensures
        res.program@ == program@,
        res.args == args,
        res.failure_context@ == failure_context@,
{
    ToolCommand {
        program: program.to_owned(),
        args,
        failure_context: failure_context.to_owned(),
    }
}

/// The PowerShell line that downloads `url` to `destination`, both quoted
/// as JSON string literals.
pub open spec fn web_request_line(url: Seq<char>, destination: Seq<char>) -> Seq<char> {
    "Invoke-WebRequest -UseBasicParsing -Uri "@ + json_quoted(url) + " -OutFile "@ + json_quoted(
        destination,
    )
}

/// The command that downloads `url` to `destination`: PowerShell's
/// `Invoke-WebRequest` on Windows, `curl -fsSL` elsewhere.
pub fn download_command(
    url: &str,
    destination: &str,
    windows: bool,
) -> (res: Result<ToolCommand, String>)
    ensures
        res is Ok,
        res->Ok_0.failure_context@ == "Не удалось скачать вспомогательный установщик"@,
        windows ==> res->Ok_0.program@ == "powershell"@ && texts(res->Ok_0.args@) == seq![
            "-NoProfile"@,
            "-Command"@,
            web_request_line(url@, destination@),
        ],
        !windows ==> res->Ok_0.program@ == "curl"@ && texts(res->Ok_0.args@) == seq![
            "-fsSL"@,
            url@,
            "-o"@,
            destination@,
        ],
{
    let context = "Не удалось скачать вспомогательный установщик";
    let mut args: Vec<String> = Vec::new();
    if windows {
        let quoted_url = json_scalar(url)?;
        let quoted_destination = json_scalar(destination)?;
        let mut line = "Invoke-WebRequest -UseBasicParsing -Uri ".to_owned();
        line.append(quoted_url.as_str());
        line.append(" -OutFile ");
        line.append(quoted_destination.as_str());
        push_text(&mut args, "-NoProfile");
        push_text(&mut args, "-Command");
        push_text(&mut args, line.as_str());
        assert(texts(args@) =~= seq![
            "-NoProfile"@,
            "-Command"@,
            web_request_line(url@, destination@),
        ]);
        Ok(tool("powershell", args, context))
    } else {
        push_text(&mut args, "-fsSL");
        push_text(&mut args, url);
        push_text(&mut args, "-o");
        push_text(&mut args, destination);
        assert(texts(args@) =~= seq!["-fsSL"@, url@, "-o"@, destination@]);
        Ok(tool("curl", args, context))
    }
}

/// The PowerShell line that unpacks `archive` into `directory`, both quoted
/// as JSON string literals.
pub open spec fn expand_archive_line(archive: Seq<char>, directory: Seq<char>) -> Seq<char> {
    "Expand-Archive -Force -Path "@ + json_quoted(archive) + " -DestinationPath "@ + json_quoted(
        directory,
    )
}

/// The command that unpacks the `uv` archive into `directory`: PowerShell's
/// `Expand-Archive` on Windows, `tar -xzf` elsewhere.
pub fn extract_command(
    archive: &str,
    directory: &str,
    windows: bool,
) -> (res: Result<ToolCommand, String>)
    ensures
        res is Ok,
        res->Ok_0.failure_context@ == "Не удалось распаковать вспомогательный установщик"@,
        windows ==> res->Ok_0.program@ == "powershell"@ && texts(res->Ok_0.args@) == seq![
            "-NoProfile"@,
            "-Command"@,
            expand_archive_line(archive@, directory@),
        ],
        !windows ==> res->Ok_0.program@ == "tar"@ && texts(res->Ok_0.args@) == seq![
            "-xzf"@,
            archive@,
            "-C"@,
            directory@,
        ],
{
    let context = "Не удалось распаковать вспомогательный установщик";
    let mut args: Vec<String> = Vec::new();
    if windows {
        let quoted_archive = json_scalar(archive)?;
        let quoted_directory = json_scalar(directory)?;
        let mut line = "Expand-Archive -Force -Path ".to_owned();
        line.append(quoted_archive.as_str());
        line.append(" -DestinationPath ");
        line.append(quoted_directory.as_str());
        push_text(&mut args, "-NoProfile");
        push_text(&mut args, "-Command");
        push_text(&mut args, line.as_str());
        assert(texts(args@) =~= seq![
            "-NoProfile"@,
            "-Command"@,
            expand_archive_line(archive@, directory@),
        ]);
        Ok(tool("powershell", args, context))
    } else {
        push_text(&mut args, "-xzf");
        push_text(&mut args, archive);
        push_text(&mut args, "-C");
        push_text(&mut args, directory);
        assert(texts(args@) =~= seq!["-xzf"@, archive@, "-C"@, directory@]);
        Ok(tool("tar", args, context))
    }
}

/// `uv venv`: creates the isolated environment with the pinned Python.
pub fn uv_venv_command(uv: &str, venv: &str) -> (res: ToolCommand)
    ensures
        res.program@ == uv@,
        texts(res.args@) == seq!["venv"@, "--python"@, MANAGED_PYTHON@, "--seed"@, venv@],
        res.failure_context@ == "Не удалось создать окружение Python"@,
{
    let mut args: Vec<String> = Vec::new();
    push_text(&mut args, "venv");
    push_text(&mut args, "--python");
    push_text(&mut args, MANAGED_PYTHON);
    push_text(&mut args, "--seed");
    push_text(&mut args, venv);
    assert(texts(args@) =~= seq!["venv"@, "--python"@, MANAGED_PYTHON@, "--seed"@, venv@]);
    tool(uv, args, "Не удалось создать окружение Python")
}

/// `uv pip install`: puts the downloader and `certifi` into the environment.
pub fn uv_install_command(uv: &str, python: &str) -> (res: ToolCommand)
    ensures
        res.program@ == uv@,
        texts(res.args@) == seq![
            "pip"@,
            "install"@,
            "--python"@,
            python@,
            "--upgrade"@,
            "boosty-downloader"@,
            "certifi"@,
        ],
        res.failure_context@ == "Не удалось установить boosty-downloader"@,
{
    let mut args: Vec<String> = Vec::new();
    push_text(&mut args, "pip");
    push_text(&mut args, "install");
    push_text(&mut args, "--python");
    push_text(&mut args, python);
    push_text(&mut args, "--upgrade");
    push_text(&mut args, "boosty-downloader");
    push_text(&mut args, "certifi");
    assert(texts(args@) =~= seq![
        "pip"@,
        "install"@,
        "--python"@,
        python@,
        "--upgrade"@,
        "boosty-downloader"@,
        "certifi"@,
    ]);
    tool(uv, args, "Не удалось установить boosty-downloader")
}

/// `python -m venv`: creates the isolated environment with a system Python.
pub fn venv_command(python: &str, venv: &str) -> (res: ToolCommand)
    ensures
        res.program@ == python@,
        texts(res.args@) == seq!["-m"@, "venv"@, venv@],
        res.failure_context@ == "Не удалось создать окружение Python"@,
{
    let mut args: Vec<String> = Vec::new();
    push_text(&mut args, "-m");
    push_text(&mut args, "venv");
    push_text(&mut args, venv);
    assert(texts(args@) =~= seq!["-m"@, "venv"@, venv@]);
    tool(python, args, "Не удалось создать окружение Python")
}

/// `pip install --upgrade pip setuptools wheel` inside the environment.
pub fn pip_upgrade_command(python: &str) -> (res: ToolCommand)
    ensures
        res.program@ == python@,
        texts(res.args@) == seq![
            "-m"@,
            "pip"@,
            "install"@,
            "--upgrade"@,
            "pip"@,
            "setuptools"@,
            "wheel"@,
        ],
        res.failure_context@ == "Не удалось обновить pip"@,
{
    let mut args: Vec<String> = Vec::new();
    push_text(&mut args, "-m");
    push_text(&mut args, "pip");
    push_text(&mut args, "install");
    push_text(&mut args, "--upgrade");
    push_text(&mut args, "pip");
    push_text(&mut args, "setuptools");
    push_text(&mut args, "wheel");
    assert(texts(args@) =~= seq![
        "-m"@,
        "pip"@,
        "install"@,
        "--upgrade"@,
        "pip"@,
        "setuptools"@,
        "wheel"@,
    ]);
    tool(python, args, "Не удалось обновить pip")
}

/// `pip install --upgrade boosty-downloader certifi` inside the environment.
pub fn pip_install_command(python: &str) -> (res: ToolCommand)
    ensures
        res.program@ == python@,
        texts(res.args@) == seq![
            "-m"@,
            "pip"@,
            "install"@,
            "--upgrade"@,
            "boosty-downloader"@,
            "certifi"@,
        ],
        res.failure_context@ == "Не удалось установить boosty-downloader"@,
{
    let mut args: Vec<String> = Vec::new();
    push_text(&mut args, "-m");
    push_text(&mut args, "pip");
    push_text(&mut args, "install");
    push_text(&mut args, "--upgrade");
    push_text(&mut args, "boosty-downloader");
    push_text(&mut args, "certifi");
    assert(texts(args@) =~= seq![
        "-m"@,
        "pip"@,
        "install"@,
        "--upgrade"@,
        "boosty-downloader"@,
        "certifi"@,
    ]);
    tool(python, args, "Не удалось установить boosty-downloader")
}

/// The error of an installation whose fallback route failed too.
pub fn install_failure_message(error: &str, fallback: &str) -> (res: String)
    ensures
        res@ == error@ + "\n\nРезервная установка тоже не удалась:\n"@ + fallback@,
{
    let mut message = error.to_owned();
    message.append("\n\nРезервная установка тоже не удалась:\n");
    message.append(fallback);
    message
}

/// What to do next while installing the downloader.
pub enum InstallAction {
    /// Install with this system Python.
    RunSystem(String),
    /// Install with the built-in `uv`, after showing this notice.
    RunUv(String),
    /// An installation route succeeded.
    Installed,
    /// Installation failed with this message.
    Failed(String),
}

/// The notice shown when the system Python route failed and `uv` takes over.
pub open spec fn system_failed_notice() -> Seq<char> {
    "Системный Python не подошёл, пробую встроенную установку…"@
}

/// The notice shown when no compatible system Python exists.
pub open spec fn no_python_notice() -> Seq<char> {
    "Подходящий Python не найден — ставлю изолированный runtime…"@
}

/// The route choice of an installation. A compatible system Python is tried
/// first; the built-in `uv` runs only when there is none or when that
/// attempt failed; a `uv` result is final. `system_attempt` and `uv_attempt`
/// are the outcomes of the routes tried so far.
pub fn install_step(
    system_python: Option<&str>,
    system_attempt: Option<Result<(), String>>,
    uv_attempt: Option<Result<(), String>>,
) -> (res: InstallAction)
    ensures
        match system_python {
            Some(python) => match system_attempt {
                None => res is RunSystem && res->RunSystem_0@ == python@,
                Some(Ok(())) => res is Installed,
                Some(Err(error)) => match uv_attempt {
                    None => res is RunUv && res->RunUv_0@ == system_failed_notice(),
                    Some(Ok(())) => res is Installed,
                    Some(Err(fallback)) => res is Failed && res->Failed_0@ == error@
                        + "\n\nРезервная установка тоже не удалась:\n"@ + fallback@,
                },
            },
            None => match uv_attempt {
                None => res is RunUv && res->RunUv_0@ == no_python_notice(),
                Some(Ok(())) => res is Installed,
                Some(Err(fallback)) => res is Failed && res->Failed_0@ == fallback@,
            },
        },
        res is RunUv ==> system_python is None || system_attempt matches Some(Err(_)),
        res is RunSystem ==> uv_attempt is None || system_attempt is None,
{
    match system_python {
        Some(python) => match system_attempt {
            None => InstallAction::RunSystem(python.to_owned()),
            Some(Ok(())) => InstallAction::Installed,
            Some(Err(error)) => match uv_attempt {
                None => InstallAction::RunUv(
                    "Системный Python не подошёл, пробую встроенную установку…".to_owned(),
                ),
                Some(Ok(())) => InstallAction::Installed,
                Some(Err(fallback)) => InstallAction::Failed(
                    install_failure_message(error.as_str(), fallback.as_str()),
                ),
            },
        },
        None => match uv_attempt {
            None => InstallAction::RunUv(
                "Подходящий Python не найден — ставлю изолированный runtime…".to_owned(),
            ),
            Some(Ok(())) => InstallAction::Installed,
            Some(Err(fallback)) => InstallAction::Failed(fallback),
        },
    }
}

/// A helper command as texts: program, arguments and failure context.
pub open spec fn tool_texts(tool: ToolCommand) -> (Seq<char>, Seq<Seq<char>>, Seq<char>) {
    (tool.program@, texts(tool.args@), tool.failure_context@)
}

/// `python -m venv <venv>`.
pub open spec fn venv_step(python: Seq<char>, venv: Seq<char>) -> (
    Seq<char>,
    Seq<Seq<char>>,
    Seq<char>,
) {
    (python, seq!["-m"@, "venv"@, venv], "Не удалось создать окружение Python"@)
}

/// `python -m pip install --upgrade pip setuptools wheel`.
pub open spec fn pip_upgrade_step(python: Seq<char>) -> (Seq<char>, Seq<Seq<char>>, Seq<char>) {
    (
        python,
        seq!["-m"@, "pip"@, "install"@, "--upgrade"@, "pip"@, "setuptools"@, "wheel"@],
        "Не удалось обновить pip"@,
    )
}

/// `python -m pip install --upgrade boosty-downloader certifi`.
pub open spec fn pip_install_step(python: Seq<char>) -> (Seq<char>, Seq<Seq<char>>, Seq<char>) {
    (
        python,
        seq!["-m"@, "pip"@, "install"@, "--upgrade"@, "boosty-downloader"@, "certifi"@],
        "Не удалось установить boosty-downloader"@,
    )
}

/// One command of an installation route and the notice shown before it.
pub struct InstallStep {
    pub notice: String,
    pub command: ToolCommand,
}

/// The notice and the command texts of an installation step.
pub open spec fn step_texts(step: InstallStep) -> (Seq<char>, (Seq<char>, Seq<Seq<char>>, Seq<char>)) {
    (step.notice@, tool_texts(step.command))
}

fn install_step_with(notice: &str, command: ToolCommand) -> (res: InstallStep)
    ensures
        res.notice@ == notice@,
        res.command == command,
{
    InstallStep { notice: notice.to_owned(), command }
}

/// How to install with a system Python.
pub struct SystemInstallPlan {
    /// Delete the existing environment first: its interpreter is unusable.
    pub remove_venv: bool,
    /// The steps to run, in order.
    pub steps: Vec<InstallStep>,
}

/// The installation with a system Python. An environment whose interpreter
/// is not compatible is removed; a missing or removed environment is created
/// with the system interpreter (`-m venv`), which runs nothing else; pip is
/// upgraded and the downloader installed only through the environment's own
/// interpreter, so the system Python is left alone.
pub fn system_install_plan(
    system_python: &str,
    venv: &str,
    venv_python: &str,
    venv_compatible: bool,
    venv_exists: bool,
) -> (res: SystemInstallPlan)
    ensures
        res.remove_venv == !venv_compatible,
        (!venv_compatible || !venv_exists) ==> {
            &&& res.steps@.len() == 3
            &&& step_texts(res.steps@[0]) == (
                "Создаю изолированное окружение Python…"@,
                venv_step(system_python@, venv@),
            )
            &&& step_texts(res.steps@[1]) == ("Обновляю pip…"@, pip_upgrade_step(venv_python@))
            &&& step_texts(res.steps@[2]) == (
                "Устанавливаю boosty-downloader…"@,
                pip_install_step(venv_python@),
            )
        },
        (venv_compatible && venv_exists) ==> {
            &&& res.steps@.len() == 2
            &&& step_texts(res.steps@[0]) == ("Обновляю pip…"@, pip_upgrade_step(venv_python@))
            &&& step_texts(res.steps@[1]) == (
                "Устанавливаю boosty-downloader…"@,
                pip_install_step(venv_python@),
            )
        },
        forall|i: int|
            0 <= i < res.steps@.len() ==> tool_texts((#[trigger] res.steps@[i]).command)
                == venv_step(system_python@, venv@) || tool_texts(res.steps@[i].command).0
                == venv_python@,
{
    let mut steps: Vec<InstallStep> = Vec::new();
    if !venv_compatible || !venv_exists {
        steps.push(
            install_step_with(
                "Создаю изолированное окружение Python…",
                venv_command(system_python, venv),
            ),
        );
    }
    steps.push(install_step_with("Обновляю pip…", pip_upgrade_command(venv_python)));
    steps.push(
        install_step_with("Устанавливаю boosty-downloader…", pip_install_command(venv_python)),
    );
    SystemInstallPlan { remove_venv: !venv_compatible, steps }
}

/// `uv venv --python <pinned> --seed <venv>`.
pub open spec fn uv_venv_step(uv: Seq<char>, venv: Seq<char>) -> (
    Seq<char>,
    Seq<Seq<char>>,
    Seq<char>,
) {
    (
        uv,
        seq!["venv"@, "--python"@, MANAGED_PYTHON@, "--seed"@, venv],
        "Не удалось создать окружение Python"@,
    )
}

/// `uv pip install --python <python> --upgrade boosty-downloader certifi`.
pub open spec fn uv_install_step(uv: Seq<char>, python: Seq<char>) -> (
    Seq<char>,
    Seq<Seq<char>>,
    Seq<char>,
) {
    (
        uv,
        seq![
            "pip"@,
            "install"@,
            "--python"@,
            python,
            "--upgrade"@,
            "boosty-downloader"@,
            "certifi"@,
        ],
        "Не удалось установить boosty-downloader"@,
    )
}

/// The installation with the built-in `uv`, into a fresh environment: create
/// it with the pinned Python, then install into the environment's
/// interpreter. Nothing runs through a system Python.
pub fn uv_install_plan(uv: &str, venv: &str, venv_python: &str) -> (res: Vec<InstallStep>)
    ensures
        res@.len() == 2,
        step_texts(res@[0]) == ("Готовлю изолированный Python 3.12…"@, uv_venv_step(uv@, venv@)),
        step_texts(res@[1]) == (
            "Устанавливаю boosty-downloader…"@,
            uv_install_step(uv@, venv_python@),
        ),
{
    let mut steps: Vec<InstallStep> = Vec::new();
    steps.push(
        install_step_with("Готовлю изолированный Python 3.12…", uv_venv_command(uv, venv)),
    );
    steps.push(
        install_step_with("Устанавливаю boosty-downloader…", uv_install_command(uv, venv_python)),
    );
    steps
}

/// What to do while looking for the `uv` executable in an unpacked archive.
pub enum ExtractedBinary {
    /// It sits directly in the extraction directory.
    Direct,
    /// It sits in the directory of this entry of the extraction directory.
    InEntry(usize),
    /// Look into the next entry and report whether it holds the executable.
    CheckNextEntry,
    /// It is nowhere: fail with this message.
    Missing(String),
}

/// The message when the archive holds no `uv` executable.
pub open spec fn missing_uv_message() -> Seq<char> {
    "В архиве установщика не найден исполняемый файл uv"@
}

/// One step of the search for the unpacked `uv` executable: the extraction
/// directory itself first, then its entries in the order they are listed.
/// `entries_checked` says, for the entries looked into so far, whether each
/// holds the executable; `no_more_entries` that the listing has ended.
pub fn locate_extracted_binary(
    direct_is_file: bool,
    entries_checked: &Vec<bool>,
    no_more_entries: bool,
) -> (res: ExtractedBinary)
    ensures
        direct_is_file ==> res is Direct,
        !direct_is_file ==> match res {
            ExtractedBinary::Direct => false,
            ExtractedBinary::InEntry(i) => i < entries_checked@.len() && entries_checked@[i as int]
                && forall|j: int| 0 <= j < i ==> !#[trigger] entries_checked@[j],
            ExtractedBinary::CheckNextEntry => !no_more_entries && forall|j: int|
                0 <= j < entries_checked@.len() ==> !#[trigger] entries_checked@[j],
            ExtractedBinary::Missing(message) => no_more_entries && message@ == missing_uv_message()
                && forall|j: int| 0 <= j < entries_checked@.len() ==> !#[trigger] entries_checked@[j],
        },
{
    if direct_is_file {
        return ExtractedBinary::Direct;
    }
    let mut i: usize = 0;
    while i < entries_checked.len()
        invariant
            !direct_is_file,
            i <= entries_checked@.len(),
            forall|j: int| 0 <= j < i ==> !#[trigger] entries_checked@[j],
        decreases entries_checked@.len() - i,
    {
        if entries_checked[i] {
            return ExtractedBinary::InEntry(i);
        }
        i = i + 1;
    }
    if no_more_entries {
        ExtractedBinary::Missing("В архиве установщика не найден исполняемый файл uv".to_owned())
    } else {
        ExtractedBinary::CheckNextEntry
    }
}

/// The verdict after an installation: ready when the downloader answers and
/// the certificate bundle is in place.
pub fn install_outcome(
    downloader_found: bool,
    ca_bundle_found: bool,
) -> (res: Result<String, String>)
    ensures
        downloader_found && ca_bundle_found ==> res is Ok && res->Ok_0@
            == "Boosty Downloader готов к работе"@,
        !(downloader_found && ca_bundle_found) ==> res is Err && res->Err_0@
            == "Установка завершилась, но Boosty Downloader не найден. Нажмите «Установить» ещё раз."@,
{
    if !downloader_found || !ca_bundle_found {
        return Err(
            "Установка завершилась, но Boosty Downloader не найден. Нажмите «Установить» ещё раз.".to_owned(),
        );
    }
    Ok("Boosty Downloader готов к работе".to_owned())
}

/// Whether a downloader runs from the app's own environment, and so needs
/// the launcher script and the certificate bundle.
pub fn uses_managed_runtime(program: &str, managed_program: &str) -> (res: bool)
    ensures
        res == (program@ == managed_program@),
{
    text_eq(program, managed_program)
}

/// The command that starts a download: a downloader found elsewhere runs as
/// it is; the app's own one runs through the launcher script with the
/// environment's Python.
pub fn prepare_download_command(
    spec: CommandSpec,
    managed_binary: &str,
    managed_python: &str,
    launcher_path: &str,
) -> (res: CommandSpec)
    ensures
        spec.program@ != managed_binary@ ==> res == spec,
        spec.program@ == managed_binary@ ==> res.program@ == managed_python@ && texts(
            res.prefix_args@,
        ) == seq![launcher_path@],
{
    if !uses_managed_runtime(spec.program.as_str(), managed_binary) {
        return spec;
    }
    let mut prefix: Vec<String> = Vec::new();
    push_text(&mut prefix, launcher_path);
    assert(texts(prefix@) =~= seq![launcher_path@]);
    CommandSpec { program: managed_python.to_owned(), prefix_args: prefix }
}

/// Where `certifi` keeps its bundle, read from the answer of the
/// environment's Python: its trimmed output, when the probe succeeded.
pub fn certifi_location(succeeded: bool, stdout: &str) -> (res: Option<String>)
    ensures
        succeeded ==> res is Some && res->0@ == trimmed(stdout@),
        !succeeded ==> res is None,
{
    if succeeded {
        Some(trim(stdout))
    } else {
        None
    }
}

/// The certificate bundle a download needs: none for a downloader found
/// elsewhere; for the app's own one the bundle found, or an error asking
/// for a repair.
pub fn ca_bundle_for_download(
    required: bool,
    found: Option<String>,
) -> (res: Result<Option<String>, String>)
    ensures
        !required ==> res == Ok::<Option<String>, String>(None),
        required && found is Some ==> res == Ok::<Option<String>, String>(found),
        required && found is None ==> res is Err && res->Err_0@
            == "Не найден набор доверенных сертификатов. Нажмите «Установить» для восстановления компонентов."@,
{
    if !required {
        return Ok(None);
    }
    match found {
        Some(path) => Ok(Some(path)),
        None => Err(
            "Не найден набор доверенных сертификатов. Нажмите «Установить» для восстановления компонентов.".to_owned(),
        ),
    }
}

/// The programs the app runs from its isolated environment.
pub enum VenvProgram {
    /// The `boosty-downloader` entry point.
    Downloader,
    /// The environment's Python interpreter.
    Python,
}

/// Where a program sits inside an environment: the directory below the
/// environment and the file name, on Windows or elsewhere.
pub open spec fn venv_program_location(
    windows: bool,
    program: VenvProgram,
) -> (Seq<char>, Seq<char>) {
    match program {
        VenvProgram::Downloader => if windows {
            ("Scripts"@, "boosty-downloader.exe"@)
        } else {
            ("bin"@, "boosty-downloader"@)
        },
        VenvProgram::Python => if windows {
            ("Scripts"@, "python.exe"@)
        } else {
            ("bin"@, "python"@)
        },
    }
}

/// The directory (below the environment) and file name of a program of the
/// isolated environment.
pub fn venv_program_path(windows: bool, program: VenvProgram) -> (res: (String, String))
    ensures
        (res.0@, res.1@) == venv_program_location(windows, program),
{
    match program {
        VenvProgram::Downloader => if windows {
            pair("Scripts", "boosty-downloader.exe")
        } else {
            pair("bin", "boosty-downloader")
        },
        VenvProgram::Python => if windows {
            pair("Scripts", "python.exe")
        } else {
            pair("bin", "python")
        },
    }
}

/// All programs of an environment sit in one directory, `Scripts` on
/// Windows and `bin` elsewhere, and carry the `.exe` suffix exactly on
/// Windows.
pub proof fn venv_programs_share_a_directory(windows: bool)
    ensures
        venv_program_location(windows, VenvProgram::Downloader).0 == venv_program_location(
            windows,
            VenvProgram::Python,
        ).0,
        venv_program_location(windows, VenvProgram::Python).0 == (if windows {
            "Scripts"@
        } else {
            "bin"@
        }),
        venv_program_location(windows, VenvProgram::Downloader).1 == "boosty-downloader"@ + (
        if windows {
            ".exe"@
        } else {
            Seq::<char>::empty()
        }),
        venv_program_location(windows, VenvProgram::Python).1 == "python"@ + (if windows {
            ".exe"@
        } else {
            Seq::<char>::empty()
        }),
{
    reveal_strlit("boosty-downloader");
    reveal_strlit("boosty-downloader.exe");
    reveal_strlit("python");
    reveal_strlit("python.exe");
    reveal_strlit(".exe");
    assert("boosty-downloader"@ + ".exe"@ =~= "boosty-downloader.exe"@);
    assert("python"@ + ".exe"@ =~= "python.exe"@);
    assert("boosty-downloader"@ + Seq::<char>::empty() =~= "boosty-downloader"@);
    assert("python"@ + Seq::<char>::empty() =~= "python"@);
}

/// Whether `s` ends with `suffix`.
pub open spec fn has_suffix(s: Seq<char>, suffix: Seq<char>) -> bool {
    suffix.len() <= s.len() && s.subrange(s.len() - suffix.len(), s.len() as int) == suffix
}

/// For every supported platform the archive is built for its processor
/// (its name starts with `uv-<arch>-`), is a zip with `uv.exe` inside on
/// Windows and a gzipped tar with `uv` inside elsewhere; exactly the macOS,
/// Linux and Windows builds for aarch64 and x86_64 are offered.
pub proof fn uv_release_matches_platform(os: Seq<char>, arch: Seq<char>)
    ensures
        uv_target(os, arch) is Some <==> (os == "macos"@ || os == "linux"@ || os == "windows"@) && (
        arch == "aarch64"@ || arch == "x86_64"@),
        uv_target(os, arch) matches Some((archive, binary)) ==> {
            &&& (binary == "uv.exe"@) == (os == "windows"@)
            &&& (binary == "uv"@) == (os != "windows"@)
            &&& has_suffix(archive, ".zip"@) == (os == "windows"@)
            &&& has_suffix(archive, ".tar.gz"@) == (os != "windows"@)
            &&& archive.subrange(0, 4 + arch.len() as int) == "uv-"@ + arch + "-"@
        },
{
    reveal_strlit("macos");
    reveal_strlit("linux");
    reveal_strlit("windows");
    reveal_strlit("aarch64");
    reveal_strlit("x86_64");
    reveal_strlit("uv");
    reveal_strlit("uv.exe");
    reveal_strlit(".zip");
    reveal_strlit(".tar.gz");
    reveal_strlit("uv-");
    reveal_strlit("-");
    reveal_strlit("uv-aarch64-apple-darwin.tar.gz");
    reveal_strlit("uv-x86_64-apple-darwin.tar.gz");
    reveal_strlit("uv-aarch64-unknown-linux-gnu.tar.gz");
    reveal_strlit("uv-x86_64-unknown-linux-gnu.tar.gz");
    reveal_strlit("uv-x86_64-pc-windows-msvc.zip");
    reveal_strlit("uv-aarch64-pc-windows-msvc.zip");
    assert("uv"@.len() != "uv.exe"@.len());
    assert("macos"@.len() != "windows"@.len());
    assert("linux"@.len() != "windows"@.len());
    assert("aarch64"@.len() != "x86_64"@.len());
    assert("macos"@[0] != "linux"@[0]);
    if let Some((archive, binary)) = uv_target(os, arch) {
        let a = archive;
        assert(a.subrange(a.len() - 4, a.len() as int) =~= ".zip"@ || a.subrange(
            a.len() - 7,
            a.len() as int,
        ) =~= ".tar.gz"@);
        if os == "windows"@ {
            assert(a.subrange(a.len() - 4, a.len() as int) =~= ".zip"@);
            assert(a.subrange(a.len() - 7, a.len() as int) != ".tar.gz"@) by {
                assert(a.subrange(a.len() - 7, a.len() as int)[0] != ".tar.gz"@[0]);
            }
        } else {
            assert(a.subrange(a.len() - 7, a.len() as int) =~= ".tar.gz"@);
            assert(a.subrange(a.len() - 4, a.len() as int) != ".zip"@) by {
                assert(a.subrange(a.len() - 4, a.len() as int)[1] != ".zip"@[1]);
            }
        }
        assert(a.subrange(0, 4 + arch.len() as int) =~= "uv-"@ + arch + "-"@);
    }
}

/// The file name of the `uv` executable kept in the runtime directory.
pub fn uv_binary_name(windows: bool) -> (res: String)
    ensures
        res@ == if windows {
            "uv.exe"@
        } else {
            "uv"@
        },
{
    if windows {
        "uv.exe".to_owned()
    } else {
        "uv".to_owned()
    }
}

/// What the window is told about the runtime.
pub struct RuntimeStatus {
    pub installed: bool,
    pub version: Option<String>,
    pub running: bool,
}

/// Whether the runtime has what a download needs: nothing was found, or it
/// is not the app's own downloader, or its certificate bundle is in place.
pub open spec fn has_required_ca(
    found: Option<(Seq<char>, Seq<char>)>,
    managed_program: Option<Seq<char>>,
    ca_bundle_found: bool,
) -> bool {
    match found {
        None => true,
        Some((program, _)) => match managed_program {
            None => true,
            Some(managed) => program != managed || ca_bundle_found,
        },
    }
}

/// The runtime as the window sees it. `found` is the program and version of
/// the downloader that answered, if any; `ca_bundle_found` is consulted only
/// when that program is the app's own one (`managed_program`), and says
/// whether its certificate bundle is in place.
pub fn runtime_status(
    found: Option<(String, String)>,
    managed_program: Option<&str>,
    ca_bundle_found: bool,
    running: bool,
) -> (res: RuntimeStatus)
    ensures
        res.installed == (found is Some && has_required_ca(
            match found {
                Some((p, v)) => Some((p@, v@)),
                None => None,
            },
            match managed_program {
                Some(m) => Some(m@),
                None => None,
            },
            ca_bundle_found,
        )),
        res.version == match found {
            Some((_, v)) => Some(v),
            None => None::<String>,
        },
        res.running == running,
{
    match found {
        None => RuntimeStatus { installed: false, version: None, running },
        Some((program, version)) => {
            let ca_ok = match managed_program {
                None => true,
                Some(managed) => !uses_managed_runtime(program.as_str(), managed)
                    || ca_bundle_found,
            };
            RuntimeStatus { installed: ca_ok, version: Some(version), running }
        },
    }
}

/// The downloaders tried, in order: the app's own one, then one on the
/// search path.
pub open spec fn downloader_candidates(managed_binary: Seq<char>) -> Seq<Seq<char>> {
    seq![managed_binary, "boosty-downloader"@]
}

/// None of the first `n` probed downloaders answered.
pub open spec fn none_working(probed: Seq<Option<String>>, n: int) -> bool {
    forall|j: int| 0 <= j < n ==> #[trigger] probed[j] is None
}

/// The next step of the search for a working downloader.
pub enum DownloaderSearch {
    /// Ask this program for its version next and report the answer.
    Probe(CommandSpec),
    /// This program works and reports this version.
    Found(CommandSpec, String),
    /// No candidate works.
    Exhausted,
}

fn downloader_candidate(managed_binary: &str, index: usize) -> (res: CommandSpec)
    requires
        index < 2,
    ensures
        res.program@ == downloader_candidates(managed_binary@)[index as int],
        res.prefix_args@.len() == 0,
{
    let program = if index == 0 {
        managed_binary.to_owned()
    } else {
        "boosty-downloader".to_owned()
    };
    CommandSpec { program, prefix_args: Vec::new() }
}

/// One step of the search for a working downloader: given the versions
/// reported so far by the first candidates (`None` where one did not work),
/// names the first that works, asks for the next probe, or gives up.
pub fn find_downloader(
    managed_binary: &str,
    probed: &Vec<Option<String>>,
) -> (res: DownloaderSearch)
    ensures
        match res {
            DownloaderSearch::Found(spec, version) => exists|i: int|
                {
                    &&& 0 <= i < probed@.len()
                    &&& i < 2
                    &&& #[trigger] probed@[i] == Some(version)
                    &&& none_working(probed@, i)
                    &&& spec.program@ == downloader_candidates(managed_binary@)[i]
                    &&& spec.prefix_args@.len() == 0
                },
            DownloaderSearch::Probe(spec) => {
                &&& probed@.len() < 2
                &&& none_working(probed@, probed@.len() as int)
                &&& spec.program@ == downloader_candidates(managed_binary@)[probed@.len() as int]
                &&& spec.prefix_args@.len() == 0
            },
            DownloaderSearch::Exhausted => probed@.len() >= 2 && none_working(probed@, 2),
        },
{
    let mut i: usize = 0;
    while i < probed.len() && i < 2
        invariant
            i <= probed@.len(),
            i <= 2,
            none_working(probed@, i as int),
        decreases 2 - i,
    {
        match &probed[i] {
            Some(version) => {
                let spec = downloader_candidate(managed_binary, i);
                return DownloaderSearch::Found(spec, version.clone());
            },
            None => {},
        }
        i = i + 1;
    }
    if i < 2 {
        DownloaderSearch::Probe(downloader_candidate(managed_binary, i))
    } else {
        DownloaderSearch::Exhausted
    }
}

} // verus!
