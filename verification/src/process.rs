//! Running the downloader and its helper tools: how a finished helper
//! command is judged, the environment a download runs in, and the state of
//! the one download that may run at a time, from start to the event that
//! reports its end.

use vstd::prelude::*;

use crate::settings::{lemma_texts_push, texts, CommandSpec};
use crate::text::{signed_decimal, signed_decimal_string, trim, trimmed};

verus! {

/// The result of a helper command that has exited: on success its trimmed
/// standard output, or its trimmed standard error when the output is empty;
/// on failure the context line, a line break and the trimmed standard error,
/// or the trimmed output when the error stream is empty.
pub open spec fn command_result(
    succeeded: bool,
    stdout: Seq<char>,
    stderr: Seq<char>,
    context: Seq<char>,
) -> Result<Seq<char>, Seq<char>> {
    let out = trimmed(stdout);
    let err = trimmed(stderr);
    if succeeded {
        Ok(
            if out.len() == 0 {
                err
            } else {
                out
            },
        )
    } else {
        Err(
            context + "\n"@ + if err.len() == 0 {
                out
            } else {
                err
            },
        )
    }
}

/// Judges a helper command from its exit status and its two output streams
/// (already decoded as UTF-8 with replacement characters).
pub fn command_succeeded(
    succeeded: bool,
    stdout: &str,
    stderr: &str,
    context: &str,
) -> (res: Result<String, String>)
    ensures
        match command_result(succeeded, stdout@, stderr@, context@) {
            Ok(text) => res is Ok && res->Ok_0@ == text,
            Err(text) => res is Err && res->Err_0@ == text,
        },
{
    let out = trim(stdout);
    let err = trim(stderr);
    if succeeded {
        Ok(
            if out.as_str().unicode_len() == 0 {
                err
            } else {
                out
            },
        )
    } else {
        let mut message = context.to_owned();
        message.append("\n");
        if err.as_str().unicode_len() == 0 {
            message.append(out.as_str());
        } else {
            message.append(err.as_str());
        }
        Err(message)
    }
}

/// The version a working downloader reports: its trimmed output, or
/// «установлен» ("installed") when it prints nothing.
pub open spec fn reported_version(succeeded: bool, stdout: Seq<char>) -> Option<Seq<char>> {
    if !succeeded {
        None
    } else if trimmed(stdout).len() == 0 {
        Some("установлен"@)
    } else {
        Some(trimmed(stdout))
    }
}

/// Reads the answer of a downloader to `--version`: `None` when it failed.
pub fn command_works(succeeded: bool, stdout: &str) -> (res: Option<String>)
    ensures
        match reported_version(succeeded, stdout@) {
            Some(text) => res is Some && res->0@ == text,
            None => res is None,
        },
{
    if !succeeded {
        return None;
    }
    let version = trim(stdout);
    if version.as_str().unicode_len() == 0 {
        Some("установлен".to_owned())
    } else {
        Some(version)
    }
}

/// A process to start: program, arguments, working directory and the
/// environment variables set on top of the inherited ones.
pub struct ProcessCommand {
    pub program: String,
    pub args: Vec<String>,
    pub working_directory: String,
    pub envs: Vec<(String, String)>,
}

/// The names and values of a list of environment variables.
pub open spec fn env_texts(envs: Seq<(String, String)>) -> Seq<(Seq<char>, Seq<char>)> {
    envs.map_values(|e: (String, String)| (e.0@, e.1@))
}

/// The variables a download runs with: colours off, a dumb terminal, and
/// the certificate bundle when one is given.
pub open spec fn download_env(ca_bundle: Option<Seq<char>>) -> Seq<(Seq<char>, Seq<char>)> {
    seq![("NO_COLOR"@, "1"@), ("TERM"@, "dumb"@)] + match ca_bundle {
        Some(path) => seq![("SSL_CERT_FILE"@, path)],
        None => Seq::empty(),
    }
}

fn push_env(envs: &mut Vec<(String, String)>, name: &str, value: &str)
    ensures
        env_texts(final(envs)@) == env_texts(old(envs)@).push((name@, value@)),
{
    envs.push((name.to_owned(), value.to_owned()));
    assert(env_texts(envs@) =~= env_texts(old(envs)@).push((name@, value@)));
}

/// The process of a download run: the command's program with the given
/// arguments, in the working directory, with colours off, a dumb terminal
/// and, when given, `SSL_CERT_FILE` pointing at the certificate bundle. The
/// search path is added by the caller, which reads it from the environment.
pub fn build_process_command(
    spec: &CommandSpec,
    args: &Vec<String>,
    working_directory: &str,
    ca_bundle: Option<&str>,
) -> (res: ProcessCommand)
    ensures
        res.program@ == spec.program@,
        texts(res.args@) == texts(args@),
        res.working_directory@ == working_directory@,
        env_texts(res.envs@) == download_env(
            match ca_bundle {
                Some(p) => Some(p@),
                None => None,
            },
        ),
{
    let mut copied: Vec<String> = Vec::new();
    let mut i: usize = 0;
    while i < args.len()
        invariant
            i <= args@.len(),
            texts(copied@) == texts(args@.take(i as int)),
        decreases args@.len() - i,
    {
        let item = args[i].clone();
        let ghost before = copied@;
        copied.push(item);
        proof {
            assert(args@.take(i + 1) =~= args@.take(i as int).push(args@[i as int]));
            lemma_texts_push(before, item);
            lemma_texts_push(args@.take(i as int), args@[i as int]);
        }
        i = i + 1;
    }
    assert(args@.take(i as int) =~= args@);
    let mut envs: Vec<(String, String)> = Vec::new();
    push_env(&mut envs, "NO_COLOR", "1");
    push_env(&mut envs, "TERM", "dumb");
    match ca_bundle {
        Some(path) => {
            push_env(&mut envs, "SSL_CERT_FILE", path);
        },
        None => {},
    }
    assert(env_texts(envs@) =~= download_env(
        match ca_bundle {
            Some(p) => Some(p@),
            None => None,
        },
    ));
    ProcessCommand {
        program: spec.program.clone(),
        args: copied,
        working_directory: working_directory.to_owned(),
        envs,
    }
}

/// The directories searched first for media tools: on macOS those of
/// Homebrew, `/usr/local` and MacPorts, nowhere else.
pub open spec fn preferred_tool_dirs(macos: bool) -> Seq<Seq<char>> {
    if macos {
        seq!["/opt/homebrew/bin"@, "/usr/local/bin"@, "/opt/local/bin"@]
    } else {
        Seq::empty()
    }
}

/// The directories put in front of the inherited search path.
pub fn tool_dirs(macos: bool) -> (res: Vec<String>)
    ensures
        texts(res@) == preferred_tool_dirs(macos),
{
    let mut dirs: Vec<String> = Vec::new();
    if macos {
        dirs.push("/opt/homebrew/bin".to_owned());
        dirs.push("/usr/local/bin".to_owned());
        dirs.push("/opt/local/bin".to_owned());
        assert(texts(dirs@) =~= preferred_tool_dirs(macos));
    } else {
        assert(texts(dirs@) =~= preferred_tool_dirs(macos));
    }
    dirs
}

/// The positions kept when adjacent repeats are dropped from a list, as
/// `Vec::dedup` does: the first entry and every entry that differs from the
/// one before it.
pub open spec fn kept_after_dedup(keys: Seq<Seq<char>>, i: int) -> bool {
    i == 0 || keys[i] != keys[i - 1]
}

/// `kept` lists, in increasing order, exactly the positions of `keys` that
/// survive dropping adjacent repeats.
pub open spec fn dedup_of(keys: Seq<Seq<char>>, kept: Seq<usize>) -> bool {
    &&& forall|a: int, b: int| 0 <= a < b < kept.len() ==> kept[a] < kept[b]
    &&& forall|a: int|
        0 <= a < kept.len() ==> kept[a] < keys.len() && kept_after_dedup(keys, kept[a] as int)
    &&& forall|i: int|
        0 <= i < keys.len() && kept_after_dedup(keys, i) ==> kept.contains(i as usize)
}

proof fn lemma_dropped_run(keys: Seq<Seq<char>>, kept: Seq<usize>, a: int, j: int)
    requires
        dedup_of(keys, kept),
        0 <= a < kept.len() - 1,
        kept[a] <= j < kept[a + 1],
    ensures
        keys[j] == keys[kept[a] as int],
    decreases j - kept[a],
{
    if j > kept[a] {
        lemma_dropped_run(keys, kept, a, j - 1);
        if keys[j] != keys[j - 1] {
            assert(kept_after_dedup(keys, j));
            let w = choose|w: int| 0 <= w < kept.len() && kept[w] == j as usize;
            if w <= a {
                assert(kept[w] <= kept[a]);
            } else if w >= a + 1 {
                assert(kept[a + 1] <= kept[w]);
            }
        }
    }
}

/// Dropping adjacent repeats leaves no two neighbours equal: consecutive
/// kept directories always differ.
pub proof fn dedup_leaves_no_adjacent_repeats(keys: Seq<Seq<char>>, kept: Seq<usize>)
    requires
        dedup_of(keys, kept),
    ensures
        forall|a: int|
            0 <= a < kept.len() - 1 ==> keys[#[trigger] kept[a] as int] != keys[kept[a + 1] as int],
{
    assert forall|a: int| 0 <= a < kept.len() - 1 implies keys[#[trigger] kept[a] as int]
        != keys[kept[a + 1] as int] by {
        let q = kept[a + 1] as int;
        assert(kept[a] < kept[a + 1]);
        lemma_dropped_run(keys, kept, a, q - 1);
        assert(kept_after_dedup(keys, q));
    }
}

/// The positions, in increasing order, that survive dropping adjacent
/// repeats from the search path. `keys` are the directories in a form where
/// equal directories have equal texts.
pub fn dedup_positions(keys: &Vec<String>) -> (res: Vec<usize>)
    ensures
        dedup_of(texts(keys@), res@),
{
    let mut kept: Vec<usize> = Vec::new();
    let mut i: usize = 0;
    while i < keys.len()
        invariant
            i <= keys@.len(),
            forall|a: int, b: int| 0 <= a < b < kept@.len() ==> kept@[a] < kept@[b],
            forall|a: int| 0 <= a < kept@.len() ==> kept@[a] < i && kept_after_dedup(
                texts(keys@),
                kept@[a] as int,
            ),
            forall|j: int|
                0 <= j < i && kept_after_dedup(texts(keys@), j) ==> kept@.contains(j as usize),
        decreases keys@.len() - i,
    {
        let keep = if i == 0 {
            true
        } else {
            keys[i] != keys[i - 1]
        };
        proof {
            if i > 0 {
                assert(texts(keys@)[i as int] == keys@[i as int]@);
                assert(texts(keys@)[i - 1] == keys@[i - 1]@);
            }
        }
        if keep {
            let ghost before = kept@;
            kept.push(i);
            proof {
                assert forall|j: int|
                    0 <= j < i + 1 && kept_after_dedup(texts(keys@), j) implies kept@.contains(
                    j as usize,
                ) by {
                    if j < i {
                        let w = choose|w: int| 0 <= w < before.len() && before[w] == j as usize;
                        assert(kept@[w] == j as usize);
                    } else {
                        assert(kept@[before.len() as int] == i);
                    }
                }
            }
        }
        i = i + 1;
    }
    kept
}

/// An event for the window: its kind and its message.
pub struct DownloadEvent {
    pub kind: String,
    pub message: String,
}

/// The event that reports how a download ended: stopped by the user,
/// completed, or failed with its exit code (−1 when it has none).
pub open spec fn finish_event(cancelled: bool, succeeded: bool, code: Option<i32>) -> (
    Seq<char>,
    Seq<char>,
) {
    if cancelled {
        ("cancelled"@, "Загрузка остановлена"@)
    } else if succeeded {
        ("completed"@, "Загрузка завершена"@)
    } else {
        (
            "failed"@,
            "Загрузка завершилась с кодом "@ + signed_decimal(
                match code {
                    Some(c) => c as int,
                    None => -1,
                },
            ),
        )
    }
}

/// Whether a download is running and whether the user asked it to stop.
pub struct DownloadState {
    pub running: bool,
    pub cancelled: bool,
}

/// The state in which nothing runs.
pub open spec fn idle() -> DownloadState {
    DownloadState { running: false, cancelled: false }
}

/// A new download may start: nothing runs.
pub open spec fn can_start(s: DownloadState) -> bool {
    !s.running
}

/// A stop request has something to stop.
pub open spec fn can_stop(s: DownloadState) -> bool {
    s.running
}

/// The state right after the downloader was spawned.
pub open spec fn started() -> DownloadState {
    DownloadState { running: true, cancelled: false }
}

/// The state after the user's stop request killed the process.
pub open spec fn stopped(s: DownloadState) -> DownloadState {
    DownloadState { running: s.running, cancelled: true }
}

impl DownloadState {
    /// No download yet.
    pub fn new() -> (res: DownloadState)
        ensures
            res == idle(),
    {
        DownloadState { running: false, cancelled: false }
    }

    /// Whether a download may start now: not while another one runs.
    pub fn check_can_start(&self) -> (res: Result<(), String>)
        ensures
            !can_start(*self) ==> res is Err && res->Err_0@ == "Загрузка уже выполняется"@,
            can_start(*self) ==> res is Ok,
    {
        if self.running {
            Err("Загрузка уже выполняется".to_owned())
        } else {
            Ok(())
        }
    }

    /// Records that the downloader process was spawned.
    pub fn mark_started(&mut self)
        ensures
            *final(self) == started(),
    {
        self.running = true;
        self.cancelled = false;
    }

    /// Whether there is a download to stop.
    pub fn check_can_stop(&self) -> (res: Result<(), String>)
        ensures
            !can_stop(*self) ==> res is Err && res->Err_0@ == "Активной загрузки нет"@,
            can_stop(*self) ==> res is Ok,
    {
        if self.running {
            Ok(())
        } else {
            Err("Активной загрузки нет".to_owned())
        }
    }

    /// Records that the running process was killed at the user's request.
    pub fn mark_cancelled(&mut self)
        ensures
            *final(self) == stopped(*old(self)),
    {
        self.cancelled = true;
    }

    /// Records that the process exited and returns the event that reports
    /// it; the state becomes idle.
    pub fn finish(&mut self, succeeded: bool, code: Option<i32>) -> (res: DownloadEvent)
        ensures
            *final(self) == idle(),
            (res.kind@, res.message@) == finish_event(old(self).cancelled, succeeded, code),
    {
        let cancelled = self.cancelled;
        self.running = false;
        self.cancelled = false;
        if cancelled {
            DownloadEvent {
                kind: "cancelled".to_owned(),
                message: "Загрузка остановлена".to_owned(),
            }
        } else if succeeded {
            DownloadEvent {
                kind: "completed".to_owned(),
                message: "Загрузка завершена".to_owned(),
            }
        } else {
            let number: i32 = match code {
                Some(c) => c,
                None => -1,
            };
            let mut message = "Загрузка завершилась с кодом ".to_owned();
            let digits = signed_decimal_string(number);
            message.append(digits.as_str());
            DownloadEvent { kind: "failed".to_owned(), message }
        }
    }

    /// Records that the process could no longer be watched; the request to
    /// stop, if any, is kept.
    pub fn mark_lost(&mut self)
        ensures
            *final(self) == (DownloadState { running: false, cancelled: old(self).cancelled }),
    {
        self.running = false;
    }
}

/// A download the user stopped is reported as cancelled, whatever its exit
/// status, and leaves nothing running.
pub proof fn stopped_download_reports_cancelled(s: DownloadState, succeeded: bool, code: Option<i32>)
    ensures
        finish_event(stopped(s).cancelled, succeeded, code).0 == "cancelled"@,
        finish_event(stopped(s).cancelled, succeeded, code).1 == "Загрузка остановлена"@,
{
}

/// A download that was not stopped is reported by its exit status: completed
/// when it succeeded, failed with its exit code otherwise.
pub proof fn unstopped_download_reports_exit(succeeded: bool, code: Option<i32>)
    ensures
        succeeded ==> finish_event(started().cancelled, succeeded, code).0 == "completed"@,
        !succeeded ==> finish_event(started().cancelled, succeeded, code).0 == "failed"@,
        !succeeded && code is Some ==> finish_event(started().cancelled, succeeded, code).1
            == "Загрузка завершилась с кодом "@ + signed_decimal(code->0 as int),
{
}

/// One download at a time: a started download refuses a second start and
/// accepts a stop, and still does after the stop request until it exits;
/// once it has finished, a new one may start and a stop is refused.
pub proof fn one_download_at_a_time()
    ensures
        !can_start(started()),
        can_stop(started()),
        !can_start(stopped(started())),
        can_start(idle()),
        !can_stop(idle()),
{
}

} // verus!
