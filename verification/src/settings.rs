//! The user's download settings: the checks they must pass before a
//! download starts, the command line they turn into, and the configuration
//! file that carries the credentials to the downloader.

use vstd::prelude::*;

use crate::json::{json_decode, json_quoted, json_quoted_is_single_line, json_quoted_reads_back, json_scalar};
use crate::text::{blank, is_blank, trim, trimmed};

verus! {

/// How to start the downloader: a program and the arguments that precede
/// the download arguments (a launcher script, when one is used).
pub struct CommandSpec {
    pub program: String,
    pub prefix_args: Vec<String>,
}

/// The settings of one download as the window holds them. The delay between
/// requests is kept as the decimal text that goes on the command line.
pub struct DownloadSettings {
    pub username: String,
    pub auth_header: String,
    pub cookie: String,
    pub destination_directory: String,
    pub post_url: String,
    pub preferred_video_quality: String,
    pub content_types: Vec<String>,
    pub request_delay_seconds: String,
    pub skip_all_failures: bool,
}

/// The texts of a list of strings.
pub open spec fn texts(v: Seq<String>) -> Seq<Seq<char>> {
    v.map_values(|s: String| s@)
}

/// The first problem found in the settings, in the order the window reports
/// them, or `None` when they are fit for a download. `delay_below_minimum`
/// tells whether the delay between requests is under one second.
pub open spec fn validation_error(
    settings: DownloadSettings,
    delay_below_minimum: bool,
) -> Option<Seq<char>> {
    if is_blank(settings.username@) {
        Some("Укажите имя автора из адреса boosty.to/имя"@)
    } else if is_blank(settings.auth_header@) || is_blank(settings.cookie@) {
        Some("Добавьте Authorization и Cookie из авторизованной сессии Boosty"@)
    } else if is_blank(settings.destination_directory@) {
        Some("Выберите папку для загрузок"@)
    } else if settings.content_types@.len() == 0 {
        Some("Выберите хотя бы один тип контента"@)
    } else if delay_below_minimum {
        Some("Задержка между запросами должна быть не меньше 1 секунды"@)
    } else {
        None
    }
}

/// Checks the settings before a download: an author, both credentials, a
/// destination and at least one content type must be given, and the delay
/// between requests must be at least one second. The caller compares the
/// delay with one second and passes the outcome as `delay_below_minimum`.
pub fn validate_settings(
    settings: &DownloadSettings,
    delay_below_minimum: bool,
) -> (res: Result<(), String>)
    ensures
        match validation_error(*settings, delay_below_minimum) {
            Some(message) => res is Err && res->Err_0@ == message,
            None => res is Ok,
        },
{
    if blank(settings.username.as_str()) {
        return Err("Укажите имя автора из адреса boosty.to/имя".to_owned());
    }
    if blank(settings.auth_header.as_str()) || blank(settings.cookie.as_str()) {
        return Err("Добавьте Authorization и Cookie из авторизованной сессии Boosty".to_owned());
    }
    if blank(settings.destination_directory.as_str()) {
        return Err("Выберите папку для загрузок".to_owned());
    }
    if settings.content_types.len() == 0 {
        return Err("Выберите хотя бы один тип контента".to_owned());
    }
    if delay_below_minimum {
        return Err("Задержка между запросами должна быть не меньше 1 секунды".to_owned());
    }
    Ok(())
}

/// The option that names one content type to download.
pub open spec fn filter_flag() -> Seq<char> {
    "--content-type-filter"@
}

/// A `--content-type-filter` option for each content type, in order.
pub open spec fn content_type_flags(types: Seq<Seq<char>>) -> Seq<Seq<char>>
    decreases types.len(),
{
    if types.len() == 0 {
        Seq::empty()
    } else {
        content_type_flags(types.drop_last()) + seq![filter_flag(), types.last()]
    }
}

/// Every content type reaches the downloader, in order, each right after its
/// own `--content-type-filter`: the filters are exactly the selected types.
pub proof fn each_content_type_is_filtered(types: Seq<Seq<char>>)
    ensures
        content_type_flags(types).len() == 2 * types.len(),
        forall|k: int|
            0 <= k < content_type_flags(types).len() ==> #[trigger] content_type_flags(types)[k]
                == if k % 2 == 0 {
                filter_flag()
            } else {
                types[k / 2]
            },
    decreases types.len(),
{
    if types.len() > 0 {
        let rest = types.drop_last();
        each_content_type_is_filtered(rest);
        let flags = content_type_flags(types);
        let before = content_type_flags(rest);
        assert(flags == before + seq![filter_flag(), types.last()]);
        assert forall|k: int| 0 <= k < flags.len() implies #[trigger] flags[k] == if k % 2 == 0 {
            filter_flag()
        } else {
            types[k / 2]
        } by {
            if k < before.len() {
                assert(flags[k] == before[k]);
                if k % 2 == 1 {
                    assert(rest[k / 2] == types[k / 2]);
                }
            }
        }
    }
}

/// The arguments of a download run, after the command's own prefix.
pub open spec fn download_options(settings: DownloadSettings) -> Seq<Seq<char>> {
    seq![
        "download"@,
        "--username"@,
        trimmed(settings.username@),
        "--preferred-video-quality"@,
        settings.preferred_video_quality@,
        "--request-delay-seconds"@,
        settings.request_delay_seconds@,
        "--destination-directory"@,
        settings.destination_directory@,
    ] + (if is_blank(settings.post_url@) {
        Seq::empty()
    } else {
        seq!["--post-url"@, trimmed(settings.post_url@)]
    }) + content_type_flags(texts(settings.content_types@)) + (if settings.skip_all_failures {
        seq!["--skip-all-failures"@]
    } else {
        Seq::empty()
    })
}

/// The failure-skipping choice alone decides the last argument: when it is
/// on, the list ends with `--skip-all-failures`, whatever else the settings
/// hold (a whole-creator download included); turning it off removes just
/// that argument and nothing else.
pub proof fn skip_flag_follows_the_choice(settings: DownloadSettings)
    ensures
        settings.skip_all_failures ==> download_options(settings).last() == "--skip-all-failures"@,
        download_options(DownloadSettings { skip_all_failures: true, ..settings }) == download_options(
            DownloadSettings { skip_all_failures: false, ..settings },
        ).push("--skip-all-failures"@),
        download_options(settings).len() == 9 + (if is_blank(settings.post_url@) {
            0int
        } else {
            2int
        }) + 2 * settings.content_types@.len() + (if settings.skip_all_failures {
            1int
        } else {
            0int
        }),
{
    let types = texts(settings.content_types@);
    each_content_type_is_filtered(types);
    let on = DownloadSettings { skip_all_failures: true, ..settings };
    let off = DownloadSettings { skip_all_failures: false, ..settings };
    assert(download_options(on) =~= download_options(off).push("--skip-all-failures"@));
}

/// Where the content-type filters begin among the download options: after
/// the nine fixed arguments and, when a post URL is given, its two.
pub open spec fn filters_start(settings: DownloadSettings) -> int {
    if is_blank(settings.post_url@) {
        9
    } else {
        11
    }
}

/// Each option of the download command is followed by its value: the
/// trimmed author, the quality, the delay and the destination as given, the
/// trimmed post URL exactly when one is given, and then the block of
/// content-type filters (whose pairs `each_content_type_is_filtered` lays out).
pub proof fn options_carry_their_values(settings: DownloadSettings)
    ensures
        download_options(settings)[0] == "download"@,
        download_options(settings)[1] == "--username"@,
        download_options(settings)[2] == trimmed(settings.username@),
        download_options(settings)[3] == "--preferred-video-quality"@,
        download_options(settings)[4] == settings.preferred_video_quality@,
        download_options(settings)[5] == "--request-delay-seconds"@,
        download_options(settings)[6] == settings.request_delay_seconds@,
        download_options(settings)[7] == "--destination-directory"@,
        download_options(settings)[8] == settings.destination_directory@,
        !is_blank(settings.post_url@) ==> download_options(settings)[9] == "--post-url"@
            && download_options(settings)[10] == trimmed(settings.post_url@),
        download_options(settings).subrange(
            filters_start(settings),
            filters_start(settings) + 2 * settings.content_types@.len(),
        ) == content_type_flags(texts(settings.content_types@)),
{
    lemma_options_layout(settings);
    let types = texts(settings.content_types@);
    each_content_type_is_filtered(types);
    assert(download_options(settings).subrange(
        filters_start(settings),
        filters_start(settings) + 2 * settings.content_types@.len(),
    ) =~= content_type_flags(types));
}

proof fn lemma_options_layout(settings: DownloadSettings)
    ensures
        download_options(settings)[0] == "download"@,
        download_options(settings)[1] == "--username"@,
        download_options(settings)[2] == trimmed(settings.username@),
        download_options(settings)[3] == "--preferred-video-quality"@,
        download_options(settings)[4] == settings.preferred_video_quality@,
        download_options(settings)[5] == "--request-delay-seconds"@,
        download_options(settings)[6] == settings.request_delay_seconds@,
        download_options(settings)[7] == "--destination-directory"@,
        download_options(settings)[8] == settings.destination_directory@,
        !is_blank(settings.post_url@) ==> download_options(settings)[9] == "--post-url"@
            && download_options(settings)[10] == trimmed(settings.post_url@),
        forall|k: int|
            0 <= k < content_type_flags(texts(settings.content_types@)).len() ==> download_options(
                settings,
            )[filters_start(settings) + k] == content_type_flags(texts(settings.content_types@))[k],
{
    let types = texts(settings.content_types@);
    let opts = download_options(settings);
    let flags = content_type_flags(types);
    let head = seq![
        "download"@,
        "--username"@,
        trimmed(settings.username@),
        "--preferred-video-quality"@,
        settings.preferred_video_quality@,
        "--request-delay-seconds"@,
        settings.request_delay_seconds@,
        "--destination-directory"@,
        settings.destination_directory@,
    ];
    let url: Seq<Seq<char>> = if is_blank(settings.post_url@) {
        Seq::empty()
    } else {
        seq!["--post-url"@, trimmed(settings.post_url@)]
    };
    let tail: Seq<Seq<char>> = if settings.skip_all_failures {
        seq!["--skip-all-failures"@]
    } else {
        Seq::empty()
    };
    let front = head + url;
    assert(opts == front + flags + tail);
    assert(front.len() == filters_start(settings));
    assert forall|k: int| 0 <= k < flags.len() implies opts[filters_start(settings) + k]
        == flags[k] by {
        assert((front + flags)[front.len() + k] == flags[k]);
        assert(opts[front.len() + k] == (front + flags)[front.len() + k]);
    }
    assert(opts[0] == head[0]);
    assert(opts[1] == head[1]);
    assert(opts[2] == head[2]);
    assert(opts[3] == head[3]);
    assert(opts[4] == head[4]);
    assert(opts[5] == head[5]);
    assert(opts[6] == head[6]);
    assert(opts[7] == head[7]);
    assert(opts[8] == head[8]);
    if !is_blank(settings.post_url@) {
        assert(opts[9] == url[0]);
        assert(opts[10] == url[1]);
    }
}

/// Appending a string appends its text.
pub proof fn lemma_texts_push(v: Seq<String>, s: String)
    ensures
        texts(v.push(s)) == texts(v).push(s@),
{
    assert(texts(v.push(s)) =~= texts(v).push(s@));
}

pub(crate) fn push_text(args: &mut Vec<String>, text: &str)
    ensures
        texts(final(args)@) == texts(old(args)@).push(text@),
{
    args.push(text.to_owned());
    assert(texts(args@) =~= texts(old(args)@).push(text@));
}

/// The full argument list for the downloader: the command's prefix, then
/// `download` with the author, quality, delay and destination, the post URL
/// when one is given, one filter per content type, and
/// `--skip-all-failures` when asked for.
pub fn build_download_args(spec: &CommandSpec, settings: &DownloadSettings) -> (res: Vec<String>)
    ensures
        texts(res@) == texts(spec.prefix_args@) + download_options(*settings),
{
    let mut args: Vec<String> = Vec::new();
    let mut i: usize = 0;
    while i < spec.prefix_args.len()
        invariant
            i <= spec.prefix_args@.len(),
            texts(args@) == texts(spec.prefix_args@.take(i as int)),
        decreases spec.prefix_args@.len() - i,
    {
        push_text(&mut args, spec.prefix_args[i].as_str());
        assert(texts(spec.prefix_args@.take(i + 1)) =~= texts(spec.prefix_args@.take(i as int)).push(
            spec.prefix_args@[i as int]@,
        ));
        i = i + 1;
    }
    assert(spec.prefix_args@.take(i as int) =~= spec.prefix_args@);
    let ghost prefix = texts(args@);
    push_text(&mut args, "download");
    push_text(&mut args, "--username");
    let username = trim(settings.username.as_str());
    push_text(&mut args, username.as_str());
    push_text(&mut args, "--preferred-video-quality");
    push_text(&mut args, settings.preferred_video_quality.as_str());
    push_text(&mut args, "--request-delay-seconds");
    push_text(&mut args, settings.request_delay_seconds.as_str());
    push_text(&mut args, "--destination-directory");
    push_text(&mut args, settings.destination_directory.as_str());
    let ghost base = texts(args@);
    assert(base =~= prefix + seq![
        "download"@,
        "--username"@,
        trimmed(settings.username@),
        "--preferred-video-quality"@,
        settings.preferred_video_quality@,
        "--request-delay-seconds"@,
        settings.request_delay_seconds@,
        "--destination-directory"@,
        settings.destination_directory@,
    ]);
    if !blank(settings.post_url.as_str()) {
        push_text(&mut args, "--post-url");
        let url = trim(settings.post_url.as_str());
        push_text(&mut args, url.as_str());
        assert(texts(args@) =~= base + seq!["--post-url"@, trimmed(settings.post_url@)]);
    } else {
        assert(texts(args@) =~= base + Seq::<Seq<char>>::empty());
    }
    let ghost with_url = texts(args@);
    let types = &settings.content_types;
    let mut k: usize = 0;
    assert(types@.take(0) =~= Seq::<String>::empty());
    assert(texts(Seq::<String>::empty()) =~= Seq::<Seq<char>>::empty());
    assert(with_url =~= with_url + content_type_flags(Seq::<Seq<char>>::empty()));
    while k < types.len()
        invariant
            k <= types@.len(),
            texts(args@) == with_url + content_type_flags(texts(types@.take(k as int))),
        decreases types@.len() - k,
    {
        let ghost before = texts(types@.take(k as int));
        push_text(&mut args, "--content-type-filter");
        assert(filter_flag() == "--content-type-filter"@);
        push_text(&mut args, types[k].as_str());
        proof {
            let after = texts(types@.take(k + 1));
            assert(after.drop_last() =~= before);
            assert(after.last() == types@[k as int]@);
            assert(texts(args@) =~= with_url + content_type_flags(after));
        }
        k = k + 1;
    }
    assert(types@.take(k as int) =~= types@);
    let ghost with_types = texts(args@);
    if settings.skip_all_failures {
        push_text(&mut args, "--skip-all-failures");
        assert(texts(args@) =~= with_types + seq!["--skip-all-failures"@]);
    } else {
        assert(texts(args@) =~= with_types + Seq::<Seq<char>>::empty());
    }
    assert(texts(args@) =~= texts(spec.prefix_args@) + download_options(*settings));
    args
}

/// Settings that pass the checks give the downloader something to work with:
/// the author on the command line and both credentials in the configuration
/// file are non-empty after trimming.
pub proof fn accepted_settings_are_complete(settings: DownloadSettings, delay_below_minimum: bool)
    requires
        validation_error(settings, delay_below_minimum) is None,
    ensures
        download_options(settings)[2] == trimmed(settings.username@),
        download_options(settings)[2].len() > 0,
        trimmed(settings.cookie@).len() > 0,
        trimmed(settings.auth_header@).len() > 0,
        settings.content_types@.len() > 0,
{
}

/// The downloader's `config.yaml`: the trimmed cookie and authorization
/// header and the destination directory, each as a JSON string literal,
/// which YAML reads as a double-quoted scalar.
pub open spec fn config_yaml_text(settings: DownloadSettings) -> Seq<char> {
    "auth:\n  cookie: "@ + json_quoted(trimmed(settings.cookie@)) + "\n  auth_header: "@
        + json_quoted(trimmed(settings.auth_header@))
        + "\ndownloading_settings:\n  target_directory: "@ + json_quoted(
        settings.destination_directory@,
    ) + "\n"@
}

/// The configuration file has three one-line values, one per key, and each
/// reads back, as a JSON string, as what it stands for: the trimmed cookie,
/// the trimmed authorization header and the destination directory exactly as
/// given (a Windows path with its backslashes included).
pub proof fn config_values_read_back(settings: DownloadSettings)
    ensures
        exists|cookie: Seq<char>, auth: Seq<char>, target: Seq<char>|
            {
                &&& config_yaml_text(settings) == "auth:\n  cookie: "@ + cookie
                    + "\n  auth_header: "@ + auth + "\ndownloading_settings:\n  target_directory: "@
                    + target + "\n"@
                &&& !cookie.contains('\n') && !auth.contains('\n') && !target.contains('\n')
                &&& json_decode(cookie) == Some(trimmed(settings.cookie@))
                &&& json_decode(auth) == Some(trimmed(settings.auth_header@))
                &&& json_decode(target) == Some(settings.destination_directory@)
            },
{
    let cookie = json_quoted(trimmed(settings.cookie@));
    let auth = json_quoted(trimmed(settings.auth_header@));
    let target = json_quoted(settings.destination_directory@);
    json_quoted_reads_back(trimmed(settings.cookie@));
    json_quoted_reads_back(trimmed(settings.auth_header@));
    json_quoted_reads_back(settings.destination_directory@);
    json_quoted_is_single_line(trimmed(settings.cookie@));
    json_quoted_is_single_line(trimmed(settings.auth_header@));
    json_quoted_is_single_line(settings.destination_directory@);
    assert(!cookie.contains('\n')) by {
        if cookie.contains('\n') {
            let i = choose|i: int| 0 <= i < cookie.len() && cookie[i] == '\n';
            assert((cookie[i] as int) >= 0x20);
        }
    }
    assert(!auth.contains('\n')) by {
        if auth.contains('\n') {
            let i = choose|i: int| 0 <= i < auth.len() && auth[i] == '\n';
            assert((auth[i] as int) >= 0x20);
        }
    }
    assert(!target.contains('\n')) by {
        if target.contains('\n') {
            let i = choose|i: int| 0 <= i < target.len() && target[i] == '\n';
            assert((target[i] as int) >= 0x20);
        }
    }
    assert(config_yaml_text(settings) == "auth:\n  cookie: "@ + cookie + "\n  auth_header: "@ + auth
        + "\ndownloading_settings:\n  target_directory: "@ + target + "\n"@);
    assert({
        &&& config_yaml_text(settings) == "auth:\n  cookie: "@ + cookie + "\n  auth_header: "@ + auth
            + "\ndownloading_settings:\n  target_directory: "@ + target + "\n"@
        &&& !cookie.contains('\n') && !auth.contains('\n') && !target.contains('\n')
        &&& json_decode(cookie) == Some(trimmed(settings.cookie@))
        &&& json_decode(auth) == Some(trimmed(settings.auth_header@))
        &&& json_decode(target) == Some(settings.destination_directory@)
    });
}

/// Writes the text of the downloader's configuration file for `settings`.
pub fn config_yaml(settings: &DownloadSettings) -> (res: Result<String, String>)
    ensures
        res is Ok,
        res->Ok_0@ == config_yaml_text(*settings),
{
    let target = json_scalar(settings.destination_directory.as_str())?;
    let cookie_text = trim(settings.cookie.as_str());
    let cookie = json_scalar(cookie_text.as_str())?;
    let auth_text = trim(settings.auth_header.as_str());
    let auth_header = json_scalar(auth_text.as_str())?;
    let mut yaml = "auth:\n  cookie: ".to_owned();
    yaml.append(cookie.as_str());
    yaml.append("\n  auth_header: ");
    yaml.append(auth_header.as_str());
    yaml.append("\ndownloading_settings:\n  target_directory: ");
    yaml.append(target.as_str());
    yaml.append("\n");
    Ok(yaml)
}

/// The first step of a download: the settings are checked, and only settings
/// that pass yield the configuration text to write. A refusal comes before
/// anything is written.
pub fn prepare_start(
    settings: &DownloadSettings,
    delay_below_minimum: bool,
) -> (res: Result<String, String>)
    ensures
        match validation_error(*settings, delay_below_minimum) {
            Some(message) => res is Err && res->Err_0@ == message,
            None => res is Ok && res->Ok_0@ == config_yaml_text(*settings),
        },
{
    validate_settings(settings, delay_below_minimum)?;
    config_yaml(settings)
}

/// The content types a new installation downloads: everything.
pub open spec fn default_content_types_text() -> Seq<Seq<char>> {
    seq!["post_content"@, "boosty_videos"@, "external_videos"@, "files"@, "audio"@]
}

/// The content types selected in fresh settings.
pub fn default_content_types() -> (res: Vec<String>)
    ensures
        texts(res@) == default_content_types_text(),
{
    let mut types: Vec<String> = Vec::new();
    push_text(&mut types, "post_content");
    push_text(&mut types, "boosty_videos");
    push_text(&mut types, "external_videos");
    push_text(&mut types, "files");
    push_text(&mut types, "audio");
    assert(texts(types@) =~= default_content_types_text());
    types
}

/// The video quality selected in fresh settings.
pub fn default_video_quality() -> (res: String)
    ensures
        res@ == "medium"@,
{
    "medium".to_owned()
}

} // verus!
