use vstd::prelude::*;
use vstd::string::StringExecFns;

use crate::decimal::{decimal_of, decimal_string};
use crate::domain::{PlaylistOptions, Video};

verus! {

/// The file type used when an audio-only request names none.
pub open spec fn default_format(audio_only: bool) -> Seq<char> {
    if audio_only {
        "mp3"@
    } else {
        "mp4"@
    }
}

/// The file type that a request asks for, its mode's default filled in.
pub open spec fn requested_format(v: Video) -> Seq<char> {
    match v.file_type {
        Some(t) => t@,
        None => default_format(v.audio_only),
    }
}

/// The file types allowed for an audio-only request.
pub open spec fn is_audio_format(f: Seq<char>) -> bool {
    f == "mp3"@ || f == "m4a"@ || f == "wav"@
}

/// The file types allowed for a video request.
pub open spec fn is_video_format(f: Seq<char>) -> bool {
    f == "mp4"@ || f == "webm"@
}

/// Whether the requested file type is allowed in the request's mode.
pub open spec fn format_supported(v: Video) -> bool {
    if v.audio_only {
        is_audio_format(requested_format(v))
    } else {
        is_video_format(requested_format(v))
    }
}

/// The audio stream that goes with a video container.
pub open spec fn companion_audio(f: Seq<char>) -> Seq<char> {
    if f == "mp4"@ {
        "m4a"@
    } else {
        f
    }
}

/// Best video and best audio in the container, else the best single stream in it.
pub open spec fn video_selector(f: Seq<char>) -> Seq<char> {
    "bestvideo[ext="@ + f + "]+bestaudio[ext="@ + companion_audio(f) + "]/"@ + f
}

/// The output template: the base name, then the extension the tool picks.
pub open spec fn output_template(o: Seq<char>) -> Seq<char> {
    o + ".%(ext)s"@
}

/// The arguments that choose the streams and, for audio, the conversion.
pub open spec fn format_args(v: Video) -> Seq<Seq<char>> {
    let f = requested_format(v);
    if v.audio_only {
        seq!["-f"@, "ba/b"@, "--extract-audio"@, "--audio-format"@, f]
    } else {
        seq!["-f"@, video_selector(f)]
    }
}

pub open spec fn output_args(v: Video) -> Seq<Seq<char>> {
    match v.output {
        Some(o) => seq!["-o"@, output_template(o@)],
        None => seq![],
    }
}

/// A flag and its value, where the value is given and not empty.
pub open spec fn optional_arg(flag: Seq<char>, value: Option<String>) -> Seq<Seq<char>> {
    match value {
        Some(s) => if s@.len() > 0 {
            seq![flag, s@]
        } else {
            seq![]
        },
        None => seq![],
    }
}

pub open spec fn playlist_args(p: PlaylistOptions) -> Seq<Seq<char>> {
    optional_arg("--playlist-start"@, p.start) + optional_arg("--playlist-end"@, p.end)
        + optional_arg("--playlist-items"@, p.items) + if p.ignore_errors {
        seq!["--ignore-errors"@]
    } else {
        seq![]
    }
}

/// The whole argument list handed to the delegate tool.
pub open spec fn command_args(v: Video, p: PlaylistOptions) -> Seq<Seq<char>> {
    seq![v.url@] + format_args(v) + output_args(v) + playlist_args(p)
}

/// What each argument of a list reads.
pub open spec fn arg_views(args: Seq<String>) -> Seq<Seq<char>> {
    args.map_values(|s: String| s@)
}

/// Why a download did not succeed.
#[derive(Debug, Clone)]
pub enum DownloadError {
    /// The file type is not allowed in the request's mode; no process was started.
    Format { requested: String, audio_only: bool },
    /// The delegate tool could not be started; the system's description of why.
    LaunchFailure(String),
    /// The tool exited with status 1: some items of a playlist may have failed.
    PartialFailure,
    /// The tool exited with another non-zero status.
    FatalFailure(i32),
    /// The tool was stopped by a signal and left no exit status.
    Terminated,
}

/// What a run of the tool means, given its exit status (`None`: stopped by a signal).
pub open spec fn exit_outcome(code: Option<i32>) -> Result<(), DownloadError> {
    match code {
        Some(c) => if c == 0 {
            Ok(())
        } else if c == 1 {
            Err(DownloadError::PartialFailure)
        } else {
            Err(DownloadError::FatalFailure(c))
        },
        None => Err(DownloadError::Terminated),
    }
}

/// What a launch means: the exit status of a finished run, or the system's
/// description of why the tool could not be started.
pub open spec fn launch_outcome(o: Result<Option<i32>, String>) -> Result<(), DownloadError> {
    match o {
        Ok(code) => exit_outcome(code),
        Err(description) => Err(DownloadError::LaunchFailure(description)),
    }
}

/// The status with which the program ends after each kind of failure.
pub open spec fn exit_status_of(e: DownloadError) -> i32 {
    match e {
        DownloadError::Format { .. } => 2,
        DownloadError::LaunchFailure(_) => 3,
        DownloadError::PartialFailure => 4,
        DownloadError::FatalFailure(_) => 5,
        DownloadError::Terminated => 6,
    }
}

/// The text that tells the user what went wrong.
pub open spec fn error_message(e: DownloadError) -> Seq<char> {
    match e {
        DownloadError::Format { requested, audio_only } => if audio_only {
            "Audio format '"@ + requested@ + "' is not supported. Use mp3, m4a, or wav."@
        } else {
            "Video format '"@ + requested@ + "' is not supported. Use mp4 or webm."@
        },
        DownloadError::LaunchFailure(description) => description@,
        DownloadError::PartialFailure => "yt-dlp exited with status 1 (partial failure)"@,
        DownloadError::FatalFailure(code) => "yt-dlp exited with status: "@ + decimal_of(
            code as int,
        ),
        DownloadError::Terminated => "yt-dlp process terminated by signal"@,
    }
}

impl DownloadError {
    /// A message for the user that names the cause.
    pub fn message(&self) -> (r: String)
        ensures
            r@ == error_message(*self),
    {
        match self {
            DownloadError::Format { requested, audio_only } => {
                let mut r = if *audio_only {
                    String::from_str("Audio format '")
                } else {
                    String::from_str("Video format '")
                };
                r.append(requested.as_str());
                if *audio_only {
                    r.append("' is not supported. Use mp3, m4a, or wav.");
                } else {
                    r.append("' is not supported. Use mp4 or webm.");
                }
                r
            },
            DownloadError::LaunchFailure(description) => description.clone(),
            DownloadError::PartialFailure => String::from_str(
                "yt-dlp exited with status 1 (partial failure)",
            ),
            DownloadError::FatalFailure(code) => {
                let mut r = String::from_str("yt-dlp exited with status: ");
                let digits = decimal_string(*code);
                r.append(digits.as_str());
                r
            },
            DownloadError::Terminated => String::from_str("yt-dlp process terminated by signal"),
        }
    }

    /// The status with which the program ends after this failure; each kind has its own.
    pub fn exit_status(&self) -> (r: i32)
        ensures
            r == exit_status_of(*self),
    {
        match self {
            DownloadError::Format { .. } => 2,
            DownloadError::LaunchFailure(_) => 3,
            DownloadError::PartialFailure => 4,
            DownloadError::FatalFailure(_) => 5,
            DownloadError::Terminated => 6,
        }
    }
}

/// The error that a request with an unsupported file type meets.
pub open spec fn is_format_error_for(e: DownloadError, v: Video) -> bool {
    match e {
        DownloadError::Format { requested, audio_only } => requested@ == requested_format(v)
            && audio_only == v.audio_only,
        _ => false,
    }
}

fn same_text(s: &String, name: &str) -> (r: bool)
    ensures
        r == (s@ == name@),
{
    let other = String::from_str(name);
    s.eq(&other)
}

fn push_arg(args: &mut Vec<String>, a: &str)
    ensures
        arg_views(final(args)@) == arg_views(old(args)@).push(a@),
{
    args.push(String::from_str(a));
    assert(arg_views(final(args)@) =~= arg_views(old(args)@).push(a@));
}

fn push_string(args: &mut Vec<String>, a: String)
    ensures
        arg_views(final(args)@) == arg_views(old(args)@).push(a@),
{
    let ghost text = a@;
    args.push(a);
    assert(arg_views(final(args)@) =~= arg_views(old(args)@).push(text));
}

fn push_optional(args: &mut Vec<String>, flag: &str, value: &Option<String>)
    ensures
        arg_views(final(args)@) == arg_views(old(args)@) + optional_arg(flag@, *value),
{
    match value {
        Some(s) => {
            if s.as_str().is_empty() {
                assert(arg_views(final(args)@) =~= arg_views(old(args)@) + optional_arg(flag@, *value));
            } else {
                push_arg(args, flag);
                push_string(args, s.clone());
                assert(arg_views(final(args)@) =~= arg_views(old(args)@) + optional_arg(flag@, *value));
            }
        },
        None => {
            assert(arg_views(final(args)@) =~= arg_views(old(args)@) + optional_arg(flag@, *value));
        },
    }
}

fn selector_for(f: &String) -> (r: String)
    requires
        is_video_format(f@),
    ensures
        r@ == video_selector(f@),
{
    let mut r = String::from_str("bestvideo[ext=");
    r.append(f.as_str());
    r.append("]+bestaudio[ext=");
    if same_text(f, "mp4") {
        r.append("m4a");
    } else {
        r.append(f.as_str());
    }
    r.append("]/");
    r.append(f.as_str());
    r
}

fn template_for(o: &String) -> (r: String)
    ensures
        r@ == output_template(o@),
{
    let mut r = o.clone();
    r.append(".%(ext)s");
    r
}

/// Runs downloads through the yt-dlp command-line tool.
pub struct YtDlpDownloader {
    /// Playlist selection applied to every request.
    pub playlist: PlaylistOptions,
}

impl YtDlpDownloader {
    /// A downloader that takes whole playlists and stops at the first error.
    pub fn new() -> (r: YtDlpDownloader)
        ensures
            r.playlist.start is None,
            r.playlist.end is None,
            r.playlist.items is None,
            !r.playlist.ignore_errors,
    {
        YtDlpDownloader { playlist: PlaylistOptions::none() }
    }

    /// The file type that the request asks for, its mode's default filled in.
    pub fn requested_format(video: &Video) -> (r: String)
        ensures
            r@ == requested_format(*video),
    {
        match &video.file_type {
            Some(t) => t.clone(),
            None => if video.audio_only {
                String::from_str("mp3")
            } else {
                String::from_str("mp4")
            },
        }
    }

    /// Translates a request into the arguments of one run of the tool.
    ///
    /// A file type outside the mode's list is refused, never replaced. The
    /// request's `quality` is not emitted: the mode and the file type choose
    /// the streams.
    pub fn build_args(&self, video: &Video) -> (r: Result<Vec<String>, DownloadError>)
        ensures
            r is Ok <==> format_supported(*video),
            r matches Ok(args) ==> arg_views(args@) == command_args(*video, self.playlist),
            r matches Err(e) ==> is_format_error_for(e, *video),
    {
        let f = Self::requested_format(video);
        let mut args: Vec<String> = Vec::new();
        push_string(&mut args, video.url.clone());
        if video.audio_only {
            if !(same_text(&f, "mp3") || same_text(&f, "m4a") || same_text(&f, "wav")) {
                return Err(DownloadError::Format { requested: f, audio_only: true });
            }
            push_arg(&mut args, "-f");
            push_arg(&mut args, "ba/b");
            push_arg(&mut args, "--extract-audio");
            push_arg(&mut args, "--audio-format");
            push_string(&mut args, f);
        } else {
            if !(same_text(&f, "mp4") || same_text(&f, "webm")) {
                return Err(DownloadError::Format { requested: f, audio_only: false });
            }
            push_arg(&mut args, "-f");
            push_string(&mut args, selector_for(&f));
        }
        assert(arg_views(args@) =~= seq![video.url@] + format_args(*video));
        match &video.output {
            Some(o) => {
                push_arg(&mut args, "-o");
                push_string(&mut args, template_for(o));
            },
            None => {},
        }
        assert(arg_views(args@) =~= seq![video.url@] + format_args(*video) + output_args(*video));
        let ghost before = arg_views(args@);
        push_optional(&mut args, "--playlist-start", &self.playlist.start);
        push_optional(&mut args, "--playlist-end", &self.playlist.end);
        push_optional(&mut args, "--playlist-items", &self.playlist.items);
        if self.playlist.ignore_errors {
            push_arg(&mut args, "--ignore-errors");
        }
        assert(arg_views(args@) =~= before + playlist_args(self.playlist));
        Ok(args)
    }
    /// Carries out one download: translates the request and, when the file type
    /// is allowed, hands the arguments to `launch` exactly once and interprets
    /// what it reports. `launch` runs the tool and gives its exit status (`None`
    /// when a signal stopped it), or the reason it could not be started.
    ///
    /// A refused file type is reported before anything is launched.
    pub fn download<F>(&self, video: &Video, launch: F) -> (r: Result<(), DownloadError>)
        where
            F: FnOnce(Vec<String>) -> Result<Option<i32>, String>,
        requires
            forall|args: Vec<String>| #[trigger] call_requires(launch, (args,)),
        ensures
            !format_supported(*video) ==> r is Err && is_format_error_for(r->Err_0, *video),
            format_supported(*video) ==> exists|args: Vec<String>, o: Result<Option<i32>, String>|
                #[trigger] call_ensures(launch, (args,), o) && arg_views(args@) == command_args(
                    *video,
                    self.playlist,
                ) && r == launch_outcome(o),
    {
        match self.build_args(video) {
            Err(e) => Err(e),
            Ok(args) => {
                let ghost sent = args;
                let o = launch(args);
                let r = match o {
                    Ok(code) => Self::classify_exit(code),
                    Err(description) => Err(DownloadError::LaunchFailure(description)),
                };
                assert(call_ensures(launch, (sent,), o) && r == launch_outcome(o));
                r
            },
        }
    }

    /// Interprets the exit status of a finished run; `None` means it was stopped by a signal.
    pub fn classify_exit(code: Option<i32>) -> (r: Result<(), DownloadError>)
        ensures
            r == exit_outcome(code),
    {
        match code {
            Some(c) => if c == 0 {
                Ok(())
            } else if c == 1 {
                Err(DownloadError::PartialFailure)
            } else {
                Err(DownloadError::FatalFailure(c))
            },
            None => Err(DownloadError::Terminated),
        }
    }
}

/// An audio request whose file type is mp3, m4a or wav (or absent, meaning mp3) is
/// translated, and its arguments ask to extract the audio and convert it to exactly
/// that format.
pub proof fn lemma_audio_request_translates(v: Video, p: PlaylistOptions)
    requires
        v.audio_only,
        is_audio_format(requested_format(v)),
    ensures
        format_supported(v),
        command_args(v, p)[1] == "-f"@,
        command_args(v, p)[2] == "ba/b"@,
        command_args(v, p)[3] == "--extract-audio"@,
        command_args(v, p)[4] == "--audio-format"@,
        command_args(v, p)[5] == requested_format(v),
{
}

/// An audio request whose file type is not mp3, m4a or wav is refused.
pub proof fn lemma_audio_request_refused(v: Video)
    requires
        v.audio_only,
        !is_audio_format(requested_format(v)),
    ensures
        !format_supported(v),
{
}

/// A video request whose file type is mp4 or webm (or absent, meaning mp4) is
/// translated, and its format selector asks first for the best video in that
/// container and falls back to the best single stream in it.
pub proof fn lemma_video_request_translates(v: Video, p: PlaylistOptions)
    requires
        !v.audio_only,
        is_video_format(requested_format(v)),
    ensures
        format_supported(v),
        command_args(v, p)[1] == "-f"@,
        command_args(v, p)[2] == video_selector(requested_format(v)),
        video_selector(requested_format(v)).subrange(
            0,
            ("bestvideo[ext="@.len() + requested_format(v).len()) as int,
        )
            == "bestvideo[ext="@ + requested_format(v),
        video_selector(requested_format(v)).subrange(
            video_selector(requested_format(v)).len() - requested_format(v).len(),
            video_selector(requested_format(v)).len() as int,
        ) == requested_format(v),
{
    let f = requested_format(v);
    let head = "bestvideo[ext="@ + f;
    let rest = "]+bestaudio[ext="@ + companion_audio(f) + "]/"@;
    assert((head + rest + f).subrange(0, head.len() as int) =~= head);
    assert((head + rest + f).subrange((head + rest).len() as int, (head + rest + f).len() as int) =~= f);
    assert(video_selector(f) =~= head + rest + f);
}

/// A video request asks for no audio extraction: no argument is `--extract-audio`,
/// unless the address or a forwarded playlist value is that very text.
pub proof fn lemma_video_request_extracts_nothing(v: Video, p: PlaylistOptions)
    requires
        !v.audio_only,
        format_supported(v),
        v.url@ != "--extract-audio"@,
        differs_from(p.start, "--extract-audio"@),
        differs_from(p.end, "--extract-audio"@),
        differs_from(p.items, "--extract-audio"@),
    ensures
        forall|i: int|
            0 <= i < command_args(v, p).len() ==> #[trigger] command_args(v, p)[i]
                != "--extract-audio"@,
{
    let x = "--extract-audio"@;
    reveal_strlit("--extract-audio");
    reveal_strlit("-f");
    reveal_strlit("-o");
    reveal_strlit(".%(ext)s");
    reveal_strlit("bestvideo[ext=");
    reveal_strlit("--playlist-start");
    reveal_strlit("--playlist-end");
    reveal_strlit("--playlist-items");
    reveal_strlit("--ignore-errors");
    let f = requested_format(v);
    let sel = video_selector(f);
    assert(sel =~= "bestvideo[ext="@ + (f + "]+bestaudio[ext="@ + companion_audio(f) + "]/"@ + f));
    assert(sel[0] == 'b');
    assert("--playlist-end"@[2] != x[2]);
    assert("--ignore-errors"@[2] != x[2]);
    let fa = format_args(v);
    let oa = output_args(v);
    let a = optional_arg("--playlist-start"@, p.start);
    let b = optional_arg("--playlist-end"@, p.end);
    let c = optional_arg("--playlist-items"@, p.items);
    let d = if p.ignore_errors {
        seq!["--ignore-errors"@]
    } else {
        seq![]
    };
    match v.output {
        Some(o) => {
            let t = output_template(o@);
            assert(t[t.len() - 1] == ".%(ext)s"@[7]);
            assert(x[x.len() - 1] != t[t.len() - 1]);
        },
        None => {},
    }
    let all = seq![v.url@] + fa + oa + a + b + c + d;
    assert(command_args(v, p) =~= all);
    assert forall|i: int| 0 <= i < all.len() implies #[trigger] all[i] != x by {
        let n1 = 1 + fa.len();
        let n2 = n1 + oa.len();
        let n3 = n2 + a.len();
        let n4 = n3 + b.len();
        let n5 = n4 + c.len();
        if i == 0 {
        } else if i < n1 {
            assert(all[i] == fa[i - 1]);
        } else if i < n2 {
            assert(all[i] == oa[i - n1]);
        } else if i < n3 {
            assert(all[i] == a[i - n2]);
        } else if i < n4 {
            assert(all[i] == b[i - n3]);
        } else if i < n5 {
            assert(all[i] == c[i - n4]);
        } else {
            assert(all[i] == d[i - n5]);
        }
    }
}

/// A video request whose file type is not mp4 or webm is refused.
pub proof fn lemma_video_request_refused(v: Video)
    requires
        !v.audio_only,
        !is_video_format(requested_format(v)),
    ensures
        !format_supported(v),
{
}

/// With an output name, the arguments that follow the format choice are `-o` and the
/// name followed by the extension placeholder, whatever the file type.
pub proof fn lemma_output_template(v: Video, p: PlaylistOptions)
    requires
        v.output is Some,
    ensures
        command_args(v, p)[1 + format_args(v).len() as int] == "-o"@,
        command_args(v, p)[2 + format_args(v).len() as int] == v.output->Some_0@ + ".%(ext)s"@,
{
}

/// Whether an optional value, when given, differs from a text.
pub open spec fn differs_from(value: Option<String>, t: Seq<char>) -> bool {
    match value {
        Some(s) => s@ != t,
        None => true,
    }
}

/// Whether no argument of a list is the output flag `-o`.
pub open spec fn lacks_output_flag(args: Seq<Seq<char>>) -> bool {
    forall|i: int| 0 <= i < args.len() ==> #[trigger] args[i] != "-o"@
}

proof fn lemma_format_and_playlist_lack_output_flag(v: Video, p: PlaylistOptions)
    requires
        format_supported(v),
        differs_from(p.start, "-o"@),
        differs_from(p.end, "-o"@),
        differs_from(p.items, "-o"@),
    ensures
        lacks_output_flag(format_args(v)),
        lacks_output_flag(playlist_args(p)),
{
    reveal_strlit("-o");
    reveal_strlit("-f");
    reveal_strlit("ba/b");
    reveal_strlit("--extract-audio");
    reveal_strlit("--audio-format");
    reveal_strlit("mp3");
    reveal_strlit("m4a");
    reveal_strlit("wav");
    reveal_strlit("mp4");
    reveal_strlit("webm");
    reveal_strlit("bestvideo[ext=");
    reveal_strlit("--playlist-start");
    reveal_strlit("--playlist-end");
    reveal_strlit("--playlist-items");
    reveal_strlit("--ignore-errors");
    assert("-f"@[1] != "-o"@[1]);
    let f = requested_format(v);
    assert(video_selector(f).len() > 2);
    assert(format_args(v).len() <= 5);
    let a = optional_arg("--playlist-start"@, p.start);
    let b = optional_arg("--playlist-end"@, p.end);
    let c = optional_arg("--playlist-items"@, p.items);
    let d = if p.ignore_errors {
        seq!["--ignore-errors"@]
    } else {
        seq![]
    };
    assert(lacks_output_flag(a));
    assert(lacks_output_flag(b));
    assert(lacks_output_flag(c));
    assert(lacks_output_flag(d));
    assert forall|i: int| 0 <= i < playlist_args(p).len() implies #[trigger] playlist_args(p)[i]
        != "-o"@ by {
        if i < a.len() {
            assert(playlist_args(p)[i] == a[i]);
        } else if i < a.len() + b.len() {
            assert(playlist_args(p)[i] == b[i - a.len()]);
        } else if i < a.len() + b.len() + c.len() {
            assert(playlist_args(p)[i] == c[i - a.len() - b.len()]);
        } else {
            assert(playlist_args(p)[i] == d[i - a.len() - b.len() - c.len()]);
        }
    }
}

/// Without an output name, and with no forwarded playlist value reading `-o`, no
/// argument after the address is the output flag.
pub proof fn lemma_no_output_flag(v: Video, p: PlaylistOptions)
    requires
        v.output is None,
        format_supported(v),
        differs_from(p.start, "-o"@),
        differs_from(p.end, "-o"@),
        differs_from(p.items, "-o"@),
    ensures
        forall|i: int| 1 <= i < command_args(v, p).len() ==> #[trigger] command_args(v, p)[i] != "-o"@,
{
    lemma_format_and_playlist_lack_output_flag(v, p);
    lemma_no_output_template(v, p);
    let fa = format_args(v);
    let pa = playlist_args(p);
    assert forall|i: int| 1 <= i < command_args(v, p).len() implies #[trigger] command_args(v, p)[i]
        != "-o"@ by {
        if i < 1 + fa.len() {
            assert(command_args(v, p)[i] == fa[i - 1]);
        } else {
            assert(command_args(v, p)[i] == pa[i - 1 - fa.len()]);
        }
    }
}

/// With an output name, and with no forwarded playlist value reading `-o`, the
/// output flag appears once after the address: right after the format choice.
pub proof fn lemma_output_flag_once(v: Video, p: PlaylistOptions)
    requires
        v.output is Some,
        format_supported(v),
        differs_from(p.start, "-o"@),
        differs_from(p.end, "-o"@),
        differs_from(p.items, "-o"@),
    ensures
        forall|i: int|
            1 <= i < command_args(v, p).len() && #[trigger] command_args(v, p)[i] == "-o"@ ==> i
                == 1 + format_args(v).len(),
{
    lemma_format_and_playlist_lack_output_flag(v, p);
    reveal_strlit("-o");
    reveal_strlit(".%(ext)s");
    let fa = format_args(v);
    let pa = playlist_args(p);
    let o = v.output->Some_0@;
    assert(output_template(o).len() > 2);
    assert forall|i: int|
        1 <= i < command_args(v, p).len() && #[trigger] command_args(v, p)[i] == "-o"@ implies i
        == 1 + fa.len() by {
        if i < 1 + fa.len() {
            assert(command_args(v, p)[i] == fa[i - 1]);
        } else if i == 2 + fa.len() {
            assert(command_args(v, p)[i] == output_template(o));
        } else if i > 2 + fa.len() {
            assert(command_args(v, p)[i] == pa[i - 3 - fa.len()]);
        }
    }
}

/// The output name `foo` gives the template `foo.%(ext)s`.
pub proof fn lemma_output_template_example()
    ensures
        output_template("foo"@) == "foo.%(ext)s"@,
{
    reveal_strlit("foo");
    reveal_strlit(".%(ext)s");
    reveal_strlit("foo.%(ext)s");
    assert(output_template("foo"@) =~= "foo.%(ext)s"@);
}

/// Without an output name, no output argument is emitted: the playlist arguments
/// follow the format choice directly.
pub proof fn lemma_no_output_template(v: Video, p: PlaylistOptions)
    requires
        v.output is None,
    ensures
        output_args(v) == Seq::<Seq<char>>::empty(),
        command_args(v, p) == seq![v.url@] + format_args(v) + playlist_args(p),
{
    assert(output_args(v) =~= Seq::<Seq<char>>::empty());
    assert(command_args(v, p) =~= seq![v.url@] + format_args(v) + playlist_args(p));
}

/// The arguments depend on the mode, file type, output name and address alone: two
/// requests that differ only in `quality` are translated alike, since the format
/// selector is fully determined by the mode and the file type.
pub proof fn lemma_quality_not_consulted(v: Video, w: Video, p: PlaylistOptions)
    requires
        v.url == w.url,
        v.output == w.output,
        v.audio_only == w.audio_only,
        v.file_type == w.file_type,
    ensures
        command_args(v, p) == command_args(w, p),
        format_supported(v) == format_supported(w),
{
}

} // verus!
