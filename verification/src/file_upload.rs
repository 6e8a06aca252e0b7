//! Checks and decisions for turning a user-picked audio or video file into
//! a 16 kHz mono WAV ready for transcription.

use vstd::prelude::*;

use crate::audio::{string_views, TARGET_CHANNELS, TARGET_SAMPLE_RATE};
use crate::decimal::{
    decimal, i32_to_decimal, lemma_decimal_of_16000_and_1, signed_decimal, u64_to_decimal,
};
use crate::text::{joined, join_strs, same_chars, substring};

verus! {

// ---------------------------------------------------------------------------
// File extensions
// ---------------------------------------------------------------------------

/// Whether `c` separates path components: `/` everywhere, and `\` too
/// where paths are Windows paths.
pub open spec fn is_path_separator(c: char, windows: bool) -> bool {
    c == '/' || (windows && c == '\\')
}

/// Whether `c` is an ASCII letter.
pub open spec fn is_ascii_letter(c: char) -> bool {
    ('a' <= c && c <= 'z') || ('A' <= c && c <= 'Z')
}

/// Whether `s` begins with a Windows drive prefix such as `C:`.
pub open spec fn has_drive_prefix(s: Seq<char>) -> bool {
    s.len() >= 2 && s[1] == ':' && is_ascii_letter(s[0])
}

/// Index just past the last separator of `s`, or 0 when `s` holds none.
pub open spec fn segment_start(s: Seq<char>, windows: bool) -> int
    decreases s.len(),
{
    if s.len() == 0 {
        0
    } else if is_path_separator(s.last(), windows) {
        s.len() as int
    } else {
        segment_start(s.drop_last(), windows)
    }
}

/// The final component of a path without prefix, as `Path::file_name`
/// gives it: trailing separators and `.` components are skipped, and a
/// final `..` (or a path with no normal component at all) has no file name.
pub open spec fn last_component(s: Seq<char>, windows: bool) -> Option<Seq<char>>
    decreases s.len(),
{
    if s.len() == 0 {
        None
    } else if is_path_separator(s.last(), windows) {
        last_component(s.drop_last(), windows)
    } else {
        let seg = s.subrange(segment_start(s, windows), s.len() as int);
        if seg == seq!['.'] {
            last_component(s.drop_last(), windows)
        } else if seg == seq!['.', '.'] {
            None
        } else {
            Some(seg)
        }
    }
}

/// The file name of a path, as `Path::file_name` gives it: on Windows a
/// leading drive prefix such as `C:` is not part of any component. The
/// other Windows prefixes are not recognised: a UNC path
/// (`\\server\share`), a verbatim path (`\\?\...`) or a device path
/// (`\\.\...`) is read here as separators and ordinary components, so
/// that `\\server\share.mp3` has the file name `share.mp3`, where
/// `Path::file_name` on Windows counts the whole text as a prefix and gives none.
pub open spec fn file_name(s: Seq<char>, windows: bool) -> Option<Seq<char>> {
    if windows && has_drive_prefix(s) {
        last_component(s.skip(2), windows)
    } else {
        last_component(s, windows)
    }
}

/// Index of the last `.` of `f`, or -1 when there is none.
pub open spec fn last_dot(f: Seq<char>) -> int
    decreases f.len(),
{
    if f.len() == 0 {
        -1
    } else if f.last() == '.' {
        f.len() - 1
    } else {
        last_dot(f.drop_last())
    }
}

/// The extension of a file name, as `Path::extension` takes it: the text
/// after the last `.`, provided some text stands before that dot.
pub open spec fn extension_of(f: Seq<char>) -> Option<Seq<char>> {
    let d: int = last_dot(f);
    if d <= 0 {
        None
    } else {
        Some(f.subrange(d + 1, f.len() as int))
    }
}

/// The extension of the file that `path` names, if it has one; `windows`
/// says whether paths follow Windows conventions (`\` separators, drive
/// prefixes) or only `/` separates components. Of the Windows prefixes
/// only drive prefixes are recognised (see `file_name`): a path made of a
/// UNC, verbatim or device prefix alone, such as `\\server\share.mp3`,
/// gets an extension here and none from `Path::extension` on Windows.
pub open spec fn path_extension_spec(path: Seq<char>, windows: bool) -> Option<Seq<char>> {
    match file_name(path, windows) {
        Some(f) => extension_of(f),
        None => None,
    }
}

/// Whether `path` reads differently under Windows conventions: it holds a
/// `\` or starts with a drive prefix.
pub open spec fn has_windows_syntax(path: Seq<char>) -> bool {
    has_drive_prefix(path) || path.contains('\\')
}

proof fn lemma_conventions_agree_in(s: Seq<char>)
    requires
        !s.contains('\\'),
    ensures
        segment_start(s, true) == segment_start(s, false),
        last_component(s, true) == last_component(s, false),
    decreases s.len(),
{
    if s.len() > 0 {
        assert(s.last() == s[s.len() - 1]);
        assert(!s.drop_last().contains('\\')) by {
            if s.drop_last().contains('\\') {
                let i = choose|i: int| 0 <= i < s.drop_last().len() && s.drop_last()[i] == '\\';
                assert(s[i] == '\\');
            }
        }
        lemma_conventions_agree_in(s.drop_last());
    }
}

/// Where a path has neither a `\` nor a drive prefix, both conventions
/// give it the same extension.
pub proof fn lemma_conventions_agree(path: Seq<char>)
    requires
        !has_windows_syntax(path),
    ensures
        path_extension_spec(path, true) == path_extension_spec(path, false),
{
    lemma_conventions_agree_in(path);
}

/// Calls `std::path::is_separator('\\')`: whether `\` separates path
/// components on this platform (it does on Windows only). The answer
/// depends on the platform, so nothing is stated of it.
#[verifier::external_body]
fn backslash_separates_paths() -> (b: bool) {
    std::path::is_separator('\\')
}

/// What `str::to_lowercase` returns for a string with the characters `s`.
pub uninterp spec fn lowercase(s: Seq<char>) -> Seq<char>;

/// Calls `str::to_lowercase`; its result is taken to be `lowercase` of the
/// argument (a function of the characters alone). Nothing more is claimed
/// of it here: the Unicode lowercase mapping is not restated.
#[verifier::external_body]
fn to_lowercase(s: &str) -> (r: String)
    ensures
        r@ == lowercase(s@),
{
    s.to_lowercase()
}

/// The file extensions accepted for upload, in the order the error message lists them.
pub open spec fn allowed_extensions_spec() -> Seq<Seq<char>> {
    seq![seq!['m', 'p', '3'], seq!['w', 'a', 'v'], seq!['m', 'p', '4'], seq!['m', '4', 'a']]
}

fn allowed_extensions() -> (v: Vec<&'static str>)
    ensures
        v@.map_values(|p: &str| p@) == allowed_extensions_spec(),
{
    proof {
        reveal_strlit("mp3");
        reveal_strlit("wav");
        reveal_strlit("mp4");
        reveal_strlit("m4a");
    }
    let v = vec!["mp3", "wav", "mp4", "m4a"];
    assert(v@.len() == 4);
    assert(v@[0]@ =~= seq!['m', 'p', '3']);
    assert(v@[1]@ =~= seq!['w', 'a', 'v']);
    assert(v@[2]@ =~= seq!['m', 'p', '4']);
    assert(v@[3]@ =~= seq!['m', '4', 'a']);
    assert(v@.map_values(|p: &str| p@) =~= allowed_extensions_spec());
    v
}

/// The message with which an upload of a file with extension `ext` is refused.
pub open spec fn unsupported_format_message(ext: Seq<char>) -> Seq<char> {
    "Unsupported file format '."@ + ext + "'. Accepted formats: "@ + joined(
        allowed_extensions_spec(),
        ", "@,
    )
}

/// The lowercased extension of `path`, empty when it has none.
pub open spec fn lowered_extension(path: Seq<char>, windows: bool) -> Seq<char> {
    lowercase(
        match path_extension_spec(path, windows) {
            Some(e) => e,
            None => Seq::empty(),
        },
    )
}

fn is_separator_char(c: char, windows: bool) -> (b: bool)
    ensures
        b == is_path_separator(c, windows),
{
    c == '/' || (windows && c == '\\')
}

fn segment_start_in(s: &str, from: usize, end: usize, windows: bool) -> (k: usize)
    requires
        from <= end <= s@.len(),
    ensures
        k == from + segment_start(s@.subrange(from as int, end as int), windows),
        from <= k <= end,
{
    let mut j: usize = end;
    while j > from && !is_separator_char(s.get_char(j - 1), windows)
        invariant
            from <= j <= end <= s@.len(),
            segment_start(s@.subrange(from as int, end as int), windows) + from == segment_start(
                s@.subrange(from as int, j as int),
                windows,
            ) + from,
        decreases j,
    {
        assert(s@.subrange(from as int, j as int).drop_last() =~= s@.subrange(
            from as int,
            j - 1,
        ));
        j -= 1;
    }
    if j > from {
        assert(s@.subrange(from as int, j as int).last() == s@[j - 1]);
    }
    j
}

fn last_dot_in(s: &str, from: usize, end: usize) -> (d: Option<usize>)
    requires
        from <= end <= s@.len(),
    ensures
        match d {
            Some(i) => from <= i < end && last_dot(s@.subrange(from as int, end as int)) == i
                - from,
            None => last_dot(s@.subrange(from as int, end as int)) == -1,
        },
{
    let mut j: usize = end;
    while j > from && s.get_char(j - 1) != '.'
        invariant
            from <= j <= end <= s@.len(),
            last_dot(s@.subrange(from as int, end as int)) == last_dot(
                s@.subrange(from as int, j as int),
            ),
        decreases j,
    {
        assert(s@.subrange(from as int, j as int).drop_last() =~= s@.subrange(
            from as int,
            j - 1,
        ));
        j -= 1;
    }
    if j > from {
        Some(j - 1)
    } else {
        None
    }
}

fn is_ascii_letter_char(c: char) -> (b: bool)
    ensures
        b == is_ascii_letter(c),
{
    ('a' <= c && c <= 'z') || ('A' <= c && c <= 'Z')
}

/// The extension of the file that `path` names under the given path
/// conventions, as `Path::new(path).extension()` gives it.
pub fn path_extension_for(path: &str, windows: bool) -> (r: Option<String>)
    ensures
        match r {
            Some(e) => path_extension_spec(path@, windows) == Some(e@),
            None => path_extension_spec(path@, windows) is None,
        },
{
    let n: usize = path.unicode_len();
    let base: usize = if windows && n >= 2 && path.get_char(1) == ':' && is_ascii_letter_char(
        path.get_char(0),
    ) {
        2
    } else {
        0
    };
    let ghost body = path@.subrange(base as int, n as int);
    assert(file_name(path@, windows) == last_component(body, windows)) by {
        if base == 0 {
            assert(body =~= path@);
        } else {
            assert(body =~= path@.skip(2));
        }
    }
    let mut end: usize = n;
    loop
        invariant
            base <= end <= n,
            n == path@.len(),
            file_name(path@, windows) == last_component(
                path@.subrange(base as int, end as int),
                windows,
            ),
        decreases end,
    {
        let ghost cur = path@.subrange(base as int, end as int);
        if end == base {
            assert(cur.len() == 0);
            return None;
        }
        assert(cur.drop_last() =~= path@.subrange(base as int, end - 1));
        assert(cur.last() == path@[end - 1]);
        if is_separator_char(path.get_char(end - 1), windows) {
            end -= 1;
        } else {
            let k: usize = segment_start_in(path, base, end, windows);
            assert(cur.subrange(k - base, end - base) =~= path@.subrange(k as int, end as int));
            if end - k == 1 && path.get_char(k) == '.' {
                assert(path@.subrange(k as int, end as int) =~= seq!['.']);
                end -= 1;
            } else if end - k == 2 && path.get_char(k) == '.' && path.get_char(k + 1) == '.' {
                assert(path@.subrange(k as int, end as int) =~= seq!['.', '.']);
                return None;
            } else {
                proof {
                    if end - k == 1 {
                        assert(path@.subrange(k as int, end as int)[0] != '.');
                    }
                    if end - k == 2 {
                        assert(path@.subrange(k as int, end as int)[0] != '.' || path@.subrange(
                            k as int,
                            end as int,
                        )[1] != '.');
                    }
                }
                let ghost f = path@.subrange(k as int, end as int);
                assert(file_name(path@, windows) == Some(f));
                let d = last_dot_in(path, k, end);
                match d {
                    Some(i) => {
                        if i == k {
                            return None;
                        }
                        let e = substring(path, i + 1, end);
                        assert(e@ =~= f.subrange(i - k + 1, f.len() as int));
                        return Some(e);
                    },
                    None => {
                        return None;
                    },
                }
            }
        }
    }
}

/// The extension of the file that `path` names, as
/// `Path::new(path).extension()` gives it on this platform: under one of
/// the two path conventions, and under both alike where `path` holds no
/// `\` and no drive prefix.
pub fn path_extension(path: &str) -> (r: Option<String>)
    ensures
        exists|windows: bool|
            match r {
                Some(e) => path_extension_spec(path@, windows) == Some(e@),
                None => path_extension_spec(path@, windows) is None,
            },
        !has_windows_syntax(path@) ==> match r {
            Some(e) => path_extension_spec(path@, false) == Some(e@),
            None => path_extension_spec(path@, false) is None,
        },
{
    let windows = backslash_separates_paths();
    let r = path_extension_for(path, windows);
    proof {
        if !has_windows_syntax(path@) {
            lemma_conventions_agree(path@);
        }
    }
    r
}

/// Accepts an already lowercased extension when it is one of the allowed
/// formats, and otherwise refuses it with the message that lists them.
pub fn check_extension(ext: &str) -> (r: Result<(), String>)
    ensures
        r is Ok <==> allowed_extensions_spec().contains(ext@),
        r matches Err(m) ==> m@ == unsupported_format_message(ext@),
{
    let allowed = allowed_extensions();
    let ghost views = allowed@.map_values(|p: &str| p@);
    let mut i: usize = 0;
    while i < allowed.len()
        invariant
            i <= allowed.len(),
            views == allowed@.map_values(|p: &str| p@),
            views == allowed_extensions_spec(),
            forall|j: int| 0 <= j < i ==> views[j] != ext@,
        decreases allowed.len() - i,
    {
        if same_chars(allowed[i], ext) {
            assert(views[i as int] == ext@);
            return Ok(());
        }
        i += 1;
    }
    assert(!allowed_extensions_spec().contains(ext@));
    let list = join_strs(&allowed, ", ");
    let mut m = String::from_str("Unsupported file format '.");
    m.append(ext);
    m.append("'. Accepted formats: ");
    m.append(list.as_str());
    Err(m)
}

/// Accepts `path` when its extension under the given path conventions,
/// lowercased, is mp3, wav, mp4 or m4a; otherwise refuses it with a
/// message naming the extension found (empty when there is none) and the
/// accepted formats.
pub fn validate_extension_for(path: &str, windows: bool) -> (r: Result<(), String>)
    ensures
        r is Ok <==> extension_accepted(path@, windows),
        r matches Err(m) ==> m@ == unsupported_format_message(lowered_extension(path@, windows)),
{
    let raw = match path_extension_for(path, windows) {
        Some(e) => e,
        None => String::new(),
    };
    let ext = to_lowercase(raw.as_str());
    check_extension(ext.as_str())
}

/// Validates the extension of `path` as `validate_extension_for` does
/// under this platform's path conventions; where `path` holds no `\` and
/// no drive prefix, the conventions agree.
pub fn validate_extension(path: &str) -> (r: Result<(), String>)
    ensures
        exists|windows: bool|
            {
                &&& r is Ok <==> extension_accepted(path@, windows)
                &&& r matches Err(m) ==> m@ == unsupported_format_message(
                    lowered_extension(path@, windows),
                )
            },
        !has_windows_syntax(path@) ==> {
            &&& r is Ok <==> extension_accepted(path@, false)
            &&& r matches Err(m) ==> m@ == unsupported_format_message(
                lowered_extension(path@, false),
            )
        },
{
    let windows = backslash_separates_paths();
    let r = validate_extension_for(path, windows);
    proof {
        if !has_windows_syntax(path@) {
            lemma_conventions_agree(path@);
        }
    }
    r
}

// ---------------------------------------------------------------------------
// Conversion
// ---------------------------------------------------------------------------

/// The ffmpeg arguments that convert `input` into a 16 kHz mono 16-bit PCM WAV at `out`.
pub open spec fn conversion_args_spec(input: Seq<char>, out: Seq<char>) -> Seq<Seq<char>> {
    seq![
        "-i"@,
        input,
        "-ar"@,
        decimal(TARGET_SAMPLE_RATE as nat),
        "-ac"@,
        decimal(TARGET_CHANNELS as nat),
        "-c:a"@,
        "pcm_s16le"@,
        "-y"@,
        out,
    ]
}

/// Every upload is converted to 16 kHz mono 16-bit PCM, whatever the
/// input is: ffmpeg reads the input path as given, is told `-ar 16000` and
/// `-ac 1`, and writes to the output path as given, which comes last.
pub proof fn lemma_conversion_always_resamples(input: Seq<char>, out: Seq<char>)
    ensures
        conversion_args_spec(input, out).len() == 10,
        conversion_args_spec(input, out)[0] == "-i"@,
        conversion_args_spec(input, out)[1] == input,
        conversion_args_spec(input, out)[2] == "-ar"@,
        conversion_args_spec(input, out)[3] == seq!['1', '6', '0', '0', '0'],
        conversion_args_spec(input, out)[4] == "-ac"@,
        conversion_args_spec(input, out)[5] == seq!['1'],
        conversion_args_spec(input, out)[9] == out,
{
    lemma_decimal_of_16000_and_1();
}

/// The arguments of the ffmpeg run that converts an uploaded file.
pub fn conversion_args(input: &str, out: &str) -> (v: Vec<String>)
    ensures
        string_views(v@) == conversion_args_spec(input@, out@),
        v@.len() == 10,
        v@[1]@ == input@,
        v@[2]@ == "-ar"@,
        v@[3]@ == seq!['1', '6', '0', '0', '0'],
        v@[4]@ == "-ac"@,
        v@[5]@ == seq!['1'],
        v@[9]@ == out@,
{
    proof {
        lemma_conversion_always_resamples(input@, out@);
    }
    let mut v: Vec<String> = Vec::new();
    v.push(String::from_str("-i"));
    v.push(String::from_str(input));
    v.push(String::from_str("-ar"));
    v.push(u64_to_decimal(TARGET_SAMPLE_RATE as u64));
    v.push(String::from_str("-ac"));
    v.push(u64_to_decimal(TARGET_CHANNELS as u64));
    v.push(String::from_str("-c:a"));
    v.push(String::from_str("pcm_s16le"));
    v.push(String::from_str("-y"));
    v.push(String::from_str(out));
    assert(string_views(v@) =~= conversion_args_spec(input@, out@));
    v
}

/// Number of whole frames in `samples` interleaved samples of `channels` channels.
pub fn wav_frame_count(samples: u64, channels: u16) -> (frames: u64)
    requires
        channels > 0,
    ensures
        frames == samples / (channels as u64),
{
    samples / (channels as u64)
}

/// How the ffmpeg conversion run ended.
pub enum ConversionOutcome {
    /// ffmpeg could not be run; the text describes why.
    LaunchFailed(String),
    /// ffmpeg ran and exited; `code` is its exit code when it has one.
    Exited { success: bool, code: Option<i32> },
}

/// What was read back from the converted WAV file.
#[derive(Clone, Copy, Debug)]
pub struct WavCounts {
    /// Number of samples that decoded, over all channels.
    pub samples: u64,
    pub channels: u16,
    pub sample_rate: u32,
}

/// Where an upload stands.
#[derive(PartialEq, Eq, Structural, Clone, Copy, Debug)]
pub enum UploadStage {
    /// Waiting to learn whether ffmpeg can be run.
    CheckingTool,
    /// Waiting to learn whether the input file exists.
    CheckingInput,
    /// Waiting for the ffmpeg conversion to end.
    Converting,
    /// Waiting for the converted file to be measured.
    Measuring,
    /// Finished or failed.
    Done,
}

/// What the app reports back to an upload.
pub enum UploadEvent {
    /// Whether `ffmpeg -version` ran successfully.
    FfmpegProbed(bool),
    /// Whether the input file exists.
    InputChecked(bool),
    /// How the conversion run ended.
    Converted(ConversionOutcome),
    /// What was read from the converted file, or why it could not be opened.
    Measured(Result<WavCounts, String>),
}

/// What the upload asks the app to do next.
pub enum UploadAction {
    /// Check whether the input file exists.
    CheckInputExists(String),
    /// Run ffmpeg with these arguments.
    RunFfmpeg(Vec<String>),
    /// Read the converted file at this path.
    MeasureOutput(String),
    /// The upload succeeded: the converted file and its length in frames at `sample_rate`.
    Finish { normalized_path: String, frames: u64, sample_rate: u32 },
    /// The upload failed with this error.
    Fail(String),
}

/// Whether `event` is what an upload at `stage` waits for.
pub open spec fn upload_expects(stage: UploadStage, event: UploadEvent) -> bool {
    match stage {
        UploadStage::CheckingTool => event is FfmpegProbed,
        UploadStage::CheckingInput => event is InputChecked,
        UploadStage::Converting => event is Converted,
        UploadStage::Measuring => event is Measured,
        UploadStage::Done => false,
    }
}

/// Whether the extension of `path`, under the given path conventions, is accepted.
pub open spec fn extension_accepted(path: Seq<char>, windows: bool) -> bool {
    allowed_extensions_spec().contains(lowered_extension(path, windows))
}

/// The stage an upload of `path` reaches from `stage` on `event`; an event
/// it does not wait for ends it.
pub open spec fn upload_next_stage(
    stage: UploadStage,
    path: Seq<char>,
    windows: bool,
    event: UploadEvent,
) -> UploadStage {
    match (stage, event) {
        (UploadStage::CheckingTool, UploadEvent::FfmpegProbed(ok)) => if ok && extension_accepted(
            path,
            windows,
        ) {
            UploadStage::CheckingInput
        } else {
            UploadStage::Done
        },
        (UploadStage::CheckingInput, UploadEvent::InputChecked(exists)) => if exists {
            UploadStage::Converting
        } else {
            UploadStage::Done
        },
        (UploadStage::Converting, UploadEvent::Converted(outcome)) => match outcome {
            ConversionOutcome::Exited { success: true, .. } => UploadStage::Measuring,
            _ => UploadStage::Done,
        },
        _ => UploadStage::Done,
    }
}

/// Whether the step of an upload of `path` at `stage` on `event` starts the conversion.
pub open spec fn upload_converts(
    stage: UploadStage,
    path: Seq<char>,
    windows: bool,
    event: UploadEvent,
) -> bool {
    upload_next_stage(stage, path, windows, event) == UploadStage::Converting
}

/// The error reported when ffmpeg exits with a failure status.
pub open spec fn conversion_failed_message(code: Option<i32>) -> Seq<char> {
    "ffmpeg failed to convert the file (exit code: "@ + signed_decimal(
        match code {
            Some(c) => c as int,
            None => -1,
        },
    ) + "). The file may be corrupted or in an unexpected format."@
}

/// The message with which an upload fails when ffmpeg cannot be run.
pub open spec fn ffmpeg_missing_message() -> Seq<char> {
    "ffmpeg not found on PATH — please reinstall the app or install ffmpeg"@
}

/// An upload of one file: it checks for ffmpeg, the file's extension and
/// existence, converts it to a 16 kHz mono WAV and measures the result.
/// The app starts by probing for ffmpeg and then feeds each outcome to `step`.
pub struct UploadFlow {
    file_path: String,
    output_path: String,
    windows: bool,
    stage: UploadStage,
}

impl UploadFlow {
    /// An upload that got past the tool check and is still running has a
    /// file with an accepted extension.
    #[verifier::type_invariant]
    spec fn well_formed(&self) -> bool {
        (self.stage == UploadStage::CheckingInput || self.stage == UploadStage::Converting
            || self.stage == UploadStage::Measuring) ==> extension_accepted(
            self.file_path@,
            self.windows,
        )
    }

    pub closed spec fn stage(&self) -> UploadStage {
        self.stage
    }

    pub closed spec fn file_path_spec(&self) -> Seq<char> {
        self.file_path@
    }

    pub closed spec fn output_path_spec(&self) -> Seq<char> {
        self.output_path@
    }

    /// Whether the upload reads its path under Windows conventions.
    pub closed spec fn windows_paths(&self) -> bool {
        self.windows
    }

    /// An upload of `file_path` whose converted WAV goes to `output_path`,
    /// reading paths under this platform's conventions.
    pub fn new(file_path: String, output_path: String) -> (f: Self)
        ensures
            f.stage() == UploadStage::CheckingTool,
            f.file_path_spec() == file_path@,
            f.output_path_spec() == output_path@,
    {
        let windows = backslash_separates_paths();
        Self::new_for(file_path, output_path, windows)
    }

    /// An upload of `file_path` whose converted WAV goes to `output_path`,
    /// reading paths under the given conventions.
    pub fn new_for(file_path: String, output_path: String, windows: bool) -> (f: Self)
        ensures
            f.stage() == UploadStage::CheckingTool,
            f.file_path_spec() == file_path@,
            f.output_path_spec() == output_path@,
            f.windows_paths() == windows,
    {
        UploadFlow { file_path, output_path, windows, stage: UploadStage::CheckingTool }
    }

    /// Where the upload stands.
    pub fn current_stage(&self) -> (s: UploadStage)
        ensures
            s == self.stage(),
    {
        self.stage
    }

    /// Advances the upload on `event` and says what to do next.
    pub fn step(&mut self, event: UploadEvent) -> (a: UploadAction)
        requires
            upload_expects(old(self).stage(), event),
            event matches UploadEvent::Measured(Ok(c)) ==> c.channels > 0,
        ensures
            final(self).stage() == upload_next_stage(
                old(self).stage(),
                old(self).file_path_spec(),
                old(self).windows_paths(),
                event,
            ),
            final(self).windows_paths() == old(self).windows_paths(),
            final(self).file_path_spec() == old(self).file_path_spec(),
            final(self).output_path_spec() == old(self).output_path_spec(),
            a is RunFfmpeg <==> upload_converts(
                old(self).stage(),
                old(self).file_path_spec(),
                old(self).windows_paths(),
                event,
            ),
            match event {
                UploadEvent::FfmpegProbed(ok) => if !ok {
                    a matches UploadAction::Fail(m) && m@ == ffmpeg_missing_message()
                } else if !extension_accepted(old(self).file_path_spec(), old(self).windows_paths()) {
                    a matches UploadAction::Fail(m) && m@ == unsupported_format_message(
                        lowered_extension(old(self).file_path_spec(), old(self).windows_paths()),
                    )
                } else {
                    a matches UploadAction::CheckInputExists(p) && p@ == old(self).file_path_spec()
                },
                UploadEvent::InputChecked(exists) => if exists {
                    a matches UploadAction::RunFfmpeg(args) && string_views(args@)
                        == conversion_args_spec(
                        old(self).file_path_spec(),
                        old(self).output_path_spec(),
                    )
                } else {
                    a matches UploadAction::Fail(m) && m@ == "File not found: "@ + old(
                        self,
                    ).file_path_spec()
                },
                UploadEvent::Converted(outcome) => match outcome {
                    ConversionOutcome::LaunchFailed(e) => a matches UploadAction::Fail(m) && m@
                        == "Failed to run ffmpeg: "@ + e@,
                    ConversionOutcome::Exited { success, code } => if success {
                        a matches UploadAction::MeasureOutput(p) && p@ == old(self).output_path_spec()
                    } else {
                        a matches UploadAction::Fail(m) && m@ == conversion_failed_message(code)
                    },
                },
                UploadEvent::Measured(measured) => match measured {
                    Ok(c) => a matches UploadAction::Finish { normalized_path, frames, sample_rate }
                        && normalized_path@ == old(self).output_path_spec() && frames == c.samples
                        / (c.channels as u64) && sample_rate == c.sample_rate,
                    Err(e) => a matches UploadAction::Fail(m) && m@ == "Failed to open output WAV: "@
                        + e@,
                },
            },
            final(self).stage() != UploadStage::Done && final(self).stage()
                != UploadStage::CheckingTool ==> extension_accepted(
                final(self).file_path_spec(),
                final(self).windows_paths(),
            ),
    {
        proof {
            use_type_invariant(&*self);
        }
        match event {
            UploadEvent::FfmpegProbed(ok) => {
                if !ok {
                    self.stage = UploadStage::Done;
                    return UploadAction::Fail(
                        String::from_str(
                            "ffmpeg not found on PATH — please reinstall the app or install ffmpeg",
                        ),
                    );
                }
                match validate_extension_for(self.file_path.as_str(), self.windows) {
                    Err(m) => {
                        self.stage = UploadStage::Done;
                        UploadAction::Fail(m)
                    },
                    Ok(()) => {
                        self.stage = UploadStage::CheckingInput;
                        UploadAction::CheckInputExists(self.file_path.clone())
                    },
                }
            },
            UploadEvent::InputChecked(exists) => {
                if exists {
                    self.stage = UploadStage::Converting;
                    UploadAction::RunFfmpeg(
                        conversion_args(self.file_path.as_str(), self.output_path.as_str()),
                    )
                } else {
                    self.stage = UploadStage::Done;
                    let mut m = String::from_str("File not found: ");
                    m.append(self.file_path.as_str());
                    UploadAction::Fail(m)
                }
            },
            UploadEvent::Converted(outcome) => match outcome {
                ConversionOutcome::LaunchFailed(e) => {
                    self.stage = UploadStage::Done;
                    let mut m = String::from_str("Failed to run ffmpeg: ");
                    m.append(e.as_str());
                    UploadAction::Fail(m)
                },
                ConversionOutcome::Exited { success, code } => {
                    if success {
                        self.stage = UploadStage::Measuring;
                        UploadAction::MeasureOutput(self.output_path.clone())
                    } else {
                        self.stage = UploadStage::Done;
                        let shown: i32 = match code {
                            Some(c) => c,
                            None => -1,
                        };
                        let mut m = String::from_str(
                            "ffmpeg failed to convert the file (exit code: ",
                        );
                        let digits = i32_to_decimal(shown);
                        m.append(digits.as_str());
                        m.append("). The file may be corrupted or in an unexpected format.");
                        UploadAction::Fail(m)
                    }
                },
            },
            UploadEvent::Measured(measured) => {
                self.stage = UploadStage::Done;
                match measured {
                    Ok(c) => UploadAction::Finish {
                        normalized_path: self.output_path.clone(),
                        frames: wav_frame_count(c.samples, c.channels),
                        sample_rate: c.sample_rate,
                    },
                    Err(e) => {
                        let mut m = String::from_str("Failed to open output WAV: ");
                        m.append(e.as_str());
                        UploadAction::Fail(m)
                    },
                }
            },
        }
    }
}

/// The stage an upload of `path` reaches after `events`, from the start.
pub open spec fn stage_after(path: Seq<char>, windows: bool, events: Seq<UploadEvent>) -> UploadStage
    decreases events.len(),
{
    if events.len() == 0 {
        UploadStage::CheckingTool
    } else {
        upload_next_stage(
            stage_after(path, windows, events.drop_last()),
            path,
            windows,
            events.last(),
        )
    }
}

/// How far along an upload stage is.
pub open spec fn stage_rank(s: UploadStage) -> nat {
    match s {
        UploadStage::CheckingTool => 0,
        UploadStage::CheckingInput => 1,
        UploadStage::Converting => 2,
        UploadStage::Measuring => 3,
        UploadStage::Done => 4,
    }
}

proof fn lemma_stage_progress(path: Seq<char>, windows: bool, events: Seq<UploadEvent>)
    ensures
        stage_rank(stage_after(path, windows, events)) >= if events.len() < 4 {
            events.len()
        } else {
            4
        },
    decreases events.len(),
{
    if events.len() > 0 {
        lemma_stage_progress(path, windows, events.drop_last());
    }
}

/// Whatever the app reports, an upload converts a file at most once, and
/// only right after being told, in this order, that ffmpeg can be run and
/// that the file exists, and only when the file's extension is accepted.
pub proof fn lemma_conversion_requires_checks(
    path: Seq<char>,
    windows: bool,
    events: Seq<UploadEvent>,
    i: int,
)
    requires
        0 <= i < events.len(),
        upload_converts(stage_after(path, windows, events.take(i)), path, windows, events[i]),
    ensures
        i == 1,
        events[0] == UploadEvent::FfmpegProbed(true),
        events[1] == UploadEvent::InputChecked(true),
        extension_accepted(path, windows),
{
    let before = stage_after(path, windows, events.take(i));
    assert(before == UploadStage::CheckingInput);
    lemma_stage_progress(path, windows, events.take(i));
    if i == 0 {
        assert(events.take(0) =~= Seq::<UploadEvent>::empty());
    }
    assert(i == 1);
    assert(events.take(1).drop_last() =~= Seq::<UploadEvent>::empty());
    assert(events.take(1).last() == events[0]);
}

} // verus!
