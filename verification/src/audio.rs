//! Recording session bookkeeping and the pure parts of audio capture:
//! file naming, the ffmpeg loudness-normalisation command, and decoding of
//! raw little-endian PCM frames delivered by the system-audio loopback.

use vstd::prelude::*;

use std::collections::VecDeque;

use crate::decimal::{
    all_digits, decimal, digit_value, is_digit, lemma_decimal_of_16000_and_1, u64_to_decimal,
};

verus! {

/// Sample rate of every WAV file the app writes or hands to the transcriber.
pub const TARGET_SAMPLE_RATE: u32 = 16000;

/// Channel count of every WAV file the app writes or hands to the transcriber.
pub const TARGET_CHANNELS: u16 = 1;

// ---------------------------------------------------------------------------
// Identifiers and clock
// ---------------------------------------------------------------------------

/// Whether `c` is a lowercase hexadecimal digit.
pub open spec fn is_lower_hex(c: char) -> bool {
    ('0' <= c && c <= '9') || ('a' <= c && c <= 'f')
}

/// Whether `s` is the lowercase hyphenated text of a version-4 UUID,
/// such as `67e55044-10b1-426f-9247-bb680e5fe0c8`.
pub open spec fn is_uuid_v4_text(s: Seq<char>) -> bool {
    &&& s.len() == 36
    &&& forall|i: int|
        0 <= i < 36 ==> if i == 8 || i == 13 || i == 18 || i == 23 {
            #[trigger] s[i] == '-'
        } else {
            is_lower_hex(s[i])
        }
    &&& s[14] == '4'
    &&& (s[19] == '8' || s[19] == '9' || s[19] == 'a' || s[19] == 'b')
}

/// Calls `uuid::Uuid::new_v4()` and renders it with `to_string()`. The value
/// is random; the contract states the shape every outcome has: the
/// lowercase hyphenated form, version digit `4`, RFC 4122 variant digit.
#[verifier::external_body]
fn new_uuid_v4_text() -> (s: String)
    ensures
        is_uuid_v4_text(s@),
{
    uuid::Uuid::new_v4().to_string()
}

/// The offset suffix that RFC 3339 text of a UTC time ends with.
pub open spec fn utc_offset_suffix() -> Seq<char> {
    seq!['+', '0', '0', ':', '0', '0']
}

/// The number written by the two digits of `s` at `i` and `i + 1`.
pub open spec fn two_digit_value(s: Seq<char>, i: int) -> nat {
    digit_value(s[i]) * 10 + digit_value(s[i + 1])
}

/// Whether `d` is a calendar date `YYYY-MM-DD`: a year of four digits (or,
/// before year 0 and after year 9999, a sign and at least four digits), a
/// month 01..=12 and a day 01..=31.
pub open spec fn is_date_text(d: Seq<char>) -> bool {
    let n = d.len();
    let year = d.subrange(0, n - 6);
    &&& n >= 10
    &&& d[n - 6] == '-'
    &&& d[n - 3] == '-'
    &&& is_digit(d[n - 5]) && is_digit(d[n - 4]) && is_digit(d[n - 2]) && is_digit(d[n - 1])
    &&& 1 <= two_digit_value(d, n - 5) <= 12
    &&& 1 <= two_digit_value(d, n - 2) <= 31
    &&& ((year.len() == 4 && all_digits(year)) || (year.len() >= 5 && (year[0] == '+' || year[0]
        == '-') && all_digits(year.skip(1))))
}

/// Whether `t` is a time of day `HH:MM:SS` with hour 00..=23, minute
/// 00..=59 and second 00..=60 (60 for a leap second).
pub open spec fn is_time_text(t: Seq<char>) -> bool {
    &&& t.len() == 8
    &&& t[2] == ':'
    &&& t[5] == ':'
    &&& is_digit(t[0]) && is_digit(t[1]) && is_digit(t[3]) && is_digit(t[4]) && is_digit(t[6])
        && is_digit(t[7])
    &&& two_digit_value(t, 0) <= 23
    &&& two_digit_value(t, 3) <= 59
    &&& two_digit_value(t, 6) <= 60
}

/// Whether `f` is a fraction of a second as chrono writes it: nothing, or
/// a `.` followed by 3, 6 or 9 digits.
pub open spec fn is_fraction_text(f: Seq<char>) -> bool {
    f.len() == 0 || (f[0] == '.' && (f.len() == 4 || f.len() == 7 || f.len() == 10) && all_digits(
        f.skip(1),
    ))
}

/// Whether `s` is an RFC 3339 date and time in UTC, such as
/// `2024-05-01T09:30:00.123+00:00`: a date, `T`, a time of day, an
/// optional fraction of a second and the `+00:00` offset.
pub open spec fn is_rfc3339_utc_text(s: Seq<char>) -> bool {
    exists|t: int|
        #![trigger s[t]]
        {
            &&& 10 <= t
            &&& t + 15 <= s.len()
            &&& s[t] == 'T'
            &&& is_date_text(s.subrange(0, t))
            &&& is_time_text(s.subrange(t + 1, t + 9))
            &&& is_fraction_text(s.subrange(t + 9, s.len() - 6))
            &&& s.subrange(s.len() - 6, s.len() as int) == utc_offset_suffix()
        }
}

/// Declares `std::time::SystemTime`, so that a reading of the system clock
/// can be carried through verified code.
#[verifier::external_type_specification]
#[verifier::external_body]
pub struct ExSystemTime(std::time::SystemTime);

/// Calls `std::time::SystemTime::now()`. The reading depends on the clock;
/// nothing is promised of it.
#[verifier::external_body]
fn system_now() -> std::time::SystemTime {
    std::time::SystemTime::now()
}

/// Calls `t.duration_since(std::time::UNIX_EPOCH)`: `Ok` with the time
/// elapsed since the Unix epoch where `t` is not before it, otherwise the
/// error's `duration()`, how far `t` lies before the epoch. Both are opaque
/// here; their parts are read with `whole_seconds` and `subsec_nanos`.
#[verifier::external_body]
fn since_unix_epoch(t: &std::time::SystemTime) -> Result<
    std::time::Duration,
    std::time::Duration,
> {
    match t.duration_since(std::time::UNIX_EPOCH) {
        Ok(d) => Ok(d),
        Err(e) => Err(e.duration()),
    }
}

/// Calls `std::time::Duration::as_secs`, the whole seconds of `d`.
#[verifier::external_body]
fn whole_seconds(d: &std::time::Duration) -> u64 {
    d.as_secs()
}

/// Calls `std::time::Duration::subsec_nanos`, the part of `d` below a
/// second in nanoseconds, which std documents to be less than one billion.
#[verifier::external_body]
fn subsec_nanos(d: &std::time::Duration) -> (n: u32)
    ensures
        n < 1_000_000_000,
{
    d.subsec_nanos()
}

/// The Unix timestamp of a clock reading that lies `secs` seconds and
/// `nanos` nanoseconds after the epoch (`after_epoch`) or before it: whole
/// seconds since 1970-01-01T00:00:00Z rounded down, and the nanoseconds
/// past them.
pub open spec fn unix_timestamp_spec(after_epoch: bool, secs: u64, nanos: u32) -> (int, int) {
    if after_epoch {
        (secs as int, nanos as int)
    } else if nanos == 0 {
        (-secs, 0)
    } else {
        (-secs - 1, 1_000_000_000 - nanos)
    }
}

/// Turns a distance from the Unix epoch into a timestamp. `None` where
/// `nanos` is not below one billion or the seconds do not fit an `i64`.
pub fn unix_timestamp(after_epoch: bool, secs: u64, nanos: u32) -> (r: Option<(i64, u32)>)
    ensures
        match r {
            Some((s, n)) => {
                &&& nanos < 1_000_000_000
                &&& (s as int, n as int) == unix_timestamp_spec(after_epoch, secs, nanos)
            },
            None => nanos >= 1_000_000_000 || !(i64::MIN <= unix_timestamp_spec(
                after_epoch,
                secs,
                nanos,
            ).0 <= i64::MAX),
        },
{
    if nanos >= 1_000_000_000 {
        return None;
    }
    if after_epoch {
        if secs <= 0x7fff_ffff_ffff_ffff {
            Some((secs as i64, nanos))
        } else {
            None
        }
    } else if nanos == 0 {
        if secs <= 0x7fff_ffff_ffff_ffff {
            Some((-(secs as i64), 0))
        } else if secs == 0x8000_0000_0000_0000 {
            Some((i64::MIN, 0))
        } else {
            None
        }
    } else if secs <= 0x7fff_ffff_ffff_ffff {
        Some((-(secs as i64) - 1, 1_000_000_000 - nanos))
    } else {
        None
    }
}

/// What chrono's `to_rfc3339()` writes for the UTC time at Unix timestamp
/// `secs` and `nanos`, or `None` where `DateTime::<Utc>::from_timestamp`
/// gives no time.
pub uninterp spec fn rfc3339_of_timestamp(secs: i64, nanos: u32) -> Option<Seq<char>>;

/// Whether chrono's calendar holds the timestamp `secs`, `nanos`: a valid
/// nanosecond count and seconds within about 253 000 years of 1970 (chrono
/// reaches from year -262143 to year 262142).
pub open spec fn timestamp_in_calendar(secs: i64, nanos: u32) -> bool {
    &&& nanos < 1_000_000_000
    &&& -8_000_000_000_000 <= secs <= 8_000_000_000_000
}

/// Calls `chrono::DateTime::<chrono::Utc>::from_timestamp(secs, nanos)` and
/// renders the time with `to_rfc3339()`. The text is named by
/// `rfc3339_of_timestamp`; the contract adds that it has the shape
/// chrono's RFC 3339 writer gives a UTC time (date, `T`, time of day, a
/// fraction of 0, 3, 6 or 9 digits, `+00:00`), and that a timestamp within
/// the calendar gives a time.
#[verifier::external_body]
fn rfc3339_from_timestamp(secs: i64, nanos: u32) -> (r: Option<String>)
    ensures
        match r {
            Some(s) => rfc3339_of_timestamp(secs, nanos) == Some(s@) && is_rfc3339_utc_text(s@),
            None => rfc3339_of_timestamp(secs, nanos) is None,
        },
        timestamp_in_calendar(secs, nanos) ==> r is Some,
{
    match chrono::DateTime::<chrono::Utc>::from_timestamp(secs, nanos) {
        Some(t) => Some(t.to_rfc3339()),
        None => None,
    }
}

// ---------------------------------------------------------------------------
// Recording session
// ---------------------------------------------------------------------------

/// What `start_recording` answers when a recording has begun.
#[derive(Debug)]
pub struct StartRecordingResponse {
    pub recording_id: String,
    pub started_at: String,
    pub mic_enabled: bool,
}

impl StartRecordingResponse {
    /// The answer for a recording that started at Unix timestamp `secs`,
    /// `nanos`, stamped with that time in RFC 3339 UTC form. `None` where
    /// chrono's calendar has no such time.
    pub fn started_at_timestamp(recording_id: String, mic_enabled: bool, secs: i64, nanos: u32) -> (r:
        Option<Self>)
        ensures
            match r {
                Some(a) => {
                    &&& rfc3339_of_timestamp(secs, nanos) == Some(a.started_at@)
                    &&& is_rfc3339_utc_text(a.started_at@)
                    &&& a.recording_id == recording_id
                    &&& a.mic_enabled == mic_enabled
                },
                None => rfc3339_of_timestamp(secs, nanos) is None,
            },
            timestamp_in_calendar(secs, nanos) ==> r is Some,
    {
        match rfc3339_from_timestamp(secs, nanos) {
            Some(started_at) => Some(StartRecordingResponse { recording_id, started_at, mic_enabled }),
            None => None,
        }
    }

    /// The answer for a recording whose clock reading is `reading`, in the
    /// form `SystemTime::duration_since(UNIX_EPOCH)` gives it: `Ok` with the
    /// seconds and nanoseconds elapsed since the Unix epoch, or `Err` with how
    /// far the reading lies before it. The stamp is the time of the reading;
    /// `None` where it has no Unix timestamp or chrono's calendar has no
    /// such time.
    pub fn started_at_reading(
        recording_id: String,
        mic_enabled: bool,
        reading: Result<(u64, u32), (u64, u32)>,
    ) -> (r: Option<Self>)
        ensures
            match reading {
                Ok((secs, nanos)) => secs <= i64::MAX && nanos < 1_000_000_000 ==> stamped_with(
                    r,
                    rfc3339_of_timestamp(secs as i64, nanos),
                ),
                Err((secs, nanos)) => {
                    &&& nanos == 0 && secs <= i64::MAX ==> stamped_with(
                        r,
                        rfc3339_of_timestamp(-secs as i64, 0),
                    )
                    &&& 0 < nanos < 1_000_000_000 && secs < i64::MAX ==> stamped_with(
                        r,
                        rfc3339_of_timestamp((-secs - 1) as i64, (1_000_000_000 - nanos) as u32),
                    )
                },
            },
            r matches Some(a) ==> {
                &&& a.recording_id == recording_id
                &&& a.mic_enabled == mic_enabled
                &&& is_rfc3339_utc_text(a.started_at@)
            },
    {
        let timestamp = match reading {
            Ok((secs, nanos)) => unix_timestamp(true, secs, nanos),
            Err((secs, nanos)) => unix_timestamp(false, secs, nanos),
        };
        match timestamp {
            Some((s, n)) => Self::started_at_timestamp(recording_id, mic_enabled, s, n),
            None => None,
        }
    }

    /// The answer for a recording that has just started, stamped with the
    /// current UTC time in RFC 3339 form. The time is read from the system
    /// clock, before or after the Unix epoch; `None` where the reading has
    /// no Unix timestamp or chrono's calendar has no such time.
    pub fn started_now(recording_id: String, mic_enabled: bool) -> (r: Option<Self>)
        ensures
            r matches Some(a) ==> {
                &&& a.recording_id == recording_id
                &&& a.mic_enabled == mic_enabled
                &&& is_rfc3339_utc_text(a.started_at@)
            },
    {
        let now = system_now();
        let reading = match since_unix_epoch(&now) {
            Ok(d) => Ok((whole_seconds(&d), subsec_nanos(&d))),
            Err(d) => Err((whole_seconds(&d), subsec_nanos(&d))),
        };
        Self::started_at_reading(recording_id, mic_enabled, reading)
    }
}

/// Whether `r` carries the stamp `t`: a response stamped with that text
/// where there is one, and no response where there is none.
pub open spec fn stamped_with(r: Option<StartRecordingResponse>, t: Option<Seq<char>>) -> bool {
    match r {
        Some(a) => t == Some(a.started_at@),
        None => t is None,
    }
}

/// The timestamp of a clock reading names the same instant as the reading:
/// counted in nanoseconds it lies exactly as far after the epoch as the
/// reading (`after_epoch`) or exactly as far before it, and its
/// nanosecond part is a valid fraction of a second.
pub proof fn lemma_timestamp_is_the_reading(after_epoch: bool, secs: u64, nanos: u32)
    requires
        nanos < 1_000_000_000,
    ensures
        0 <= unix_timestamp_spec(after_epoch, secs, nanos).1 < 1_000_000_000,
        unix_timestamp_spec(after_epoch, secs, nanos).0 * 1_000_000_000 + unix_timestamp_spec(
            after_epoch,
            secs,
            nanos,
        ).1 == if after_epoch {
            secs * 1_000_000_000 + nanos
        } else {
            -(secs * 1_000_000_000 + nanos)
        },
{
}

/// The message with which a start is refused while a recording is active.
pub open spec fn already_recording_message() -> Seq<char> {
    "A recording is already in progress. Stop it before starting a new one."@
}

/// The message with which a stop is refused while no recording is active.
pub open spec fn not_recording_message() -> Seq<char> {
    "No recording is currently in progress"@
}

/// The guard of a start: with no recording active the start is accepted
/// and `now` becomes the start instant; otherwise nothing changes.
pub open spec fn start_transition<I>(started: Option<I>, now: I) -> (Option<I>, bool) {
    match started {
        Some(_) => (started, false),
        None => (Some(now), true),
    }
}

/// The guard of a stop: it yields the start instant, if any, and leaves no
/// recording active either way.
pub open spec fn stop_transition<I>(started: Option<I>) -> (Option<I>, Option<I>) {
    (None, started)
}

/// How starting the system-audio capture went.
pub enum LoopbackStart<F, L> {
    /// The capture runs; `stop_flag` ends it and `handle` joins it.
    Started { stop_flag: F, handle: L },
    /// The platform offers no system-audio capture.
    Unsupported,
    /// The capture could not be started; the text says why.
    Failed(String),
}

/// What a start does after the system-audio capture was tried.
pub enum StartNext {
    /// Start the microphone capture.
    StartMic,
    /// The start is complete.
    Finish,
    /// The start fails with this error.
    Fail(String),
}

/// What a stop must do to the system-audio capture.
pub enum LoopbackStop<F, L> {
    /// Give the stop signal, then join the capture.
    SignalThenJoin { stop_flag: F, handle: L },
    /// The recording ran without system audio.
    NotCaptured,
}

/// The message with which system-audio capture fails where the platform has none.
pub open spec fn loopback_unsupported_message() -> Seq<char> {
    "System audio capture is not yet supported on this OS. Live Mode currently requires Windows — see the project README for details."@
}

/// The live state of the recording feature. `I` is the start instant,
/// `F` the stop signal of the system-audio capture, `L` the handle on that
/// capture, `S` the microphone stream and `W` the microphone WAV writer.
pub struct RecordingState<I, F, L, S, W> {
    loopback_handle: Option<L>,
    loopback_stop_flag: Option<F>,
    mic_stream: Option<S>,
    mic_writer: Option<W>,
    mic_file_path: Option<String>,
    mic_sample_count: u64,
    recording_started_at: Option<I>,
    system_audio_unavailable: bool,
}

impl<I, F, L, S, W> RecordingState<I, F, L, S, W> {
    /// The instant at which the active recording started, if one is active.
    pub closed spec fn started(&self) -> Option<I> {
        self.recording_started_at
    }

    pub closed spec fn loopback_handle_spec(&self) -> Option<L> {
        self.loopback_handle
    }

    pub closed spec fn loopback_stop_flag_spec(&self) -> Option<F> {
        self.loopback_stop_flag
    }

    pub closed spec fn mic_stream_spec(&self) -> Option<S> {
        self.mic_stream
    }

    pub closed spec fn mic_writer_spec(&self) -> Option<W> {
        self.mic_writer
    }

    pub closed spec fn mic_file_path_spec(&self) -> Option<Seq<char>> {
        match self.mic_file_path {
            Some(p) => Some(p@),
            None => None,
        }
    }

    pub closed spec fn mic_sample_count_spec(&self) -> u64 {
        self.mic_sample_count
    }

    /// Whether the active recording runs without system audio because the
    /// platform offers no system-audio capture.
    pub closed spec fn system_audio_unavailable_spec(&self) -> bool {
        self.system_audio_unavailable
    }

    /// Whether every part other than the start instant is as in `other`.
    pub open spec fn same_resources(&self, other: &Self) -> bool {
        &&& self.loopback_handle_spec() == other.loopback_handle_spec()
        &&& self.loopback_stop_flag_spec() == other.loopback_stop_flag_spec()
        &&& self.mic_stream_spec() == other.mic_stream_spec()
        &&& self.mic_writer_spec() == other.mic_writer_spec()
        &&& self.mic_file_path_spec() == other.mic_file_path_spec()
        &&& self.mic_sample_count_spec() == other.mic_sample_count_spec()
        &&& self.system_audio_unavailable_spec() == other.system_audio_unavailable_spec()
    }

    /// A state with no recording and nothing captured.
    pub fn new() -> (s: Self)
        ensures
            s.started() is None,
            s.loopback_handle_spec() is None,
            s.loopback_stop_flag_spec() is None,
            s.mic_stream_spec() is None,
            s.mic_writer_spec() is None,
            s.mic_file_path_spec() is None,
            s.mic_sample_count_spec() == 0,
            !s.system_audio_unavailable_spec(),
    {
        RecordingState {
            loopback_handle: None,
            loopback_stop_flag: None,
            mic_stream: None,
            mic_writer: None,
            mic_file_path: None,
            mic_sample_count: 0,
            recording_started_at: None,
            system_audio_unavailable: false,
        }
    }

    /// Whether a recording is active.
    pub fn is_recording(&self) -> (b: bool)
        ensures
            b == self.started() is Some,
    {
        self.recording_started_at.is_some()
    }

    /// Checks and marks in one step that a recording starts at `now`. While
    /// another recording is active this fails with the "already in progress"
    /// message and changes nothing; otherwise it records `now` and returns a
    /// fresh recording id.
    pub fn begin_start(&mut self, now: I) -> (r: Result<String, String>)
        ensures
            (final(self).started(), r is Ok) == start_transition(old(self).started(), now),
            final(self).same_resources(old(self)),
            r matches Ok(id) ==> is_uuid_v4_text(id@),
            r matches Err(m) ==> m@ == already_recording_message(),
    {
        if self.recording_started_at.is_some() {
            return Err(String::from_str(
                "A recording is already in progress. Stop it before starting a new one.",
            ));
        }
        self.recording_started_at = Some(now);
        Ok(new_uuid_v4_text())
    }

    /// Hands the running system-audio capture and its stop signal to the state.
    pub fn attach_loopback(&mut self, stop_flag: F, handle: L)
        ensures
            final(self).loopback_handle_spec() == Some(handle),
            final(self).loopback_stop_flag_spec() == Some(stop_flag),
            final(self).started() == old(self).started(),
            final(self).mic_stream_spec() == old(self).mic_stream_spec(),
            final(self).mic_writer_spec() == old(self).mic_writer_spec(),
            final(self).mic_file_path_spec() == old(self).mic_file_path_spec(),
            final(self).mic_sample_count_spec() == old(self).mic_sample_count_spec(),
            final(self).system_audio_unavailable_spec() == old(
                self,
            ).system_audio_unavailable_spec(),
    {
        self.loopback_handle = Some(handle);
        self.loopback_stop_flag = Some(stop_flag);
    }

    /// Hands the running microphone capture (stream, WAV writer, file path
    /// and the sample count seen so far) to the state.
    pub fn attach_mic(&mut self, stream: S, writer: W, file_path: String, sample_count: u64)
        ensures
            final(self).mic_stream_spec() == Some(stream),
            final(self).mic_writer_spec() == Some(writer),
            final(self).mic_file_path_spec() == Some(file_path@),
            final(self).mic_sample_count_spec() == sample_count,
            final(self).system_audio_unavailable_spec() == old(self).system_audio_unavailable_spec(),
            final(self).started() == old(self).started(),
            final(self).loopback_handle_spec() == old(self).loopback_handle_spec(),
            final(self).loopback_stop_flag_spec() == old(self).loopback_stop_flag_spec(),
    {
        self.mic_stream = Some(stream);
        self.mic_writer = Some(writer);
        self.mic_file_path = Some(file_path);
        self.mic_sample_count = sample_count;
    }

    /// Ends the active recording, yielding its start instant; with none
    /// active it fails with the "no recording" message. Either way no
    /// recording is active afterwards.
    pub fn take_started(&mut self) -> (r: Result<I, String>)
        ensures
            (final(self).started(), match r {
                Ok(i) => Some(i),
                Err(_) => None,
            }) == stop_transition(old(self).started()),
            final(self).same_resources(old(self)),
            r matches Err(m) ==> m@ == not_recording_message(),
    {
        match self.recording_started_at.take() {
            Some(i) => Ok(i),
            None => Err(String::from_str("No recording is currently in progress")),
        }
    }

    /// Takes the stop signal of the system-audio capture.
    pub fn take_stop_flag(&mut self) -> (r: Result<F, String>)
        ensures
            final(self).loopback_stop_flag_spec() is None,
            match old(self).loopback_stop_flag_spec() {
                Some(f) => r == Ok::<F, String>(f),
                None => r matches Err(m) && m@ == "Loopback stop flag not found"@,
            },
            final(self).started() == old(self).started(),
            final(self).loopback_handle_spec() == old(self).loopback_handle_spec(),
            final(self).mic_stream_spec() == old(self).mic_stream_spec(),
            final(self).mic_writer_spec() == old(self).mic_writer_spec(),
            final(self).mic_file_path_spec() == old(self).mic_file_path_spec(),
            final(self).mic_sample_count_spec() == old(self).mic_sample_count_spec(),
            final(self).system_audio_unavailable_spec() == old(
                self,
            ).system_audio_unavailable_spec(),
    {
        match self.loopback_stop_flag.take() {
            Some(f) => Ok(f),
            None => Err(String::from_str("Loopback stop flag not found")),
        }
    }

    /// Takes the handle on the system-audio capture.
    pub fn take_loopback_handle(&mut self) -> (r: Result<L, String>)
        ensures
            final(self).loopback_handle_spec() is None,
            match old(self).loopback_handle_spec() {
                Some(h) => r == Ok::<L, String>(h),
                None => r matches Err(m) && m@ == "Loopback recording handle not found"@,
            },
            final(self).started() == old(self).started(),
            final(self).loopback_stop_flag_spec() == old(self).loopback_stop_flag_spec(),
            final(self).mic_stream_spec() == old(self).mic_stream_spec(),
            final(self).mic_writer_spec() == old(self).mic_writer_spec(),
            final(self).mic_file_path_spec() == old(self).mic_file_path_spec(),
            final(self).mic_sample_count_spec() == old(self).mic_sample_count_spec(),
            final(self).system_audio_unavailable_spec() == old(
                self,
            ).system_audio_unavailable_spec(),
    {
        match self.loopback_handle.take() {
            Some(h) => Ok(h),
            None => Err(String::from_str("Loopback recording handle not found")),
        }
    }

    /// Takes the microphone stream, if one is running.
    pub fn take_mic_stream(&mut self) -> (r: Option<S>)
        ensures
            r == old(self).mic_stream_spec(),
            final(self).mic_stream_spec() is None,
            final(self).started() == old(self).started(),
            final(self).loopback_handle_spec() == old(self).loopback_handle_spec(),
            final(self).loopback_stop_flag_spec() == old(self).loopback_stop_flag_spec(),
            final(self).mic_writer_spec() == old(self).mic_writer_spec(),
            final(self).mic_file_path_spec() == old(self).mic_file_path_spec(),
            final(self).mic_sample_count_spec() == old(self).mic_sample_count_spec(),
            final(self).system_audio_unavailable_spec() == old(
                self,
            ).system_audio_unavailable_spec(),
    {
        self.mic_stream.take()
    }

    /// Takes the microphone WAV writer, if one is open.
    pub fn take_mic_writer(&mut self) -> (r: Option<W>)
        ensures
            r == old(self).mic_writer_spec(),
            final(self).mic_writer_spec() is None,
            final(self).started() == old(self).started(),
            final(self).loopback_handle_spec() == old(self).loopback_handle_spec(),
            final(self).loopback_stop_flag_spec() == old(self).loopback_stop_flag_spec(),
            final(self).mic_stream_spec() == old(self).mic_stream_spec(),
            final(self).mic_file_path_spec() == old(self).mic_file_path_spec(),
            final(self).mic_sample_count_spec() == old(self).mic_sample_count_spec(),
            final(self).system_audio_unavailable_spec() == old(
                self,
            ).system_audio_unavailable_spec(),
    {
        self.mic_writer.take()
    }

    /// Takes the path of the microphone WAV file; fails when none was recorded.
    pub fn take_mic_file_path(&mut self) -> (r: Result<String, String>)
        ensures
            final(self).mic_file_path_spec() is None,
            match old(self).mic_file_path_spec() {
                Some(p) => r matches Ok(q) && q@ == p,
                None => r matches Err(m) && m@ == "Mic file path not recorded"@,
            },
            final(self).started() == old(self).started(),
            final(self).loopback_handle_spec() == old(self).loopback_handle_spec(),
            final(self).loopback_stop_flag_spec() == old(self).loopback_stop_flag_spec(),
            final(self).mic_stream_spec() == old(self).mic_stream_spec(),
            final(self).mic_writer_spec() == old(self).mic_writer_spec(),
            final(self).mic_sample_count_spec() == old(self).mic_sample_count_spec(),
            final(self).system_audio_unavailable_spec() == old(
                self,
            ).system_audio_unavailable_spec(),
    {
        match self.mic_file_path.take() {
            Some(p) => Ok(p),
            None => Err(String::from_str("Mic file path not recorded")),
        }
    }

    /// Takes in how starting the system-audio capture went and says what
    /// the start does next. A running capture is kept and the microphone
    /// is started if it was asked for. Where the platform offers no
    /// system-audio capture, a start that asks for the microphone goes on
    /// with the microphone alone, and one that does not fails with the
    /// "not yet supported" message. A capture that failed fails the start.
    pub fn on_loopback_start(&mut self, outcome: LoopbackStart<F, L>, include_mic: bool) -> (r:
        StartNext)
        ensures
            final(self).started() == old(self).started(),
            final(self).mic_stream_spec() == old(self).mic_stream_spec(),
            final(self).mic_writer_spec() == old(self).mic_writer_spec(),
            final(self).mic_file_path_spec() == old(self).mic_file_path_spec(),
            final(self).mic_sample_count_spec() == old(self).mic_sample_count_spec(),
            match outcome {
                LoopbackStart::Started { stop_flag, handle } => {
                    &&& final(self).loopback_handle_spec() == Some(handle)
                    &&& final(self).loopback_stop_flag_spec() == Some(stop_flag)
                    &&& final(self).system_audio_unavailable_spec()
                        == old(self).system_audio_unavailable_spec()
                    &&& if include_mic {
                        r is StartMic
                    } else {
                        r is Finish
                    }
                },
                LoopbackStart::Unsupported => {
                    &&& final(self).loopback_handle_spec() == old(self).loopback_handle_spec()
                    &&& final(self).loopback_stop_flag_spec() == old(
                        self,
                    ).loopback_stop_flag_spec()
                    &&& if include_mic {
                        r is StartMic && final(self).system_audio_unavailable_spec()
                    } else {
                        &&& r matches StartNext::Fail(m) && m@ == loopback_unsupported_message()
                        &&& final(self).system_audio_unavailable_spec() == old(
                            self,
                        ).system_audio_unavailable_spec()
                    }
                },
                LoopbackStart::Failed(e) => {
                    &&& r matches StartNext::Fail(m) && m@ == e@
                    &&& final(self).loopback_handle_spec() == old(self).loopback_handle_spec()
                    &&& final(self).loopback_stop_flag_spec() == old(
                        self,
                    ).loopback_stop_flag_spec()
                    &&& final(self).system_audio_unavailable_spec()
                        == old(self).system_audio_unavailable_spec()
                },
            },
    {
        match outcome {
            LoopbackStart::Started { stop_flag, handle } => {
                self.attach_loopback(stop_flag, handle);
                if include_mic {
                    StartNext::StartMic
                } else {
                    StartNext::Finish
                }
            },
            LoopbackStart::Unsupported => {
                if include_mic {
                    self.system_audio_unavailable = true;
                    StartNext::StartMic
                } else {
                    StartNext::Fail(loopback_unsupported_error())
                }
            },
            LoopbackStart::Failed(e) => StartNext::Fail(e),
        }
    }

    /// Begins a stop: ends the active recording and hands over its start
    /// instant and what must be done to the system-audio capture. With no
    /// recording active it fails with the "no recording" message and
    /// changes nothing. A recording without system audio, holding no
    /// capture parts, needs nothing done to it; otherwise the capture's
    /// stop signal and handle are taken (failing with their messages when
    /// missing) so that the signal is given before the join. A successful
    /// stop leaves no capture part of the system audio behind, and no stop
    /// leaves the recording active or marked as running without system audio.
    pub fn begin_stop(&mut self) -> (r: Result<(I, LoopbackStop<F, L>), String>)
        ensures
            final(self).started() is None,
            final(self).mic_stream_spec() == old(self).mic_stream_spec(),
            final(self).mic_writer_spec() == old(self).mic_writer_spec(),
            final(self).mic_file_path_spec() == old(self).mic_file_path_spec(),
            final(self).mic_sample_count_spec() == old(self).mic_sample_count_spec(),
            !final(self).system_audio_unavailable_spec() || old(self).started() is None,
            r is Ok ==> final(self).loopback_stop_flag_spec() is None
                && final(self).loopback_handle_spec() is None,
            match old(self).started() {
                None => {
                    &&& r matches Err(m) && m@ == not_recording_message()
                    &&& final(self).same_resources(old(self))
                },
                Some(i) => if old(self).system_audio_unavailable_spec() && old(
                    self,
                ).loopback_stop_flag_spec() is None && old(self).loopback_handle_spec() is None {
                    &&& r == Ok::<(I, LoopbackStop<F, L>), String>((i, LoopbackStop::NotCaptured))
                    &&& final(self).loopback_handle_spec() is None
                    &&& final(self).loopback_stop_flag_spec() is None
                } else {
                    &&& final(self).loopback_stop_flag_spec() is None
                    &&& match old(self).loopback_stop_flag_spec() {
                        None => {
                            &&& r matches Err(m) && m@ == "Loopback stop flag not found"@
                            &&& final(self).loopback_handle_spec() == old(
                                self,
                            ).loopback_handle_spec()
                        },
                        Some(f) => {
                            &&& final(self).loopback_handle_spec() is None
                            &&& match old(self).loopback_handle_spec() {
                                None => r matches Err(m) && m@
                                    == "Loopback recording handle not found"@,
                                Some(h) => r == Ok::<(I, LoopbackStop<F, L>), String>(
                                    (i, LoopbackStop::SignalThenJoin { stop_flag: f, handle: h }),
                                ),
                            }
                        },
                    }
                },
            },
    {
        let started = self.take_started();
        match started {
            Err(m) => Err(m),
            Ok(i) => {
                let without_system_audio = self.system_audio_unavailable;
                self.system_audio_unavailable = false;
                if without_system_audio && self.loopback_stop_flag.is_none()
                    && self.loopback_handle.is_none() {
                    return Ok((i, LoopbackStop::NotCaptured));
                }
                let stop_flag = match self.take_stop_flag() {
                    Ok(f) => f,
                    Err(m) => {
                        return Err(m);
                    },
                };
                let handle = match self.take_loopback_handle() {
                    Ok(h) => h,
                    Err(m) => {
                        return Err(m);
                    },
                };
                Ok((i, LoopbackStop::SignalThenJoin { stop_flag, handle }))
            },
        }
    }

    /// The microphone sample count stored when the microphone was attached.
    pub fn mic_sample_count(&self) -> (n: u64)
        ensures
            n == self.mic_sample_count_spec(),
    {
        self.mic_sample_count
    }
}


// ---------------------------------------------------------------------------
// File naming and normalisation
// ---------------------------------------------------------------------------

/// `{prefix}_{recording_id}.wav`, the name of a capture file.
pub fn recording_file_name(prefix: &str, recording_id: &str) -> (r: String)
    ensures
        r@ == prefix@ + "_"@ + recording_id@ + ".wav"@,
{
    let mut r = String::from_str(prefix);
    r.append("_");
    r.append(recording_id);
    r.append(".wav");
    r
}

/// A fresh `normalized_{uuid}.wav` name for the output of ffmpeg.
pub fn normalized_file_name() -> (r: String)
    ensures
        exists|id: Seq<char>|
            is_uuid_v4_text(id) && r@ == "normalized_"@ + id + ".wav"@,
{
    let id = new_uuid_v4_text();
    let mut r = String::from_str("normalized_");
    r.append(id.as_str());
    r.append(".wav");
    assert(is_uuid_v4_text(id@) && r@ == "normalized_"@ + id@ + ".wav"@);
    r
}

/// The views of a list of strings.
pub open spec fn string_views(v: Seq<String>) -> Seq<Seq<char>> {
    v.map_values(|a: String| a@)
}

/// The ffmpeg arguments that loudness-normalise `raw` (EBU R128) into a
/// 16 kHz mono 16-bit PCM WAV at `out`.
pub open spec fn normalize_args_spec(raw: Seq<char>, out: Seq<char>) -> Seq<Seq<char>> {
    seq![
        "-i"@,
        raw,
        "-af"@,
        "loudnorm=I=-16:LRA=11:TP=-1.5"@,
        "-ar"@,
        decimal(TARGET_SAMPLE_RATE as nat),
        "-ac"@,
        decimal(TARGET_CHANNELS as nat),
        "-c:a"@,
        "pcm_s16le"@,
        "-y"@,
        out,
    ]
}

/// Normalisation hands both paths to ffmpeg exactly as given (the raw
/// capture right after `-i`, the output last) and always asks for the
/// loudness filter, 16 kHz (`-ar 16000`) and mono (`-ac 1`).
pub proof fn lemma_normalize_passes_paths(raw: Seq<char>, out: Seq<char>)
    ensures
        normalize_args_spec(raw, out).len() == 12,
        normalize_args_spec(raw, out)[0] == "-i"@,
        normalize_args_spec(raw, out)[1] == raw,
        normalize_args_spec(raw, out)[2] == "-af"@,
        normalize_args_spec(raw, out)[4] == "-ar"@,
        normalize_args_spec(raw, out)[5] == seq!['1', '6', '0', '0', '0'],
        normalize_args_spec(raw, out)[6] == "-ac"@,
        normalize_args_spec(raw, out)[7] == seq!['1'],
        normalize_args_spec(raw, out)[11] == out,
{
    lemma_decimal_of_16000_and_1();
}

/// The arguments of the ffmpeg run that normalises a raw capture.
pub fn normalize_args(raw_path: &str, out_path: &str) -> (v: Vec<String>)
    ensures
        string_views(v@) == normalize_args_spec(raw_path@, out_path@),
        v@.len() == 12,
        v@[1]@ == raw_path@,
        v@[5]@ == seq!['1', '6', '0', '0', '0'],
        v@[7]@ == seq!['1'],
        v@[11]@ == out_path@,
{
    proof {
        lemma_normalize_passes_paths(raw_path@, out_path@);
    }
    let mut v: Vec<String> = Vec::new();
    v.push(String::from_str("-i"));
    v.push(String::from_str(raw_path));
    v.push(String::from_str("-af"));
    v.push(String::from_str("loudnorm=I=-16:LRA=11:TP=-1.5"));
    v.push(String::from_str("-ar"));
    v.push(u64_to_decimal(TARGET_SAMPLE_RATE as u64));
    v.push(String::from_str("-ac"));
    v.push(u64_to_decimal(TARGET_CHANNELS as u64));
    v.push(String::from_str("-c:a"));
    v.push(String::from_str("pcm_s16le"));
    v.push(String::from_str("-y"));
    v.push(String::from_str(out_path));
    assert(string_views(v@) =~= normalize_args_spec(raw_path@, out_path@));
    v
}

/// How an attempt to normalise a capture file went.
pub enum NormalizeOutcome {
    /// The capture file does not exist, so ffmpeg was not run.
    SourceMissing,
    /// ffmpeg ran and exited successfully.
    Converted,
    /// ffmpeg ran and exited with a failure status.
    ConversionFailed,
    /// ffmpeg could not be run.
    LaunchFailed,
}

/// The path handed on after normalisation: the normalised file when ffmpeg
/// succeeded, and otherwise the raw capture (normalisation never fails a stop).
pub fn normalized_or_raw(raw_path: &str, normalized_path: &str, outcome: NormalizeOutcome) -> (r:
    String)
    ensures
        r@ == (if outcome is Converted {
            normalized_path@
        } else {
            raw_path@
        }),
{
    match outcome {
        NormalizeOutcome::Converted => String::from_str(normalized_path),
        _ => String::from_str(raw_path),
    }
}

// ---------------------------------------------------------------------------
// Stopping the captures
// ---------------------------------------------------------------------------

/// How the system-audio capture thread ended when it was joined.
pub enum CaptureExit {
    /// It finalised its WAV file at this path.
    Finished(String),
    /// It ended with this error.
    Failed(String),
    /// It panicked; the text is the debug rendering of the payload.
    Panicked(String),
    /// No capture thread was running.
    NotRunning,
}

/// The raw system-audio path to normalise (`None` when no capture ran), or
/// the error with which the stop fails.
pub fn loopback_capture_result(exit: CaptureExit) -> (r: Result<Option<String>, String>)
    ensures
        match exit {
            CaptureExit::Finished(p) => r matches Ok(Some(q)) && q@ == p@,
            CaptureExit::Failed(e) => r matches Err(m) && m@ == "Loopback capture failed: "@ + e@,
            CaptureExit::Panicked(e) => r matches Err(m) && m@
                == "Loopback capture thread panicked: "@ + e@,
            CaptureExit::NotRunning => r matches Ok(None),
        },
{
    match exit {
        CaptureExit::Finished(p) => Ok(Some(p)),
        CaptureExit::Failed(e) => {
            let mut m = String::from_str("Loopback capture failed: ");
            m.append(e.as_str());
            Err(m)
        },
        CaptureExit::Panicked(e) => {
            let mut m = String::from_str("Loopback capture thread panicked: ");
            m.append(e.as_str());
            Err(m)
        },
        CaptureExit::NotRunning => Ok(None),
    }
}

/// The error with which a stop fails when the microphone WAV could not be finalised.
pub fn mic_finalize_error(cause: &str) -> (m: String)
    ensures
        m@ == "Failed to finalize mic WAV: "@ + cause@,
{
    let mut m = String::from_str("Failed to finalize mic WAV: ");
    m.append(cause);
    m
}

/// The error with which system-audio capture fails where the platform has none.
pub fn loopback_unsupported_error() -> (m: String)
    ensures
        m@ == loopback_unsupported_message(),
{
    String::from_str(
        "System audio capture is not yet supported on this OS. Live Mode currently requires Windows — see the project README for details.",
    )
}

// ---------------------------------------------------------------------------
// Raw PCM from the system-audio loopback
// ---------------------------------------------------------------------------

/// The bytes of `frames` laid end to end.
pub open spec fn concat_frames(frames: Seq<Seq<u8>>) -> Seq<u8>
    decreases frames.len(),
{
    if frames.len() == 0 {
        Seq::empty()
    } else {
        concat_frames(frames.drop_last()) + frames.last()
    }
}

/// The views of a list of byte vectors.
pub open spec fn frame_views(v: Seq<Vec<u8>>) -> Seq<Seq<u8>> {
    v.map_values(|f: Vec<u8>| f@)
}

/// Moves every complete frame of `frame_len` bytes out of the front of
/// `queue`, in order; the incomplete tail stays queued.
pub fn take_complete_frames(queue: &mut VecDeque<u8>, frame_len: usize) -> (frames: Vec<Vec<u8>>)
    requires
        frame_len > 0,
    ensures
        concat_frames(frame_views(frames@)) + final(queue)@ == old(queue)@,
        forall|i: int| 0 <= i < frames@.len() ==> (#[trigger] frames@[i])@.len() == frame_len,
        final(queue)@.len() < frame_len,
{
    let ghost original = queue@;
    let mut frames: Vec<Vec<u8>> = Vec::new();
    while queue.len() >= frame_len
        invariant
            frame_len > 0,
            concat_frames(frame_views(frames@)) + queue@ == original,
            forall|i: int| 0 <= i < frames@.len() ==> (#[trigger] frames@[i])@.len() == frame_len,
        decreases queue@.len(),
    {
        let ghost before = queue@;
        let mut frame: Vec<u8> = Vec::new();
        let mut k: usize = 0;
        while k < frame_len
            invariant
                k <= frame_len,
                frame@.len() == k,
                frame@ + queue@ == before,
                before.len() >= frame_len,
            decreases frame_len - k,
        {
            let b: u8 = queue.pop_front().unwrap();
            frame.push(b);
            k += 1;
            assert(frame@ + queue@ =~= before);
        }
        let ghost old_frames = frame_views(frames@);
        frames.push(frame);
        proof {
            let views = frame_views(frames@);
            assert(views.drop_last() =~= old_frames);
            assert(concat_frames(views) == concat_frames(old_frames) + frame@);
            assert(concat_frames(views) + queue@ =~= concat_frames(old_frames) + (frame@ + queue@));
        }
    }
    frames
}

/// Width in bytes of one sample of the given loopback format, for the
/// formats that are decoded: 32-bit float, 16-, 24- and 8-bit integer.
pub open spec fn sample_width(bits: usize, is_float: bool) -> Option<nat> {
    if bits == 32 && is_float {
        Some(4)
    } else if bits == 16 {
        Some(2)
    } else if bits == 24 {
        Some(3)
    } else if bits == 8 {
        Some(1)
    } else {
        None
    }
}

/// Width in bytes of one sample of a loopback format that is decoded.
pub fn decoded_sample_width(bits: usize, is_float: bool) -> (w: Option<usize>)
    ensures
        match sample_width(bits, is_float) {
            Some(x) => w == Some(x as usize),
            None => w is None,
        },
{
    if bits == 32 && is_float {
        Some(4)
    } else if bits == 16 {
        Some(2)
    } else if bits == 24 {
        Some(3)
    } else if bits == 8 {
        Some(1)
    } else {
        None
    }
}

/// How to discard audio that was already buffered when the capture began.
pub enum BacklogDrain {
    /// Read the buffered frames once and drop them.
    SingleRead,
    /// Nothing is buffered.
    Nothing,
    /// The buffered amount is unknown: drop what arrives for up to 200 ms.
    TimeBounded,
}

/// The drain for a buffer that reported `padding` buffered frames
/// (`None` when it could not say).
pub fn backlog_drain(padding: Option<u32>) -> (d: BacklogDrain)
    ensures
        match padding {
            Some(p) => if p > 0 {
                d is SingleRead
            } else {
                d is Nothing
            },
            None => d is TimeBounded,
        },
{
    match padding {
        Some(p) => if p > 0 {
            BacklogDrain::SingleRead
        } else {
            BacklogDrain::Nothing
        },
        None => BacklogDrain::TimeBounded,
    }
}

/// Whether the time-bounded drain makes another read: not once a stop
/// was requested, nor once 200 ms have passed since it began. (It also
/// ends as soon as a read brings no new bytes.)
pub fn timed_drain_continues(stop_requested: bool, elapsed_ms: u64) -> (b: bool)
    ensures
        b == (!stop_requested && elapsed_ms < 200),
{
    !stop_requested && elapsed_ms < 200
}

/// Little-endian unsigned value of four bytes.
pub open spec fn le_u32(b0: u8, b1: u8, b2: u8, b3: u8) -> int {
    b0 + 256 * b1 + 65536 * b2 + 16777216 * b3
}

/// Signed 16-bit little-endian value of two bytes.
pub open spec fn pcm16_value(b0: u8, b1: u8) -> int {
    let u: int = b0 + 256 * b1;
    if u >= 32768 {
        u - 65536
    } else {
        u
    }
}

/// Signed 24-bit little-endian value of three bytes.
pub open spec fn pcm24_value(b0: u8, b1: u8, b2: u8) -> int {
    let u: int = b0 + 256 * b1 + 65536 * b2;
    if u >= 8388608 {
        u - 16777216
    } else {
        u
    }
}

/// Unsigned 8-bit sample centred on zero.
pub open spec fn pcm8_value(b: u8) -> int {
    b - 128
}

/// One loopback frame decoded to numbers. Scaling to floating point is the
/// caller's: a float sample is `f32::from_bits`, an integer one is divided
/// by `full_scale`.
pub enum PcmSamples {
    Float32Bits(Vec<u32>),
    Int { samples: Vec<i32>, full_scale: u32 },
}

fn sign_extend_24(b0: u8, b1: u8, b2: u8) -> (v: i32)
    ensures
        v == pcm24_value(b0, b1, b2),
{
    let raw: i32 = (b0 as i32) | ((b1 as i32) << 8) | ((b2 as i32) << 16);
    let v: i32 = if raw & 0x800000 != 0 {
        raw | (0xFF000000u32 as i32)
    } else {
        raw
    };
    assert(v == (if b0 as int + 256 * (b1 as int) + 65536 * (b2 as int) >= 8388608 {
        b0 as int + 256 * (b1 as int) + 65536 * (b2 as int) - 16777216
    } else {
        b0 as int + 256 * (b1 as int) + 65536 * (b2 as int)
    })) by (bit_vector)
        requires
            raw == (b0 as i32) | ((b1 as i32) << 8) | ((b2 as i32) << 16),
            v == (if raw & 0x800000 != 0 {
                raw | (0xFF000000u32 as i32)
            } else {
                raw
            }),
    ;
    v
}

/// Decodes one frame of raw loopback bytes in the given sample format, or
/// `None` for a format that is not decoded (the frame is then skipped).
pub fn decode_pcm_frame(bytes: &Vec<u8>, bits: usize, is_float: bool) -> (r: Option<PcmSamples>)
    requires
        sample_width(bits, is_float) matches Some(w) ==> bytes@.len() % w == 0,
    ensures
        sample_width(bits, is_float) is None <==> r is None,
        r matches Some(PcmSamples::Float32Bits(v)) ==> bits == 32 && is_float && v@.len() * 4
            == bytes@.len() && forall|i: int|
            0 <= i < v@.len() ==> #[trigger] v@[i] == le_u32(
                bytes@[4 * i],
                bytes@[4 * i + 1],
                bytes@[4 * i + 2],
                bytes@[4 * i + 3],
            ),
        r matches Some(PcmSamples::Int { samples, full_scale }) ==> {
            ||| bits == 16 && full_scale == 32767 && samples@.len() * 2 == bytes@.len() && forall|
                i: int,
            |
                0 <= i < samples@.len() ==> #[trigger] samples@[i] == pcm16_value(
                    bytes@[2 * i],
                    bytes@[2 * i + 1],
                )
            ||| bits == 24 && full_scale == 8388607 && samples@.len() * 3 == bytes@.len()
                && forall|i: int|
                0 <= i < samples@.len() ==> #[trigger] samples@[i] == pcm24_value(
                    bytes@[3 * i],
                    bytes@[3 * i + 1],
                    bytes@[3 * i + 2],
                )
            ||| bits == 8 && full_scale == 128 && samples@.len() == bytes@.len() && forall|i: int|
                0 <= i < samples@.len() ==> #[trigger] samples@[i] == pcm8_value(bytes@[i])
        },
{
    let n: usize = bytes.len();
    if bits == 32 && is_float {
        let mut v: Vec<u32> = Vec::new();
        let mut j: usize = 0;
        while j < n
            invariant
                n == bytes@.len(),
                n % 4 == 0,
                j == v@.len() * 4,
                j <= n,
                forall|i: int|
                    0 <= i < v@.len() ==> #[trigger] v@[i] == le_u32(
                        bytes@[4 * i],
                        bytes@[4 * i + 1],
                        bytes@[4 * i + 2],
                        bytes@[4 * i + 3],
                    ),
            decreases n - j,
        {
            let x: u32 = (bytes[j] as u32) + 256 * (bytes[j + 1] as u32) + 65536 * (bytes[j
                + 2] as u32) + 16777216 * (bytes[j + 3] as u32);
            v.push(x);
            j += 4;
        }
        Some(PcmSamples::Float32Bits(v))
    } else if bits == 16 {
        let mut v: Vec<i32> = Vec::new();
        let mut j: usize = 0;
        while j < n
            invariant
                n == bytes@.len(),
                n % 2 == 0,
                j == v@.len() * 2,
                j <= n,
                forall|i: int|
                    0 <= i < v@.len() ==> #[trigger] v@[i] == pcm16_value(
                        bytes@[2 * i],
                        bytes@[2 * i + 1],
                    ),
            decreases n - j,
        {
            let u: i32 = (bytes[j] as i32) + 256 * (bytes[j + 1] as i32);
            let x: i32 = if u >= 32768 {
                u - 65536
            } else {
                u
            };
            v.push(x);
            j += 2;
        }
        Some(PcmSamples::Int { samples: v, full_scale: 32767 })
    } else if bits == 24 {
        let mut v: Vec<i32> = Vec::new();
        let mut j: usize = 0;
        while j < n
            invariant
                n == bytes@.len(),
                n % 3 == 0,
                j == v@.len() * 3,
                j <= n,
                forall|i: int|
                    0 <= i < v@.len() ==> #[trigger] v@[i] == pcm24_value(
                        bytes@[3 * i],
                        bytes@[3 * i + 1],
                        bytes@[3 * i + 2],
                    ),
            decreases n - j,
        {
            let x: i32 = sign_extend_24(bytes[j], bytes[j + 1], bytes[j + 2]);
            v.push(x);
            j += 3;
        }
        Some(PcmSamples::Int { samples: v, full_scale: 8388607 })
    } else if bits == 8 {
        let mut v: Vec<i32> = Vec::new();
        let mut j: usize = 0;
        while j < n
            invariant
                n == bytes@.len(),
                j == v@.len(),
                j <= n,
                forall|i: int| 0 <= i < v@.len() ==> #[trigger] v@[i] == pcm8_value(bytes@[i]),
            decreases n - j,
        {
            v.push((bytes[j] as i32) - 128);
            j += 1;
        }
        Some(PcmSamples::Int { samples: v, full_scale: 128 })
    } else {
        None
    }
}

/// Two starts with no stop between them admit only the first; a stop after
/// an admitted start yields that start's instant and leaves the state idle;
/// and a start after any stop is admitted.
pub proof fn lemma_single_active_recording<I>(started: Option<I>, t1: I, t2: I)
    ensures
        ({
            let (s1, ok1) = start_transition(started, t1);
            let (s2, ok2) = start_transition(s1, t2);
            &&& ok1 ==> !ok2 && s2 == s1
            &&& !ok1 ==> s1 == started
        }),
        ({
            let (s1, ok1) = start_transition(started, t1);
            let (s2, got) = stop_transition(s1);
            ok1 ==> got == Some(t1) && s2 is None
        }),
        ({
            let (s1, _) = stop_transition(started);
            start_transition(s1, t2) == (Some(t2), true)
        }),
{
}

} // verus!
