//! Wall-clock timings of the phases of a job.

use std::time::{Duration, Instant};
use vstd::prelude::*;

verus! {

/// std's `Instant`, a clock reading carried as it is.
#[verifier::external_type_specification]
#[verifier::external_body]
pub struct ExInstant(std::time::Instant);

/// Relies on `Instant::now`: a reading of the monotonic clock. Nothing is
/// known of the value.
#[verifier::external_body]
fn clock_now() -> Instant {
    Instant::now()
}

/// Relies on `Instant::elapsed`: the time since `start`. Nothing is known of
/// the value.
#[verifier::external_body]
fn clock_elapsed(start: &Instant) -> Duration {
    start.elapsed()
}

/// Relies on `Duration::as_secs`: the whole seconds of `d`.
#[verifier::external_body]
fn duration_secs(d: &Duration) -> u64 {
    d.as_secs()
}

/// Relies on `Duration::subsec_nanos`: the part of `d` below one second, in
/// nanoseconds, which std documents as less than one billion.
#[verifier::external_body]
fn duration_subsec_nanos(d: &Duration) -> (r: u32)
    ensures
        r < 1_000_000_000,
{
    d.subsec_nanos()
}

/// A length of time, as whole seconds and the nanoseconds beyond them.
#[derive(Clone, Copy, Debug, PartialEq, Eq, Structural)]
pub struct TimeSpan {
    pub secs: u64,
    pub nanos: u32,
}

impl TimeSpan {
    pub open spec fn wf(self) -> bool {
        self.nanos < 1_000_000_000
    }

    /// The length in whole milliseconds.
    pub open spec fn millis(self) -> int {
        self.secs * 1000 + self.nanos / 1_000_000
    }

    pub fn zero() -> (r: TimeSpan)
        ensures
            r.wf(),
            r.secs == 0,
            r.nanos == 0,
    {
        TimeSpan { secs: 0, nanos: 0 }
    }
}

/// The time since `start`.
fn span_since(start: &Instant) -> (r: TimeSpan)
    ensures
        r.wf(),
{
    let d = clock_elapsed(start);
    TimeSpan { secs: duration_secs(&d), nanos: duration_subsec_nanos(&d) }
}

/// The decimal digits of `n`, most significant first.
pub open spec fn decimal_digits(n: nat) -> Seq<char>
    decreases n,
{
    if n < 10 {
        seq![digit_char(n)]
    } else {
        decimal_digits(n / 10).push(digit_char(n % 10))
    }
}

pub open spec fn digit_char(d: nat) -> char {
    if d < 10 {
        (('0' as u8) + (d as u8)) as char
    } else {
        '?'
    }
}

/// Relies on the `Display` of `u128`: its decimal digits, no sign, no
/// padding.
#[verifier::external_body]
fn decimal_string(n: u128) -> (r: String)
    ensures
        r@ == decimal_digits(n as nat),
{
    format!("{}", n)
}

/// The length of `date` in whole milliseconds, in decimal.
pub fn get_fract_s(date: TimeSpan) -> (r: String)
    requires
        date.wf(),
    ensures
        r@ == decimal_digits(date.millis() as nat),
{
    let millis: u128 = (date.nanos / 1_000_000) as u128;
    let tot: u128 = (date.secs as u128) * 1000 + millis;
    decimal_string(tot)
}

/// The durations of the phases of a job.
#[derive(Clone, Copy, Debug, PartialEq, Eq, Structural)]
pub struct JobTimings {
    pub upload: TimeSpan,
    pub shader: TimeSpan,
    pub cmd: TimeSpan,
    pub execution: TimeSpan,
    pub download: TimeSpan,
}

impl JobTimings {
    pub open spec fn wf(self) -> bool {
        self.upload.wf() && self.shader.wf() && self.cmd.wf() && self.execution.wf()
            && self.download.wf()
    }

    pub open spec fn total_millis(self) -> int {
        self.upload.millis() + self.shader.millis() + self.cmd.millis() + self.execution.millis()
            + self.download.millis()
    }

    /// One line per phase and one for their total, each in milliseconds.
    pub fn to_text(&self) -> (r: String)
        requires
            self.wf(),
        ensures
            r@ == "upload: "@ + decimal_digits(self.upload.millis() as nat) + "ms\n"@
                + "shader: "@ + decimal_digits(self.shader.millis() as nat) + "ms\n"@
                + "command: "@ + decimal_digits(self.cmd.millis() as nat) + "ms\n"@
                + "execution: "@ + decimal_digits(self.execution.millis() as nat) + "ms\n"@
                + "download: "@ + decimal_digits(self.download.millis() as nat) + "ms\n"@
                + "total: "@ + decimal_digits(self.total_millis() as nat) + "ms\n"@,
    {
        let mut s = String::from_str("upload: ");
        s.append(get_fract_s(self.upload).as_str());
        s.append("ms\n");
        s.append("shader: ");
        s.append(get_fract_s(self.shader).as_str());
        s.append("ms\n");
        s.append("command: ");
        s.append(get_fract_s(self.cmd).as_str());
        s.append("ms\n");
        s.append("execution: ");
        s.append(get_fract_s(self.execution).as_str());
        s.append("ms\n");
        s.append("download: ");
        s.append(get_fract_s(self.download).as_str());
        s.append("ms\n");
        s.append("total: ");
        let total: u128 = (self.upload.secs as u128) * 1000 + (self.upload.nanos / 1_000_000) as u128
            + (self.shader.secs as u128) * 1000 + (self.shader.nanos / 1_000_000) as u128
            + (self.cmd.secs as u128) * 1000 + (self.cmd.nanos / 1_000_000) as u128
            + (self.execution.secs as u128) * 1000 + (self.execution.nanos / 1_000_000) as u128
            + (self.download.secs as u128) * 1000 + (self.download.nanos / 1_000_000) as u128;
        s.append(decimal_string(total).as_str());
        s.append("ms\n");
        s
    }
}

/// Collects the start time and the duration of each phase as the job runs.
#[derive(Clone, Copy, Debug)]
pub struct JobTimingsBuilder {
    pub upload_timer: Option<Instant>,
    pub upload: Option<TimeSpan>,
    pub shader_timer: Option<Instant>,
    pub shader: Option<TimeSpan>,
    pub cmd_timer: Option<Instant>,
    pub cmd: Option<TimeSpan>,
    pub execution_timer: Option<Instant>,
    pub execution: Option<TimeSpan>,
    pub download_timer: Option<Instant>,
    pub download: Option<TimeSpan>,
}

pub open spec fn span_ok(s: Option<TimeSpan>) -> bool {
    s matches Some(t) ==> t.wf()
}

pub open spec fn span_or_zero(s: Option<TimeSpan>) -> TimeSpan {
    match s {
        Some(t) => t,
        None => TimeSpan { secs: 0, nanos: 0 },
    }
}

fn stop_span(timer: Option<Instant>) -> (r: Option<TimeSpan>)
    ensures
        r is Some <==> timer is Some,
        span_ok(r),
{
    match timer {
        Some(t) => Some(span_since(&t)),
        None => None,
    }
}

impl JobTimingsBuilder {
    pub open spec fn wf(self) -> bool {
        span_ok(self.upload) && span_ok(self.shader) && span_ok(self.cmd) && span_ok(
            self.execution,
        ) && span_ok(self.download)
    }

    pub fn new() -> (r: JobTimingsBuilder)
        ensures
            r.wf(),
            r.upload_timer is None && r.upload is None,
            r.shader_timer is None && r.shader is None,
            r.cmd_timer is None && r.cmd is None,
            r.execution_timer is None && r.execution is None,
            r.download_timer is None && r.download is None,
    {
        JobTimingsBuilder {
            upload_timer: None,
            upload: None,
            shader_timer: None,
            shader: None,
            cmd_timer: None,
            cmd: None,
            execution_timer: None,
            execution: None,
            download_timer: None,
            download: None,
        }
    }

    pub fn start_upload(self) -> (r: JobTimingsBuilder)
        requires
            self.wf(),
        ensures
            r.wf(),
            r.upload_timer is Some,
            r == (JobTimingsBuilder { upload_timer: r.upload_timer, ..self }),
    {
        JobTimingsBuilder { upload_timer: Some(clock_now()), ..self }
    }

    pub fn stop_upload(self) -> (r: JobTimingsBuilder)
        requires
            self.wf(),
        ensures
            r.wf(),
            r.upload is Some <==> self.upload_timer is Some,
            r == (JobTimingsBuilder { upload: r.upload, ..self }),
    {
        JobTimingsBuilder { upload: stop_span(self.upload_timer), ..self }
    }

    pub fn start_shader(self) -> (r: JobTimingsBuilder)
        requires
            self.wf(),
        ensures
            r.wf(),
            r.shader_timer is Some,
            r == (JobTimingsBuilder { shader_timer: r.shader_timer, ..self }),
    {
        JobTimingsBuilder { shader_timer: Some(clock_now()), ..self }
    }

    pub fn stop_shader(self) -> (r: JobTimingsBuilder)
        requires
            self.wf(),
        ensures
            r.wf(),
            r.shader is Some <==> self.shader_timer is Some,
            r == (JobTimingsBuilder { shader: r.shader, ..self }),
    {
        JobTimingsBuilder { shader: stop_span(self.shader_timer), ..self }
    }

    pub fn start_cmd(self) -> (r: JobTimingsBuilder)
        requires
            self.wf(),
        ensures
            r.wf(),
            r.cmd_timer is Some,
            r == (JobTimingsBuilder { cmd_timer: r.cmd_timer, ..self }),
    {
        JobTimingsBuilder { cmd_timer: Some(clock_now()), ..self }
    }

    pub fn stop_cmd(self) -> (r: JobTimingsBuilder)
        requires
            self.wf(),
        ensures
            r.wf(),
            r.cmd is Some <==> self.cmd_timer is Some,
            r == (JobTimingsBuilder { cmd: r.cmd, ..self }),
    {
        JobTimingsBuilder { cmd: stop_span(self.cmd_timer), ..self }
    }

    pub fn start_execution(self) -> (r: JobTimingsBuilder)
        requires
            self.wf(),
        ensures
            r.wf(),
            r.execution_timer is Some,
            r == (JobTimingsBuilder { execution_timer: r.execution_timer, ..self }),
    {
        JobTimingsBuilder { execution_timer: Some(clock_now()), ..self }
    }

    pub fn stop_execution(self) -> (r: JobTimingsBuilder)
        requires
            self.wf(),
        ensures
            r.wf(),
            r.execution is Some <==> self.execution_timer is Some,
            r == (JobTimingsBuilder { execution: r.execution, ..self }),
    {
        JobTimingsBuilder { execution: stop_span(self.execution_timer), ..self }
    }

    pub fn start_download(self) -> (r: JobTimingsBuilder)
        requires
            self.wf(),
        ensures
            r.wf(),
            r.download_timer is Some,
            r == (JobTimingsBuilder { download_timer: r.download_timer, ..self }),
    {
        JobTimingsBuilder { download_timer: Some(clock_now()), ..self }
    }

    pub fn stop_download(self) -> (r: JobTimingsBuilder)
        requires
            self.wf(),
        ensures
            r.wf(),
            r.download is Some <==> self.download_timer is Some,
            r == (JobTimingsBuilder { download: r.download, ..self }),
    {
        JobTimingsBuilder { download: stop_span(self.download_timer), ..self }
    }

    /// The durations measured so far; a phase never stopped counts as zero.
    pub fn build(self) -> (r: JobTimings)
        requires
            self.wf(),
        ensures
            r.wf(),
            r.upload == span_or_zero(self.upload),
            r.shader == span_or_zero(self.shader),
            r.cmd == span_or_zero(self.cmd),
            r.execution == span_or_zero(self.execution),
            r.download == span_or_zero(self.download),
    {
        JobTimings {
            upload: unwrap_span(self.upload),
            shader: unwrap_span(self.shader),
            cmd: unwrap_span(self.cmd),
            execution: unwrap_span(self.execution),
            download: unwrap_span(self.download),
        }
    }
}

fn unwrap_span(s: Option<TimeSpan>) -> (r: TimeSpan)
    ensures
        r == span_or_zero(s),
{
    match s {
        Some(t) => t,
        None => TimeSpan::zero(),
    }
}

} // verus!
