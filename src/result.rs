//! The accounting of one run: what succeeded, what failed and why, bytes and time.
use vstd::prelude::*;
use crate::error::{DownloadError, ErrorCategory, category_name, error_category, error_message};
use crate::text::{decimal, decimal_string};

verus! {

#[verifier::external_type_specification]
#[verifier::external_body]
pub struct ExInstant(std::time::Instant);

/// Relies on `std::time::Instant::now`; nothing is known of the value.
#[verifier::external_body]
fn now() -> (r: std::time::Instant) {
    std::time::Instant::now()
}

/// Relies on `std::time::Instant::elapsed`; nothing is known of the value.
#[verifier::external_body]
fn elapsed_since(start: &std::time::Instant) -> (r: std::time::Duration) {
    start.elapsed()
}

/// How a run ended, for the caller's exit decision.
#[derive(Debug, Clone, Copy, PartialEq, Eq, Structural)]
pub enum RunStatus {
    /// Files were listed and every one was downloaded.
    AllSucceeded,
    /// Some files were downloaded and some failed.
    Partial,
    /// No file was downloaded.
    NoneSucceeded,
}

/// The outcome of a run.
#[derive(Debug)]
pub struct DownloadResult {
    /// Each downloaded file: its URL and its local path.
    pub successful: Vec<(String, String)>,
    /// Each failed file: its URL, the error's message, the error's category.
    pub failed: Vec<(String, String, String)>,
    /// Number of files recorded.
    pub total_files: usize,
    /// Bytes downloaded in all.
    pub total_bytes: u64,
    /// When the run started.
    pub start_time: std::time::Instant,
}

/// The category names in the order in which they are reported.
pub open spec fn report_order() -> Seq<ErrorCategory> {
    seq![
        ErrorCategory::NotFound,
        ErrorCategory::Timeout,
        ErrorCategory::Permission,
        ErrorCategory::Network,
        ErrorCategory::Forbidden,
        ErrorCategory::ServerError,
        ErrorCategory::Other,
    ]
}

/// How many failures carry the category name `name`.
pub open spec fn count_of(failed: Seq<(String, String, String)>, name: Seq<char>) -> nat
    decreases failed.len(),
{
    if failed.len() == 0 {
        0
    } else {
        count_of(failed.drop_last(), name) + if failed.last().2@ == name {
            1nat
        } else {
            0nat
        }
    }
}

/// Each category of `cats` that some failure has, with its count, in order.
pub open spec fn stats_over(cats: Seq<ErrorCategory>, failed: Seq<(String, String, String)>) -> Seq<
    (Seq<char>, nat),
>
    decreases cats.len(),
{
    if cats.len() == 0 {
        seq![]
    } else {
        let prev = stats_over(cats.drop_last(), failed);
        let name = category_name(cats.last());
        let n = count_of(failed, name);
        if n > 0 {
            prev.push((name, n))
        } else {
            prev
        }
    }
}

pub open spec fn stats_view(v: Seq<(String, usize)>) -> Seq<(Seq<char>, nat)> {
    v.map_values(|e: (String, usize)| (e.0@, e.1 as nat))
}

pub(crate) fn count_category(failed: &Vec<(String, String, String)>, name: &String) -> (r: usize)
    ensures
        r == count_of(failed@, name@),
{
    let mut n: usize = 0;
    let mut i: usize = 0;
    while i < failed.len()
        invariant
            i <= failed@.len(),
            n == count_of(failed@.take(i as int), name@),
            n <= i,
        decreases failed@.len() - i,
    {
        assert(failed@.take(i + 1).drop_last() =~= failed@.take(i as int));
        if failed[i].2 == *name {
            n += 1;
        }
        i += 1;
    }
    assert(failed@.take(failed@.len() as int) =~= failed@);
    n
}

impl DownloadResult {
    /// An empty result, started now.
    pub fn new() -> (r: DownloadResult)
        ensures
            r.successful@.len() == 0,
            r.failed@.len() == 0,
            r.total_files == 0,
            r.total_bytes == 0,
    {
        DownloadResult {
            successful: Vec::new(),
            failed: Vec::new(),
            total_files: 0,
            total_bytes: 0,
            start_time: now(),
        }
    }

    /// Records a downloaded file.
    pub fn add_success(&mut self, url: String, local_path: String, bytes: u64)
        requires
            old(self).total_files < usize::MAX,
            old(self).total_bytes + bytes <= u64::MAX,
        ensures
            final(self).successful@ == old(self).successful@.push((url, local_path)),
            final(self).failed@ == old(self).failed@,
            final(self).total_files == old(self).total_files + 1,
            final(self).total_bytes == old(self).total_bytes + bytes,
            final(self).start_time == old(self).start_time,
    {
        self.successful.push((url, local_path));
        self.total_files = self.total_files + 1;
        self.total_bytes = self.total_bytes + bytes;
    }

    /// Records a failed file, with the error's message and category.
    pub fn add_failure(&mut self, url: String, error: &DownloadError)
        requires
            old(self).total_files < usize::MAX,
        ensures
            final(self).failed@.len() == old(self).failed@.len() + 1,
            final(self).failed@.drop_last() == old(self).failed@,
            final(self).failed@.last().0 == url,
            final(self).failed@.last().1@ == error_message(*error),
            final(self).failed@.last().2@ == category_name(error_category(*error)),
            final(self).successful@ == old(self).successful@,
            final(self).total_files == old(self).total_files + 1,
            final(self).total_bytes == old(self).total_bytes,
            final(self).start_time == old(self).start_time,
    {
        let category = self.categorize_error(error);
        let message = error.message();
        self.failed.push((url, message, category));
        self.total_files = self.total_files + 1;
        assert(self.failed@.drop_last() =~= old(self).failed@);
    }

    /// Records the outcome of one file: its local path and size, or its error.
    pub fn record(&mut self, url: String, outcome: Result<(String, u64), DownloadError>)
        requires
            old(self).total_files < usize::MAX,
            outcome matches Ok(p) ==> old(self).total_bytes + p.1 <= u64::MAX,
        ensures
            final(self).total_files == old(self).total_files + 1,
            outcome matches Ok(p) ==> (final(self).successful@ == old(self).successful@.push(
                (url, p.0),
            ) && final(self).failed@ == old(self).failed@ && final(self).total_bytes
                == old(self).total_bytes + p.1),
            outcome matches Err(e) ==> (final(self).successful@ == old(self).successful@
                && final(self).failed@.len() == old(self).failed@.len() + 1
                && final(self).failed@.drop_last() == old(self).failed@
                && final(self).failed@.last().0 == url
                && final(self).failed@.last().1@ == error_message(e)
                && final(self).failed@.last().2@ == category_name(error_category(e))
                && final(self).total_bytes == old(self).total_bytes),
    {
        match outcome {
            Ok((path, bytes)) => self.add_success(url, path, bytes),
            Err(e) => self.add_failure(url, &e),
        }
    }

    pub fn success_count(&self) -> (r: usize)
        ensures
            r == self.successful@.len(),
    {
        self.successful.len()
    }

    pub fn failure_count(&self) -> (r: usize)
        ensures
            r == self.failed@.len(),
    {
        self.failed.len()
    }

    /// Whether some file was downloaded and none failed.
    pub fn all_successful(&self) -> (r: bool)
        ensures
            r == (self.failed@.len() == 0 && self.successful@.len() > 0),
    {
        self.failed.len() == 0 && self.successful.len() > 0
    }

    /// How the run ended.
    pub fn run_status(&self) -> (r: RunStatus)
        ensures
            r == (if self.failed@.len() == 0 && self.successful@.len() > 0 {
                RunStatus::AllSucceeded
            } else if self.successful@.len() > 0 {
                RunStatus::Partial
            } else {
                RunStatus::NoneSucceeded
            }),
    {
        if self.all_successful() {
            RunStatus::AllSucceeded
        } else if self.success_count() > 0 {
            RunStatus::Partial
        } else {
            RunStatus::NoneSucceeded
        }
    }

    /// Time since the run started.
    pub fn duration(&self) -> std::time::Duration {
        elapsed_since(&self.start_time)
    }

    /// The report category of `error`, by name.
    pub fn categorize_error(&self, error: &DownloadError) -> (r: String)
        ensures
            r@ == category_name(error_category(*error)),
    {
        error.category().name()
    }

    /// Each category that some failure has, with its count, in report order.
    pub fn error_stats(&self) -> (r: Vec<(String, usize)>)
        ensures
            stats_view(r@) == stats_over(report_order(), self.failed@),
    {
        let cats: Vec<ErrorCategory> = vec![
            ErrorCategory::NotFound,
            ErrorCategory::Timeout,
            ErrorCategory::Permission,
            ErrorCategory::Network,
            ErrorCategory::Forbidden,
            ErrorCategory::ServerError,
            ErrorCategory::Other,
        ];
        assert(cats@ =~= report_order());
        let mut out: Vec<(String, usize)> = Vec::new();
        let mut j: usize = 0;
        assert(stats_view(out@) =~= seq![]);
        while j < cats.len()
            invariant
                j <= cats@.len(),
                cats@ == report_order(),
                stats_view(out@) == stats_over(cats@.take(j as int), self.failed@),
            decreases cats@.len() - j,
        {
            assert(cats@.take(j + 1).drop_last() =~= cats@.take(j as int));
            let name = cats[j].name();
            let n = count_category(&self.failed, &name);
            if n > 0 {
                let ghost before = out@;
                out.push((name, n));
                assert(stats_view(out@) =~= stats_view(before).push((name@, n as nat)));
            }
            j += 1;
        }
        assert(cats@.take(cats@.len() as int) =~= cats@);
        out
    }
}

impl Default for DownloadResult {
    fn default() -> (r: DownloadResult)
        ensures
            r.successful@.len() == 0,
            r.failed@.len() == 0,
            r.total_files == 0,
            r.total_bytes == 0,
    {
        DownloadResult::new()
    }
}

} // verus!

verus! {

/// How many times 1024 divides into the size shown: 0 for B up to 3 for GB.
pub open spec fn unit_index(b: nat) -> nat {
    if b < 1024 {
        0
    } else if b < 1048576 {
        1
    } else if b < 1073741824 {
        2
    } else {
        3
    }
}

pub open spec fn unit_size(k: nat) -> nat {
    if k == 1 {
        1024
    } else if k == 2 {
        1048576
    } else {
        1073741824
    }
}

pub open spec fn unit_name(k: nat) -> Seq<char> {
    if k == 0 {
        "B"@
    } else if k == 1 {
        "KB"@
    } else if k == 2 {
        "MB"@
    } else {
        "GB"@
    }
}

/// Whether `b / d`, cut to tenths, rounds up: the rest past the tenths is
/// over half a tenth, or exactly half and the tenths digit is odd.
pub open spec fn rounds_up(b: nat, d: nat) -> bool
    recommends
        d > 0,
{
    let f = ((b % d) * 10) / d;
    let r = ((b % d) * 10) % d;
    2 * r > d || (2 * r == d && f % 2 == 1)
}

/// A byte count for people: whole bytes below 1 KB, else the exact value in
/// KB, MB or GB, rounded to one decimal with ties to even.
pub open spec fn human_bytes(b: nat) -> Seq<char> {
    let k = unit_index(b);
    if k == 0 {
        decimal(b) + " B"@
    } else {
        let d = unit_size(k);
        let whole = b / d;
        let f = ((b % d) * 10) / d;
        let number = if rounds_up(b, d) && f == 9 {
            decimal(whole + 1) + seq!['.', '0']
        } else if rounds_up(b, d) {
            decimal(whole) + seq!['.', crate::text::digit_char(f + 1)]
        } else {
            decimal(whole) + seq!['.', crate::text::digit_char(f)]
        };
        number + seq![' '] + unit_name(k)
    }
}

impl DownloadResult {
    /// `bytes` in B, KB, MB or GB, with one decimal above bytes.
    pub fn format_bytes(bytes: u64) -> (r: String)
        ensures
            r@ == human_bytes(bytes as nat),
    {
        if bytes < 1024 {
            let mut s = decimal_string(bytes);
            s.append(" B");
            return s;
        }
        let (d, unit): (u64, &str) = if bytes < 1048576 {
            (1024, "KB")
        } else if bytes < 1073741824 {
            (1048576, "MB")
        } else {
            (1073741824, "GB")
        };
        let whole: u64 = bytes / d;
        let rem: u64 = bytes % d;
        let f: u64 = rem * 10 / d;
        let r: u64 = rem * 10 % d;
        let up = 2 * r > d || (2 * r == d && f % 2 == 1);
        assert(whole <= bytes / 1024) by (nonlinear_arith)
            requires
                d >= 1024,
                whole == bytes / d,
        ;
        let mut s = if up && f == 9 {
            let mut s = decimal_string(whole + 1);
            crate::text::push_char(&mut s, '.');
            crate::text::push_char(&mut s, '0');
            s
        } else {
            let mut s = decimal_string(whole);
            crate::text::push_char(&mut s, '.');
            crate::text::push_char(&mut s, crate::text::digit(if up { f + 1 } else { f }));
            s
        };
        crate::text::push_char(&mut s, ' ');
        s.append(unit);
        s
    }
}

} // verus!
