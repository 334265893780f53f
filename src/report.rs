//! The per-file part of a run's summary: what was downloaded, what failed,
//! failures grouped by category, and advice for each category seen.
use vstd::prelude::*;
use crate::result::{DownloadResult, count_of, report_order, stats_over, stats_view};
use crate::text::{decimal, decimal_string};

verus! {

pub open spec fn description(name: Seq<char>) -> Seq<char> {
    if name == "not_found"@ {
        "Files not found (404)"@
    } else if name == "timeout"@ {
        "Network timeouts"@
    } else if name == "permission"@ {
        "Permission denied"@
    } else if name == "network"@ {
        "Network/connection errors"@
    } else if name == "forbidden"@ {
        "Access forbidden (403)"@
    } else if name == "server_error"@ {
        "Server errors (5xx)"@
    } else {
        "Other errors"@
    }
}

pub open spec fn success_lines(s: Seq<(String, String)>) -> Seq<char>
    decreases s.len(),
{
    if s.len() == 0 {
        seq![]
    } else {
        success_lines(s.drop_last()) + "   • "@ + s.last().0@ + "\n     → "@ + s.last().1@ + "\n"@
    }
}

pub open spec fn failure_lines(f: Seq<(String, String, String)>) -> Seq<char>
    decreases f.len(),
{
    if f.len() == 0 {
        seq![]
    } else {
        failure_lines(f.drop_last()) + "   • "@ + f.last().0@ + "\n     ❌ "@ + f.last().1@
            + "\n"@
    }
}

pub open spec fn breakdown_lines(st: Seq<(Seq<char>, nat)>) -> Seq<char>
    decreases st.len(),
{
    if st.len() == 0 {
        seq![]
    } else {
        breakdown_lines(st.drop_last()) + "   • "@ + description(st.last().0) + ": "@ + decimal(
            st.last().1,
        ) + " file(s)\n"@
    }
}

pub open spec fn network_advice() -> Seq<char> {
    "   🌐 Network issues detected:\n      • Check your internet connection stability\n      • Verify the server is accessible from your location\n      • Try again later if the server is overloaded\n"@
}

pub open spec fn not_found_advice() -> Seq<char> {
    "   📄 Missing files detected:\n      • Some files may have been moved or deleted\n      • Check if the llms.txt file is up to date\n      • Contact the website maintainer if many files are missing\n"@
}

pub open spec fn permission_advice() -> Seq<char> {
    "   🔒 Permission issues detected:\n      • Check write permissions for the download directory\n      • Try running with elevated privileges if necessary\n      • Ensure sufficient disk space is available\n"@
}

pub open spec fn forbidden_advice() -> Seq<char> {
    "   🚫 Access restrictions detected:\n      • Some files may require authentication\n      • The server may be blocking automated requests\n      • Try accessing the files manually in a browser\n"@
}

pub open spec fn server_advice() -> Seq<char> {
    "   🔧 Server issues detected:\n      • The server is experiencing technical difficulties\n      • Try again later when the server is stable\n      • Contact the website administrator if issues persist\n"@
}

pub open spec fn when(b: bool, s: Seq<char>) -> Seq<char> {
    if b {
        s
    } else {
        seq![]
    }
}

/// Advice for each category that some failure has.
pub open spec fn advice_lines(f: Seq<(String, String, String)>) -> Seq<char> {
    when(count_of(f, "network"@) > 0 || count_of(f, "timeout"@) > 0, network_advice()) + when(
        count_of(f, "not_found"@) > 0,
        not_found_advice(),
    ) + when(count_of(f, "permission"@) > 0, permission_advice()) + when(
        count_of(f, "forbidden"@) > 0,
        forbidden_advice(),
    ) + when(count_of(f, "server_error"@) > 0, server_advice())
}

/// The per-file part of the summary of `r`.
pub open spec fn details(r: DownloadResult) -> Seq<char> {
    let stats = stats_over(report_order(), r.failed@);
    when(
        r.successful@.len() > 0,
        "\n✅ Successfully downloaded files:\n"@ + success_lines(r.successful@),
    ) + when(
        r.failed@.len() > 0,
        "\n❌ Failed downloads:\n"@ + when(
            stats.len() > 1,
            "\n📊 Error breakdown:\n"@ + breakdown_lines(stats) + "\n"@,
        ) + failure_lines(r.failed@) + "\n💡 Troubleshooting recommendations:\n"@ + advice_lines(
            r.failed@,
        ),
    )
}

fn description_of(name: &String) -> (r: String)
    ensures
        r@ == description(name@),
{
    if *name == String::from_str("not_found") {
        String::from_str("Files not found (404)")
    } else if *name == String::from_str("timeout") {
        String::from_str("Network timeouts")
    } else if *name == String::from_str("permission") {
        String::from_str("Permission denied")
    } else if *name == String::from_str("network") {
        String::from_str("Network/connection errors")
    } else if *name == String::from_str("forbidden") {
        String::from_str("Access forbidden (403)")
    } else if *name == String::from_str("server_error") {
        String::from_str("Server errors (5xx)")
    } else {
        String::from_str("Other errors")
    }
}

fn has_category(f: &Vec<(String, String, String)>, name: &str) -> (r: bool)
    ensures
        r == (count_of(f@, name@) > 0),
{
    let n = String::from_str(name);
    crate::result::count_category(f, &n) > 0
}

fn success_text(s: &Vec<(String, String)>) -> (r: String)
    ensures
        r@ == success_lines(s@),
{
    let mut out = String::new();
    let mut i: usize = 0;
    while i < s.len()
        invariant
            i <= s@.len(),
            out@ == success_lines(s@.take(i as int)),
        decreases s@.len() - i,
    {
        assert(s@.take(i + 1).drop_last() =~= s@.take(i as int));
        out.append("   • ");
        out.append(s[i].0.as_str());
        out.append("\n     → ");
        out.append(s[i].1.as_str());
        out.append("\n");
        i += 1;
    }
    assert(s@.take(s@.len() as int) =~= s@);
    out
}

fn failure_text(f: &Vec<(String, String, String)>) -> (r: String)
    ensures
        r@ == failure_lines(f@),
{
    let mut out = String::new();
    let mut i: usize = 0;
    while i < f.len()
        invariant
            i <= f@.len(),
            out@ == failure_lines(f@.take(i as int)),
        decreases f@.len() - i,
    {
        assert(f@.take(i + 1).drop_last() =~= f@.take(i as int));
        out.append("   • ");
        out.append(f[i].0.as_str());
        out.append("\n     ❌ ");
        out.append(f[i].1.as_str());
        out.append("\n");
        i += 1;
    }
    assert(f@.take(f@.len() as int) =~= f@);
    out
}

fn breakdown_text(stats: &Vec<(String, usize)>) -> (r: String)
    ensures
        r@ == breakdown_lines(stats_view(stats@)),
{
    let mut out = String::new();
    let mut j: usize = 0;
    while j < stats.len()
        invariant
            j <= stats@.len(),
            out@ == breakdown_lines(stats_view(stats@.take(j as int))),
        decreases stats@.len() - j,
    {
        assert(stats_view(stats@.take(j + 1)).drop_last() =~= stats_view(stats@.take(j as int)));
        out.append("   • ");
        let d = description_of(&stats[j].0);
        out.append(d.as_str());
        out.append(": ");
        let c = decimal_string(stats[j].1 as u64);
        out.append(c.as_str());
        out.append(" file(s)\n");
        j += 1;
    }
    assert(stats@.take(stats@.len() as int) =~= stats@);
    out
}

fn advice_text(f: &Vec<(String, String, String)>) -> (r: String)
    ensures
        r@ == advice_lines(f@),
{
    let mut out = String::new();
    if has_category(f, "network") || has_category(f, "timeout") {
        out.append(
            "   🌐 Network issues detected:\n      • Check your internet connection stability\n      • Verify the server is accessible from your location\n      • Try again later if the server is overloaded\n",
        );
    }
    if has_category(f, "not_found") {
        out.append(
            "   📄 Missing files detected:\n      • Some files may have been moved or deleted\n      • Check if the llms.txt file is up to date\n      • Contact the website maintainer if many files are missing\n",
        );
    }
    if has_category(f, "permission") {
        out.append(
            "   🔒 Permission issues detected:\n      • Check write permissions for the download directory\n      • Try running with elevated privileges if necessary\n      • Ensure sufficient disk space is available\n",
        );
    }
    if has_category(f, "forbidden") {
        out.append(
            "   🚫 Access restrictions detected:\n      • Some files may require authentication\n      • The server may be blocking automated requests\n      • Try accessing the files manually in a browser\n",
        );
    }
    if has_category(f, "server_error") {
        out.append(
            "   🔧 Server issues detected:\n      • The server is experiencing technical difficulties\n      • Try again later when the server is stable\n      • Contact the website administrator if issues persist\n",
        );
    }
    assert(out@ =~= advice_lines(f@));
    out
}

impl DownloadResult {
    /// The per-file part of the run's summary: the downloaded files, then the
    /// failures with a breakdown by category (where there are several) and
    /// advice for each category seen.
    pub fn details(&self) -> (r: String)
        ensures
            r@ == details(*self),
    {
        let mut first = String::new();
        if self.successful.len() > 0 {
            first.append("\n✅ Successfully downloaded files:\n");
            let lines = success_text(&self.successful);
            first.append(lines.as_str());
        }
        let mut second = String::new();
        if self.failed.len() > 0 {
            second.append("\n❌ Failed downloads:\n");
            let stats = self.error_stats();
            let ghost head = second@;
            if stats.len() > 1 {
                second.append("\n📊 Error breakdown:\n");
                let b = breakdown_text(&stats);
                second.append(b.as_str());
                second.append("\n");
            }
            assert(stats_view(stats@).len() == stats@.len());
            assert(second@ =~= head + when(
                stats_over(report_order(), self.failed@).len() > 1,
                "\n📊 Error breakdown:\n"@ + breakdown_lines(stats_over(report_order(), self.failed@))
                    + "\n"@,
            ));
            let fl = failure_text(&self.failed);
            second.append(fl.as_str());
            second.append("\n💡 Troubleshooting recommendations:\n");
            let adv = advice_text(&self.failed);
            second.append(adv.as_str());
        }
        first.append(second.as_str());
        first
    }
}

} // verus!
