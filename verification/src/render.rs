//! Rendering a summary into the status-bar text protocol: a title line with
//! icon, counts and color, a `---` separator, one detail line per result in
//! order, a second separator, and the refresh footer. `spec_render` pins the
//! output down to the character, so rendering is a pure, deterministic
//! function of the summary, and no section is ever omitted — an empty or
//! all-down round still yields the full protocol.

use vstd::prelude::*;

use crate::aggregate::{overall_status, spec_overall_status, OverallStatus, Summary};
use crate::probe::{event_error, event_latency, event_up, ProbeError, ProbeResult, TransportEvent};
use crate::text::{spec_digits, u64_digits};

verus! {

/// The title icon for each overall state.
pub open spec fn spec_status_icon(st: OverallStatus) -> Seq<char> {
    match st {
        OverallStatus::AllUp => "\u{2705}"@,
        OverallStatus::AllDown => "\u{274C}"@,
        OverallStatus::Partial => "\u{26A0}\u{FE0F}"@,
    }
}

/// The title color for each overall state.
pub open spec fn spec_status_color(st: OverallStatus) -> Seq<char> {
    match st {
        OverallStatus::AllUp => "green"@,
        OverallStatus::AllDown => "red"@,
        OverallStatus::Partial => "yellow"@,
    }
}

/// The text a down line shows for each error kind; a connect failure shows
/// the transport's own description.
pub open spec fn spec_error_text(e: Option<ProbeError>) -> Seq<char> {
    match e {
        None => Seq::<char>::empty(),
        Some(ProbeError::ConnectFailure { detail }) => detail@,
        Some(ProbeError::WriteFailure) => "Write failed"@,
        Some(ProbeError::NoResponse) => "No response"@,
        Some(ProbeError::UnacceptedStatus) => "Unaccepted status"@,
        Some(ProbeError::MalformedResponse) => "Malformed response"@,
    }
}

/// The title line: icon, `up/total Up` and the color token.
pub open spec fn spec_title_line(up: nat, total: nat) -> Seq<char> {
    spec_status_icon(spec_overall_status(up, total)) + " "@ + spec_digits(up) + "/"@ + spec_digits(
        total,
    ) + " Up | color="@ + spec_status_color(spec_overall_status(up, total)) + "\n"@
}

/// One per-target detail line: latency for an up target, the error text and
/// a red color token for a down one.
pub open spec fn spec_detail_line(r: ProbeResult) -> Seq<char> {
    if r.reachable {
        "\u{2705} "@ + r.target_name@ + " - "@ + spec_digits(r.latency_ms as nat) + "ms\n"@
    } else {
        "\u{274C} "@ + r.target_name@ + " - "@ + spec_error_text(r.error) + " | color=red\n"@
    }
}

/// All detail lines, in result order.
pub open spec fn spec_detail_lines(rs: Seq<ProbeResult>) -> Seq<char>
    decreases rs.len(),
{
    if rs.len() == 0 {
        Seq::<char>::empty()
    } else {
        spec_detail_lines(rs.drop_last()) + spec_detail_line(rs.last())
    }
}

/// The whole output: title, separator, detail lines, separator, footer.
pub open spec fn spec_render(s: Summary) -> Seq<char> {
    spec_title_line(s.up_count as nat, s.total as nat) + "---\n"@ + spec_detail_lines(s.results@)
        + "---\n"@ + "Refresh | refresh=true\n"@
}

/// The icon for an overall state.
fn status_icon(st: OverallStatus) -> (r: &'static str)
    ensures
        r@ == spec_status_icon(st),
{
    match st {
        OverallStatus::AllUp => "\u{2705}",
        OverallStatus::AllDown => "\u{274C}",
        OverallStatus::Partial => "\u{26A0}\u{FE0F}",
    }
}

/// The color for an overall state.
fn status_color(st: OverallStatus) -> (r: &'static str)
    ensures
        r@ == spec_status_color(st),
{
    match st {
        OverallStatus::AllUp => "green",
        OverallStatus::AllDown => "red",
        OverallStatus::Partial => "yellow",
    }
}

/// Formats an error as the text its detail line shows.
pub fn error_text(e: &Option<ProbeError>) -> (t: String)
    ensures
        t@ == spec_error_text(*e),
{
    match e {
        None => String::new(),
        Some(ProbeError::ConnectFailure { detail }) => detail.clone(),
        Some(ProbeError::WriteFailure) => "Write failed".to_owned(),
        Some(ProbeError::NoResponse) => "No response".to_owned(),
        Some(ProbeError::UnacceptedStatus) => "Unaccepted status".to_owned(),
        Some(ProbeError::MalformedResponse) => "Malformed response".to_owned(),
    }
}

/// Renders one result's detail line.
pub fn render_detail_line(r: &ProbeResult) -> (line: String)
    ensures
        line@ == spec_detail_line(*r),
{
    let mut line = String::new();
    if r.reachable {
        line.append("\u{2705} ");
        line.append(r.target_name.as_str());
        line.append(" - ");
        let lat = u64_digits(r.latency_ms);
        line.append(lat.as_str());
        line.append("ms\n");
        proof {
            assert(line@ =~= spec_detail_line(*r));
        }
    } else {
        line.append("\u{274C} ");
        line.append(r.target_name.as_str());
        line.append(" - ");
        let err = error_text(&r.error);
        line.append(err.as_str());
        line.append(" | color=red\n");
        proof {
            assert(line@ =~= spec_detail_line(*r));
        }
    }
    line
}

/// Renders the whole summary, exactly as `spec_render` says. Pure and
/// deterministic: the output is a function of the summary alone.
pub fn render(s: &Summary) -> (out: String)
    ensures
        out@ == spec_render(*s),
{
    let st = overall_status(s.up_count, s.total);
    let mut out = String::new();
    out.append(status_icon(st));
    out.append(" ");
    let up_digits = u64_digits(s.up_count as u64);
    out.append(up_digits.as_str());
    out.append("/");
    let total_digits = u64_digits(s.total as u64);
    out.append(total_digits.as_str());
    out.append(" Up | color=");
    out.append(status_color(st));
    out.append("\n");
    out.append("---\n");
    let ghost head: Seq<char> = out@;
    proof {
        assert(head =~= spec_title_line(s.up_count as nat, s.total as nat) + "---\n"@);
        assert(out@ =~= head + spec_detail_lines(s.results@.subrange(0, 0)));
    }
    let n = s.results.len();
    let mut i: usize = 0;
    while i < n
        invariant
            n == s.results@.len(),
            i <= n,
            head == spec_title_line(s.up_count as nat, s.total as nat) + "---\n"@,
            out@ == head + spec_detail_lines(s.results@.subrange(0, i as int)),
        decreases n - i,
    {
        let line = render_detail_line(&s.results[i]);
        out.append(line.as_str());
        proof {
            assert(s.results@.subrange(0, i + 1).drop_last() =~= s.results@.subrange(0, i as int));
            assert(s.results@.subrange(0, i + 1).last() == s.results@[i as int]);
            assert(out@ =~= head + spec_detail_lines(s.results@.subrange(0, i + 1)));
        }
        i += 1;
    }
    out.append("---\n");
    out.append("Refresh | refresh=true\n");
    proof {
        assert(s.results@.subrange(0, n as int) =~= s.results@);
        assert(out@ =~= spec_render(*s));
    }
    out
}

/// Rendering is deterministic: identical summaries render to identical text.
pub proof fn lemma_render_deterministic(a: Summary, b: Summary)
    requires
        a == b,
    ensures
        spec_render(a) == spec_render(b),
{
}

/// A connect failure (resolution or connection failed or timed out) yields a
/// down verdict with zero latency and, as long as the transport described
/// the failure at all, a non-empty error text on its detail line. The
/// aggregator probes each target exactly once, so the failure is never
/// retried within an invocation.
pub proof fn lemma_connect_failure_down(ev: TransportEvent)
    requires
        ev matches TransportEvent::ConnectFailed { detail } && detail@.len() > 0,
    ensures
        !event_up(ev),
        event_latency(ev) == 0,
        event_error(ev) matches Some(ProbeError::ConnectFailure { .. }),
        spec_error_text(event_error(ev)).len() > 0,
{
}

} // verus!
