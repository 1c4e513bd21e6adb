//! The text of metric lines.

use vstd::prelude::*;
use vstd::string::*;

use crate::diagnostics::CloseFacePhases;
use crate::diagnostics::FlushLine;
use crate::diagnostics::LockLine;
use crate::diagnostics::MetricLine;
use crate::diagnostics::RoutingLine;
use crate::diagnostics::TimingLine;

verus! {

/// The character of a digit.
pub open spec fn digit_char(d: nat) -> char {
    if d == 0 {
        '0'
    } else if d == 1 {
        '1'
    } else if d == 2 {
        '2'
    } else if d == 3 {
        '3'
    } else if d == 4 {
        '4'
    } else if d == 5 {
        '5'
    } else if d == 6 {
        '6'
    } else if d == 7 {
        '7'
    } else if d == 8 {
        '8'
    } else {
        '9'
    }
}

/// A number in decimal.
pub open spec fn decimal_text(n: nat) -> Seq<char>
    decreases n,
{
    if n < 10 {
        seq![digit_char(n)]
    } else {
        decimal_text(n / 10).push(digit_char(n % 10))
    }
}

fn digit(d: u8) -> (text: &'static str)
    requires
        d < 10,
    ensures
        text@ == seq![digit_char(d as nat)],
{
    proof {
        reveal_strlit("0");
        reveal_strlit("1");
        reveal_strlit("2");
        reveal_strlit("3");
        reveal_strlit("4");
        reveal_strlit("5");
        reveal_strlit("6");
        reveal_strlit("7");
        reveal_strlit("8");
        reveal_strlit("9");
    }
    match d {
        0 => "0",
        1 => "1",
        2 => "2",
        3 => "3",
        4 => "4",
        5 => "5",
        6 => "6",
        7 => "7",
        8 => "8",
        _ => "9",
    }
}

/// A number in decimal.
pub fn decimal(n: u128) -> (text: String)
    ensures
        text@ == decimal_text(n as nat),
    decreases n,
{
    if n < 10 {
        digit(n as u8).to_owned()
    } else {
        let text = decimal(n / 10).concat(digit((n % 10) as u8));
        assert(text@ =~= decimal_text(n as nat));
        text
    }
}

/// A text, a label and a number.
pub open spec fn labelled(text: Seq<char>, label: Seq<char>, n: int) -> Seq<char> {
    text + label + decimal_text(n as nat)
}

fn with_number(text: String, label: &str, n: u64) -> (res: String)
    ensures
        res@ == labelled(text@, label@, n as int),
{
    text.concat(label).concat(decimal(n as u128).as_str())
}

/// The percentiles of a wait, in microseconds.
#[derive(Clone, Copy, PartialEq, Eq, Structural, Debug)]
pub struct Percentiles {
    pub p50: u64,
    pub p90: u64,
    pub p99: u64,
    pub p999: u64,
}

/// The beginning of a line: its name, the process and the milliseconds since the reports began.
pub open spec fn head_text(name: Seq<char>, pid: u32, elapsed_ms: u128) -> Seq<char> {
    labelled(
        labelled("metric name="@ + name, " pid="@, pid as int),
        " elapsed_ms="@,
        elapsed_ms as int,
    )
}

fn head(name: &str, pid: u32, elapsed_ms: u128) -> (text: String)
    ensures
        text@ == head_text(name@, pid, elapsed_ms),
{
    let text = with_number("metric name=".to_owned().concat(name), " pid=", pid as u64);
    text.concat(" elapsed_ms=").concat(decimal(elapsed_ms).as_str())
}

/// The figures of the route caches.
pub open spec fn routing_text(text: Seq<char>, line: RoutingLine) -> Seq<char> {
    let text = labelled(
        text,
        " disable_all_routes_declare_final="@,
        line.disable_all_routes_declare_final as int,
    );
    let text = labelled(
        text,
        " disable_all_routes_peer_init="@,
        line.disable_all_routes_peer_init as int,
    );
    let text = labelled(
        text,
        " disable_all_routes_other="@,
        line.disable_all_routes_other as int,
    );
    let text = labelled(
        text,
        " compute_data_route_count="@,
        line.compute_data_route_count as int,
    );
    let text = labelled(
        text,
        " compute_data_route_avg_us="@,
        line.compute_data_route_avg_us as int,
    );
    let text = labelled(
        text,
        " compute_data_route_max_us="@,
        line.compute_data_route_max_us as int,
    );
    let text = labelled(text, " route_cache_hit="@, line.route_cache_hit as int);
    labelled(text, " route_cache_miss="@, line.route_cache_miss as int)
}

fn with_routing(text: String, line: &RoutingLine) -> (res: String)
    ensures
        res@ == routing_text(text@, *line),
{
    let text = with_number(
        text,
        " disable_all_routes_declare_final=",
        line.disable_all_routes_declare_final,
    );
    let text = with_number(
        text,
        " disable_all_routes_peer_init=",
        line.disable_all_routes_peer_init,
    );
    let text = with_number(text, " disable_all_routes_other=", line.disable_all_routes_other);
    let text = with_number(text, " compute_data_route_count=", line.compute_data_route_count);
    let text = with_number(text, " compute_data_route_avg_us=", line.compute_data_route_avg_us);
    let text = with_number(text, " compute_data_route_max_us=", line.compute_data_route_max_us);
    let text = with_number(text, " route_cache_hit=", line.route_cache_hit);
    with_number(text, " route_cache_miss=", line.route_cache_miss)
}

/// The figures of a lock that is taken at several sites.
pub open spec fn site_lock_text(text: Seq<char>, line: LockLine, p: Percentiles) -> Seq<char> {
    let text = labelled(text, " count="@, line.count as int);
    let text = labelled(text, " acquire_wait_avg_us="@, line.wait_avg_us as int);
    let text = labelled(text, " acquire_wait_max_us="@, line.wait_max_us as int);
    let text = labelled(text, " acquire_wait_p50_us="@, p.p50 as int);
    let text = labelled(text, " acquire_wait_p90_us="@, p.p90 as int);
    let text = labelled(text, " acquire_wait_p99_us="@, p.p99 as int);
    let text = labelled(text, " acquire_wait_p999_us="@, p.p999 as int);
    let text = labelled(text, " hold_avg_us="@, line.hold_avg_us as int);
    labelled(text, " hold_max_us="@, line.hold_max_us as int)
}

fn with_site_lock(text: String, line: &LockLine, p: &Percentiles) -> (res: String)
    ensures
        res@ == site_lock_text(text@, *line, *p),
{
    let text = with_number(text, " count=", line.count);
    let text = with_number(text, " acquire_wait_avg_us=", line.wait_avg_us);
    let text = with_number(text, " acquire_wait_max_us=", line.wait_max_us);
    let text = with_number(text, " acquire_wait_p50_us=", p.p50);
    let text = with_number(text, " acquire_wait_p90_us=", p.p90);
    let text = with_number(text, " acquire_wait_p99_us=", p.p99);
    let text = with_number(text, " acquire_wait_p999_us=", p.p999);
    let text = with_number(text, " hold_avg_us=", line.hold_avg_us);
    with_number(text, " hold_max_us=", line.hold_max_us)
}

/// The figures of a lock that is taken at one site.
pub open spec fn lock_text(text: Seq<char>, line: LockLine, p: Percentiles) -> Seq<char> {
    let text = labelled(text, " count="@, line.count as int);
    let text = labelled(text, " wait_avg_us="@, line.wait_avg_us as int);
    let text = labelled(text, " wait_max_us="@, line.wait_max_us as int);
    let text = labelled(text, " wait_p50_us="@, p.p50 as int);
    let text = labelled(text, " wait_p90_us="@, p.p90 as int);
    let text = labelled(text, " wait_p99_us="@, p.p99 as int);
    let text = labelled(text, " wait_p999_us="@, p.p999 as int);
    let text = labelled(text, " hold_avg_us="@, line.hold_avg_us as int);
    labelled(text, " hold_max_us="@, line.hold_max_us as int)
}

fn with_lock(text: String, line: &LockLine, p: &Percentiles) -> (res: String)
    ensures
        res@ == lock_text(text@, *line, *p),
{
    let text = with_number(text, " count=", line.count);
    let text = with_number(text, " wait_avg_us=", line.wait_avg_us);
    let text = with_number(text, " wait_max_us=", line.wait_max_us);
    let text = with_number(text, " wait_p50_us=", p.p50);
    let text = with_number(text, " wait_p90_us=", p.p90);
    let text = with_number(text, " wait_p99_us=", p.p99);
    let text = with_number(text, " wait_p999_us=", p.p999);
    let text = with_number(text, " hold_avg_us=", line.hold_avg_us);
    with_number(text, " hold_max_us=", line.hold_max_us)
}

/// The figures of flushes.
pub open spec fn flush_text(text: Seq<char>, line: FlushLine) -> Seq<char> {
    let text = labelled(text, " count="@, line.count as int);
    let text = labelled(text, " elapsed_avg_us="@, line.elapsed_avg_us as int);
    let text = labelled(text, " elapsed_max_us="@, line.elapsed_max_us as int);
    let text = labelled(text, " declares_avg="@, line.declares_avg as int);
    labelled(text, " declares_max="@, line.declares_max as int)
}

fn with_flush(text: String, line: &FlushLine) -> (res: String)
    ensures
        res@ == flush_text(text@, *line),
{
    let text = with_number(text, " count=", line.count);
    let text = with_number(text, " elapsed_avg_us=", line.elapsed_avg_us);
    let text = with_number(text, " elapsed_max_us=", line.elapsed_max_us);
    let text = with_number(text, " declares_avg=", line.declares_avg);
    with_number(text, " declares_max=", line.declares_max)
}

/// The figures of an operation.
pub open spec fn timing_text(text: Seq<char>, line: TimingLine) -> Seq<char> {
    let text = labelled(text, " count="@, line.count as int);
    let text = labelled(text, " avg_us="@, line.avg_us as int);
    labelled(text, " max_us="@, line.max_us as int)
}

fn with_timing(text: String, line: &TimingLine) -> (res: String)
    ensures
        res@ == timing_text(text@, *line),
{
    let text = with_number(text, " count=", line.count);
    let text = with_number(text, " avg_us=", line.avg_us);
    with_number(text, " max_us=", line.max_us)
}

/// The text of a line. Only the line of a lock has percentiles.
pub open spec fn metric_text(
    line: MetricLine,
    pid: u32,
    elapsed_ms: u128,
    p: Percentiles,
) -> Seq<char> {
    match line {
        MetricLine::Routing(line) => routing_text(
            head_text("routing_diag"@, pid, elapsed_ms),
            line,
        ),
        MetricLine::WTables(site, line) => site_lock_text(
            head_text("wtables_diag"@, pid, elapsed_ms) + " site="@ + site.label(),
            line,
            p,
        ),
        MetricLine::WTablesFlush(site, line) => flush_text(
            head_text("wtables_flush_diag"@, pid, elapsed_ms) + " site="@ + site.label(),
            line,
        ),
        MetricLine::CtrlLock(site, line) => site_lock_text(
            head_text("ctrl_lock_diag"@, pid, elapsed_ms) + " site="@ + site.label(),
            line,
            p,
        ),
        MetricLine::Repropagate(kind, line) => timing_text(
            head_text("repropagate_diag"@, pid, elapsed_ms) + " kind="@ + kind.label(),
            line,
        ),
        MetricLine::RepropagateSubsStep(step, line) => timing_text(
            head_text("repropagate_subs_step_diag"@, pid, elapsed_ms) + " step="@ + step.label(),
            line,
        ),
        MetricLine::FlushDeclare(line) => timing_text(
            head_text("flush_declare_diag"@, pid, elapsed_ms),
            line,
        ),
        MetricLine::NewTransportUnicast(line) => timing_text(
            head_text("new_transport_unicast_diag"@, pid, elapsed_ms),
            line,
        ),
        MetricLine::RTables(line) => lock_text(
            head_text("rtables_diag"@, pid, elapsed_ms),
            line,
            p,
        ),
    }
}

impl MetricLine {
    /// The text of the line, printed by the process `pid` as long after the reports began. Only the
    /// line of a lock has percentiles.
    pub fn text(&self, pid: u32, elapsed_ms: u128, p: &Percentiles) -> (text: String)
        ensures
            text@ == metric_text(*self, pid, elapsed_ms, *p),
    {
        match self {
            MetricLine::Routing(line) => with_routing(head("routing_diag", pid, elapsed_ms), line),
            MetricLine::WTables(site, line) => with_site_lock(
                head("wtables_diag", pid, elapsed_ms).concat(" site=").concat(site.name()),
                line,
                p,
            ),
            MetricLine::WTablesFlush(site, line) => with_flush(
                head("wtables_flush_diag", pid, elapsed_ms).concat(" site=").concat(site.name()),
                line,
            ),
            MetricLine::CtrlLock(site, line) => with_site_lock(
                head("ctrl_lock_diag", pid, elapsed_ms).concat(" site=").concat(site.name()),
                line,
                p,
            ),
            MetricLine::Repropagate(kind, line) => with_timing(
                head("repropagate_diag", pid, elapsed_ms).concat(" kind=").concat(kind.name()),
                line,
            ),
            MetricLine::RepropagateSubsStep(step, line) => with_timing(
                head("repropagate_subs_step_diag", pid, elapsed_ms).concat(" step=").concat(
                    step.name(),
                ),
                line,
            ),
            MetricLine::FlushDeclare(line) => with_timing(
                head("flush_declare_diag", pid, elapsed_ms),
                line,
            ),
            MetricLine::NewTransportUnicast(line) => with_timing(
                head("new_transport_unicast_diag", pid, elapsed_ms),
                line,
            ),
            MetricLine::RTables(line) => with_lock(
                head("rtables_diag", pid, elapsed_ms),
                line,
                p,
            ),
        }
    }
}

/// The text of the phases of closing a face.
pub open spec fn phases_text(phases: CloseFacePhases, face_id: u64) -> Seq<char> {
    let text = labelled("metric name=close_diag"@, " face_id="@, face_id as int);
    let text = labelled(text, " terminate_us="@, phases.terminate_us as int);
    let text = labelled(
        text,
        " finalize_pending_queries_us="@,
        phases.finalize_pending_queries_us as int,
    );
    let text = labelled(text, " ctrl_lock_acquire_us="@, phases.ctrl_lock_acquire_us as int);
    let text = labelled(
        text,
        " finalize_pending_interests_us="@,
        phases.finalize_pending_interests_us as int,
    );
    let text = labelled(text, " wtables_acquire_us="@, phases.wtables_acquire_us as int);
    let text = labelled(text, " close_face_body_us="@, phases.close_face_body_us as int);
    let text = labelled(text, " send_declares_us="@, phases.send_declares_us as int);
    labelled(text, " total_us="@, phases.sum_us())
}

impl CloseFacePhases {
    /// The text of the phases of closing a face.
    pub fn text(&self, face_id: u64) -> (text: String)
        requires
            self.sum_us() <= u64::MAX,
        ensures
            text@ == phases_text(*self, face_id),
    {
        let text = with_number("metric name=close_diag".to_owned(), " face_id=", face_id);
        let text = with_number(text, " terminate_us=", self.terminate_us);
        let text = with_number(
            text,
            " finalize_pending_queries_us=",
            self.finalize_pending_queries_us,
        );
        let text = with_number(text, " ctrl_lock_acquire_us=", self.ctrl_lock_acquire_us);
        let text = with_number(
            text,
            " finalize_pending_interests_us=",
            self.finalize_pending_interests_us,
        );
        let text = with_number(text, " wtables_acquire_us=", self.wtables_acquire_us);
        let text = with_number(text, " close_face_body_us=", self.close_face_body_us);
        let text = with_number(text, " send_declares_us=", self.send_declares_us);
        with_number(text, " total_us=", self.total_us())
    }
}

/// The text tells `n` under the name `label`: behind the name stand the digits of the number, and
/// behind these the text ends or a blank follows.
pub open spec fn tells(text: Seq<char>, label: Seq<char>, n: int) -> bool {
    exists|before: Seq<char>, after: Seq<char>|
        text == #[trigger] (before + label + decimal_text(n as nat) + after) && (after.len() == 0
            || after[0] == ' ')
}

/// What a text tells and how it begins stays when a figure is appended, which it then tells too.
proof fn figure_is_appended(text: Seq<char>, label: Seq<char>, n: int)
    requires
        label.len() > 0,
        label[0] == ' ',
    ensures
        tells(labelled(text, label, n), label, n),
        text.is_prefix_of(labelled(text, label, n)),
        forall|other: Seq<char>, m: int| #[trigger]
            tells(text, other, m) ==> tells(labelled(text, label, n), other, m),
{
    let longer = labelled(text, label, n);
    assert(longer =~= text + label + decimal_text(n as nat) + Seq::<char>::empty());
    assert forall|other: Seq<char>, m: int| #[trigger] tells(text, other, m) implies tells(
        longer,
        other,
        m,
    ) by {
        let (before, after) = choose|before: Seq<char>, after: Seq<char>|
            text == #[trigger] (before + other + decimal_text(m as nat) + after) && (after.len()
                == 0 || after[0] == ' ');
        let rest = after + label + decimal_text(n as nat);
        assert(longer =~= before + other + decimal_text(m as nat) + rest);
    }
}

/// The text of the route caches tells each of their figures under its name.
pub proof fn route_cache_figures_are_told(text: Seq<char>, line: RoutingLine)
    ensures
        text.is_prefix_of(routing_text(text, line)),
        tells(routing_text(text, line), " disable_all_routes_declare_final="@, line.disable_all_routes_declare_final as int),
        tells(routing_text(text, line), " disable_all_routes_peer_init="@, line.disable_all_routes_peer_init as int),
        tells(routing_text(text, line), " disable_all_routes_other="@, line.disable_all_routes_other as int),
        tells(routing_text(text, line), " compute_data_route_count="@, line.compute_data_route_count as int),
        tells(routing_text(text, line), " compute_data_route_avg_us="@, line.compute_data_route_avg_us as int),
        tells(routing_text(text, line), " compute_data_route_max_us="@, line.compute_data_route_max_us as int),
        tells(routing_text(text, line), " route_cache_hit="@, line.route_cache_hit as int),
        tells(routing_text(text, line), " route_cache_miss="@, line.route_cache_miss as int),
{
    reveal_strlit(" disable_all_routes_declare_final=");
    reveal_strlit(" disable_all_routes_peer_init=");
    reveal_strlit(" disable_all_routes_other=");
    reveal_strlit(" compute_data_route_count=");
    reveal_strlit(" compute_data_route_avg_us=");
    reveal_strlit(" compute_data_route_max_us=");
    reveal_strlit(" route_cache_hit=");
    reveal_strlit(" route_cache_miss=");
    figure_is_appended(text, " disable_all_routes_declare_final="@, line.disable_all_routes_declare_final as int);
    let t1 = labelled(text, " disable_all_routes_declare_final="@, line.disable_all_routes_declare_final as int);
    figure_is_appended(t1, " disable_all_routes_peer_init="@, line.disable_all_routes_peer_init as int);
    let t2 = labelled(t1, " disable_all_routes_peer_init="@, line.disable_all_routes_peer_init as int);
    figure_is_appended(t2, " disable_all_routes_other="@, line.disable_all_routes_other as int);
    let t3 = labelled(t2, " disable_all_routes_other="@, line.disable_all_routes_other as int);
    figure_is_appended(t3, " compute_data_route_count="@, line.compute_data_route_count as int);
    let t4 = labelled(t3, " compute_data_route_count="@, line.compute_data_route_count as int);
    figure_is_appended(t4, " compute_data_route_avg_us="@, line.compute_data_route_avg_us as int);
    let t5 = labelled(t4, " compute_data_route_avg_us="@, line.compute_data_route_avg_us as int);
    figure_is_appended(t5, " compute_data_route_max_us="@, line.compute_data_route_max_us as int);
    let t6 = labelled(t5, " compute_data_route_max_us="@, line.compute_data_route_max_us as int);
    figure_is_appended(t6, " route_cache_hit="@, line.route_cache_hit as int);
    let t7 = labelled(t6, " route_cache_hit="@, line.route_cache_hit as int);
    figure_is_appended(t7, " route_cache_miss="@, line.route_cache_miss as int);
}

/// The text of a lock that is taken at several sites tells each of its figures under its name.
pub proof fn site_lock_figures_are_told(text: Seq<char>, line: LockLine, p: Percentiles)
    ensures
        text.is_prefix_of(site_lock_text(text, line, p)),
        tells(site_lock_text(text, line, p), " count="@, line.count as int),
        tells(site_lock_text(text, line, p), " acquire_wait_avg_us="@, line.wait_avg_us as int),
        tells(site_lock_text(text, line, p), " acquire_wait_max_us="@, line.wait_max_us as int),
        tells(site_lock_text(text, line, p), " acquire_wait_p50_us="@, p.p50 as int),
        tells(site_lock_text(text, line, p), " acquire_wait_p90_us="@, p.p90 as int),
        tells(site_lock_text(text, line, p), " acquire_wait_p99_us="@, p.p99 as int),
        tells(site_lock_text(text, line, p), " acquire_wait_p999_us="@, p.p999 as int),
        tells(site_lock_text(text, line, p), " hold_avg_us="@, line.hold_avg_us as int),
        tells(site_lock_text(text, line, p), " hold_max_us="@, line.hold_max_us as int),
{
    reveal_strlit(" count=");
    reveal_strlit(" acquire_wait_avg_us=");
    reveal_strlit(" acquire_wait_max_us=");
    reveal_strlit(" acquire_wait_p50_us=");
    reveal_strlit(" acquire_wait_p90_us=");
    reveal_strlit(" acquire_wait_p99_us=");
    reveal_strlit(" acquire_wait_p999_us=");
    reveal_strlit(" hold_avg_us=");
    reveal_strlit(" hold_max_us=");
    figure_is_appended(text, " count="@, line.count as int);
    let t1 = labelled(text, " count="@, line.count as int);
    figure_is_appended(t1, " acquire_wait_avg_us="@, line.wait_avg_us as int);
    let t2 = labelled(t1, " acquire_wait_avg_us="@, line.wait_avg_us as int);
    figure_is_appended(t2, " acquire_wait_max_us="@, line.wait_max_us as int);
    let t3 = labelled(t2, " acquire_wait_max_us="@, line.wait_max_us as int);
    figure_is_appended(t3, " acquire_wait_p50_us="@, p.p50 as int);
    let t4 = labelled(t3, " acquire_wait_p50_us="@, p.p50 as int);
    figure_is_appended(t4, " acquire_wait_p90_us="@, p.p90 as int);
    let t5 = labelled(t4, " acquire_wait_p90_us="@, p.p90 as int);
    figure_is_appended(t5, " acquire_wait_p99_us="@, p.p99 as int);
    let t6 = labelled(t5, " acquire_wait_p99_us="@, p.p99 as int);
    figure_is_appended(t6, " acquire_wait_p999_us="@, p.p999 as int);
    let t7 = labelled(t6, " acquire_wait_p999_us="@, p.p999 as int);
    figure_is_appended(t7, " hold_avg_us="@, line.hold_avg_us as int);
    let t8 = labelled(t7, " hold_avg_us="@, line.hold_avg_us as int);
    figure_is_appended(t8, " hold_max_us="@, line.hold_max_us as int);
}

/// The text of a lock that is taken at one site tells each of its figures under its name.
pub proof fn lock_figures_are_told(text: Seq<char>, line: LockLine, p: Percentiles)
    ensures
        text.is_prefix_of(lock_text(text, line, p)),
        tells(lock_text(text, line, p), " count="@, line.count as int),
        tells(lock_text(text, line, p), " wait_avg_us="@, line.wait_avg_us as int),
        tells(lock_text(text, line, p), " wait_max_us="@, line.wait_max_us as int),
        tells(lock_text(text, line, p), " wait_p50_us="@, p.p50 as int),
        tells(lock_text(text, line, p), " wait_p90_us="@, p.p90 as int),
        tells(lock_text(text, line, p), " wait_p99_us="@, p.p99 as int),
        tells(lock_text(text, line, p), " wait_p999_us="@, p.p999 as int),
        tells(lock_text(text, line, p), " hold_avg_us="@, line.hold_avg_us as int),
        tells(lock_text(text, line, p), " hold_max_us="@, line.hold_max_us as int),
{
    reveal_strlit(" count=");
    reveal_strlit(" wait_avg_us=");
    reveal_strlit(" wait_max_us=");
    reveal_strlit(" wait_p50_us=");
    reveal_strlit(" wait_p90_us=");
    reveal_strlit(" wait_p99_us=");
    reveal_strlit(" wait_p999_us=");
    reveal_strlit(" hold_avg_us=");
    reveal_strlit(" hold_max_us=");
    figure_is_appended(text, " count="@, line.count as int);
    let t1 = labelled(text, " count="@, line.count as int);
    figure_is_appended(t1, " wait_avg_us="@, line.wait_avg_us as int);
    let t2 = labelled(t1, " wait_avg_us="@, line.wait_avg_us as int);
    figure_is_appended(t2, " wait_max_us="@, line.wait_max_us as int);
    let t3 = labelled(t2, " wait_max_us="@, line.wait_max_us as int);
    figure_is_appended(t3, " wait_p50_us="@, p.p50 as int);
    let t4 = labelled(t3, " wait_p50_us="@, p.p50 as int);
    figure_is_appended(t4, " wait_p90_us="@, p.p90 as int);
    let t5 = labelled(t4, " wait_p90_us="@, p.p90 as int);
    figure_is_appended(t5, " wait_p99_us="@, p.p99 as int);
    let t6 = labelled(t5, " wait_p99_us="@, p.p99 as int);
    figure_is_appended(t6, " wait_p999_us="@, p.p999 as int);
    let t7 = labelled(t6, " wait_p999_us="@, p.p999 as int);
    figure_is_appended(t7, " hold_avg_us="@, line.hold_avg_us as int);
    let t8 = labelled(t7, " hold_avg_us="@, line.hold_avg_us as int);
    figure_is_appended(t8, " hold_max_us="@, line.hold_max_us as int);
}

/// The text of flushes tells each of their figures under its name.
pub proof fn flush_figures_are_told(text: Seq<char>, line: FlushLine)
    ensures
        text.is_prefix_of(flush_text(text, line)),
        tells(flush_text(text, line), " count="@, line.count as int),
        tells(flush_text(text, line), " elapsed_avg_us="@, line.elapsed_avg_us as int),
        tells(flush_text(text, line), " elapsed_max_us="@, line.elapsed_max_us as int),
        tells(flush_text(text, line), " declares_avg="@, line.declares_avg as int),
        tells(flush_text(text, line), " declares_max="@, line.declares_max as int),
{
    reveal_strlit(" count=");
    reveal_strlit(" elapsed_avg_us=");
    reveal_strlit(" elapsed_max_us=");
    reveal_strlit(" declares_avg=");
    reveal_strlit(" declares_max=");
    figure_is_appended(text, " count="@, line.count as int);
    let t1 = labelled(text, " count="@, line.count as int);
    figure_is_appended(t1, " elapsed_avg_us="@, line.elapsed_avg_us as int);
    let t2 = labelled(t1, " elapsed_avg_us="@, line.elapsed_avg_us as int);
    figure_is_appended(t2, " elapsed_max_us="@, line.elapsed_max_us as int);
    let t3 = labelled(t2, " elapsed_max_us="@, line.elapsed_max_us as int);
    figure_is_appended(t3, " declares_avg="@, line.declares_avg as int);
    let t4 = labelled(t3, " declares_avg="@, line.declares_avg as int);
    figure_is_appended(t4, " declares_max="@, line.declares_max as int);
}

/// The text of an operation tells each of its figures under its name.
pub proof fn timing_figures_are_told(text: Seq<char>, line: TimingLine)
    ensures
        text.is_prefix_of(timing_text(text, line)),
        tells(timing_text(text, line), " count="@, line.count as int),
        tells(timing_text(text, line), " avg_us="@, line.avg_us as int),
        tells(timing_text(text, line), " max_us="@, line.max_us as int),
{
    reveal_strlit(" count=");
    reveal_strlit(" avg_us=");
    reveal_strlit(" max_us=");
    figure_is_appended(text, " count="@, line.count as int);
    let t1 = labelled(text, " count="@, line.count as int);
    figure_is_appended(t1, " avg_us="@, line.avg_us as int);
    let t2 = labelled(t1, " avg_us="@, line.avg_us as int);
    figure_is_appended(t2, " max_us="@, line.max_us as int);
}

/// The text of the phases of closing a face tells the face, each phase and their sum under its name.
pub proof fn phases_are_told(phases: CloseFacePhases, face_id: u64)
    ensures
        tells(phases_text(phases, face_id), " face_id="@, face_id as int),
        tells(phases_text(phases, face_id), " terminate_us="@, phases.terminate_us as int),
        tells(phases_text(phases, face_id), " finalize_pending_queries_us="@, phases.finalize_pending_queries_us as int),
        tells(phases_text(phases, face_id), " ctrl_lock_acquire_us="@, phases.ctrl_lock_acquire_us as int),
        tells(phases_text(phases, face_id), " finalize_pending_interests_us="@, phases.finalize_pending_interests_us as int),
        tells(phases_text(phases, face_id), " wtables_acquire_us="@, phases.wtables_acquire_us as int),
        tells(phases_text(phases, face_id), " close_face_body_us="@, phases.close_face_body_us as int),
        tells(phases_text(phases, face_id), " send_declares_us="@, phases.send_declares_us as int),
        tells(phases_text(phases, face_id), " total_us="@, phases.sum_us()),
{
    reveal_strlit(" face_id=");
    reveal_strlit(" terminate_us=");
    reveal_strlit(" finalize_pending_queries_us=");
    reveal_strlit(" ctrl_lock_acquire_us=");
    reveal_strlit(" finalize_pending_interests_us=");
    reveal_strlit(" wtables_acquire_us=");
    reveal_strlit(" close_face_body_us=");
    reveal_strlit(" send_declares_us=");
    reveal_strlit(" total_us=");
    let t0 = "metric name=close_diag"@;
    figure_is_appended(t0, " face_id="@, face_id as int);
    let t1 = labelled(t0, " face_id="@, face_id as int);
    figure_is_appended(t1, " terminate_us="@, phases.terminate_us as int);
    let t2 = labelled(t1, " terminate_us="@, phases.terminate_us as int);
    figure_is_appended(t2, " finalize_pending_queries_us="@, phases.finalize_pending_queries_us as int);
    let t3 = labelled(t2, " finalize_pending_queries_us="@, phases.finalize_pending_queries_us as int);
    figure_is_appended(t3, " ctrl_lock_acquire_us="@, phases.ctrl_lock_acquire_us as int);
    let t4 = labelled(t3, " ctrl_lock_acquire_us="@, phases.ctrl_lock_acquire_us as int);
    figure_is_appended(t4, " finalize_pending_interests_us="@, phases.finalize_pending_interests_us as int);
    let t5 = labelled(t4, " finalize_pending_interests_us="@, phases.finalize_pending_interests_us as int);
    figure_is_appended(t5, " wtables_acquire_us="@, phases.wtables_acquire_us as int);
    let t6 = labelled(t5, " wtables_acquire_us="@, phases.wtables_acquire_us as int);
    figure_is_appended(t6, " close_face_body_us="@, phases.close_face_body_us as int);
    let t7 = labelled(t6, " close_face_body_us="@, phases.close_face_body_us as int);
    figure_is_appended(t7, " send_declares_us="@, phases.send_declares_us as int);
    let t8 = labelled(t7, " send_declares_us="@, phases.send_declares_us as int);
    figure_is_appended(t8, " total_us="@, phases.sum_us());
}

/// The text is a metric of this name: the name stands at its beginning, and a blank behind it.
pub open spec fn begins_with_name(text: Seq<char>, name: Seq<char>) -> bool {
    ("metric name="@ + name + " "@).is_prefix_of(text)
}

/// The beginning of a line has its name, and tells the process and the time.
pub proof fn head_tells_process_and_time(name: Seq<char>, pid: u32, elapsed_ms: u128)
    ensures
        begins_with_name(head_text(name, pid, elapsed_ms), name),
        tells(head_text(name, pid, elapsed_ms), " pid="@, pid as int),
        tells(head_text(name, pid, elapsed_ms), " elapsed_ms="@, elapsed_ms as int),
{
    reveal_strlit(" ");
    reveal_strlit(" pid=");
    reveal_strlit(" elapsed_ms=");
    let begin = "metric name="@ + name;
    let with_pid = labelled(begin, " pid="@, pid as int);
    figure_is_appended(begin, " pid="@, pid as int);
    figure_is_appended(with_pid, " elapsed_ms="@, elapsed_ms as int);
    assert((begin + " "@).is_prefix_of(with_pid));
}

proof fn head_begins_with_name(name: Seq<char>, pid: u32, elapsed_ms: u128, text: Seq<char>)
    requires
        head_text(name, pid, elapsed_ms).is_prefix_of(text),
    ensures
        begins_with_name(text, name),
{
    head_tells_process_and_time(name, pid, elapsed_ms);
    let begin = "metric name="@ + name + " "@;
    assert(text.take(begin.len() as int) =~= head_text(name, pid, elapsed_ms).take(
        begin.len() as int,
    ));
}

/// Every line begins with its name and tells its count, that of the route caches their misses.
pub proof fn line_begins_with_its_name(
    line: MetricLine,
    pid: u32,
    elapsed_ms: u128,
    p: Percentiles,
)
    ensures
        ({
            let text = metric_text(line, pid, elapsed_ms, p);
            match line {
                MetricLine::Routing(line) => begins_with_name(text, "routing_diag"@) && tells(
                    text,
                    " route_cache_miss="@,
                    line.route_cache_miss as int,
                ),
                MetricLine::WTables(_, line) => begins_with_name(text, "wtables_diag"@) && tells(
                    text,
                    " count="@,
                    line.count as int,
                ),
                MetricLine::WTablesFlush(_, line) => begins_with_name(text, "wtables_flush_diag"@)
                    && tells(text, " count="@, line.count as int),
                MetricLine::CtrlLock(_, line) => begins_with_name(text, "ctrl_lock_diag"@)
                    && tells(text, " count="@, line.count as int),
                MetricLine::Repropagate(_, line) => begins_with_name(text, "repropagate_diag"@)
                    && tells(text, " count="@, line.count as int),
                MetricLine::RepropagateSubsStep(_, line) => begins_with_name(
                    text,
                    "repropagate_subs_step_diag"@,
                ) && tells(text, " count="@, line.count as int),
                MetricLine::FlushDeclare(line) => begins_with_name(text, "flush_declare_diag"@)
                    && tells(text, " count="@, line.count as int),
                MetricLine::NewTransportUnicast(line) => begins_with_name(
                    text,
                    "new_transport_unicast_diag"@,
                ) && tells(text, " count="@, line.count as int),
                MetricLine::RTables(line) => begins_with_name(text, "rtables_diag"@) && tells(
                    text,
                    " count="@,
                    line.count as int,
                ),
            }
        }),
{
    let text = metric_text(line, pid, elapsed_ms, p);
    match line {
        MetricLine::Routing(figures) => {
            let head = head_text("routing_diag"@, pid, elapsed_ms);
            route_cache_figures_are_told(head, figures);
            head_begins_with_name("routing_diag"@, pid, elapsed_ms, text);
        },
        MetricLine::WTables(site, figures) => {
            let head = head_text("wtables_diag"@, pid, elapsed_ms);
            site_lock_figures_are_told(head + " site="@ + site.label(), figures, p);
            head_begins_with_name("wtables_diag"@, pid, elapsed_ms, text);
        },
        MetricLine::WTablesFlush(site, figures) => {
            let head = head_text("wtables_flush_diag"@, pid, elapsed_ms);
            flush_figures_are_told(head + " site="@ + site.label(), figures);
            head_begins_with_name("wtables_flush_diag"@, pid, elapsed_ms, text);
        },
        MetricLine::CtrlLock(site, figures) => {
            let head = head_text("ctrl_lock_diag"@, pid, elapsed_ms);
            site_lock_figures_are_told(head + " site="@ + site.label(), figures, p);
            head_begins_with_name("ctrl_lock_diag"@, pid, elapsed_ms, text);
        },
        MetricLine::Repropagate(kind, figures) => {
            let head = head_text("repropagate_diag"@, pid, elapsed_ms);
            timing_figures_are_told(head + " kind="@ + kind.label(), figures);
            head_begins_with_name("repropagate_diag"@, pid, elapsed_ms, text);
        },
        MetricLine::RepropagateSubsStep(step, figures) => {
            let head = head_text("repropagate_subs_step_diag"@, pid, elapsed_ms);
            timing_figures_are_told(head + " step="@ + step.label(), figures);
            head_begins_with_name("repropagate_subs_step_diag"@, pid, elapsed_ms, text);
        },
        MetricLine::FlushDeclare(figures) => {
            let head = head_text("flush_declare_diag"@, pid, elapsed_ms);
            timing_figures_are_told(head, figures);
            head_begins_with_name("flush_declare_diag"@, pid, elapsed_ms, text);
        },
        MetricLine::NewTransportUnicast(figures) => {
            let head = head_text("new_transport_unicast_diag"@, pid, elapsed_ms);
            timing_figures_are_told(head, figures);
            head_begins_with_name("new_transport_unicast_diag"@, pid, elapsed_ms, text);
        },
        MetricLine::RTables(figures) => {
            let head = head_text("rtables_diag"@, pid, elapsed_ms);
            lock_figures_are_told(head, figures, p);
            head_begins_with_name("rtables_diag"@, pid, elapsed_ms, text);
        },
    }
}

} // verus!
