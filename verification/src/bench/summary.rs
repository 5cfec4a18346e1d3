//! The run summary page (`summary.md`): the run's settings, a table of every
//! result, the comparison of two implementations, links to the graphs and to
//! every artifact, and the flamegraphs.
//!
//! The page is built from plain values: the measurements arrive as the cells
//! they are shown in, and whether a telemetry graph exists is a flag.
use vstd::prelude::*;

use crate::bench::config::RunMode;
use crate::bench::labels::{
    case_svg_filename, decimal, format_optional_u32, format_status_code_map, joined_status_entries,
    link_text, markdown_link, markdown_link_opt, push_decimal, sanitized, telemetry_svg_filename,
};
use crate::bench::ordering::{sorted_result_order, summary_order};
use crate::bench::schema::CompareSide;
use crate::text::{push_str, to_string};

verus! {

/// One implementation's result in a case, as the page shows it.
pub struct SummaryResult {
    pub side: Option<CompareSide>,
    pub label: String,
    /// The success rate in percent, formatted.
    pub success_pct: String,
    pub status_codes: Vec<(String, u64)>,
    /// Requests per second and latencies in milliseconds, formatted.
    pub rps: String,
    pub p50: String,
    pub p95: String,
    pub p99: String,
    pub p999: String,
    /// The load generator's raw output, relative to the results directory.
    pub loadgen_raw: String,
    pub perf_report: Option<String>,
    pub perf_script: Option<String>,
    pub flamegraph: Option<String>,
    pub server_cpu: Option<String>,
    pub server_net: Option<String>,
    pub client_cpu: Option<String>,
    pub client_net: Option<String>,
    pub vmstat: Option<String>,
}

/// One case of the run, as the page shows it.
pub struct SummaryCase {
    pub id: String,
    pub generator: String,
    pub concurrency: Option<u32>,
    pub rate: Option<u32>,
    /// The rendered template, relative to the results directory.
    pub rendered_template: String,
    /// Whether the case's telemetry graph exists.
    pub telemetry: bool,
    /// The requests-per-second difference of the left result over the right
    /// one in percent, signed and formatted (used when the case has two results).
    pub rps_delta: String,
    pub results: Vec<SummaryResult>,
}

/// The whole run, as the page shows it.
pub struct SummaryPage {
    pub run_label: String,
    pub suite: String,
    pub mode: RunMode,
    pub mode_name: String,
    pub deployment: String,
    pub server_host: String,
    pub server_private_ip: String,
    pub port: u16,
    pub client_host: String,
    pub duration_secs: u32,
    pub warmup_secs: u32,
    pub git_sha: String,
    pub git_dirty: bool,
    pub completed_at_utc: String,
    pub cases: Vec<SummaryCase>,
}

/// The texts of `f` over `s`, one after another.
pub open spec fn concat<A>(s: Seq<A>, f: spec_fn(A) -> Seq<char>) -> Seq<char>
    decreases s.len(),
{
    if s.len() == 0 {
        Seq::empty()
    } else {
        concat(s.drop_last(), f) + f(s.last())
    }
}

proof fn lemma_concat_step<A>(s: Seq<A>, f: spec_fn(A) -> Seq<char>, j: int)
    requires
        0 <= j < s.len(),
    ensures
        concat(s.take(j + 1), f) == concat(s.take(j), f) + f(s[j]),
{
    assert(s.take(j + 1).drop_last() =~= s.take(j));
}

/// The ordering keys of a case's results: side and label.
pub open spec fn result_keys(rs: Seq<SummaryResult>) -> Seq<(Option<CompareSide>, String)> {
    Seq::new(rs.len(), |i: int| (rs[i].side, rs[i].label))
}

/// A case's results in summary order (see [`summary_order`]).
pub open spec fn ordered(c: SummaryCase) -> Seq<SummaryResult> {
    summary_order(result_keys(c.results@), c.results@.len()).map_values(
        |k: usize| c.results@[k as int],
    )
}

/// A number, or `-` when there is none.
pub open spec fn optional_number(v: Option<u32>) -> Seq<char> {
    match v {
        Some(n) => decimal(n as nat),
        None => "-"@,
    }
}

/// The status codes as `code:count` pairs, or `-` when there are none.
pub open spec fn codes_text(codes: Seq<(String, u64)>) -> Seq<char> {
    if codes.len() == 0 {
        "-"@
    } else {
        joined_status_entries(codes)
    }
}

/// A link, or `-` when there is no path.
pub open spec fn link_or_dash(path: Option<String>, label: Seq<char>) -> Seq<char> {
    match path {
        Some(p) => link_text(p@, label),
        None => "-"@,
    }
}

/// The settings at the top of the page.
pub open spec fn header_text(p: SummaryPage) -> Seq<char> {
    "# Benchmark Results\n\n![Run Dashboard](summary.svg)\n\nRun: `"@ + p.run_label@ + "`\nSuite: `"@
        + p.suite@ + "`\nMode: `"@ + p.mode_name@ + "`\nDeployment: `"@ + p.deployment@
        + "`\nServer: `"@ + p.server_host@ + "` (`"@ + p.server_private_ip@ + ":"@ + decimal(
        p.port as nat,
    ) + "`)\nClient: `"@ + p.client_host@ + "`\nDefaults: "@ + decimal(p.duration_secs as nat)
        + "s duration / "@ + decimal(p.warmup_secs as nat) + "s warmup\nGit: `"@ + p.git_sha@
        + "`"@ + (if p.git_dirty {
        " (dirty)"@
    } else {
        Seq::empty()
    }) + "\nCompleted: "@ + p.completed_at_utc@ + "\n\n"@
}

/// A result's row in the runs table.
pub open spec fn run_row(c: SummaryCase, r: SummaryResult) -> Seq<char> {
    "| "@ + c.id@ + " | "@ + r.label@ + " | "@ + c.generator@ + " | "@ + optional_number(
        c.concurrency,
    ) + " | "@ + optional_number(c.rate) + " | "@ + r.success_pct@ + "% | "@ + codes_text(
        r.status_codes@,
    ) + " | "@ + r.rps@ + " | "@ + r.p50@ + " | "@ + r.p95@ + " | "@ + r.p99@ + " | "@ + r.p999@
        + " |\n"@
}

/// A case's rows in the runs table, its results in summary order.
pub open spec fn run_rows(c: SummaryCase) -> Seq<char> {
    concat(ordered(c), |r: SummaryResult| run_row(c, r))
}

/// The runs table: every case's results, in summary order.
pub open spec fn runs_text(p: SummaryPage) -> Seq<char> {
    RUNS_HEAD@ + concat(p.cases@, |c: SummaryCase| run_rows(c)) + "\n"@
}

/// A case's comparison row: its two results, left then right (none for a case
/// without exactly two results).
pub open spec fn compare_row(c: SummaryCase) -> Seq<char> {
    if c.results@.len() == 2 {
        let o = ordered(c);
        "| "@ + c.id@ + " | "@ + o[0].label@ + " | "@ + o[1].label@ + " | "@ + c.rps_delta@ + "% | "@
            + o[0].p99@ + " | "@ + o[1].p99@ + " |\n"@
    } else {
        Seq::empty()
    }
}

/// The comparison table, in a comparison run only.
pub open spec fn comparison_text(p: SummaryPage) -> Seq<char> {
    if p.mode == RunMode::Compare {
        COMPARISON_HEAD@ + concat(p.cases@, |c: SummaryCase| compare_row(c)) + "\n"@
    } else {
        Seq::empty()
    }
}

/// A case's graph.
pub open spec fn graph_block(c: SummaryCase) -> Seq<char> {
    "### "@ + c.id@ + "\n\n!["@ + c.id@ + " graph](./"@ + ("case-"@ + sanitized(c.id@) + ".svg"@)
        + ")\n\n"@
}

/// The graphs of all cases.
pub open spec fn graphs_text(p: SummaryPage) -> Seq<char> {
    "## Case Graphs\n\n"@ + concat(p.cases@, |c: SummaryCase| graph_block(c))
}

/// Whether some case has a telemetry graph.
pub open spec fn has_telemetry(cases: Seq<SummaryCase>) -> bool {
    exists|i: int| 0 <= i < cases.len() && #[trigger] cases[i].telemetry
}

/// A case's telemetry graph, if it has one.
pub open spec fn telemetry_block(c: SummaryCase) -> Seq<char> {
    if c.telemetry {
        "### "@ + c.id@ + "\n\n!["@ + c.id@ + " telemetry](./"@ + ("case-"@ + sanitized(c.id@)
            + "-telemetry.svg"@) + ")\n\n"@
    } else {
        Seq::empty()
    }
}

/// The telemetry section, when some case has telemetry.
pub open spec fn telemetry_text(p: SummaryPage) -> Seq<char> {
    if has_telemetry(p.cases@) {
        "## OS Telemetry\n\n"@ + concat(p.cases@, |c: SummaryCase| telemetry_block(c))
    } else {
        Seq::empty()
    }
}

/// A result's row in the artifacts table.
pub open spec fn artifact_row(c: SummaryCase, r: SummaryResult) -> Seq<char> {
    "| "@ + c.id@ + " | "@ + r.label@ + " | "@ + link_text(c.rendered_template@, "rendered"@) + " | "@
        + link_text(r.loadgen_raw@, "json"@) + " | "@ + link_or_dash(r.perf_report, "perf-report"@)
        + " | "@ + link_or_dash(r.perf_script, "perf-script"@) + " | "@ + link_or_dash(
        r.flamegraph,
        "flamegraph"@,
    ) + " | "@ + link_or_dash(r.server_cpu, "server cpu"@) + " | "@ + link_or_dash(
        r.server_net,
        "server net"@,
    ) + " | "@ + link_or_dash(r.client_cpu, "client cpu"@) + " | "@ + link_or_dash(
        r.client_net,
        "client net"@,
    ) + " | "@ + link_or_dash(r.vmstat, "vmstat"@) + " |\n"@
}

/// A case's rows in the artifacts table, its results in summary order.
pub open spec fn artifact_rows(c: SummaryCase) -> Seq<char> {
    concat(ordered(c), |r: SummaryResult| artifact_row(c, r))
}

/// The artifacts table: every case's results, in summary order.
pub open spec fn artifacts_text(p: SummaryPage) -> Seq<char> {
    ARTIFACTS_HEAD@ + concat(p.cases@, |c: SummaryCase| artifact_rows(c))
}

/// Whether some result has a flamegraph.
pub open spec fn has_flamegraph(cases: Seq<SummaryCase>) -> bool {
    exists|i: int, j: int|
        0 <= i < cases.len() && 0 <= j < cases[i].results@.len()
            && (#[trigger] cases[i].results@[j]).flamegraph is Some
}

/// A result's flamegraph, if it has one.
pub open spec fn flamegraph_block(c: SummaryCase, r: SummaryResult) -> Seq<char> {
    match r.flamegraph {
        Some(path) => "### "@ + c.id@ + " / "@ + r.label@ + "\n\n!["@ + r.label@ + " flamegraph](./"@
            + path@ + ")\n\n"@,
        None => Seq::empty(),
    }
}

/// A case's flamegraphs, its results in summary order.
pub open spec fn flamegraph_blocks(c: SummaryCase) -> Seq<char> {
    concat(ordered(c), |r: SummaryResult| flamegraph_block(c, r))
}

/// The flamegraphs section, when some result has a flamegraph.
pub open spec fn flamegraphs_text(p: SummaryPage) -> Seq<char> {
    if has_flamegraph(p.cases@) {
        "\n## Flamegraphs\n\n"@ + concat(p.cases@, |c: SummaryCase| flamegraph_blocks(c))
    } else {
        Seq::empty()
    }
}

/// The whole page.
pub open spec fn summary_page_text(p: SummaryPage) -> Seq<char> {
    header_text(p) + runs_text(p) + comparison_text(p) + graphs_text(p) + telemetry_text(p)
        + artifacts_text(p) + flamegraphs_text(p)
}

/// The heading and head of the runs table.
pub const RUNS_HEAD: &'static str = "## Runs\n\n| Case | Implementation | Generator | Concurrency | Rate | Success % | Codes | RPS | p50 (ms) | p95 (ms) | p99 (ms) | p999 (ms) |\n|------|----------------|-----------|-------------|------|-----------|-------|-----|----------|----------|----------|-----------|\n";

/// The heading and head of the comparison table.
pub const COMPARISON_HEAD: &'static str = "## Comparison\n\n| Case | Left | Right | RPS Delta % | Left p99 (ms) | Right p99 (ms) |\n|------|------|-------|-------------|---------------|----------------|\n";

/// The heading and head of the artifacts table.
pub const ARTIFACTS_HEAD: &'static str = "## Artifacts\n\n| Case | Implementation | Rendered Template | Loadgen Raw | Perf Report | Perf Script | Flamegraph | Server CPU | Server Net | Client CPU | Client Net | VMstat |\n|------|----------------|-------------------|-------------|-------------|-------------|------------|------------|------------|------------|------------|--------|\n";

// ----- building ---------------------------------------------------------------

/// The positions of a case's results in summary order.
fn case_order(c: &SummaryCase) -> (o: Vec<usize>)
    ensures
        o@ == summary_order(result_keys(c.results@), c.results@.len()),
        forall|p: int| 0 <= p < o@.len() ==> #[trigger] o@[p] < c.results@.len(),
        o@.len() == c.results@.len(),
{
    let mut keys: Vec<(Option<CompareSide>, String)> = Vec::new();
    let mut i: usize = 0;
    while i < c.results.len()
        invariant
            i <= c.results@.len(),
            keys@.len() == i,
            forall|k: int| 0 <= k < i ==> #[trigger] keys@[k] == (c.results@[k].side, c.results@[k].label),
        decreases c.results@.len() - i,
    {
        keys.push((c.results[i].side, c.results[i].label.clone()));
        i = i + 1;
    }
    assert(keys@ =~= result_keys(c.results@));
    sorted_result_order(&keys)
}

fn link_or_dash_of(path: &Option<String>, label: &str) -> (r: String)
    ensures
        r@ == link_or_dash(*path, label@),
{
    match path {
        Some(p) => markdown_link_opt(Some(p.as_str()), label),
        None => markdown_link_opt(None, label),
    }
}

fn codes_of(codes: &Vec<(String, u64)>) -> (r: String)
    ensures
        r@ == codes_text(codes@),
{
    format_status_code_map(codes)
}

fn header(p: &SummaryPage) -> (r: String)
    ensures
        r@ == header_text(*p),
{
    let mut s = to_string("# Benchmark Results\n\n![Run Dashboard](summary.svg)\n\nRun: `");
    push_str(&mut s, p.run_label.as_str());
    push_str(&mut s, "`\nSuite: `");
    push_str(&mut s, p.suite.as_str());
    push_str(&mut s, "`\nMode: `");
    push_str(&mut s, p.mode_name.as_str());
    push_str(&mut s, "`\nDeployment: `");
    push_str(&mut s, p.deployment.as_str());
    push_str(&mut s, "`\nServer: `");
    push_str(&mut s, p.server_host.as_str());
    push_str(&mut s, "` (`");
    push_str(&mut s, p.server_private_ip.as_str());
    push_str(&mut s, ":");
    push_decimal(&mut s, p.port as u64);
    push_str(&mut s, "`)\nClient: `");
    push_str(&mut s, p.client_host.as_str());
    push_str(&mut s, "`\nDefaults: ");
    push_decimal(&mut s, p.duration_secs as u64);
    push_str(&mut s, "s duration / ");
    push_decimal(&mut s, p.warmup_secs as u64);
    push_str(&mut s, "s warmup\nGit: `");
    push_str(&mut s, p.git_sha.as_str());
    push_str(&mut s, "`");
    if p.git_dirty {
        push_str(&mut s, " (dirty)");
    } else {
        assert(s@ + Seq::<char>::empty() =~= s@);
    }
    push_str(&mut s, "\nCompleted: ");
    push_str(&mut s, p.completed_at_utc.as_str());
    push_str(&mut s, "\n\n");
    s
}

fn run_row_of(c: &SummaryCase, r: &SummaryResult) -> (s: String)
    ensures
        s@ == run_row(*c, *r),
{
    let mut s = to_string("| ");
    push_str(&mut s, c.id.as_str());
    push_str(&mut s, " | ");
    push_str(&mut s, r.label.as_str());
    push_str(&mut s, " | ");
    push_str(&mut s, c.generator.as_str());
    push_str(&mut s, " | ");
    let conc = format_optional_u32(c.concurrency);
    push_str(&mut s, conc.as_str());
    push_str(&mut s, " | ");
    let rate = format_optional_u32(c.rate);
    push_str(&mut s, rate.as_str());
    push_str(&mut s, " | ");
    push_str(&mut s, r.success_pct.as_str());
    push_str(&mut s, "% | ");
    let codes = codes_of(&r.status_codes);
    push_str(&mut s, codes.as_str());
    push_str(&mut s, " | ");
    push_str(&mut s, r.rps.as_str());
    push_str(&mut s, " | ");
    push_str(&mut s, r.p50.as_str());
    push_str(&mut s, " | ");
    push_str(&mut s, r.p95.as_str());
    push_str(&mut s, " | ");
    push_str(&mut s, r.p99.as_str());
    push_str(&mut s, " | ");
    push_str(&mut s, r.p999.as_str());
    push_str(&mut s, " |\n");
    s
}

fn artifact_row_of(c: &SummaryCase, r: &SummaryResult) -> (s: String)
    ensures
        s@ == artifact_row(*c, *r),
{
    let mut s = to_string("| ");
    push_str(&mut s, c.id.as_str());
    push_str(&mut s, " | ");
    push_str(&mut s, r.label.as_str());
    push_str(&mut s, " | ");
    let l = markdown_link(c.rendered_template.as_str(), "rendered");
    push_str(&mut s, l.as_str());
    push_str(&mut s, " | ");
    let l = markdown_link(r.loadgen_raw.as_str(), "json");
    push_str(&mut s, l.as_str());
    push_str(&mut s, " | ");
    let l = link_or_dash_of(&r.perf_report, "perf-report");
    push_str(&mut s, l.as_str());
    push_str(&mut s, " | ");
    let l = link_or_dash_of(&r.perf_script, "perf-script");
    push_str(&mut s, l.as_str());
    push_str(&mut s, " | ");
    let l = link_or_dash_of(&r.flamegraph, "flamegraph");
    push_str(&mut s, l.as_str());
    push_str(&mut s, " | ");
    let l = link_or_dash_of(&r.server_cpu, "server cpu");
    push_str(&mut s, l.as_str());
    push_str(&mut s, " | ");
    let l = link_or_dash_of(&r.server_net, "server net");
    push_str(&mut s, l.as_str());
    push_str(&mut s, " | ");
    let l = link_or_dash_of(&r.client_cpu, "client cpu");
    push_str(&mut s, l.as_str());
    push_str(&mut s, " | ");
    let l = link_or_dash_of(&r.client_net, "client net");
    push_str(&mut s, l.as_str());
    push_str(&mut s, " | ");
    let l = link_or_dash_of(&r.vmstat, "vmstat");
    push_str(&mut s, l.as_str());
    push_str(&mut s, " |\n");
    s
}

fn flamegraph_block_of(c: &SummaryCase, r: &SummaryResult) -> (s: String)
    ensures
        s@ == flamegraph_block(*c, *r),
{
    match &r.flamegraph {
        Some(path) => {
            let mut s = to_string("### ");
            push_str(&mut s, c.id.as_str());
            push_str(&mut s, " / ");
            push_str(&mut s, r.label.as_str());
            push_str(&mut s, "\n\n![");
            push_str(&mut s, r.label.as_str());
            push_str(&mut s, " flamegraph](./");
            push_str(&mut s, path.as_str());
            push_str(&mut s, ")\n\n");
            s
        },
        None => String::new(),
    }
}

/// Which per-result text a loop over a case's results builds.
#[derive(Clone, Copy, PartialEq, Eq, Structural)]
enum RowKind {
    Run,
    Artifact,
    Flamegraph,
}

spec fn row_text(kind: RowKind, c: SummaryCase, r: SummaryResult) -> Seq<char> {
    match kind {
        RowKind::Run => run_row(c, r),
        RowKind::Artifact => artifact_row(c, r),
        RowKind::Flamegraph => flamegraph_block(c, r),
    }
}

spec fn rows_of(kind: RowKind, c: SummaryCase) -> Seq<char> {
    match kind {
        RowKind::Run => run_rows(c),
        RowKind::Artifact => artifact_rows(c),
        RowKind::Flamegraph => flamegraph_blocks(c),
    }
}

/// A case's rows of one kind, its results in summary order.
fn case_rows(kind: RowKind, c: &SummaryCase) -> (s: String)
    ensures
        s@ == rows_of(kind, *c),
{
    let order = case_order(c);
    let ghost rows = ordered(*c);
    let ghost f = |r: SummaryResult| row_text(kind, *c, r);
    let mut s = String::new();
    let mut j: usize = 0;
    while j < order.len()
        invariant
            j <= order@.len(),
            order@.len() == rows.len(),
            order@ == summary_order(result_keys(c.results@), c.results@.len()),
            forall|p: int| 0 <= p < order@.len() ==> #[trigger] order@[p] < c.results@.len(),
            rows == ordered(*c),
            f == (|r: SummaryResult| row_text(kind, *c, r)),
            s@ == concat(rows.take(j as int), f),
        decreases order@.len() - j,
    {
        let r = &c.results[order[j]];
        assert(rows[j as int] == *r);
        let row = match kind {
            RowKind::Run => run_row_of(c, r),
            RowKind::Artifact => artifact_row_of(c, r),
            RowKind::Flamegraph => flamegraph_block_of(c, r),
        };
        proof {
            lemma_concat_step(rows, f, j as int);
        }
        push_str(&mut s, row.as_str());
        j = j + 1;
    }
    assert(rows.take(rows.len() as int) =~= rows);
    proof {
        match kind {
            RowKind::Run => {
                assert(f =~= (|r: SummaryResult| run_row(*c, r)));
            },
            RowKind::Artifact => {
                assert(f =~= (|r: SummaryResult| artifact_row(*c, r)));
            },
            RowKind::Flamegraph => {
                assert(f =~= (|r: SummaryResult| flamegraph_block(*c, r)));
            },
        }
    }
    s
}

/// Which per-case text a loop over the cases builds.
#[derive(Clone, Copy, PartialEq, Eq, Structural)]
enum CaseKind {
    Rows(RowKind),
    Compare,
    Graph,
    Telemetry,
}

spec fn case_text(kind: CaseKind, c: SummaryCase) -> Seq<char> {
    match kind {
        CaseKind::Rows(k) => rows_of(k, c),
        CaseKind::Compare => compare_row(c),
        CaseKind::Graph => graph_block(c),
        CaseKind::Telemetry => telemetry_block(c),
    }
}

fn compare_row_of(c: &SummaryCase) -> (s: String)
    ensures
        s@ == compare_row(*c),
{
    if c.results.len() != 2 {
        return String::new();
    }
    let order = case_order(c);
    let left = &c.results[order[0]];
    let right = &c.results[order[1]];
    let mut s = to_string("| ");
    push_str(&mut s, c.id.as_str());
    push_str(&mut s, " | ");
    push_str(&mut s, left.label.as_str());
    push_str(&mut s, " | ");
    push_str(&mut s, right.label.as_str());
    push_str(&mut s, " | ");
    push_str(&mut s, c.rps_delta.as_str());
    push_str(&mut s, "% | ");
    push_str(&mut s, left.p99.as_str());
    push_str(&mut s, " | ");
    push_str(&mut s, right.p99.as_str());
    push_str(&mut s, " |\n");
    s
}

fn graph_block_of(c: &SummaryCase) -> (s: String)
    ensures
        s@ == graph_block(*c),
{
    let mut s = to_string("### ");
    push_str(&mut s, c.id.as_str());
    push_str(&mut s, "\n\n![");
    push_str(&mut s, c.id.as_str());
    push_str(&mut s, " graph](./");
    let f = case_svg_filename(c.id.as_str());
    push_str(&mut s, f.as_str());
    push_str(&mut s, ")\n\n");
    s
}

fn telemetry_block_of(c: &SummaryCase) -> (s: String)
    ensures
        s@ == telemetry_block(*c),
{
    if !c.telemetry {
        return String::new();
    }
    let mut s = to_string("### ");
    push_str(&mut s, c.id.as_str());
    push_str(&mut s, "\n\n![");
    push_str(&mut s, c.id.as_str());
    push_str(&mut s, " telemetry](./");
    let f = telemetry_svg_filename(c.id.as_str());
    push_str(&mut s, f.as_str());
    push_str(&mut s, ")\n\n");
    s
}

/// The texts of one kind for every case, one after another.
fn cases_text(kind: CaseKind, cases: &Vec<SummaryCase>) -> (s: String)
    ensures
        s@ == concat(cases@, |c: SummaryCase| case_text(kind, c)),
{
    let ghost f = |c: SummaryCase| case_text(kind, c);
    let mut s = String::new();
    let mut i: usize = 0;
    while i < cases.len()
        invariant
            i <= cases@.len(),
            f == (|c: SummaryCase| case_text(kind, c)),
            s@ == concat(cases@.take(i as int), f),
        decreases cases@.len() - i,
    {
        let c = &cases[i];
        let part = match kind {
            CaseKind::Rows(k) => case_rows(k, c),
            CaseKind::Compare => compare_row_of(c),
            CaseKind::Graph => graph_block_of(c),
            CaseKind::Telemetry => telemetry_block_of(c),
        };
        proof {
            lemma_concat_step(cases@, f, i as int);
        }
        push_str(&mut s, part.as_str());
        i = i + 1;
    }
    assert(cases@.take(cases@.len() as int) =~= cases@);
    s
}

fn any_telemetry(cases: &Vec<SummaryCase>) -> (b: bool)
    ensures
        b == has_telemetry(cases@),
{
    let mut i: usize = 0;
    while i < cases.len()
        invariant
            i <= cases@.len(),
            forall|k: int| 0 <= k < i ==> !(#[trigger] cases@[k]).telemetry,
        decreases cases@.len() - i,
    {
        if cases[i].telemetry {
            return true;
        }
        i = i + 1;
    }
    false
}

fn any_flamegraph(cases: &Vec<SummaryCase>) -> (b: bool)
    ensures
        b == has_flamegraph(cases@),
{
    let mut i: usize = 0;
    while i < cases.len()
        invariant
            i <= cases@.len(),
            forall|k: int, j: int|
                0 <= k < i && 0 <= j < cases@[k].results@.len() ==> (#[trigger] cases@[k].results@[j]).flamegraph
                    is None,
        decreases cases@.len() - i,
    {
        let rs = &cases[i].results;
        let mut j: usize = 0;
        while j < rs.len()
            invariant
                i < cases@.len(),
                rs@ == cases@[i as int].results@,
                j <= rs@.len(),
                forall|k: int, m: int|
                    0 <= k < i && 0 <= m < cases@[k].results@.len() ==> (#[trigger] cases@[k].results@[m]).flamegraph
                        is None,
                forall|m: int| 0 <= m < j ==> (#[trigger] rs@[m]).flamegraph is None,
            decreases rs@.len() - j,
        {
            if rs[j].flamegraph.is_some() {
                assert(cases@[i as int].results@[j as int].flamegraph is Some);
                return true;
            }
            j = j + 1;
        }
        i = i + 1;
    }
    false
}

fn runs_section(page: &SummaryPage) -> (s: String)
    ensures
        s@ == runs_text(*page),
{
    let mut s = to_string(RUNS_HEAD);
    let rows = cases_text(CaseKind::Rows(RowKind::Run), &page.cases);
    proof {
        assert((|c: SummaryCase| case_text(CaseKind::Rows(RowKind::Run), c)) =~= (|c: SummaryCase|
            run_rows(c)));
    }
    push_str(&mut s, rows.as_str());
    push_str(&mut s, "\n");
    s
}

fn comparison_section(page: &SummaryPage) -> (s: String)
    ensures
        s@ == comparison_text(*page),
{
    if page.mode != RunMode::Compare {
        return String::new();
    }
    let mut s = to_string(COMPARISON_HEAD);
    let rows = cases_text(CaseKind::Compare, &page.cases);
    proof {
        assert((|c: SummaryCase| case_text(CaseKind::Compare, c)) =~= (|c: SummaryCase| compare_row(c)));
    }
    push_str(&mut s, rows.as_str());
    push_str(&mut s, "\n");
    s
}

fn graphs_section(page: &SummaryPage) -> (s: String)
    ensures
        s@ == graphs_text(*page),
{
    let mut s = to_string("## Case Graphs\n\n");
    let blocks = cases_text(CaseKind::Graph, &page.cases);
    proof {
        assert((|c: SummaryCase| case_text(CaseKind::Graph, c)) =~= (|c: SummaryCase| graph_block(c)));
    }
    push_str(&mut s, blocks.as_str());
    s
}

fn telemetry_section(page: &SummaryPage) -> (s: String)
    ensures
        s@ == telemetry_text(*page),
{
    if !any_telemetry(&page.cases) {
        return String::new();
    }
    let mut s = to_string("## OS Telemetry\n\n");
    let blocks = cases_text(CaseKind::Telemetry, &page.cases);
    proof {
        assert((|c: SummaryCase| case_text(CaseKind::Telemetry, c)) =~= (|c: SummaryCase|
            telemetry_block(c)));
    }
    push_str(&mut s, blocks.as_str());
    s
}

fn artifacts_section(page: &SummaryPage) -> (s: String)
    ensures
        s@ == artifacts_text(*page),
{
    let mut s = to_string(ARTIFACTS_HEAD);
    let rows = cases_text(CaseKind::Rows(RowKind::Artifact), &page.cases);
    proof {
        assert((|c: SummaryCase| case_text(CaseKind::Rows(RowKind::Artifact), c)) =~= (|c: SummaryCase|
            artifact_rows(c)));
    }
    push_str(&mut s, rows.as_str());
    s
}

fn flamegraphs_section(page: &SummaryPage) -> (s: String)
    ensures
        s@ == flamegraphs_text(*page),
{
    if !any_flamegraph(&page.cases) {
        return String::new();
    }
    let mut s = to_string("\n## Flamegraphs\n\n");
    let blocks = cases_text(CaseKind::Rows(RowKind::Flamegraph), &page.cases);
    proof {
        assert((|c: SummaryCase| case_text(CaseKind::Rows(RowKind::Flamegraph), c)) =~= (|c: SummaryCase|
            flamegraph_blocks(c)));
    }
    push_str(&mut s, blocks.as_str());
    s
}

/// The summary page of a run (`summary.md`), see [`summary_page_text`]: the
/// run's settings; the runs table with every case's results in summary order
/// (see [`summary_order`]); in a comparison run, the comparison table over the
/// cases with exactly two results; the case graphs; the telemetry section
/// exactly when some case has telemetry; the artifacts table; and the
/// flamegraphs section exactly when some result has a flamegraph.
pub fn summary_markdown(page: &SummaryPage) -> (r: String)
    ensures
        r@ == summary_page_text(*page),
{
    let mut s = header(page);
    let part = runs_section(page);
    push_str(&mut s, part.as_str());
    let part = comparison_section(page);
    push_str(&mut s, part.as_str());
    let part = graphs_section(page);
    push_str(&mut s, part.as_str());
    let part = telemetry_section(page);
    push_str(&mut s, part.as_str());
    let part = artifacts_section(page);
    push_str(&mut s, part.as_str());
    let part = flamegraphs_section(page);
    push_str(&mut s, part.as_str());
    s
}

} // verus!
