//! The remote performance test's plan and its Markdown summary.
//!
//! Three phases: A compares serialization (harrow and axum, bare), B measures
//! each middleware's overhead (harrow), C the observability overhead
//! (harrow, with Vector). Each run has a key, under which its measurements
//! are kept, and a row in the summary.
use vstd::prelude::*;
use vstd::string::StrSliceExecFns;

use crate::bench::labels::{decimal, push_decimal};
use crate::bench::perf_args::PerfArgs;
use crate::text::{push_str, str_equal, to_string};

verus! {

/// Phase A: the frameworks compared.
pub open spec fn phase_a_framework(i: int) -> Seq<char> {
    if i == 0 { "harrow"@ } else { "axum"@ }
}

/// Phase A and C: the endpoints (path, label).
pub open spec fn endpoint(i: int) -> (Seq<char>, Seq<char>) {
    if i == 0 {
        ("text"@, "text"@)
    } else if i == 1 {
        ("json/1kb"@, "json_1kb"@)
    } else {
        ("msgpack/1kb"@, "msgpack_1kb"@)
    }
}

/// Phase A's endpoints are under the `bare` prefix.
pub open spec fn phase_a_path(i: int) -> Seq<char> {
    "bare/"@ + endpoint(i).0
}

/// Phase A: the concurrency levels.
pub open spec fn phase_a_concurrency(i: int) -> u32 {
    if i == 0 { 1 } else if i == 1 { 8 } else if i == 2 { 32 } else { 128 }
}

/// Phase B: the middleware prefixes.
pub open spec fn phase_b_prefix(i: int) -> Seq<char> {
    if i == 0 {
        "bare"@
    } else if i == 1 {
        "timeout"@
    } else if i == 2 {
        "request-id"@
    } else if i == 3 {
        "cors"@
    } else if i == 4 {
        "compression"@
    } else {
        "full"@
    }
}

/// Phase B and C: the concurrency levels.
pub open spec fn phase_bc_concurrency(i: int) -> u32 {
    if i == 0 { 1 } else if i == 1 { 32 } else { 128 }
}

/// One planned run: the key of its results, the path requested, the
/// concurrency, and the leading cells of its row in the summary.
pub struct PlannedRun {
    pub key: String,
    pub path: String,
    pub concurrency: u32,
    pub label_cells: String,
}

/// A run's view: key, path, concurrency, leading cells.
pub open spec fn run_view(r: PlannedRun) -> (Seq<char>, Seq<char>, u32, Seq<char>) {
    (r.key@, r.path@, r.concurrency, r.label_cells@)
}

/// Phase A's `i`-th run: frameworks outermost, then endpoints, then
/// concurrency levels.
pub open spec fn phase_a_run(i: int) -> (Seq<char>, Seq<char>, u32, Seq<char>) {
    let fw = phase_a_framework(i / 12);
    let ep = (i / 4) % 3;
    let c = phase_a_concurrency(i % 4);
    (
        "a_"@ + fw + "_"@ + endpoint(ep).1 + "_c"@ + decimal(c as nat),
        phase_a_path(ep),
        c,
        fw + " | /"@ + phase_a_path(ep) + " | "@ + decimal(c as nat),
    )
}

/// Phase B's `i`-th run: prefixes outermost, then payloads, then
/// concurrency levels.
pub open spec fn phase_b_run(i: int) -> (Seq<char>, Seq<char>, u32, Seq<char>) {
    let prefix = phase_b_prefix(i / 9);
    let ep = (i / 3) % 3;
    let c = phase_bc_concurrency(i % 3);
    (
        "b_"@ + prefix + "_"@ + endpoint(ep).1 + "_c"@ + decimal(c as nat),
        prefix + "/"@ + endpoint(ep).0,
        c,
        prefix + " | /"@ + endpoint(ep).0 + " | "@ + decimal(c as nat),
    )
}

/// Phase C's `i`-th run: endpoints, then concurrency levels.
pub open spec fn phase_c_run(i: int) -> (Seq<char>, Seq<char>, u32, Seq<char>) {
    let ep = i / 3;
    let c = phase_bc_concurrency(i % 3);
    (
        "c_o11y_"@ + endpoint(ep).1 + "_c"@ + decimal(c as nat),
        endpoint(ep).0,
        c,
        "/"@ + endpoint(ep).0 + " | "@ + decimal(c as nat),
    )
}

/// The number of runs of each phase.
pub open spec fn phase_len(phase: u8) -> nat {
    if phase == 0 { 24 } else if phase == 1 { 54 } else { 9 }
}

/// The `i`-th run of a phase (0 for A, 1 for B, 2 for C).
pub open spec fn phase_run(phase: u8, i: int) -> (Seq<char>, Seq<char>, u32, Seq<char>) {
    if phase == 0 {
        phase_a_run(i)
    } else if phase == 1 {
        phase_b_run(i)
    } else {
        phase_c_run(i)
    }
}

fn endpoint_texts(i: usize) -> (r: (&'static str, &'static str))
    requires
        i < 3,
    ensures
        (r.0@, r.1@) == endpoint(i as int),
{
    if i == 0 {
        ("text", "text")
    } else if i == 1 {
        ("json/1kb", "json_1kb")
    } else {
        ("msgpack/1kb", "msgpack_1kb")
    }
}

fn phase_a_concurrency_at(i: usize) -> (c: u32)
    ensures
        c == phase_a_concurrency(i as int),
{
    if i == 0 { 1 } else if i == 1 { 8 } else if i == 2 { 32 } else { 128 }
}

fn phase_bc_concurrency_at(i: usize) -> (c: u32)
    ensures
        c == phase_bc_concurrency(i as int),
{
    if i == 0 { 1 } else if i == 1 { 32 } else { 128 }
}

fn phase_b_prefix_at(i: usize) -> (p: &'static str)
    ensures
        p@ == phase_b_prefix(i as int),
{
    if i == 0 {
        "bare"
    } else if i == 1 {
        "timeout"
    } else if i == 2 {
        "request-id"
    } else if i == 3 {
        "cors"
    } else if i == 4 {
        "compression"
    } else {
        "full"
    }
}

/// The `i`-th run of a phase.
fn planned_run(phase: u8, i: usize) -> (r: PlannedRun)
    requires
        i < phase_len(phase),
    ensures
        run_view(r) == phase_run(phase, i as int),
{
    if phase == 0 {
        let fw = if i / 12 == 0 { "harrow" } else { "axum" };
        let ep = (i / 4) % 3;
        let (path, label) = endpoint_texts(ep);
        let c = phase_a_concurrency_at(i % 4);
        let mut full_path = to_string("bare/");
        push_str(&mut full_path, path);
        let mut key = to_string("a_");
        push_str(&mut key, fw);
        push_str(&mut key, "_");
        push_str(&mut key, label);
        push_str(&mut key, "_c");
        push_decimal(&mut key, c as u64);
        let mut cells = to_string(fw);
        push_str(&mut cells, " | /");
        push_str(&mut cells, full_path.as_str());
        push_str(&mut cells, " | ");
        push_decimal(&mut cells, c as u64);
        PlannedRun { key, path: full_path, concurrency: c, label_cells: cells }
    } else if phase == 1 {
        let prefix = phase_b_prefix_at(i / 9);
        let ep = (i / 3) % 3;
        let (payload, label) = endpoint_texts(ep);
        let c = phase_bc_concurrency_at(i % 3);
        let mut full_path = to_string(prefix);
        push_str(&mut full_path, "/");
        push_str(&mut full_path, payload);
        let mut key = to_string("b_");
        push_str(&mut key, prefix);
        push_str(&mut key, "_");
        push_str(&mut key, label);
        push_str(&mut key, "_c");
        push_decimal(&mut key, c as u64);
        let mut cells = to_string(prefix);
        push_str(&mut cells, " | /");
        push_str(&mut cells, payload);
        push_str(&mut cells, " | ");
        push_decimal(&mut cells, c as u64);
        PlannedRun { key, path: full_path, concurrency: c, label_cells: cells }
    } else {
        let ep = i / 3;
        let (path, label) = endpoint_texts(ep);
        let c = phase_bc_concurrency_at(i % 3);
        let mut key = to_string("c_o11y_");
        push_str(&mut key, label);
        push_str(&mut key, "_c");
        push_decimal(&mut key, c as u64);
        let mut cells = to_string("/");
        push_str(&mut cells, path);
        push_str(&mut cells, " | ");
        push_decimal(&mut cells, c as u64);
        PlannedRun { key, path: to_string(path), concurrency: c, label_cells: cells }
    }
}

/// The runs of a phase, in order.
pub fn phase_plan(phase: u8) -> (runs: Vec<PlannedRun>)
    ensures
        runs@.len() == phase_len(phase),
        forall|i: int| 0 <= i < runs@.len() ==> run_view(#[trigger] runs@[i]) == phase_run(phase, i),
{
    let n: usize = if phase == 0 { 24 } else if phase == 1 { 54 } else { 9 };
    let mut runs: Vec<PlannedRun> = Vec::new();
    let mut i: usize = 0;
    while i < n
        invariant
            n == phase_len(phase),
            i <= n,
            runs@.len() == i,
            forall|j: int| 0 <= j < i ==> run_view(#[trigger] runs@[j]) == phase_run(phase, j),
        decreases n - i,
    {
        runs.push(planned_run(phase, i));
        i = i + 1;
    }
    runs
}

/// `http://{server_private}:{port}/{path}`: the URL the client requests.
pub fn bench_url(args: &PerfArgs, path: &str) -> (r: String)
    ensures
        r@ == "http://"@ + args.server_private@ + ":"@ + decimal(args.port as nat) + "/"@ + path@,
{
    let mut s = to_string("http://");
    push_str(&mut s, args.server_private.as_str());
    push_str(&mut s, ":");
    push_decimal(&mut s, args.port as u64);
    push_str(&mut s, "/");
    push_str(&mut s, path);
    s
}

/// The load test the client runs for one URL.
pub fn load_test_command(url: &str, concurrency: u32, duration: u32, warmup: u32) -> (r: String)
    ensures
        r@ == "docker run --rm --network host --ulimit nofile=65535:65535 spinr load-test --max-throughput -c "@
            + decimal(concurrency as nat) + " -d "@ + decimal(duration as nat) + " -w "@ + decimal(
            warmup as nat,
        ) + " -j "@ + url@,
{
    let mut s = to_string(
        "docker run --rm --network host --ulimit nofile=65535:65535 spinr load-test --max-throughput -c ",
    );
    push_decimal(&mut s, concurrency as u64);
    push_str(&mut s, " -d ");
    push_decimal(&mut s, duration as u64);
    push_str(&mut s, " -w ");
    push_decimal(&mut s, warmup as u64);
    push_str(&mut s, " -j ");
    push_str(&mut s, url);
    s
}

/// A run's measurements as the summary shows them.
#[derive(Clone, Debug)]
pub struct PerfCells {
    pub rps: String,
    pub p50: String,
    pub p99: String,
    pub p999: String,
}

/// The cells of a run's measurements: the last recorded under its key, or
/// `-` in each cell when there are none.
pub open spec fn cells_text(results: Seq<(String, PerfCells)>, key: Seq<char>) -> Seq<char>
    decreases results.len(),
{
    if results.len() == 0 {
        "- | - | - | -"@
    } else if results.last().0@ == key {
        let c = results.last().1;
        c.rps@ + " | "@ + c.p50@ + " | "@ + c.p99@ + " | "@ + c.p999@
    } else {
        cells_text(results.drop_last(), key)
    }
}

/// The rows of a phase's first `n` runs.
pub open spec fn rows_text(phase: u8, results: Seq<(String, PerfCells)>, n: int) -> Seq<char>
    decreases n,
{
    if n <= 0 {
        Seq::empty()
    } else {
        rows_text(phase, results, n - 1) + "| "@ + phase_run(phase, n - 1).3 + " | "@ + cells_text(
            results,
            phase_run(phase, n - 1).0,
        ) + " |\n"@
    }
}

/// The summary's opening lines.
pub open spec fn report_header(args: PerfArgs, date: Seq<char>) -> Seq<char> {
    "# Performance Test Results\n\nInstance: "@ + args.instance_type@ + "\nServer: "@ + args.server_ssh@
        + " (private: "@ + args.server_private@ + ":"@ + decimal(args.port as nat) + ")\nClient: "@
        + args.client_ssh@ + " (private: "@ + args.client_private@ + ")\nDuration: "@ + decimal(
        args.duration as nat,
    ) + "s | Warmup: "@ + decimal(args.warmup as nat) + "s\nDate: "@ + date + "\n"@
}

/// A phase's heading and table head.
pub open spec fn phase_heading(phase: u8) -> Seq<char> {
    if phase == 0 {
        "\n## Phase A: Serialization Comparison (harrow bare vs axum bare)\n\n| Framework | Endpoint | Concurrency | RPS | p50 (ms) | p99 (ms) | p999 (ms) |\n|-----------|----------|-------------|-----|----------|----------|----------|\n"@
    } else if phase == 1 {
        "\n## Phase B: Per-Feature Middleware Overhead (harrow only)\n\n| Feature | Payload | Concurrency | RPS | p50 (ms) | p99 (ms) | p999 (ms) |\n|---------|---------|-------------|-----|----------|----------|----------|\n"@
    } else {
        "\n## Phase C: O11y Overhead (harrow only, with Vector)\n\n| Endpoint | Concurrency | RPS | p50 (ms) | p99 (ms) | p999 (ms) |\n|----------|-------------|-----|----------|----------|----------|\n"@
    }
}

/// The whole summary.
pub open spec fn report_text(args: PerfArgs, date: Seq<char>, results: Seq<(String, PerfCells)>) -> Seq<
    char,
> {
    report_header(args, date) + phase_heading(0) + rows_text(0, results, 24) + phase_heading(1)
        + rows_text(1, results, 54) + phase_heading(2) + rows_text(2, results, 9)
}

/// Appends the cells of the measurements under `key`.
fn push_cells(out: &mut String, results: &Vec<(String, PerfCells)>, key: &str)
    ensures
        final(out)@ == old(out)@ + cells_text(results@, key@),
{
    let mut n = results.len();
    assert(results@.subrange(0, n as int) =~= results@);
    while n > 0
        invariant
            n <= results@.len(),
            out@ == old(out)@,
            cells_text(results@, key@) == cells_text(results@.subrange(0, n as int), key@),
        decreases n,
    {
        let ghost prefix = results@.subrange(0, n as int);
        assert(prefix.drop_last() =~= results@.subrange(0, n - 1));
        assert(prefix.last() == results@[n - 1]);
        if str_equal(results[n - 1].0.as_str(), key) {
            let c = &results[n - 1].1;
            push_str(out, c.rps.as_str());
            push_str(out, " | ");
            push_str(out, c.p50.as_str());
            push_str(out, " | ");
            push_str(out, c.p99.as_str());
            push_str(out, " | ");
            push_str(out, c.p999.as_str());
            return;
        }
        n = n - 1;
    }
    assert(results@.subrange(0, 0) =~= Seq::<(String, PerfCells)>::empty());
    push_str(out, "- | - | - | -");
}

/// Appends the rows of a phase.
fn push_rows(out: &mut String, phase: u8, results: &Vec<(String, PerfCells)>)
    ensures
        final(out)@ == old(out)@ + rows_text(phase, results@, phase_len(phase) as int),
{
    let runs = phase_plan(phase);
    let mut i: usize = 0;
    while i < runs.len()
        invariant
            runs@.len() == phase_len(phase),
            forall|j: int| 0 <= j < runs@.len() ==> run_view(#[trigger] runs@[j]) == phase_run(phase, j),
            i <= runs@.len(),
            out@ == old(out)@ + rows_text(phase, results@, i as int),
        decreases runs.len() - i,
    {
        let ghost before = out@;
        assert(run_view(runs@[i as int]) == phase_run(phase, i as int));
        push_str(out, "| ");
        push_str(out, runs[i].label_cells.as_str());
        push_str(out, " | ");
        push_cells(out, results, runs[i].key.as_str());
        push_str(out, " |\n");
        i = i + 1;
        assert(out@ =~= old(out)@ + rows_text(phase, results@, i as int));
    }
}

fn phase_heading_text(phase: u8) -> (r: &'static str)
    ensures
        r@ == phase_heading(phase),
{
    if phase == 0 {
        "\n## Phase A: Serialization Comparison (harrow bare vs axum bare)\n\n| Framework | Endpoint | Concurrency | RPS | p50 (ms) | p99 (ms) | p999 (ms) |\n|-----------|----------|-------------|-----|----------|----------|----------|\n"
    } else if phase == 1 {
        "\n## Phase B: Per-Feature Middleware Overhead (harrow only)\n\n| Feature | Payload | Concurrency | RPS | p50 (ms) | p99 (ms) | p999 (ms) |\n|---------|---------|-------------|-----|----------|----------|----------|\n"
    } else {
        "\n## Phase C: O11y Overhead (harrow only, with Vector)\n\n| Endpoint | Concurrency | RPS | p50 (ms) | p99 (ms) | p999 (ms) |\n|----------|-------------|-----|----------|----------|----------|\n"
    }
}

/// The summary of a remote performance test: the settings, then one table
/// per phase with a row per planned run, showing the measurements recorded
/// under the run's key (the last one recorded), or `-` where there are none.
pub fn perf_report(args: &PerfArgs, date: &str, results: &Vec<(String, PerfCells)>) -> (r: String)
    ensures
        r@ == report_text(*args, date@, results@),
{
    let mut s = to_string("# Performance Test Results\n\nInstance: ");
    push_str(&mut s, args.instance_type.as_str());
    push_str(&mut s, "\nServer: ");
    push_str(&mut s, args.server_ssh.as_str());
    push_str(&mut s, " (private: ");
    push_str(&mut s, args.server_private.as_str());
    push_str(&mut s, ":");
    push_decimal(&mut s, args.port as u64);
    push_str(&mut s, ")\nClient: ");
    push_str(&mut s, args.client_ssh.as_str());
    push_str(&mut s, " (private: ");
    push_str(&mut s, args.client_private.as_str());
    push_str(&mut s, ")\nDuration: ");
    push_decimal(&mut s, args.duration as u64);
    push_str(&mut s, "s | Warmup: ");
    push_decimal(&mut s, args.warmup as u64);
    push_str(&mut s, "s\nDate: ");
    push_str(&mut s, date);
    push_str(&mut s, "\n");
    let mut phase: u8 = 0;
    assert(s@ =~= report_header(*args, date@) + phases_text(results@, 0));
    while phase < 3
        invariant
            phase <= 3,
            s@ == report_header(*args, date@) + phases_text(results@, phase),
        decreases 3 - phase,
    {
        push_str(&mut s, phase_heading_text(phase));
        push_rows(&mut s, phase, results);
        phase = phase + 1;
        assert(s@ =~= report_header(*args, date@) + phases_text(results@, phase));
    }
    assert(phases_text(results@, 1) =~= phase_heading(0) + rows_text(0, results@, 24));
    assert(phases_text(results@, 2) =~= phases_text(results@, 1) + phase_heading(1) + rows_text(1, results@, 54));
    assert(phases_text(results@, 3) =~= phases_text(results@, 2) + phase_heading(2) + rows_text(2, results@, 9));
    assert(phases_text(results@, 3) =~= phase_heading(0) + rows_text(0, results@, 24)
        + phase_heading(1) + rows_text(1, results@, 54) + phase_heading(2) + rows_text(
        2,
        results@,
        9,
    ));
    s
}

/// The first `n` phases' headings and rows.
pub open spec fn phases_text(results: Seq<(String, PerfCells)>, n: u8) -> Seq<char>
    decreases n,
{
    if n == 0 {
        Seq::empty()
    } else {
        phases_text(results, (n - 1) as u8) + phase_heading((n - 1) as u8) + rows_text(
            (n - 1) as u8,
            results,
            phase_len((n - 1) as u8) as int,
        )
    }
}

} // verus!
