//! The shell commands and requests the harness issues, and how it reads the
//! answers it needs to decide on.
//!
//! The harness runs each command locally or over SSH; which one, and the text
//! of each, is decided here.
use vstd::prelude::*;
use vstd::string::StrSliceExecFns;

use crate::bench::config::{CommonRunConfig, DeploymentMode, LoadGeneratorKind};
use crate::bench::labels::{decimal, push_decimal};
use crate::text::{chars_of, push_str, string_push, to_string};

verus! {

pub const DEFAULT_SPINR_IMAGE: &'static str = "spinr:arm64";
pub const DEFAULT_SPINR_BUILD_TASK: &'static str = "docker:loadgen:spinr";
pub const DEFAULT_VEGETA_IMAGE: &'static str = "vegeta:arm64";
pub const DEFAULT_VEGETA_BUILD_TASK: &'static str = "docker:loadgen:vegeta";

/// The request rate of a Vegeta case that sets none.
pub const DEFAULT_VEGETA_RATE: u32 = 1000;

/// The worker count of a Vegeta case that sets no concurrency.
pub const DEFAULT_VEGETA_WORKERS: u32 = 128;

/// The image of a load generator and the task that builds it.
pub fn loadgen_image(generator: LoadGeneratorKind) -> (r: (&'static str, Option<&'static str>))
    ensures
        r.1 is Some,
        generator == LoadGeneratorKind::Spinr ==> r.0@ == DEFAULT_SPINR_IMAGE@
            && r.1.unwrap()@ == DEFAULT_SPINR_BUILD_TASK@,
        generator == LoadGeneratorKind::Vegeta ==> r.0@ == DEFAULT_VEGETA_IMAGE@
            && r.1.unwrap()@ == DEFAULT_VEGETA_BUILD_TASK@,
{
    match generator {
        LoadGeneratorKind::Spinr => (DEFAULT_SPINR_IMAGE, Some(DEFAULT_SPINR_BUILD_TASK)),
        LoadGeneratorKind::Vegeta => (DEFAULT_VEGETA_IMAGE, Some(DEFAULT_VEGETA_BUILD_TASK)),
    }
}

/// The extension of a case's rendered template: spinr reads TOML, Vegeta a
/// targets list.
pub open spec fn template_suffix(generator: LoadGeneratorKind) -> Seq<char> {
    match generator {
        LoadGeneratorKind::Spinr => "toml"@,
        LoadGeneratorKind::Vegeta => "targets.txt"@,
    }
}

pub fn rendered_template_suffix(generator: LoadGeneratorKind) -> (r: &'static str)
    ensures
        r@ == template_suffix(generator),
{
    match generator {
        LoadGeneratorKind::Spinr => "toml",
        LoadGeneratorKind::Vegeta => "targets.txt",
    }
}

/// `{case}.{suffix}`: the file a case's template is rendered to.
pub fn rendered_template_name(case_id: &str, generator: LoadGeneratorKind) -> (r: String)
    ensures
        r@ == case_id@ + "."@ + template_suffix(generator),
{
    let mut s = to_string(case_id);
    push_str(&mut s, ".");
    push_str(&mut s, rendered_template_suffix(generator));
    s
}

/// Removes a server container, whether or not it exists.
pub fn docker_rm_command(container_name: &str) -> (r: String)
    ensures
        r@ == "docker rm -f "@ + container_name@ + " >/dev/null 2>&1 || true"@,
{
    let mut s = to_string("docker rm -f ");
    push_str(&mut s, container_name);
    push_str(&mut s, " >/dev/null 2>&1 || true");
    s
}

/// Starts a server container on the host network.
pub fn docker_run_command(container_name: &str, image: &str, command: &str) -> (r: String)
    ensures
        r@ == "docker run -d --name "@ + container_name@
            + " --network host --ulimit nofile=65535:65535 "@ + image@ + " "@ + command@,
{
    let mut s = to_string("docker run -d --name ");
    push_str(&mut s, container_name);
    push_str(&mut s, " --network host --ulimit nofile=65535:65535 ");
    push_str(&mut s, image);
    push_str(&mut s, " ");
    push_str(&mut s, command);
    s
}

/// The words joined by single spaces.
pub open spec fn space_joined(words: Seq<String>) -> Seq<char>
    decreases words.len(),
{
    if words.len() == 0 {
        Seq::empty()
    } else if words.len() == 1 {
        words[0]@
    } else {
        space_joined(words.drop_last()) + " "@ + words.last()@
    }
}

/// The server's command with the case's extra flags appended.
pub fn server_command(base_command: &str, server_flags: &Vec<String>) -> (r: String)
    ensures
        server_flags.len() == 0 ==> r@ == base_command@,
        server_flags.len() > 0 ==> r@ == base_command@ + " "@ + space_joined(server_flags@),
{
    let mut s = to_string(base_command);
    let mut i: usize = 0;
    while i < server_flags.len()
        invariant
            i <= server_flags.len(),
            i == 0 ==> s@ == base_command@,
            i > 0 ==> s@ == base_command@ + " "@ + space_joined(server_flags@.subrange(0, i as int)),
        decreases server_flags.len() - i,
    {
        let ghost before = s@;
        push_str(&mut s, " ");
        push_str(&mut s, server_flags[i].as_str());
        proof {
            let prefix = server_flags@.subrange(0, i + 1);
            assert(prefix.drop_last() =~= server_flags@.subrange(0, i as int));
            assert(prefix.last() == server_flags@[i as int]);
            if i == 0 {
                assert(space_joined(prefix) == server_flags@[0]@);
                assert(s@ =~= base_command@ + " "@ + space_joined(prefix));
            } else {
                assert(s@ =~= base_command@ + " "@ + space_joined(prefix));
            }
        }
        i = i + 1;
    }
    proof {
        if server_flags.len() > 0 {
            assert(server_flags@.subrange(0, server_flags.len() as int) =~= server_flags@);
        }
    }
    s
}

/// Succeeds exactly when the image exists.
pub fn image_inspect_command(image: &str) -> (r: String)
    ensures
        r@ == "docker image inspect "@ + image@ + " >/dev/null 2>&1 && echo ok"@,
{
    let mut s = to_string("docker image inspect ");
    push_str(&mut s, image);
    push_str(&mut s, " >/dev/null 2>&1 && echo ok");
    s
}

/// Prints the image's ID.
pub fn image_id_command(image: &str) -> (r: String)
    ensures
        r@ == "docker image inspect -f '{{.Id}}' "@ + image@,
{
    let mut s = to_string("docker image inspect -f '{{.Id}}' ");
    push_str(&mut s, image);
    s
}

/// Runs the task that builds a missing image.
pub fn build_task_command(task: &str) -> (r: String)
    ensures
        r@ == "mise run "@ + task@,
{
    let mut s = to_string("mise run ");
    push_str(&mut s, task);
    s
}

/// Removes a file on a remote host.
pub fn remove_file_command(path: &str) -> (r: String)
    ensures
        r@ == "rm -f "@ + path@,
{
    let mut s = to_string("rm -f ");
    push_str(&mut s, path);
    s
}

/// `/tmp/{key}{extension}`: where a rendered file is copied on the client host.
pub fn remote_scratch_path(key: &str, extension: &str) -> (r: String)
    ensures
        r@ == "/tmp/"@ + key@ + extension@,
{
    let mut s = to_string("/tmp/");
    push_str(&mut s, key);
    push_str(&mut s, extension);
    s
}

/// The path the load generator reads its input from: the rendered file in a
/// local run; its copy under `/tmp` on the client host in a remote run.
pub open spec fn input_path(
    mode: DeploymentMode,
    key: Seq<char>,
    extension: Seq<char>,
    rendered_template: Seq<char>,
) -> Seq<char> {
    match mode {
        DeploymentMode::Local => rendered_template,
        DeploymentMode::Remote => "/tmp/"@ + key + extension,
    }
}

/// Where spinr reads its configuration (`.toml` copies in a remote run).
pub fn spinr_config_path(mode: DeploymentMode, key: &str, rendered_template: &str) -> (r: String)
    ensures
        r@ == input_path(mode, key@, ".toml"@, rendered_template@),
{
    match mode {
        DeploymentMode::Local => to_string(rendered_template),
        DeploymentMode::Remote => remote_scratch_path(key, ".toml"),
    }
}

/// Where Vegeta reads its targets (`.targets` copies in a remote run).
pub fn vegeta_target_path(mode: DeploymentMode, key: &str, rendered_template: &str) -> (r: String)
    ensures
        r@ == input_path(mode, key@, ".targets"@, rendered_template@),
{
    match mode {
        DeploymentMode::Local => to_string(rendered_template),
        DeploymentMode::Remote => remote_scratch_path(key, ".targets"),
    }
}

/// Runs spinr on a configuration and reports JSON.
pub fn spinr_command(config_path: &str) -> (r: String)
    ensures
        r@ == "docker run --rm --network host --ulimit nofile=65535:65535 -v "@ + config_path@
            + ":/bench.toml "@ + DEFAULT_SPINR_IMAGE@ + " bench /bench.toml -j"@,
{
    let mut s = to_string("docker run --rm --network host --ulimit nofile=65535:65535 -v ");
    push_str(&mut s, config_path);
    push_str(&mut s, ":/bench.toml ");
    push_str(&mut s, DEFAULT_SPINR_IMAGE);
    push_str(&mut s, " bench /bench.toml -j");
    s
}

/// `{n}s`: a duration argument.
pub fn seconds_arg(n: u32) -> (r: String)
    ensures
        r@ == decimal(n as nat) + "s"@,
{
    let mut s = String::new();
    push_decimal(&mut s, n as u64);
    push_str(&mut s, "s");
    proof {
        assert(Seq::<char>::empty() + decimal(n as nat) =~= decimal(n as nat));
    }
    s
}

/// The attack part of a Vegeta run.
pub open spec fn vegeta_attack_text(
    target_path: Seq<char>,
    duration: Seq<char>,
    rate: u32,
    workers: u32,
) -> Seq<char> {
    "docker run --rm --network host -v "@ + target_path + ":/targets.txt "@ + DEFAULT_VEGETA_IMAGE@
        + " attack -targets=/targets.txt -duration="@ + duration + " -rate="@ + decimal(
        rate as nat,
    ) + "/s -workers="@ + decimal(workers as nat) + " -max-workers="@ + decimal(workers as nat)
}

/// A Vegeta attack; with a report, its results are piped into `vegeta
/// report -type=json`, else discarded (a warmup).
pub fn vegeta_attack_command(
    target_path: &str,
    duration: &str,
    rate: u32,
    workers: u32,
    with_report: bool,
) -> (r: String)
    ensures
        with_report ==> r@ == vegeta_attack_text(target_path@, duration@, rate, workers)
            + " | docker run --rm -i "@ + DEFAULT_VEGETA_IMAGE@ + " report -type=json"@,
        !with_report ==> r@ == vegeta_attack_text(target_path@, duration@, rate, workers)
            + " >/dev/null"@,
{
    let mut s = to_string("docker run --rm --network host -v ");
    push_str(&mut s, target_path);
    push_str(&mut s, ":/targets.txt ");
    push_str(&mut s, DEFAULT_VEGETA_IMAGE);
    push_str(&mut s, " attack -targets=/targets.txt -duration=");
    push_str(&mut s, duration);
    push_str(&mut s, " -rate=");
    push_decimal(&mut s, rate as u64);
    push_str(&mut s, "/s -workers=");
    push_decimal(&mut s, workers as u64);
    push_str(&mut s, " -max-workers=");
    push_decimal(&mut s, workers as u64);
    if with_report {
        push_str(&mut s, " | docker run --rm -i ");
        push_str(&mut s, DEFAULT_VEGETA_IMAGE);
        push_str(&mut s, " report -type=json");
    } else {
        push_str(&mut s, " >/dev/null");
    }
    s
}

/// The parameters of a Vegeta case.
#[derive(Clone, Copy, Debug, PartialEq, Eq, Structural)]
pub struct VegetaPlan {
    pub duration_secs: u32,
    pub warmup_secs: u32,
    pub rate: u32,
    pub workers: u32,
}

/// A Vegeta case's parameters: the case's own where it sets them, else the
/// run's durations, 1000 requests per second and 128 workers.
pub fn vegeta_plan(
    config: &CommonRunConfig,
    case_duration_secs: Option<u32>,
    case_warmup_secs: Option<u32>,
    case_rate: Option<u32>,
    concurrency: Option<u32>,
) -> (p: VegetaPlan)
    ensures
        p.duration_secs == case_duration_secs.unwrap_or(config.duration_secs),
        p.warmup_secs == case_warmup_secs.unwrap_or(config.warmup_secs),
        p.rate == case_rate.unwrap_or(DEFAULT_VEGETA_RATE),
        p.workers == concurrency.unwrap_or(DEFAULT_VEGETA_WORKERS),
{
    VegetaPlan {
        duration_secs: case_duration_secs.unwrap_or(config.duration_secs),
        warmup_secs: case_warmup_secs.unwrap_or(config.warmup_secs),
        rate: case_rate.unwrap_or(DEFAULT_VEGETA_RATE),
        workers: concurrency.unwrap_or(DEFAULT_VEGETA_WORKERS),
    }
}

/// A warmup attack runs only when the case has warmup time.
pub fn needs_warmup(plan: &VegetaPlan) -> (b: bool)
    ensures
        b == (plan.warmup_secs > 0),
{
    plan.warmup_secs > 0
}

/// `{user}@{host}`: an SSH destination.
pub fn ssh_destination(user: &str, host: &str) -> (r: String)
    ensures
        r@ == user@ + "@"@ + host@,
{
    let mut s = to_string(user);
    string_push(&mut s, '@');
    push_str(&mut s, host);
    proof {
        reveal_strlit("@");
    }
    s
}

/// The health check's request: a bare `GET` that closes the connection.
pub fn health_check_request(host: &str, path: &str) -> (r: String)
    ensures
        r@ == "GET "@ + path@ + " HTTP/1.1\r\nHost: "@ + host@ + "\r\nConnection: close\r\n\r\n"@,
{
    let mut s = to_string("GET ");
    push_str(&mut s, path);
    push_str(&mut s, " HTTP/1.1\r\nHost: ");
    push_str(&mut s, host);
    push_str(&mut s, "\r\nConnection: close\r\n\r\n");
    s
}

/// Whether `s` begins with `prefix`.
fn starts_with(s: &str, prefix: &str) -> (b: bool)
    ensures
        b == (prefix@.len() <= s@.len() && s@.subrange(0, prefix@.len() as int) == prefix@),
{
    let cs = chars_of(s);
    let ps = chars_of(prefix);
    if ps.len() > cs.len() {
        return false;
    }
    let mut i: usize = 0;
    while i < ps.len()
        invariant
            cs@ == s@,
            ps@ == prefix@,
            ps.len() <= cs.len(),
            i <= ps.len(),
            cs@.subrange(0, i as int) == ps@.subrange(0, i as int),
        decreases ps.len() - i,
    {
        if cs[i] != ps[i] {
            assert(s@.subrange(0, prefix@.len() as int)[i as int] != prefix@[i as int]);
            return false;
        }
        i = i + 1;
        assert(cs@.subrange(0, i as int) =~= ps@.subrange(0, i as int));
    }
    assert(ps@.subrange(0, i as int) =~= ps@);
    true
}

/// The server passes when the first bytes of its answer are a 200 status
/// line (HTTP/1.1 or HTTP/1.0).
pub open spec fn health_passed(response: Seq<char>) -> bool {
    ||| (response.len() >= 12 && response.subrange(0, 12) == "HTTP/1.1 200"@)
    ||| (response.len() >= 12 && response.subrange(0, 12) == "HTTP/1.0 200"@)
}

pub fn health_check_passed(response: &str) -> (b: bool)
    ensures
        b == health_passed(response@),
{
    proof {
        reveal_strlit("HTTP/1.1 200");
        reveal_strlit("HTTP/1.0 200");
    }
    starts_with(response, "HTTP/1.1 200") || starts_with(response, "HTTP/1.0 200")
}

} // verus!
