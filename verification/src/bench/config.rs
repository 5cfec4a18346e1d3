//! Run configuration: its defaults, its validation, and what is derived from
//! it for the report and the results directory.
use vstd::prelude::*;
use vstd::string::StrSliceExecFns;

use crate::bench::labels::{decimal, push_decimal, sanitize_label, sanitized};
use crate::bench::schema::{LoadProfile, RunDefaults, TargetDescriptor};
use crate::text::{push_str, to_string};

verus! {

/// Where the server and the load generator run.
#[derive(Clone, Copy, Debug, PartialEq, Eq, Structural)]
pub enum DeploymentMode {
    Local,
    Remote,
}

/// One implementation, or two compared.
#[derive(Clone, Copy, Debug, PartialEq, Eq, Structural)]
pub enum RunMode {
    Single,
    Compare,
}

/// The load generator a case runs.
#[derive(Clone, Copy, Debug, PartialEq, Eq, Structural)]
pub enum LoadGeneratorKind {
    Spinr,
    Vegeta,
}

pub const DEFAULT_PORT: u16 = 3090;
pub const DEFAULT_SSH_USER: &'static str = "alpine";
pub const DEFAULT_SUITE_PATH: &'static str = "harrow-bench/suites/http-basic.toml";
pub const DEFAULT_REGISTRY_PATH: &'static str = "harrow-bench/implementations.toml";

/// The message of a remote run that lacks a host.
pub const REMOTE_HOSTS_REQUIRED: &'static str =
    "--server-ssh, --client-ssh, and --server-private-ip are required in remote mode";

/// Settings shared by single and comparison runs. Paths are kept as text.
#[derive(Clone)]
pub struct CommonRunConfig {
    pub deployment_mode: DeploymentMode,
    pub suite_path: String,
    pub registry_path: String,
    pub case_filters: Vec<String>,
    pub results_dir: Option<String>,
    pub server_ssh: Option<String>,
    pub client_ssh: Option<String>,
    pub server_private_ip: Option<String>,
    pub ssh_user: String,
    pub port: u16,
    pub duration_secs: u32,
    pub warmup_secs: u32,
    pub build_missing: bool,
}

impl Default for CommonRunConfig {
    fn default() -> (c: Self)
        ensures
            c.deployment_mode == DeploymentMode::Local,
            c.suite_path@ == DEFAULT_SUITE_PATH@,
            c.registry_path@ == DEFAULT_REGISTRY_PATH@,
            c.case_filters@.len() == 0,
            c.results_dir is None,
            c.server_ssh is None,
            c.client_ssh is None,
            c.server_private_ip is None,
            c.ssh_user@ == DEFAULT_SSH_USER@,
            c.port == DEFAULT_PORT,
            c.duration_secs == 30,
            c.warmup_secs == 5,
            c.build_missing,
    {
        CommonRunConfig {
            deployment_mode: DeploymentMode::Local,
            suite_path: to_string(DEFAULT_SUITE_PATH),
            registry_path: to_string(DEFAULT_REGISTRY_PATH),
            case_filters: Vec::new(),
            results_dir: None,
            server_ssh: None,
            client_ssh: None,
            server_private_ip: None,
            ssh_user: to_string(DEFAULT_SSH_USER),
            port: DEFAULT_PORT,
            duration_secs: 30,
            warmup_secs: 5,
            build_missing: true,
        }
    }
}

/// A run of one implementation.
#[derive(Clone)]
pub struct SingleRunConfig {
    pub common: CommonRunConfig,
    pub implementation_id: String,
}

/// A run comparing two implementations.
#[derive(Clone)]
pub struct CompareRunConfig {
    pub common: CommonRunConfig,
    pub left_id: String,
    pub right_id: String,
}

/// A remote run needs both hosts and the server's private address.
pub open spec fn config_valid(config: CommonRunConfig) -> bool {
    config.deployment_mode == DeploymentMode::Remote ==> {
        &&& config.server_ssh is Some
        &&& config.client_ssh is Some
        &&& config.server_private_ip is Some
    }
}

/// Refuses a remote run that lacks a host or the server's private address.
pub fn validate_common_config(config: &CommonRunConfig) -> (r: Result<(), String>)
    ensures
        r is Ok <==> config_valid(*config),
        r matches Err(e) ==> e@ == REMOTE_HOSTS_REQUIRED@,
{
    match config.deployment_mode {
        DeploymentMode::Local => Ok(()),
        DeploymentMode::Remote => {
            if config.server_ssh.is_none() || config.client_ssh.is_none()
                || config.server_private_ip.is_none() {
                return Err(to_string(REMOTE_HOSTS_REQUIRED));
            }
            Ok(())
        },
    }
}

/// The label of a run in its directory's name.
pub open spec fn run_label(mode: RunMode, labels: Seq<String>) -> Seq<char> {
    match mode {
        RunMode::Single => sanitized(labels[0]@),
        RunMode::Compare => sanitized(labels[0]@) + "-vs-"@ + sanitized(labels[1]@),
    }
}

/// The variants a run of the mode has.
pub open spec fn enough_variants(mode: RunMode, n: nat) -> bool {
    match mode {
        RunMode::Single => n >= 1,
        RunMode::Compare => n >= 2,
    }
}

/// The default results directory:
/// `artifacts/bench/{timestamp}-{suite}-{label}`, names sanitized.
pub fn default_results_dir(
    mode: RunMode,
    timestamp: &str,
    suite_name: &str,
    variant_labels: &Vec<String>,
) -> (r: String)
    requires
        enough_variants(mode, variant_labels.len() as nat),
    ensures
        r@ == "artifacts/bench/"@ + timestamp@ + "-"@ + sanitized(suite_name@) + "-"@ + run_label(
            mode,
            variant_labels@,
        ),
{
    let label = match mode {
        RunMode::Single => sanitize_label(variant_labels[0].as_str()),
        RunMode::Compare => {
            let mut l = sanitize_label(variant_labels[0].as_str());
            push_str(&mut l, "-vs-");
            let right = sanitize_label(variant_labels[1].as_str());
            push_str(&mut l, right.as_str());
            l
        },
    };
    let mut s = to_string("artifacts/bench/");
    push_str(&mut s, timestamp);
    push_str(&mut s, "-");
    let suite = sanitize_label(suite_name);
    push_str(&mut s, suite.as_str());
    push_str(&mut s, "-");
    push_str(&mut s, label.as_str());
    s
}

/// The text of an optional setting, or a fallback.
pub open spec fn text_or(value: Option<String>, fallback: Seq<char>) -> Seq<char> {
    match value {
        Some(v) => v@,
        None => fallback,
    }
}

fn copy_or(value: &Option<String>, fallback: &str) -> (r: String)
    ensures
        r@ == text_or(*value, fallback@),
{
    match value {
        Some(v) => to_string(v.as_str()),
        None => to_string(fallback),
    }
}

/// The address the server is reached at: its private address, or the
/// loopback address in a local run that names none.
pub fn server_address(config: &CommonRunConfig) -> (r: String)
    ensures
        r@ == text_or(config.server_private_ip, "127.0.0.1"@),
{
    copy_or(&config.server_private_ip, "127.0.0.1")
}

/// `http://{address}:{port}`: the base URL handed to load-generator templates.
pub fn base_url(config: &CommonRunConfig) -> (r: String)
    ensures
        r@ == "http://"@ + text_or(config.server_private_ip, "127.0.0.1"@) + ":"@ + decimal(
            config.port as nat,
        ),
{
    let mut s = to_string("http://");
    let addr = server_address(config);
    push_str(&mut s, addr.as_str());
    push_str(&mut s, ":");
    push_decimal(&mut s, config.port as u64);
    s
}

/// The report's description of the hosts: a missing SSH host is
/// `localhost`, a missing private address `127.0.0.1`.
pub fn target_descriptor(config: &CommonRunConfig) -> (t: TargetDescriptor)
    ensures
        t.server_host@ == text_or(config.server_ssh, "localhost"@),
        t.client_host@ == text_or(config.client_ssh, "localhost"@),
        t.server_private_ip@ == text_or(config.server_private_ip, "127.0.0.1"@),
        t.port == config.port,
{
    TargetDescriptor {
        server_host: copy_or(&config.server_ssh, "localhost"),
        client_host: copy_or(&config.client_ssh, "localhost"),
        server_private_ip: copy_or(&config.server_private_ip, "127.0.0.1"),
        port: config.port,
    }
}

/// The report's run-wide durations.
pub fn run_defaults(config: &CommonRunConfig) -> (d: RunDefaults)
    ensures
        d.duration_secs == config.duration_secs,
        d.warmup_secs == config.warmup_secs,
{
    RunDefaults { duration_secs: config.duration_secs, warmup_secs: config.warmup_secs }
}

/// A case's load: its own durations where it sets them, else the run's.
pub fn load_profile(
    config: &CommonRunConfig,
    concurrency: Option<u32>,
    rate: Option<u32>,
    case_duration_secs: Option<u32>,
    case_warmup_secs: Option<u32>,
) -> (p: LoadProfile)
    ensures
        p.concurrency == concurrency,
        p.rate == rate,
        p.duration_secs == case_duration_secs.unwrap_or(config.duration_secs),
        p.warmup_secs == case_warmup_secs.unwrap_or(config.warmup_secs),
{
    LoadProfile {
        concurrency,
        rate,
        duration_secs: case_duration_secs.unwrap_or(config.duration_secs),
        warmup_secs: case_warmup_secs.unwrap_or(config.warmup_secs),
    }
}

} // verus!
