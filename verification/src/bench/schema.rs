//! The run report's schema: the descriptors that carry no measurements.
//!
//! The report as a whole, and the parts that hold measured values (floating
//! point), are serialized by the harness binary.
use vstd::prelude::*;

verus! {

/// The version of the report's schema.
pub const RUN_SCHEMA_VERSION: u32 = 1;

#[derive(Clone, Debug)]
pub struct SuiteDescriptor {
    pub name: String,
    pub path: String,
}

#[derive(Clone, Debug)]
pub struct TargetDescriptor {
    pub server_host: String,
    pub client_host: String,
    pub server_private_ip: String,
    pub port: u16,
}

#[derive(Clone, Debug)]
pub struct RunDefaults {
    pub duration_secs: u32,
    pub warmup_secs: u32,
}

#[derive(Clone, Debug)]
pub struct GitDescriptor {
    pub sha: String,
    pub dirty: bool,
}

#[derive(Clone, Debug)]
pub struct TemplateFiles {
    pub source: String,
    pub rendered: String,
}

#[derive(Clone, Debug)]
pub struct LoadProfile {
    pub concurrency: Option<u32>,
    pub rate: Option<u32>,
    pub duration_secs: u32,
    pub warmup_secs: u32,
}

/// Which side of a comparison a result belongs to.
#[derive(Clone, Copy, Debug, PartialEq, Eq, Structural)]
pub enum CompareSide {
    Left,
    Right,
}

#[derive(Clone, Debug)]
pub struct ImageDescriptor {
    pub tag: String,
    pub id: Option<String>,
}

#[derive(Clone, Debug)]
pub struct ImplementationLabels {
    pub framework: String,
    pub backend: String,
    pub profile: String,
}

#[derive(Clone, Debug)]
pub struct ResultArtifacts {
    pub loadgen_raw: String,
}

#[derive(Clone, Debug)]
pub struct OsArtifacts {
    pub server_cpu_path: Option<String>,
    pub client_cpu_path: Option<String>,
    pub server_net_path: Option<String>,
    pub client_net_path: Option<String>,
    pub server_vmstat_path: Option<String>,
}

#[derive(Clone, Debug)]
pub struct PerfArtifacts {
    pub report_path: Option<String>,
    pub script_path: Option<String>,
    pub folded_path: Option<String>,
    pub flamegraph_svg: Option<String>,
}

} // verus!
