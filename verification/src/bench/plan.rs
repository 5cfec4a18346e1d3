//! What a single or a comparison run sets out to do: the implementations it
//! exercises, each under its label and on its side, and the configuration it
//! runs with.
//!
//! The harness loads the implementation registry, hands over the ids it
//! knows, and then carries the plan out case by case.
use vstd::prelude::*;

use crate::bench::config::{
    config_valid, validate_common_config, CommonRunConfig, CompareRunConfig, RunMode,
    SingleRunConfig, REMOTE_HOSTS_REQUIRED,
};
use crate::bench::schema::CompareSide;
use crate::text::{push_str, str_equal, to_string};

verus! {

/// One implementation a run exercises.
pub struct RunVariant {
    /// The implementation's id in the registry.
    pub implementation_id: String,
    /// The label its results are shown under.
    pub variant_label: String,
    /// Its side in a comparison; none in a single run.
    pub compare_side: Option<CompareSide>,
}

/// A run ready to be carried out.
pub struct RunPlan {
    pub mode: RunMode,
    pub config: CommonRunConfig,
    pub variants: Vec<RunVariant>,
}

/// The message for an id the registry does not know.
pub open spec fn unknown_implementation(id: Seq<char>) -> Seq<char> {
    "unknown implementation '"@ + id + "'"@
}

/// Whether the registry's ids include `id`.
pub open spec fn is_known(known: Seq<String>, id: Seq<char>) -> bool {
    exists|i: int| 0 <= i < known.len() && #[trigger] known[i]@ == id
}

/// The variant of an implementation: labelled by its id.
pub open spec fn variant_of(v: RunVariant, id: Seq<char>, side: Option<CompareSide>) -> bool {
    &&& v.implementation_id@ == id
    &&& v.variant_label@ == id
    &&& v.compare_side == side
}

fn known_id(known: &[String], id: &str) -> (b: bool)
    ensures
        b == is_known(known@, id@),
{
    let mut i: usize = 0;
    while i < known.len()
        invariant
            i <= known@.len(),
            forall|j: int| 0 <= j < i ==> #[trigger] known@[j]@ != id@,
        decreases known@.len() - i,
    {
        if str_equal(known[i].as_str(), id) {
            return true;
        }
        i = i + 1;
    }
    false
}

fn unknown_message(id: &str) -> (m: String)
    ensures
        m@ == unknown_implementation(id@),
{
    let mut m = to_string("unknown implementation '");
    push_str(&mut m, id);
    push_str(&mut m, "'");
    m
}

fn variant(id: &str, side: Option<CompareSide>) -> (v: RunVariant)
    ensures
        variant_of(v, id@, side),
{
    RunVariant { implementation_id: to_string(id), variant_label: to_string(id), compare_side: side }
}

/// Plan a run of one implementation: refused when the registry does not know
/// it, then when the configuration is invalid (see
/// [`validate_common_config`]).
pub fn run_single(config: SingleRunConfig, known: &[String]) -> (r: Result<RunPlan, String>)
    ensures
        match r {
            Ok(p) => {
                &&& is_known(known@, config.implementation_id@)
                &&& config_valid(config.common)
                &&& p.mode == RunMode::Single
                &&& p.config == config.common
                &&& p.variants@.len() == 1
                &&& variant_of(p.variants@[0], config.implementation_id@, None)
            },
            Err(e) => if !is_known(known@, config.implementation_id@) {
                e@ == unknown_implementation(config.implementation_id@)
            } else {
                !config_valid(config.common) && e@ == REMOTE_HOSTS_REQUIRED@
            },
        },
{
    let SingleRunConfig { common, implementation_id } = config;
    if !known_id(known, implementation_id.as_str()) {
        return Err(unknown_message(implementation_id.as_str()));
    }
    if let Err(e) = validate_common_config(&common) {
        return Err(e);
    }
    let mut variants: Vec<RunVariant> = Vec::new();
    variants.push(variant(implementation_id.as_str(), None));
    Ok(RunPlan { mode: RunMode::Single, config: common, variants })
}

/// Plan a comparison of two implementations, the left one first: refused
/// when the registry does not know the left one, then the right one, then
/// when the configuration is invalid.
pub fn run_compare(config: CompareRunConfig, known: &[String]) -> (r: Result<RunPlan, String>)
    ensures
        match r {
            Ok(p) => {
                &&& is_known(known@, config.left_id@)
                &&& is_known(known@, config.right_id@)
                &&& config_valid(config.common)
                &&& p.mode == RunMode::Compare
                &&& p.config == config.common
                &&& p.variants@.len() == 2
                &&& variant_of(p.variants@[0], config.left_id@, Some(CompareSide::Left))
                &&& variant_of(p.variants@[1], config.right_id@, Some(CompareSide::Right))
            },
            Err(e) => if !is_known(known@, config.left_id@) {
                e@ == unknown_implementation(config.left_id@)
            } else if !is_known(known@, config.right_id@) {
                e@ == unknown_implementation(config.right_id@)
            } else {
                !config_valid(config.common) && e@ == REMOTE_HOSTS_REQUIRED@
            },
        },
{
    let CompareRunConfig { common, left_id, right_id } = config;
    if !known_id(known, left_id.as_str()) {
        return Err(unknown_message(left_id.as_str()));
    }
    if !known_id(known, right_id.as_str()) {
        return Err(unknown_message(right_id.as_str()));
    }
    if let Err(e) = validate_common_config(&common) {
        return Err(e);
    }
    let mut variants: Vec<RunVariant> = Vec::new();
    variants.push(variant(left_id.as_str(), Some(CompareSide::Left)));
    variants.push(variant(right_id.as_str(), Some(CompareSide::Right)));
    Ok(RunPlan { mode: RunMode::Compare, config: common, variants })
}

impl RunPlan {
    /// The variants' labels, in order.
    pub fn variant_labels(&self) -> (labels: Vec<String>)
        ensures
            labels@.len() == self.variants@.len(),
            forall|i: int|
                0 <= i < labels@.len() ==> #[trigger] labels@[i]@ == self.variants@[i].variant_label@,
    {
        let mut labels: Vec<String> = Vec::new();
        let mut i: usize = 0;
        while i < self.variants.len()
            invariant
                i <= self.variants@.len(),
                labels@.len() == i,
                forall|j: int|
                    0 <= j < i ==> #[trigger] labels@[j]@ == self.variants@[j].variant_label@,
            decreases self.variants@.len() - i,
        {
            labels.push(to_string(self.variants[i].variant_label.as_str()));
            i = i + 1;
        }
        labels
    }
}

} // verus!
