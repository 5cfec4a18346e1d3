//! Load-generator templates: the context a case's template is rendered with,
//! and rendering with minijinja (strict about undefined names).
use vstd::prelude::*;
use vstd::string::StrSliceExecFns;

use crate::bench::config::{base_url, server_address, CommonRunConfig};
use crate::keyed::{keyed_map, keys_distinct, lemma_keyed_at, lemma_keyed_push, lemma_keyed_update};
use crate::text::{push_str, str_equal, to_string};
use minijinja::Value as JinjaValue;
use std::collections::BTreeMap;

verus! {

/// A value in a template's context.
#[derive(Clone, Debug, PartialEq, Eq)]
pub enum ContextValue {
    Text(String),
    Integer(i64),
    Bool(bool),
}

/// The key of a context entry.
pub open spec fn entry_key() -> spec_fn((String, ContextValue)) -> Seq<char> {
    |e: (String, ContextValue)| e.0@
}

/// The value of a context entry.
pub open spec fn entry_value() -> spec_fn((String, ContextValue)) -> ContextValue {
    |e: (String, ContextValue)| e.1
}

/// A context list as the map it stands for.
pub open spec fn context_map(entries: Seq<(String, ContextValue)>) -> Map<Seq<char>, ContextValue> {
    keyed_map(entries, entry_key(), entry_value())
}

/// Index of the entry named `name`.
fn find_entry(entries: &Vec<(String, ContextValue)>, name: &str) -> (r: Option<usize>)
    ensures
        match r {
            Some(i) => i < entries@.len() && entry_key()(entries@[i as int]) == name@,
            None => forall|i: int|
                0 <= i < entries@.len() ==> #[trigger] entry_key()(entries@[i]) != name@,
        },
{
    let mut i: usize = 0;
    while i < entries.len()
        invariant
            i <= entries@.len(),
            forall|j: int| 0 <= j < i ==> #[trigger] entry_key()(entries@[j]) != name@,
        decreases entries@.len() - i,
    {
        if str_equal(entries[i].0.as_str(), name) {
            return Some(i);
        }
        i = i + 1;
    }
    None
}

/// A template's context: each name once, a later value replacing an earlier.
pub struct TemplateContext {
    entries: Vec<(String, ContextValue)>,
}

impl TemplateContext {
    #[verifier::type_invariant]
    spec fn names_distinct(self) -> bool {
        keys_distinct(self.entries@, entry_key())
    }

    /// The values by name.
    pub closed spec fn map(self) -> Map<Seq<char>, ContextValue> {
        context_map(self.entries@)
    }

    /// The entries, in the order the names were first set.
    pub closed spec fn entries(self) -> Seq<(String, ContextValue)> {
        self.entries@
    }

    pub fn new() -> (c: Self)
        ensures
            c.map() == Map::<Seq<char>, ContextValue>::empty(),
    {
        let c = TemplateContext { entries: Vec::new() };
        assert(c.map() =~= Map::<Seq<char>, ContextValue>::empty());
        c
    }

    /// Set `name` to `value`, replacing an earlier value.
    pub fn insert(&mut self, name: &str, value: ContextValue)
        ensures
            final(self).map() == old(self).map().insert(name@, value),
    {
        proof {
            use_type_invariant(&*self);
        }
        let mut entries: Vec<(String, ContextValue)> = Vec::new();
        std::mem::swap(&mut entries, &mut self.entries);
        let ghost before = entries@;
        let found = find_entry(&entries, name);
        let e = (to_string(name), value);
        match found {
            Some(k) => {
                proof {
                    assert(entry_key()(before[k as int]) == name@);
                    lemma_keyed_update(before, entry_key(), entry_value(), k as int, e);
                }
                entries.set(k, e);
            },
            None => {
                proof {
                    lemma_keyed_push(before, entry_key(), entry_value(), e);
                }
                entries.push(e);
            },
        }
        self.entries = entries;
    }

    /// Set every entry of `other` (the case's own settings), replacing values
    /// of the same names.
    pub fn extend(&mut self, other: TemplateContext)
        ensures
            final(self).map() == old(self).map().union_prefer_right(other.map()),
    {
        proof {
            use_type_invariant(&other);
        }
        let TemplateContext { entries: rest } = other;
        let mut rest = rest;
        let ghost all = rest@;
        let total = rest.len();
        let mut taken: usize = 0;
        proof {
            assert(all.take(0) =~= Seq::<(String, ContextValue)>::empty());
            assert(context_map(all.take(0)) =~= Map::<Seq<char>, ContextValue>::empty());
            assert(old(self).map().union_prefer_right(context_map(all.take(0))) =~= old(self).map());
        }
        while rest.len() > 0
            invariant
                keys_distinct(all, entry_key()),
                taken <= all.len(),
                all.len() == total,
                rest@ == all.skip(taken as int),
                self.map() == old(self).map().union_prefer_right(context_map(all.take(taken as int))),
            decreases rest.len(),
        {
            let e = rest.remove(0);
            proof {
                assert(e == all[taken as int]);
                let before = all.take(taken as int);
                assert(all.take(taken + 1) =~= before.push(e));
                assert(keys_distinct(before, entry_key()));
                assert forall|j: int| 0 <= j < before.len() implies #[trigger] entry_key()(before[j])
                    != entry_key()(e) by {
                    assert(before[j] == all[j]);
                }
                lemma_keyed_push(before, entry_key(), entry_value(), e);
                assert(rest@ =~= all.skip(taken + 1));
            }
            let (name, value) = e;
            self.insert(name.as_str(), value);
            proof {
                let before = all.take(taken as int);
                assert(old(self).map().union_prefer_right(context_map(before)).insert(name@, value)
                    =~= old(self).map().union_prefer_right(context_map(all.take(taken + 1))));
            }
            taken = taken + 1;
        }
        proof {
            assert(all.take(all.len() as int) =~= all);
        }
    }

    /// The value set for `name`, if any.
    pub fn get(&self, name: &str) -> (r: Option<&ContextValue>)
        ensures
            match r {
                Some(v) => self.map().contains_key(name@) && *v == self.map()[name@],
                None => !self.map().contains_key(name@),
            },
    {
        proof {
            use_type_invariant(self);
        }
        match find_entry(&self.entries, name) {
            Some(i) => {
                proof {
                    lemma_keyed_at(self.entries@, entry_key(), entry_value(), i as int);
                }
                Some(&self.entries[i].1)
            },
            None => {
                proof {
                    if self.map().contains_key(name@) {
                        let j = choose|j: int|
                            0 <= j < self.entries@.len() && #[trigger] entry_key()(
                                self.entries@[j],
                            ) == name@;
                        assert(entry_key()(self.entries@[j]) != name@);
                    }
                }
                None
            },
        }
    }

    /// The entries, for rendering.
    pub fn as_slice(&self) -> (s: &[(String, ContextValue)])
        ensures
            s@ == self.entries(),
    {
        self.entries.as_slice()
    }
}

/// `m` maps `k` to a text whose characters are `t`.
pub open spec fn text_at(m: Map<Seq<char>, ContextValue>, k: Seq<char>, t: Seq<char>) -> bool {
    &&& m.contains_key(k)
    &&& match m[k] {
        ContextValue::Text(s) => s@ == t,
        _ => false,
    }
}

/// `m` maps `k` to the integer `n`.
pub open spec fn integer_at(m: Map<Seq<char>, ContextValue>, k: Seq<char>, n: int) -> bool {
    &&& m.contains_key(k)
    &&& (m[k] matches ContextValue::Integer(v) && v == n)
}

/// The names the harness sets for a case.
pub open spec fn harness_names(rate: Option<u32>, concurrency: Option<u32>) -> Set<Seq<char>> {
    let base = set![
        "suite"@,
        "case_id"@,
        "server_private_ip"@,
        "port"@,
        "base_url"@,
        "duration_secs"@,
        "warmup_secs"@,
    ];
    let with_rate = if rate is Some {
        base.insert("rate"@)
    } else {
        base
    };
    if concurrency is Some {
        with_rate.insert("connections"@).insert("concurrency"@).insert("workers"@)
    } else {
        with_rate
    }
}

/// What the harness sets for a case: the suite and case, the server's
/// address, port and base URL, the case's durations (the run's where the case
/// sets none), its rate if any, and its concurrency (under `connections`,
/// `concurrency` and `workers`) if any.
pub open spec fn harness_context(
    m: Map<Seq<char>, ContextValue>,
    config: CommonRunConfig,
    suite_name: Seq<char>,
    case_id: Seq<char>,
    case_duration_secs: Option<u32>,
    case_warmup_secs: Option<u32>,
    rate: Option<u32>,
    concurrency: Option<u32>,
) -> bool {
    let address = crate::bench::config::text_or(config.server_private_ip, "127.0.0.1"@);
    &&& m.dom() == harness_names(rate, concurrency)
    &&& text_at(m, "suite"@, suite_name)
    &&& text_at(m, "case_id"@, case_id)
    &&& text_at(m, "server_private_ip"@, address)
    &&& integer_at(m, "port"@, config.port as int)
    &&& text_at(
        m,
        "base_url"@,
        "http://"@ + address + ":"@ + crate::bench::labels::decimal(config.port as nat),
    )
    &&& integer_at(m, "duration_secs"@, case_duration_secs.unwrap_or(config.duration_secs) as int)
    &&& integer_at(m, "warmup_secs"@, case_warmup_secs.unwrap_or(config.warmup_secs) as int)
    &&& rate matches Some(r) ==> integer_at(m, "rate"@, r as int)
    &&& concurrency matches Some(c) ==> {
        &&& integer_at(m, "connections"@, c as int)
        &&& integer_at(m, "concurrency"@, c as int)
        &&& integer_at(m, "workers"@, c as int)
    }
}

/// The names the harness sets are distinct texts.
proof fn lemma_harness_names_distinct()
    ensures
        "suite"@ != "case_id"@,
        "suite"@ != "server_private_ip"@,
        "suite"@ != "port"@,
        "suite"@ != "base_url"@,
        "suite"@ != "duration_secs"@,
        "suite"@ != "warmup_secs"@,
        "suite"@ != "rate"@,
        "suite"@ != "connections"@,
        "suite"@ != "concurrency"@,
        "suite"@ != "workers"@,
        "case_id"@ != "server_private_ip"@,
        "case_id"@ != "port"@,
        "case_id"@ != "base_url"@,
        "case_id"@ != "duration_secs"@,
        "case_id"@ != "warmup_secs"@,
        "case_id"@ != "rate"@,
        "case_id"@ != "connections"@,
        "case_id"@ != "concurrency"@,
        "case_id"@ != "workers"@,
        "server_private_ip"@ != "port"@,
        "server_private_ip"@ != "base_url"@,
        "server_private_ip"@ != "duration_secs"@,
        "server_private_ip"@ != "warmup_secs"@,
        "server_private_ip"@ != "rate"@,
        "server_private_ip"@ != "connections"@,
        "server_private_ip"@ != "concurrency"@,
        "server_private_ip"@ != "workers"@,
        "port"@ != "base_url"@,
        "port"@ != "duration_secs"@,
        "port"@ != "warmup_secs"@,
        "port"@ != "rate"@,
        "port"@ != "connections"@,
        "port"@ != "concurrency"@,
        "port"@ != "workers"@,
        "base_url"@ != "duration_secs"@,
        "base_url"@ != "warmup_secs"@,
        "base_url"@ != "rate"@,
        "base_url"@ != "connections"@,
        "base_url"@ != "concurrency"@,
        "base_url"@ != "workers"@,
        "duration_secs"@ != "warmup_secs"@,
        "duration_secs"@ != "rate"@,
        "duration_secs"@ != "connections"@,
        "duration_secs"@ != "concurrency"@,
        "duration_secs"@ != "workers"@,
        "warmup_secs"@ != "rate"@,
        "warmup_secs"@ != "connections"@,
        "warmup_secs"@ != "concurrency"@,
        "warmup_secs"@ != "workers"@,
        "rate"@ != "connections"@,
        "rate"@ != "concurrency"@,
        "rate"@ != "workers"@,
        "connections"@ != "concurrency"@,
        "connections"@ != "workers"@,
        "concurrency"@ != "workers"@,
{
    reveal_strlit("suite");
    reveal_strlit("case_id");
    reveal_strlit("server_private_ip");
    reveal_strlit("port");
    reveal_strlit("base_url");
    reveal_strlit("duration_secs");
    reveal_strlit("warmup_secs");
    reveal_strlit("rate");
    reveal_strlit("connections");
    reveal_strlit("concurrency");
    reveal_strlit("workers");
    assert("suite"@.len() != "case_id"@.len());
    assert("suite"@.len() != "server_private_ip"@.len());
    assert("suite"@.len() != "port"@.len());
    assert("suite"@.len() != "base_url"@.len());
    assert("suite"@.len() != "duration_secs"@.len());
    assert("suite"@.len() != "warmup_secs"@.len());
    assert("suite"@.len() != "rate"@.len());
    assert("suite"@.len() != "connections"@.len());
    assert("suite"@.len() != "concurrency"@.len());
    assert("suite"@.len() != "workers"@.len());
    assert("case_id"@.len() != "server_private_ip"@.len());
    assert("case_id"@.len() != "port"@.len());
    assert("case_id"@.len() != "base_url"@.len());
    assert("case_id"@.len() != "duration_secs"@.len());
    assert("case_id"@.len() != "warmup_secs"@.len());
    assert("case_id"@.len() != "rate"@.len());
    assert("case_id"@.len() != "connections"@.len());
    assert("case_id"@.len() != "concurrency"@.len());
    assert("case_id"@[0] != "workers"@[0]);
    assert("server_private_ip"@.len() != "port"@.len());
    assert("server_private_ip"@.len() != "base_url"@.len());
    assert("server_private_ip"@.len() != "duration_secs"@.len());
    assert("server_private_ip"@.len() != "warmup_secs"@.len());
    assert("server_private_ip"@.len() != "rate"@.len());
    assert("server_private_ip"@.len() != "connections"@.len());
    assert("server_private_ip"@.len() != "concurrency"@.len());
    assert("server_private_ip"@.len() != "workers"@.len());
    assert("port"@.len() != "base_url"@.len());
    assert("port"@.len() != "duration_secs"@.len());
    assert("port"@.len() != "warmup_secs"@.len());
    assert("port"@[0] != "rate"@[0]);
    assert("port"@.len() != "connections"@.len());
    assert("port"@.len() != "concurrency"@.len());
    assert("port"@.len() != "workers"@.len());
    assert("base_url"@.len() != "duration_secs"@.len());
    assert("base_url"@.len() != "warmup_secs"@.len());
    assert("base_url"@.len() != "rate"@.len());
    assert("base_url"@.len() != "connections"@.len());
    assert("base_url"@.len() != "concurrency"@.len());
    assert("base_url"@.len() != "workers"@.len());
    assert("duration_secs"@.len() != "warmup_secs"@.len());
    assert("duration_secs"@.len() != "rate"@.len());
    assert("duration_secs"@.len() != "connections"@.len());
    assert("duration_secs"@.len() != "concurrency"@.len());
    assert("duration_secs"@.len() != "workers"@.len());
    assert("warmup_secs"@.len() != "rate"@.len());
    assert("warmup_secs"@[0] != "connections"@[0]);
    assert("warmup_secs"@[0] != "concurrency"@[0]);
    assert("warmup_secs"@.len() != "workers"@.len());
    assert("rate"@.len() != "connections"@.len());
    assert("rate"@.len() != "concurrency"@.len());
    assert("rate"@.len() != "workers"@.len());
    assert("connections"@[3] != "concurrency"@[3]);
    assert("connections"@.len() != "workers"@.len());
    assert("concurrency"@.len() != "workers"@.len());
}

/// The context the harness builds for a case (see [`harness_context`]).
pub fn harness_template_context(
    config: &CommonRunConfig,
    suite_name: &str,
    case_id: &str,
    case_duration_secs: Option<u32>,
    case_warmup_secs: Option<u32>,
    rate: Option<u32>,
    concurrency: Option<u32>,
) -> (c: TemplateContext)
    ensures
        harness_context(
            c.map(),
            *config,
            suite_name@,
            case_id@,
            case_duration_secs,
            case_warmup_secs,
            rate,
            concurrency,
        ),
{
    proof {
        lemma_harness_names_distinct();
    }
    let mut c = TemplateContext::new();
    c.insert("suite", ContextValue::Text(to_string(suite_name)));
    c.insert("case_id", ContextValue::Text(to_string(case_id)));
    c.insert("server_private_ip", ContextValue::Text(server_address(config)));
    c.insert("port", ContextValue::Integer(config.port as i64));
    c.insert("base_url", ContextValue::Text(base_url(config)));
    let duration = case_duration_secs.unwrap_or(config.duration_secs);
    let warmup = case_warmup_secs.unwrap_or(config.warmup_secs);
    c.insert("duration_secs", ContextValue::Integer(duration as i64));
    c.insert("warmup_secs", ContextValue::Integer(warmup as i64));
    if let Some(r) = rate {
        c.insert("rate", ContextValue::Integer(r as i64));
    }
    if let Some(n) = concurrency {
        c.insert("connections", ContextValue::Integer(n as i64));
        c.insert("concurrency", ContextValue::Integer(n as i64));
        c.insert("workers", ContextValue::Integer(n as i64));
    }
    proof {
        assert(c.map().dom() =~= harness_names(rate, concurrency));
    }
    c
}

/// A case's concurrency: its own setting, else the integer its context sets
/// under `connections`, else under `concurrency` (the first of these names
/// that is set decides; a value that is no integer gives none), taken to its
/// low 32 bits.
pub open spec fn concurrency_of(concurrency: Option<u32>, m: Map<Seq<char>, ContextValue>) -> Option<
    u32,
> {
    match concurrency {
        Some(c) => Some(c),
        None => {
            let set = if m.contains_key("connections"@) {
                Some(m["connections"@])
            } else if m.contains_key("concurrency"@) {
                Some(m["concurrency"@])
            } else {
                None
            };
            match set {
                Some(ContextValue::Integer(v)) => Some(v as u32),
                _ => None,
            }
        },
    }
}

/// The concurrency a case runs with (see [`concurrency_of`]).
pub fn resolved_concurrency(concurrency: Option<u32>, context: &TemplateContext) -> (r: Option<u32>)
    ensures
        r == concurrency_of(concurrency, context.map()),
{
    if let Some(c) = concurrency {
        return Some(c);
    }
    let set = match context.get("connections") {
        Some(v) => Some(v),
        None => context.get("concurrency"),
    };
    match set {
        Some(ContextValue::Integer(v)) => Some(*v as u32),
        _ => None,
    }
}

/// Where rendering failed, with minijinja's message.
#[derive(Clone, Debug, PartialEq, Eq)]
pub enum RenderFailure {
    /// The template did not compile.
    Load(String),
    /// The compiled template could not be fetched back.
    Fetch(String),
    /// Rendering failed (an undefined name, among others).
    Render(String),
}

/// A rendering's outcome as plain values: the text, or the failed stage
/// (0 load, 1 fetch, 2 render) with the message.
pub open spec fn rendering_view(r: Result<String, RenderFailure>) -> Result<Seq<char>, (u8, Seq<char>)> {
    match r {
        Ok(t) => Ok(t@),
        Err(RenderFailure::Load(m)) => Err((0u8, m@)),
        Err(RenderFailure::Fetch(m)) => Err((1u8, m@)),
        Err(RenderFailure::Render(m)) => Err((2u8, m@)),
    }
}

/// What minijinja, strict about undefined names, makes of a template and a
/// context: the rendered text, or the failed stage with the error's text.
pub uninterp spec fn minijinja_strict(
    source: Seq<char>,
    context: Seq<(String, ContextValue)>,
) -> Result<Seq<char>, (u8, Seq<char>)>;

/// Renders with a fresh `minijinja::Environment` set to
/// `UndefinedBehavior::Strict`: `add_template`, `get_template`, then
/// `render` with the context as a map of names to values. The outcome is
/// named by [`minijinja_strict`]; nothing more is claimed of minijinja.
#[verifier::external_body]
fn minijinja_render(source: &str, context: &[(String, ContextValue)]) -> (r: Result<String, RenderFailure>)
    ensures
        rendering_view(r) == minijinja_strict(source@, context@),
{
    let mut env = minijinja::Environment::new();
    env.set_undefined_behavior(minijinja::UndefinedBehavior::Strict);
    env.add_template("inline", source).map_err(|e| RenderFailure::Load(e.to_string()))?;
    let template = env.get_template("inline").map_err(|e| RenderFailure::Fetch(e.to_string()))?;
    let ctx: BTreeMap<&str, JinjaValue> = context.iter().map(|(k, v)| (k.as_str(), match v {
        ContextValue::Text(t) => JinjaValue::from(t.as_str()),
        ContextValue::Integer(n) => JinjaValue::from(*n),
        ContextValue::Bool(b) => JinjaValue::from(*b),
    })).collect();
    template.render(ctx).map_err(|e| RenderFailure::Render(e.to_string()))
}

/// The harness's message for each outcome: the text, or the stage's message
/// followed by minijinja's.
pub open spec fn render_message(r: Result<Seq<char>, (u8, Seq<char>)>) -> Result<Seq<char>, Seq<char>> {
    match r {
        Ok(t) => Ok(t),
        Err((stage, m)) => if stage == 0 {
            Err("failed to load template: "@ + m)
        } else if stage == 1 {
            Err("failed to fetch template: "@ + m)
        } else {
            Err("failed to render template: "@ + m)
        },
    }
}

/// A result's text, whichever side it is on.
pub open spec fn result_text(r: Result<String, String>) -> Result<Seq<char>, Seq<char>> {
    match r {
        Ok(t) => Ok(t@),
        Err(e) => Err(e@),
    }
}

/// The harness's result for a rendering's outcome.
pub fn rendering_result(rendered: Result<String, RenderFailure>) -> (r: Result<String, String>)
    ensures
        result_text(r) == render_message(rendering_view(rendered)),
{
    match rendered {
        Ok(t) => Ok(t),
        Err(RenderFailure::Load(m)) => {
            let mut e = to_string("failed to load template: ");
            push_str(&mut e, m.as_str());
            Err(e)
        },
        Err(RenderFailure::Fetch(m)) => {
            let mut e = to_string("failed to fetch template: ");
            push_str(&mut e, m.as_str());
            Err(e)
        },
        Err(RenderFailure::Render(m)) => {
            let mut e = to_string("failed to render template: ");
            push_str(&mut e, m.as_str());
            Err(e)
        },
    }
}

/// Render a template with a context; names the template uses must be set.
pub fn render_template_str(source: &str, context: &TemplateContext) -> (r: Result<String, String>)
    ensures
        result_text(r) == render_message(minijinja_strict(source@, context.entries())),
{
    let rendered = minijinja_render(source, context.as_slice());
    rendering_result(rendered)
}

} // verus!
