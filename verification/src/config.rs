//! Loading the launcher's declarative configuration: a build profile
//! and a descriptor per agent — name, executable, enabled flag and
//! restart policy — read once before any process is spawned.
//!
//! The text is parsed by the `toml` crate; the resulting document tree
//! is opaque here, so the field extraction goes through the trusted
//! accessors below, and everything built from the extracted plain
//! values — policy words, descriptor assembly, the enabled filter —
//! is verified.

use vstd::prelude::*;

verus! {

use crate::supervisor::AgentConfig;
use crate::supervisor::RestartPolicy;

/// The launcher's configuration: the build profile whose output
/// directory holds the agent executables, and the agent descriptors in
/// declaration order.
#[derive(Debug, Clone)]
pub struct LauncherConfig {
    pub build_profile: String,
    pub agents: Vec<AgentConfig>,
}

/// Why a configuration text was rejected.  Each field of each agent
/// entry is required; `BadPolicy` carries the entry's position and the
/// offending word.
#[derive(Debug, Clone)]
pub enum ConfigError {
    Syntax(String),
    MissingBuildProfile,
    MissingAgents,
    MissingName(usize),
    MissingBin(usize),
    MissingEnabled(usize),
    MissingRestart(usize),
    BadPolicy(usize, String),
}

/// The restart policy a configuration word names, if any: `never`,
/// `on_failure` or `always`.
pub open spec fn spec_policy_of(s: Seq<char>) -> Option<RestartPolicy> {
    if s == "never"@ {
        Some(RestartPolicy::Never)
    } else if s == "on_failure"@ {
        Some(RestartPolicy::OnFailure)
    } else if s == "always"@ {
        Some(RestartPolicy::Always)
    } else {
        None
    }
}

/// Parses a restart-policy word; exactly the three configuration
/// words are accepted.
pub fn parse_restart_policy(s: &str) -> (r: Option<RestartPolicy>)
    ensures
        r == spec_policy_of(s@),
{
    let t = s.to_owned();
    if t == "never".to_owned() {
        Some(RestartPolicy::Never)
    } else if t == "on_failure".to_owned() {
        Some(RestartPolicy::OnFailure)
    } else if t == "always".to_owned() {
        Some(RestartPolicy::Always)
    } else {
        None
    }
}

/// Assembles one agent descriptor from its extracted fields.  It
/// succeeds exactly when the restart word names a policy; the
/// descriptor carries the fields unchanged.
pub fn agent_from_parts(name: &str, bin: &str, enabled: bool, restart: &str, idx: usize) -> (r:
    Result<AgentConfig, ConfigError>)
    ensures
        match spec_policy_of(restart@) {
            Some(p) => r matches Ok(c) && c.name@ == name@ && c.bin@ == bin@ && c.enabled == enabled
                && c.restart == p,
            None => r matches Err(ConfigError::BadPolicy(i, w)) && i == idx && w@ == restart@,
        },
{
    match parse_restart_policy(restart) {
        Some(p) => Ok(
            AgentConfig { name: name.to_owned(), bin: bin.to_owned(), enabled, restart: p },
        ),
        None => Err(ConfigError::BadPolicy(idx, restart.to_owned())),
    }
}

impl AgentConfig {
    /// An exact copy of this descriptor.
    pub fn duplicate(&self) -> (r: AgentConfig)
        ensures
            r == *self,
    {
        AgentConfig {
            name: self.name.clone(),
            bin: self.bin.clone(),
            enabled: self.enabled,
            restart: self.restart,
        }
    }
}

/// The agents the launcher actually spawns: the enabled descriptors,
/// in configuration order.
pub fn enabled_agents(cfg: &LauncherConfig) -> (r: Vec<AgentConfig>)
    ensures
        r@ == cfg.agents@.filter(|a: AgentConfig| a.enabled),
{
    let ghost s0 = cfg.agents@;
    let mut r: Vec<AgentConfig> = Vec::new();
    let mut i: usize = 0;
    proof {
        assert(s0.subrange(0, 0).filter(|a: AgentConfig| a.enabled) =~= Seq::<
            AgentConfig,
        >::empty());
    }
    while i < cfg.agents.len()
        invariant
            s0 == cfg.agents@,
            i <= s0.len(),
            r@ == s0.subrange(0, i as int).filter(|a: AgentConfig| a.enabled),
        decreases s0.len() - i,
    {
        let ghost pre = s0.subrange(0, i as int);
        proof {
            let x = s0[i as int];
            assert(s0.subrange(0, i as int + 1) =~= pre + seq![x]);
            Seq::<AgentConfig>::filter_distributes_over_add(pre, seq![x], |a: AgentConfig| a.enabled);
            reveal_with_fuel(Seq::filter, 2);
            assert(seq![x].drop_last() =~= Seq::<AgentConfig>::empty());
            if x.enabled {
                assert(seq![x].filter(|a: AgentConfig| a.enabled) =~= seq![x]);
                assert(pre.filter(|a: AgentConfig| a.enabled) + seq![x] =~= pre.filter(
                    |a: AgentConfig| a.enabled,
                ).push(x));
            } else {
                assert(seq![x].filter(|a: AgentConfig| a.enabled) =~= Seq::<AgentConfig>::empty());
                assert(pre.filter(|a: AgentConfig| a.enabled) + Seq::<AgentConfig>::empty()
                    =~= pre.filter(|a: AgentConfig| a.enabled));
            }
        }
        let a = &cfg.agents[i];
        if a.enabled {
            r.push(a.duplicate());
        }
        i = i + 1;
    }
    proof {
        assert(s0.subrange(0, s0.len() as int) =~= s0);
    }
    r
}

/// The parsed TOML document tree; values of it are opaque here and
/// only examined through the trusted accessors below.
#[verifier::external_type_specification]
#[verifier::external_body]
pub struct ExTomlValue(toml::Value);

/// The `toml` crate's parse error; opaque here, rendered into a plain
/// message by `toml_error_message`.
#[verifier::external_type_specification]
#[verifier::external_body]
pub struct ExTomlError(toml::de::Error);

/// The document tree a TOML text parses to, or nothing where the text
/// is ill-formed; the parse depends on the text alone.
pub uninterp spec fn toml_doc_of(text: Seq<char>) -> Option<toml::Value>;

/// The child a key names in a TOML value, or nothing where the value
/// is no table or lacks the key.
pub uninterp spec fn toml_child_of(v: toml::Value, key: Seq<char>) -> Option<toml::Value>;

/// The string payload of a TOML value, where it is a string.
pub uninterp spec fn toml_str_of(v: toml::Value) -> Option<Seq<char>>;

/// The boolean payload of a TOML value, where it is a boolean.
pub uninterp spec fn toml_bool_of(v: toml::Value) -> Option<bool>;

/// The element list of a TOML value, where it is an array.
pub uninterp spec fn toml_items_of(v: toml::Value) -> Option<Seq<toml::Value>>;

/// Relies on `<toml::Table as FromStr>::from_str`: parses a TOML
/// document into the crate's table tree, or reports a syntax error;
/// the outcome is a function of the text alone.
#[verifier::external_body]
fn toml_parse_value(text: &str) -> (r: Result<toml::Value, toml::de::Error>)
    ensures
        r is Ok <==> toml_doc_of(text@) is Some,
        r matches Ok(v) ==> toml_doc_of(text@) == Some(v),
{
    match text.parse::<toml::Table>() {
        Ok(t) => Ok(toml::Value::Table(t)),
        Err(e) => Err(e),
    }
}

/// Relies on the `Display` rendering of `toml::de::Error`: a
/// human-readable description of the syntax error.
#[verifier::external_body]
fn toml_error_message(e: &toml::de::Error) -> (r: String) {
    format!("{}", e)
}

/// Relies on `toml::Value::get`: looks a key up in a TOML table,
/// `None` when the key is absent or the value is no table.
#[verifier::external_body]
fn toml_get<'a>(v: &'a toml::Value, key: &str) -> (r: Option<&'a toml::Value>)
    ensures
        match r {
            Some(c) => toml_child_of(*v, key@) == Some(*c),
            None => toml_child_of(*v, key@) is None,
        },
{
    v.get(key)
}

/// Relies on `toml::Value::as_str`: the string payload, if the value
/// is a TOML string.
#[verifier::external_body]
fn toml_as_str<'a>(v: &'a toml::Value) -> (r: Option<&'a str>)
    ensures
        match r {
            Some(s) => toml_str_of(*v) == Some(s@),
            None => toml_str_of(*v) is None,
        },
{
    v.as_str()
}

/// Relies on `toml::Value::as_bool`: the boolean payload, if the value
/// is a TOML boolean.
#[verifier::external_body]
fn toml_as_bool(v: &toml::Value) -> (r: Option<bool>)
    ensures
        r == toml_bool_of(*v),
{
    v.as_bool()
}

/// Relies on `toml::Value::as_array`: the element list, if the value
/// is a TOML array.
#[verifier::external_body]
fn toml_as_array<'a>(v: &'a toml::Value) -> (r: Option<&'a Vec<toml::Value>>)
    ensures
        match r {
            Some(a) => toml_items_of(*v) == Some(a@),
            None => toml_items_of(*v) is None,
        },
{
    v.as_array()
}

/// The string payload of the child a key names: the one shape a
/// required string field accepts.
pub open spec fn field_str(v: toml::Value, key: Seq<char>) -> Option<Seq<char>> {
    match toml_child_of(v, key) {
        Some(c) => toml_str_of(c),
        None => None,
    }
}

/// The boolean payload of the child a key names.
pub open spec fn field_bool(v: toml::Value, key: Seq<char>) -> Option<bool> {
    match toml_child_of(v, key) {
        Some(c) => toml_bool_of(c),
        None => None,
    }
}

/// The element list of the child a key names.
pub open spec fn field_items(v: toml::Value, key: Seq<char>) -> Option<Seq<toml::Value>> {
    match toml_child_of(v, key) {
        Some(c) => toml_items_of(c),
        None => None,
    }
}

/// What it means for a descriptor to be read off a TOML entry: each
/// required field is present with the right type, and the restart word
/// names the descriptor's policy.
pub open spec fn entry_matches(v: toml::Value, c: AgentConfig) -> bool {
    &&& field_str(v, "name"@) == Some(c.name@)
    &&& field_str(v, "bin"@) == Some(c.bin@)
    &&& field_bool(v, "enabled"@) == Some(c.enabled)
    &&& field_str(v, "restart"@) matches Some(w) && spec_policy_of(w) == Some(c.restart)
}

/// Extracts one agent descriptor from its TOML entry.  On success the
/// descriptor's fields are exactly the entry's `name`, `bin`,
/// `enabled` and `restart` payloads; each error names the first field,
/// in that order, that is absent or ill-typed, or the restart word
/// that names no policy.
pub fn parse_agent_entry(v: &toml::Value, idx: usize) -> (r: Result<AgentConfig, ConfigError>)
    ensures
        match r {
            Ok(c) => entry_matches(*v, c),
            Err(ConfigError::MissingName(i)) => i == idx && field_str(*v, "name"@) is None,
            Err(ConfigError::MissingBin(i)) => i == idx && field_str(*v, "name"@) is Some
                && field_str(*v, "bin"@) is None,
            Err(ConfigError::MissingEnabled(i)) => i == idx && field_str(*v, "name"@) is Some
                && field_str(*v, "bin"@) is Some && field_bool(*v, "enabled"@) is None,
            Err(ConfigError::MissingRestart(i)) => i == idx && field_str(*v, "name"@) is Some
                && field_str(*v, "bin"@) is Some && field_bool(*v, "enabled"@) is Some
                && field_str(*v, "restart"@) is None,
            Err(ConfigError::BadPolicy(i, w)) => i == idx && field_str(*v, "restart"@) == Some(w@)
                && spec_policy_of(w@) is None,
            Err(_) => false,
        },
{
    let name = match toml_get(v, "name") {
        Some(x) => match toml_as_str(x) {
            Some(s) => s,
            None => {
                return Err(ConfigError::MissingName(idx));
            },
        },
        None => {
            return Err(ConfigError::MissingName(idx));
        },
    };
    let bin = match toml_get(v, "bin") {
        Some(x) => match toml_as_str(x) {
            Some(s) => s,
            None => {
                return Err(ConfigError::MissingBin(idx));
            },
        },
        None => {
            return Err(ConfigError::MissingBin(idx));
        },
    };
    let enabled = match toml_get(v, "enabled") {
        Some(x) => match toml_as_bool(x) {
            Some(b) => b,
            None => {
                return Err(ConfigError::MissingEnabled(idx));
            },
        },
        None => {
            return Err(ConfigError::MissingEnabled(idx));
        },
    };
    let restart = match toml_get(v, "restart") {
        Some(x) => match toml_as_str(x) {
            Some(s) => s,
            None => {
                return Err(ConfigError::MissingRestart(idx));
            },
        },
        None => {
            return Err(ConfigError::MissingRestart(idx));
        },
    };
    agent_from_parts(name, bin, enabled, restart, idx)
}

/// Parses the launcher's whole configuration text.  On success the
/// build profile and every descriptor are read off the parsed
/// document; a syntax error, a missing or ill-typed field, or a
/// restart word that names no policy is rejected with the specific
/// [`ConfigError`], the agent entries taken in declaration order.
pub fn parse_launcher_config(text: &str) -> (r: Result<LauncherConfig, ConfigError>)
    ensures
        match r {
            Ok(cfg) => toml_doc_of(text@) matches Some(root) && (field_str(
                root,
                "build_profile"@,
            ) == Some(cfg.build_profile@) && (field_items(root, "agents"@) matches Some(items) && (
            items.len() == cfg.agents@.len() && (forall|j: int|
                0 <= j < items.len() ==> entry_matches(#[trigger] items[j], cfg.agents@[j]))))),
            Err(ConfigError::Syntax(_)) => toml_doc_of(text@) is None,
            Err(ConfigError::MissingBuildProfile) => toml_doc_of(text@) matches Some(root)
                && field_str(root, "build_profile"@) is None,
            Err(ConfigError::MissingAgents) => toml_doc_of(text@) matches Some(root) && field_str(
                root,
                "build_profile"@,
            ) is Some && field_items(root, "agents"@) is None,
            Err(ConfigError::MissingName(i)) => parse_stopped_at(text@, i as int)
                && entry_error_holds(text@, i as int, |e: toml::Value| field_str(e, "name"@)
                is None),
            Err(ConfigError::MissingBin(i)) => parse_stopped_at(text@, i as int)
                && entry_error_holds(text@, i as int, |e: toml::Value| field_str(e, "bin"@)
                is None),
            Err(ConfigError::MissingEnabled(i)) => parse_stopped_at(text@, i as int)
                && entry_error_holds(text@, i as int, |e: toml::Value| field_bool(e, "enabled"@)
                is None),
            Err(ConfigError::MissingRestart(i)) => parse_stopped_at(text@, i as int)
                && entry_error_holds(text@, i as int, |e: toml::Value| field_str(e, "restart"@)
                is None),
            Err(ConfigError::BadPolicy(i, w)) => parse_stopped_at(text@, i as int)
                && entry_error_holds(
                text@,
                i as int,
                |e: toml::Value| field_str(e, "restart"@) == Some(w@),
            ) && spec_policy_of(w@) is None,
        },
{
    let root = match toml_parse_value(text) {
        Ok(v) => v,
        Err(e) => {
            return Err(ConfigError::Syntax(toml_error_message(&e)));
        },
    };
    let build_profile = match toml_get(&root, "build_profile") {
        Some(v) => match toml_as_str(v) {
            Some(s) => s.to_owned(),
            None => {
                return Err(ConfigError::MissingBuildProfile);
            },
        },
        None => {
            return Err(ConfigError::MissingBuildProfile);
        },
    };
    let arr = match toml_get(&root, "agents") {
        Some(v) => match toml_as_array(v) {
            Some(a) => a,
            None => {
                return Err(ConfigError::MissingAgents);
            },
        },
        None => {
            return Err(ConfigError::MissingAgents);
        },
    };
    let ghost groot = root;
    let ghost items = arr@;
    let mut agents: Vec<AgentConfig> = Vec::new();
    let mut i: usize = 0;
    while i < arr.len()
        invariant
            toml_doc_of(text@) == Some(groot),
            field_str(groot, "build_profile"@) == Some(build_profile@),
            field_items(groot, "agents"@) == Some(items),
            items == arr@,
            i <= items.len(),
            agents@.len() == i,
            forall|j: int| 0 <= j < i ==> entry_matches(#[trigger] items[j], agents@[j]),
        decreases arr@.len() - i,
    {
        match parse_agent_entry(&arr[i], i) {
            Ok(c) => agents.push(c),
            Err(e) => {
                return Err(e);
            },
        }
        i = i + 1;
    }
    Ok(LauncherConfig { build_profile, agents })
}

/// The parse reached the agent entries and stopped inside entry `i`:
/// the document parsed, the build profile and the agent list are in
/// place, and `i` is an entry of the list.
pub open spec fn parse_stopped_at(text: Seq<char>, i: int) -> bool {
    toml_doc_of(text) matches Some(root) && (field_str(root, "build_profile"@) is Some && (
    field_items(root, "agents"@) matches Some(items) && 0 <= i < items.len()))
}

/// The condition `cond` holds of the agent entry at position `i` of
/// the parsed document's list.
pub open spec fn entry_error_holds(
    text: Seq<char>,
    i: int,
    cond: spec_fn(toml::Value) -> bool,
) -> bool {
    toml_doc_of(text) matches Some(root) && (field_items(root, "agents"@) matches Some(items) && (0
        <= i < items.len() && cond(items[i])))
}

} // verus!
