//! The configuration model: how a configuration is assembled from sources,
//! and the loaded configuration that services read their sections from.
//!
//! Reading files and the environment happens outside this crate: a
//! `ConfigBuilder` produces a `ConfigPlan`, the loader follows it and hands
//! back the loaded sections.

use vstd::prelude::*;
use std::collections::HashMap;
use crate::auth_middleware::ApiSvcConfig;
use crate::strings::{same_text, owned};

verus! {

// ---------------------------------------------------------------------------
// Sections
// ---------------------------------------------------------------------------

/// The `[main]` section: which roles run and where the cells live.
pub struct MainConfig {
    /// The enabled roles, as the configuration loader lists them: each
    /// once, in name order.
    pub roles: Vec<String>,
    pub prometheus_address: String,
    pub prometheus_port: u16,
    pub dispatcher_cell_map: HashMap<u64, String>,
    pub scheduler_cell_map: HashMap<u64, String>,
    pub metadata_cell_map: HashMap<u64, String>,
}

/// Two main sections agree on every field.
pub open spec fn same_main(a: MainConfig, b: MainConfig) -> bool {
    &&& a.roles@.map_values(|r: String| r@) == b.roles@.map_values(|r: String| r@)
    &&& a.prometheus_address@ == b.prometheus_address@
    &&& a.prometheus_port == b.prometheus_port
    &&& a.dispatcher_cell_map@ == b.dispatcher_cell_map@
    &&& a.scheduler_cell_map@ == b.scheduler_cell_map@
    &&& a.metadata_cell_map@ == b.metadata_cell_map@
}

fn clone_strings(v: &Vec<String>) -> (r: Vec<String>)
    ensures
        r@.map_values(|s: String| s@) == v@.map_values(|s: String| s@),
{
    let mut r: Vec<String> = Vec::new();
    let mut i: usize = 0;
    while i < v.len()
        invariant
            i <= v@.len(),
            r@.len() == i,
            forall|j: int| 0 <= j < i ==> r@[j]@ == v@[j]@,
        decreases v@.len() - i,
    {
        r.push(v[i].clone());
        i = i + 1;
    }
    assert(r@.map_values(|s: String| s@) =~= v@.map_values(|s: String| s@));
    r
}

impl MainConfig {
    /// A copy of the section.
    pub fn duplicate(&self) -> (c: MainConfig)
        ensures
            same_main(c, *self),
    {
        MainConfig {
            roles: clone_strings(&self.roles),
            prometheus_address: self.prometheus_address.clone(),
            prometheus_port: self.prometheus_port,
            dispatcher_cell_map: self.dispatcher_cell_map.clone(),
            scheduler_cell_map: self.scheduler_cell_map.clone(),
            metadata_cell_map: self.metadata_cell_map.clone(),
        }
    }
}

/// The `[scheduler]` section.
pub struct SchedulerSvcConfig {
    pub cell_id: u32,
    pub address: String,
    pub port: u16,
    pub request_processing_timeout_s: u64,
    pub spinner_yield_max_ms: u64,
    pub max_triggers_per_tick: u64,
    pub database_uri: String,
    pub db_flush_s: u64,
    pub dangerous_fast_forward: bool,
}

/// The `[metadata]` section.
pub struct MetadataSvcConfig {
    pub cell_id: u32,
    pub address: String,
    pub port: u16,
    pub request_processing_timeout_s: u64,
    pub database_uri: String,
}

/// The `[dispatcher]` section.
pub struct DispatcherSvcConfig {
    pub cell_id: u32,
    pub address: String,
    pub port: u16,
    pub request_processing_timeout_s: u64,
    pub database_uri: String,
}

/// A loaded configuration section.
pub enum SectionConfig {
    Main(MainConfig),
    Api(ApiSvcConfig),
    Scheduler(SchedulerSvcConfig),
    Dispatcher(DispatcherSvcConfig),
    Metadata(MetadataSvcConfig),
}

/// A section under its name.
pub struct LoadedSection {
    pub name: String,
    pub value: SectionConfig,
}

// ---------------------------------------------------------------------------
// Building
// ---------------------------------------------------------------------------

/// A source of configuration values, in the order they are layered.
pub enum ConfigSource {
    /// A TOML text.
    Toml(String),
    /// A file, read (and watched) by path.
    File(String),
    /// Environment variables with the prefix, `__` between path parts and
    /// `,` between list items.
    Environment(String),
}

/// A value that overrides one configuration key.
pub enum OverrideValue {
    Text(String),
    Integer(i64),
    Boolean(bool),
}

/// Why a configuration could not be built or loaded.
pub enum ConfigError {
    /// A section failed to load; holds the section name and the reason.
    ServiceConfigLoadError(String, String),
    /// The configuration failed to load; holds the reason.
    ConfigLoadError(String),
}

/// Whether the config crate accepts a key path for an override.
pub uninterp spec fn override_key_accepted(key: Seq<char>) -> bool;

/// `config::ConfigBuilder::set_override`'s check of the key path: `Ok` when
/// the config crate parses the key, else its error text (not stated).
#[verifier::external_body]
fn check_override_key(key: &str) -> (r: Result<(), String>)
    ensures
        r is Ok == override_key_accepted(key@),
{
    match config::builder::ConfigBuilder::<config::builder::DefaultState>::default().set_override(key, 0i64) {
        Ok(_) => Ok(()),
        Err(e) => Err(e.to_string()),
    }
}

/// Assembles configuration sources, overrides and section names.
pub struct ConfigBuilder {
    env_prefix: String,
    sources: Vec<ConfigSource>,
    overrides: Vec<(String, OverrideValue)>,
    file_sources: Vec<String>,
    sections: Vec<String>,
}

/// What a configuration loader does: layer the sources in order, apply
/// the overrides on top, load each section, and watch the files when asked.
pub struct ConfigPlan {
    pub sources: Vec<ConfigSource>,
    pub overrides: Vec<(String, OverrideValue)>,
    pub sections: Vec<String>,
    pub watched_files: Vec<String>,
}

/// Whether a list of names holds a name.
pub open spec fn names_hold(names: Seq<String>, s: Seq<char>) -> bool {
    exists|i: int| 0 <= i < names.len() && names[i]@ == s
}

/// The name of the main section.
pub open spec fn main_section() -> Seq<char> {
    "main"@
}

impl ConfigBuilder {
    pub closed spec fn spec_sources(&self) -> Seq<ConfigSource> {
        self.sources@
    }

    pub closed spec fn spec_sections(&self) -> Seq<String> {
        self.sections@
    }

    pub closed spec fn spec_files(&self) -> Seq<String> {
        self.file_sources@
    }

    pub closed spec fn spec_overrides(&self) -> Seq<(String, OverrideValue)> {
        self.overrides@
    }

    pub closed spec fn spec_env_prefix(&self) -> Seq<char> {
        self.env_prefix@
    }

    /// A builder that starts from a default TOML text, with the `main`
    /// section registered.
    pub fn new(env_prefix: String, default_toml_src: String) -> (b: ConfigBuilder)
        ensures
            b.spec_env_prefix() == env_prefix@,
            b.spec_sources() == seq![ConfigSource::Toml(default_toml_src)],
            b.spec_sections().len() == 1 && b.spec_sections()[0]@ == main_section(),
            b.spec_files().len() == 0,
            b.spec_overrides().len() == 0,
    {
        let mut sources = Vec::new();
        sources.push(ConfigSource::Toml(default_toml_src));
        let loader = ConfigBuilder {
            env_prefix,
            sources,
            overrides: Vec::new(),
            file_sources: Vec::new(),
            sections: Vec::new(),
        };
        loader.register_section_loader("main")
    }

    /// Adds a TOML text as the next source.
    pub fn add_default_toml(self, raw: String) -> (b: ConfigBuilder)
        ensures
            b.spec_sources() == self.spec_sources().push(ConfigSource::Toml(raw)),
            b.spec_sections() == self.spec_sections(),
            b.spec_files() == self.spec_files(),
            b.spec_overrides() == self.spec_overrides(),
            b.spec_env_prefix() == self.spec_env_prefix(),
    {
        let mut b = self;
        b.sources.push(ConfigSource::Toml(raw));
        b
    }

    /// Adds a file as the next source; the file is also watched.
    pub fn add_file_source(self, path: String) -> (b: ConfigBuilder)
        ensures
            b.spec_sources() == self.spec_sources().push(ConfigSource::File(path)),
            b.spec_files() == self.spec_files().push(path),
            b.spec_sections() == self.spec_sections(),
            b.spec_overrides() == self.spec_overrides(),
            b.spec_env_prefix() == self.spec_env_prefix(),
    {
        let mut b = self;
        b.file_sources.push(path.clone());
        b.sources.push(ConfigSource::File(path));
        b
    }

    /// Registers a service: its default TOML text becomes the next source
    /// and its section is loaded. The overrides set so far stay.
    pub fn register_service(self, default_config_toml: String, config_section: &str) -> (b: ConfigBuilder)
        ensures
            b.spec_sources() == self.spec_sources().push(ConfigSource::Toml(default_config_toml)),
            b.spec_overrides() == self.spec_overrides(),
            names_hold(b.spec_sections(), config_section@),
            forall|s: Seq<char>| names_hold(b.spec_sections(), s) <==> (names_hold(self.spec_sections(), s)
                || s == config_section@),
            b.spec_files() == self.spec_files(),
            b.spec_env_prefix() == self.spec_env_prefix(),
    {
        self.add_default_toml(default_config_toml).register_section_loader(config_section)
    }

    /// Registers a section to load; registering one twice has no further
    /// effect.
    pub fn register_section_loader(self, section: &str) -> (b: ConfigBuilder)
        ensures
            names_hold(b.spec_sections(), section@),
            forall|s: Seq<char>| names_hold(b.spec_sections(), s) <==> (names_hold(self.spec_sections(), s)
                || s == section@),
            names_hold(self.spec_sections(), section@) ==> b.spec_sections() == self.spec_sections(),
            !names_hold(self.spec_sections(), section@) ==> b.spec_sections().len() == self.spec_sections().len() + 1
                && b.spec_sections()[self.spec_sections().len() as int]@ == section@
                && b.spec_sections().drop_last() == self.spec_sections(),
            b.spec_sources() == self.spec_sources(),
            b.spec_files() == self.spec_files(),
            b.spec_overrides() == self.spec_overrides(),
            b.spec_env_prefix() == self.spec_env_prefix(),
    {
        let mut b = self;
        let mut i: usize = 0;
        while i < b.sections.len()
            invariant
                i <= b.sections@.len(),
                b == self,
                forall|j: int| 0 <= j < i ==> b.sections@[j]@ != section@,
            decreases b.sections@.len() - i,
        {
            if same_text(b.sections[i].as_str(), section) {
                return b;
            }
            i = i + 1;
        }
        let ghost before = b.sections@;
        b.sections.push(owned(section));
        assert forall|s: Seq<char>| names_hold(b.sections@, s) <==> (names_hold(before, s) || s == section@) by {
            if names_hold(b.sections@, s) {
                let j = choose|j: int| 0 <= j < b.sections@.len() && b.sections@[j]@ == s;
                if j < before.len() {
                    assert(before[j]@ == s);
                }
            }
            if names_hold(before, s) {
                let j = choose|j: int| 0 <= j < before.len() && before[j]@ == s;
                assert(b.sections@[j]@ == s);
            }
            if s == section@ {
                assert(b.sections@[before.len() as int]@ == s);
            }
        }
        assert(b.sections@.drop_last() == before);
        assert(b.sections@[before.len() as int]@ == section@);
        b
    }

    /// Adds the environment as the last source, so that environment
    /// variables take precedence over files and defaults.
    fn add_env_source(self) -> (b: ConfigBuilder)
        ensures
            b.spec_sources().drop_last() == self.spec_sources(),
            b.spec_sources().len() == self.spec_sources().len() + 1,
            b.spec_sources().last() matches ConfigSource::Environment(prefix) && prefix@ == self.spec_env_prefix(),
            b.spec_sections() == self.spec_sections(),
            b.spec_files() == self.spec_files(),
            b.spec_overrides() == self.spec_overrides(),
            b.spec_env_prefix() == self.spec_env_prefix(),
    {
        let mut b = self;
        let prefix = b.env_prefix.clone();
        b.sources.push(ConfigSource::Environment(prefix));
        b
    }

    /// Sets a value that applies on top of all sources; a key the config
    /// crate cannot parse is an error.
    pub fn set_override(self, key: String, value: OverrideValue) -> (r: Result<ConfigBuilder, ConfigError>)
        ensures
            r is Ok <==> override_key_accepted(key@),
            r matches Ok(b) ==> b.spec_overrides() == self.spec_overrides().push((key, value))
                && b.spec_sources() == self.spec_sources() && b.spec_sections() == self.spec_sections()
                && b.spec_files() == self.spec_files() && b.spec_env_prefix() == self.spec_env_prefix(),
            r matches Err(e) ==> e is ConfigLoadError,
    {
        match check_override_key(key.as_str()) {
            Ok(()) => {
                let mut b = self;
                b.overrides.push((key, value));
                Ok(b)
            },
            Err(message) => Err(ConfigError::ConfigLoadError(message)),
        }
    }

    /// The plan for loading the configuration once: the sources with the
    /// environment last, the overrides and the sections; nothing is watched.
    pub fn build_once(self) -> (p: ConfigPlan)
        ensures
            p.sources@.drop_last() == self.spec_sources(),
            p.sources@.len() == self.spec_sources().len() + 1,
            p.sources@.last() matches ConfigSource::Environment(prefix) && prefix@ == self.spec_env_prefix(),
            p.overrides@ == self.spec_overrides(),
            p.sections@ == self.spec_sections(),
            p.watched_files@.len() == 0,
    {
        let b = self.add_env_source();
        ConfigPlan { sources: b.sources, overrides: b.overrides, sections: b.sections, watched_files: Vec::new() }
    }

    /// The plan for loading the configuration and reloading it whenever one
    /// of the file sources changes.
    pub fn build_and_watch(self) -> (p: ConfigPlan)
        ensures
            p.sources@.drop_last() == self.spec_sources(),
            p.sources@.len() == self.spec_sources().len() + 1,
            p.sources@.last() matches ConfigSource::Environment(prefix) && prefix@ == self.spec_env_prefix(),
            p.overrides@ == self.spec_overrides(),
            p.sections@ == self.spec_sections(),
            p.watched_files@ == self.spec_files(),
    {
        let b = self.add_env_source();
        ConfigPlan { sources: b.sources, overrides: b.overrides, sections: b.sections, watched_files: b.file_sources }
    }
}

// ---------------------------------------------------------------------------
// Loaded configuration
// ---------------------------------------------------------------------------

/// The index of the section with a name, if loaded.
pub open spec fn section_index(sections: Seq<LoadedSection>, name: Seq<char>) -> Option<int> {
    if exists|i: int| 0 <= i < sections.len() && sections[i].name@ == name {
        Some(choose|i: int| 0 <= i < sections.len() && sections[i].name@ == name && forall|j: int|
            0 <= j < i ==> sections[j].name@ != name)
    } else {
        None
    }
}

/// A section named `name` at index `i` means there is a first one.
proof fn lemma_first_section(sections: Seq<LoadedSection>, name: Seq<char>, i: int)
    requires
        0 <= i < sections.len(),
        sections[i].name@ == name,
    ensures
        exists|k: int| 0 <= k < sections.len() && sections[k].name@ == name && forall|j: int|
            0 <= j < k ==> sections[j].name@ != name,
    decreases i,
{
    if exists|j: int| 0 <= j < i && sections[j].name@ == name {
        let j = choose|j: int| 0 <= j < i && sections[j].name@ == name;
        lemma_first_section(sections, name, j);
    } else {
        assert(forall|j: int| 0 <= j < i ==> sections[j].name@ != name);
    }
}

/// Whether the loaded sections hold a main section.
pub open spec fn has_main(sections: Seq<LoadedSection>) -> bool {
    exists|i: int| 0 <= i < sections.len() && sections[i].name@ == main_section() && sections[i].value is Main
        && forall|j: int| 0 <= j < i ==> sections[j].name@ != main_section()
}

/// A loaded configuration.
pub struct Config {
    sections: Vec<LoadedSection>,
    /// When the sections were last (re)loaded, in milliseconds of a
    /// monotonic clock.
    last_modified_ms: u64,
}

impl Config {
    pub closed spec fn spec_sections(&self) -> Seq<LoadedSection> {
        self.sections@
    }

    pub closed spec fn spec_last_modified(&self) -> u64 {
        self.last_modified_ms
    }

    /// A configuration from the sections a loader produced at a time.
    pub fn from_sections(sections: Vec<LoadedSection>, loaded_at_ms: u64) -> (c: Config)
        ensures
            c.spec_sections() == sections@,
            c.spec_last_modified() == loaded_at_ms,
    {
        Config { sections, last_modified_ms: loaded_at_ms }
    }

    /// Replaces the sections after a successful reload. Reloads are timed on
    /// a monotonic clock, so a reload is never earlier than the last load.
    pub fn replace_sections(&mut self, sections: Vec<LoadedSection>, loaded_at_ms: u64)
        requires
            old(self).spec_last_modified() <= loaded_at_ms,
        ensures
            final(self).spec_sections() == sections@,
            final(self).spec_last_modified() == loaded_at_ms,
    {
        self.sections = sections;
        self.last_modified_ms = loaded_at_ms;
    }

    /// Takes the outcome of reloading the sections after the watched files
    /// changed: the new sections replace the old ones, stamped with the time
    /// of the reload; a failed reload leaves the last loaded configuration in
    /// place and hands the error back. The time comes from a monotonic clock,
    /// so it is never earlier than the last load, and the time of the last
    /// load never decreases.
    pub fn try_update_cache(&mut self, outcome: Result<Vec<LoadedSection>, ConfigError>, now_ms: u64) -> (r: Result<
        (),
        ConfigError,
    >)
        requires
            old(self).spec_last_modified() <= now_ms,
        ensures
            old(self).spec_last_modified() <= final(self).spec_last_modified(),
            match outcome {
                Ok(sections) => r is Ok && final(self).spec_sections() == sections@
                    && final(self).spec_last_modified() == now_ms,
                Err(e) => r == Err::<(), ConfigError>(e) && final(self).spec_sections() == old(self).spec_sections()
                    && final(self).spec_last_modified() == old(self).spec_last_modified(),
            },
    {
        match outcome {
            Ok(sections) => {
                self.replace_sections(sections, now_ms);
                Ok(())
            },
            Err(e) => Err(e),
        }
    }

    /// The section with a name (the first one of that name). Asking for a
    /// section that was not loaded is a programming error: callers name a
    /// registered section.
    pub fn get(&self, section: &str) -> (r: &SectionConfig)
        requires
            section_index(self.spec_sections(), section@) is Some,
        ensures
            *r == self.spec_sections()[section_index(self.spec_sections(), section@)->0].value,
    {
        proof {
            let w = choose|w: int| 0 <= w < self.sections@.len() && self.sections@[w].name@ == section@;
            lemma_first_section(self.sections@, section@, w);
        }
        let ghost k = section_index(self.sections@, section@)->0;
        let mut i: usize = 0;
        while i < self.sections.len()
            invariant
                i <= self.sections@.len(),
                0 <= k < self.sections@.len(),
                self.sections@[k].name@ == section@,
                forall|j: int| 0 <= j < k ==> self.sections@[j].name@ != section@,
                forall|j: int| 0 <= j < i ==> self.sections@[j].name@ != section@,
            decreases self.sections@.len() - i,
        {
            if same_text(self.sections[i].name.as_str(), section) {
                assert(k == i) by {
                    if k < i {
                    } else if k > i {
                        assert(self.sections@[i as int].name@ == section@);
                    }
                }
                return &self.sections[i].value;
            }
            i = i + 1;
        }
        assert(self.sections@[k].name@ == section@);
        assert(false);
        &self.sections[0].value
    }

    /// The main section.
    pub fn get_main(&self) -> (m: MainConfig)
        requires
            has_main(self.spec_sections()),
        ensures
            section_index(self.spec_sections(), main_section()) matches Some(i)
                && self.spec_sections()[i].value matches SectionConfig::Main(main) && same_main(m, main),
    {
        proof {
            let i = choose|i: int| 0 <= i < self.sections@.len() && self.sections@[i].name@ == main_section()
                && self.sections@[i].value is Main && forall|j: int| 0 <= j < i ==> self.sections@[j].name@
                != main_section();
            let k = section_index(self.sections@, main_section())->0;
            assert(k == i) by {
                if k < i {
                } else if k > i {
                    assert(self.sections@[i].name@ == main_section());
                }
            }
        }
        match self.get("main") {
            SectionConfig::Main(main) => main.duplicate(),
            _ => {
                assert(false);
                MainConfig {
                    roles: Vec::new(),
                    prometheus_address: String::new(),
                    prometheus_port: 0,
                    dispatcher_cell_map: HashMap::new(),
                    scheduler_cell_map: HashMap::new(),
                    metadata_cell_map: HashMap::new(),
                }
            },
        }
    }

    /// When the configuration was last loaded.
    pub fn last_modified(&self) -> (t: u64)
        ensures
            t == self.spec_last_modified(),
    {
        self.last_modified_ms
    }
}

/// Whether a batch of file-watch events calls for a reload: any event of
/// the kind `Any` does.
pub fn should_reload(event_is_any: &Vec<bool>) -> (r: bool)
    ensures
        r == event_is_any@.contains(true),
{
    let mut i: usize = 0;
    while i < event_is_any.len()
        invariant
            i <= event_is_any@.len(),
            forall|j: int| 0 <= j < i ==> !event_is_any@[j],
        decreases event_is_any@.len() - i,
    {
        if event_is_any[i] {
            assert(event_is_any@[i as int] == true);
            return true;
        }
        i = i + 1;
    }
    false
}

/// Registering services never drops an override: an override set on a
/// builder is still the last one of the plan built after any service was
/// registered, and the overrides before it are kept. `b0` is the builder
/// before `set_override(key, value)`, `b1` after it, `b2` after a
/// `register_service`, and `plan` what `build_once` or `build_and_watch`
/// made of `b2`.
pub proof fn lemma_overrides_outlast_registration(
    b0: ConfigBuilder,
    b1: ConfigBuilder,
    b2: ConfigBuilder,
    plan: ConfigPlan,
    key: String,
    value: OverrideValue,
)
    requires
        b1.spec_overrides() == b0.spec_overrides().push((key, value)),
        b2.spec_overrides() == b1.spec_overrides(),
        plan.overrides@ == b2.spec_overrides(),
    ensures
        plan.overrides@.len() == b0.spec_overrides().len() + 1,
        plan.overrides@.last() == (key, value),
        plan.overrides@.drop_last() == b0.spec_overrides(),
{
}

} // verus!
