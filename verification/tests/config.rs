use std::collections::HashMap;

use cronback::auth_middleware::ApiSvcConfig;
use cronback::config::{
    should_reload, Config, ConfigBuilder, ConfigError, ConfigSource, LoadedSection, MainConfig, OverrideValue,
    SchedulerSvcConfig, SectionConfig,
};
use cronback::service::{ApiService, SchedulerService, ServiceContext};

fn main_section() -> MainConfig {
    MainConfig {
        roles: vec!["api".to_string(), "scheduler".to_string()],
        prometheus_address: "0.0.0.0".to_string(),
        prometheus_port: 9000,
        dispatcher_cell_map: HashMap::new(),
        scheduler_cell_map: HashMap::new(),
        metadata_cell_map: HashMap::new(),
    }
}

fn scheduler_section(max: u64) -> SchedulerSvcConfig {
    SchedulerSvcConfig {
        cell_id: 0,
        address: "0.0.0.0".to_string(),
        port: 9999,
        request_processing_timeout_s: 3,
        spinner_yield_max_ms: 500,
        max_triggers_per_tick: max,
        database_uri: "sqlite://".to_string(),
        db_flush_s: 60,
        dangerous_fast_forward: false,
    }
}

fn sections(max: u64) -> Vec<LoadedSection> {
    vec![
        LoadedSection { name: "main".to_string(), value: SectionConfig::Main(main_section()) },
        LoadedSection { name: "scheduler".to_string(), value: SectionConfig::Scheduler(scheduler_section(max)) },
    ]
}

fn source_kinds(sources: &[ConfigSource]) -> Vec<String> {
    sources
        .iter()
        .map(|s| match s {
            ConfigSource::Toml(t) => format!("toml:{t}"),
            ConfigSource::File(p) => format!("file:{p}"),
            ConfigSource::Environment(e) => format!("env:{e}"),
        })
        .collect()
}

#[test]
fn builder_layers_sources_with_environment_last() {
    let plan = ConfigBuilder::new("CRONBACK".to_string(), "[main]".to_string())
        .add_file_source("/etc/cronback.toml".to_string())
        .register_service("[api]".to_string(), "api")
        .add_default_toml("[extra]".to_string())
        .build_once();
    assert_eq!(
        source_kinds(&plan.sources),
        vec!["toml:[main]", "file:/etc/cronback.toml", "toml:[api]", "toml:[extra]", "env:CRONBACK"]
    );
    assert_eq!(plan.sections, vec!["main".to_string(), "api".to_string()]);
    assert!(plan.watched_files.is_empty());
}

#[test]
fn watching_builder_watches_file_sources() {
    let plan = ConfigBuilder::new("CB".to_string(), String::new())
        .add_file_source("a.toml".to_string())
        .add_file_source("b.toml".to_string())
        .build_and_watch();
    assert_eq!(plan.watched_files, vec!["a.toml".to_string(), "b.toml".to_string()]);
    assert_eq!(source_kinds(&plan.sources).last().unwrap(), "env:CB");
}

#[test]
fn sections_register_once() {
    let plan = ConfigBuilder::new("CB".to_string(), String::new())
        .register_section_loader("scheduler")
        .register_section_loader("main")
        .register_section_loader("scheduler")
        .build_once();
    assert_eq!(plan.sections, vec!["main".to_string(), "scheduler".to_string()]);
}

#[test]
fn overrides_apply_in_order() {
    let b = ConfigBuilder::new("CB".to_string(), String::new());
    let b = b.set_override("main.prometheus_port".to_string(), OverrideValue::Integer(1)).ok().unwrap();
    let b = b.set_override("api.log_request_body".to_string(), OverrideValue::Boolean(true)).ok().unwrap();
    let plan = b.build_once();
    let keys: Vec<String> = plan.overrides.iter().map(|(k, _)| k.clone()).collect();
    assert_eq!(keys, vec!["main.prometheus_port".to_string(), "api.log_request_body".to_string()]);
    // A key the config crate cannot parse is refused.
    let refused = ConfigBuilder::new("CB".to_string(), String::new())
        .set_override("main.[".to_string(), OverrideValue::Text("x".to_string()));
    assert!(matches!(refused, Err(ConfigError::ConfigLoadError(_))));
}

#[test]
fn sections_are_read_by_name() {
    let cfg = Config::from_sections(sections(10), 5);
    assert_eq!(cfg.last_modified(), 5);
    assert!(matches!(cfg.get("scheduler"), SectionConfig::Scheduler(s) if s.max_triggers_per_tick == 10));
    let main = cfg.get_main();
    assert_eq!(main.roles, vec!["api".to_string(), "scheduler".to_string()]);
    assert_eq!(main.prometheus_port, 9000);
}

#[test]
fn failed_reload_keeps_last_configuration() {
    let mut cfg = Config::from_sections(sections(10), 5);
    let r = cfg.try_update_cache(Err(ConfigError::ConfigLoadError("bad toml".to_string())), 9);
    assert!(matches!(r, Err(ConfigError::ConfigLoadError(m)) if m == "bad toml"));
    assert_eq!(cfg.last_modified(), 5);
    assert!(matches!(cfg.get("scheduler"), SectionConfig::Scheduler(s) if s.max_triggers_per_tick == 10));
    let r = cfg.try_update_cache(Ok(sections(20)), 12);
    assert!(r.is_ok());
    assert_eq!(cfg.last_modified(), 12);
    assert!(matches!(cfg.get("scheduler"), SectionConfig::Scheduler(s) if s.max_triggers_per_tick == 20));
}

#[test]
fn reload_only_on_any_events() {
    assert!(!should_reload(&vec![]));
    assert!(!should_reload(&vec![false, false]));
    assert!(should_reload(&vec![false, true]));
}

#[test]
fn service_context_reads_its_own_section() {
    let ctx: ServiceContext<SchedulerService> = ServiceContext::new(Config::from_sections(sections(7), 0));
    assert_eq!(ctx.service_name(), "scheduler");
    assert!(matches!(ctx.service_config(), SectionConfig::Scheduler(s) if s.max_triggers_per_tick == 7));
    assert_eq!(ctx.get_main_config().prometheus_address, "0.0.0.0");
    let api: ServiceContext<ApiService> = ServiceContext::new(Config::from_sections(sections(7), 0));
    assert_eq!(api.service_name(), "api");
    let _unused = ApiSvcConfig {
        address: String::new(),
        port: 0,
        database_uri: String::new(),
        admin_api_keys: Vec::new(),
        log_request_body: false,
        log_response_body: false,
    };
}
