use truehub_api::add;
use truehub_api::methods::{Auth, Connection, Storage, System, Vm};
use truehub_api::models::apps::{
    default_app_version, AppAvailableItem, AppQueryOptions, AppUpgradeRequest, DeleteAppOptions, RollbackOptions,
    TruenasDate, UpdateAppConfigOptions, UpgradeOptions,
};
use truehub_api::models::auth::TokenRequest;
use truehub_api::models::config::{default_connection_timeout_ms, default_ping_timeout_ms, ClientConfig};
use truehub_api::models::storage::{
    default_naming_schema, default_threshold, AclMode, AclType, DatasetOptions, DatasetType, LifetimeUnits,
    MkdirOptions, PoolScrubQueryOptions, Presets, SnapshotSchedule,
};
use truehub_api::models::system::{ReportingGraphName, ReportingGraphRequest};
use truehub_api::models::user::{default_home, default_shell};
use truehub_api::models::vm::{DeleteOptions, StopOptions};

fn item(last_update: Option<TruenasDate>, tags: Option<Vec<String>>) -> AppAvailableItem {
    AppAvailableItem {
        app_readme: None,
        categories: None,
        description: String::new(),
        healthy: None,
        healthy_error: None,
        home: String::new(),
        location: String::new(),
        latest_version: None,
        latest_app_version: None,
        latest_human_version: None,
        last_update,
        name: "plex".into(),
        recommended: false,
        title: "Plex".into(),
        maintainers: vec![],
        tags,
        screenshots: None,
        sources: None,
        icon_url: None,
        catalog: None,
        installed: false,
        train: "stable".into(),
    }
}

#[test]
fn adding() {
    assert_eq!(add(2, 2), 4);
}

#[test]
fn method_names() {
    assert_eq!(Auth::LOGIN, "auth.login");
    assert_eq!(Auth::GEN_TOKEN, "auth.generate_token");
    assert_eq!(Connection::PING, "core.ping");
    assert_eq!(System::GET_JOBS, "core.get_jobs");
    assert_eq!(Vm::GET_DISPLAY_URL, "vm.get_display_web_uri");
    assert_eq!(Storage::POOL_SCRUB_QUERY, "pool.scrub.query");
}

#[test]
fn app_item_texts() {
    assert_eq!(item(Some(TruenasDate { date: Some(1700000000000) }), None).last_update_string(), "1700000000000");
    assert_eq!(item(Some(TruenasDate { date: None }), None).last_update_string(), "Unknown");
    assert_eq!(item(None, None).last_update_string(), "Unknown");
    assert_eq!(item(None, Some(vec!["a".into(), "b".into()])).tags_string(), "a, b");
    assert_eq!(item(None, Some(vec![])).tags_string(), "");
    assert_eq!(item(None, None).tags_string(), "");
}

#[test]
fn defaults() {
    let t = TokenRequest::default();
    assert_eq!(t.ttl, 6000);
    assert!(t.attrs.is_empty());
    assert!(t.match_origin);
    assert!(!t.single_use);
    let c = ClientConfig::default();
    assert_eq!(c.server_url, "");
    assert!(c.enable_ping && c.enable_debug_logging && !c.insecure);
    assert_eq!(c.ping_timeout_ms, 5000);
    assert_eq!(default_ping_timeout_ms(), 5000);
    assert_eq!(default_connection_timeout_ms(), 10000);
    let s = SnapshotSchedule::default();
    assert_eq!((s.minute.as_str(), s.hour.as_str(), s.begin.as_str(), s.end.as_str()), ("00", "*", "00:00", "23:59"));
    assert_eq!(LifetimeUnits::default(), LifetimeUnits::Week);
    assert_eq!(MkdirOptions::default().mode, "755");
    assert_eq!(default_threshold(), 35);
    assert_eq!(default_naming_schema(), "auto-%Y-%m-%d_%H-%M");
    assert_eq!(default_home(), "/var/empty");
    assert_eq!(default_shell(), "/usr/bin/zsh");
    assert_eq!(default_app_version(), "latest");
    assert_eq!(AppUpgradeRequest::default().app_version, "latest");
    assert!(RollbackOptions::default().rollback_snapshot);
    let d = DeleteAppOptions::default();
    assert!(d.remove_images && !d.remove_ix_volumes && !d.force_remove_ix_volumes && !d.force_remove_custom_app);
    let q = AppQueryOptions::default();
    assert!(q.order_by.is_empty() && !q.count && q.limit == 0 && !q.extra.retrieve_config);
}

#[test]
fn dataset_presets() {
    let s = Presets::share_dataset();
    assert_eq!((s.typ, s.acltype, s.aclmode), (DatasetType::Filesystem, AclType::Nfsv4, AclMode::Passthrough));
    let g = Presets::generic_dataset();
    assert_eq!((g.acltype, g.aclmode), (AclType::Posix, AclMode::Discard));
    let p = Presets::dataset_create_payload("tank/media", DatasetOptions::Share);
    assert_eq!(p.name, "tank/media");
    assert_eq!(p.acltype, AclType::Nfsv4);
    let p = Presets::dataset_create_payload("tank/data", DatasetOptions::Generic);
    assert_eq!((p.name.as_str(), p.aclmode), ("tank/data", AclMode::Discard));
}

#[test]
fn graph_names() {
    assert_eq!(ReportingGraphName::Cpu.value(), "cpu");
    assert_eq!(ReportingGraphName::CpuTemp.value(), "cputemp");
    assert_eq!(ReportingGraphName::UpsTemperature.value(), "upstemperature");
    let r = ReportingGraphRequest::new(ReportingGraphName::ArcSize, Some("x".into()));
    assert_eq!(r.name, "arcsize");
    assert_eq!(r.identifier.as_deref(), Some("x"));
}

#[test]
fn vm_option_flags() {
    let s = StopOptions::from_flags(Some(true), None);
    assert!(s.force && !s.force_after_timeout);
    let d = DeleteOptions::from_flags(None, Some(true));
    assert!(!d.zvols && d.force);
    let z = StopOptions::default();
    assert!(!z.force && !z.force_after_timeout);
}

#[test]
fn option_defaults_of_apps_and_scrub_queries() {
    let u = UpgradeOptions::default();
    assert_eq!(u.app_version, "latest");
    assert!(u.values.is_empty());
    assert!(!u.snapshot_hostpaths);

    let c = UpdateAppConfigOptions::default();
    assert!(c.values.is_empty());
    assert!(c.custom_compose_config.is_empty());
    assert_eq!(c.custom_compose_config_string, "");

    let q = PoolScrubQueryOptions::default();
    assert!(q.relationships);
    assert!(!q.count && !q.get && !q.force_sql_filters);
    assert_eq!(q.extend, None);
    assert_eq!(q.extend_context, None);
    assert_eq!(q.prefix, None);
    assert!(q.extra.is_empty());
    assert!(q.order_by.is_empty() && q.select.is_empty());
    assert_eq!((q.offset, q.limit), (0, 0));
}

#[test]
fn graph_names_are_distinct_lowercase_words() {
    type G = ReportingGraphName;
    let all = [
        G::Cpu, G::CpuTemp, G::Disk, G::Interface, G::Load, G::Processes, G::Memory, G::Uptime,
        G::ArcActualRate, G::ArcRate, G::ArcSize, G::ArcResult, G::DiskTemp, G::UpsCharge, G::UpsRuntime,
        G::UpsVoltage, G::UpsCurrent, G::UpsFrequency, G::UpsLoad, G::UpsTemperature,
    ];
    let texts: Vec<&str> = all.iter().map(|n| n.value()).collect();
    for (i, a) in texts.iter().enumerate() {
        assert!(!a.is_empty());
        assert!(a.chars().all(|c| c.is_ascii_lowercase()));
        for b in &texts[i + 1..] {
            assert_ne!(a, b);
        }
    }
    assert_eq!(G::ArcActualRate.value(), "arcactualrate");
    assert_eq!(G::UpsTemperature.value(), "upstemperature");
}
