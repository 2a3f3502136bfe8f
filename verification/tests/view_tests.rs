use truehub_api::models::shares::{NfsShare, SmbAudit, SmbShare};
use truehub_api::models::storage::{DeletionSchedule, PoolScrubQueryResponse};
use truehub_api::models::system::{ReportingGraphName, ReportingUnit};
use truehub_api::result::ApiResult;
use truehub_api::views::disk::{rotation_text, size_gb_text, smart_status};
use truehub_api::views::home::{counted, display_username, list_or_empty, list_status_badge, nfs_display_name, required};
use truehub_api::views::performance::{hourly_query, metric_graph, metric_page_name, MetricType};
use truehub_api::views::pool::{
    cron_text, eta_text, find_scrub_task_for_pool, pool_health, scan_errors_badge, scan_state_class,
    scrub_details_from_form, scrub_dialog_labels, scrub_form_defaults, scrub_save, scrub_threshold, text_or_dash,
    threshold_text, PoolHealth, ScrubSave,
};
use truehub_api::views::share::{
    bool_badge, detail_status_badge, host_lists_shown, nfs_mapping_rows, quota_text, smb_feature_flags,
};

fn schedule() -> DeletionSchedule {
    DeletionSchedule { minute: "00".into(), hour: "03".into(), dom: "*".into(), month: "*".into(), dow: "7".into() }
}

fn task(id: i64, pool: i64) -> PoolScrubQueryResponse {
    PoolScrubQueryResponse {
        pool,
        threshold: 21,
        description: format!("task {id}"),
        schedule: schedule(),
        enabled: false,
        id,
        pool_name: "tank".into(),
    }
}

fn smb() -> SmbShare {
    SmbShare {
        id: 1,
        purpose: None,
        path: "/mnt/tank/smb".into(),
        path_suffix: None,
        home: None,
        name: "smb".into(),
        comment: None,
        ro: None,
        browsable: true,
        recyclebin: Some(true),
        guestok: None,
        hostsallow: None,
        hostsdeny: None,
        auxsmbconf: None,
        aapl_name_mangling: Some(false),
        abe: None,
        acl: Some(true),
        durablehandle: None,
        streams: None,
        timemachine: None,
        timemachine_quota: None,
        vuid: None,
        shadowcopy: None,
        fsrvp: None,
        enabled: true,
        afp: None,
        audit: SmbAudit { enable: false, watch_list: vec![], ignore_list: vec![] },
        path_local: None,
        locked: false,
    }
}

fn nfs() -> NfsShare {
    NfsShare {
        id: 3,
        path: "/mnt/tank/nfs".into(),
        aliases: vec![],
        comment: String::new(),
        networks: vec![],
        hosts: vec![],
        ro: false,
        maproot_user: Some("root".into()),
        maproot_group: Some(String::new()),
        mapall_user: None,
        mapall_group: Some("wheel".into()),
        security: vec![],
        enabled: true,
        locked: false,
        expose_snapshots: false,
    }
}

#[test]
fn pool_health_words() {
    assert_eq!(pool_health(true, false), PoolHealth::Healthy);
    assert_eq!(pool_health(true, true), PoolHealth::Warning);
    assert_eq!(pool_health(false, false), PoolHealth::Degraded);
    assert_eq!(pool_health(false, true), PoolHealth::Degraded);
    assert_eq!(PoolHealth::Warning.label(), "Warning");
    assert_eq!(PoolHealth::Degraded.css_class(), "error");
    assert_eq!(PoolHealth::Healthy.icon(), "emblem-ok-symbolic");
}

#[test]
fn scan_badges() {
    assert_eq!(scan_state_class("FINISHED"), "success");
    assert_eq!(scan_state_class("SCANNING"), "accent");
    assert_eq!(scan_state_class("CANCELED"), "warning");
    assert_eq!(scan_state_class("—"), "dim-label");
    assert_eq!(text_or_dash(&None), "—");
    assert_eq!(text_or_dash(&Some("SCRUB".into())), "SCRUB");
    assert_eq!(scan_errors_badge(None), ("0".to_string(), "success"));
    assert_eq!(scan_errors_badge(Some(3)), ("3".to_string(), "error"));
}

#[test]
fn eta_and_schedule_texts() {
    assert_eq!(eta_text(125), "ETA: 2m 5s");
    assert_eq!(eta_text(59), "ETA: 0m 59s");
    assert_eq!(eta_text(-61), "ETA: -1m -1s");
    assert_eq!(cron_text(&schedule()), "00 03 * * 7");
    assert_eq!(threshold_text(35), "35 days");
}

#[test]
fn scrub_task_of_a_pool() {
    let found = find_scrub_task_for_pool(vec![task(1, 5), task(2, 7), task(3, 7)], 7).unwrap();
    assert_eq!(found.id, 2);
    assert!(find_scrub_task_for_pool(vec![task(1, 5)], 7).is_none());
    assert!(find_scrub_task_for_pool(vec![], 7).is_none());
}

#[test]
fn scrub_dialog() {
    let f = scrub_form_defaults(None);
    assert_eq!(
        (f.threshold.as_str(), f.minute.as_str(), f.hour.as_str(), f.dom.as_str(), f.month.as_str(), f.dow.as_str()),
        ("35", "00", "00", "*", "*", "7")
    );
    assert!(f.enabled && f.description.is_empty());
    let t = task(9, 4);
    let f = scrub_form_defaults(Some(&t));
    assert_eq!((f.threshold.as_str(), f.hour.as_str(), f.description.as_str()), ("21", "03", "task 9"));
    assert!(!f.enabled);
    let d = scrub_details_from_form(4, f);
    assert_eq!((d.pool, d.threshold, d.schedule.hour.as_str()), (4, 21, "03"));
    let mut bad = scrub_form_defaults(None);
    bad.threshold = "soon".into();
    assert_eq!(scrub_details_from_form(1, bad).threshold, 35);
    assert_eq!(scrub_threshold(" 7"), 35);
    assert_eq!(scrub_threshold("-7"), -7);
    assert!(matches!(scrub_save(Some(9), scrub_details_from_form(1, scrub_form_defaults(None))), ScrubSave::Update { id: 9, .. }));
    assert!(matches!(scrub_save(None, scrub_details_from_form(1, scrub_form_defaults(None))), ScrubSave::Create { .. }));
    assert_eq!(scrub_dialog_labels(true), ("Edit Scrub Task", "Update"));
    assert_eq!(scrub_dialog_labels(false), ("Create Scrub Task", "Create"));
}

#[test]
fn disk_texts() {
    assert_eq!(size_gb_text(4_000_787_030_016), "3726 GB");
    assert_eq!(size_gb_text(1 << 29), "0 GB");
    assert_eq!(rotation_text(7200), "7200 RPM");
    let on = smart_status(None);
    assert!(on.enabled);
    assert_eq!((on.subtitle, on.badge, on.css_class), ("Active and monitoring", "ON", "success"));
    let off = smart_status(Some(false));
    assert_eq!((off.subtitle, off.badge, off.css_class), ("Disabled — consider enabling", "OFF", "error"));
}

#[test]
fn home_helpers() {
    assert_eq!(nfs_display_name("/mnt/tank/media"), "media");
    assert_eq!(counted(3, " disk(s)"), "3 disk(s)");
    assert_eq!(list_status_badge(false), ("Off", "error"));
    assert_eq!(display_username(None), "User");
    assert_eq!(display_username(Some("root".into())), "root");
    assert!(matches!(required(ApiResult::Success(5)), Ok(5)));
    assert_eq!(required::<i32>(ApiResult::Loading), Err("Unexpected loading state".to_string()));
    assert_eq!(required::<i32>(ApiResult::Error { message: "down".into() }), Err("down".to_string()));
    assert_eq!(list_or_empty(ApiResult::Success(vec![1, 2])), vec![1, 2]);
    assert!(list_or_empty::<i32>(ApiResult::Error { message: "x".into() }).is_empty());
}

#[test]
fn share_helpers() {
    assert!(!host_lists_shown(&None, &Some(vec![])));
    assert!(host_lists_shown(&Some(vec!["10.0.0.1".into()]), &None));
    assert_eq!(quota_text(500), "500 GB");
    assert_eq!(quota_text(0), "No limit");
    assert_eq!(detail_status_badge(false), ("Disabled", "error"));
    assert_eq!(bool_badge(true), ("Yes", "success"));
    let flags = smb_feature_flags(&smb());
    assert_eq!(flags.len(), 11);
    assert_eq!(flags[0], ("ACL Support", true));
    assert_eq!(flags[4], ("Recycle Bin", true));
    assert_eq!(flags[7], ("Apple Name Mangling", false));
    assert_eq!(flags[10], ("AFP", false));
    let rows = nfs_mapping_rows(&nfs());
    assert_eq!(rows, vec![("Map Root User", "root".to_string()), ("Map All Group", "wheel".to_string())]);
}

#[test]
fn performance_helpers() {
    assert_eq!(metric_page_name(&MetricType::Temperature), "temp");
    assert_eq!(metric_graph(&MetricType::Temperature).value(), ReportingGraphName::CpuTemp.value());
    let q = hourly_query();
    assert!(matches!(q.unit, Some(ReportingUnit::Hour)));
    assert_eq!(q.aggregate, Some(true));
    assert_eq!(q.page, None);
}
