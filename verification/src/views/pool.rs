use vstd::prelude::*;
use crate::models::storage::{DeletionSchedule, PoolScrubQueryResponse, UpdatePoolScrubDetails};
use crate::text::{decimal_with, div_rem_i64, first_pos_of, i64_to_decimal, int_decimal, lemma_first_pos_of,
    parse_i32, parsed_i32, str_eq, string_of, trunc_div, trunc_rem};

verus! {

/// The health of a pool as the screens show it.
#[derive(Debug, PartialEq, Eq, Structural)]
pub enum PoolHealth {
    Healthy,
    Warning,
    Degraded,
}

/// A pool is healthy without warning, in warning when healthy with a
/// warning, and degraded when not healthy.
pub fn pool_health(healthy: bool, warning: bool) -> (h: PoolHealth)
    ensures
        h == (if !healthy { PoolHealth::Degraded } else if warning { PoolHealth::Warning } else { PoolHealth::Healthy }),
{
    if !healthy {
        PoolHealth::Degraded
    } else if warning {
        PoolHealth::Warning
    } else {
        PoolHealth::Healthy
    }
}

impl PoolHealth {
    /// The word shown for the health.
    pub fn label(&self) -> (s: &'static str)
        ensures
            s@ == match *self {
                PoolHealth::Healthy => "Healthy"@,
                PoolHealth::Warning => "Warning"@,
                PoolHealth::Degraded => "Degraded"@,
            },
    {
        match self {
            PoolHealth::Healthy => "Healthy",
            PoolHealth::Warning => "Warning",
            PoolHealth::Degraded => "Degraded",
        }
    }

    /// The style class of the health badge.
    pub fn css_class(&self) -> (s: &'static str)
        ensures
            s@ == match *self {
                PoolHealth::Healthy => "success"@,
                PoolHealth::Warning => "warning"@,
                PoolHealth::Degraded => "error"@,
            },
    {
        match self {
            PoolHealth::Healthy => "success",
            PoolHealth::Warning => "warning",
            PoolHealth::Degraded => "error",
        }
    }

    /// The icon of the health.
    pub fn icon(&self) -> (s: &'static str)
        ensures
            s@ == match *self {
                PoolHealth::Healthy => "emblem-ok-symbolic"@,
                PoolHealth::Warning => "dialog-warning-symbolic"@,
                PoolHealth::Degraded => "dialog-error-symbolic"@,
            },
    {
        match self {
            PoolHealth::Healthy => "emblem-ok-symbolic",
            PoolHealth::Warning => "dialog-warning-symbolic",
            PoolHealth::Degraded => "dialog-error-symbolic",
        }
    }
}

/// The text of an optional value, or an em dash when there is none.
pub fn text_or_dash(o: &Option<String>) -> (s: String)
    ensures
        s@ == match *o {
            Some(t) => t@,
            None => "—"@,
        },
{
    match o {
        Some(t) => t.clone(),
        None => string_of("—"),
    }
}

/// The style class of a scan state: finished, scanning and canceled scans
/// have their own; anything else is dimmed.
pub fn scan_state_class(state: &str) -> (s: &'static str)
    ensures
        s@ == (if state@ == "FINISHED"@ {
            "success"@
        } else if state@ == "SCANNING"@ {
            "accent"@
        } else if state@ == "CANCELED"@ {
            "warning"@
        } else {
            "dim-label"@
        }),
{
    if str_eq(state, "FINISHED") {
        "success"
    } else if str_eq(state, "SCANNING") {
        "accent"
    } else if str_eq(state, "CANCELED") {
        "warning"
    } else {
        "dim-label"
    }
}

/// The error count of a scan (0 when unknown), and its style class.
pub fn scan_errors_badge(errors: Option<i32>) -> (r: (String, &'static str))
    ensures
        r.0@ == int_decimal(match errors { Some(e) => e as int, None => 0 }),
        r.1@ == (if match errors { Some(e) => e > 0, None => false } { "error"@ } else { "success"@ }),
{
    let count = errors.unwrap_or(0);
    let text = i64_to_decimal(count as i64);
    (text, if count > 0 { "error" } else { "success" })
}

/// The time left of a scan: `ETA: <minutes>m <seconds>s`.
pub fn eta_text(secs_left: i64) -> (s: String)
    ensures
        s@ == "ETA: "@ + int_decimal(trunc_div(secs_left as int, 60)) + "m "@
            + int_decimal(trunc_rem(secs_left as int, 60)) + "s"@,
{
    let (m, r) = div_rem_i64(secs_left, 60);
    let mut out = string_of("ETA: ");
    let mt = decimal_with(m, "m ");
    out.append(mt.as_str());
    let rt = decimal_with(r, "s");
    out.append(rt.as_str());
    assert(out@ =~= "ETA: "@ + int_decimal(trunc_div(secs_left as int, 60)) + "m "@
        + int_decimal(trunc_rem(secs_left as int, 60)) + "s"@);
    out
}

/// The schedule as a cron line: minute, hour, day of month, month and day of
/// week, separated by spaces.
pub fn cron_text(s: &DeletionSchedule) -> (r: String)
    ensures
        r@ == s.minute@ + " "@ + s.hour@ + " "@ + s.dom@ + " "@ + s.month@ + " "@ + s.dow@,
{
    let mut out = s.minute.clone();
    out.append(" ");
    out.append(s.hour.as_str());
    out.append(" ");
    out.append(s.dom.as_str());
    out.append(" ");
    out.append(s.month.as_str());
    out.append(" ");
    out.append(s.dow.as_str());
    out
}

/// The threshold of a scrub task: `<days> days`.
pub fn threshold_text(threshold: i32) -> (r: String)
    ensures
        r@ == int_decimal(threshold as int) + " days"@,
{
    decimal_with(threshold as i64, " days")
}

/// The pools of the tasks, in order.
pub open spec fn task_pools(s: Seq<PoolScrubQueryResponse>) -> Seq<int> {
    s.map_values(|t: PoolScrubQueryResponse| t.pool as int)
}

/// The scrub task of a pool: the first task whose pool is the given one.
pub fn find_scrub_task_for_pool(tasks: Vec<PoolScrubQueryResponse>, pool_id: i32) -> (r: Option<PoolScrubQueryResponse>)
    ensures
        ({
            let pools = task_pools(tasks@);
            let p = first_pos_of(pools, pool_id as int);
            if p < 0 { r is None } else { r == Some(tasks@[p]) }
        }),
{
    let ghost pools = task_pools(tasks@);
    proof { lemma_first_pos_of(pools, pool_id as int); }
    let mut i: usize = 0;
    let mut found = false;
    while i < tasks.len()
        invariant
            pools == task_pools(tasks@),
            i <= tasks@.len(),
            forall|j: int| 0 <= j < i ==> pools[j] != pool_id as int,
            found ==> i < tasks@.len() && pools[i as int] == pool_id as int,
        ensures
            found ==> i < tasks@.len() && pools[i as int] == pool_id as int,
            !found ==> i == tasks@.len(),
            forall|j: int| 0 <= j < i ==> pools[j] != pool_id as int,
        decreases tasks@.len() - i,
    {
        assert(pools[i as int] == tasks@[i as int].pool as int);
        if tasks[i].pool == pool_id as i64 {
            found = true;
            break;
        }
        i = i + 1;
    }
    let ghost p = first_pos_of(pools, pool_id as int);
    if found {
        assert(p == i as int) by {
            if 0 <= p && p < i {
                assert(pools[p] != pool_id as int);
            }
        }
        let mut tasks = tasks;
        Some(tasks.remove(i))
    } else {
        assert(p < 0) by {
            if p >= 0 {
                assert(pools[p] == pool_id as int);
            }
        }
        None
    }
}

/// The fields of the scrub task dialog.
#[derive(Debug)]
pub struct ScrubForm {
    pub description: String,
    pub threshold: String,
    pub minute: String,
    pub hour: String,
    pub dom: String,
    pub month: String,
    pub dow: String,
    pub enabled: bool,
}

/// The dialog's fields: those of the task being edited, or for a new task
/// threshold 35, minute and hour `00`, every day of every month, on day 7 of
/// the week, enabled.
pub fn scrub_form_defaults(existing: Option<&PoolScrubQueryResponse>) -> (f: ScrubForm)
    ensures
        match existing {
            Some(t) => {
                &&& f.description == t.description
                &&& f.threshold@ == int_decimal(t.threshold as int)
                &&& f.minute == t.schedule.minute
                &&& f.hour == t.schedule.hour
                &&& f.dom == t.schedule.dom
                &&& f.month == t.schedule.month
                &&& f.dow == t.schedule.dow
                &&& f.enabled == t.enabled
            },
            None => {
                &&& f.description@ == Seq::<char>::empty()
                &&& f.threshold@ == "35"@
                &&& f.minute@ == "00"@
                &&& f.hour@ == "00"@
                &&& f.dom@ == "*"@
                &&& f.month@ == "*"@
                &&& f.dow@ == "7"@
                &&& f.enabled
            },
        },
{
    match existing {
        Some(t) => ScrubForm {
            description: t.description.clone(),
            threshold: i64_to_decimal(t.threshold as i64),
            minute: t.schedule.minute.clone(),
            hour: t.schedule.hour.clone(),
            dom: t.schedule.dom.clone(),
            month: t.schedule.month.clone(),
            dow: t.schedule.dow.clone(),
            enabled: t.enabled,
        },
        None => ScrubForm {
            description: String::new(),
            threshold: string_of("35"),
            minute: string_of("00"),
            hour: string_of("00"),
            dom: string_of("*"),
            month: string_of("*"),
            dow: string_of("7"),
            enabled: true,
        },
    }
}

/// The threshold typed in the dialog: its value when it reads as an `i32`, else 35.
pub fn scrub_threshold(text: &str) -> (t: i32)
    ensures
        t == match parsed_i32(text@) {
            Some(v) => v,
            None => 35,
        },
{
    match parse_i32(text) {
        Some(v) => v,
        None => 35,
    }
}

/// The task settings the dialog's fields describe, for the given pool.
pub fn scrub_details_from_form(pool_id: i32, form: ScrubForm) -> (d: UpdatePoolScrubDetails)
    ensures
        d.pool == pool_id as i64,
        d.threshold == match parsed_i32(form.threshold@) {
            Some(v) => v,
            None => 35,
        },
        d.description == form.description,
        d.schedule.minute == form.minute,
        d.schedule.hour == form.hour,
        d.schedule.dom == form.dom,
        d.schedule.month == form.month,
        d.schedule.dow == form.dow,
        d.enabled == form.enabled,
{
    let threshold = scrub_threshold(form.threshold.as_str());
    UpdatePoolScrubDetails {
        pool: pool_id as i64,
        threshold,
        description: form.description,
        schedule: DeletionSchedule {
            minute: form.minute,
            hour: form.hour,
            dom: form.dom,
            month: form.month,
            dow: form.dow,
        },
        enabled: form.enabled,
    }
}

/// What confirming the dialog does.
#[derive(Debug)]
pub enum ScrubSave {
    /// Update the task being edited.
    Update { id: i64, details: UpdatePoolScrubDetails },
    /// Create a new task.
    Create { details: UpdatePoolScrubDetails },
}

/// Confirming updates the task being edited, or creates one when none was.
pub fn scrub_save(existing_id: Option<i64>, details: UpdatePoolScrubDetails) -> (s: ScrubSave)
    ensures
        match existing_id {
            Some(id) => s == ScrubSave::Update { id, details },
            None => s == ScrubSave::Create { details },
        },
{
    match existing_id {
        Some(id) => ScrubSave::Update { id, details },
        None => ScrubSave::Create { details },
    }
}

/// The dialog's title and confirm label: editing or creating.
pub fn scrub_dialog_labels(editing: bool) -> (r: (&'static str, &'static str))
    ensures
        r.0@ == (if editing { "Edit Scrub Task"@ } else { "Create Scrub Task"@ }),
        r.1@ == (if editing { "Update"@ } else { "Create"@ }),
{
    if editing {
        ("Edit Scrub Task", "Update")
    } else {
        ("Create Scrub Task", "Create")
    }
}

} // verus!
