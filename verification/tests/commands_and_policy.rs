use cluster_resolver::commands::{
    commands_by_ids, i32_decimal, to_command, u64_decimal, Command, CommandTmpRecord,
};
use cluster_resolver::policy::{KnownPolicy, PolicyForm, PolicyInput, PolicyVars};

fn record(id: i32, job_ids: Option<Vec<i32>>) -> CommandTmpRecord {
    CommandTmpRecord {
        cancelled: false,
        complete: true,
        created_at_secs: 1582588800,
        created_at_nanos: 0,
        errored: false,
        id,
        job_ids,
        message: "done".to_string(),
    }
}

fn command(id: i32) -> Command {
    to_command(&record(id, None))
}

#[test]
fn command_paths_are_rendered_in_decimal() {
    let c = to_command(&record(7, Some(vec![3, 12])));
    assert_eq!(c.resource_uri, "/api/command/7/");
    assert_eq!(c.jobs, vec!["/api/job/3/".to_string(), "/api/job/12/".to_string()]);
    assert_eq!(c.logs, "");
    assert_eq!(c.created_at, "2020-02-25T00:00:00.000000");
    assert_eq!(c.message, "done");
}

#[test]
fn command_without_jobs_lists_none() {
    let c = to_command(&record(1, None));
    assert!(c.jobs.is_empty());
}

#[test]
fn command_timestamp_renders_subseconds() {
    let mut r = record(2, None);
    r.created_at_secs = 1582588923;
    r.created_at_nanos = 4_000;
    let c = to_command(&r);
    assert_eq!(c.created_at, "2020-02-25T00:02:03.000004");
}

#[test]
fn out_of_range_timestamp_leaves_text_empty() {
    let mut r = record(3, None);
    r.created_at_secs = i64::MAX;
    r.created_at_nanos = 0;
    let c = to_command(&r);
    assert_eq!(c.created_at, "");
}

#[test]
fn decimal_rendering_handles_signs_and_zero() {
    assert_eq!(i32_decimal(0), "0");
    assert_eq!(i32_decimal(205), "205");
    assert_eq!(i32_decimal(-37), "-37");
    assert_eq!(i32_decimal(i32::MIN), "-2147483648");
    assert_eq!(u64_decimal(0), "0");
    assert_eq!(u64_decimal(18446744073709551615), "18446744073709551615");
}

#[test]
fn commands_align_with_requested_ids() {
    // The returned list matches the requesting ids position for
    // position: unknown ids and repeated ids yield nothing.
    let cmds = vec![command(1), command(2)];
    let ids = vec![2, 1, 2, 5];
    let out = commands_by_ids(&cmds, &ids);
    assert_eq!(out.len(), 4);
    assert_eq!(out[0].as_ref().map(|c| c.id), Some(2));
    assert_eq!(out[1].as_ref().map(|c| c.id), Some(1));
    assert!(out[2].is_none());
    assert!(out[3].is_none());
}

fn empty_form() -> PolicyForm {
    PolicyForm {
        policies: vec![],
        vars: PolicyVars {
            filesystem: String::new(),
            interval: String::new(),
            start: None,
            barrier: None,
            keep: 0,
            daily: None,
            weekly: None,
            monthly: None,
        },
        interval: 0,
        interval_unit: String::new(),
        start: String::new(),
    }
}

#[test]
fn selecting_known_filesystem_copies_its_policy() {
    let mut form = empty_form();
    form.policies = vec![KnownPolicy {
        filesystem: "fsA".to_string(),
        interval_seconds: 3600,
        start: Some("2020-12-25T20:00".to_string()),
        barrier: true,
        keep: 16,
        daily: 4,
        weekly: 2,
        monthly: 1,
    }];
    form.apply_input(PolicyInput::Filesystem("fsA".to_string()));
    assert_eq!(form.vars.filesystem, "fsA");
    assert_eq!(form.vars.keep, 16);
    assert_eq!(form.vars.daily, Some(4));
    assert_eq!(form.vars.weekly, Some(2));
    assert_eq!(form.vars.monthly, Some(1));
    assert_eq!(form.vars.barrier, Some(true));
    assert_eq!(form.interval, 60);
    assert_eq!(form.interval_unit, "m");
    assert_eq!(form.start, "2020-12-25T20:00");
}

#[test]
fn selecting_unknown_filesystem_takes_defaults() {
    let mut form = empty_form();
    form.apply_input(PolicyInput::Filesystem("fsB".to_string()));
    assert_eq!(form.vars.filesystem, "fsB");
    assert_eq!(form.vars.keep, 32);
    assert_eq!(form.vars.daily, None);
    assert_eq!(form.interval, 60);
    assert_eq!(form.interval_unit, "m");
    assert_eq!(form.start, "");
}

#[test]
fn toggling_barrier_flips_from_unset() {
    let mut form = empty_form();
    form.apply_input(PolicyInput::ToggleBarrier);
    assert_eq!(form.vars.barrier, Some(true));
    form.apply_input(PolicyInput::ToggleBarrier);
    assert_eq!(form.vars.barrier, Some(false));
}

#[test]
fn submission_freezes_interval_and_start() {
    let mut form = empty_form();
    form.apply_input(PolicyInput::Interval(30));
    form.apply_input(PolicyInput::IntervalUnit("m".to_string()));
    form.apply_input(PolicyInput::Start("2020-12-25T20:00".to_string()));
    form.apply_input(PolicyInput::Keep(8));
    let vars = form.submit_vars();
    assert_eq!(vars.interval, "30m");
    assert_eq!(vars.start, Some("2020-12-25T20:00:00Z".to_string()));
    assert_eq!(vars.keep, 8);
}

#[test]
fn submission_with_empty_start_sends_none() {
    let mut form = empty_form();
    form.apply_input(PolicyInput::Interval(60));
    form.apply_input(PolicyInput::IntervalUnit("m".to_string()));
    let vars = form.submit_vars();
    assert_eq!(vars.interval, "60m");
    assert_eq!(vars.start, None);
}
