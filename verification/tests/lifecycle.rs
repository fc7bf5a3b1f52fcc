use nih_plug_druid::lifecycle::{
    plan_close, plan_spawn, set_scale_factor, ClosePlan, EmbedRetry, EmbedStep, GuiThread, Join,
    SpawnPlan, EMBED_ATTEMPTS,
};

#[test]
fn spawn_launches_only_when_closed() {
    assert_eq!(plan_spawn(false), SpawnPlan::Launch);
    assert_eq!(plan_spawn(true), SpawnPlan::Duplicate);
}

#[test]
fn second_spawn_is_duplicate() {
    let mut open = false;
    let first = plan_spawn(open);
    open = true;
    let second = plan_spawn(open);
    assert_eq!((first, second), (SpawnPlan::Launch, SpawnPlan::Duplicate));
}

#[test]
fn scale_factor_refused_while_open() {
    let mut pending: Option<f32> = Some(1.0);
    assert!(!set_scale_factor(true, &mut pending, 2.0));
    assert_eq!(pending, Some(1.0));
    assert!(set_scale_factor(false, &mut pending, 2.0));
    assert_eq!(pending, Some(2.0));
    let mut none: Option<f32> = None;
    assert!(set_scale_factor(false, &mut none, 1.5));
    assert_eq!(none, Some(1.5));
}

#[test]
fn closing_duplicate_does_nothing() {
    for thread in [GuiThread::Absent, GuiThread::Finished, GuiThread::Running] {
        for reach in [false, true] {
            assert_eq!(
                plan_close(false, reach, thread),
                ClosePlan { ask_gui_to_quit: false, join: Join::Nothing, clear_open: false }
            );
        }
    }
}

#[test]
fn closing_owner_joins_and_clears() {
    assert_eq!(
        plan_close(true, true, GuiThread::Finished),
        ClosePlan { ask_gui_to_quit: true, join: Join::Now, clear_open: true }
    );
    assert_eq!(
        plan_close(true, false, GuiThread::Running),
        ClosePlan { ask_gui_to_quit: false, join: Join::InBackground, clear_open: true }
    );
    assert_eq!(
        plan_close(true, true, GuiThread::Absent),
        ClosePlan { ask_gui_to_quit: true, join: Join::Nothing, clear_open: true }
    );
}

#[test]
fn embed_succeeds_on_third_attempt() {
    let mut r = EmbedRetry::new();
    assert_eq!(r.after_attempt(false), EmbedStep::WaitAndRetry);
    assert_eq!(r.after_attempt(false), EmbedStep::WaitAndRetry);
    assert_eq!(r.after_attempt(true), EmbedStep::Embedded);
    assert_eq!(r.attempts, 3);
}

#[test]
fn embed_gives_up_after_all_attempts() {
    let mut r = EmbedRetry::new();
    let mut steps = Vec::new();
    while r.attempts < EMBED_ATTEMPTS {
        steps.push(r.after_attempt(false));
    }
    assert_eq!(steps.len(), 120);
    assert!(steps[..119].iter().all(|s| *s == EmbedStep::WaitAndRetry));
    assert_eq!(steps[119], EmbedStep::WaitAndGiveUp);
}
