use layer_dispatch::cmd::{Cmd, Data};
use layer_dispatch::executor::Executor;
use layer_dispatch::invoke::{
    AppOp, CmpOp, ConfirmOp, HelpOp, InputOp, Invocation, MgrOp, PickOp, TabOp, TabsOp, TasksOp,
    WhichOp,
};
use layer_dispatch::layer::Layer;
use layer_dispatch::state::{App, InputMode};

fn fresh() -> Executor {
    Executor::new(App::new())
}

#[test]
fn documented_pairs_reach_their_handlers() {
    let mut ex = fresh();
    assert_eq!(
        ex.execute(&Cmd::new("resize"), Layer::App),
        Some(Invocation::App(AppOp::Resize))
    );
    assert_eq!(
        ex.execute(&Cmd::new("update_tasks"), Layer::Manager),
        Some(Invocation::Mgr(MgrOp::UpdateTasks))
    );
    assert_eq!(
        ex.execute(&Cmd::new("paste"), Layer::Manager),
        Some(Invocation::Mgr(MgrOp::Paste))
    );
    assert_eq!(
        ex.execute(&Cmd::new("arrow"), Layer::Manager),
        Some(Invocation::MgrTab(0, TabOp::Arrow))
    );
    assert_eq!(
        ex.execute(&Cmd::new("cancel"), Layer::Tasks),
        Some(Invocation::Tasks(TasksOp::Cancel))
    );
    assert_eq!(
        ex.execute(&Cmd::new("close"), Layer::Tasks),
        Some(Invocation::Tasks(TasksOp::Toggle))
    );
    assert_eq!(
        ex.execute(&Cmd::new("show"), Layer::Pick),
        Some(Invocation::Pick(PickOp::Show))
    );
    assert_eq!(
        ex.execute(&Cmd::new("move"), Layer::Input),
        Some(Invocation::Input(InputOp::Move))
    );
    assert_eq!(
        ex.execute(&Cmd::new("arrow"), Layer::Confirm),
        Some(Invocation::Confirm(ConfirmOp::Arrow))
    );
    assert_eq!(
        ex.execute(&Cmd::new("filter"), Layer::Help),
        Some(Invocation::Help(HelpOp::Filter))
    );
    assert_eq!(
        ex.execute(&Cmd::new("trigger"), Layer::Completion),
        Some(Invocation::Completion(CmpOp::Trigger))
    );
    assert_eq!(
        ex.execute(&Cmd::new("close_input"), Layer::Completion),
        Some(Invocation::Input(InputOp::Close))
    );
    assert_eq!(
        ex.execute(&Cmd::new("callback"), Layer::Which),
        Some(Invocation::Which(WhichOp::Callback))
    );
    assert_eq!(
        ex.execute(&Cmd::new("plugin"), Layer::Pick),
        Some(Invocation::App(AppOp::Plugin))
    );
    assert_eq!(
        ex.execute(&Cmd::new("tasks_show"), Layer::Manager),
        Some(Invocation::Tasks(TasksOp::Toggle))
    );
}

#[test]
fn unknown_name_is_a_noop() {
    let mut ex = fresh();
    let before = ex.app;
    assert_eq!(ex.execute(&Cmd::new("frobnicate"), Layer::Manager), None);
    assert_eq!(ex.execute(&Cmd::new("frobnicate"), Layer::Input), None);
    assert_eq!(ex.execute(&Cmd::new("frobnicate"), Layer::Which), None);
    // a name from another layer is just as unknown here
    assert_eq!(ex.execute(&Cmd::new("resize"), Layer::Manager), None);
    assert_eq!(ex.app, before);
}

#[test]
fn insert_opens_insert_mode() {
    let mut ex = fresh();
    assert_eq!(ex.app.cx.input.mode, InputMode::Normal);
    // Insert-only command is a no-op under Normal
    assert_eq!(ex.execute(&Cmd::new("backspace"), Layer::Input), None);
    assert_eq!(
        ex.execute(&Cmd::new("insert"), Layer::Input),
        Some(Invocation::Input(InputOp::Insert))
    );
    assert_eq!(ex.app.cx.input.mode, InputMode::Insert);
    // now the Insert-only command reaches its handler
    assert_eq!(
        ex.execute(&Cmd::new("backspace"), Layer::Input),
        Some(Invocation::Input(InputOp::Backspace))
    );
    // and a Normal-only command no longer matches
    assert_eq!(ex.execute(&Cmd::new("undo"), Layer::Input), None);
    // escape returns to Normal
    assert_eq!(
        ex.execute(&Cmd::new("escape"), Layer::Input),
        Some(Invocation::Input(InputOp::Escape))
    );
    assert_eq!(ex.app.cx.input.mode, InputMode::Normal);
    assert_eq!(
        ex.execute(&Cmd::new("undo"), Layer::Input),
        Some(Invocation::Input(InputOp::Undo))
    );
}

#[test]
fn complete_routes_on_its_trigger_flag() {
    let mut ex = fresh();
    let with_trigger = Cmd::new("complete").with_named("trigger", Data::Bool(true));
    assert_eq!(
        ex.execute(&with_trigger, Layer::Input),
        Some(Invocation::Completion(CmpOp::Trigger))
    );
    let without_trigger = Cmd::new("complete").with_named("trigger", Data::Bool(false));
    assert_eq!(
        ex.execute(&without_trigger, Layer::Input),
        Some(Invocation::Input(InputOp::Complete))
    );
    // the omitted flag is pinned to false: the input layer's own handler
    assert_eq!(
        ex.execute(&Cmd::new("complete"), Layer::Input),
        Some(Invocation::Input(InputOp::Complete))
    );
    // a flag of the wrong shape reads as false too
    let odd = Cmd::new("complete").with_named("trigger", Data::Int(1));
    assert_eq!(
        ex.execute(&odd, Layer::Input),
        Some(Invocation::Input(InputOp::Complete))
    );
}

#[test]
fn help_records_origin_and_close_restores_it() {
    let mut ex = fresh();
    assert_eq!(
        ex.execute(&Cmd::new("help"), Layer::Tasks),
        Some(Invocation::HelpShow(Layer::Tasks))
    );
    assert!(ex.app.cx.help.visible);
    assert_eq!(ex.app.cx.help.origin, Layer::Tasks);
    assert_eq!(
        ex.execute(&Cmd::new("close"), Layer::Help),
        Some(Invocation::HelpHide(Layer::Tasks))
    );
    assert!(!ex.app.cx.help.visible);

    // again from another layer
    assert_eq!(
        ex.execute(&Cmd::new("help"), Layer::Manager),
        Some(Invocation::HelpShow(Layer::Manager))
    );
    assert_eq!(ex.app.cx.help.origin, Layer::Manager);
    assert_eq!(
        ex.execute(&Cmd::new("close"), Layer::Help),
        Some(Invocation::HelpHide(Layer::Manager))
    );
    assert!(!ex.app.cx.help.visible);
}

#[test]
fn tab_commands_route_to_siblings_and_active_tab_is_reresolved() {
    let mut ex = fresh();
    assert_eq!(
        ex.execute(&Cmd::new("tab_switch"), Layer::Manager),
        Some(Invocation::Tabs(TabsOp::Switch))
    );
    assert_eq!(
        ex.execute(&Cmd::new("tab_swap"), Layer::Manager),
        Some(Invocation::Tabs(TabsOp::Swap))
    );
    // a non-prefixed command goes to the focused tab
    assert_eq!(
        ex.execute(&Cmd::new("enter"), Layer::Manager),
        Some(Invocation::MgrTab(0, TabOp::Enter))
    );
    // after a focus switch the very next dispatch sees the new tab
    ex.app.cx.tabs.set_active(2);
    assert_eq!(
        ex.execute(&Cmd::new("enter"), Layer::Manager),
        Some(Invocation::MgrTab(2, TabOp::Enter))
    );
    // while the prefixed command still routes to the sibling strip
    assert_eq!(
        ex.execute(&Cmd::new("tab_close"), Layer::Manager),
        Some(Invocation::Tabs(TabsOp::Close))
    );
}

#[test]
fn drained_commands_dispatch_once_each_in_order() {
    let mut ex = fresh();
    // one command from the key-binding producer, one from a plugin call
    let batch = vec![
        (Cmd::new("insert"), Layer::Input),
        (Cmd::new("backspace"), Layer::Input),
    ];
    let rs = ex.run(&batch);
    assert_eq!(
        rs,
        vec![
            Some(Invocation::Input(InputOp::Insert)),
            Some(Invocation::Input(InputOp::Backspace)),
        ]
    );
    assert_eq!(ex.app.cx.input.mode, InputMode::Insert);

    // order matters: the reverse order leaves the second command unmatched
    let mut ex2 = fresh();
    let batch2 = vec![
        (Cmd::new("backspace"), Layer::Input),
        (Cmd::new("insert"), Layer::Input),
    ];
    let rs2 = ex2.run(&batch2);
    assert_eq!(rs2, vec![None, Some(Invocation::Input(InputOp::Insert))]);
}

#[test]
fn help_layer_recognizes_the_help_fallback_itself() {
    let mut ex = fresh();
    // the overlay takes part in the fallback chain: from the hidden
    // state, `help` under the help layer opens it recording itself
    assert_eq!(
        ex.execute(&Cmd::new("help"), Layer::Help),
        Some(Invocation::HelpShow(Layer::Help))
    );
    assert!(ex.app.cx.help.visible);
    assert_eq!(ex.app.cx.help.origin, Layer::Help);
    assert_eq!(
        ex.execute(&Cmd::new("help"), Layer::Help),
        Some(Invocation::HelpHide(Layer::Help))
    );
    assert!(!ex.app.cx.help.visible);

    // opened from elsewhere, `help` under the overlay closes it and
    // reports the recorded origin, exactly as `close` does
    ex.execute(&Cmd::new("help"), Layer::Manager);
    assert_eq!(
        ex.execute(&Cmd::new("help"), Layer::Help),
        Some(Invocation::HelpHide(Layer::Manager))
    );
    assert!(!ex.app.cx.help.visible);
}

#[test]
fn help_toggle_closes_when_already_open() {
    let mut ex = fresh();
    assert_eq!(
        ex.execute(&Cmd::new("help"), Layer::Pick),
        Some(Invocation::HelpShow(Layer::Pick))
    );
    // a second `help`, wherever it comes from, toggles the overlay away
    assert_eq!(
        ex.execute(&Cmd::new("help"), Layer::Tasks),
        Some(Invocation::HelpHide(Layer::Pick))
    );
    assert!(!ex.app.cx.help.visible);
}

#[test]
fn insert_mode_hides_normal_only_fallbacks() {
    let mut ex = fresh();
    ex.execute(&Cmd::new("insert"), Layer::Input);
    // under Insert, help and plugin are unknown in the input layer
    assert_eq!(ex.execute(&Cmd::new("help"), Layer::Input), None);
    assert_eq!(ex.execute(&Cmd::new("plugin"), Layer::Input), None);
    assert!(!ex.app.cx.help.visible);
}
