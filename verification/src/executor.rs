use vstd::prelude::*;
use crate::cmd::Cmd;
use crate::invoke::{
    AppOp, CmpOp, ConfirmOp, HelpOp, InputOp, Invocation, MgrOp, PickOp, TabOp, TabsOp, TasksOp,
    WhichOp,
};
use crate::layer::Layer;
use crate::route::{
    apply, route_app, route_completion, route_confirm, route_help, route_input, route_manager,
    route_pick, route_tasks, route_which, spec_route, spec_run, spec_step,
};
use crate::state::{App, InputMode};

verus! {

/// The router: the single synchronous entry point that selects, for
/// each (command, layer) pair, the one destination handler. It owns the
/// application model whose context it reads and whose documented state
/// transitions it performs; running the selected handler's real effect
/// is the caller's job.
pub struct Executor {
    pub app: App,
}

impl Executor {
    /// An executor over the given application model.
    pub fn new(app: App) -> (r: Executor)
        ensures
            r.app == app,
    {
        Executor { app }
    }

    /// Dispatch one command under the given layer. Exactly one
    /// sub-router is consulted; the returned invocation names the one
    /// handler it selected, and `None` means the command was dropped
    /// silently. The router-visible state moves exactly as the
    /// documented owners move it, and dispatch itself never fails.
    pub fn execute(&mut self, cmd: &Cmd, layer: Layer) -> (r: Option<Invocation>)
        ensures
            r == spec_route(old(self).app.cx, *cmd, layer),
            final(self).app.cx == spec_step(old(self).app.cx, *cmd, layer),
    {
        match layer {
            Layer::App => self.app(cmd),
            Layer::Manager => self.manager(cmd),
            Layer::Tasks => self.tasks(cmd),
            Layer::Pick => self.pick(cmd),
            Layer::Input => self.input(cmd),
            Layer::Confirm => self.confirm(cmd),
            Layer::Help => self.help(cmd),
            Layer::Completion => self.completion(cmd),
            Layer::Which => self.which(cmd),
        }
    }

    /// Dispatch a batch of commands, already merged into one sequence
    /// by the single-threaded event loop. Each is dispatched exactly
    /// once, in the order the drain observes them, each against the
    /// state the previous one left behind.
    pub fn run(&mut self, items: &Vec<(Cmd, Layer)>) -> (rs: Vec<Option<Invocation>>)
        ensures
            rs@ == spec_run(old(self).app.cx, items@).0,
            final(self).app.cx == spec_run(old(self).app.cx, items@).1,
    {
        let ghost cx0 = self.app.cx;
        let mut rs: Vec<Option<Invocation>> = Vec::new();
        let mut i: usize = 0;
        proof {
            assert(items@.skip(0) =~= items@);
        }
        while i < items.len()
            invariant
                i <= items@.len(),
                spec_run(cx0, items@).0 =~= rs@ + spec_run(self.app.cx, items@.skip(i as int)).0,
                spec_run(cx0, items@).1 == spec_run(self.app.cx, items@.skip(i as int)).1,
                rs@.len() == i,
            decreases items@.len() - i,
        {
            let ghost pre = self.app.cx;
            let ghost rest = items@.skip(i as int);
            let r = self.execute(&items[i].0, items[i].1);
            rs.push(r);
            i = i + 1;
            proof {
                assert(rest[0] == items@[i - 1]);
                assert(rest.drop_first() =~= items@.skip(i as int));
                assert(spec_run(pre, rest).0 =~= seq![r] + spec_run(
                    self.app.cx,
                    items@.skip(i as int),
                ).0);
            }
        }
        proof {
            assert(spec_run(self.app.cx, items@.skip(i as int)).0 =~= Seq::<
                Option<Invocation>,
            >::empty());
            assert(spec_run(cx0, items@).0 =~= rs@);
        }
        rs
    }

    /// The base application's sub-router.
    fn app(&mut self, cmd: &Cmd) -> (r: Option<Invocation>)
        ensures
            r == route_app(*cmd),
            final(self).app.cx == apply(old(self).app.cx, r),
    {
        if cmd.name_is("accept_payload") {
            return Some(Invocation::App(AppOp::AcceptPayload));
        }
        if cmd.name_is("notify") {
            return Some(Invocation::App(AppOp::Notify));
        }
        if cmd.name_is("plugin") {
            return Some(Invocation::App(AppOp::Plugin));
        }
        if cmd.name_is("plugin_do") {
            return Some(Invocation::App(AppOp::PluginDo));
        }
        if cmd.name_is("update_notify") {
            return Some(Invocation::App(AppOp::UpdateNotify));
        }
        if cmd.name_is("update_progress") {
            return Some(Invocation::App(AppOp::UpdateProgress));
        }
        if cmd.name_is("resize") {
            return Some(Invocation::App(AppOp::Resize));
        }
        if cmd.name_is("stop") {
            return Some(Invocation::App(AppOp::Stop));
        }
        if cmd.name_is("resume") {
            return Some(Invocation::App(AppOp::Resume));
        }
        None
    }

    /// The file-manager's sub-router: direct, active-scoped, and
    /// prefixed-sibling addressing, then the fallbacks.
    #[verifier::rlimit(60)]
    fn manager(&mut self, cmd: &Cmd) -> (r: Option<Invocation>)
        ensures
            r == route_manager(old(self).app.cx, *cmd),
            final(self).app.cx == apply(old(self).app.cx, r),
    {
        let t = self.app.cx.tabs.active;
        if cmd.name_is("update_tasks") {
            return Some(Invocation::Mgr(MgrOp::UpdateTasks));
        }
        if cmd.name_is("update_files") {
            return Some(Invocation::Mgr(MgrOp::UpdateFiles));
        }
        if cmd.name_is("update_mimes") {
            return Some(Invocation::Mgr(MgrOp::UpdateMimes));
        }
        if cmd.name_is("update_paged") {
            return Some(Invocation::Mgr(MgrOp::UpdatePaged));
        }
        if cmd.name_is("update_yanked") {
            return Some(Invocation::Mgr(MgrOp::UpdateYanked));
        }
        if cmd.name_is("hover") {
            return Some(Invocation::Mgr(MgrOp::Hover));
        }
        if cmd.name_is("peek") {
            return Some(Invocation::Mgr(MgrOp::Peek));
        }
        if cmd.name_is("seek") {
            return Some(Invocation::Mgr(MgrOp::Seek));
        }
        if cmd.name_is("spot") {
            return Some(Invocation::MgrTab(t, TabOp::Spot));
        }
        if cmd.name_is("refresh") {
            return Some(Invocation::Mgr(MgrOp::Refresh));
        }
        if cmd.name_is("quit") {
            return Some(Invocation::Mgr(MgrOp::Quit));
        }
        if cmd.name_is("close") {
            return Some(Invocation::Mgr(MgrOp::Close));
        }
        if cmd.name_is("suspend") {
            return Some(Invocation::Mgr(MgrOp::Suspend));
        }
        if cmd.name_is("escape") {
            return Some(Invocation::MgrTab(t, TabOp::Escape));
        }
        if cmd.name_is("update_peeked") {
            return Some(Invocation::MgrTab(t, TabOp::UpdatePeeked));
        }
        if cmd.name_is("update_spotted") {
            return Some(Invocation::MgrTab(t, TabOp::UpdateSpotted));
        }
        if cmd.name_is("arrow") {
            return Some(Invocation::MgrTab(t, TabOp::Arrow));
        }
        if cmd.name_is("leave") {
            return Some(Invocation::MgrTab(t, TabOp::Leave));
        }
        if cmd.name_is("enter") {
            return Some(Invocation::MgrTab(t, TabOp::Enter));
        }
        if cmd.name_is("back") {
            return Some(Invocation::MgrTab(t, TabOp::Back));
        }
        if cmd.name_is("forward") {
            return Some(Invocation::MgrTab(t, TabOp::Forward));
        }
        if cmd.name_is("cd") {
            return Some(Invocation::MgrTab(t, TabOp::Cd));
        }
        if cmd.name_is("reveal") {
            return Some(Invocation::MgrTab(t, TabOp::Reveal));
        }
        if cmd.name_is("toggle") {
            return Some(Invocation::MgrTab(t, TabOp::Toggle));
        }
        if cmd.name_is("toggle_all") {
            return Some(Invocation::MgrTab(t, TabOp::ToggleAll));
        }
        if cmd.name_is("visual_mode") {
            return Some(Invocation::MgrTab(t, TabOp::VisualMode));
        }
        if cmd.name_is("select") {
            return Some(Invocation::MgrTab(t, TabOp::Select));
        }
        if cmd.name_is("select_all") {
            return Some(Invocation::MgrTab(t, TabOp::SelectAll));
        }
        if cmd.name_is("open") {
            return Some(Invocation::Mgr(MgrOp::Open));
        }
        if cmd.name_is("open_do") {
            return Some(Invocation::Mgr(MgrOp::OpenDo));
        }
        if cmd.name_is("yank") {
            return Some(Invocation::Mgr(MgrOp::Yank));
        }
        if cmd.name_is("unyank") {
            return Some(Invocation::Mgr(MgrOp::Unyank));
        }
        if cmd.name_is("paste") {
            return Some(Invocation::Mgr(MgrOp::Paste));
        }
        if cmd.name_is("link") {
            return Some(Invocation::Mgr(MgrOp::Link));
        }
        if cmd.name_is("hardlink") {
            return Some(Invocation::Mgr(MgrOp::Hardlink));
        }
        if cmd.name_is("remove") {
            return Some(Invocation::Mgr(MgrOp::Remove));
        }
        if cmd.name_is("remove_do") {
            return Some(Invocation::Mgr(MgrOp::RemoveDo));
        }
        if cmd.name_is("create") {
            return Some(Invocation::Mgr(MgrOp::Create));
        }
        if cmd.name_is("rename") {
            return Some(Invocation::Mgr(MgrOp::Rename));
        }
        if cmd.name_is("copy") {
            return Some(Invocation::MgrTab(t, TabOp::Copy));
        }
        if cmd.name_is("shell") {
            return Some(Invocation::MgrTab(t, TabOp::Shell));
        }
        if cmd.name_is("hidden") {
            return Some(Invocation::MgrTab(t, TabOp::Hidden));
        }
        if cmd.name_is("linemode") {
            return Some(Invocation::MgrTab(t, TabOp::Linemode));
        }
        if cmd.name_is("search") {
            return Some(Invocation::MgrTab(t, TabOp::Search));
        }
        if cmd.name_is("search_do") {
            return Some(Invocation::MgrTab(t, TabOp::SearchDo));
        }
        if cmd.name_is("filter") {
            return Some(Invocation::MgrTab(t, TabOp::Filter));
        }
        if cmd.name_is("filter_do") {
            return Some(Invocation::MgrTab(t, TabOp::FilterDo));
        }
        if cmd.name_is("find") {
            return Some(Invocation::MgrTab(t, TabOp::Find));
        }
        if cmd.name_is("find_do") {
            return Some(Invocation::MgrTab(t, TabOp::FindDo));
        }
        if cmd.name_is("find_arrow") {
            return Some(Invocation::MgrTab(t, TabOp::FindArrow));
        }
        if cmd.name_is("sort") {
            return Some(Invocation::MgrTab(t, TabOp::Sort));
        }
        if cmd.name_is("tab_create") {
            return Some(Invocation::Tabs(TabsOp::Create));
        }
        if cmd.name_is("tab_close") {
            return Some(Invocation::Tabs(TabsOp::Close));
        }
        if cmd.name_is("tab_switch") {
            return Some(Invocation::Tabs(TabsOp::Switch));
        }
        if cmd.name_is("tab_swap") {
            return Some(Invocation::Tabs(TabsOp::Swap));
        }
        if cmd.name_is("tasks_show") {
            return Some(Invocation::Tasks(TasksOp::Toggle));
        }
        if cmd.name_is("help") {
            return Some(self.app.cx.help.toggle(Layer::Manager));
        }
        if cmd.name_is("plugin") {
            return Some(Invocation::App(AppOp::Plugin));
        }
        None
    }

    /// The background-tasks panel's sub-router.
    fn tasks(&mut self, cmd: &Cmd) -> (r: Option<Invocation>)
        ensures
            r == route_tasks(old(self).app.cx, *cmd),
            final(self).app.cx == apply(old(self).app.cx, r),
    {
        if cmd.name_is("close") {
            return Some(Invocation::Tasks(TasksOp::Toggle));
        }
        if cmd.name_is("arrow") {
            return Some(Invocation::Tasks(TasksOp::Arrow));
        }
        if cmd.name_is("inspect") {
            return Some(Invocation::Tasks(TasksOp::Inspect));
        }
        if cmd.name_is("cancel") {
            return Some(Invocation::Tasks(TasksOp::Cancel));
        }
        if cmd.name_is("open_with") {
            return Some(Invocation::Tasks(TasksOp::OpenWith));
        }
        if cmd.name_is("process_exec") {
            return Some(Invocation::Tasks(TasksOp::ProcessExec));
        }
        if cmd.name_is("help") {
            return Some(self.app.cx.help.toggle(Layer::Tasks));
        }
        if cmd.name_is("plugin") {
            return Some(Invocation::App(AppOp::Plugin));
        }
        None
    }

    /// The picker overlay's sub-router.
    fn pick(&mut self, cmd: &Cmd) -> (r: Option<Invocation>)
        ensures
            r == route_pick(old(self).app.cx, *cmd),
            final(self).app.cx == apply(old(self).app.cx, r),
    {
        if cmd.name_is("show") {
            return Some(Invocation::Pick(PickOp::Show));
        }
        if cmd.name_is("close") {
            return Some(Invocation::Pick(PickOp::Close));
        }
        if cmd.name_is("arrow") {
            return Some(Invocation::Pick(PickOp::Arrow));
        }
        if cmd.name_is("help") {
            return Some(self.app.cx.help.toggle(Layer::Pick));
        }
        if cmd.name_is("plugin") {
            return Some(Invocation::App(AppOp::Plugin));
        }
        None
    }

    /// The text-input layer's sub-router: the mode-independent set, the
    /// argument-routed `complete`, then the set the mode gate admits.
    fn input(&mut self, cmd: &Cmd) -> (r: Option<Invocation>)
        ensures
            r == route_input(old(self).app.cx, *cmd),
            final(self).app.cx == apply(old(self).app.cx, r),
    {
        if cmd.name_is("show") {
            return Some(Invocation::Input(InputOp::Show));
        }
        if cmd.name_is("close") {
            return Some(Invocation::Input(InputOp::Close));
        }
        if cmd.name_is("escape") {
            self.app.cx.input.escape();
            return Some(Invocation::Input(InputOp::Escape));
        }
        if cmd.name_is("move") {
            return Some(Invocation::Input(InputOp::Move));
        }
        if cmd.name_is("backward") {
            return Some(Invocation::Input(InputOp::Backward));
        }
        if cmd.name_is("forward") {
            return Some(Invocation::Input(InputOp::Forward));
        }
        if cmd.name_is("complete") {
            return if cmd.flag("trigger") {
                Some(Invocation::Completion(CmpOp::Trigger))
            } else {
                Some(Invocation::Input(InputOp::Complete))
            };
        }
        match self.app.cx.input.mode {
            InputMode::Normal => {
                if cmd.name_is("insert") {
                    self.app.cx.input.insert();
                    return Some(Invocation::Input(InputOp::Insert));
                }
                if cmd.name_is("visual") {
                    return Some(Invocation::Input(InputOp::Visual));
                }
                if cmd.name_is("delete") {
                    return Some(Invocation::Input(InputOp::Delete));
                }
                if cmd.name_is("yank") {
                    return Some(Invocation::Input(InputOp::Yank));
                }
                if cmd.name_is("paste") {
                    return Some(Invocation::Input(InputOp::Paste));
                }
                if cmd.name_is("undo") {
                    return Some(Invocation::Input(InputOp::Undo));
                }
                if cmd.name_is("redo") {
                    return Some(Invocation::Input(InputOp::Redo));
                }
                if cmd.name_is("help") {
                    return Some(self.app.cx.help.toggle(Layer::Input));
                }
                if cmd.name_is("plugin") {
                    return Some(Invocation::App(AppOp::Plugin));
                }
                None
            },
            InputMode::Insert => {
                if cmd.name_is("backspace") {
                    return Some(Invocation::Input(InputOp::Backspace));
                }
                if cmd.name_is("kill") {
                    return Some(Invocation::Input(InputOp::Kill));
                }
                None
            },
        }
    }

    /// The confirm dialog's sub-router.
    fn confirm(&mut self, cmd: &Cmd) -> (r: Option<Invocation>)
        ensures
            r == route_confirm(*cmd),
            final(self).app.cx == apply(old(self).app.cx, r),
    {
        if cmd.name_is("arrow") {
            return Some(Invocation::Confirm(ConfirmOp::Arrow));
        }
        if cmd.name_is("show") {
            return Some(Invocation::Confirm(ConfirmOp::Show));
        }
        if cmd.name_is("close") {
            return Some(Invocation::Confirm(ConfirmOp::Close));
        }
        None
    }

    /// The help overlay's sub-router.
    fn help(&mut self, cmd: &Cmd) -> (r: Option<Invocation>)
        ensures
            r == route_help(old(self).app.cx, *cmd),
            final(self).app.cx == apply(old(self).app.cx, r),
    {
        if cmd.name_is("escape") {
            return Some(Invocation::Help(HelpOp::Escape));
        }
        if cmd.name_is("arrow") {
            return Some(Invocation::Help(HelpOp::Arrow));
        }
        if cmd.name_is("filter") {
            return Some(Invocation::Help(HelpOp::Filter));
        }
        if cmd.name_is("close") {
            return Some(self.app.cx.help.toggle(Layer::Help));
        }
        if cmd.name_is("help") {
            return Some(self.app.cx.help.toggle(Layer::Help));
        }
        if cmd.name_is("plugin") {
            return Some(Invocation::App(AppOp::Plugin));
        }
        None
    }

    /// The completion popup's sub-router, including the sanctioned
    /// cross-layer `close_input`.
    fn completion(&mut self, cmd: &Cmd) -> (r: Option<Invocation>)
        ensures
            r == route_completion(old(self).app.cx, *cmd),
            final(self).app.cx == apply(old(self).app.cx, r),
    {
        if cmd.name_is("trigger") {
            return Some(Invocation::Completion(CmpOp::Trigger));
        }
        if cmd.name_is("show") {
            return Some(Invocation::Completion(CmpOp::Show));
        }
        if cmd.name_is("close") {
            return Some(Invocation::Completion(CmpOp::Close));
        }
        if cmd.name_is("arrow") {
            return Some(Invocation::Completion(CmpOp::Arrow));
        }
        if cmd.name_is("close_input") {
            return Some(Invocation::Input(InputOp::Close));
        }
        if cmd.name_is("help") {
            return Some(self.app.cx.help.toggle(Layer::Completion));
        }
        if cmd.name_is("plugin") {
            return Some(Invocation::App(AppOp::Plugin));
        }
        None
    }

    /// The key-hint overlay's sub-router.
    fn which(&mut self, cmd: &Cmd) -> (r: Option<Invocation>)
        ensures
            r == route_which(*cmd),
            final(self).app.cx == apply(old(self).app.cx, r),
    {
        if cmd.name_is("show") {
            return Some(Invocation::Which(WhichOp::Show));
        }
        if cmd.name_is("callback") {
            return Some(Invocation::Which(WhichOp::Callback));
        }
        None
    }
}

} // verus!
