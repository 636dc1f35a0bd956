use vstd::prelude::*;
use crate::cmd::{spec_flag, Cmd};
use crate::invoke::{
    AppOp, CmpOp, ConfirmOp, HelpOp, InputOp, Invocation, MgrOp, PickOp, TabOp, TabsOp, TasksOp,
    WhichOp,
};
use crate::layer::Layer;
use crate::state::{Ctx, Help, Input, InputMode};

verus! {

// The destination tables below are the library's single source of truth:
// one spec function per layer, each an ordered first-match-wins chain over
// the command's name. A name matching nothing routes to `None`, which the
// executor turns into a silent no-op.

/// What showing or hiding the help overlay selects: the overlay records
/// the originating layer when it opens, and reports the recorded origin
/// when it closes so focus can return there.
pub open spec fn help_toggle(h: Help, origin: Layer) -> Invocation {
    if h.visible {
        Invocation::HelpHide(h.origin)
    } else {
        Invocation::HelpShow(origin)
    }
}

/// The base application's table: every name routes directly to the
/// application singleton.
pub open spec fn route_app(c: Cmd) -> Option<Invocation> {
    let n = c.name@;
    if n == "accept_payload"@ {
        Some(Invocation::App(AppOp::AcceptPayload))
    } else if n == "notify"@ {
        Some(Invocation::App(AppOp::Notify))
    } else if n == "plugin"@ {
        Some(Invocation::App(AppOp::Plugin))
    } else if n == "plugin_do"@ {
        Some(Invocation::App(AppOp::PluginDo))
    } else if n == "update_notify"@ {
        Some(Invocation::App(AppOp::UpdateNotify))
    } else if n == "update_progress"@ {
        Some(Invocation::App(AppOp::UpdateProgress))
    } else if n == "resize"@ {
        Some(Invocation::App(AppOp::Resize))
    } else if n == "stop"@ {
        Some(Invocation::App(AppOp::Stop))
    } else if n == "resume"@ {
        Some(Invocation::App(AppOp::Resume))
    } else {
        None
    }
}

/// The file-manager's table. Three addressing patterns: direct names go
/// to the manager singleton, active-scoped names to whichever tab is
/// focused at dispatch time, and `tab_`-prefixed names — prefix
/// stripped — to the sibling tab strip. After them come the fallbacks:
/// `tasks_show`, `help`, and `plugin`.
pub open spec fn route_manager(cx: Ctx, c: Cmd) -> Option<Invocation> {
    let n = c.name@;
    let t = cx.tabs.active;
    if n == "update_tasks"@ {
        Some(Invocation::Mgr(MgrOp::UpdateTasks))
    } else if n == "update_files"@ {
        Some(Invocation::Mgr(MgrOp::UpdateFiles))
    } else if n == "update_mimes"@ {
        Some(Invocation::Mgr(MgrOp::UpdateMimes))
    } else if n == "update_paged"@ {
        Some(Invocation::Mgr(MgrOp::UpdatePaged))
    } else if n == "update_yanked"@ {
        Some(Invocation::Mgr(MgrOp::UpdateYanked))
    } else if n == "hover"@ {
        Some(Invocation::Mgr(MgrOp::Hover))
    } else if n == "peek"@ {
        Some(Invocation::Mgr(MgrOp::Peek))
    } else if n == "seek"@ {
        Some(Invocation::Mgr(MgrOp::Seek))
    } else if n == "spot"@ {
        Some(Invocation::MgrTab(t, TabOp::Spot))
    } else if n == "refresh"@ {
        Some(Invocation::Mgr(MgrOp::Refresh))
    } else if n == "quit"@ {
        Some(Invocation::Mgr(MgrOp::Quit))
    } else if n == "close"@ {
        Some(Invocation::Mgr(MgrOp::Close))
    } else if n == "suspend"@ {
        Some(Invocation::Mgr(MgrOp::Suspend))
    } else if n == "escape"@ {
        Some(Invocation::MgrTab(t, TabOp::Escape))
    } else if n == "update_peeked"@ {
        Some(Invocation::MgrTab(t, TabOp::UpdatePeeked))
    } else if n == "update_spotted"@ {
        Some(Invocation::MgrTab(t, TabOp::UpdateSpotted))
    } else if n == "arrow"@ {
        Some(Invocation::MgrTab(t, TabOp::Arrow))
    } else if n == "leave"@ {
        Some(Invocation::MgrTab(t, TabOp::Leave))
    } else if n == "enter"@ {
        Some(Invocation::MgrTab(t, TabOp::Enter))
    } else if n == "back"@ {
        Some(Invocation::MgrTab(t, TabOp::Back))
    } else if n == "forward"@ {
        Some(Invocation::MgrTab(t, TabOp::Forward))
    } else if n == "cd"@ {
        Some(Invocation::MgrTab(t, TabOp::Cd))
    } else if n == "reveal"@ {
        Some(Invocation::MgrTab(t, TabOp::Reveal))
    } else if n == "toggle"@ {
        Some(Invocation::MgrTab(t, TabOp::Toggle))
    } else if n == "toggle_all"@ {
        Some(Invocation::MgrTab(t, TabOp::ToggleAll))
    } else if n == "visual_mode"@ {
        Some(Invocation::MgrTab(t, TabOp::VisualMode))
    } else if n == "select"@ {
        Some(Invocation::MgrTab(t, TabOp::Select))
    } else if n == "select_all"@ {
        Some(Invocation::MgrTab(t, TabOp::SelectAll))
    } else if n == "open"@ {
        Some(Invocation::Mgr(MgrOp::Open))
    } else if n == "open_do"@ {
        Some(Invocation::Mgr(MgrOp::OpenDo))
    } else if n == "yank"@ {
        Some(Invocation::Mgr(MgrOp::Yank))
    } else if n == "unyank"@ {
        Some(Invocation::Mgr(MgrOp::Unyank))
    } else if n == "paste"@ {
        Some(Invocation::Mgr(MgrOp::Paste))
    } else if n == "link"@ {
        Some(Invocation::Mgr(MgrOp::Link))
    } else if n == "hardlink"@ {
        Some(Invocation::Mgr(MgrOp::Hardlink))
    } else if n == "remove"@ {
        Some(Invocation::Mgr(MgrOp::Remove))
    } else if n == "remove_do"@ {
        Some(Invocation::Mgr(MgrOp::RemoveDo))
    } else if n == "create"@ {
        Some(Invocation::Mgr(MgrOp::Create))
    } else if n == "rename"@ {
        Some(Invocation::Mgr(MgrOp::Rename))
    } else if n == "copy"@ {
        Some(Invocation::MgrTab(t, TabOp::Copy))
    } else if n == "shell"@ {
        Some(Invocation::MgrTab(t, TabOp::Shell))
    } else if n == "hidden"@ {
        Some(Invocation::MgrTab(t, TabOp::Hidden))
    } else if n == "linemode"@ {
        Some(Invocation::MgrTab(t, TabOp::Linemode))
    } else if n == "search"@ {
        Some(Invocation::MgrTab(t, TabOp::Search))
    } else if n == "search_do"@ {
        Some(Invocation::MgrTab(t, TabOp::SearchDo))
    } else if n == "filter"@ {
        Some(Invocation::MgrTab(t, TabOp::Filter))
    } else if n == "filter_do"@ {
        Some(Invocation::MgrTab(t, TabOp::FilterDo))
    } else if n == "find"@ {
        Some(Invocation::MgrTab(t, TabOp::Find))
    } else if n == "find_do"@ {
        Some(Invocation::MgrTab(t, TabOp::FindDo))
    } else if n == "find_arrow"@ {
        Some(Invocation::MgrTab(t, TabOp::FindArrow))
    } else if n == "sort"@ {
        Some(Invocation::MgrTab(t, TabOp::Sort))
    } else if n == "tab_create"@ {
        Some(Invocation::Tabs(TabsOp::Create))
    } else if n == "tab_close"@ {
        Some(Invocation::Tabs(TabsOp::Close))
    } else if n == "tab_switch"@ {
        Some(Invocation::Tabs(TabsOp::Switch))
    } else if n == "tab_swap"@ {
        Some(Invocation::Tabs(TabsOp::Swap))
    } else if n == "tasks_show"@ {
        Some(Invocation::Tasks(TasksOp::Toggle))
    } else if n == "help"@ {
        Some(help_toggle(cx.help, Layer::Manager))
    } else if n == "plugin"@ {
        Some(Invocation::App(AppOp::Plugin))
    } else {
        None
    }
}

/// The background-tasks panel's table. `close` is an alias that routes
/// to the panel's toggle handler.
pub open spec fn route_tasks(cx: Ctx, c: Cmd) -> Option<Invocation> {
    let n = c.name@;
    if n == "close"@ {
        Some(Invocation::Tasks(TasksOp::Toggle))
    } else if n == "arrow"@ {
        Some(Invocation::Tasks(TasksOp::Arrow))
    } else if n == "inspect"@ {
        Some(Invocation::Tasks(TasksOp::Inspect))
    } else if n == "cancel"@ {
        Some(Invocation::Tasks(TasksOp::Cancel))
    } else if n == "open_with"@ {
        Some(Invocation::Tasks(TasksOp::OpenWith))
    } else if n == "process_exec"@ {
        Some(Invocation::Tasks(TasksOp::ProcessExec))
    } else if n == "help"@ {
        Some(help_toggle(cx.help, Layer::Tasks))
    } else if n == "plugin"@ {
        Some(Invocation::App(AppOp::Plugin))
    } else {
        None
    }
}

/// The picker overlay's table.
pub open spec fn route_pick(cx: Ctx, c: Cmd) -> Option<Invocation> {
    let n = c.name@;
    if n == "show"@ {
        Some(Invocation::Pick(PickOp::Show))
    } else if n == "close"@ {
        Some(Invocation::Pick(PickOp::Close))
    } else if n == "arrow"@ {
        Some(Invocation::Pick(PickOp::Arrow))
    } else if n == "help"@ {
        Some(help_toggle(cx.help, Layer::Pick))
    } else if n == "plugin"@ {
        Some(Invocation::App(AppOp::Plugin))
    } else {
        None
    }
}

/// The text-input layer's table. A mode-independent set is consulted
/// first; `complete` is the one documented case where argument content,
/// not the name alone, picks the destination. Only then does the mode
/// gate select the Normal-only or Insert-only set.
pub open spec fn route_input(cx: Ctx, c: Cmd) -> Option<Invocation> {
    let n = c.name@;
    if n == "show"@ {
        Some(Invocation::Input(InputOp::Show))
    } else if n == "close"@ {
        Some(Invocation::Input(InputOp::Close))
    } else if n == "escape"@ {
        Some(Invocation::Input(InputOp::Escape))
    } else if n == "move"@ {
        Some(Invocation::Input(InputOp::Move))
    } else if n == "backward"@ {
        Some(Invocation::Input(InputOp::Backward))
    } else if n == "forward"@ {
        Some(Invocation::Input(InputOp::Forward))
    } else if n == "complete"@ {
        if spec_flag(c.named@, "trigger"@) {
            Some(Invocation::Completion(CmpOp::Trigger))
        } else {
            Some(Invocation::Input(InputOp::Complete))
        }
    } else if cx.input.mode == InputMode::Normal {
        if n == "insert"@ {
            Some(Invocation::Input(InputOp::Insert))
        } else if n == "visual"@ {
            Some(Invocation::Input(InputOp::Visual))
        } else if n == "delete"@ {
            Some(Invocation::Input(InputOp::Delete))
        } else if n == "yank"@ {
            Some(Invocation::Input(InputOp::Yank))
        } else if n == "paste"@ {
            Some(Invocation::Input(InputOp::Paste))
        } else if n == "undo"@ {
            Some(Invocation::Input(InputOp::Undo))
        } else if n == "redo"@ {
            Some(Invocation::Input(InputOp::Redo))
        } else if n == "help"@ {
            Some(help_toggle(cx.help, Layer::Input))
        } else if n == "plugin"@ {
            Some(Invocation::App(AppOp::Plugin))
        } else {
            None
        }
    } else {
        if n == "backspace"@ {
            Some(Invocation::Input(InputOp::Backspace))
        } else if n == "kill"@ {
            Some(Invocation::Input(InputOp::Kill))
        } else {
            None
        }
    }
}

/// The confirm dialog's table.
pub open spec fn route_confirm(c: Cmd) -> Option<Invocation> {
    let n = c.name@;
    if n == "arrow"@ {
        Some(Invocation::Confirm(ConfirmOp::Arrow))
    } else if n == "show"@ {
        Some(Invocation::Confirm(ConfirmOp::Show))
    } else if n == "close"@ {
        Some(Invocation::Confirm(ConfirmOp::Close))
    } else {
        None
    }
}

/// The help overlay's table. `close` routes to the overlay's toggle,
/// which reports the recorded origin so focus returns there; the
/// overlay takes part in the fallback chain itself, so `help` reaches
/// the same toggle.
pub open spec fn route_help(cx: Ctx, c: Cmd) -> Option<Invocation> {
    let n = c.name@;
    if n == "escape"@ {
        Some(Invocation::Help(HelpOp::Escape))
    } else if n == "arrow"@ {
        Some(Invocation::Help(HelpOp::Arrow))
    } else if n == "filter"@ {
        Some(Invocation::Help(HelpOp::Filter))
    } else if n == "close"@ {
        Some(help_toggle(cx.help, Layer::Help))
    } else if n == "help"@ {
        Some(help_toggle(cx.help, Layer::Help))
    } else if n == "plugin"@ {
        Some(Invocation::App(AppOp::Plugin))
    } else {
        None
    }
}

/// The completion popup's table. `close_input` is the one sanctioned
/// cross-layer call: it selects the text-input layer's close handler
/// directly, without re-entering the router.
pub open spec fn route_completion(cx: Ctx, c: Cmd) -> Option<Invocation> {
    let n = c.name@;
    if n == "trigger"@ {
        Some(Invocation::Completion(CmpOp::Trigger))
    } else if n == "show"@ {
        Some(Invocation::Completion(CmpOp::Show))
    } else if n == "close"@ {
        Some(Invocation::Completion(CmpOp::Close))
    } else if n == "arrow"@ {
        Some(Invocation::Completion(CmpOp::Arrow))
    } else if n == "close_input"@ {
        Some(Invocation::Input(InputOp::Close))
    } else if n == "help"@ {
        Some(help_toggle(cx.help, Layer::Completion))
    } else if n == "plugin"@ {
        Some(Invocation::App(AppOp::Plugin))
    } else {
        None
    }
}

/// The key-hint overlay's table.
pub open spec fn route_which(c: Cmd) -> Option<Invocation> {
    let n = c.name@;
    if n == "show"@ {
        Some(Invocation::Which(WhichOp::Show))
    } else if n == "callback"@ {
        Some(Invocation::Which(WhichOp::Callback))
    } else {
        None
    }
}

/// The destination a dispatch of `c` under `layer` selects, given the
/// router-visible state `cx`: exactly one sub-router is consulted, and
/// at most one handler is selected. `None` means the command is dropped
/// silently.
pub open spec fn spec_route(cx: Ctx, c: Cmd, layer: Layer) -> Option<Invocation> {
    match layer {
        Layer::App => route_app(c),
        Layer::Manager => route_manager(cx, c),
        Layer::Tasks => route_tasks(cx, c),
        Layer::Pick => route_pick(cx, c),
        Layer::Input => route_input(cx, c),
        Layer::Confirm => route_confirm(c),
        Layer::Help => route_help(cx, c),
        Layer::Completion => route_completion(cx, c),
        Layer::Which => route_which(c),
    }
}

/// How the router-visible state changes when an invocation is selected.
/// Only the documented owners move it: the input layer's `insert` and
/// `escape` handlers drive the mode, and the help overlay's toggle
/// drives its visibility and recorded origin. Every other selection —
/// and every dropped command — leaves the state untouched.
pub open spec fn apply(cx: Ctx, r: Option<Invocation>) -> Ctx {
    match r {
        Some(Invocation::Input(InputOp::Insert)) => Ctx {
            input: Input { mode: InputMode::Insert },
            ..cx
        },
        Some(Invocation::Input(InputOp::Escape)) => Ctx {
            input: Input { mode: InputMode::Normal },
            ..cx
        },
        Some(Invocation::HelpShow(l)) => Ctx {
            help: Help { visible: true, origin: l },
            ..cx
        },
        Some(Invocation::HelpHide(_)) => Ctx {
            help: Help { visible: false, ..cx.help },
            ..cx
        },
        _ => cx,
    }
}

/// The router-visible state after dispatching `c` under `layer`.
pub open spec fn spec_step(cx: Ctx, c: Cmd, layer: Layer) -> Ctx {
    apply(cx, spec_route(cx, c, layer))
}

/// Dispatching a whole drained batch, one command at a time: the
/// selections it makes, in order, and the state it ends in. Each
/// command is routed against the state its predecessors left behind.
pub open spec fn spec_run(cx: Ctx, items: Seq<(Cmd, Layer)>) -> (Seq<Option<Invocation>>, Ctx)
    decreases items.len(),
{
    if items.len() == 0 {
        (Seq::<Option<Invocation>>::empty(), cx)
    } else {
        let r0 = spec_route(cx, items[0].0, items[0].1);
        let cx1 = spec_step(cx, items[0].0, items[0].1);
        let rest = spec_run(cx1, items.drop_first());
        (seq![r0] + rest.0, rest.1)
    }
}

} // verus!
