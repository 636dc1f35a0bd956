use vstd::prelude::*;
use crate::cmd::{lookup, spec_flag, Cmd};
use crate::invoke::{CmpOp, InputOp, Invocation, TabOp};
use crate::layer::Layer;
use crate::route::{spec_route, spec_run, spec_step};
use crate::state::{Ctx, InputMode};

verus! {

/// Law: dispatching a name that matches nothing in the selected layer
/// and mode is a complete no-op — no handler is selected, no error is
/// raised, and the router-visible state does not change.
pub proof fn lemma_no_match_is_noop(cx: Ctx, c: Cmd, layer: Layer)
    ensures
        spec_route(cx, c, layer) is None ==> spec_step(cx, c, layer) == cx,
{
}

/// Law: dispatch is deterministic and never ambiguous. The selected
/// destination and the state change are a function of the
/// router-visible state, the layer, the command's name, and — for the
/// one documented argument-routed name — its `trigger` flag alone;
/// positional values, other named values and the correlation id never
/// influence the selection.
pub proof fn lemma_route_deterministic(cx: Ctx, c1: Cmd, c2: Cmd, layer: Layer)
    requires
        c1.name@ == c2.name@,
        spec_flag(c1.named@, "trigger"@) == spec_flag(c2.named@, "trigger"@),
    ensures
        spec_route(cx, c1, layer) == spec_route(cx, c2, layer),
        spec_step(cx, c1, layer) == spec_step(cx, c2, layer),
{
}

/// A short fingerprint of a command name: its length and a handful of
/// its characters. Every pair of distinct documented command names
/// differs in it, so the facts of [`lemma_name_fingerprints`] refute
/// any equation between two of them and let the first-match chains of
/// the routing tables be walked past every non-matching entry.
pub open spec fn name_fp(s: Seq<char>) -> (int, char, char, char, char, char) {
    (
        s.len() as int,
        if s.len() > 0 { s[0] } else { ' ' },
        if s.len() > 1 { s[1] } else { ' ' },
        if s.len() > 2 { s[2] } else { ' ' },
        if s.len() > 3 { s[3] } else { ' ' },
        if s.len() > 7 { s[7] } else { ' ' },
    )
}

/// The fingerprint of every documented command name.
pub proof fn lemma_name_fingerprints()
    ensures
        name_fp("accept_payload"@) == (14int, 'a', 'c', 'c', 'e', 'p'),
        name_fp("arrow"@) == (5int, 'a', 'r', 'r', 'o', ' '),
        name_fp("back"@) == (4int, 'b', 'a', 'c', 'k', ' '),
        name_fp("backspace"@) == (9int, 'b', 'a', 'c', 'k', 'c'),
        name_fp("backward"@) == (8int, 'b', 'a', 'c', 'k', 'd'),
        name_fp("callback"@) == (8int, 'c', 'a', 'l', 'l', 'k'),
        name_fp("cancel"@) == (6int, 'c', 'a', 'n', 'c', ' '),
        name_fp("cd"@) == (2int, 'c', 'd', ' ', ' ', ' '),
        name_fp("close"@) == (5int, 'c', 'l', 'o', 's', ' '),
        name_fp("close_input"@) == (11int, 'c', 'l', 'o', 's', 'n'),
        name_fp("complete"@) == (8int, 'c', 'o', 'm', 'p', 'e'),
        name_fp("copy"@) == (4int, 'c', 'o', 'p', 'y', ' '),
        name_fp("create"@) == (6int, 'c', 'r', 'e', 'a', ' '),
        name_fp("delete"@) == (6int, 'd', 'e', 'l', 'e', ' '),
        name_fp("enter"@) == (5int, 'e', 'n', 't', 'e', ' '),
        name_fp("escape"@) == (6int, 'e', 's', 'c', 'a', ' '),
        name_fp("filter"@) == (6int, 'f', 'i', 'l', 't', ' '),
        name_fp("filter_do"@) == (9int, 'f', 'i', 'l', 't', 'd'),
        name_fp("find"@) == (4int, 'f', 'i', 'n', 'd', ' '),
        name_fp("find_arrow"@) == (10int, 'f', 'i', 'n', 'd', 'r'),
        name_fp("find_do"@) == (7int, 'f', 'i', 'n', 'd', ' '),
        name_fp("forward"@) == (7int, 'f', 'o', 'r', 'w', ' '),
        name_fp("hardlink"@) == (8int, 'h', 'a', 'r', 'd', 'k'),
        name_fp("help"@) == (4int, 'h', 'e', 'l', 'p', ' '),
        name_fp("hidden"@) == (6int, 'h', 'i', 'd', 'd', ' '),
        name_fp("hover"@) == (5int, 'h', 'o', 'v', 'e', ' '),
        name_fp("insert"@) == (6int, 'i', 'n', 's', 'e', ' '),
        name_fp("inspect"@) == (7int, 'i', 'n', 's', 'p', ' '),
        name_fp("kill"@) == (4int, 'k', 'i', 'l', 'l', ' '),
        name_fp("leave"@) == (5int, 'l', 'e', 'a', 'v', ' '),
        name_fp("linemode"@) == (8int, 'l', 'i', 'n', 'e', 'e'),
        name_fp("link"@) == (4int, 'l', 'i', 'n', 'k', ' '),
        name_fp("move"@) == (4int, 'm', 'o', 'v', 'e', ' '),
        name_fp("notify"@) == (6int, 'n', 'o', 't', 'i', ' '),
        name_fp("open"@) == (4int, 'o', 'p', 'e', 'n', ' '),
        name_fp("open_do"@) == (7int, 'o', 'p', 'e', 'n', ' '),
        name_fp("open_with"@) == (9int, 'o', 'p', 'e', 'n', 't'),
        name_fp("paste"@) == (5int, 'p', 'a', 's', 't', ' '),
        name_fp("peek"@) == (4int, 'p', 'e', 'e', 'k', ' '),
        name_fp("plugin"@) == (6int, 'p', 'l', 'u', 'g', ' '),
        name_fp("plugin_do"@) == (9int, 'p', 'l', 'u', 'g', 'd'),
        name_fp("process_exec"@) == (12int, 'p', 'r', 'o', 'c', '_'),
        name_fp("quit"@) == (4int, 'q', 'u', 'i', 't', ' '),
        name_fp("redo"@) == (4int, 'r', 'e', 'd', 'o', ' '),
        name_fp("refresh"@) == (7int, 'r', 'e', 'f', 'r', ' '),
        name_fp("remove"@) == (6int, 'r', 'e', 'm', 'o', ' '),
        name_fp("remove_do"@) == (9int, 'r', 'e', 'm', 'o', 'd'),
        name_fp("rename"@) == (6int, 'r', 'e', 'n', 'a', ' '),
        name_fp("resize"@) == (6int, 'r', 'e', 's', 'i', ' '),
        name_fp("resume"@) == (6int, 'r', 'e', 's', 'u', ' '),
        name_fp("reveal"@) == (6int, 'r', 'e', 'v', 'e', ' '),
        name_fp("search"@) == (6int, 's', 'e', 'a', 'r', ' '),
        name_fp("search_do"@) == (9int, 's', 'e', 'a', 'r', 'd'),
        name_fp("seek"@) == (4int, 's', 'e', 'e', 'k', ' '),
        name_fp("select"@) == (6int, 's', 'e', 'l', 'e', ' '),
        name_fp("select_all"@) == (10int, 's', 'e', 'l', 'e', 'a'),
        name_fp("shell"@) == (5int, 's', 'h', 'e', 'l', ' '),
        name_fp("show"@) == (4int, 's', 'h', 'o', 'w', ' '),
        name_fp("sort"@) == (4int, 's', 'o', 'r', 't', ' '),
        name_fp("spot"@) == (4int, 's', 'p', 'o', 't', ' '),
        name_fp("stop"@) == (4int, 's', 't', 'o', 'p', ' '),
        name_fp("suspend"@) == (7int, 's', 'u', 's', 'p', ' '),
        name_fp("tab_close"@) == (9int, 't', 'a', 'b', '_', 's'),
        name_fp("tab_create"@) == (10int, 't', 'a', 'b', '_', 'a'),
        name_fp("tab_swap"@) == (8int, 't', 'a', 'b', '_', 'p'),
        name_fp("tab_switch"@) == (10int, 't', 'a', 'b', '_', 't'),
        name_fp("tasks_show"@) == (10int, 't', 'a', 's', 'k', 'h'),
        name_fp("toggle"@) == (6int, 't', 'o', 'g', 'g', ' '),
        name_fp("toggle_all"@) == (10int, 't', 'o', 'g', 'g', 'a'),
        name_fp("trigger"@) == (7int, 't', 'r', 'i', 'g', ' '),
        name_fp("undo"@) == (4int, 'u', 'n', 'd', 'o', ' '),
        name_fp("unyank"@) == (6int, 'u', 'n', 'y', 'a', ' '),
        name_fp("update_files"@) == (12int, 'u', 'p', 'd', 'a', 'f'),
        name_fp("update_mimes"@) == (12int, 'u', 'p', 'd', 'a', 'm'),
        name_fp("update_notify"@) == (13int, 'u', 'p', 'd', 'a', 'n'),
        name_fp("update_paged"@) == (12int, 'u', 'p', 'd', 'a', 'p'),
        name_fp("update_peeked"@) == (13int, 'u', 'p', 'd', 'a', 'p'),
        name_fp("update_progress"@) == (15int, 'u', 'p', 'd', 'a', 'p'),
        name_fp("update_spotted"@) == (14int, 'u', 'p', 'd', 'a', 's'),
        name_fp("update_tasks"@) == (12int, 'u', 'p', 'd', 'a', 't'),
        name_fp("update_yanked"@) == (13int, 'u', 'p', 'd', 'a', 'y'),
        name_fp("visual"@) == (6int, 'v', 'i', 's', 'u', ' '),
        name_fp("visual_mode"@) == (11int, 'v', 'i', 's', 'u', 'm'),
        name_fp("yank"@) == (4int, 'y', 'a', 'n', 'k', ' '),
{
    reveal_strlit("accept_payload");
    reveal_strlit("arrow");
    reveal_strlit("back");
    reveal_strlit("backspace");
    reveal_strlit("backward");
    reveal_strlit("callback");
    reveal_strlit("cancel");
    reveal_strlit("cd");
    reveal_strlit("close");
    reveal_strlit("close_input");
    reveal_strlit("complete");
    reveal_strlit("copy");
    reveal_strlit("create");
    reveal_strlit("delete");
    reveal_strlit("enter");
    reveal_strlit("escape");
    reveal_strlit("filter");
    reveal_strlit("filter_do");
    reveal_strlit("find");
    reveal_strlit("find_arrow");
    reveal_strlit("find_do");
    reveal_strlit("forward");
    reveal_strlit("hardlink");
    reveal_strlit("help");
    reveal_strlit("hidden");
    reveal_strlit("hover");
    reveal_strlit("insert");
    reveal_strlit("inspect");
    reveal_strlit("kill");
    reveal_strlit("leave");
    reveal_strlit("linemode");
    reveal_strlit("link");
    reveal_strlit("move");
    reveal_strlit("notify");
    reveal_strlit("open");
    reveal_strlit("open_do");
    reveal_strlit("open_with");
    reveal_strlit("paste");
    reveal_strlit("peek");
    reveal_strlit("plugin");
    reveal_strlit("plugin_do");
    reveal_strlit("process_exec");
    reveal_strlit("quit");
    reveal_strlit("redo");
    reveal_strlit("refresh");
    reveal_strlit("remove");
    reveal_strlit("remove_do");
    reveal_strlit("rename");
    reveal_strlit("resize");
    reveal_strlit("resume");
    reveal_strlit("reveal");
    reveal_strlit("search");
    reveal_strlit("search_do");
    reveal_strlit("seek");
    reveal_strlit("select");
    reveal_strlit("select_all");
    reveal_strlit("shell");
    reveal_strlit("show");
    reveal_strlit("sort");
    reveal_strlit("spot");
    reveal_strlit("stop");
    reveal_strlit("suspend");
    reveal_strlit("tab_close");
    reveal_strlit("tab_create");
    reveal_strlit("tab_swap");
    reveal_strlit("tab_switch");
    reveal_strlit("tasks_show");
    reveal_strlit("toggle");
    reveal_strlit("toggle_all");
    reveal_strlit("trigger");
    reveal_strlit("undo");
    reveal_strlit("unyank");
    reveal_strlit("update_files");
    reveal_strlit("update_mimes");
    reveal_strlit("update_notify");
    reveal_strlit("update_paged");
    reveal_strlit("update_peeked");
    reveal_strlit("update_progress");
    reveal_strlit("update_spotted");
    reveal_strlit("update_tasks");
    reveal_strlit("update_yanked");
    reveal_strlit("visual");
    reveal_strlit("visual_mode");
    reveal_strlit("yank");
}

/// Law: the mode gate. Under Normal mode, `insert` reaches the input
/// layer's insert handler and moves the mode to Insert; an Insert-only
/// command such as `backspace`, a no-op while the mode was Normal, then
/// reaches its handler.
pub proof fn lemma_insert_opens_insert_mode(cx: Ctx, c_ins: Cmd, c_bs: Cmd)
    requires
        cx.input.mode == InputMode::Normal,
        c_ins.name@ == "insert"@,
        c_bs.name@ == "backspace"@,
    ensures
        spec_route(cx, c_ins, Layer::Input) == Some(Invocation::Input(InputOp::Insert)),
        spec_step(cx, c_ins, Layer::Input).input.mode == InputMode::Insert,
        spec_route(cx, c_bs, Layer::Input) is None,
        spec_route(spec_step(cx, c_ins, Layer::Input), c_bs, Layer::Input) == Some(
            Invocation::Input(InputOp::Backspace),
        ),
{
    lemma_name_fingerprints();
}

/// Law: the one documented argument-routed name. Under the text-input
/// layer, `complete` goes to the completion popup exactly when its
/// `trigger` flag reads true, and to the input layer's own completion
/// handler otherwise; an omitted flag reads false, so it is pinned to
/// the input layer's handler.
pub proof fn lemma_complete_routes_on_trigger(cx: Ctx, c: Cmd)
    requires
        c.name@ == "complete"@,
    ensures
        spec_route(cx, c, Layer::Input) == if spec_flag(c.named@, "trigger"@) {
            Some(Invocation::Completion(CmpOp::Trigger))
        } else {
            Some(Invocation::Input(InputOp::Complete))
        },
        lookup(c.named@, "trigger"@) is None ==> spec_route(cx, c, Layer::Input) == Some(
            Invocation::Input(InputOp::Complete),
        ),
{
    lemma_name_fingerprints();
}

/// Law: the help round trip. With the overlay hidden, `help` dispatched
/// under any of the layers that recognize it shows the overlay
/// recording that layer as its origin; a subsequent `close` dispatched
/// under the help layer hides the overlay and reports that same origin
/// as the layer focus returns to.
pub proof fn lemma_help_round_trip(cx: Ctx, c_help: Cmd, c_close: Cmd, x: Layer)
    requires
        !cx.help.visible,
        c_help.name@ == "help"@,
        c_close.name@ == "close"@,
        x == Layer::Manager || x == Layer::Tasks || x == Layer::Pick || x == Layer::Completion
            || x == Layer::Help || (x == Layer::Input && cx.input.mode == InputMode::Normal),
    ensures
        spec_route(cx, c_help, x) == Some(Invocation::HelpShow(x)),
        spec_step(cx, c_help, x).help.visible,
        spec_step(cx, c_help, x).help.origin == x,
        spec_route(spec_step(cx, c_help, x), c_close, Layer::Help) == Some(
            Invocation::HelpHide(x),
        ),
        !after_help_round_trip(cx, c_help, c_close, x).help.visible,
{
    lemma_name_fingerprints();
}

/// The state after the `help`/`close` round trip of
/// [`lemma_help_round_trip`], named so the law can speak about it.
pub open spec fn after_help_round_trip(cx: Ctx, c_help: Cmd, c_close: Cmd, x: Layer) -> Ctx {
    spec_step(spec_step(cx, c_help, x), c_close, Layer::Help)
}

/// Law: prefixed-sibling versus active-scoped addressing under the
/// file-manager layer. A `tab_`-prefixed name always routes to the
/// sibling tab strip, whatever tab is focused; a non-prefixed
/// active-scoped name routes to the tab focused at dispatch time, so it
/// re-resolves after every focus switch.
pub proof fn lemma_tab_addressing(cx1: Ctx, cx2: Ctx, c_pre: Cmd, c_act: Cmd)
    requires
        c_pre.name@ == "tab_create"@ || c_pre.name@ == "tab_close"@ || c_pre.name@
            == "tab_switch"@ || c_pre.name@ == "tab_swap"@,
        c_act.name@ == "arrow"@,
    ensures
        spec_route(cx1, c_pre, Layer::Manager) matches Some(i) && i is Tabs,
        spec_route(cx1, c_pre, Layer::Manager) == spec_route(cx2, c_pre, Layer::Manager),
        spec_route(cx1, c_act, Layer::Manager) == Some(
            Invocation::MgrTab(cx1.tabs.active, TabOp::Arrow),
        ),
        spec_route(cx2, c_act, Layer::Manager) == Some(
            Invocation::MgrTab(cx2.tabs.active, TabOp::Arrow),
        ),
{
    lemma_name_fingerprints();
}

/// Law: a single-threaded drain dispatches each enqueued command
/// exactly once, in the order the drain observes them; the second
/// command is routed against the state the first one left behind, so
/// handler effects on the router-visible state never interleave.
pub proof fn lemma_drain_of_two(cx: Ctx, a: (Cmd, Layer), b: (Cmd, Layer))
    ensures
        spec_run(cx, seq![a, b]).0 =~= seq![
            spec_route(cx, a.0, a.1),
            spec_route(spec_step(cx, a.0, a.1), b.0, b.1),
        ],
        spec_run(cx, seq![a, b]).1 == spec_step(spec_step(cx, a.0, a.1), b.0, b.1),
{
    let s = seq![a, b];
    let cx1 = spec_step(cx, a.0, a.1);
    let cx2 = spec_step(cx1, b.0, b.1);
    assert(s[0] == a);
    assert(s.drop_first() =~= seq![b]);
    assert(seq![b][0] == b);
    assert(seq![b].drop_first() =~= Seq::<(Cmd, Layer)>::empty());
    assert(spec_run(cx2, Seq::<(Cmd, Layer)>::empty()).0 =~= Seq::<Option<Invocation>>::empty());
    assert(spec_run(cx1, seq![b]).0 =~= seq![spec_route(cx1, b.0, b.1)]);
    assert(spec_run(cx1, seq![b]).1 == cx2);
    assert(spec_run(cx, s).0 =~= seq![spec_route(cx, a.0, a.1)] + spec_run(cx1, seq![b]).0);
}

} // verus!

