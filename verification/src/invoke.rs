use vstd::prelude::*;
use crate::layer::Layer;

verus! {

/// Handlers of the base application singleton.
#[derive(Debug, Clone, Copy, PartialEq, Eq, Structural)]
pub enum AppOp {
    AcceptPayload,
    Notify,
    Plugin,
    PluginDo,
    UpdateNotify,
    UpdateProgress,
    Resize,
    Stop,
    Resume,
}

/// Handlers of the file-manager singleton.
#[derive(Debug, Clone, Copy, PartialEq, Eq, Structural)]
pub enum MgrOp {
    UpdateTasks,
    UpdateFiles,
    UpdateMimes,
    UpdatePaged,
    UpdateYanked,
    Hover,
    Peek,
    Seek,
    Refresh,
    Quit,
    Close,
    Suspend,
    Open,
    OpenDo,
    Yank,
    Unyank,
    Paste,
    Link,
    Hardlink,
    Remove,
    RemoveDo,
    Create,
    Rename,
}

/// Handlers of the file-manager's currently focused tab, re-resolved on
/// every dispatch.
#[derive(Debug, Clone, Copy, PartialEq, Eq, Structural)]
pub enum TabOp {
    Spot,
    Escape,
    UpdatePeeked,
    UpdateSpotted,
    Arrow,
    Leave,
    Enter,
    Back,
    Forward,
    Cd,
    Reveal,
    Toggle,
    ToggleAll,
    VisualMode,
    Select,
    SelectAll,
    Copy,
    Shell,
    Hidden,
    Linemode,
    Search,
    SearchDo,
    Filter,
    FilterDo,
    Find,
    FindDo,
    FindArrow,
    Sort,
}

/// Handlers of the sibling tab-strip subsystem, reached through the
/// fixed `tab_` name prefix, which arrives here already stripped.
#[derive(Debug, Clone, Copy, PartialEq, Eq, Structural)]
pub enum TabsOp {
    Create,
    Close,
    Switch,
    Swap,
}

/// Handlers of the background-tasks panel.
#[derive(Debug, Clone, Copy, PartialEq, Eq, Structural)]
pub enum TasksOp {
    Toggle,
    Arrow,
    Inspect,
    Cancel,
    OpenWith,
    ProcessExec,
}

/// Handlers of the picker overlay.
#[derive(Debug, Clone, Copy, PartialEq, Eq, Structural)]
pub enum PickOp {
    Show,
    Close,
    Arrow,
}

/// Handlers of the text-input layer.
#[derive(Debug, Clone, Copy, PartialEq, Eq, Structural)]
pub enum InputOp {
    Show,
    Close,
    Escape,
    Move,
    Backward,
    Forward,
    Complete,
    Insert,
    Visual,
    Delete,
    Yank,
    Paste,
    Undo,
    Redo,
    Backspace,
    Kill,
}

/// Handlers of the confirm dialog. `Arrow` additionally receives a
/// reference to the file-manager collaborator.
#[derive(Debug, Clone, Copy, PartialEq, Eq, Structural)]
pub enum ConfirmOp {
    Arrow,
    Show,
    Close,
}

/// Handlers of the help overlay other than its toggle.
#[derive(Debug, Clone, Copy, PartialEq, Eq, Structural)]
pub enum HelpOp {
    Escape,
    Arrow,
    Filter,
}

/// Handlers of the completion popup.
#[derive(Debug, Clone, Copy, PartialEq, Eq, Structural)]
pub enum CmpOp {
    Trigger,
    Show,
    Close,
    Arrow,
}

/// Handlers of the key-hint overlay.
#[derive(Debug, Clone, Copy, PartialEq, Eq, Structural)]
pub enum WhichOp {
    Show,
    Callback,
}

/// The single destination a dispatch selected: exactly one handler of
/// exactly one subsystem. `MgrTab` carries the tab index that was
/// focused at dispatch time. `HelpShow` records the originating layer;
/// `HelpHide` carries the layer focus returns to. `App(AppOp::Plugin)`
/// also stands for the universal `plugin` fallback, which forwards the
/// command unchanged to the plugin-invocation collaborator.
#[derive(Debug, Clone, Copy, PartialEq, Eq, Structural)]
pub enum Invocation {
    App(AppOp),
    Mgr(MgrOp),
    MgrTab(usize, TabOp),
    Tabs(TabsOp),
    Tasks(TasksOp),
    Pick(PickOp),
    Input(InputOp),
    Confirm(ConfirmOp),
    Help(HelpOp),
    HelpShow(Layer),
    HelpHide(Layer),
    Completion(CmpOp),
    Which(WhichOp),
}

impl MgrOp {
    /// Whether this handler additionally receives a handle to the
    /// background task engine, as the operations that queue file work
    /// do.
    pub open spec fn spec_wants_tasks(self) -> bool {
        match self {
            MgrOp::UpdateFiles => true,
            MgrOp::UpdateMimes => true,
            MgrOp::UpdatePaged => true,
            MgrOp::Refresh => true,
            MgrOp::Quit => true,
            MgrOp::Close => true,
            MgrOp::Open => true,
            MgrOp::OpenDo => true,
            MgrOp::Paste => true,
            MgrOp::Link => true,
            MgrOp::Hardlink => true,
            MgrOp::Remove => true,
            MgrOp::RemoveDo => true,
            _ => false,
        }
    }

    /// Executable twin of [`MgrOp::spec_wants_tasks`].
    pub fn wants_tasks(&self) -> (r: bool)
        ensures
            r == self.spec_wants_tasks(),
    {
        match self {
            MgrOp::UpdateFiles => true,
            MgrOp::UpdateMimes => true,
            MgrOp::UpdatePaged => true,
            MgrOp::Refresh => true,
            MgrOp::Quit => true,
            MgrOp::Close => true,
            MgrOp::Open => true,
            MgrOp::OpenDo => true,
            MgrOp::Paste => true,
            MgrOp::Link => true,
            MgrOp::Hardlink => true,
            MgrOp::Remove => true,
            MgrOp::RemoveDo => true,
            _ => false,
        }
    }
}

impl TabOp {
    /// Whether this active-tab handler additionally receives a handle to
    /// the background task engine; only sorting does.
    pub open spec fn spec_wants_tasks(self) -> bool {
        self == TabOp::Sort
    }

    /// Executable twin of [`TabOp::spec_wants_tasks`].
    pub fn wants_tasks(&self) -> (r: bool)
        ensures
            r == self.spec_wants_tasks(),
    {
        match self {
            TabOp::Sort => true,
            _ => false,
        }
    }
}

} // verus!
