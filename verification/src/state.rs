use vstd::prelude::*;
use crate::invoke::Invocation;
use crate::layer::Layer;

verus! {

/// The text-input layer's secondary state. Only this layer has a mode;
/// it restricts which command names the mode-specific set recognizes.
#[derive(Debug, Clone, Copy, PartialEq, Eq, Structural)]
pub enum InputMode {
    Normal,
    Insert,
}

/// The text-input layer's own state. The mode is owned and mutated
/// exclusively by this layer's handlers; the router only reads it.
#[derive(Debug, Clone, Copy, PartialEq, Eq, Structural)]
pub struct Input {
    pub mode: InputMode,
}

impl Input {
    /// The handler of the `insert` command: enter Insert mode.
    pub fn insert(&mut self)
        ensures
            final(self).mode == InputMode::Insert,
    {
        self.mode = InputMode::Insert;
    }

    /// The handler of the `escape` command: return to Normal mode.
    pub fn escape(&mut self)
        ensures
            final(self).mode == InputMode::Normal,
    {
        self.mode = InputMode::Normal;
    }
}

/// The help overlay's state: whether it is shown, and which layer it was
/// opened from. The recorded origin is what focus returns to when the
/// overlay closes.
#[derive(Debug, Clone, Copy, PartialEq, Eq, Structural)]
pub struct Help {
    pub visible: bool,
    pub origin: Layer,
}

impl Help {
    /// The handler behind every `help` fallback and the help layer's own
    /// `close`: show the overlay remembering the originating layer, or
    /// hide it again. Closing reports the remembered origin so the
    /// caller can restore focus there.
    pub fn toggle(&mut self, layer: Layer) -> (r: Invocation)
        ensures
            old(self).visible ==> {
                &&& r == Invocation::HelpHide(old(self).origin)
                &&& !final(self).visible
                &&& final(self).origin == old(self).origin
            },
            !old(self).visible ==> {
                &&& r == Invocation::HelpShow(layer)
                &&& final(self).visible
                &&& final(self).origin == layer
            },
    {
        if self.visible {
            self.visible = false;
            Invocation::HelpHide(self.origin)
        } else {
            self.visible = true;
            self.origin = layer;
            Invocation::HelpShow(layer)
        }
    }
}

/// The file-manager's tab strip: which tab currently has focus. The
/// active index is re-read on every dispatch, never cached, so a command
/// issued right after a focus switch observes the new tab.
#[derive(Debug, Clone, Copy, PartialEq, Eq, Structural)]
pub struct Tabs {
    pub active: usize,
}

impl Tabs {
    /// Record an externally performed focus switch to another tab.
    pub fn set_active(&mut self, idx: usize)
        ensures
            final(self).active == idx,
    {
        self.active = idx;
    }
}

/// The long-lived state the router reads while selecting a destination:
/// the input layer's mode, the help overlay's visibility and origin, and
/// the focused tab of the file-manager.
#[derive(Debug, Clone, Copy, PartialEq, Eq, Structural)]
pub struct Ctx {
    pub input: Input,
    pub help: Help,
    pub tabs: Tabs,
}

impl Ctx {
    /// A fresh context: Normal mode, help hidden, first tab focused.
    pub fn new() -> (r: Ctx)
        ensures
            r == Ctx::new_spec(),
    {
        Ctx {
            input: Input { mode: InputMode::Normal },
            help: Help { visible: false, origin: Layer::App },
            tabs: Tabs { active: 0 },
        }
    }
}

/// The application root the executor borrows its context from.
#[derive(Debug, Clone, Copy, PartialEq, Eq, Structural)]
pub struct App {
    pub cx: Ctx,
}

impl App {
    /// An application whose context starts fresh.
    pub fn new() -> (r: App)
        ensures
            r.cx == Ctx::new_spec(),
    {
        App { cx: Ctx::new() }
    }
}

impl Ctx {
    /// What [`Ctx::new`] returns, for use in contracts.
    pub open spec fn new_spec() -> Ctx {
        Ctx {
            input: Input { mode: InputMode::Normal },
            help: Help { visible: false, origin: Layer::App },
            tabs: Tabs { active: 0 },
        }
    }
}

} // verus!
