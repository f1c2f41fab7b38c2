//! Semantic commands flowing through the dispatch loop.

use vstd::prelude::*;

use crate::mode::Mode;

verus! {

/// A semantic command.  Exactly one variant is active per instance;
/// equality is structural.  Variants carry their payload directly:
/// a target tab, a record id, a terminal size, or an error message.
#[derive(Debug, PartialEq, Eq)]
pub enum Action {
    Tick,
    Render,
    Resize(u16, u16),
    TabChange(Mode),
    CrudEdit(Mode, i32),
    CrudNew(Mode),
    Edit,
    New,
    NextTab,
    Delete,
    Save,
    Down,
    Up,
    Select,
    Tab,
    Suspend,
    Resume,
    Quit,
    Refresh,
    Error(String),
    Back,
    Help,
}

/// Mathematical value of an [`Action`]: the same shape with numeric
/// payloads widened to `int` and the error message abstracted to its
/// character sequence.
pub ghost enum ActionV {
    Tick,
    Render,
    Resize(int, int),
    TabChange(Mode),
    CrudEdit(Mode, int),
    CrudNew(Mode),
    Edit,
    New,
    NextTab,
    Delete,
    Save,
    Down,
    Up,
    Select,
    Tab,
    Suspend,
    Resume,
    Quit,
    Refresh,
    Error(Seq<char>),
    Back,
    Help,
}

impl View for Action {
    type V = ActionV;

    open spec fn view(&self) -> ActionV {
        match self {
            Action::Tick => ActionV::Tick,
            Action::Render => ActionV::Render,
            Action::Resize(w, h) => ActionV::Resize(*w as int, *h as int),
            Action::TabChange(m) => ActionV::TabChange(*m),
            Action::CrudEdit(m, id) => ActionV::CrudEdit(*m, *id as int),
            Action::CrudNew(m) => ActionV::CrudNew(*m),
            Action::Edit => ActionV::Edit,
            Action::New => ActionV::New,
            Action::NextTab => ActionV::NextTab,
            Action::Delete => ActionV::Delete,
            Action::Save => ActionV::Save,
            Action::Down => ActionV::Down,
            Action::Up => ActionV::Up,
            Action::Select => ActionV::Select,
            Action::Tab => ActionV::Tab,
            Action::Suspend => ActionV::Suspend,
            Action::Resume => ActionV::Resume,
            Action::Quit => ActionV::Quit,
            Action::Refresh => ActionV::Refresh,
            Action::Error(msg) => ActionV::Error(msg@),
            Action::Back => ActionV::Back,
            Action::Help => ActionV::Help,
        }
    }
}

impl ActionV {
    /// The focus-changing commands: the ones a component may receive
    /// while unfocused, because they are what will focus it.
    pub open spec fn is_focus_changed_spec(self) -> bool {
        match self {
            ActionV::TabChange(_) => true,
            ActionV::CrudEdit(_, _) => true,
            ActionV::CrudNew(_) => true,
            _ => false,
        }
    }

    /// The tab a focus-changing command targets.
    pub open spec fn target_mode(self) -> Mode
        recommends
            self.is_focus_changed_spec(),
    {
        match self {
            ActionV::TabChange(m) => m,
            ActionV::CrudEdit(m, _) => m,
            ActionV::CrudNew(m) => m,
            _ => Mode::Posts,
        }
    }

    /// How many rounds of follow-up commands a command can still set off.
    /// Every follow-up emitted while dispatching a command has a strictly
    /// smaller rank, which bounds the cascade and makes draining the
    /// queue terminate.
    pub open spec fn rank(self) -> nat {
        match self {
            ActionV::NextTab => 2,
            ActionV::New => 2,
            ActionV::Edit => 2,
            ActionV::Save => 2,
            ActionV::Back => 2,
            ActionV::TabChange(_) => 1,
            ActionV::CrudEdit(_, _) => 1,
            ActionV::CrudNew(_) => 1,
            ActionV::Delete => 1,
            ActionV::Up => 1,
            ActionV::Down => 1,
            _ => 0,
        }
    }

    /// The commands consumed at the loop level alone: no component has a
    /// transition for them, so dispatching one leaves every component and
    /// the backing database untouched.
    pub open spec fn is_loop_only(self) -> bool {
        match self {
            ActionV::TabChange(_) => false,
            ActionV::CrudEdit(_, _) => false,
            ActionV::CrudNew(_) => false,
            ActionV::Edit => false,
            ActionV::New => false,
            ActionV::Delete => false,
            ActionV::Save => false,
            ActionV::Back => false,
            ActionV::Tab => false,
            ActionV::Up => false,
            ActionV::Down => false,
            _ => true,
        }
    }
}

impl Action {
    /// True only for `TabChange`, `CrudEdit` and `CrudNew`: the commands
    /// that may reach a component which does not yet hold focus.
    pub fn is_focus_changed(&self) -> (r: bool)
        ensures
            r == self@.is_focus_changed_spec(),
    {
        match self {
            Action::TabChange(_) => true,
            Action::CrudEdit(_, _) => true,
            Action::CrudNew(_) => true,
            _ => false,
        }
    }
}

impl ActionV {
    /// Display name of the command, as shown in the keybinding legend:
    /// the bare variant name, payload left out.
    pub open spec fn label_spec(self) -> Seq<char> {
        match self {
            ActionV::Tick => "Tick"@,
            ActionV::Render => "Render"@,
            ActionV::Resize(_, _) => "Resize"@,
            ActionV::TabChange(_) => "TabChange"@,
            ActionV::CrudEdit(_, _) => "CrudEdit"@,
            ActionV::CrudNew(_) => "CrudNew"@,
            ActionV::Edit => "Edit"@,
            ActionV::New => "New"@,
            ActionV::NextTab => "NextTab"@,
            ActionV::Delete => "Delete"@,
            ActionV::Save => "Save"@,
            ActionV::Down => "Down"@,
            ActionV::Up => "Up"@,
            ActionV::Select => "Select"@,
            ActionV::Tab => "Tab"@,
            ActionV::Suspend => "Suspend"@,
            ActionV::Resume => "Resume"@,
            ActionV::Quit => "Quit"@,
            ActionV::Refresh => "Refresh"@,
            ActionV::Error(_) => "Error"@,
            ActionV::Back => "Back"@,
            ActionV::Help => "Help"@,
        }
    }
}

impl Action {
    /// Display name of the command, as shown in the keybinding legend.
    pub fn label(&self) -> (r: String)
        ensures
            r@ == self@.label_spec(),
    {
        match self {
            Action::Tick => String::from_str("Tick"),
            Action::Render => String::from_str("Render"),
            Action::Resize(_, _) => String::from_str("Resize"),
            Action::TabChange(_) => String::from_str("TabChange"),
            Action::CrudEdit(_, _) => String::from_str("CrudEdit"),
            Action::CrudNew(_) => String::from_str("CrudNew"),
            Action::Edit => String::from_str("Edit"),
            Action::New => String::from_str("New"),
            Action::NextTab => String::from_str("NextTab"),
            Action::Delete => String::from_str("Delete"),
            Action::Save => String::from_str("Save"),
            Action::Down => String::from_str("Down"),
            Action::Up => String::from_str("Up"),
            Action::Select => String::from_str("Select"),
            Action::Tab => String::from_str("Tab"),
            Action::Suspend => String::from_str("Suspend"),
            Action::Resume => String::from_str("Resume"),
            Action::Quit => String::from_str("Quit"),
            Action::Refresh => String::from_str("Refresh"),
            Action::Error(_) => String::from_str("Error"),
            Action::Back => String::from_str("Back"),
            Action::Help => String::from_str("Help"),
        }
    }
}

impl Clone for Action {
    /// A clone carries the same mathematical value.
    fn clone(&self) -> (r: Self)
        ensures
            r@ == self@,
    {
        match self {
            Action::Tick => Action::Tick,
            Action::Render => Action::Render,
            Action::Resize(w, h) => Action::Resize(*w, *h),
            Action::TabChange(m) => Action::TabChange(*m),
            Action::CrudEdit(m, id) => Action::CrudEdit(*m, *id),
            Action::CrudNew(m) => Action::CrudNew(*m),
            Action::Edit => Action::Edit,
            Action::New => Action::New,
            Action::NextTab => Action::NextTab,
            Action::Delete => Action::Delete,
            Action::Save => Action::Save,
            Action::Down => Action::Down,
            Action::Up => Action::Up,
            Action::Select => Action::Select,
            Action::Tab => Action::Tab,
            Action::Suspend => Action::Suspend,
            Action::Resume => Action::Resume,
            Action::Quit => Action::Quit,
            Action::Refresh => Action::Refresh,
            Action::Error(msg) => Action::Error(msg.clone()),
            Action::Back => Action::Back,
            Action::Help => Action::Help,
        }
    }
}

} // verus!
