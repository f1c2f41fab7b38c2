//! Top-level tab state: the cyclic set of record-type views.

use vstd::prelude::*;

verus! {

/// A top-level tab, identifying which record type's views are active.
/// The variants form a fixed cyclic order walked by [`Mode::next`].
#[derive(Debug, Copy, Clone, PartialEq, Eq, Hash, Structural)]
pub enum Mode {
    Posts,
    Tags,
    Users,
}

impl Default for Mode {
    /// The tab shown at startup.
    fn default() -> (m: Mode)
        ensures
            m == Mode::Posts,
    {
        Mode::Posts
    }
}

/// Error for an out-of-range tab index.
#[derive(Debug)]
pub struct InvalidValue;

impl Mode {
    /// Position of this tab in the tab bar.
    pub open spec fn index_spec(self) -> int {
        match self {
            Mode::Posts => 0,
            Mode::Tags => 1,
            Mode::Users => 2,
        }
    }

    /// Cyclic successor: the tab to the right, wrapping at the end.
    pub open spec fn next_spec(self) -> Mode {
        match self {
            Mode::Posts => Mode::Tags,
            Mode::Tags => Mode::Users,
            Mode::Users => Mode::Posts,
        }
    }

    /// The tab at position `value`, if `value` is in range.
    pub fn try_from(value: usize) -> (r: Result<Mode, InvalidValue>)
        ensures
            match r {
                Ok(m) => value < 3 && m.index_spec() == value,
                Err(_) => value >= 3,
            },
    {
        match value {
            0 => Ok(Mode::Posts),
            1 => Ok(Mode::Tags),
            2 => Ok(Mode::Users),
            _ => Err(InvalidValue),
        }
    }

    /// Position of this tab in the tab bar.
    pub fn index(&self) -> (i: usize)
        ensures
            i == self.index_spec(),
            i < 3,
    {
        match *self {
            Mode::Posts => 0,
            Mode::Tags => 1,
            Mode::Users => 2,
        }
    }

    /// Cyclic successor of this tab.  There is no terminal tab.
    pub fn next(&self) -> (r: Mode)
        ensures
            r == self.next_spec(),
    {
        match *self {
            Mode::Posts => Mode::Tags,
            Mode::Tags => Mode::Users,
            Mode::Users => Mode::Posts,
        }
    }
}

/// Cyclic closure: walking `next` once per tab returns to the start,
/// so the tab order has no terminal state.
pub proof fn lemma_mode_next_cycles(m: Mode)
    ensures
        m.next_spec().next_spec().next_spec() == m,
{
}

/// Sub-state of a record view: showing the list, editing an existing
/// record, or composing a new one.
#[derive(Debug, Copy, Clone, PartialEq, Eq, Structural)]
pub enum CrudMode {
    List,
    Edit,
    New,
}

impl Default for CrudMode {
    /// A record view starts out showing the list.
    fn default() -> (m: CrudMode)
        ensures
            m == CrudMode::List,
    {
        CrudMode::List
    }
}

} // verus!
