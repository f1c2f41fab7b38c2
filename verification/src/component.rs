//! The visual components and the closed registry they form.

use vstd::prelude::*;

use crate::action::{Action, ActionV};
use crate::crudedit::CrudEdit;
use crate::crudlist::CrudList;
use crate::entity::Entity;
use crate::keys::{legend_spec, KeyTable};
use crate::mode::Mode;
use crate::store::{AppError, Db};

verus! {

/// The layout slot a component is drawn in.
#[derive(Debug, Copy, Clone, PartialEq, Eq, Structural)]
pub enum Area {
    Header,
    Main,
    Footer,
}

/// The tab indicator: highlights the active tab.
#[derive(Debug)]
pub struct TabBar {
    pub selected: usize,
}

impl TabBar {
    pub open spec fn wf(self) -> bool {
        self.selected < 3
    }

    /// A tab bar highlighting `curmode`.
    pub fn new(curmode: Mode) -> (r: TabBar)
        ensures
            r.wf(),
            r.selected == curmode.index_spec(),
    {
        TabBar { selected: curmode.index() }
    }

    /// A tab change moves the highlight to the tab it targets and asks
    /// for a redraw; every other command is ignored.
    pub fn update(&mut self, a: &Action) -> (r: Option<Action>)
        requires
            old(self).wf(),
        ensures
            final(self).wf(),
            match a@ {
                ActionV::TabChange(m) => final(self).selected == m.index_spec() && (r matches Some(f)
                    && f@ == ActionV::Render),
                _ => *final(self) == *old(self) && r is None,
            },
            match r {
                Some(f) => f@.rank() < a@.rank(),
                None => true,
            },
    {
        match a {
            Action::TabChange(newmode) => {
                self.selected = newmode.index();
                Some(Action::Render)
            },
            _ => None,
        }
    }
}

/// The keybinding legend: tracks the active tab and holds its own copy
/// of the keybinding table, wired in once at startup.
#[derive(Debug)]
pub struct Footer {
    pub mode: Mode,
    pub table: KeyTable,
}

impl Footer {
    /// A footer for the startup tab, with no bindings to show yet.
    pub fn new() -> (r: Footer)
        ensures
            r.mode == Mode::Posts,
            r.table@.len() == 0,
    {
        Footer { mode: Mode::Posts, table: KeyTable::new() }
    }

    /// Wires the loaded configuration into this component.
    pub fn register_config_handler(&mut self, table: KeyTable)
        ensures
            *final(self) == (Footer { table, ..*old(self) }),
    {
        self.table = table;
    }

    /// The legend text shown for the active tab: every binding scoped
    /// to it, each as "keys : action", joined by ", ".
    pub fn get_keybindings(&self) -> (r: String)
        ensures
            r@ == legend_spec(self.table@, self.mode),
    {
        self.table.legend(self.mode)
    }

    /// A tab change retargets the legend; every other command is ignored.
    pub fn update(&mut self, a: &Action) -> (r: Option<Action>)
        ensures
            match a@ {
                ActionV::TabChange(m) => *final(self) == (Footer { mode: m, ..*old(self) }),
                _ => *final(self) == *old(self),
            },
            r is None,
    {
        match a {
            Action::TabChange(newmode) => {
                self.mode = *newmode;
            },
            _ => {},
        }
        None
    }
}

/// One registered component: the closed set of visual behaviors the
/// dispatch loop drives through a uniform handle.
#[derive(Debug)]
pub enum Component {
    TabBar(TabBar),
    Footer(Footer),
    List(CrudList),
    Edit(CrudEdit),
}

impl Component {
    /// Well-formed, and each record view administers the record type of
    /// its own tab.
    pub open spec fn wf(self) -> bool {
        match self {
            Component::TabBar(c) => c.wf(),
            Component::Footer(_) => true,
            Component::List(c) => c.wf() && Entity::of_mode_spec(c.mode) == Some(c.data.entity),
            Component::Edit(c) => c.wf() && Entity::of_mode_spec(c.mode) == Some(c.data.entity),
        }
    }

    /// Whether this component currently receives non-focus-changing
    /// commands.  The tab bar and the footer are always shown and always
    /// listening; the record views hold focus one at a time.
    pub open spec fn focused_spec(self) -> bool {
        match self {
            Component::TabBar(_) => true,
            Component::Footer(_) => true,
            Component::List(c) => c.focused,
            Component::Edit(c) => c.focused,
        }
    }

    /// Whether this component currently reports itself focused.
    pub fn focused(&self) -> (r: bool)
        ensures
            r == self.focused_spec(),
    {
        match self {
            Component::TabBar(_) => true,
            Component::Footer(_) => true,
            Component::List(c) => c.focused(),
            Component::Edit(c) => c.focused(),
        }
    }

    /// The tab a record view administers; the tab bar and footer belong
    /// to no tab.
    pub open spec fn declared_mode(self) -> Option<Mode> {
        match self {
            Component::TabBar(_) => None,
            Component::Footer(_) => None,
            Component::List(c) => Some(c.mode),
            Component::Edit(c) => Some(c.mode),
        }
    }

    /// The layout slot this component is drawn in.
    pub fn component_type(&self) -> (r: Area)
        ensures
            r == match *self {
                Component::TabBar(_) => Area::Header,
                Component::Footer(_) => Area::Footer,
                Component::List(_) => Area::Main,
                Component::Edit(_) => Area::Main,
            },
    {
        match self {
            Component::TabBar(_) => Area::Header,
            Component::Footer(_) => Area::Footer,
            Component::List(_) => Area::Main,
            Component::Edit(_) => Area::Main,
        }
    }

    /// Wires the shared persistence handle into this component.
    pub fn register_db_handler(&mut self)
        ensures
            *final(self) == Component::wired(*old(self)),
    {
        match self {
            Component::TabBar(_) => {},
            Component::Footer(_) => {},
            Component::List(c) => c.register_db_handler(),
            Component::Edit(c) => c.register_db_handler(),
        }
    }

    /// This component with the persistence handle wired.
    pub open spec fn wired(c: Component) -> Component {
        match c {
            Component::TabBar(t) => Component::TabBar(t),
            Component::Footer(f) => Component::Footer(f),
            Component::List(l) => Component::List(CrudList { db_wired: true, ..l }),
            Component::Edit(e) => Component::Edit(CrudEdit { db_wired: true, ..e }),
        }
    }

    /// Target isolation: what dispatching `a` may do to a component
    /// whose declared tab is not the one a focus-changing command
    /// targets.  Its data never changes; of its state, only the focus
    /// flag of a list view can drop on a tab change away from its tab.
    pub open spec fn isolated(pre: Component, a: ActionV, post: Component) -> bool {
        match pre {
            Component::List(c) => post == Component::List(
                CrudList {
                    focused: c.focused && !(a matches ActionV::TabChange(_)),
                    ..c
                },
            ),
            _ => post == pre,
        }
    }


    /// What one focus-changing command makes a registry entry emit:
    /// the tab bar asks for a redraw on a tab change, a list view on the
    /// tab a change targets asks for a redraw once wired and surfaces a
    /// failure otherwise, an edit form opened by id without wiring
    /// surfaces a failure, and everything else stays silent.
    pub open spec fn focus_rv(pre: Component, a: ActionV) -> Result<Option<ActionV>, AppError>
        recommends
            a.is_focus_changed_spec(),
    {
        match pre {
            Component::TabBar(_) => if a matches ActionV::TabChange(_) {
                Ok(Some(ActionV::Render))
            } else {
                Ok(None)
            },
            Component::Footer(_) => Ok(None),
            Component::List(c) => if a matches ActionV::TabChange(m) && m == c.mode {
                if c.db_wired {
                    Ok(Some(ActionV::Render))
                } else {
                    Err(AppError::NotConnected)
                }
            } else {
                Ok(None)
            },
            Component::Edit(c) => if a matches ActionV::CrudEdit(m, _) && m == c.mode
                && !c.db_wired {
                Err(AppError::NotConnected)
            } else {
                Ok(None)
            },
        }
    }

    /// The step a focus-changing command makes one registry entry take.
    /// Such commands never touch the backing database, and what each
    /// entry emits is a function of the entry and the command, so the
    /// whole dispatch transition is pinned down.
    pub open spec fn focus_step_spec(pre: Component, db: Db, a: ActionV, post: Component) -> bool {
        Component::update_spec(pre, db, a, post, db, Component::focus_rv(pre, a))
    }

    /// The dispatch transition of the whole registry entry: each variant
    /// steps by its own transition relation, against the collection of
    /// its own tab, and every other collection is untouched.
    pub open spec fn update_spec(
        pre: Component,
        pre_db: Db,
        a: ActionV,
        post: Component,
        post_db: Db,
        r: Result<Option<ActionV>, AppError>,
    ) -> bool {
        match pre {
            Component::TabBar(c) => {
                &&& post_db == pre_db
                &&& post matches Component::TabBar(pc)
                &&& match a {
                    ActionV::TabChange(m) => (post matches Component::TabBar(pc) ==> pc.selected
                        == m.index_spec()) && r == Ok::<Option<ActionV>, AppError>(
                        Some(ActionV::Render),
                    ),
                    _ => post == pre && r == Ok::<Option<ActionV>, AppError>(None),
                }
            },
            Component::Footer(c) => {
                &&& post_db == pre_db
                &&& match a {
                    ActionV::TabChange(m) => post == Component::Footer(Footer { mode: m, ..c }),
                    _ => post == pre,
                }
                &&& r == Ok::<Option<ActionV>, AppError>(None)
            },
            Component::List(c) => {
                &&& post matches Component::List(pc) && CrudList::update_spec(
                    c,
                    pre_db.of(c.mode),
                    a,
                    pc,
                    post_db.of(c.mode),
                    r,
                )
                &&& (forall|m: Mode| m != c.mode ==> post_db.of(m) == pre_db.of(m))
            },
            Component::Edit(c) => {
                &&& post matches Component::Edit(pc) && CrudEdit::update_spec(
                    c,
                    pre_db.of(c.mode),
                    a,
                    pc,
                    post_db.of(c.mode),
                    r,
                )
                &&& (forall|m: Mode| m != c.mode ==> post_db.of(m) == pre_db.of(m))
            },
        }
    }

    /// Dispatches one command to this component against the backing
    /// database, exactly as [`Component::update_spec`] states.
    pub fn update(&mut self, a: &Action, db: &mut Db) -> (r: Result<Option<Action>, AppError>)
        requires
            old(self).wf(),
            old(db).wf(),
        ensures
            final(self).wf(),
            final(db).wf(),
            Component::update_spec(*old(self), *old(db), a@, *final(self), *final(db), match r {
                Ok(Some(f)) => Ok(Some(f@)),
                Ok(None) => Ok(None),
                Err(e) => Err(e),
            }),
            match r {
                Ok(Some(f)) => f@.rank() < a@.rank(),
                Ok(None) => true,
                Err(_) => a@.rank() >= 1,
            },
    {
        match self {
            Component::TabBar(c) => Ok(c.update(a)),
            Component::Footer(c) => Ok(c.update(a)),
            Component::List(c) => {
                let m = c.mode;
                match m {
                    Mode::Posts => c.update(a, &mut db.posts),
                    Mode::Tags => c.update(a, &mut db.tags),
                    Mode::Users => c.update(a, &mut db.users),
                }
            },
            Component::Edit(c) => {
                let m = c.mode;
                match m {
                    Mode::Posts => c.update(a, &mut db.posts),
                    Mode::Tags => c.update(a, &mut db.tags),
                    Mode::Users => c.update(a, &mut db.users),
                }
            },
        }
    }
}

} // verus!
