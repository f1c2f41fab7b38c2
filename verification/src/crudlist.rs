//! The generic list-view state machine: selection cursor, refresh,
//! delete-by-selection, and hand-off to the paired edit form.

use vstd::prelude::*;

use crate::action::{Action, ActionV};
use crate::entity::Entity;
use crate::mode::Mode;
use crate::store::{has_id, AppError, Record, Store};

verus! {

/// The list-side data abstraction: a snapshot of an entity collection
/// with a fixed header and column layout.
#[derive(Debug)]
pub struct CrudData {
    pub entity: Entity,
    pub rows: Vec<Record>,
}

impl CrudData {
    /// Every snapshot row has one cell per column of the record type.
    pub open spec fn wf(self) -> bool {
        forall|i: int|
            0 <= i < self.rows@.len() ==> (#[trigger] self.rows@[i])@.fields.len()
                == self.entity.stored_field_count_spec()
    }

    /// An empty snapshot for one record type.
    pub fn new(entity: Entity) -> (r: CrudData)
        ensures
            r.wf(),
            r.entity == entity,
            r.rows@.len() == 0,
    {
        CrudData { entity, rows: Vec::new() }
    }

    /// Column headers of the list view.
    pub fn headers(&self) -> (r: Vec<String>)
        ensures
            r.deep_view() == self.entity.headers_spec(),
    {
        self.entity.headers()
    }

    /// Column width percentages of the list view.
    pub fn widths(&self) -> (r: Vec<u16>)
        ensures
            r@.len() == self.entity.stored_field_count_spec(),
    {
        self.entity.widths()
    }

    /// Number of rows in the snapshot.
    pub fn num_rows(&self) -> (n: usize)
        ensures
            n == self.rows@.len(),
    {
        self.rows.len()
    }

    /// The cell texts of the snapshot, row by row.
    pub fn rows_text(&self) -> (r: Vec<Vec<String>>)
        ensures
            r@.len() == self.rows@.len(),
            forall|i: int|
                0 <= i < r@.len() ==> (#[trigger] r@[i]).deep_view() == self.rows@[i]@.fields,
    {
        let mut out: Vec<Vec<String>> = Vec::new();
        let mut i: usize = 0;
        while i < self.rows.len()
            invariant
                i <= self.rows@.len(),
                out@.len() == i,
                forall|j: int|
                    0 <= j < i ==> (#[trigger] out@[j]).deep_view() == self.rows@[j]@.fields,
            decreases self.rows@.len() - i,
        {
            let cells = self.rows[i].fields.clone();
            proof {
                assert(cells.deep_view() =~= self.rows@[i as int].fields.deep_view());
            }
            out.push(cells);
            i = i + 1;
        }
        out
    }

    /// The stable id of the row at `idx`.
    pub fn to_db_id(&self, idx: usize) -> (r: i32)
        requires
            idx < self.rows@.len(),
        ensures
            r == self.rows@[idx as int]@.id,
    {
        self.rows[idx].id
    }

    /// Re-reads the snapshot from the collection.
    pub fn refresh(&mut self, store: &Store)
        requires
            store.wf(),
            store.width == old(self).entity.stored_field_count_spec(),
        ensures
            final(self).entity == old(self).entity,
            final(self).wf(),
            final(self).rows@.len() == store.records@.len(),
            forall|i: int|
                0 <= i < store.records@.len() ==> (#[trigger] final(self).rows@[i])@
                    == store.records@[i]@,
    {
        self.rows = store.list();
    }
}

/// The list-view component: the snapshot plus the selection cursor,
/// focus flag, and persistence wiring for one tab.
#[derive(Debug)]
pub struct CrudList {
    pub mode: Mode,
    pub focused: bool,
    pub db_wired: bool,
    pub data: CrudData,
    pub cursor: Option<usize>,
}

impl CrudList {
    /// The selection cursor always points into the snapshot.
    pub open spec fn wf(self) -> bool {
        &&& self.data.wf()
        &&& match self.cursor {
            Some(i) => i < self.data.rows@.len(),
            None => true,
        }
    }

    /// A list view for one tab, unfocused and not yet wired.
    pub fn new(data: CrudData, mode: Mode) -> (r: CrudList)
        requires
            data.wf(),
        ensures
            r.wf(),
            r == (CrudList { mode, focused: false, db_wired: false, data, cursor: None::<usize> }),
    {
        CrudList { mode, focused: false, db_wired: false, data, cursor: None }
    }

    /// Wires the shared persistence handle into this component.
    pub fn register_db_handler(&mut self)
        ensures
            *final(self) == (CrudList { db_wired: true, ..*old(self) }),
    {
        self.db_wired = true;
    }

    /// True while this component receives non-focus-changing commands.
    pub fn focused(&self) -> (r: bool)
        ensures
            r == self.focused,
    {
        self.focused
    }

    /// Cursor after a step down: one row further, clamped to the last row;
    /// selects the first row when nothing was selected and rows exist.
    pub open spec fn next_cursor_spec(self) -> Option<usize> {
        match self.cursor {
            Some(i) => if i + 1 < self.data.rows@.len() {
                Some((i + 1) as usize)
            } else {
                Some(i)
            },
            None => if self.data.rows@.len() > 0 {
                Some(0usize)
            } else {
                None
            },
        }
    }

    /// Cursor after a step up: one row back, clamped to the first row;
    /// selects the first row when nothing was selected and rows exist.
    pub open spec fn prev_cursor_spec(self) -> Option<usize> {
        match self.cursor {
            Some(i) => if i > 0 {
                Some((i - 1) as usize)
            } else {
                Some(0usize)
            },
            None => if self.data.rows@.len() > 0 {
                Some(0usize)
            } else {
                None
            },
        }
    }

    /// Moves the selection one row down, without wraparound.
    pub fn select_next(&mut self)
        requires
            old(self).wf(),
        ensures
            final(self).wf(),
            *final(self) == (CrudList { cursor: old(self).next_cursor_spec(), ..*old(self) }),
    {
        let n = self.data.num_rows();
        let i: usize = match self.cursor {
            Some(i) => if i + 1 < n {
                i + 1
            } else {
                i
            },
            None => {
                if n == 0 {
                    return ;
                }
                0
            },
        };
        self.cursor = Some(i);
    }

    /// Moves the selection one row up, without wraparound.
    pub fn select_prev(&mut self)
        requires
            old(self).wf(),
        ensures
            final(self).wf(),
            *final(self) == (CrudList { cursor: old(self).prev_cursor_spec(), ..*old(self) }),
    {
        let i: usize = match self.cursor {
            Some(i) => if i > 0 {
                i - 1
            } else {
                0
            },
            None => {
                if self.data.num_rows() == 0 {
                    return ;
                }
                0
            },
        };
        self.cursor = Some(i);
    }

    /// Re-reads the snapshot and selects the first row if any exist,
    /// as on every focus-in.
    pub fn populate_table(&mut self, store: &Store)
        requires
            old(self).wf(),
            store.wf(),
            store.width == old(self).data.entity.stored_field_count_spec(),
        ensures
            final(self).wf(),
            final(self).mode == old(self).mode,
            final(self).focused == old(self).focused,
            final(self).db_wired == old(self).db_wired,
            final(self).data.entity == old(self).data.entity,
            final(self).data.rows@.len() == store.records@.len(),
            forall|i: int|
                0 <= i < store.records@.len() ==> (#[trigger] final(self).data.rows@[i])@
                    == store.records@[i]@,
            final(self).cursor == if store.records@.len() > 0 {
                Some(0usize)
            } else {
                None::<usize>
            },
    {
        self.data.refresh(store);
        if self.data.num_rows() > 0 {
            self.cursor = Some(0);
        } else {
            self.cursor = None;
        }
    }

    /// The full transition relation of one dispatched command, relating
    /// the component and collection before and after the call to the
    /// emitted follow-up command or surfaced failure.
    pub open spec fn update_spec(
        pre: CrudList,
        pre_s: Store,
        a: ActionV,
        post: CrudList,
        post_s: Store,
        r: Result<Option<ActionV>, AppError>,
    ) -> bool {
        match a {
            ActionV::TabChange(m) => if m == pre.mode {
                if pre.db_wired {
                    &&& post_s == pre_s
                    &&& post.mode == pre.mode
                    &&& post.focused
                    &&& post.db_wired == pre.db_wired
                    &&& post.data.entity == pre.data.entity
                    &&& post.data.rows@.len() == pre_s.records@.len()
                    &&& (forall|i: int|
                        0 <= i < pre_s.records@.len() ==> (#[trigger] post.data.rows@[i])@
                            == pre_s.records@[i]@)
                    &&& post.cursor == if pre_s.records@.len() > 0 {
                        Some(0usize)
                    } else {
                        None::<usize>
                    }
                    &&& r == Ok::<Option<ActionV>, AppError>(Some(ActionV::Render))
                } else {
                    &&& post_s == pre_s
                    &&& post == (CrudList { focused: true, ..pre })
                    &&& r == Err::<Option<ActionV>, AppError>(AppError::NotConnected)
                }
            } else {
                &&& post_s == pre_s
                &&& post == (CrudList { focused: false, ..pre })
                &&& r == Ok::<Option<ActionV>, AppError>(None)
            },
            ActionV::Delete => match pre.cursor {
                Some(idx) => if pre.db_wired {
                    let id = pre.data.rows@[idx as int]@.id;
                    &&& post_s.width == pre_s.width
                    &&& post_s.next_id == pre_s.next_id
                    &&& !has_id(post_s.records@, id)
                    &&& (has_id(pre_s.records@, id) ==> exists|i: int|
                        0 <= i < pre_s.records@.len() && (#[trigger] pre_s.records@[i])@.id == id
                            && post_s.records@ == pre_s.records@.remove(i))
                    &&& (!has_id(pre_s.records@, id) ==> post_s.records@ == pre_s.records@)
                    &&& post.mode == pre.mode
                    &&& post.focused == pre.focused
                    &&& post.db_wired == pre.db_wired
                    &&& post.data.entity == pre.data.entity
                    &&& post.data.rows@.len() == post_s.records@.len()
                    &&& (forall|i: int|
                        0 <= i < post_s.records@.len() ==> (#[trigger] post.data.rows@[i])@
                            == post_s.records@[i]@)
                    &&& post.cursor == if post_s.records@.len() == 0 {
                        None::<usize>
                    } else if idx < post_s.records@.len() {
                        Some(idx)
                    } else {
                        Some((post_s.records@.len() - 1) as usize)
                    }
                    &&& r == Ok::<Option<ActionV>, AppError>(Some(ActionV::Render))
                } else {
                    &&& post_s == pre_s
                    &&& post == pre
                    &&& r == Err::<Option<ActionV>, AppError>(AppError::NotConnected)
                },
                None => {
                    &&& post_s == pre_s
                    &&& post == pre
                    &&& r == Ok::<Option<ActionV>, AppError>(Some(ActionV::Render))
                },
            },
            ActionV::New => {
                &&& post_s == pre_s
                &&& post == (CrudList { focused: false, ..pre })
                &&& r == Ok::<Option<ActionV>, AppError>(Some(ActionV::CrudNew(pre.mode)))
            },
            ActionV::Edit => match pre.cursor {
                Some(idx) => {
                    &&& post_s == pre_s
                    &&& post == (CrudList { focused: false, ..pre })
                    &&& r == Ok::<Option<ActionV>, AppError>(
                        Some(ActionV::CrudEdit(pre.mode, pre.data.rows@[idx as int]@.id)),
                    )
                },
                None => {
                    &&& post_s == pre_s
                    &&& post == pre
                    &&& r == Ok::<Option<ActionV>, AppError>(None)
                },
            },
            ActionV::Up => {
                &&& post_s == pre_s
                &&& post == (CrudList { cursor: pre.prev_cursor_spec(), ..pre })
                &&& r == Ok::<Option<ActionV>, AppError>(Some(ActionV::Render))
            },
            ActionV::Down => {
                &&& post_s == pre_s
                &&& post == (CrudList { cursor: pre.next_cursor_spec(), ..pre })
                &&& r == Ok::<Option<ActionV>, AppError>(Some(ActionV::Render))
            },
            _ => {
                &&& post_s == pre_s
                &&& post == pre
                &&& r == Ok::<Option<ActionV>, AppError>(None)
            },
        }
    }

    /// Dispatches one command to this component, mutating the component
    /// and its collection exactly as [`CrudList::update_spec`] states.
    /// Every emitted follow-up ranks strictly below the command, and
    /// failures only arise from commands that rank at least one.
    pub fn update(&mut self, a: &Action, store: &mut Store) -> (r: Result<Option<Action>, AppError>)
        requires
            old(self).wf(),
            old(store).wf(),
            old(store).width == old(self).data.entity.stored_field_count_spec(),
        ensures
            final(self).wf(),
            final(store).wf(),
            final(store).width == old(store).width,
            CrudList::update_spec(*old(self), *old(store), a@, *final(self), *final(store), match r {
                Ok(Some(f)) => Ok(Some(f@)),
                Ok(None) => Ok(None),
                Err(e) => Err(e),
            }),
            match r {
                Ok(Some(f)) => f@.rank() < a@.rank(),
                Ok(None) => true,
                Err(_) => a@.rank() >= 1,
            },
    {
        match a {
            Action::TabChange(newmode) => {
                self.focused = *newmode == self.mode;
                if self.focused {
                    if !self.db_wired {
                        return Err(AppError::NotConnected);
                    }
                    self.populate_table(store);
                    return Ok(Some(Action::Render));
                }
                Ok(None)
            },
            Action::Delete => {
                match self.cursor {
                    Some(idx) => {
                        if !self.db_wired {
                            return Err(AppError::NotConnected);
                        }
                        let id = self.data.to_db_id(idx);
                        store.delete(id);
                        self.data.refresh(store);
                        let n = self.data.num_rows();
                        if n == 0 {
                            self.cursor = None;
                        } else if idx < n {
                            self.cursor = Some(idx);
                        } else {
                            self.cursor = Some(n - 1);
                        }
                        Ok(Some(Action::Render))
                    },
                    None => Ok(Some(Action::Render)),
                }
            },
            Action::New => {
                self.focused = false;
                Ok(Some(Action::CrudNew(self.mode)))
            },
            Action::Edit => {
                match self.cursor {
                    Some(idx) => {
                        self.focused = false;
                        Ok(Some(Action::CrudEdit(self.mode, self.data.to_db_id(idx))))
                    },
                    None => Ok(None),
                }
            },
            Action::Up => {
                self.select_prev();
                Ok(Some(Action::Render))
            },
            Action::Down => {
                self.select_next();
                Ok(Some(Action::Render))
            },
            _ => Ok(None),
        }
    }
}

} // verus!
