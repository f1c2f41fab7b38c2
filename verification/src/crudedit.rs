//! The generic form state machine: New/Edit sub-state, per-field text
//! buffers, focus cycling across fields, and save.

use vstd::prelude::*;

use crate::action::{Action, ActionV};
use crate::entity::Entity;
use crate::keys::{KeyCode, KeyPress};
use crate::mode::{CrudMode, Mode};
use crate::store::{has_id, AppError, RecordV, Store};
use crate::text::{pop_char, push_char};

verus! {

/// `n` empty text buffers.
pub open spec fn empty_fields(n: nat) -> Seq<Seq<char>> {
    Seq::new(n, |i: int| Seq::<char>::empty())
}

/// What a save attempt reported: the id the record was persisted under,
/// or a refusal that left both the form and the collection untouched.
#[derive(Debug, Copy, Clone, PartialEq, Eq, Structural)]
pub enum SaveOutcome {
    Saved(i32),
    Blocked,
}

/// The edit-side data abstraction: one in-progress record edit, with a
/// text buffer per form field and a pointer to the active field.
#[derive(Debug)]
pub struct CrudRow {
    pub entity: Entity,
    pub sub: CrudMode,
    pub row_id: Option<i32>,
    pub fields: Vec<String>,
    pub active: Option<usize>,
    pub loaded_credential: String,
}

impl CrudRow {
    /// One buffer per form field, the active pointer in range, and an
    /// originating record id whenever an existing record is being edited.
    pub open spec fn wf(self) -> bool {
        &&& self.fields@.len() == self.entity.form_field_count_spec()
        &&& match self.active {
            Some(i) => i < self.entity.form_field_count_spec(),
            None => true,
        }
        &&& (self.sub == CrudMode::Edit ==> self.row_id is Some)
    }

    /// The field values a save would persist as record columns.
    pub open spec fn stored_of(self) -> Seq<Seq<char>> {
        Seq::new(self.entity.stored_field_count_spec(), |j: int| self.fields@[j]@)
    }

    /// The credential a save would persist, for record types that carry
    /// one: the value of the first password field.
    pub open spec fn credential_of(self) -> Seq<char> {
        match self.entity.password_pair_spec() {
            Some(p) => self.fields@[p.0]@,
            None => Seq::<char>::empty(),
        }
    }

    /// True when the password confirmation pair disagrees, which makes a
    /// save a refusal.
    pub open spec fn password_blocked(self) -> bool {
        match self.entity.password_pair_spec() {
            Some(p) => self.fields@[p.0]@ != self.fields@[p.1]@,
            None => false,
        }
    }

    /// True when a save attempt would be refused outright: the form is
    /// not open, or the password confirmation pair disagrees.
    pub open spec fn save_blocked(self) -> bool {
        self.sub == CrudMode::List || self.password_blocked()
    }

    /// The form as it stands after being cleared: back at the list
    /// sub-state, with every buffer empty and no active field.
    pub open spec fn cleared_spec(self, post: CrudRow) -> bool {
        &&& post.entity == self.entity
        &&& post.sub == CrudMode::List
        &&& post.row_id is None
        &&& post.active is None
        &&& post.fields.deep_view() == empty_fields(self.entity.form_field_count_spec())
        &&& post.loaded_credential@ == Seq::<char>::empty()
    }

    /// The form as populated from record `rec` for editing under id `id`:
    /// the persisted columns fill the leading buffers, the rest (the
    /// password pair) start empty.
    pub open spec fn populated_spec(self, post: CrudRow, id: int, rec: crate::store::RecordV) -> bool {
        &&& post.entity == self.entity
        &&& post.sub == CrudMode::Edit
        &&& post.row_id == Some(id as i32)
        &&& post.active == Some(0usize)
        &&& post.fields.deep_view() == Seq::new(
            self.entity.form_field_count_spec(),
            |j: int|
                if j < self.entity.stored_field_count_spec() {
                    rec.fields[j]
                } else {
                    Seq::<char>::empty()
                },
        )
        &&& post.loaded_credential@ == rec.credential
    }

    /// One character appended to the active field's buffer; a no-op when
    /// no field is active.
    pub open spec fn input_spec(self, c: char, post: CrudRow) -> bool {
        match self.active {
            Some(i) => {
                &&& post.entity == self.entity
                &&& post.sub == self.sub
                &&& post.row_id == self.row_id
                &&& post.active == self.active
                &&& post.loaded_credential == self.loaded_credential
                &&& post.fields@.len() == self.fields@.len()
                &&& post.fields@[i as int]@ == self.fields@[i as int]@.push(c)
                &&& (forall|j: int|
                    0 <= j < self.fields@.len() && j != i ==> post.fields@[j] == self.fields@[j])
            },
            None => post == self,
        }
    }

    /// The last character removed from the active field's buffer; a no-op
    /// on an empty buffer or when no field is active.
    pub open spec fn delete_spec(self, post: CrudRow) -> bool {
        match self.active {
            Some(i) => {
                &&& post.entity == self.entity
                &&& post.sub == self.sub
                &&& post.row_id == self.row_id
                &&& post.active == self.active
                &&& post.loaded_credential == self.loaded_credential
                &&& post.fields@.len() == self.fields@.len()
                &&& post.fields@[i as int]@ == if self.fields@[i as int]@.len() > 0 {
                    self.fields@[i as int]@.drop_last()
                } else {
                    self.fields@[i as int]@
                }
                &&& (forall|j: int|
                    0 <= j < self.fields@.len() && j != i ==> post.fields@[j] == self.fields@[j])
            },
            None => post == self,
        }
    }

    /// An empty form for one record type, not yet open.
    pub fn empty(entity: Entity) -> (r: CrudRow)
        ensures
            r.wf(),
            r.entity == entity,
            r.sub == CrudMode::List,
            r.row_id is None,
            r.active is None,
            r.fields.deep_view() == empty_fields(entity.form_field_count_spec()),
            r.loaded_credential@ == Seq::<char>::empty(),
    {
        let n = entity.form_field_count();
        let mut fields: Vec<String> = Vec::new();
        let mut i: usize = 0;
        while i < n
            invariant
                i <= n,
                fields@.len() == i,
                forall|j: int| 0 <= j < i ==> (#[trigger] fields@[j])@ == Seq::<char>::empty(),
            decreases n - i,
        {
            fields.push(String::new());
            i = i + 1;
        }
        proof {
            assert(fields.deep_view() =~= empty_fields(entity.form_field_count_spec()));
        }
        CrudRow {
            entity,
            sub: CrudMode::List,
            row_id: None,
            fields,
            active: None,
            loaded_credential: String::new(),
        }
    }

    /// Clears the form: all buffers empty, list sub-state, nothing active.
    pub fn reset(&mut self)
        ensures
            final(self).wf(),
            old(self).cleared_spec(*final(self)),
    {
        let fresh = CrudRow::empty(self.entity);
        *self = fresh;
    }

    /// Starts composing a new record: every buffer cleared, sub-state
    /// `New`, the first field active.
    pub fn new(&mut self)
        ensures
            final(self).wf(),
            final(self).entity == old(self).entity,
            final(self).sub == CrudMode::New,
            final(self).row_id is None,
            final(self).active == Some(0usize),
            final(self).fields.deep_view() == empty_fields(
                old(self).entity.form_field_count_spec(),
            ),
            final(self).loaded_credential@ == Seq::<char>::empty(),
    {
        let mut fresh = CrudRow::empty(self.entity);
        fresh.sub = CrudMode::New;
        fresh.active = Some(0);
        *self = fresh;
    }

    /// Opens the record with id `idx` for editing, populating the form
    /// from the fetched record.  Returns whether the record was found;
    /// when it is not, the form is left exactly as it was.
    pub fn edit(&mut self, idx: i32, store: &Store) -> (found: bool)
        requires
            old(self).wf(),
            store.wf(),
            store.width == old(self).entity.stored_field_count_spec(),
        ensures
            final(self).wf(),
            found == has_id(store.records@, idx as int),
            !found ==> *final(self) == *old(self),
            found ==> exists|i: int|
                0 <= i < store.records@.len() && (#[trigger] store.records@[i])@.id == idx as int
                    && old(self).populated_spec(*final(self), idx as int, store.records@[i]@),
    {
        match store.get(idx) {
            Some(rec) => {
                let stored = self.entity.stored_field_count();
                let total = self.entity.form_field_count();
                let mut fields: Vec<String> = Vec::new();
                let mut j: usize = 0;
                while j < total
                    invariant
                        j <= total,
                        fields@.len() == j,
                        stored == self.entity.stored_field_count_spec(),
                        total == self.entity.form_field_count_spec(),
                        rec@.fields.len() == stored,
                        forall|k: int|
                            0 <= k < j ==> (#[trigger] fields@[k])@ == if k < stored {
                                rec@.fields[k]
                            } else {
                                Seq::<char>::empty()
                            },
                    decreases total - j,
                {
                    if j < stored {
                        fields.push(rec.fields[j].clone());
                    } else {
                        fields.push(String::new());
                    }
                    j = j + 1;
                }
                self.fields = fields;
                self.loaded_credential = rec.credential;
                self.sub = CrudMode::Edit;
                self.row_id = Some(idx);
                self.active = Some(0);
                proof {
                    let i = choose|i: int|
                        0 <= i < store.records@.len() && (#[trigger] store.records@[i])@ == rec@;
                    assert(self.fields.deep_view() =~= Seq::new(
                        self.entity.form_field_count_spec(),
                        |j: int|
                            if j < self.entity.stored_field_count_spec() {
                                store.records@[i]@.fields[j]
                            } else {
                                Seq::<char>::empty()
                            },
                    ));
                }
                true
            },
            None => false,
        }
    }

    /// Appends one character to the active field's buffer.
    pub fn input(&mut self, c: char)
        requires
            old(self).wf(),
        ensures
            final(self).wf(),
            old(self).input_spec(c, *final(self)),
    {
        match self.active {
            Some(i) => {
                let mut buf = String::new();
                self.fields.set_and_swap(i, &mut buf);
                push_char(&mut buf, c);
                self.fields.set_and_swap(i, &mut buf);
                proof {
                    assert(forall|j: int|
                        0 <= j < self.fields@.len() && j != i ==> self.fields@[j] == old(
                            self,
                        ).fields@[j]);
                }
            },
            None => {},
        }
    }

    /// Removes the last character of the active field's buffer; a no-op
    /// on an empty buffer.
    pub fn delete_last_char(&mut self)
        requires
            old(self).wf(),
        ensures
            final(self).wf(),
            old(self).delete_spec(*final(self)),
    {
        match self.active {
            Some(i) => {
                let mut buf = String::new();
                self.fields.set_and_swap(i, &mut buf);
                let _ = pop_char(&mut buf);
                self.fields.set_and_swap(i, &mut buf);
            },
            None => {},
        }
    }

    /// Advances the active-field pointer to the next field in cyclic
    /// order; a no-op when no field is active.
    pub fn focus_next_field(&mut self)
        requires
            old(self).wf(),
        ensures
            final(self).wf(),
            *final(self) == (CrudRow {
                active: match old(self).active {
                    Some(i) => Some(
                        (if i + 1 < old(self).entity.form_field_count_spec() {
                            (i + 1) as usize
                        } else {
                            0usize
                        }),
                    ),
                    None => None::<usize>,
                },
                ..*old(self)
            }),
    {
        match self.active {
            Some(i) => {
                let n = self.entity.form_field_count();
                let next: usize = if i + 1 < n {
                    i + 1
                } else {
                    0
                };
                self.active = Some(next);
            },
            None => {},
        }
    }

    /// True when the password confirmation pair disagrees.
    pub fn password_mismatch(&self) -> (r: bool)
        requires
            self.wf(),
        ensures
            r == self.password_blocked(),
    {
        match self.entity.password_pair() {
            Some(p) => !(self.fields[p.0] == self.fields[p.1]),
            None => false,
        }
    }

    /// The column values the form would persist.
    fn stored_fields(&self) -> (r: Vec<String>)
        requires
            self.wf(),
        ensures
            r@.len() == self.entity.stored_field_count_spec(),
            r.deep_view() == self.stored_of(),
    {
        let n = self.entity.stored_field_count();
        let mut out: Vec<String> = Vec::new();
        let mut j: usize = 0;
        while j < n
            invariant
                j <= n,
                n <= self.fields@.len(),
                out@.len() == j,
                forall|k: int| 0 <= k < j ==> (#[trigger] out@[k])@ == self.fields@[k]@,
            decreases n - j,
        {
            out.push(self.fields[j].clone());
            j = j + 1;
        }
        proof {
            assert(out.deep_view() =~= self.stored_of());
        }
        out
    }

    /// The credential the form would persist.
    fn credential_value(&self) -> (r: String)
        requires
            self.wf(),
        ensures
            r@ == self.credential_of(),
    {
        match self.entity.password_pair() {
            Some(p) => self.fields[p.0].clone(),
            None => String::new(),
        }
    }

    /// The save transition: what one save attempt does to the form and
    /// the collection, and what it reports.
    pub open spec fn save_spec(
        pre: CrudRow,
        pre_s: Store,
        post: CrudRow,
        post_s: Store,
        r: SaveOutcome,
    ) -> bool {
        if pre.save_blocked() || (pre.sub == CrudMode::New && pre_s.next_id == i32::MAX) {
            &&& post == pre
            &&& post_s == pre_s
            &&& r == SaveOutcome::Blocked
        } else if pre.sub == CrudMode::New {
            &&& r == SaveOutcome::Saved(pre_s.next_id)
            &&& post_s.next_id == pre_s.next_id + 1
            &&& post_s.records@.len() == pre_s.records@.len() + 1
            &&& (forall|i: int|
                0 <= i < pre_s.records@.len() ==> (#[trigger] post_s.records@[i]) == pre_s.records@[i])
            &&& post_s.records@.last()@.id == pre_s.next_id as int
            &&& post_s.records@.last()@.fields == pre.stored_of()
            &&& post_s.records@.last()@.credential == pre.credential_of()
            &&& pre.cleared_spec(post)
        } else {
            let id = pre.row_id->Some_0;
            &&& r == SaveOutcome::Saved(id)
            &&& post_s.next_id == pre_s.next_id
            &&& post_s.records@.len() == pre_s.records@.len()
            &&& (forall|i: int|
                0 <= i < pre_s.records@.len() && (#[trigger] pre_s.records@[i])@.id != id as int
                    ==> (#[trigger] post_s.records@[i]) == pre_s.records@[i])
            &&& (forall|i: int|
                0 <= i < pre_s.records@.len() && (#[trigger] pre_s.records@[i])@.id == id as int
                    ==> post_s.records@[i]@.id == id as int && post_s.records@[i]@.fields
                    == pre.stored_of() && post_s.records@[i]@.credential == (
                match pre.entity.password_pair_spec() {
                    Some(_) => if pre.credential_of() != pre.loaded_credential@ {
                        pre.credential_of()
                    } else {
                        pre_s.records@[i]@.credential
                    },
                    None => pre_s.records@[i]@.credential,
                }))
            &&& pre.cleared_spec(post)
        }
    }

    /// Persists the form: an insert when composing a new record, an
    /// update keyed by the originally loaded id when editing.  A password
    /// confirmation mismatch, or a form that is not open, is refused with
    /// nothing changed.  On success the form is cleared.
    pub fn save(&mut self, store: &mut Store) -> (r: SaveOutcome)
        requires
            old(self).wf(),
            old(store).wf(),
            old(store).width == old(self).entity.stored_field_count_spec(),
        ensures
            final(self).wf(),
            final(store).wf(),
            final(store).width == old(store).width,
            final(self).entity == old(self).entity,
            CrudRow::save_spec(*old(self), *old(store), *final(self), *final(store), r),
    {
        match self.sub {
            CrudMode::List => SaveOutcome::Blocked,
            CrudMode::New => {
                if self.password_mismatch() {
                    return SaveOutcome::Blocked;
                }
                if store.next_id == i32::MAX {
                    return SaveOutcome::Blocked;
                }
                let stored = self.stored_fields();
                let cred = self.credential_value();
                let id = store.insert(stored, cred);
                self.reset();
                SaveOutcome::Saved(id)
            },
            CrudMode::Edit => {
                if self.password_mismatch() {
                    return SaveOutcome::Blocked;
                }
                let id = match self.row_id {
                    Some(id) => id,
                    None => {
                        return SaveOutcome::Blocked;
                    },
                };
                let stored = self.stored_fields();
                let _ = store.update_fields(id, stored);
                match self.entity.password_pair() {
                    Some(p) => {
                        let pw = self.fields[p.0].clone();
                        if !(pw == self.loaded_credential) {
                            let _ = store.set_credential(id, pw);
                        }
                    },
                    None => {},
                }
                self.reset();
                SaveOutcome::Saved(id)
            },
        }
    }
}

/// The form component: the in-progress edit plus focus and persistence
/// wiring for one tab.
#[derive(Debug)]
pub struct CrudEdit {
    pub mode: Mode,
    pub focused: bool,
    pub db_wired: bool,
    pub data: CrudRow,
}

impl CrudEdit {
    pub open spec fn wf(self) -> bool {
        self.data.wf()
    }

    /// A form component for one tab, unfocused and not yet wired.
    pub fn new(data: CrudRow, mode: Mode) -> (r: CrudEdit)
        requires
            data.wf(),
        ensures
            r.wf(),
            r == (CrudEdit { mode, focused: false, db_wired: false, data }),
    {
        CrudEdit { mode, focused: false, db_wired: false, data }
    }

    /// Wires the shared persistence handle into this component.
    pub fn register_db_handler(&mut self)
        ensures
            *final(self) == (CrudEdit { db_wired: true, ..*old(self) }),
    {
        self.db_wired = true;
    }

    /// True while this component receives non-focus-changing commands.
    pub fn focused(&self) -> (r: bool)
        ensures
            r == self.focused,
    {
        self.focused
    }

    /// What one raw key event does to the form: while focused and without
    /// the control modifier, characters append to the active buffer,
    /// backspace removes the last character, and enter inserts a literal
    /// newline, each asking for a redraw.  Everything else is ignored.
    pub open spec fn key_spec(pre: CrudEdit, key: KeyPress, post: CrudEdit, r: Option<
        ActionV,
    >) -> bool {
        if !pre.focused || key.ctrl {
            post == pre && r is None
        } else {
            match key.code {
                KeyCode::Char(c) => {
                    &&& post.mode == pre.mode
                    &&& post.focused == pre.focused
                    &&& post.db_wired == pre.db_wired
                    &&& pre.data.input_spec(c, post.data)
                    &&& r == Some(ActionV::Render)
                },
                KeyCode::Backspace => {
                    &&& post.mode == pre.mode
                    &&& post.focused == pre.focused
                    &&& post.db_wired == pre.db_wired
                    &&& pre.data.delete_spec(post.data)
                    &&& r == Some(ActionV::Render)
                },
                KeyCode::Enter => {
                    &&& post.mode == pre.mode
                    &&& post.focused == pre.focused
                    &&& post.db_wired == pre.db_wired
                    &&& pre.data.input_spec('\n', post.data)
                    &&& r == Some(ActionV::Render)
                },
                _ => post == pre && r is None,
            }
        }
    }

    /// Feeds one raw key event into the form, as [`CrudEdit::key_spec`]
    /// states.
    pub fn handle_key_events(&mut self, key: KeyPress) -> (r: Option<Action>)
        requires
            old(self).wf(),
        ensures
            final(self).wf(),
            CrudEdit::key_spec(*old(self), key, *final(self), match r {
                Some(a) => Some(a@),
                None => None,
            }),
    {
        if !self.focused || key.ctrl {
            return None;
        }
        match key.code {
            KeyCode::Char(c) => {
                self.data.input(c);
                Some(Action::Render)
            },
            KeyCode::Backspace => {
                self.data.delete_last_char();
                Some(Action::Render)
            },
            KeyCode::Enter => {
                self.data.input('\n');
                Some(Action::Render)
            },
            _ => None,
        }
    }

    /// The full transition relation of one dispatched command, relating
    /// the component and collection before and after the call to the
    /// emitted follow-up command or surfaced failure.
    pub open spec fn update_spec(
        pre: CrudEdit,
        pre_s: Store,
        a: ActionV,
        post: CrudEdit,
        post_s: Store,
        r: Result<Option<ActionV>, AppError>,
    ) -> bool {
        match a {
            ActionV::CrudEdit(m, id) => if m == pre.mode {
                if pre.db_wired {
                    &&& post_s == pre_s
                    &&& post.mode == pre.mode
                    &&& post.db_wired == pre.db_wired
                    &&& (has_id(pre_s.records@, id) ==> post.focused && exists|i: int|
                        0 <= i < pre_s.records@.len() && (#[trigger] pre_s.records@[i])@.id == id
                            && pre.data.populated_spec(post.data, id, pre_s.records@[i]@))
                    &&& (!has_id(pre_s.records@, id) ==> post == pre)
                    &&& r == Ok::<Option<ActionV>, AppError>(None)
                } else {
                    post_s == pre_s && post == pre && r == Err::<Option<ActionV>, AppError>(
                        AppError::NotConnected,
                    )
                }
            } else {
                post_s == pre_s && post == pre && r == Ok::<Option<ActionV>, AppError>(None)
            },
            ActionV::CrudNew(m) => if m == pre.mode {
                &&& post_s == pre_s
                &&& post.mode == pre.mode
                &&& post.db_wired == pre.db_wired
                &&& post.focused
                &&& post.data.entity == pre.data.entity
                &&& post.data.sub == CrudMode::New
                &&& post.data.row_id is None
                &&& post.data.active == Some(0usize)
                &&& post.data.fields.deep_view() == empty_fields(
                    pre.data.entity.form_field_count_spec(),
                )
                &&& post.data.loaded_credential@ == Seq::<char>::empty()
                &&& r == Ok::<Option<ActionV>, AppError>(None)
            } else {
                post_s == pre_s && post == pre && r == Ok::<Option<ActionV>, AppError>(None)
            },
            ActionV::Save => if !pre.db_wired {
                post_s == pre_s && post == pre && r == Err::<Option<ActionV>, AppError>(
                    AppError::NotConnected,
                )
            } else if pre.data.save_blocked() || (pre.data.sub == CrudMode::New && pre_s.next_id
                == i32::MAX) {
                post_s == pre_s && post == pre && r == Ok::<Option<ActionV>, AppError>(None)
            } else {
                &&& post.mode == pre.mode
                &&& post.db_wired == pre.db_wired
                &&& !post.focused
                &&& CrudRow::save_spec(pre.data, pre_s, post.data, post_s, SaveOutcome::Saved(
                    if pre.data.sub == CrudMode::New {
                        pre_s.next_id
                    } else {
                        pre.data.row_id->Some_0
                    },
                ))
                &&& r == Ok::<Option<ActionV>, AppError>(Some(ActionV::TabChange(pre.mode)))
            },
            ActionV::Back => {
                &&& post_s == pre_s
                &&& post.mode == pre.mode
                &&& post.db_wired == pre.db_wired
                &&& !post.focused
                &&& pre.data.cleared_spec(post.data)
                &&& r == Ok::<Option<ActionV>, AppError>(Some(ActionV::TabChange(pre.mode)))
            },
            ActionV::Tab => {
                &&& post_s == pre_s
                &&& post.mode == pre.mode
                &&& post.focused == pre.focused
                &&& post.db_wired == pre.db_wired
                &&& post.data == (CrudRow {
                    active: match pre.data.active {
                        Some(i) => Some(
                            (if i + 1 < pre.data.entity.form_field_count_spec() {
                                (i + 1) as usize
                            } else {
                                0usize
                            }),
                        ),
                        None => None::<usize>,
                    },
                    ..pre.data
                })
                &&& r == Ok::<Option<ActionV>, AppError>(None)
            },
            _ => post_s == pre_s && post == pre && r == Ok::<Option<ActionV>, AppError>(None),
        }
    }

    /// Dispatches one command to this component, mutating the component
    /// and its collection exactly as [`CrudEdit::update_spec`] states.
    /// Every emitted follow-up ranks strictly below the command, and
    /// failures only arise from commands that rank at least one.
    pub fn update(&mut self, a: &Action, store: &mut Store) -> (r: Result<Option<Action>, AppError>)
        requires
            old(self).wf(),
            old(store).wf(),
            old(store).width == old(self).data.entity.stored_field_count_spec(),
        ensures
            final(self).wf(),
            final(store).wf(),
            final(store).width == old(store).width,
            final(self).data.entity == old(self).data.entity,
            CrudEdit::update_spec(*old(self), *old(store), a@, *final(self), *final(store), match r {
                Ok(Some(f)) => Ok(Some(f@)),
                Ok(None) => Ok(None),
                Err(e) => Err(e),
            }),
            match r {
                Ok(Some(f)) => f@.rank() < a@.rank(),
                Ok(None) => true,
                Err(_) => a@.rank() >= 1,
            },
    {
        match a {
            Action::CrudEdit(m, idx) => {
                if *m == self.mode {
                    if !self.db_wired {
                        return Err(AppError::NotConnected);
                    }
                    let found = self.data.edit(*idx, store);
                    if found {
                        self.focused = true;
                    }
                }
                Ok(None)
            },
            Action::CrudNew(m) => {
                if *m == self.mode {
                    self.data.new();
                    self.focused = true;
                }
                Ok(None)
            },
            Action::Save => {
                if !self.db_wired {
                    return Err(AppError::NotConnected);
                }
                match self.data.save(store) {
                    SaveOutcome::Saved(_) => {
                        self.focused = false;
                        Ok(Some(Action::TabChange(self.mode)))
                    },
                    SaveOutcome::Blocked => Ok(None),
                }
            },
            Action::Back => {
                self.focused = false;
                self.data.reset();
                Ok(Some(Action::TabChange(self.mode)))
            },
            Action::Tab => {
                self.data.focus_next_field();
                Ok(None)
            },
            _ => Ok(None),
        }
    }
}

/// Round trip: after a successful save of a newly composed record, any
/// record fetched from the collection under the returned id carries
/// exactly the field values that were entered, and, for record types
/// with a credential, exactly the password that was entered.
pub proof fn lemma_save_round_trip(
    pre: CrudRow,
    pre_s: Store,
    post: CrudRow,
    post_s: Store,
    id: i32,
    rec: RecordV,
)
    requires
        pre.sub == CrudMode::New,
        CrudRow::save_spec(pre, pre_s, post, post_s, SaveOutcome::Saved(id)),
        post_s.wf(),
        exists|i: int| 0 <= i < post_s.records@.len() && (#[trigger] post_s.records@[i])@ == rec,
        rec.id == id as int,
    ensures
        rec.fields == pre.stored_of(),
        rec.credential == pre.credential_of(),
{
    let i = choose|i: int|
        0 <= i < post_s.records@.len() && (#[trigger] post_s.records@[i])@ == rec;
    let n = post_s.records@.len() - 1;
    assert(post_s.records@[n]@.id == id as int);
    if i != n {
        assert(false);
    }
}
} // verus!
