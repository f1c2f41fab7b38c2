use blogtui::action::Action;
use blogtui::crudedit::{CrudEdit, CrudRow, SaveOutcome};
use blogtui::crudlist::{CrudData, CrudList};
use blogtui::entity::Entity;
use blogtui::keys::{KeyCode, KeyPress};
use blogtui::mode::{CrudMode, Mode};
use blogtui::store::{AppError, Store};

fn strings(xs: &[&str]) -> Vec<String> {
    xs.iter().map(|x| x.to_string()).collect()
}

fn posts_store(rows: &[&[&str]]) -> Store {
    let mut s = Store::new(3);
    for row in rows {
        s.insert(strings(row), String::new());
    }
    s
}

fn focused_list(store: &Store) -> CrudList {
    let mut l = CrudList::new(CrudData::new(Entity::Post), Mode::Posts);
    l.register_db_handler();
    let mut snapshot = Store {
        width: store.width,
        records: store.list(),
        next_id: store.next_id,
    };
    let r = l.update(&Action::TabChange(Mode::Posts), &mut snapshot);
    assert!(r.is_ok());
    l
}

#[test]
fn tab_change_refreshes_and_selects_first_row() {
    let mut store = posts_store(&[&["a", "b", "c"], &["d", "e", "f"]]);
    let mut l = CrudList::new(CrudData::new(Entity::Post), Mode::Posts);
    l.register_db_handler();
    let r = l.update(&Action::TabChange(Mode::Posts), &mut store).unwrap();
    assert_eq!(r, Some(Action::Render));
    assert!(l.focused);
    assert_eq!(l.data.num_rows(), 2);
    assert_eq!(l.cursor, Some(0));
}

#[test]
fn unwired_list_surfaces_not_connected() {
    let mut store = posts_store(&[]);
    let mut l = CrudList::new(CrudData::new(Entity::Post), Mode::Posts);
    let r = l.update(&Action::TabChange(Mode::Posts), &mut store);
    assert_eq!(r, Err(AppError::NotConnected));
}

#[test]
fn deleting_only_row_unsets_selection() {
    let mut store = posts_store(&[&["a", "b", "c"]]);
    let mut l = focused_list(&store);
    let r = l.update(&Action::Delete, &mut store).unwrap();
    assert_eq!(r, Some(Action::Render));
    assert_eq!(store.len(), 0);
    assert_eq!(l.cursor, None);
}

#[test]
fn deleting_non_last_row_keeps_cursor_index() {
    let mut store = posts_store(&[&["a", "", ""], &["b", "", ""], &["c", "", ""]]);
    let mut l = focused_list(&store);
    l.update(&Action::Down, &mut store).unwrap();
    assert_eq!(l.cursor, Some(1));
    l.update(&Action::Delete, &mut store).unwrap();
    // the cursor stays at index 1, now referring to the next row
    assert_eq!(l.cursor, Some(1));
    assert_eq!(l.data.to_db_id(1), store.list()[1].id);
    assert_eq!(l.data.rows_text()[1][0], "c");
}

#[test]
fn deleting_last_row_clamps_cursor() {
    let mut store = posts_store(&[&["a", "", ""], &["b", "", ""], &["c", "", ""]]);
    let mut l = focused_list(&store);
    l.update(&Action::Down, &mut store).unwrap();
    l.update(&Action::Down, &mut store).unwrap();
    assert_eq!(l.cursor, Some(2));
    l.update(&Action::Delete, &mut store).unwrap();
    assert_eq!(l.cursor, Some(1));
}

#[test]
fn cursor_clamps_at_both_ends() {
    let mut store = posts_store(&[&["a", "", ""], &["b", "", ""]]);
    let mut l = focused_list(&store);
    l.update(&Action::Up, &mut store).unwrap();
    assert_eq!(l.cursor, Some(0));
    l.update(&Action::Down, &mut store).unwrap();
    l.update(&Action::Down, &mut store).unwrap();
    assert_eq!(l.cursor, Some(1));
}

#[test]
fn edit_emits_crud_edit_with_selected_id() {
    let mut store = posts_store(&[&["a", "", ""], &["b", "", ""]]);
    let id1 = store.list()[1].id;
    let mut l = focused_list(&store);
    l.update(&Action::Down, &mut store).unwrap();
    let r = l.update(&Action::Edit, &mut store).unwrap();
    assert_eq!(r, Some(Action::CrudEdit(Mode::Posts, id1)));
    assert!(!l.focused);
}

#[test]
fn new_emits_crud_new_and_unfocuses() {
    let mut store = posts_store(&[]);
    let mut l = focused_list(&store);
    let r = l.update(&Action::New, &mut store).unwrap();
    assert_eq!(r, Some(Action::CrudNew(Mode::Posts)));
    assert!(!l.focused);
}

#[test]
fn headers_and_widths_per_entity() {
    let posts = CrudData::new(Entity::Post);
    assert_eq!(posts.headers(), strings(&["Title", "Summary", "Content"]));
    assert_eq!(posts.widths(), vec![20, 40, 40]);
    let users = CrudData::new(Entity::User);
    assert_eq!(users.headers(), strings(&["Name", "Email"]));
    assert_eq!(users.widths(), vec![50, 50]);
}

#[test]
fn typing_fills_fields_and_tab_cycles_focus() {
    let mut row = CrudRow::empty(Entity::Post);
    row.new();
    assert_eq!(row.sub, CrudMode::New);
    assert_eq!(row.active, Some(0));
    row.input('H');
    row.input('i');
    row.focus_next_field();
    row.input('x');
    assert_eq!(row.fields[0], "Hi");
    assert_eq!(row.fields[1], "x");
    assert_eq!(row.active, Some(1));
}

#[test]
fn backspace_removes_last_char_and_spares_empty_buffers() {
    let mut row = CrudRow::empty(Entity::Post);
    row.new();
    row.input('a');
    row.input('b');
    row.delete_last_char();
    assert_eq!(row.fields[0], "a");
    row.delete_last_char();
    row.delete_last_char();
    assert_eq!(row.fields[0], "");
}

#[test]
fn save_new_round_trips_through_store() {
    let mut store = posts_store(&[]);
    let mut row = CrudRow::empty(Entity::Post);
    row.new();
    row.input('T');
    row.focus_next_field();
    row.input('S');
    row.focus_next_field();
    row.input('C');
    let outcome = row.save(&mut store);
    let id = match outcome {
        SaveOutcome::Saved(id) => id,
        SaveOutcome::Blocked => panic!("save refused"),
    };
    let rec = store.get(id).unwrap();
    assert_eq!(rec.fields, strings(&["T", "S", "C"]));
    // the form is cleared after a successful save
    assert_eq!(row.sub, CrudMode::List);
    assert_eq!(row.fields, strings(&["", "", ""]));
}

#[test]
fn save_edit_updates_in_place() {
    let mut store = posts_store(&[&["old", "s", "c"]]);
    let id = store.list()[0].id;
    let mut row = CrudRow::empty(Entity::Post);
    assert!(row.edit(id, &store));
    assert_eq!(row.sub, CrudMode::Edit);
    assert_eq!(row.fields[0], "old");
    row.fields[0] = "new".to_string();
    assert_eq!(row.save(&mut store), SaveOutcome::Saved(id));
    assert_eq!(store.get(id).unwrap().fields[0], "new");
    assert_eq!(store.len(), 1);
}

#[test]
fn edit_of_missing_id_leaves_form_unchanged() {
    let store = posts_store(&[]);
    let mut row = CrudRow::empty(Entity::Post);
    assert!(!row.edit(42, &store));
    assert_eq!(row.sub, CrudMode::List);
    assert_eq!(row.active, None);
}

#[test]
fn password_mismatch_blocks_save_and_keeps_edit_state() {
    let mut store = Store::new(2);
    let id = store.insert(strings(&["n", "e"]), "pw".to_string());
    let mut row = CrudRow::empty(Entity::User);
    assert!(row.edit(id, &store));
    row.fields[2] = "abc".to_string();
    row.fields[3] = "abd".to_string();
    let before = store.list();
    assert_eq!(row.save(&mut store), SaveOutcome::Blocked);
    // no persistence call happened, no transition out of edit
    assert_eq!(store.list().len(), before.len());
    assert_eq!(store.get(id).unwrap().credential, "pw");
    assert_eq!(row.sub, CrudMode::Edit);
    assert_eq!(row.fields[2], "abc");
}

#[test]
fn matching_passwords_reset_credential_only_when_changed() {
    let mut store = Store::new(2);
    let id = store.insert(strings(&["n", "e"]), "pw".to_string());
    let mut row = CrudRow::empty(Entity::User);
    assert!(row.edit(id, &store));
    row.fields[2] = "fresh".to_string();
    row.fields[3] = "fresh".to_string();
    assert_eq!(row.save(&mut store), SaveOutcome::Saved(id));
    assert_eq!(store.get(id).unwrap().credential, "fresh");
}

#[test]
fn save_new_user_stores_password_as_credential() {
    let mut store = Store::new(2);
    let mut row = CrudRow::empty(Entity::User);
    row.new();
    row.fields[0] = "alice".to_string();
    row.fields[1] = "a@example.org".to_string();
    row.fields[2] = "s3cret".to_string();
    row.fields[3] = "s3cret".to_string();
    let id = match row.save(&mut store) {
        SaveOutcome::Saved(id) => id,
        SaveOutcome::Blocked => panic!("save refused"),
    };
    let rec = store.get(id).unwrap();
    assert_eq!(rec.fields, strings(&["alice", "a@example.org"]));
    assert_eq!(rec.credential, "s3cret");
}

#[test]
fn form_component_routes_keys_only_while_focused() {
    let mut form = CrudEdit::new(CrudRow::empty(Entity::Post), Mode::Posts);
    assert_eq!(form.handle_key_events(KeyPress::char('x')), None);
    let mut store = posts_store(&[]);
    form.register_db_handler();
    form.update(&Action::CrudNew(Mode::Posts), &mut store).unwrap();
    assert!(form.focused());
    assert_eq!(
        form.handle_key_events(KeyPress::char('x')),
        Some(Action::Render)
    );
    assert_eq!(form.data.fields[0], "x");
    // control-modified keys are ignored
    let ctrl_c = KeyPress {
        code: KeyCode::Char('c'),
        ctrl: true,
        alt: false,
        shift: false,
    };
    assert_eq!(form.handle_key_events(ctrl_c), None);
    assert_eq!(form.data.fields[0], "x");
    // enter inserts a literal newline
    form.handle_key_events(KeyPress::plain(KeyCode::Enter));
    assert_eq!(form.data.fields[0], "x\n");
    form.handle_key_events(KeyPress::plain(KeyCode::Backspace));
    assert_eq!(form.data.fields[0], "x");
}

#[test]
fn save_returns_to_list_view_and_back_discards() {
    let mut store = posts_store(&[]);
    let mut form = CrudEdit::new(CrudRow::empty(Entity::Post), Mode::Posts);
    form.register_db_handler();
    form.update(&Action::CrudNew(Mode::Posts), &mut store).unwrap();
    form.handle_key_events(KeyPress::char('t'));
    let r = form.update(&Action::Save, &mut store).unwrap();
    assert_eq!(r, Some(Action::TabChange(Mode::Posts)));
    assert!(!form.focused());
    assert_eq!(store.len(), 1);

    form.update(&Action::CrudNew(Mode::Posts), &mut store).unwrap();
    form.handle_key_events(KeyPress::char('z'));
    let r = form.update(&Action::Back, &mut store).unwrap();
    assert_eq!(r, Some(Action::TabChange(Mode::Posts)));
    assert!(!form.focused());
    // nothing was persisted on the way out
    assert_eq!(store.len(), 1);
    assert_eq!(form.data.fields[0], "");
}
