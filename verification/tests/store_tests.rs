use blogtui::store::{AppError, Db, Store};

fn strings(xs: &[&str]) -> Vec<String> {
    xs.iter().map(|x| x.to_string()).collect()
}

#[test]
fn insert_then_get_returns_entered_fields() {
    let mut s = Store::new(3);
    let id = s.insert(strings(&["a", "b", "c"]), String::new());
    let rec = s.get(id).unwrap();
    assert_eq!(rec.id, id);
    assert_eq!(rec.fields, strings(&["a", "b", "c"]));
    assert_eq!(rec.credential, "");
}

#[test]
fn ids_are_fresh_and_stable_across_deletes() {
    let mut s = Store::new(1);
    let a = s.insert(strings(&["one"]), String::new());
    let b = s.insert(strings(&["two"]), String::new());
    assert_ne!(a, b);
    s.delete(a);
    let c = s.insert(strings(&["three"]), String::new());
    assert_ne!(c, b);
    assert!(s.get(a).is_none());
    assert_eq!(s.get(b).unwrap().fields, strings(&["two"]));
    assert_eq!(s.get(c).unwrap().fields, strings(&["three"]));
}

#[test]
fn update_fields_keeps_credential() {
    let mut s = Store::new(2);
    let id = s.insert(strings(&["n", "e"]), "secret".to_string());
    assert!(s.update_fields(id, strings(&["n2", "e2"])));
    let rec = s.get(id).unwrap();
    assert_eq!(rec.fields, strings(&["n2", "e2"]));
    assert_eq!(rec.credential, "secret");
}

#[test]
fn set_credential_keeps_fields() {
    let mut s = Store::new(2);
    let id = s.insert(strings(&["n", "e"]), "old".to_string());
    assert!(s.set_credential(id, "new".to_string()));
    let rec = s.get(id).unwrap();
    assert_eq!(rec.fields, strings(&["n", "e"]));
    assert_eq!(rec.credential, "new");
}

#[test]
fn missing_id_is_reported() {
    let mut s = Store::new(1);
    assert!(s.get(7).is_none());
    assert!(!s.update_fields(7, strings(&["x"])));
    assert!(!s.set_credential(7, "x".to_string()));
    s.delete(7);
    assert_eq!(s.len(), 0);
}

#[test]
fn delete_keeps_order_of_the_rest() {
    let mut s = Store::new(1);
    let a = s.insert(strings(&["one"]), String::new());
    let b = s.insert(strings(&["two"]), String::new());
    let c = s.insert(strings(&["three"]), String::new());
    s.delete(b);
    let rows = s.list();
    assert_eq!(rows.len(), 2);
    assert_eq!(rows[0].id, a);
    assert_eq!(rows[1].id, c);
}

#[test]
fn db_has_one_collection_per_tab() {
    let db = Db::new();
    assert_eq!(db.posts.width, 3);
    assert_eq!(db.users.width, 2);
    assert_eq!(db.tags.width, 0);
    assert_eq!(db.store_ref(blogtui::mode::Mode::Posts).len(), 0);
}

#[test]
fn not_connected_message() {
    assert_eq!(AppError::NotConnected.message(), "Database is not connected");
}
