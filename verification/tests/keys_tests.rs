use blogtui::action::Action;
use blogtui::keys::{KeyBuffer, KeyCode, KeyPress, KeyTable};
use blogtui::mode::Mode;

fn table_with(bindings: &[(Mode, &[KeyPress], Action)]) -> KeyTable {
    let mut t = KeyTable::new();
    for (mode, keys, action) in bindings {
        assert!(t.add(*mode, keys.to_vec(), action.clone()));
    }
    t
}

#[test]
fn single_key_binding_fires_without_touching_buffer() {
    let k1 = KeyPress::char('q');
    let t = table_with(&[(Mode::Posts, &[k1], Action::Quit)]);
    let mut buf = KeyBuffer::new();
    let r = buf.on_key(&t, Mode::Posts, k1);
    assert_eq!(r, Some(Action::Quit));
    assert_eq!(buf.pending.len(), 0);
}

#[test]
fn single_key_binding_shadows_its_sequences() {
    // A sequence whose first key is itself bound: the single-key probe
    // wins on the first press, so the first key is never buffered and
    // the second press resolves to nothing.
    let k1 = KeyPress::char('g');
    let k2 = KeyPress::char('h');
    let t = table_with(&[
        (Mode::Posts, &[k1], Action::Help),
        (Mode::Posts, &[k1, k2], Action::Quit),
    ]);
    let mut buf = KeyBuffer::new();
    assert_eq!(buf.on_key(&t, Mode::Posts, k1), Some(Action::Help));
    assert_eq!(buf.on_key(&t, Mode::Posts, k2), None);
}

#[test]
fn two_key_sequence_resolves_on_second_press() {
    let k1 = KeyPress::char('d');
    let k2 = KeyPress::char('d');
    let t = table_with(&[(Mode::Posts, &[k1, k2], Action::Delete)]);
    let mut buf = KeyBuffer::new();
    assert_eq!(buf.on_key(&t, Mode::Posts, k1), None);
    assert_eq!(buf.on_key(&t, Mode::Posts, k2), Some(Action::Delete));
}

#[test]
fn tick_reset_replays_sequence_identically() {
    let k1 = KeyPress::char('d');
    let k2 = KeyPress::char('d');
    let t = table_with(&[(Mode::Posts, &[k1, k2], Action::Delete)]);
    let mut buf = KeyBuffer::new();
    assert_eq!(buf.on_key(&t, Mode::Posts, k1), None);
    assert_eq!(buf.on_key(&t, Mode::Posts, k2), Some(Action::Delete));
    buf.clear();
    assert_eq!(buf.on_key(&t, Mode::Posts, k1), None);
    assert_eq!(buf.on_key(&t, Mode::Posts, k2), Some(Action::Delete));
}

#[test]
fn bindings_are_scoped_by_mode() {
    let k = KeyPress::char('x');
    let t = table_with(&[(Mode::Posts, &[k], Action::Delete)]);
    let mut buf = KeyBuffer::new();
    assert_eq!(buf.on_key(&t, Mode::Users, k), None);
    buf.clear();
    assert_eq!(buf.on_key(&t, Mode::Posts, k), Some(Action::Delete));
}

#[test]
fn duplicate_binding_is_refused() {
    let k = KeyPress::char('x');
    let mut t = KeyTable::new();
    assert!(t.add(Mode::Posts, vec![k], Action::Quit));
    assert!(!t.add(Mode::Posts, vec![k], Action::Help));
    assert!(t.add(Mode::Users, vec![k], Action::Help));
}

#[test]
fn legend_lists_mode_bindings_in_order() {
    let t = table_with(&[
        (Mode::Posts, &[KeyPress::char('q')], Action::Quit),
        (Mode::Users, &[KeyPress::char('z')], Action::Help),
        (
            Mode::Posts,
            &[KeyPress::char('d'), KeyPress::char('d')],
            Action::Delete,
        ),
    ]);
    assert_eq!(t.legend(Mode::Posts), "q : Quit, d,d : Delete");
    assert_eq!(t.legend(Mode::Users), "z : Help");
    assert_eq!(t.legend(Mode::Tags), "");
}

#[test]
fn legend_shows_modifiers_and_named_keys() {
    let ctrl_s = KeyPress {
        code: KeyCode::Char('s'),
        ctrl: true,
        alt: false,
        shift: false,
    };
    let t = table_with(&[
        (Mode::Posts, &[ctrl_s], Action::Save),
        (Mode::Posts, &[KeyPress::plain(KeyCode::Esc)], Action::Back),
    ]);
    assert_eq!(t.legend(Mode::Posts), "ctrl-s : Save, esc : Back");
}
