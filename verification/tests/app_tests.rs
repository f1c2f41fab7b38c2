use blogtui::action::Action;
use blogtui::app::App;
use blogtui::component::{Area, Component};
use blogtui::keys::{KeyBuffer, KeyPress, KeyTable};
use blogtui::mode::{CrudMode, Mode};

fn fresh_app() -> App {
    let mut app = App::new(KeyTable::new());
    app.connect();
    app.enqueue(Action::TabChange(Mode::Posts));
    app.drain();
    app
}

fn tabbar_selected(app: &App) -> usize {
    match &app.components[0] {
        Component::TabBar(t) => t.selected,
        _ => panic!("slot 0 is the tab bar"),
    }
}

#[test]
fn next_tab_enqueues_tab_change_and_moves_highlight() {
    let mut app = fresh_app();
    assert_eq!(app.mode, Mode::Posts);
    app.process_action(Action::NextTab);
    // the queue gained the tab change toward Tags
    assert_eq!(app.queue.len(), 1);
    assert_eq!(app.queue[0], Action::TabChange(Mode::Tags));
    app.drain();
    assert_eq!(app.mode, Mode::Tags);
    assert_eq!(tabbar_selected(&app), 1);
}

#[test]
fn quit_sets_termination_flag() {
    let mut app = fresh_app();
    app.enqueue(Action::Quit);
    app.drain();
    assert!(app.should_quit);
}

#[test]
fn suspend_and_resume_toggle_flag_and_touch_nothing_else() {
    let mut app = fresh_app();
    let mode_before = app.mode;
    let posts_before = app.db.posts.len();
    app.process_action(Action::Suspend);
    assert!(app.should_suspend);
    app.process_action(Action::Resume);
    assert!(!app.should_suspend);
    // components, tab, queue and backing store are untouched
    assert_eq!(app.mode, mode_before);
    assert_eq!(app.queue.len(), 0);
    assert_eq!(app.db.posts.len(), posts_before);
    for c in &app.components {
        match c {
            Component::List(l) => assert_eq!(l.focused, l.mode == Mode::Posts),
            Component::Edit(e) => assert!(!e.focused),
            _ => {},
        }
    }
}

#[test]
fn render_and_resize_request_redraw() {
    let mut app = fresh_app();
    assert!(app.take_render());  // the initial tab change redraws
    assert!(!app.take_render());
    app.enqueue(Action::Resize(80, 24));
    app.drain();
    assert!(app.take_render());
}

#[test]
fn tick_clears_pending_keys() {
    let mut app = fresh_app();
    let mut t = KeyTable::new();
    assert!(t.add(
        Mode::Posts,
        vec![KeyPress::char('d'), KeyPress::char('d')],
        Action::Delete,
    ));
    app.table = t;
    app.on_key(KeyPress::char('d'));
    assert_eq!(app.buffer.pending.len(), 1);
    app.process_action(Action::Tick);
    assert_eq!(app.buffer.pending.len(), 0);
}

#[test]
fn focus_gating_leaves_unfocused_views_alone() {
    let mut app = fresh_app();
    // after the initial tab change, only the Posts list is focused
    for c in &app.components {
        match c {
            Component::List(l) => assert_eq!(l.focused, l.mode == Mode::Posts),
            Component::Edit(e) => assert!(!e.focused),
            _ => {},
        }
    }
    // a non-focus-changing command: the Users views stay untouched
    app.enqueue(Action::Down);
    app.drain();
    for c in &app.components {
        if let Component::List(l) = c {
            if l.mode == Mode::Users {
                assert!(!l.focused);
                assert_eq!(l.data.num_rows(), 0);
                assert_eq!(l.cursor, None);
            }
        }
    }
}

#[test]
fn target_isolation_on_focus_change() {
    let mut app = fresh_app();
    // focus-changing command toward Posts: the Users form keeps its state
    app.enqueue(Action::CrudNew(Mode::Posts));
    app.drain();
    for c in &app.components {
        match c {
            Component::Edit(e) if e.mode == Mode::Users => {
                assert!(!e.focused);
                assert_eq!(e.data.sub, CrudMode::List);
            },
            Component::Edit(e) if e.mode == Mode::Posts => {
                assert!(e.focused);
                assert_eq!(e.data.sub, CrudMode::New);
            },
            _ => {},
        }
    }
}

#[test]
fn resolved_key_action_is_enqueued() {
    let mut t = KeyTable::new();
    assert!(t.add(Mode::Posts, vec![KeyPress::char('q')], Action::Quit));
    let mut app = App::new(t);
    app.connect();
    app.enqueue(Action::TabChange(Mode::Posts));
    app.drain();
    app.on_key(KeyPress::char('q'));
    app.drain();
    assert!(app.should_quit);
}

#[test]
fn typed_keys_reach_the_focused_form() {
    let mut app = fresh_app();
    app.enqueue(Action::CrudNew(Mode::Posts));
    app.drain();
    app.on_key(KeyPress::char('h'));
    app.on_key(KeyPress::char('i'));
    app.drain();
    match &app.components[3] {
        Component::Edit(e) => assert_eq!(e.data.fields[0], "hi"),
        _ => panic!("slot 3 is the Posts form"),
    }
}

#[test]
fn whole_flow_create_and_list() {
    let mut app = fresh_app();
    // open the form, type a title, save, land back on the list
    app.enqueue(Action::New);
    app.drain();
    app.on_key(KeyPress::char('T'));
    app.drain();
    app.enqueue(Action::Save);
    app.drain();
    assert_eq!(app.mode, Mode::Posts);
    match &app.components[2] {
        Component::List(l) => {
            assert!(l.focused);
            assert_eq!(l.data.num_rows(), 1);
            assert_eq!(l.data.rows_text()[0][0], "T");
            assert_eq!(l.cursor, Some(0));
        },
        _ => panic!("slot 2 is the Posts list"),
    }
    assert_eq!(app.db.posts.len(), 1);
}

#[test]
fn unconnected_app_reports_errors_but_keeps_running() {
    let mut app = App::new(KeyTable::new());
    // no connect(): the refresh on focus-in surfaces a failure, wrapped
    // into an error command, and the loop drains to empty regardless
    app.enqueue(Action::TabChange(Mode::Posts));
    app.drain();
    assert_eq!(app.queue.len(), 0);
    assert!(!app.should_quit);
}

#[test]
fn component_slots_and_areas() {
    let app = fresh_app();
    assert_eq!(app.components.len(), 6);
    assert_eq!(app.components[0].component_type(), Area::Header);
    assert_eq!(app.components[1].component_type(), Area::Footer);
    assert_eq!(app.components[2].component_type(), Area::Main);
    assert_eq!(app.components[5].component_type(), Area::Main);
}

#[test]
fn buffer_records_and_clears() {
    let t = KeyTable::new();
    let mut buf = KeyBuffer::new();
    assert_eq!(buf.on_key(&t, Mode::Posts, KeyPress::char('a')), None);
    assert_eq!(buf.on_key(&t, Mode::Posts, KeyPress::char('b')), None);
    assert_eq!(buf.pending.len(), 2);
    buf.clear();
    assert_eq!(buf.pending.len(), 0);
}

#[test]
fn footer_shows_bindings_for_active_tab() {
    let mut t = KeyTable::new();
    assert!(t.add(Mode::Posts, vec![KeyPress::char('q')], Action::Quit));
    assert!(t.add(Mode::Tags, vec![KeyPress::char('h')], Action::Help));
    let mut app = App::new(t);
    app.connect();
    app.enqueue(Action::TabChange(Mode::Posts));
    app.drain();
    let legend = match &app.components[1] {
        Component::Footer(f) => f.get_keybindings(),
        _ => panic!("slot 1 is the footer"),
    };
    assert_eq!(legend, "q : Quit");
    app.enqueue(Action::NextTab);
    app.drain();
    let legend = match &app.components[1] {
        Component::Footer(f) => f.get_keybindings(),
        _ => panic!("slot 1 is the footer"),
    };
    assert_eq!(legend, "h : Help");
}
