use blogtui::mode::{CrudMode, Mode};

#[test]
fn next_cycles_through_all_tabs() {
    assert_eq!(Mode::Posts.next(), Mode::Tags);
    assert_eq!(Mode::Tags.next(), Mode::Users);
    assert_eq!(Mode::Users.next(), Mode::Posts);
}

#[test]
fn three_steps_return_to_start() {
    for m in [Mode::Posts, Mode::Tags, Mode::Users] {
        assert_eq!(m.next().next().next(), m);
    }
}

#[test]
fn try_from_accepts_only_tab_indices() {
    assert_eq!(Mode::try_from(0).unwrap(), Mode::Posts);
    assert_eq!(Mode::try_from(1).unwrap(), Mode::Tags);
    assert_eq!(Mode::try_from(2).unwrap(), Mode::Users);
    assert!(Mode::try_from(3).is_err());
    assert!(Mode::try_from(usize::MAX).is_err());
}

#[test]
fn index_matches_try_from() {
    for i in 0..3 {
        assert_eq!(Mode::try_from(i).unwrap().index(), i);
    }
}

#[test]
fn default_mode_is_posts() {
    assert_eq!(Mode::default(), Mode::Posts);
    assert_eq!(CrudMode::default(), CrudMode::List);
}
