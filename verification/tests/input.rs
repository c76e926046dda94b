use snake_game::geometry::Direction;
use snake_game::input::{Debouncer, Key};

#[test]
fn debouncer_turns_down_reversal_and_repeat() {
    let mut debouncer = Debouncer::new();
    assert_eq!(debouncer.accept(Key::Right), Some(Direction::Right));
    assert_eq!(debouncer.last_accepted(), Some(Direction::Right));

    assert_eq!(debouncer.accept(Key::Left), None);
    assert_eq!(debouncer.last_accepted(), Some(Direction::Right));
    assert_eq!(debouncer.accept(Key::Up), Some(Direction::Up));
    assert_eq!(debouncer.accept(Key::Up), None);
    assert_eq!(debouncer.last_accepted(), Some(Direction::Up));
}

#[test]
fn a_fresh_debouncer_accepts_any_arrow() {
    for (key, heading) in [
        (Key::Up, Direction::Up),
        (Key::Down, Direction::Down),
        (Key::Left, Direction::Left),
        (Key::Right, Direction::Right),
    ] {
        let mut debouncer = Debouncer::new();
        assert_eq!(debouncer.last_accepted(), None);
        assert_eq!(debouncer.accept(key), Some(heading));
        assert_eq!(debouncer.last_accepted(), Some(heading));
    }
}

#[test]
fn after_each_heading_only_the_perpendicular_ones_pass() {
    let arrows = [
        (Key::Up, Direction::Up),
        (Key::Down, Direction::Down),
        (Key::Left, Direction::Left),
        (Key::Right, Direction::Right),
    ];
    for (first_key, first) in arrows {
        for (key, heading) in arrows {
            let mut debouncer = Debouncer::new();
            assert_eq!(debouncer.accept(first_key), Some(first));
            let expected = if heading == first || heading == first.opposite() {
                None
            } else {
                Some(heading)
            };
            assert_eq!(debouncer.accept(key), expected);
            let remembered = if expected.is_some() { heading } else { first };
            assert_eq!(debouncer.last_accepted(), Some(remembered));
        }
    }
}

#[test]
fn other_keys_are_not_consumed() {
    let mut debouncer = Debouncer::new();
    assert_eq!(debouncer.accept(Key::Left), Some(Direction::Left));
    for key in [Key::Esc, Key::Char('p'), Key::Char('x'), Key::Other] {
        assert_eq!(debouncer.accept(key), None);
        assert_eq!(debouncer.last_accepted(), Some(Direction::Left));
    }
    // A key in between does not open the way for a reversal.
    assert_eq!(debouncer.accept(Key::Right), None);
}

#[test]
fn keys_and_what_they_stand_for() {
    assert_eq!(Key::Up.direction(), Some(Direction::Up));
    assert_eq!(Key::Down.direction(), Some(Direction::Down));
    assert_eq!(Key::Left.direction(), Some(Direction::Left));
    assert_eq!(Key::Right.direction(), Some(Direction::Right));
    assert_eq!(Key::Esc.direction(), None);
    assert_eq!(Key::Char('w').direction(), None);
    assert_eq!(Key::Other.direction(), None);

    assert!(Key::Esc.is_quit());
    assert!(!Key::Char('q').is_quit());
    assert!(!Key::Up.is_quit());

    assert!(Key::Char('p').is_start());
    assert!(Key::Char('P').is_start());
    assert!(!Key::Char('q').is_start());
    assert!(!Key::Esc.is_start());
    assert!(!Key::Other.is_start());
}
