use grid_snake::grid::{Direction, GridCell};

const DIRECTIONS: [Direction; 4] =
    [Direction::Up, Direction::Down, Direction::Left, Direction::Right];

#[test]
fn in_front_moves_one_cell_along_each_direction() {
    let p = GridCell { x: 3, y: -4 };
    assert_eq!(p.in_front(&Direction::Up), GridCell { x: 3, y: -3 });
    assert_eq!(p.in_front(&Direction::Down), GridCell { x: 3, y: -5 });
    assert_eq!(p.in_front(&Direction::Right), GridCell { x: 4, y: -4 });
    assert_eq!(p.in_front(&Direction::Left), GridCell { x: 2, y: -4 });
}

#[test]
fn behind_moves_one_cell_against_each_direction() {
    let p = GridCell { x: 3, y: -4 };
    assert_eq!(p.behind(&Direction::Up), GridCell { x: 3, y: -5 });
    assert_eq!(p.behind(&Direction::Down), GridCell { x: 3, y: -3 });
    assert_eq!(p.behind(&Direction::Right), GridCell { x: 2, y: -4 });
    assert_eq!(p.behind(&Direction::Left), GridCell { x: 4, y: -4 });
}

#[test]
fn steps_wrap_at_the_ends_of_the_axes() {
    let corner = GridCell { x: i8::MAX, y: i8::MIN };
    assert_eq!(
        corner.in_front(&Direction::Right),
        GridCell { x: i8::MIN, y: i8::MIN }
    );
    assert_eq!(
        corner.in_front(&Direction::Down),
        GridCell { x: i8::MAX, y: i8::MAX }
    );
    assert_eq!(
        corner.behind(&Direction::Left),
        GridCell { x: i8::MIN, y: i8::MIN }
    );
    assert_eq!(
        corner.behind(&Direction::Up),
        GridCell { x: i8::MAX, y: i8::MAX }
    );
}

#[test]
fn behind_undoes_in_front_everywhere() {
    for x in i8::MIN..=i8::MAX {
        for y in i8::MIN..=i8::MAX {
            let p = GridCell { x, y };
            for d in DIRECTIONS.iter() {
                assert_eq!(p.in_front(d).behind(d), p);
                assert_eq!(p.behind(d).in_front(d), p);
            }
        }
    }
}

#[test]
fn a_step_always_leaves_the_cell() {
    for x in i8::MIN..=i8::MAX {
        let p = GridCell { x, y: x };
        for d in DIRECTIONS.iter() {
            assert_ne!(p.in_front(d), p);
            assert_ne!(p.behind(d), p);
        }
    }
}

#[test]
fn opposite_pairs_up_the_directions() {
    assert_eq!(Direction::Up.opposite(), Direction::Down);
    assert_eq!(Direction::Down.opposite(), Direction::Up);
    assert_eq!(Direction::Left.opposite(), Direction::Right);
    assert_eq!(Direction::Right.opposite(), Direction::Left);
}

#[test]
fn behind_is_in_front_of_the_opposite() {
    let p = GridCell { x: -7, y: 12 };
    for d in DIRECTIONS.iter() {
        assert_eq!(p.behind(d), p.in_front(&d.opposite()));
        assert_eq!(d.opposite().opposite(), *d);
    }
}

#[test]
fn defaults_are_origin_and_down() {
    assert_eq!(GridCell::default(), GridCell { x: 0, y: 0 });
    assert_eq!(Direction::default(), Direction::Down);
}
