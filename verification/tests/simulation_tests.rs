use grid_snake::chain::Pose;
use grid_snake::control::KeysPressed;
use grid_snake::grid::{Direction, GridCell};
use grid_snake::render::RenderItem;
use grid_snake::simulation::{Frame, Simulation, STEP_PERIOD};

fn pose(x: i8, y: i8, direction: Direction) -> Pose {
    Pose { cell: GridCell { x, y }, direction }
}

fn origin() -> GridCell {
    GridCell { x: 0, y: 0 }
}

fn keys(w: bool, s: bool, a: bool, d: bool, space: bool) -> KeysPressed {
    KeysPressed { w, s, a, d, space }
}

#[test]
fn end_to_end_scenario() {
    let mut game = Simulation::new(origin(), Direction::Down, 1, STEP_PERIOD);
    assert_eq!(game.chain().poses(), vec![pose(0, 0, Direction::Down)]);
    game.enqueue_growth();
    game.tick();
    assert_eq!(game.chain().len(), 2);
    assert_eq!(
        game.chain().poses(),
        vec![pose(0, -1, Direction::Down), pose(0, 0, Direction::Down)]
    );
    assert_eq!(game.pending_growth(), 0);
    assert_eq!(game.chain().segment(1).unwrap().child, None);
    assert_eq!(game.chain().segment(1).unwrap().parent, Some(0));
}

#[test]
fn step_period_is_half_a_second() {
    assert_eq!(STEP_PERIOD, 500_000);
}

#[test]
fn new_game_has_the_asked_length_and_nothing_pending() {
    let game = Simulation::new(origin(), Direction::Right, 3, 1_000);
    assert_eq!(
        game.chain().poses(),
        vec![
            pose(0, 0, Direction::Right),
            pose(-1, 0, Direction::Right),
            pose(-2, 0, Direction::Right)
        ]
    );
    assert_eq!(game.pending_direction(), Direction::Right);
    assert_eq!(game.pending_growth(), 0);
    assert_eq!(game.elapsed(), 0);
}

#[test]
fn keys_change_the_next_step_and_not_the_chain() {
    let mut game = Simulation::new(origin(), Direction::Down, 2, STEP_PERIOD);
    let before = game.chain().poses();
    game.keyboard(&keys(true, false, false, false, true));
    game.keyboard(&keys(false, false, true, false, true));
    game.keyboard(&keys(false, false, false, false, false));
    assert_eq!(game.chain().poses(), before);
    assert_eq!(game.pending_direction(), Direction::Left);
    assert_eq!(game.pending_growth(), 2);
    game.set_pending_direction(Direction::Up);
    assert_eq!(game.pending_direction(), Direction::Up);
    assert_eq!(game.chain().poses(), before);
}

#[test]
fn the_direction_persists_across_steps() {
    let mut game = Simulation::new(origin(), Direction::Down, 1, STEP_PERIOD);
    game.set_pending_direction(Direction::Right);
    game.tick();
    game.tick();
    game.tick();
    assert_eq!(game.chain().poses(), vec![pose(3, 0, Direction::Right)]);
    assert_eq!(game.pending_direction(), Direction::Right);
}

#[test]
fn advance_steps_once_when_the_period_is_reached() {
    let mut game = Simulation::new(origin(), Direction::Down, 1, STEP_PERIOD);
    assert!(!game.advance(300_000));
    assert_eq!(game.chain().poses(), vec![pose(0, 0, Direction::Down)]);
    assert_eq!(game.elapsed(), 300_000);
    assert!(game.advance(300_000));
    assert_eq!(game.chain().poses(), vec![pose(0, -1, Direction::Down)]);
    assert_eq!(game.elapsed(), 0);
    assert!(game.advance(10 * STEP_PERIOD));
    assert_eq!(game.chain().poses(), vec![pose(0, -2, Direction::Down)]);
    assert_eq!(game.elapsed(), 0);
}

#[test]
fn growth_waits_for_the_step() {
    let mut game = Simulation::new(origin(), Direction::Down, 1, STEP_PERIOD);
    game.enqueue_growth();
    game.enqueue_growth();
    assert!(!game.advance(100));
    assert_eq!(game.chain().len(), 1);
    assert_eq!(game.pending_growth(), 2);
    assert!(game.advance(STEP_PERIOD));
    assert_eq!(
        game.chain().poses(),
        vec![
            pose(0, -1, Direction::Down),
            pose(0, 0, Direction::Down),
            pose(0, 1, Direction::Down)
        ]
    );
    assert_eq!(game.pending_growth(), 0);
}

#[test]
fn frame_handles_keys_before_time() {
    let mut game = Simulation::new(origin(), Direction::Down, 1, STEP_PERIOD);
    let stepped = game.frame(&Frame {
        keys: keys(false, false, false, true, true),
        delta: STEP_PERIOD,
    });
    assert!(stepped);
    assert_eq!(
        game.chain().poses(),
        vec![pose(1, 0, Direction::Right), pose(0, 0, Direction::Right)]
    );
}

#[test]
fn run_plays_frames_in_order() {
    let mut game = Simulation::new(origin(), Direction::Down, 1, STEP_PERIOD);
    let frames = vec![
        Frame { keys: keys(false, false, false, false, true), delta: 300_000 },
        Frame { keys: keys(false, false, false, true, false), delta: 300_000 },
        Frame { keys: keys(true, false, false, false, false), delta: 100_000 },
        Frame { keys: keys(false, false, false, false, true), delta: 400_000 },
    ];
    game.run(&frames);
    assert_eq!(
        game.chain().poses(),
        vec![
            pose(1, 1, Direction::Up),
            pose(1, 0, Direction::Right),
            pose(0, 0, Direction::Right)
        ]
    );
    assert_eq!(game.elapsed(), 0);
    assert_eq!(game.pending_growth(), 0);
    let mut other = Simulation::new(origin(), Direction::Down, 1, STEP_PERIOD);
    other.run(&Vec::new());
    assert_eq!(other.chain().poses(), vec![pose(0, 0, Direction::Down)]);
}

#[test]
fn chain_invariants_hold_after_every_tick() {
    let mut game = Simulation::new(origin(), Direction::Down, 1, 1);
    let course = [
        (Direction::Down, 1usize),
        (Direction::Left, 0),
        (Direction::Left, 3),
        (Direction::Up, 0),
        (Direction::Right, 2),
        (Direction::Right, 0),
        (Direction::Down, 1),
    ];
    let mut expected: usize = 1;
    for (direction, growth) in course.iter() {
        game.set_pending_direction(*direction);
        for _ in 0..*growth {
            game.enqueue_growth();
        }
        assert!(game.advance(1));
        expected += *growth;
        let chain = game.chain();
        assert_eq!(chain.len(), expected);
        let mut heads: usize = 0;
        let mut tails: usize = 0;
        for i in 0..chain.len() {
            let s = chain.segment(i).unwrap();
            if s.parent.is_none() {
                heads += 1;
            }
            if s.child.is_none() {
                tails += 1;
            }
        }
        assert_eq!(heads, 1);
        assert_eq!(tails, 1);
        let mut visited: usize = 0;
        let mut at = Some(chain.head());
        while let Some(i) = at {
            visited += 1;
            assert!(visited <= chain.len());
            at = chain.segment(i).unwrap().child;
        }
        assert_eq!(visited, chain.len());
        let poses = chain.poses();
        for i in 1..poses.len() {
            assert_eq!(poses[i].cell, poses[i - 1].cell.behind(&poses[i - 1].direction));
        }
    }
}

#[test]
fn render_marks_head_and_tail() {
    let mut game = Simulation::new(origin(), Direction::Down, 3, STEP_PERIOD);
    game.set_pending_direction(Direction::Left);
    game.tick();
    assert_eq!(
        game.render(),
        vec![
            RenderItem {
                position: GridCell { x: -1, y: 0 },
                facing: Direction::Left,
                is_head: true,
                is_tail: false
            },
            RenderItem {
                position: GridCell { x: 0, y: 0 },
                facing: Direction::Down,
                is_head: false,
                is_tail: false
            },
            RenderItem {
                position: GridCell { x: 0, y: 1 },
                facing: Direction::Down,
                is_head: false,
                is_tail: true
            },
        ]
    );
}
