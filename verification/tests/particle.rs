use chain_reaction::PlayerId;
use chain_reaction::particle::Direction;
use chain_reaction::particle::Particle;

#[test]
fn fresh_particle_sits_on_its_origin() {
    let p = Particle::new(PlayerId(1), 2, 3, Direction::Up);
    assert_eq!(p.progress, 0);
    assert!(!p.is_completed());
    assert_eq!(p.pos_x_hundredths(), 200);
    assert_eq!(p.pos_y_hundredths(), 300);
}

#[test]
fn completion_takes_exactly_fifty_advances() {
    let mut p = Particle::new(PlayerId(1), 2, 2, Direction::Right);
    for _ in 0..50 {
        assert!(!p.is_completed());
        assert!(!p.advance());
    }
    assert!(p.is_completed());
    assert_eq!(p.pos_x_hundredths(), 300);
    assert_eq!(p.pos_y_hundredths(), 200);
}

#[test]
fn advance_is_idempotent_after_completion() {
    let mut p = Particle::new(PlayerId(2), 1, 1, Direction::Down);
    for _ in 0..50 {
        p.advance();
    }
    assert!(p.is_completed());
    let x = p.pos_x_hundredths();
    let y = p.pos_y_hundredths();
    for _ in 0..10 {
        assert!(p.advance());
        assert!(p.is_completed());
        assert_eq!(p.pos_x_hundredths(), x);
        assert_eq!(p.pos_y_hundredths(), y);
    }
    assert_eq!(x, 100);
    assert_eq!(y, 200);
}

#[test]
fn one_advance_moves_two_hundredths_along_the_axis() {
    let mut up = Particle::new(PlayerId(1), 2, 2, Direction::Up);
    up.advance();
    assert_eq!((up.pos_x_hundredths(), up.pos_y_hundredths()), (200, 198));

    let mut right = Particle::new(PlayerId(1), 2, 2, Direction::Right);
    right.advance();
    assert_eq!((right.pos_x_hundredths(), right.pos_y_hundredths()), (202, 200));

    let mut down = Particle::new(PlayerId(1), 2, 2, Direction::Down);
    down.advance();
    assert_eq!((down.pos_x_hundredths(), down.pos_y_hundredths()), (200, 202));

    let mut left = Particle::new(PlayerId(1), 2, 2, Direction::Left);
    left.advance();
    assert_eq!((left.pos_x_hundredths(), left.pos_y_hundredths()), (198, 200));
}

#[test]
fn completed_particle_rests_on_its_destination() {
    let mut p = Particle::new(PlayerId(1), 0, 0, Direction::Down);
    for _ in 0..50 {
        p.advance();
    }
    let (dx, dy) = p.destination().unwrap();
    assert_eq!((dx, dy), (0, 1));
    assert_eq!(p.pos_x_hundredths(), dx as i32 * 100);
    assert_eq!(p.pos_y_hundredths(), dy as i32 * 100);
}

#[test]
fn destination_is_origin_plus_unit_offset() {
    let p = Particle::new(PlayerId(1), 2, 3, Direction::Up);
    assert_eq!(p.destination(), Some((2, 2)));
    let p = Particle::new(PlayerId(1), 2, 3, Direction::Right);
    assert_eq!(p.destination(), Some((3, 3)));
    let p = Particle::new(PlayerId(1), 2, 3, Direction::Down);
    assert_eq!(p.destination(), Some((2, 4)));
    let p = Particle::new(PlayerId(1), 2, 3, Direction::Left);
    assert_eq!(p.destination(), Some((1, 3)));
}

#[test]
fn destination_off_the_board_is_none() {
    assert_eq!(Particle::new(PlayerId(1), 0, 0, Direction::Left).destination(), None);
    assert_eq!(Particle::new(PlayerId(1), 0, 0, Direction::Up).destination(), None);
    assert_eq!(Particle::new(PlayerId(1), 4, 4, Direction::Right).destination(), None);
    assert_eq!(Particle::new(PlayerId(1), 4, 4, Direction::Down).destination(), None);
}
