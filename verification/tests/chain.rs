use chain_reaction::PlayerId;
use chain_reaction::board::Dots;
use chain_reaction::board::Grid;
use chain_reaction::board::StaticCell;

/// Drives a two-generation chain reaction the way the animation layer
/// would: advance every particle to completion, then place its owner at
/// its destination, until no particles remain in flight.
#[test]
fn chain_reaction_settles_and_leaves_one_owner() {
    let mut g = Grid::new();
    g.set(2, 2, Some(StaticCell::new(PlayerId(1), Dots::Three)));
    g.set(3, 2, Some(StaticCell::new(PlayerId(2), Dots::Three)));
    g.set(0, 0, Some(StaticCell::new(PlayerId(1), Dots::One)));

    // The first explosion is not yet a settled game: owners are mixed.
    assert_eq!(g.get_winner(), None);

    let mut queue = g.put(PlayerId(1), 2, 2).unwrap();
    assert_eq!(queue.len(), 4);
    let mut explosions = 1;

    while let Some(mut p) = queue.pop() {
        for _ in 0..50 {
            assert!(!p.advance());
        }
        assert!(p.is_completed());
        let (dx, dy) = p.destination().unwrap();
        if let Some(batch) = g.put(p.owner, dx, dy) {
            explosions += 1;
            queue.extend(batch);
        }
    }

    // The right-bound particle of the first explosion set off the cell at
    // (3, 2); the second generation all landed on empty positions.
    assert_eq!(explosions, 2);
    assert!(g.get(2, 2).is_none());
    assert!(g.get(3, 2).is_none());

    // Settled: the sole surviving cell decides the winner.
    assert_eq!(g.get_winner(), Some(PlayerId(1)));
}
