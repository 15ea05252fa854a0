use flower_simulator::{Board, Flower, FlowerKind, FlowerState, SpawnDraw};

fn bloom(kind: FlowerKind) -> Flower {
    let mut f = Flower::sprout(kind);
    for _ in 0..3 {
        f.growup();
    }
    f
}

fn cells(b: &Board) -> Vec<Option<Flower>> {
    let mut r = Vec::new();
    for y in 0..b.height() {
        for x in 0..b.width() {
            r.push(*b.get((x, y)).unwrap());
        }
    }
    r
}

const IDLE_PICKS: [(bool, bool); 4] = [(false, false); 4];

#[test]
fn new_board_is_empty_with_its_dimensions() {
    let b = Board::new(3, 5);
    assert_eq!(b.width(), 3);
    assert_eq!(b.height(), 5);
    assert!(b.flower_positions().is_empty());
    assert_eq!(*b.get((2, 4)).unwrap(), None);
}

#[test]
fn bounds_are_checked_on_both_axes() {
    let b = Board::new(3, 5);
    assert!(b.is_in_bound((0, 0)));
    assert!(b.is_in_bound((2, 4)));
    assert!(!b.is_in_bound((3, 0)));
    assert!(!b.is_in_bound((0, 5)));
    assert!(b.get((3, 0)).is_none());
    assert!(b.get((0, 5)).is_none());
}

#[test]
fn set_then_get_returns_the_flower() {
    let mut b = Board::new(4, 4);
    let f = Flower::sprout(FlowerKind::tulip_red());
    b.set((3, 1), Some(f));
    assert_eq!(*b.get((3, 1)).unwrap(), Some(f));
    assert_eq!(*b.get((1, 3)).unwrap(), None);
}

#[test]
fn get_mut_writes_through() {
    let mut b = Board::new(2, 2);
    *b.get_mut((1, 0)).unwrap() = Some(Flower::sprout(FlowerKind::mum_red()));
    assert!(b.get((1, 0)).unwrap().is_some());
    assert!(b.get_mut((2, 0)).is_none());
}

#[test]
fn neighbor_positions_at_a_corner() {
    let ps = Board::neigbor_positions((0, 0));
    let valid = ps.iter().filter(|p| p.0.is_some() && p.1.is_some()).count();
    assert_eq!(valid, 3);
    assert_eq!(ps[4], (Some(1), Some(0)));
    assert_eq!(ps[6], (Some(0), Some(1)));
    assert_eq!(ps[7], (Some(1), Some(1)));
    let b = Board::new(2, 2);
    assert_eq!(b.empty_neighbor_positions((0, 0)), vec![(1, 0), (0, 1), (1, 1)]);
}

#[test]
fn neighbor_positions_in_the_interior() {
    let ps = Board::neigbor_positions((5, 5));
    assert!(ps.iter().all(|p| p.0.is_some() && p.1.is_some()));
    assert_eq!(
        ps,
        [
            (Some(4), Some(4)),
            (Some(5), Some(4)),
            (Some(6), Some(4)),
            (Some(4), Some(5)),
            (Some(6), Some(5)),
            (Some(4), Some(6)),
            (Some(5), Some(6)),
            (Some(6), Some(6)),
        ]
    );
    let b = Board::new(10, 10);
    assert_eq!(b.empty_neighbor_positions((5, 5)).len(), 8);
}

#[test]
fn neighbor_positions_at_the_top_of_usize() {
    let ps = Board::neigbor_positions((usize::MAX, 3));
    assert_eq!(ps[2], (None, Some(2)));
    assert_eq!(ps[3], (Some(usize::MAX - 1), Some(3)));
}

#[test]
fn neighbors_in_enumeration_order() {
    let mut b = Board::new(3, 3);
    let nw = Flower::sprout(FlowerKind::rose_red());
    let se = Flower::sprout(FlowerKind::lily_red());
    b.set((0, 0), Some(nw));
    b.set((2, 2), Some(se));
    let n = b.neighbors((1, 1));
    assert_eq!(n[0], Some(&nw));
    assert_eq!(n[7], Some(&se));
    assert!(n[1..7].iter().all(|o| o.is_none()));
    // off the right edge there is nothing, not the next row
    let e = b.neighbors((2, 1));
    assert!(e[4].is_none());
    assert_eq!(e[6], Some(&se));
}

#[test]
fn flower_positions_in_row_major_order() {
    let mut b = Board::new(3, 3);
    for p in [(2, 2), (0, 1), (2, 0), (1, 1)] {
        b.set(p, Some(Flower::sprout(FlowerKind::pansy_red())));
    }
    assert_eq!(b.flower_positions(), vec![(2, 0), (0, 1), (1, 1), (2, 2)]);
}

#[test]
fn grow_all_grows_every_flower() {
    let mut b = Board::new(2, 2);
    b.set((0, 0), Some(Flower::sprout(FlowerKind::rose_red())));
    b.set((1, 1), Some(bloom(FlowerKind::rose_red())));
    b.grow_all();
    assert_eq!(b.get((0, 0)).unwrap().unwrap().state(), FlowerState::Stem);
    assert_eq!(b.get((1, 1)).unwrap().unwrap().state(), FlowerState::Blooming);
    assert_eq!(*b.get((1, 0)).unwrap(), None);
}

#[test]
fn crossable_neighbors_are_matured_and_of_the_species() {
    let mut b = Board::new(3, 3);
    b.set((1, 1), Some(bloom(FlowerKind::rose_red())));
    b.set((0, 0), Some(bloom(FlowerKind::rose_white())));
    b.set((1, 0), Some(Flower::sprout(FlowerKind::rose_yellow())));
    b.set((2, 0), Some(bloom(FlowerKind::cosmos_red())));
    b.set((2, 2), Some(bloom(FlowerKind::rose_yellow())));
    let c = b.crossable_neighbors((1, 1), &FlowerKind::rose_red());
    assert_eq!(c, vec![FlowerKind::rose_white(), FlowerKind::rose_yellow()]);
}

#[test]
fn spawn_step_mates_with_the_chosen_partner() {
    let mut b = Board::new(3, 1);
    b.set((0, 0), Some(bloom(FlowerKind::cosmos_red())));
    b.set((1, 0), Some(bloom(FlowerKind::cosmos_white())));
    let d = SpawnDraw { spawn: true, partner: 0, picks: [(true, true); 4], place: 0 };
    b.spawn_step((1, 0), &d);
    let child = b.get((2, 0)).unwrap().unwrap();
    assert_eq!(child.state(), FlowerState::Sprout);
    // cosmos_white [0 0 1] mated with cosmos_red [2 0 0], second slots taken
    let expected = FlowerKind::cosmos_white().mate(&FlowerKind::cosmos_red(), [(true, true); 4]);
    assert_eq!(*child.kind(), expected);
    assert_ne!(*child.kind(), FlowerKind::cosmos_white());
}

#[test]
fn spawn_step_clones_without_partner() {
    let mut b = Board::new(2, 1);
    b.set((0, 0), Some(bloom(FlowerKind::tulip_yellow())));
    let d = SpawnDraw { spawn: true, partner: 5, picks: IDLE_PICKS, place: 7 };
    b.spawn_step((0, 0), &d);
    assert_eq!(*b.get((1, 0)).unwrap(), Some(Flower::sprout(FlowerKind::tulip_yellow())));
}

#[test]
fn spawn_step_does_nothing_when_not_drawn_or_full() {
    let mut b = Board::new(2, 1);
    b.set((0, 0), Some(bloom(FlowerKind::tulip_yellow())));
    let idle = SpawnDraw { spawn: false, partner: 0, picks: IDLE_PICKS, place: 0 };
    b.spawn_step((0, 0), &idle);
    assert_eq!(b.flower_positions(), vec![(0, 0)]);
    let go = SpawnDraw { spawn: true, partner: 0, picks: IDLE_PICKS, place: 0 };
    b.spawn_step((1, 0), &go);
    assert_eq!(b.flower_positions(), vec![(0, 0)]);
    let mut one = Board::new(1, 1);
    one.set((0, 0), Some(bloom(FlowerKind::mum_red())));
    one.spawn_step((0, 0), &go);
    assert_eq!(one.flower_positions(), vec![(0, 0)]);
}

#[test]
fn tick_is_determined_by_board_and_draws() {
    let mut a = Board::new(6, 6);
    let mut b = Board::new(6, 6);
    for board in [&mut a, &mut b] {
        board.set((2, 2), Some(bloom(FlowerKind::rose_red())));
        board.set((3, 2), Some(bloom(FlowerKind::rose_white())));
        board.set((0, 5), Some(Flower::sprout(FlowerKind::lily_red())));
    }
    let steps = vec![
        ((3, 2), SpawnDraw { spawn: true, partner: 0, picks: [(true, false); 4], place: 3 }),
        ((0, 5), SpawnDraw { spawn: true, partner: 0, picks: IDLE_PICKS, place: 1 }),
        ((2, 2), SpawnDraw { spawn: true, partner: 1, picks: [(false, true); 4], place: 6 }),
    ];
    a.tick(&steps);
    b.tick(&steps);
    assert_eq!(cells(&a), cells(&b));
    assert_eq!(a.flower_positions().len(), 6);
}
