use flower_simulator::{Flower, FlowerKind, FlowerState, Simulator};

#[test]
fn planting_is_visible_at_once() {
    let mut s = Simulator::new(10, 10);
    s.plant_at((3, 7), FlowerKind::hyacinth_red());
    assert_eq!(
        *s.board().get((3, 7)).unwrap(),
        Some(Flower::sprout(FlowerKind::hyacinth_red()))
    );
    assert_eq!(s.board().flower_positions(), vec![(3, 7)]);
}

#[test]
fn planting_overwrites() {
    let mut s = Simulator::new(2, 2);
    s.plant_at((1, 1), FlowerKind::rose_red());
    s.plant_at((1, 1), FlowerKind::lily_red());
    assert_eq!(*s.board().get((1, 1)).unwrap().unwrap().kind(), FlowerKind::lily_red());
}

#[test]
fn spawn_rate_is_checked() {
    let mut s = Simulator::new(2, 2);
    assert!(!s.set_spawn_rate(2, 1));
    assert!(!s.set_spawn_rate(1, 0));
    assert!(s.set_spawn_rate(0, 1));
    assert!(s.set_spawn_rate(1, 1));
}

#[test]
fn no_spawning_at_rate_zero() {
    let mut s = Simulator::new(5, 5);
    assert!(s.set_spawn_rate(0, 1));
    s.plant_at((2, 2), FlowerKind::pansy_red());
    for _ in 0..20 {
        s.next_state();
    }
    assert_eq!(s.board().flower_positions(), vec![(2, 2)]);
    assert_eq!(s.board().get((2, 2)).unwrap().unwrap().state(), FlowerState::Blooming);
}

#[test]
fn one_matured_rose_spawns_one_neighbor() {
    let mut s = Simulator::new(10, 10);
    assert!(s.set_spawn_rate(0, 1));
    s.plant_at((1, 1), FlowerKind::rose_red());
    for _ in 0..3 {
        s.next_state();
    }
    assert_eq!(s.board().get((1, 1)).unwrap().unwrap().state(), FlowerState::Blooming);
    assert!(s.set_spawn_rate(1, 1));
    s.next_state();
    let ps = s.board().flower_positions();
    assert_eq!(ps.len(), 2);
    let parent = s.board().get((1, 1)).unwrap().unwrap();
    assert_eq!(parent.state(), FlowerState::Blooming);
    assert_eq!(*parent.kind(), FlowerKind::rose_red());
    let child_pos = *ps.iter().find(|p| **p != (1, 1)).unwrap();
    assert!(child_pos.0.abs_diff(1) <= 1 && child_pos.1.abs_diff(1) <= 1);
    let child = s.board().get(child_pos).unwrap().unwrap();
    assert_eq!(child.state(), FlowerState::Sprout);
    assert_eq!(*child.kind(), FlowerKind::rose_red());
}

#[test]
fn full_neighborhood_blocks_spawning() {
    let mut s = Simulator::new(1, 1);
    assert!(s.set_spawn_rate(1, 1));
    s.plant_at((0, 0), FlowerKind::mum_red());
    for _ in 0..5 {
        s.next_state();
    }
    assert_eq!(s.board().flower_positions(), vec![(0, 0)]);
}

#[test]
fn crossing_keeps_the_species() {
    let mut s = Simulator::new(3, 3);
    assert!(s.set_spawn_rate(0, 1));
    s.plant_at((0, 0), FlowerKind::rose_red());
    s.plant_at((1, 0), FlowerKind::rose_white());
    for _ in 0..3 {
        s.next_state();
    }
    assert!(s.set_spawn_rate(1, 1));
    for _ in 0..3 {
        s.next_state();
    }
    for p in s.board().flower_positions() {
        let k = *s.board().get(p).unwrap().unwrap().kind();
        assert!(k.same_kind(&FlowerKind::rose_red()));
    }
    assert!(s.board().flower_positions().len() > 2);
}
