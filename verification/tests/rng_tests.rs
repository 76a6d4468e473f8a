use kittygame::rng::{GameRng, Rng};

#[test]
fn first_numbers_of_a_seed() {
    let mut rng = Rng::new_from_seed(0);
    assert_eq!(rng.next(), 335903614);
    assert_eq!(rng.next(), 436792849);
    assert_eq!(rng.next(), 2599843874);
    let mut rng = Rng::new_from_seed(7);
    assert_eq!(rng.next(), 2118330556);
    assert_eq!(rng.next(), 4104526463);
    assert_eq!(rng.next(), 3893713506);
}

#[test]
fn state_after_one_draw() {
    let mut rng = Rng::new_from_seed(1);
    let value = rng.next();
    let expected: u64 = 6364136223846793005u64.wrapping_add(1442695040888963407);
    assert_eq!(rng.state, expected);
    assert_eq!(value as u64, expected >> 32);
}

#[test]
fn seeded_runs_draw_the_same_numbers() {
    let mut a = GameRng::new_fixed_seed(42);
    let mut b = GameRng::new_fixed_seed(42);
    for i in 0..100 {
        if i % 3 == 0 {
            assert_eq!(a.next_for_input(), b.next_for_input());
        }
        assert_eq!(a.next_for_worldgen(), b.next_for_worldgen());
    }
    assert_eq!(a, b);
}

#[test]
fn seeded_streams_do_not_disturb_each_other() {
    let mut quiet = GameRng::new_fixed_seed(42);
    let mut busy = GameRng::new_fixed_seed(42);
    for _ in 0..17 {
        busy.next_for_input();
    }
    assert_eq!(quiet.next_for_worldgen(), 2440530669);
    assert_eq!(busy.next_for_worldgen(), 2440530669);
    assert_eq!(quiet.next_for_worldgen(), 968358053);
    assert_eq!(busy.next_for_worldgen(), 968358053);
}

#[test]
fn both_seeded_streams_start_from_the_seed() {
    let mut rng = GameRng::new_fixed_seed(42);
    assert_eq!(rng.next_for_input(), 2440530669);
    assert_eq!(rng.next_for_worldgen(), 2440530669);
}

#[test]
fn a_random_run_shares_one_stream() {
    let mut rng = GameRng::Random(Rng::new_from_seed(42));
    assert_eq!(rng.next_for_input(), 2440530669);
    assert_eq!(rng.next_for_worldgen(), 968358053);
}

#[test]
fn different_seeds_differ() {
    let mut a = Rng::new_from_seed(1);
    let mut b = Rng::new_from_seed(2);
    let xs: Vec<u32> = (0..8).map(|_| a.next()).collect();
    let ys: Vec<u32> = (0..8).map(|_| b.next()).collect();
    assert_ne!(xs, ys);
}
