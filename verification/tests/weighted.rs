use rand::rngs::SmallRng;
use rand::SeedableRng;
use renarrator::config::SoundOption;
use renarrator::volume::Volume;
use renarrator::weighted::{pick_by_roll, pick_weighted, RollSource};

fn snd(path: &str, weight: u32) -> SoundOption {
    SoundOption {
        path: path.to_string(),
        volume: Volume { bits: 1.0f32.to_bits() },
        weight,
    }
}

#[test]
fn empty_list_returns_none() {
    let mut rng = SmallRng::seed_from_u64(1);
    assert!(pick_weighted(&[], &mut rng).is_none());
}

#[test]
fn single_sound_always_picked() {
    let mut rng = SmallRng::seed_from_u64(2);
    let sounds = vec![snd("a.mp3", 5)];
    for _ in 0..50 {
        assert_eq!(pick_weighted(&sounds, &mut rng).unwrap().path, "a.mp3");
    }
}

#[test]
fn zero_weight_never_picked() {
    let mut rng = SmallRng::seed_from_u64(3);
    let sounds = vec![snd("never.mp3", 0), snd("always.mp3", 10)];
    for _ in 0..200 {
        assert_eq!(pick_weighted(&sounds, &mut rng).unwrap().path, "always.mp3");
    }
}

#[test]
fn all_zero_weights_falls_back_to_first() {
    let mut rng = SmallRng::seed_from_u64(4);
    let sounds = vec![snd("a.mp3", 0), snd("b.mp3", 0)];
    assert_eq!(pick_weighted(&sounds, &mut rng).unwrap().path, "a.mp3");
}

#[test]
fn distribution_matches_normalized_weights() {
    let mut rng = SmallRng::seed_from_u64(42);
    let sounds = vec![snd("a.mp3", 60), snd("b.mp3", 30), snd("c.mp3", 10)];
    let n = 20_000;
    let mut counts = [0usize; 3];
    for _ in 0..n {
        let picked = pick_weighted(&sounds, &mut rng).unwrap();
        let idx = sounds
            .iter()
            .position(|s| s.path == picked.path)
            .expect("picked sound must come from the list");
        counts[idx] += 1;
    }
    let p = |i: usize| counts[i] as f64 / n as f64;
    assert!((p(0) - 0.60).abs() < 0.03, "p(0)={}", p(0));
    assert!((p(1) - 0.30).abs() < 0.03, "p(1)={}", p(1));
    assert!((p(2) - 0.10).abs() < 0.02, "p(2)={}", p(2));
}

#[test]
fn each_roll_falls_to_the_sound_whose_share_it_is() {
    let sounds = vec![snd("a.mp3", 2), snd("none.mp3", 0), snd("b.mp3", 3)];
    let names: Vec<&str> = (0..6)
        .map(|roll| pick_by_roll(&sounds, roll).unwrap().path.as_str())
        .collect();
    assert_eq!(names, ["a.mp3", "a.mp3", "b.mp3", "b.mp3", "b.mp3", "b.mp3"]);
}

#[test]
fn shares_of_all_rolls_are_the_weights() {
    let sounds = vec![snd("a.mp3", 60), snd("b.mp3", 30), snd("c.mp3", 10)];
    for sound in &sounds {
        let hits = (0..100)
            .filter(|roll| pick_by_roll(&sounds, *roll).unwrap().path == sound.path)
            .count();
        assert_eq!(hits, sound.weight as usize);
    }
}

#[test]
fn roll_past_the_total_takes_the_last() {
    let sounds = vec![snd("a.mp3", 1), snd("b.mp3", 1)];
    assert_eq!(pick_by_roll(&sounds, u64::MAX).unwrap().path, "b.mp3");
    assert!(pick_by_roll(&[], 0).is_none());
}

#[test]
fn largest_weights_do_not_overflow() {
    let sounds = vec![snd("a.mp3", u32::MAX), snd("b.mp3", u32::MAX)];
    let border = u64::from(u32::MAX);
    assert_eq!(pick_by_roll(&sounds, border - 1).unwrap().path, "a.mp3");
    assert_eq!(pick_by_roll(&sounds, border).unwrap().path, "b.mp3");
}

#[test]
fn rolls_stay_below_the_bound_and_vary() {
    let mut small = SmallRng::seed_from_u64(7);
    let mut thread = rand::rng();
    let mut seen = [false; 4];
    for _ in 0..400 {
        let roll = small.roll_below(4);
        assert!(roll < 4);
        seen[roll as usize] = true;
        assert!(thread.roll_below(4) < 4);
        assert_eq!(thread.roll_below(1), 0);
    }
    assert_eq!(seen, [true; 4]);
}

#[test]
fn one_number_is_drawn_where_chance_decides_and_none_elsewhere() {
    let mut rng = SmallRng::seed_from_u64(8);
    let untouched = rng.clone();
    assert!(pick_weighted(&[], &mut rng).is_none());
    assert!(pick_weighted(&[snd("a.mp3", 0)], &mut rng).is_some());
    assert_eq!(rng, untouched);
    assert!(pick_weighted(&[snd("a.mp3", 4)], &mut rng).is_some());
    assert_ne!(rng, untouched);
    let mut once = untouched;
    once.roll_below(4);
    assert_eq!(rng, once);
}
