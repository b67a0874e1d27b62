use kingoftokyo::dice::{face_of_value, roll_dice, tally, DieFace};

#[test]
fn tally_counts_each_face() {
    let roll = [
        DieFace::One,
        DieFace::One,
        DieFace::Three,
        DieFace::Energy,
        DieFace::Claw,
        DieFace::Heart,
    ];
    let t = tally(&roll);
    assert_eq!(t.ones, 2);
    assert_eq!(t.twos, 0);
    assert_eq!(t.threes, 1);
    assert_eq!(t.energy, 1);
    assert_eq!(t.claws, 1);
    assert_eq!(t.hearts, 1);
}

#[test]
fn tally_counts_sum_to_six() {
    let roll = [
        DieFace::Two,
        DieFace::Two,
        DieFace::Two,
        DieFace::Two,
        DieFace::Heart,
        DieFace::Claw,
    ];
    let t = tally(&roll);
    let sum = t.ones as u32 + t.twos as u32 + t.threes as u32 + t.energy as u32 + t.claws as u32
        + t.hearts as u32;
    assert_eq!(sum, 6);
}

#[test]
fn random_roll_tally_sums_to_six() {
    for _ in 0..50 {
        let roll = roll_dice();
        let t = tally(&roll);
        let sum = t.ones as u32 + t.twos as u32 + t.threes as u32 + t.energy as u32
            + t.claws as u32 + t.hearts as u32;
        assert_eq!(sum, 6);
    }
}

#[test]
fn face_of_value_maps_all_six() {
    assert_eq!(face_of_value(1), DieFace::One);
    assert_eq!(face_of_value(2), DieFace::Two);
    assert_eq!(face_of_value(3), DieFace::Three);
    assert_eq!(face_of_value(4), DieFace::Energy);
    assert_eq!(face_of_value(5), DieFace::Claw);
    assert_eq!(face_of_value(6), DieFace::Heart);
}
