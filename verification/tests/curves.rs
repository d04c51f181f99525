use wizzy_demo::easing::Easing;

#[test]
fn linear_parts_pass_progress_through() {
    let (n0, d0) = Easing::Linear.sample_parts(0, 120);
    assert_eq!((n0, d0), (0, 120));
    let (n1, d1) = Easing::Linear.sample_parts(30, 120);
    assert_eq!((n1, d1), (30, 120));
    let (n2, d2) = Easing::Linear.sample_parts(120, 120);
    assert_eq!((n2, d2), (120, 120));
}

#[test]
fn ease_out_cubic_starts_at_zero() {
    let (num, den) = Easing::EaseOutCubic.sample_parts(0, 120);
    assert_eq!(num, 0);
    assert_eq!(den, 1728000);
}

#[test]
fn ease_out_cubic_ends_at_one() {
    let (num, den) = Easing::EaseOutCubic.sample_parts(120, 120);
    assert_eq!(num, den);
    assert_eq!(den, 1728000);
}

#[test]
fn ease_out_cubic_first_step_value() {
    // 120^3 - 119^3
    let (num, den) = Easing::EaseOutCubic.sample_parts(1, 120);
    assert_eq!(num, 42841);
    assert_eq!(den, 1728000);
}

#[test]
fn ease_out_cubic_is_monotone_over_a_sweep() {
    let mut prev: u64 = 0;
    for e in 0..=120u32 {
        let (num, den) = Easing::EaseOutCubic.sample_parts(e, 120);
        assert!(num >= prev);
        assert!(num <= den);
        prev = num;
    }
}

#[test]
fn ease_out_cubic_decelerates() {
    // The first step covers more progress than the last step.
    let (first, den) = Easing::EaseOutCubic.sample_parts(1, 120);
    let (before_last, _) = Easing::EaseOutCubic.sample_parts(119, 120);
    assert!(first > den - before_last);
}

#[test]
fn shortest_duration_is_exact() {
    let (n, d) = Easing::EaseOutCubic.sample_parts(1, 1);
    assert_eq!((n, d), (1, 1));
}
