use handy::recovery::{
    eq_ignore_ascii_case, is_old_enough, is_orphan_candidate, is_wav_extension, RecoveryGate,
};

#[test]
fn wav_extension_ignores_ascii_case() {
    assert!(is_wav_extension(Some("wav")));
    assert!(is_wav_extension(Some("WAV")));
    assert!(is_wav_extension(Some("WaV")));
    assert!(!is_wav_extension(Some("wave")));
    assert!(!is_wav_extension(Some("mp3")));
    assert!(!is_wav_extension(None));
    assert!(eq_ignore_ascii_case("Ää", "Ää"));
    assert!(!eq_ignore_ascii_case("ä", "Ä"));
}

#[test]
fn zero_minimum_age_admits_everything() {
    assert!(is_old_enough(None, 0));
    assert!(is_old_enough(Some(0), 0));
}

#[test]
fn age_must_reach_the_minimum() {
    let sec = 1_000_000_000u128;
    assert!(is_old_enough(Some(5 * sec), 5 * sec));
    assert!(is_old_enough(Some(6 * sec), 5 * sec));
    assert!(!is_old_enough(Some(5 * sec - 1), 5 * sec));
    assert!(!is_old_enough(None, 1));
}

#[test]
fn orphan_candidates_are_unknown_old_wav_files() {
    let known = vec!["a.wav".to_string(), "b.wav".to_string()];
    assert!(is_orphan_candidate(Some("wav"), true, Some("c.wav"), &known));
    assert!(!is_orphan_candidate(Some("wav"), true, Some("a.wav"), &known));
    assert!(!is_orphan_candidate(Some("wav"), false, Some("c.wav"), &known));
    assert!(!is_orphan_candidate(Some("txt"), true, Some("c.txt"), &known));
    assert!(!is_orphan_candidate(Some("wav"), true, None, &known));
    assert!(is_orphan_candidate(Some("WAV"), true, Some("A.WAV"), &known));
}

#[test]
fn only_one_recovery_runs_at_a_time() {
    let mut gate = RecoveryGate::new();
    assert!(gate.try_begin());
    assert!(!gate.try_begin());
    gate.finish();
    assert!(gate.try_begin());
}
