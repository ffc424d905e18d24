use insync::audio_analysis::{
    calculate_novelty_curve, peak_detection, spectral_flux, AudioHistory, THRESHOLD, WINDOW,
};
use insync::enemy_spawn::{run, MAX_DEPTH, MAX_SIDE, MIN_DEPTH, MIN_SIDE};

fn silent() -> Vec<u32> {
    vec![0; 129]
}

fn loud() -> Vec<u32> {
    let mut frame = vec![0; 129];
    for bin in 10..18 {
        frame[bin] = 3_000_000;
    }
    frame
}

#[test]
fn warm_up_without_buffers() {
    let mut history = AudioHistory::new();
    assert!(history.normalised_novelty.is_empty());
    assert_eq!(peak_detection(&mut history), None);
}

#[test]
fn warm_up_with_one_buffer() {
    let mut history = AudioHistory::new();
    calculate_novelty_curve(loud(), &mut history);
    assert!(history.normalised_novelty.is_empty());
    assert!(history.novelty.is_empty());
    assert_eq!(history.spectrum.len(), 1);
    assert_eq!(peak_detection(&mut history), None);
}

#[test]
fn sliding_window_stays_bounded() {
    let mut history = AudioHistory::new();
    for n in 0..300u32 {
        let frame: Vec<u32> = (0..129u32).map(|b| (b * 7919 + n * 104_729) % 4_000_000).collect();
        calculate_novelty_curve(frame, &mut history);
        assert!(history.novelty.len() <= 128);
        assert!(history.spectrum.len() <= 2);
        if n >= 128 {
            assert_eq!(history.normalised_novelty.len(), WINDOW);
        }
    }
    assert_eq!(history.novelty.len(), 127);
    assert_eq!(history.spectrum.len(), 1);
}

#[test]
fn falling_spectrum_adds_no_novelty() {
    let mut history = AudioHistory::new();
    calculate_novelty_curve(vec![5_000_000, 4_000_000, 3_000_000, 9], &mut history);
    calculate_novelty_curve(vec![5_000_000, 1_000_000, 0, 9], &mut history);
    assert_eq!(history.novelty.len(), 1);
    assert_eq!(history.novelty[0], 0);
}

#[test]
fn flux_counts_rises_only() {
    let prev = vec![1, 5, 9, 100];
    let new = vec![4, 2, 10, 100];
    assert_eq!(spectral_flux(&prev, &new), 4);
    assert_eq!(spectral_flux(&new, &prev), 3);
}

#[test]
fn flux_uses_shared_bins() {
    assert_eq!(spectral_flux(&vec![0, 0], &vec![3, 4, 1_000]), 7);
    assert_eq!(spectral_flux(&vec![0, 0, 0], &vec![6]), 6);
    assert_eq!(spectral_flux(&vec![], &vec![6]), 0);
}

#[test]
fn novelty_is_newest_first() {
    let mut history = AudioHistory::new();
    calculate_novelty_curve(vec![0, 0], &mut history);
    calculate_novelty_curve(vec![2, 3], &mut history);
    calculate_novelty_curve(vec![10, 3], &mut history);
    assert_eq!(history.novelty.iter().copied().collect::<Vec<u64>>(), vec![8, 5]);
    assert_eq!(history.spectrum.len(), 1);
    assert_eq!(history.spectrum[0], vec![10, 3]);
}

#[test]
fn threshold_clamp_on_every_entry() {
    let mut history = AudioHistory::new();
    for n in 0..200u32 {
        let level = if n % 9 == 0 { 4_000_000 } else { (n % 5) * 50_000 };
        calculate_novelty_curve(vec![level; 40], &mut history);
        for value in history.normalised_novelty.iter() {
            assert!(*value == 0 || *value >= THRESHOLD);
        }
    }
    let nonzero = history.normalised_novelty.iter().filter(|v| **v > 0).count();
    assert!(nonzero > 0);
}

#[test]
fn normalised_values_exact() {
    let mut history = AudioHistory::new();
    // 128 frames: the first sets the baseline spectrum, the next 127 rise by
    // 1 in one bin, then one frame rises by 30_000_000.
    let mut level: u32 = 0;
    for _ in 0..128 {
        calculate_novelty_curve(vec![level], &mut history);
        level += 1;
    }
    assert!(history.normalised_novelty.is_empty());
    calculate_novelty_curve(vec![level + 30_000_000], &mut history);
    // window: newest 30_000_001, then 127 points of 1
    // sum = 30_000_128, average = 234_376
    assert_eq!(history.normalised_novelty.len(), 128);
    assert_eq!(history.normalised_novelty[0], 30_000_001 - 234_376);
    for i in 1..128 {
        assert_eq!(history.normalised_novelty[i], 0);
    }
    assert_eq!(history.novelty.len(), 127);
    assert_eq!(peak_detection(&mut history), Some(29_765_625));
    assert_eq!(history.last_peak, 29_765_625);
}

#[test]
fn just_below_threshold_is_clamped() {
    let mut history = AudioHistory::new();
    for _ in 0..128 {
        calculate_novelty_curve(vec![0], &mut history);
    }
    // point p with p - p / 128 = THRESHOLD - 1
    // p = 10_078_739: p / 128 = 78_740, difference 9_999_999
    calculate_novelty_curve(vec![10_078_739], &mut history);
    assert_eq!(history.normalised_novelty[0], 0);
    assert_eq!(peak_detection(&mut history), None);
    assert_eq!(history.last_peak, 0);
}

#[test]
fn at_threshold_is_kept() {
    let mut history = AudioHistory::new();
    for _ in 0..128 {
        calculate_novelty_curve(vec![0], &mut history);
    }
    // p = 10_078_741: p / 128 = 78_740, difference 10_000_001
    calculate_novelty_curve(vec![10_078_741], &mut history);
    assert_eq!(history.normalised_novelty[0], 10_000_001);
    assert_eq!(peak_detection(&mut history), Some(10_000_001));
}

#[test]
fn silent_warm_up_then_onset() {
    let mut history = AudioHistory::new();
    for _ in 0..127 {
        calculate_novelty_curve(silent(), &mut history);
        assert_eq!(peak_detection(&mut history), None);
        assert!(run(None, None).single.is_none());
    }
    calculate_novelty_curve(silent(), &mut history);
    assert_eq!(peak_detection(&mut history), None);
    calculate_novelty_curve(loud(), &mut history);
    // 8 bins rise by 3_000_000: point 24_000_000, average 187_500
    let peak = peak_detection(&mut history);
    assert_eq!(peak, Some(23_812_500));
    let plan = run(None, peak);
    assert!(plan.radial.is_empty());
    let p = plan.single.expect("one enemy on an onset");
    assert!(MIN_SIDE <= p.x && p.x < MAX_SIDE);
    assert!(MIN_SIDE <= p.y && p.y < MAX_SIDE);
    assert!(MIN_DEPTH <= p.z && p.z < MAX_DEPTH);
}

#[test]
fn onset_on_the_128th_buffer_is_still_warm_up() {
    let mut history = AudioHistory::new();
    for _ in 0..127 {
        calculate_novelty_curve(silent(), &mut history);
    }
    calculate_novelty_curve(loud(), &mut history);
    assert_eq!(history.novelty.len(), 127);
    assert!(history.normalised_novelty.is_empty());
    assert_eq!(peak_detection(&mut history), None);
}
