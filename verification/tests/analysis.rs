use kondis::analysis::{
    get_analyzer, is_power_of_two, Analyzer, AnalyzerType, LOUDNESS_CEILING, LOUDNESS_FLOOR,
};
use kondis::level::freq_score_to_level;
use kondis::orchestrator::ControlLoop;
use kondis::score::SCORE_ONE;

/// A floating-point reading in millionths.
fn millionths(reading: f64) -> i64 {
    (reading * 1e6) as i64
}

#[test]
fn test_freq_score() {
    let mut meter = ebur128::EbuR128::new(2, 44_100, ebur128::Mode::M).unwrap();
    let samplebuffer: Vec<f32> = vec![f32::MAX; 4096];
    meter.add_frames_f32(&samplebuffer).unwrap();
    let lufs = meter.loudness_momentary().unwrap();
    let analyzer = get_analyzer(AnalyzerType::Lufs, SCORE_ONE);
    let score = analyzer.freq_score(samplebuffer.len(), millionths(lufs));
    let score = score.millionths() as f64 / 1e6;
    println!("score: {score}");
    assert!(score >= 0.);
}

#[test]
fn analyzer_names() {
    assert_eq!(AnalyzerType::from_name("fft"), AnalyzerType::Fft);
    assert_eq!(AnalyzerType::from_name("lufs"), AnalyzerType::Lufs);
    assert_eq!(AnalyzerType::from_name("FFT"), AnalyzerType::Lufs);
    assert_eq!(AnalyzerType::from_name(""), AnalyzerType::Lufs);
}

#[test]
fn new_analyzer_measures_loudness_at_full_scale() {
    let analyzer = Analyzer::new();
    assert_eq!(analyzer.kind(), AnalyzerType::Lufs);
    assert_eq!(analyzer.scale(), SCORE_ONE);
    assert_eq!(analyzer, get_analyzer(AnalyzerType::Lufs, SCORE_ONE));
}

#[test]
fn powers_of_two() {
    for shift in 0..usize::BITS {
        assert!(is_power_of_two(1usize << shift));
    }
    for n in [0usize, 3, 5, 6, 7, 9, 12, 4095, 4097, 6144, usize::MAX] {
        assert!(!is_power_of_two(n));
    }
    for n in 0..5000usize {
        assert_eq!(is_power_of_two(n), n.is_power_of_two());
    }
}

#[test]
fn block_of_odd_length_scores_zero() {
    let analyzer = Analyzer::new();
    assert!(analyzer.wants(4096));
    assert!(!analyzer.wants(4095));
    assert!(!analyzer.wants(0));
    assert_eq!(analyzer.freq_score(4095, LOUDNESS_CEILING).millionths(), 0);
    assert_eq!(analyzer.freq_score(0, 0).millionths(), 0);
    assert_eq!(analyzer.freq_score(4096, LOUDNESS_CEILING).millionths(), SCORE_ONE);
    let spectral = get_analyzer(AnalyzerType::Fft, SCORE_ONE);
    assert_eq!(spectral.freq_score(1000, 900_000).millionths(), 0);
    assert_eq!(spectral.freq_score(1024, 900_000).millionths(), 900_000);
}

#[test]
fn loudness_is_placed_between_floor_and_ceiling() {
    let analyzer = Analyzer::new();
    assert_eq!(LOUDNESS_FLOOR, -40_000_000);
    assert_eq!(LOUDNESS_CEILING, -3_000_000);
    assert_eq!(analyzer.freq_score(2, millionths(-40.0)).millionths(), 0);
    assert_eq!(analyzer.freq_score(2, millionths(-3.0)).millionths(), SCORE_ONE);
    // halfway: (-21.5 + 40) / 37 = 0.5
    assert_eq!(analyzer.freq_score(2, millionths(-21.5)).millionths(), 500_000);
    // (-30.75 + 40) / 37 = 0.25
    assert_eq!(analyzer.freq_score(2, millionths(-30.75)).millionths(), 250_000);
    // (-39 + 40) / 37 = 0.027027...
    assert_eq!(analyzer.freq_score(2, millionths(-39.0)).millionths(), 27_027);
}

#[test]
fn loudness_beyond_the_range_is_clamped() {
    let analyzer = Analyzer::new();
    assert_eq!(analyzer.freq_score(2, millionths(-70.0)).millionths(), 0);
    assert_eq!(analyzer.freq_score(2, millionths(f64::NEG_INFINITY)).millionths(), 0);
    assert_eq!(analyzer.freq_score(2, i64::MIN).millionths(), 0);
    assert_eq!(analyzer.freq_score(2, millionths(0.0)).millionths(), SCORE_ONE);
    assert_eq!(analyzer.freq_score(2, millionths(f64::INFINITY)).millionths(), SCORE_ONE);
    assert_eq!(analyzer.freq_score(2, i64::MAX).millionths(), SCORE_ONE);
}

#[test]
fn scale_limits_the_score() {
    let half = get_analyzer(AnalyzerType::Lufs, 500_000);
    assert_eq!(half.freq_score(2, millionths(-3.0)).millionths(), 500_000);
    assert_eq!(half.freq_score(2, millionths(-21.5)).millionths(), 250_000);
    let none = get_analyzer(AnalyzerType::Lufs, 0);
    assert_eq!(none.freq_score(2, millionths(-3.0)).millionths(), 0);
    let double = get_analyzer(AnalyzerType::Lufs, 2_000_000);
    assert_eq!(double.freq_score(2, millionths(-30.75)).millionths(), 500_000);
    assert_eq!(double.freq_score(2, millionths(-3.0)).millionths(), SCORE_ONE);
    let most = get_analyzer(AnalyzerType::Lufs, u32::MAX);
    assert_eq!(most.freq_score(2, millionths(-3.0)).millionths(), SCORE_ONE);
}

#[test]
fn mean_magnitude_is_scaled_and_clamped() {
    let plain = get_analyzer(AnalyzerType::Fft, SCORE_ONE);
    assert_eq!(plain.freq_score(2, 0).millionths(), 0);
    assert_eq!(plain.freq_score(2, -5).millionths(), 0);
    assert_eq!(plain.freq_score(2, i64::MIN).millionths(), 0);
    assert_eq!(plain.freq_score(2, 123_456).millionths(), 123_456);
    assert_eq!(plain.freq_score(2, 1_000_001).millionths(), SCORE_ONE);
    assert_eq!(plain.freq_score(2, i64::MAX).millionths(), SCORE_ONE);
    let tenth = get_analyzer(AnalyzerType::Fft, 100_000);
    assert_eq!(tenth.freq_score(2, 5_000_000).millionths(), 500_000);
    assert_eq!(tenth.freq_score(2, 19).millionths(), 1);
    let most = get_analyzer(AnalyzerType::Fft, u32::MAX);
    assert_eq!(most.freq_score(2, i64::MAX).millionths(), SCORE_ONE);
}

#[test]
fn louder_blocks_never_score_lower() {
    for kind in [AnalyzerType::Lufs, AnalyzerType::Fft] {
        for scale in [0u32, 1, 333_333, SCORE_ONE, 3_000_000] {
            let analyzer = get_analyzer(kind, scale);
            let mut previous = 0;
            let mut reading = -50_000_000i64;
            while reading < 5_000_000 {
                let score = analyzer.freq_score(1024, reading).millionths();
                assert!(previous <= score);
                assert!(score <= SCORE_ONE);
                previous = score;
                reading += 99_991;
            }
        }
    }
}

#[test]
fn rising_track_of_ten_blocks_gives_rising_levels_and_few_writes() {
    for max_level in [1i16, 2, 3, 10, 32, 64, 128] {
        let analyzer = Analyzer::new();
        let mut control = ControlLoop::new(max_level);
        let mut levels = Vec::new();
        let mut scores = Vec::new();
        for block in 0..10 {
            let loudness = -45.0 + 5.0 * block as f64;
            let score = analyzer.freq_score(4096, millionths(loudness));
            levels.push(freq_score_to_level(max_level, score));
            scores.push(score);
        }
        for pair in levels.windows(2) {
            assert!(pair[0] <= pair[1]);
        }
        assert_eq!(levels[0], 1);
        assert_eq!(levels[9], max_level);
        let writes = control.feed(&scores);
        assert!(writes.len() as i64 <= max_level as i64 - 1);
        for pair in writes.windows(2) {
            assert!(pair[0] < pair[1]);
        }
        for level in &writes {
            assert!(1 <= *level && *level <= max_level);
        }
    }
}

#[test]
fn rising_track_on_a_scale_of_eleven() {
    let analyzer = Analyzer::new();
    let mut control = ControlLoop::new(11);
    let mut scores = Vec::new();
    for block in 0..10 {
        // -40, -36.3, ..., -6.7: a tenth of the range more each block
        let loudness = LOUDNESS_FLOOR + 3_700_000 * block;
        scores.push(analyzer.freq_score(4096, loudness));
    }
    let levels: Vec<i16> = scores.iter().map(|s| freq_score_to_level(11, *s)).collect();
    assert_eq!(levels, vec![1, 2, 3, 4, 5, 6, 7, 8, 9, 10]);
    assert_eq!(control.feed(&scores), vec![2, 4, 6, 8, 10]);
}
