use matched_filter::cyclic_queue::CyclicQueue;
use matched_filter::cyclic_queue::CyclicQueueInterface;
use matched_filter::filter_utils::HistMeanDirective;
use matched_filter::filter_utils::HistMeanStage;
use matched_filter::filter_utils::HistoricalMeanTracker;

/// The single-precision half of the estimator: the ring of window means and
/// the running sum, driven by the verified schedule.  Mirrors the fast
/// (incremental) run and checks it against the natural summation.
struct MeanShell {
    tracker: HistoricalMeanTracker,
    ring: CyclicQueue<f32>,
    prev_sum: f32,
}

impl MeanShell {
    fn new(min_time: usize, delta_time: usize) -> MeanShell {
        MeanShell {
            tracker: HistoricalMeanTracker::new(min_time, delta_time),
            ring: CyclicQueue::new(delta_time + min_time),
            prev_sum: 0.0,
        }
    }

    /// Feeds one window mean; returns the effective mean to subtract.
    fn step(&mut self, mean: f32) -> f32 {
        let evicted = self.ring.push(mean);
        let mut adjustment = evicted.map(|v| -v).unwrap_or(0.0);
        let d: HistMeanDirective = self.tracker.advance();
        assert_eq!(d.evicts, evicted.is_some());

        if d.reset_sum {
            self.prev_sum = 0.0;
        }
        let idx = d.include_index.expect("the schedule always names an index");
        if d.use_current_only {
            self.prev_sum = (d.divisor as f32) * *self.ring.get_relative(idx).unwrap();
            self.prev_sum += adjustment;
        } else {
            adjustment += *self.ring.get_relative(idx).unwrap();
            self.prev_sum += adjustment;

            // the incremental sum must equal the natural summation of the
            // ring prefix it claims to cover, up to rounding
            let mut natural = 0.0f32;
            for i in 0..d.divisor {
                natural += *self.ring.get_relative(i).unwrap();
            }
            assert!(
                (natural - self.prev_sum).abs() <= 1.0e-3,
                "incremental sum {} drifted from natural sum {}",
                self.prev_sum,
                natural
            );
        }

        let current_mean = *self.ring.get_back().unwrap();
        let split = d.split_tenths as f32 / 10.0;
        (self.prev_sum / d.divisor as f32) * (1.0 - split) + current_mean * split
    }
}

fn window_mean(w: &[f32]) -> f32 {
    w.iter().sum::<f32>() / w.len() as f32
}

fn base_window(spike: f32) -> Vec<f32> {
    vec![0.0, 1.0, 0.5, 0.7, 0.7, spike, 0.5, 0.8, 0.8, 0.7, 0.2, 0.1]
}

// Historical-mean warm-up blend over the 21-window fixture (means 0.583,
// 0.667, ... 0.808): after the whole sequence the subtractor's output on
// window 20 must equal the expected vector within 1e-3 per sample.
#[test]
fn test_hist_mean_warmup_blend_fixture() {
    let spikes = [
        1.0, 2.0, 3.0, 4.0, 5.0, 6.0, 7.0, 8.0, 9.0, 1.5, 2.5, 3.5, 4.5, 5.5, 6.5, 7.5, 8.5,
        9.5, 1.7, 2.7, 3.7,
    ];
    let windows: Vec<Vec<f32>> = spikes.iter().map(|s| base_window(*s)).collect();

    let mut shell = MeanShell::new(10, 10);
    let mut last_output: Vec<f32> = Vec::new();
    for w in windows.iter() {
        let eff = shell.step(window_mean(w));
        last_output = w.iter().map(|x| x - eff).collect();
    }

    let expected = [
        -0.9f32, 0.1, -0.4, -0.2, -0.2, 2.8, -0.4, -0.1, -0.1, -0.2, -0.7, -0.8,
    ];
    assert_eq!(last_output.len(), expected.len());
    for (a, e) in last_output.iter().zip(expected.iter()) {
        assert!((a - e).abs() <= 1.0e-3, "got {} expected {}", a, e);
    }
}

#[test]
fn test_tracker_stage_transitions() {
    let mut tracker = HistoricalMeanTracker::new(2, 5);
    // startup while the ring holds at most min_time means
    for _ in 0..2 {
        let d = tracker.advance();
        assert!(d.use_current_only);
        assert!(!d.reset_sum);
        assert_eq!(d.split_tenths, 0);
        assert_eq!(tracker.stage(), HistMeanStage::Startup);
    }
    // the transition call resets the sum and restarts the history
    let d = tracker.advance();
    assert!(d.reset_sum);
    assert_eq!(d.divisor, 1);
    assert_eq!(d.include_index, Some(0));
    assert_eq!(tracker.stage(), HistMeanStage::PostStartupWarmup);
    // ten warm-up calls blend linearly down from nine tenths to zero
    for k in 1..=10u8 {
        let d = tracker.advance();
        assert!(!d.use_current_only);
        assert_eq!(d.split_tenths, 10 - k);
    }
    assert_eq!(tracker.stage(), HistMeanStage::PostStartup);
    let d = tracker.advance();
    assert_eq!(d.split_tenths, 0);
    assert!(!d.use_current_only);
    assert!(!d.reset_sum);
}
