use matched_filter::detector::collect_ready_windows;
use matched_filter::detector_utils::DetectorTrigger;
use matched_filter::detector_utils::NoneTrigger;
use matched_filter::star::Star;
use matched_filter::star::StarModelType;
use matched_filter::star::StarType;
use matched_filter::sw_star::SWStar;
use matched_filter::ticker::tick_all_offline;

fn make_star(uid: &str, samples: Vec<f32>) -> Star<f32> {
    Star {
        id: uid.to_string(),
        uid: uid.to_string(),
        star_type: StarType::Unknown,
        model_type: StarModelType::NoModel,
        sample_rate: 15,
        samples: Some(samples),
        samples_tick_index: 0,
    }
}

fn make_sw_star(uid: &str, samples: Vec<f32>, phase: u32, skip_delta: u32, win: u32) -> SWStar<f32> {
    SWStar::new()
        .set_star(make_star(uid, samples))
        .set_availables(phase, skip_delta)
        .set_max_buffer_len(100)
        .set_window_lens(win, win)
        .build()
}

#[test]
fn test_ready_within_bounds() {
    let mut sw = make_sw_star("s", vec![1.0, 2.0, 3.0, 4.0], 0, 1, 3);
    assert!(!sw.is_ready());
    sw.tick(1.0);
    assert!(!sw.is_ready());
    sw.tick(2.0);
    assert!(!sw.is_ready());
    sw.tick(3.0);
    // occupancy reached the window length and the countdown hit zero
    assert!(sw.is_ready());
}

#[test]
fn test_window_twice_yields_none() {
    let mut sw = make_sw_star("s", vec![], 0, 3, 2);
    sw.tick(5.0);
    sw.tick(6.0);
    assert!(sw.is_ready());
    let first = sw.window();
    assert_eq!(first, Some(vec![5.0, 6.0]));
    // no tick in between: the countdown was reloaded, so nothing is offered
    let second = sw.window();
    assert_eq!(second, None);
}

#[test]
fn test_window_is_oldest_to_newest_tail() {
    let mut sw = make_sw_star("s", vec![], 0, 1, 3);
    for v in [1.0f32, 2.0, 3.0, 4.0, 5.0] {
        sw.tick(v);
    }
    assert!(sw.is_ready());
    assert_eq!(sw.window(), Some(vec![3.0, 4.0, 5.0]));
}

// Fragmented schedule with no trigger: two stars, two phases, skip delta 3,
// window 4 and eight constant samples each give exactly
// (8 - 4) / 3 + 1 = 2 ready snapshots per star, each [1, 1, 1, 1], and no
// events.
#[test]
fn test_fragmented_schedule_no_trigger() {
    let samples = vec![1.0f32; 8];
    let fragment = 2u32;
    let skip_delta = 3u32;
    let window = 4u32;
    let mut stars = Vec::new();
    for (i, uid) in ["star-a", "star-b"].iter().enumerate() {
        stars.push(make_sw_star(
            uid,
            samples.clone(),
            (i as u32) % fragment,
            skip_delta,
            window,
        ));
    }

    let template = [1.0f32, 1.0, 1.0, 1.0];
    let mut trigger = NoneTrigger {};
    let mut snapshots_a = 0usize;
    let mut snapshots_b = 0usize;
    let mut events = 0usize;
    let mut tick = 0usize;
    loop {
        let advanced = tick_all_offline(&mut stars);
        if advanced == 0 {
            break;
        }
        tick += 1;
        let (names, windows) = collect_ready_windows(&mut stars);
        assert_eq!(names.len(), windows.len());
        for (name, w) in names.iter().zip(windows.iter()) {
            assert_eq!(w, &vec![1.0f32; 4]);
            // a stand-in for the correlation kernel: the score must be a
            // finite number
            let score: f32 = w.iter().zip(template.iter()).map(|(a, b)| a * b).sum();
            assert!(score.is_finite());
            if trigger
                .detect(name, score > 1.0e6, tick)
                .is_some()
            {
                events += 1;
            }
            match name.as_str() {
                "star-a" => snapshots_a += 1,
                "star-b" => snapshots_b += 1,
                _ => panic!("unexpected star"),
            }
        }
    }
    assert_eq!(snapshots_a, 2);
    assert_eq!(snapshots_b, 2);
    assert_eq!(events, 0);
}

#[test]
fn test_tick_all_offline_counts() {
    let mut stars = vec![
        make_sw_star("a", vec![1.0, 2.0], 0, 1, 2),
        make_sw_star("b", vec![1.0], 0, 1, 2),
        make_sw_star("c", vec![], 0, 1, 2),
    ];
    assert_eq!(tick_all_offline(&mut stars), 2);
    assert_eq!(tick_all_offline(&mut stars), 1);
    assert_eq!(tick_all_offline(&mut stars), 0);
}
