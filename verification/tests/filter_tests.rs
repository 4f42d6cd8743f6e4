use matched_filter::filter_utils::substitute_outliers;

/// The numeric half of outlier removal: flags every sample beyond three
/// sample standard deviations above the mean, then lets the verified
/// substitution replace the flagged samples.
fn stddev_outlier_removal(signal: Vec<f32>) -> Vec<f32> {
    let len = signal.len();
    let mean: f32 = signal.iter().sum();
    let mean = mean / len as f32;

    let stddev: f32 = signal.iter().map(|x| (x - mean).powf(2.0)).sum();
    let stddev = stddev / (len - 1) as f32;
    let stddev = stddev.sqrt();

    let threshold = mean + 3.0 * stddev;
    let flags: Vec<bool> = signal.iter().map(|x| *x > threshold).collect();

    substitute_outliers(&signal, &flags)
}

fn outlier_removal_stars(signals: Vec<Vec<f32>>) -> Vec<Vec<f32>> {
    signals.into_iter().map(stddev_outlier_removal).collect()
}

#[test]
fn test_stddev_outlier_removal() {
    let signal = vec![0.0, 1.0, 0.5, 0.2, 0.7];
    let exp_signal = vec![0.0, 1.0, 0.5, 0.2, 0.7];

    let act_signal = stddev_outlier_removal(signal);
    assert_eq!(exp_signal, act_signal);

    let outlier = 14.0;
    let signal = vec![
        0.0, 1.0, 0.5, outlier, 0.7, 0.0, 0.5, 0.8, 0.8, 0.7, 0.2, 0.1,
    ];
    let exp_signal = vec![0.0, 1.0, 0.5, 0.7, 0.7, 0.0, 0.5, 0.8, 0.8, 0.7, 0.2, 0.1];

    let act_signal = stddev_outlier_removal(signal);
    assert_eq!(exp_signal, act_signal);

    let outlier = 300.0;
    let signal = vec![
        0.0, 1.0, 0.5, outlier, 0.7, 0.0, 0.5, 0.8, 0.8, 0.7, 0.2, 0.1,
    ];
    let exp_signal = vec![0.0, 1.0, 0.5, 0.7, 0.7, 0.0, 0.5, 0.8, 0.8, 0.7, 0.2, 0.1];

    let act_signal = stddev_outlier_removal(signal);
    assert_eq!(exp_signal, act_signal);

    let outlier = 300000.0;
    let signal = vec![
        0.0, 1.0, 0.5, outlier, 0.7, 0.0, 0.5, 0.8, 0.8, 0.7, 0.2, 0.1,
    ];
    let exp_signal = vec![0.0, 1.0, 0.5, 0.7, 0.7, 0.0, 0.5, 0.8, 0.8, 0.7, 0.2, 0.1];

    let act_signal = stddev_outlier_removal(signal);
    assert_eq!(exp_signal, act_signal);

    let outlier = 300000.0;
    let signal = vec![
        outlier, 1.0, 0.5, 0.7, 0.7, 0.0, 0.5, 0.8, 0.8, 0.7, 0.2, 0.1,
    ];
    let exp_signal = vec![1.0, 1.0, 0.5, 0.7, 0.7, 0.0, 0.5, 0.8, 0.8, 0.7, 0.2, 0.1];

    let act_signal = stddev_outlier_removal(signal);
    assert_eq!(exp_signal, act_signal);

    let outlier = 300000.0;
    let signal = vec![
        0.0, 1.0, 0.5, 0.7, 0.7, 0.0, 0.5, 0.8, 0.8, 0.7, 0.2, outlier,
    ];
    let exp_signal = vec![0.0, 1.0, 0.5, 0.7, 0.7, 0.0, 0.5, 0.8, 0.8, 0.7, 0.2, 0.2];

    let act_signal = stddev_outlier_removal(signal);
    assert_eq!(exp_signal, act_signal);
}

#[test]
fn test_outlier_removal_stars() {
    let stars = vec![
        vec![0.0, 1.0, 0.5, 0.7, 0.7, 0.0, 0.5, 0.8, 0.8, 0.7, 0.2, 0.1],
        vec![0.0, 1.0, 0.5, 0.7, 0.7, 0.0, 0.5, 0.8, 0.8, 0.7, 0.2, 0.1],
        vec![0.0, 1.0, 0.5, 0.7, 0.7, 0.0, 0.5, 0.8, 0.8, 0.7, 0.2, 0.1],
    ];

    let exp_stars = stars.clone();

    let act_stars = outlier_removal_stars(stars);

    assert_eq!(exp_stars, act_stars);

    let stars = vec![
        vec![0.0, 1.0, 0.5, 0.7, 0.7, 0.0, 0.5, 20.8, 0.8, 0.7, 0.2, 0.1],
        vec![0.0, 1.0, 0.5, 0.7, 0.7, 20.0, 0.5, 0.8, 0.8, 0.7, 0.2, 0.1],
        vec![0.0, 1.0, 0.5, 0.7, 0.7, 0.0, 0.5, 0.8, 0.8, 0.7, 0.2, 20.1],
    ];

    let exp_stars = vec![
        vec![0.0, 1.0, 0.5, 0.7, 0.7, 0.0, 0.5, 0.8, 0.8, 0.7, 0.2, 0.1],
        vec![0.0, 1.0, 0.5, 0.7, 0.7, 0.5, 0.5, 0.8, 0.8, 0.7, 0.2, 0.1],
        vec![0.0, 1.0, 0.5, 0.7, 0.7, 0.0, 0.5, 0.8, 0.8, 0.7, 0.2, 0.2],
    ];

    let act_stars = outlier_removal_stars(stars);

    assert_eq!(exp_stars, act_stars);
}

// No sample above the mean-plus-three-sigma threshold: the output equals
// the input exactly (the all-false flag vector leaves every sample alone).
#[test]
fn test_no_outliers_identity() {
    let signal = vec![0.3f32, 0.4, 0.5, 0.4, 0.3, 0.5];
    let flags = vec![false; signal.len()];
    let out = substitute_outliers(&signal, &flags);
    assert_eq!(out, signal);
}

#[test]
fn test_substitution_shapes() {
    // a flagged middle sample takes its right neighbour
    let out = substitute_outliers(&vec![1.0f32, 9.0, 2.0], &vec![false, true, false]);
    assert_eq!(out, vec![1.0, 2.0, 2.0]);
    // a flagged last sample takes its left neighbour
    let out = substitute_outliers(&vec![1.0f32, 2.0, 9.0], &vec![false, false, true]);
    assert_eq!(out, vec![1.0, 2.0, 2.0]);
}
