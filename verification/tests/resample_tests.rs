use rustpbx_media::resample::resample_audio;

fn length_within_one(input_len: usize, from: u32, to: u32) {
    let samples: Vec<i16> = (0..input_len).map(|i| (i as i16).wrapping_mul(3)).collect();
    let out = resample_audio(&samples, from, to);
    let expected = input_len as i64 * to as i64 / from as i64;
    let got = out.len() as i64;
    assert!(
        (got - expected).abs() <= 1,
        "{} -> {}: got {} expected about {}",
        from,
        to,
        got,
        expected
    );
}

#[test]
fn output_length_upsampling_doubles() {
    length_within_one(160, 8000, 16000);
    let samples: Vec<i16> = vec![0; 160];
    assert_eq!(resample_audio(&samples, 8000, 16000).len(), 320);
}

#[test]
fn output_length_halving() {
    length_within_one(160, 16000, 8000);
    let samples: Vec<i16> = vec![0; 160];
    assert_eq!(resample_audio(&samples, 16000, 8000).len(), 80);
}

#[test]
fn output_length_tripling() {
    length_within_one(160, 16000, 48000);
    let samples: Vec<i16> = vec![0; 160];
    assert_eq!(resample_audio(&samples, 16000, 48000).len(), 480);
}

#[test]
fn equal_rates_pass_through() {
    let samples: Vec<i16> = vec![5, -7, 9, 11];
    assert_eq!(resample_audio(&samples, 16000, 16000), samples);
}

#[test]
fn upsampling_interpolates_linearly() {
    let samples: Vec<i16> = vec![0, 100];
    assert_eq!(resample_audio(&samples, 8000, 16000), vec![0, 50, 100, 100]);
}

#[test]
fn halving_averages_each_pair() {
    let samples: Vec<i16> = vec![0, 100, 7, -9, -1, -2];
    assert_eq!(resample_audio(&samples, 16000, 8000), vec![50, -1, -1]);
}

#[test]
fn odd_length_halving_drops_the_tail_sample() {
    let samples: Vec<i16> = vec![10, 20, 30];
    assert_eq!(resample_audio(&samples, 16000, 8000), vec![15]);
}
