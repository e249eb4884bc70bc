use headlight::adc::{mv_to_ma, sample_to_mv};
use headlight::thermistor::{celsius_to_sample, sample_to_celsius};

#[test]
fn celsius_to_sample_reads_the_table() {
    assert_eq!(celsius_to_sample(0), 111);
    assert_eq!(celsius_to_sample(4), 111);
    assert_eq!(celsius_to_sample(5), 144);
    assert_eq!(celsius_to_sample(50), 948);
    assert_eq!(celsius_to_sample(52), 948);
    assert_eq!(celsius_to_sample(60), 1271);
    assert_eq!(celsius_to_sample(95), 2511);
    assert_eq!(celsius_to_sample(99), 2511);
}

#[test]
fn celsius_to_sample_rises() {
    let mut last = 0;
    for step in 0..20u8 {
        let sample = celsius_to_sample(step * 5);
        assert!(sample > last);
        last = sample;
    }
}

#[test]
fn sample_to_celsius_on_table_entries() {
    for step in 0..20u8 {
        assert_eq!(sample_to_celsius(celsius_to_sample(step * 5)), step * 5);
    }
}

#[test]
fn sample_to_celsius_between_entries() {
    assert_eq!(sample_to_celsius(0), 0);
    assert_eq!(sample_to_celsius(100), 0);
    assert_eq!(sample_to_celsius(111), 0);
    assert_eq!(sample_to_celsius(127), 2);
    assert_eq!(sample_to_celsius(143), 4);
    assert_eq!(sample_to_celsius(144), 5);
    assert_eq!(sample_to_celsius(2510), 94);
    assert_eq!(sample_to_celsius(2511), 95);
}

#[test]
fn sample_to_mv_scales_by_the_reference() {
    assert_eq!(sample_to_mv(1000, 1500), Some(820));
    assert_eq!(sample_to_mv(0, 1500), Some(0));
    assert_eq!(sample_to_mv(1500, 1500), Some(1230));
    assert_eq!(sample_to_mv(1, 1231), Some(0));
    assert_eq!(sample_to_mv(53, 1), Some(65190));
}

#[test]
fn sample_to_mv_without_a_result() {
    assert_eq!(sample_to_mv(1000, 0), None);
    assert_eq!(sample_to_mv(0, 0), None);
    assert_eq!(sample_to_mv(54, 1), None);
    assert_eq!(sample_to_mv(4095, 1), None);
}

#[test]
fn mv_to_ma_scales_by_gain_and_shunt() {
    assert_eq!(mv_to_ma(0), Some(0));
    assert_eq!(mv_to_ma(33), Some(10));
    assert_eq!(mv_to_ma(820), Some(248));
    assert_eq!(mv_to_ma(6553), Some(1985));
}

#[test]
fn mv_to_ma_without_a_result() {
    assert_eq!(mv_to_ma(6554), None);
    assert_eq!(mv_to_ma(65535), None);
}
