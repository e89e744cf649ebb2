use pjsip_client::error::LOCAL_ERROR;
use pjsip_client::pjmedia::pjmedia_api::{
    perform_pjmedia_format_checks_zero_division, port_format, sample_duration, AudioFormatDetail,
};

#[test]
fn port_format_of_narrowband_mono() {
    let detail = port_format(8000, 1, 160).unwrap();
    assert_eq!(
        detail,
        AudioFormatDetail {
            clock_rate: 8000,
            channel_count: 1,
            frame_time_usec: 20_000,
            bits_per_sample: 16,
            avg_bps: 128_000,
            max_bps: 128_000,
        }
    );
}

#[test]
fn port_format_refuses_zero_duration() {
    let error = port_format(8000, 1, 7).unwrap_err();
    assert_eq!(error.code, LOCAL_ERROR);
    assert!(error.message.starts_with("samples_per_frame is too low!"));
}

#[test]
fn sample_duration_rounds_down() {
    assert_eq!(sample_duration(8000, 1), 125);
    assert_eq!(sample_duration(22050, 1), 45);
    assert_eq!(sample_duration(8000, 2), 62);
}

#[test]
fn zero_division_check_accepts_one_millisecond() {
    let detail = port_format(8000, 1, 8).unwrap();
    assert!(perform_pjmedia_format_checks_zero_division(8, &detail).is_ok());
    assert!(perform_pjmedia_format_checks_zero_division(7, &detail).is_err());
}

#[test]
fn a_long_frame_time_is_cut_to_32_bits() {
    let detail = port_format(1, 1, 5000).unwrap();
    assert_eq!(detail.frame_time_usec, (5_000_000_000u64 % (1u64 << 32)) as u32);
    assert_eq!(detail.frame_time_usec, 705_032_704);
    assert_eq!(detail.avg_bps, 16);
    let detail = port_format(1, 1, 4294).unwrap();
    assert_eq!(detail.frame_time_usec, 4_294_000_000);
}

#[test]
fn a_bit_rate_beyond_32_bits_is_refused() {
    let error = port_format(u32::MAX, 1, usize::MAX).unwrap_err();
    assert_eq!(error.code, LOCAL_ERROR);
    assert_eq!(error.message, "audio format does not fit the 32-bit fields of the mixing graph");
    assert!(port_format(268_435_455, 1, 268_435_455).is_ok());
    assert!(port_format(268_435_456, 1, 268_435_456).is_err());
}
