use dust_orbit::otp::{format_otp_code, OTP_CODE_SPACE};
use dust_orbit::otp_request::RequestOtpFlow;

#[test]
fn format_otp_code_pads_to_six_digits() {
    assert_eq!(format_otp_code(0), "000000");
    assert_eq!(format_otp_code(42), "000042");
    assert_eq!(format_otp_code(123456), "123456");
    assert_eq!(format_otp_code(999999), "999999");
    assert_eq!(format_otp_code(100000), "100000");
}

#[test]
fn format_otp_code_agrees_with_format_macro() {
    let mut n = 0u32;
    while n < OTP_CODE_SPACE {
        assert_eq!(format_otp_code(n), format!("{:06}", n));
        n += 997;
    }
}

#[test]
fn otp_code_round_trips_through_parse() {
    for n in [0u32, 7, 80, 901, 5555, 65432, 999999] {
        let code = format_otp_code(n);
        assert_eq!(code.parse::<u32>().unwrap(), n);
    }
}

#[test]
fn drawn_codes_are_six_digits() {
    for _ in 0..200 {
        let code = RequestOtpFlow::start("a@b.c", None).issue.code;
        assert_eq!(code.len(), 6);
        assert!(code.chars().all(|c| c.is_ascii_digit()));
        assert!(code.parse::<u32>().unwrap() < OTP_CODE_SPACE);
    }
}
