use s2n_tls_config::native::clock_reading;
use s2n_tls_config::native::has_u32_len;
use s2n_tls_config::native::is_c_string;
use s2n_tls_config::native::MAX_PROTOCOL_LEN;
use s2n_tls_config::native::MIN_TICKET_KEY_LEN;
use s2n_tls_config::Error;
use s2n_tls_config::Reason;
use s2n_tls_config::ResourceHandle;

#[test]
fn c_strings_hold_no_nul() {
    assert!(is_c_string(b""));
    assert!(is_c_string(b"-----BEGIN CERTIFICATE-----"));
    assert!(!is_c_string(b"\0"));
    assert!(!is_c_string(b"\0abc"));
    assert!(!is_c_string(b"abc\0"));
    assert!(!is_c_string(b"a\0c"));
    assert!(is_c_string(&[1, 255, 128]));
}

#[test]
fn lengths_up_to_32_bits_fit() {
    assert!(has_u32_len(0));
    assert!(has_u32_len(16));
    assert!(has_u32_len(u32::MAX as usize));
    if usize::BITS > 32 {
        assert!(!has_u32_len((u32::MAX as usize).wrapping_add(1)));
        assert!(!has_u32_len(usize::MAX));
    }
}

#[test]
fn limits_are_those_of_the_entry_points() {
    assert_eq!(MAX_PROTOCOL_LEN, 255);
    assert_eq!(MIN_TICKET_KEY_LEN, 16);
    assert_eq!(s2n_tls_config::builder::MAX_DEFAULT_CHAINS, 4);
}

#[test]
fn a_clock_reading_fits_in_64_bits_or_fails() {
    assert_eq!(clock_reading(None), None);
    assert_eq!(clock_reading(Some(0)), Some(0));
    assert_eq!(clock_reading(Some(1_700_000_000_000_000_000)), Some(1_700_000_000_000_000_000));
    assert_eq!(clock_reading(Some(u64::MAX as u128)), Some(u64::MAX));
    assert_eq!(clock_reading(Some(u64::MAX as u128 + 1)), None);
    assert_eq!(clock_reading(Some(u128::MAX)), None);
}

#[test]
fn errors_by_whether_the_builder_goes_on() {
    assert_eq!(Error::invalid_input(), Error::Configuration { reason: Reason::InvalidInput });
    assert_eq!(
        Error::rejected(-3),
        Error::Configuration { reason: Reason::Rejected { code: -3 } }
    );
    assert!(Error::invalid_input().is_recoverable());
    assert!(Error::rejected(1).is_recoverable());
    assert!(Error::Certificate { code: 1 }.is_recoverable());
    assert!(Error::TooManyDefaultChains.is_recoverable());
    assert!(!Error::ResourceAllocation.is_recoverable());
    assert!(!Error::InitializerFailure.is_recoverable());
}

#[test]
fn a_resource_handle_is_never_null() {
    assert!(ResourceHandle::new(0).is_none());
    assert_eq!(ResourceHandle::new(1).unwrap().address(), 1);
    assert_eq!(ResourceHandle::new(0x7fff_0000).unwrap().address(), 0x7fff_0000);
    assert_eq!(ResourceHandle::new(usize::MAX).unwrap().address(), usize::MAX);
}
