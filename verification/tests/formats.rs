use tsc_simulator::error::TscError;
use tsc_simulator::format::resolve_format;
use tsc_simulator::format::Arch;
use tsc_simulator::math::freq_multiplier;
use tsc_simulator::math::guest_tsc;

#[test]
fn resolve_format_with_both_widths() {
    let format = resolve_format(32, Some(8)).unwrap();
    assert_eq!((format.int_bits(), format.frac_bits()), (8, 32));
    let format = resolve_format(48, Some(16)).unwrap();
    assert_eq!((format.int_bits(), format.frac_bits()), (16, 48));
    let format = resolve_format(1, Some(1)).unwrap();
    assert_eq!((format.int_bits(), format.frac_bits()), (1, 1));
    let format = resolve_format(63, Some(1)).unwrap();
    assert_eq!((format.int_bits(), format.frac_bits()), (1, 63));
    let format = resolve_format(1, Some(63)).unwrap();
    assert_eq!((format.int_bits(), format.frac_bits()), (63, 1));
}

#[test]
fn resolve_format_fills_in_the_integer_width() {
    let format = resolve_format(32, None).unwrap();
    assert_eq!((format.int_bits(), format.frac_bits()), (32, 32));
    let format = resolve_format(1, None).unwrap();
    assert_eq!((format.int_bits(), format.frac_bits()), (63, 1));
    let format = resolve_format(63, None).unwrap();
    assert_eq!((format.int_bits(), format.frac_bits()), (1, 63));
    assert_eq!(resolve_format(8, None), resolve_format(8, Some(56)));
}

#[test]
fn resolve_format_rejects_what_does_not_fit() {
    assert_eq!(resolve_format(0, None), Err(TscError::InvalidFormat));
    assert_eq!(resolve_format(0, Some(8)), Err(TscError::InvalidFormat));
    assert_eq!(resolve_format(64, None), Err(TscError::InvalidFormat));
    assert_eq!(resolve_format(64, Some(1)), Err(TscError::InvalidFormat));
    assert_eq!(resolve_format(255, None), Err(TscError::InvalidFormat));
    assert_eq!(resolve_format(32, Some(0)), Err(TscError::InvalidFormat));
    assert_eq!(resolve_format(32, Some(33)), Err(TscError::InvalidFormat));
    assert_eq!(resolve_format(63, Some(2)), Err(TscError::InvalidFormat));
    assert_eq!(resolve_format(1, Some(64)), Err(TscError::InvalidFormat));
    assert_eq!(resolve_format(200, Some(200)), Err(TscError::InvalidFormat));
    assert_eq!(resolve_format(1, Some(255)), Err(TscError::InvalidFormat));
}

#[test]
fn every_request_is_resolved_or_rejected() {
    for frac in 0..=255u8 {
        let open = resolve_format(frac, None);
        assert_eq!(open.is_ok(), (1..64).contains(&frac), "frac={}", frac);
        for int in 0..=255u8 {
            let res = resolve_format(frac, Some(int));
            let fits = (1..64).contains(&frac) && int >= 1 && int as u32 + frac as u32 <= 64;
            match res {
                Ok(format) => {
                    assert!(fits, "frac={} int={}", frac, int);
                    assert_eq!((format.int_bits(), format.frac_bits()), (int, frac));
                }
                Err(e) => {
                    assert!(!fits, "frac={} int={}", frac, int);
                    assert_eq!(e, TscError::InvalidFormat);
                }
            }
        }
    }
}

#[test]
fn named_formats_are_the_pairs_written_out() {
    assert_eq!(Arch::Amd.format(), resolve_format(32, Some(8)).unwrap());
    assert_eq!(Arch::Intel.format(), resolve_format(48, Some(16)).unwrap());
    assert_eq!((Arch::Amd.format().int_bits(), Arch::Amd.format().frac_bits()), (8, 32));
    assert_eq!((Arch::Intel.format().int_bits(), Arch::Intel.format().frac_bits()), (16, 48));
}

#[test]
fn named_formats_behave_as_the_pairs_written_out() {
    for (arch, int, frac) in [(Arch::Amd, 8u32, 32u32), (Arch::Intel, 16, 48)] {
        let format = arch.format();
        let (frac_size, int_size) = (format.frac_bits() as u32, format.int_bits() as u32);
        for (g, h) in [(1000u64, 1000u64), (2000, 3000), (3000, 2000), (1 << 20, 1)] {
            assert_eq!(freq_multiplier(g, h, frac_size, int_size), freq_multiplier(g, h, frac, int));
            assert_eq!(
                guest_tsc(1000, 50, h, g, 5000, frac_size, int_size),
                guest_tsc(1000, 50, h, g, 5000, frac, int)
            );
        }
    }
}
