use im_online::slash::{Perbill, UnresponsivnessOffence};

#[test]
fn test_unresponsivness_slash_fraction() {
    // A single case of unresponsivness is not slashed.
    assert_eq!(UnresponsivnessOffence::slash_fraction(1, 50), Perbill::zero());

    assert_eq!(
        UnresponsivnessOffence::slash_fraction(3, 50),
        Perbill::from_parts(6000000), // 0.6%
    );

    // One third offline should be punished around 5%.
    assert_eq!(
        UnresponsivnessOffence::slash_fraction(17, 50),
        Perbill::from_parts(48000000), // 4.8%
    );
}

#[test]
fn single_offender_never_slashed() {
    for validators in [1u32, 2, 3, 10, 50, 1000, u32::MAX] {
        assert_eq!(
            UnresponsivnessOffence::slash_fraction(1, validators),
            Perbill::zero()
        );
    }
}

#[test]
fn slash_fraction_monotonic_in_offenders() {
    let mut previous = 0u32;
    for offenders in 1u32..=50 {
        let parts = UnresponsivnessOffence::slash_fraction(offenders, 50).into_parts();
        assert!(parts >= previous);
        previous = parts;
    }
}

#[test]
fn slash_fraction_saturates_at_five_percent() {
    // 3 * (offenders - 1) >= validators_count from 18 offenders of 50 on.
    assert_eq!(
        UnresponsivnessOffence::slash_fraction(18, 50).into_parts(),
        50_000_000
    );
    assert_eq!(
        UnresponsivnessOffence::slash_fraction(50, 50).into_parts(),
        50_000_000
    );
    assert_eq!(
        UnresponsivnessOffence::slash_fraction(u32::MAX, u32::MAX).into_parts(),
        50_000_000
    );
}

#[test]
fn perbill_parts_round_trip() {
    assert_eq!(Perbill::from_parts(123).into_parts(), 123);
    assert_eq!(Perbill::zero().into_parts(), 0);
}

#[test]
fn offence_getters_expose_fields() {
    let offence = UnresponsivnessOffence {
        current_era_start_session_index: 7,
        session_index: 9,
        validators_count: 4,
        offenders: Vec::new(),
    };
    assert_eq!(offence.current_era_start_session_index(), 7);
    assert_eq!(offence.validators_count(), 4);
    assert_eq!(offence.time_slot(), 9u128);
    assert!(offence.offenders().is_empty());
}
