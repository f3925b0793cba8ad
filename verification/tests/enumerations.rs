use smccc::psci::error::Error;
use smccc::psci::{AffinityState, LowestAffinityLevel, MigrateType, PowerState, SuspendMode};

#[test]
fn affinity_state_codes() {
    assert_eq!(AffinityState::try_from(0i32), Ok(AffinityState::On));
    assert_eq!(AffinityState::try_from(1i32), Ok(AffinityState::Off));
    assert_eq!(AffinityState::try_from(2i32), Ok(AffinityState::OnPending));
    assert_eq!(AffinityState::try_from(0i64), Ok(AffinityState::On));
    assert_eq!(AffinityState::try_from(1i64), Ok(AffinityState::Off));
    assert_eq!(AffinityState::try_from(2i64), Ok(AffinityState::OnPending));
}

#[test]
fn affinity_state_other_codes_are_errors() {
    assert_eq!(AffinityState::try_from(3i32), Err(Error::Unknown(3)));
    assert_eq!(AffinityState::try_from(-1i32), Err(Error::NotSupported));
    assert_eq!(AffinityState::try_from(-7i32), Err(Error::NotPresent));
    assert_eq!(AffinityState::try_from(i32::MAX), Err(Error::Unknown(0x7fff_ffff)));
    assert_eq!(AffinityState::try_from(i32::MIN), Err(Error::Unknown(-0x8000_0000)));
    assert_eq!(AffinityState::try_from(3i64), Err(Error::Unknown(3)));
    assert_eq!(AffinityState::try_from(-7i64), Err(Error::NotPresent));
    assert_eq!(AffinityState::try_from(0x1_0000_0002i64), Err(Error::Unknown(0x1_0000_0002)));
    assert_eq!(AffinityState::try_from(i64::MIN), Err(Error::Unknown(i64::MIN)));
}

#[test]
fn migrate_type_codes() {
    assert_eq!(MigrateType::try_from(0), Ok(MigrateType::MigrateCapable));
    assert_eq!(MigrateType::try_from(1), Ok(MigrateType::NotMigrateCapable));
    assert_eq!(MigrateType::try_from(2), Ok(MigrateType::MigrationNotRequired));
}

#[test]
fn migrate_type_other_codes_are_errors() {
    assert_eq!(MigrateType::try_from(3), Err(Error::Unknown(3)));
    assert_eq!(MigrateType::try_from(-1), Err(Error::NotSupported));
    assert_eq!(MigrateType::try_from(-2), Err(Error::InvalidParameters));
    assert_eq!(MigrateType::try_from(-12), Err(Error::Unknown(-12)));
}

#[test]
fn power_state_codes() {
    assert_eq!(PowerState::try_from(0i32), Ok(PowerState::HwOn));
    assert_eq!(PowerState::try_from(1i32), Ok(PowerState::HwOff));
    assert_eq!(PowerState::try_from(2i32), Ok(PowerState::HwStandby));
    assert_eq!(PowerState::try_from(0i64), Ok(PowerState::HwOn));
    assert_eq!(PowerState::try_from(1i64), Ok(PowerState::HwOff));
    assert_eq!(PowerState::try_from(2i64), Ok(PowerState::HwStandby));
}

#[test]
fn power_state_other_codes_are_errors() {
    assert_eq!(PowerState::try_from(3i32), Err(Error::Unknown(3)));
    assert_eq!(PowerState::try_from(-1i32), Err(Error::NotSupported));
    assert_eq!(PowerState::try_from(-2i32), Err(Error::InvalidParameters));
    assert_eq!(PowerState::try_from(-6i64), Err(Error::InternalFailure));
    assert_eq!(PowerState::try_from(-0x1_0000_0000i64), Err(Error::Unknown(-0x1_0000_0000)));
}

#[test]
fn every_small_code_decodes_without_panic() {
    for code in -20i32..20 {
        let state = AffinityState::try_from(code);
        let class = MigrateType::try_from(code);
        let power = PowerState::try_from(code);
        assert_eq!(state.is_ok(), (0..=2).contains(&code));
        assert_eq!(class.is_ok(), (0..=2).contains(&code));
        assert_eq!(power.is_ok(), (0..=2).contains(&code));
        if !(0..=2).contains(&code) {
            assert_eq!(state, Err(Error::from(code)));
            assert_eq!(class, Err(Error::from(code)));
            assert_eq!(power, Err(Error::from(code)));
        }
    }
}

#[test]
fn selector_numbers() {
    assert_eq!(u32::from(LowestAffinityLevel::All), 0);
    assert_eq!(u32::from(LowestAffinityLevel::Aff0Ignored), 1);
    assert_eq!(u32::from(LowestAffinityLevel::Aff0Aff1Ignored), 2);
    assert_eq!(u32::from(LowestAffinityLevel::Aff0Aff1Aff2Ignored), 3);
    assert_eq!(u64::from(LowestAffinityLevel::All), 0);
    assert_eq!(u64::from(LowestAffinityLevel::Aff0Ignored), 1);
    assert_eq!(u64::from(LowestAffinityLevel::Aff0Aff1Ignored), 2);
    assert_eq!(u64::from(LowestAffinityLevel::Aff0Aff1Aff2Ignored), 3);
    assert_eq!(u32::from(SuspendMode::PlatformCoordinated), 0);
    assert_eq!(u32::from(SuspendMode::OsInitiated), 1);
}
