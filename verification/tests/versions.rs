use smccc::arch::error::Error;
use smccc::arch::{SocIdType, Version};

#[test]
fn convert_version() {
    let version = Version { major: 1, minor: 2 };
    assert_eq!(u32::from(version), 0x0001_0002);
    assert_eq!(0x0001_0002.try_into(), Ok(version));
}

#[test]
fn version_zero_and_largest() {
    assert_eq!(Version::try_from(0), Ok(Version { major: 0, minor: 0 }));
    assert_eq!(Version::try_from(i32::MAX), Ok(Version { major: 0x7fff, minor: 0xffff }));
    assert_eq!(u32::from(Version { major: 0xffff, minor: 0xffff }), u32::MAX);
    assert_eq!(u32::from(Version { major: 0, minor: 0 }), 0);
}

#[test]
fn negative_version_is_an_error() {
    assert_eq!(Version::try_from(-1), Err(Error::NotSupported));
    assert_eq!(Version::try_from(-2), Err(Error::NotRequired));
    assert_eq!(Version::try_from(-3), Err(Error::InvalidParameter));
    assert_eq!(Version::try_from(-4), Err(Error::Unknown(-4)));
    assert_eq!(Version::try_from(i32::MIN), Err(Error::Unknown(i32::MIN)));
}

#[test]
fn version_round_trip_on_samples() {
    for value in [0, 1, 0xffff, 0x1_0000, 0x0001_0004, 0x1234_5678, i32::MAX] {
        let version = Version::try_from(value).unwrap();
        assert_eq!(u32::from(version), value as u32);
    }
    for (major, minor) in [(0u16, 0u16), (1, 4), (0x7fff, 0xffff), (12, 0)] {
        let version = Version { major, minor };
        assert_eq!(Version::try_from(u32::from(version) as i32), Ok(version));
    }
}

#[test]
fn versions_are_ordered_by_major_then_minor() {
    assert!(Version { major: 1, minor: 9 } < Version { major: 2, minor: 0 });
    assert!(Version { major: 1, minor: 1 } < Version { major: 1, minor: 2 });
    assert_eq!(Version { major: 3, minor: 4 }, Version { major: 3, minor: 4 });
}

#[test]
fn psci_version_conversions() {
    let version = smccc::psci::Version { major: 1, minor: 1 };
    assert_eq!(u32::from(version), 0x0001_0001);
    assert_eq!(smccc::psci::Version::try_from(0x0001_0001), Ok(version));
    assert_eq!(
        smccc::psci::Version::try_from(-1),
        Err(smccc::psci::error::Error::NotSupported)
    );
    assert_eq!(
        smccc::psci::Version::try_from(-100),
        Err(smccc::psci::error::Error::Unknown(-100))
    );
}

#[test]
fn soc_id_type_numbers() {
    assert_eq!(u32::from(SocIdType::Version), 0);
    assert_eq!(u32::from(SocIdType::Revision), 1);
}
