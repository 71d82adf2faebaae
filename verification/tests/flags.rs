use dist_tx::Flags;

#[test]
fn test1() {
    assert_eq!(
        Flags::resume() | Flags::join(),
        Flags::from_bits(0x08_20_00_00).unwrap()
    );
    assert_eq!((Flags::resume() | Flags::join()).bits(), 0x08_20_00_00);
    assert_eq!(Flags::default().bits(), 0);

    let pattern = Flags::fail() | Flags::success() | Flags::suspend();
    assert!((Flags::fail() | Flags::success()).contains_only(pattern));
    assert!(Flags::success().contains_only(pattern));
    assert!(Flags::default().contains_only(pattern));
    assert!(!Flags::resume().contains_only(pattern));
}

#[test]
fn each_flag_has_its_bit() {
    assert_eq!(Flags::resume().bits(), 0x0800_0000);
    assert_eq!(Flags::join().bits(), 0x0020_0000);
    assert_eq!(Flags::start_recovery_scan().bits(), 0x0100_0000);
    assert_eq!(Flags::end_recovery_scan().bits(), 0x0080_0000);
    assert_eq!(Flags::one_phase().bits(), 0x4000_0000);
    assert_eq!(Flags::fail().bits(), 0x2000_0000);
    assert_eq!(Flags::success().bits(), 0x0400_0000);
    assert_eq!(Flags::suspend().bits(), 0x0200_0000);
    assert_eq!(Flags::empty().bits(), 0);
    assert_eq!(Flags::all().bits(), 0x6FA0_0000);
}

#[test]
fn from_bits_refuses_what_is_no_flag() {
    assert_eq!(Flags::from_bits(1), None);
    assert_eq!(Flags::from_bits(0x8000_0000), None);
    assert_eq!(Flags::from_bits(0), Some(Flags::empty()));
    assert_eq!(Flags::from_bits(0x6FA0_0000), Some(Flags::all()));
}

#[test]
fn sets_of_flags_combine() {
    let both = Flags::fail() | Flags::success();
    assert!(both.contains(Flags::fail()));
    assert!(both.contains(Flags::success()));
    assert!(!both.contains(Flags::suspend()));
    assert!(!Flags::fail().contains(both));
    assert_eq!(both & Flags::fail(), Flags::fail());
    assert!((both & Flags::suspend()).is_empty());
    assert_eq!(!Flags::empty(), Flags::all());
    assert_eq!(!Flags::all(), Flags::empty());
    assert_eq!((!Flags::join()).bits(), 0x6F80_0000);
    assert!(Flags::default().is_empty());
    assert!(!Flags::join().is_empty());
}
