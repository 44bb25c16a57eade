use regmock::pac::common::{
    CastFrom, EnumBitfieldStruct, IntoRaw, RegNumberT, RegValueT, RegisterValue,
};
use regmock::pac::gpio::we::{Gpio0, Gpio11, Gpio3};
use regmock::pac::gpio::{In, Out, We};
use regmock::pac::spi::ctrl::Cpha;
use regmock::pac::spi::{Ctrl, Rx, Status, Tx};
use regmock::pac::timer::timercluster::{Count, Ctrlstat, Max};
use regmock::pac::timer::Timer;
use regmock::pac::{gpio, spi, timer, GPIO_BASE, SPI_BASE, TIMER_BASE};
use regmock::utils::{RegisterAccess, RegisterAccessType, Regmock};

#[test]
fn registers_lie_at_their_offsets() {
    assert_eq!(GPIO_BASE, 0x8400);
    assert_eq!(SPI_BASE, 0x8200);
    assert_eq!(TIMER_BASE, 0x8000);
    assert_eq!(gpio().in_().addr(), 0x8420);
    assert_eq!(gpio().we().addr(), 0x8424);
    assert_eq!(gpio().out().addr(), 0x842c);
    assert_eq!(spi().status().addr(), 0x8200);
    assert_eq!(spi().ctrl().addr(), 0x8204);
    assert_eq!(spi().tx().addr(), 0x8208);
    assert_eq!(spi().rx().addr(), 0x820c);
    let clusters = timer().timercluster();
    assert_eq!(clusters[0].ctrlstat().addr(), 0x8000);
    assert_eq!(clusters[0].count().addr(), 0x8004);
    assert_eq!(clusters[0].max().addr(), 0x8008);
    assert_eq!(clusters[1].ctrlstat().addr(), 0x800c);
    assert_eq!(clusters[1].count().addr(), 0x8010);
    assert_eq!(clusters[1].max().addr(), 0x8014);
    assert_eq!(Timer::at(0x100).timercluster()[1].max().addr(), 0x114);
}

#[test]
fn one_bit_fields_are_got_and_set() {
    let value = Out::new(0);
    assert!(!value.gpio0().get());
    let value = value.gpio0().set(true);
    assert_eq!(value.get_raw(), 0x1);
    assert!(value.gpio0().get());
    let value = value.gpio11().set(true);
    assert_eq!(value.get_raw(), 0x801);
    assert!(value.gpio11().get());
    assert!(!value.gpio10().get());
    let value = value.gpio0().set(false);
    assert_eq!(value.get_raw(), 0x800);
    assert_eq!(value.mask, 0x801);
    assert_eq!(value.gpio5().offset(), 5);
    assert_eq!(value.gpio5().mask(), 1);

    let levels = In::new(0b1010_0000_0101);
    let found = [
        levels.gpio0().get(),
        levels.gpio1().get(),
        levels.gpio2().get(),
        levels.gpio3().get(),
        levels.gpio4().get(),
        levels.gpio5().get(),
        levels.gpio6().get(),
        levels.gpio7().get(),
        levels.gpio8().get(),
        levels.gpio9().get(),
        levels.gpio10().get(),
        levels.gpio11().get(),
    ];
    assert_eq!(
        found,
        [true, false, true, false, false, false, false, false, false, true, false, true]
    );
}

#[test]
fn wider_fields_are_got_and_set() {
    let status = Status::new(0x0a05_0044);
    assert_eq!(status.rx_fill().get(), 0x5);
    assert_eq!(status.tx_fill().get(), 0xa);
    assert!(status.rxe().get());
    assert!(status.txne().get());
    assert!(!status.busy().get());
    assert_eq!(status.rx_fill().offset(), 16);
    assert_eq!(status.rx_fill().mask(), 0xf);

    let control = Ctrlstat::new(0xffff_ffff).clock().set(0b010);
    assert_eq!(control.get_raw(), 0xffff_ffaf);
    assert_eq!(control.clock().get(), 0b010);
    assert_eq!(control.reset_in().get(), 0b111);
    assert_eq!(control.mask, 0x70);
    // Bits of the value beyond the field are dropped.
    let control = Ctrlstat::new(0).reset_in().set(0xff);
    assert_eq!(control.get_raw(), 0xe);
    assert!(!control.enable().get());
    assert!(!control.underflow_irq().get());

    assert_eq!(Tx::new(0).data().set(0xab).get_raw(), 0xab);
    assert_eq!(Rx::new(0x8000_00cd).data().get(), 0xcd);
    assert!(Rx::new(0x8000_00cd).valid().get());
    assert_eq!(Count::new(0).value().set(0xdead_beef).get_raw(), 0xdead_beef);
    assert_eq!(Max::new(0x1234_5678).value().get(), 0x1234_5678);
    assert_eq!(Status::new(0).flush().set(true).get_raw(), 0x8000_0000);
    assert_eq!(Status::new(0).clear_rxovfl().set(true).get_raw(), 0x4000_0000);
    assert!(Status::new(0x3a).selected().get());
    assert!(Status::new(0x3a).rxnf().get());
    assert!(Status::new(0x3a).rxovfl().get());
    assert!(Status::new(0x3a).txf().get());
}

#[test]
fn named_values_are_got_and_set() {
    let directions = We::default().gpio3().set(Gpio3::output());
    assert_eq!(directions.get_raw(), 0x8);
    assert_eq!(directions.gpio3().get().0, Gpio3::output().0);
    assert_eq!(directions.gpio0().get().0, Gpio0::input().0);
    assert_eq!(We::new(0).gpio11().set(Gpio11::output()).get_raw(), 0x800);
    assert_eq!(Gpio0::input().0, 0);
    assert_eq!(Gpio0::output().0, 1);

    let control = Ctrl::new(0).cpha().set(Cpha::cpha_first_shifts());
    assert_eq!(control.get_raw(), 0x2);
    assert_eq!(control.cpha().get().0, 1);
    let control = control.cpha().set(Cpha::cpha_first_latches()).cpol().set(true).en().set(true);
    assert_eq!(control.get_raw(), 0x5);
    assert_eq!(Cpha::new(1).into_raw(), 1);
    assert_eq!(<Cpha as CastFrom<u64>>::cast_from(0x101).0, 1);
    let copied: EnumBitfieldStruct<u8, ()> = EnumBitfieldStruct::new(7);
    assert_eq!(copied.clone().0, 7);
}

#[test]
fn register_values_keep_what_was_set() {
    let fresh = We::new(0x55);
    assert_eq!(fresh.get_raw(), 0x55);
    assert_eq!(fresh.mask, 0);
    let whole = fresh.set_raw(0xaa);
    assert_eq!(whole.get_raw(), 0xaa);
    assert_eq!(whole.mask, 0xffff_ffff);
    assert_eq!(We::default().get_raw(), 0);
    assert_eq!(We::default().mask, 0);
}

#[test]
fn numbers_are_cut_to_their_width() {
    assert_eq!(<u8 as CastFrom<u64>>::cast_from(0x1ff), 0xff);
    assert_eq!(<u16 as CastFrom<u64>>::cast_from(0x1_ffff), 0xffff);
    assert_eq!(<u32 as CastFrom<u64>>::cast_from(0x1_0000_0001), 1);
    assert_eq!(<u64 as CastFrom<u64>>::cast_from(u64::MAX), u64::MAX);
    assert!(<bool as CastFrom<u64>>::cast_from(3));
    assert!(!<bool as CastFrom<u64>>::cast_from(2));
    assert_eq!(<u8 as RegNumberT>::bits(), 8);
    assert_eq!(<u16 as RegNumberT>::bits(), 16);
    assert_eq!(<u32 as RegNumberT>::bits(), 32);
    assert_eq!(<u64 as RegNumberT>::bits(), 64);
    assert_eq!(0xffu8.into_raw(), 0xff);
    assert_eq!(0xffffu16.into_raw(), 0xffff);
    assert_eq!(u32::MAX.into_raw(), 0xffff_ffff);
    assert_eq!(u64::MAX.into_raw(), u64::MAX);
}

#[test]
fn accesses_through_registers_are_recorded_with_four_bytes() {
    let mut mock: Regmock = Regmock::default();
    spi().tx().write(&mut mock, Tx::new(0x1_23));
    let seen = spi().tx().read(&mut mock);
    assert_eq!(seen.get_raw(), 0x123);
    spi().ctrl().modify(&mut mock, |r| r.en().set(true));
    let log = mock.get_logs().iter_full().collect();
    let expected = [
        RegisterAccess::new(RegisterAccessType::WRITE, 0x8208, 4, 0, 0x123),
        RegisterAccess::new(RegisterAccessType::READ, 0x8208, 4, 0x123, 0x123),
        RegisterAccess::new(RegisterAccessType::READ, 0x8204, 4, 0, 0),
        RegisterAccess::new(RegisterAccessType::WRITE, 0x8204, 4, 0, 1),
    ];
    assert_eq!(log.len(), expected.len());
    for (found, wanted) in log.iter().zip(expected.iter()) {
        assert!(found.identical(wanted));
    }
}

#[test]
fn read_is_cut_to_the_width_of_the_register() {
    let mut mock: Regmock = Regmock::default();
    mock.write_volatile(gpio().out().addr(), 8, 0xffff_ffff_0000_0001);
    assert_eq!(gpio().out().read(&mut mock).get_raw(), 1);
}

#[test]
fn registers_without_their_access_are_reached_for_tests() {
    let mut mock: Regmock = Regmock::default();
    let input = gpio().in_();
    input.write_read_only(&mut mock, In::new(0xC0FFEE));
    assert_eq!(input.read(&mut mock).get_raw(), 0xC0FFEE);
    input.init_read_only(&mut mock, |r| r.set_raw(5));
    assert_eq!(input.read(&mut mock).get_raw(), 5);
    input.modify_read_only(&mut mock, |r| RegValueT { data: r.data + 1, mask: r.mask });
    assert_eq!(input.read(&mut mock).get_raw(), 6);
}
