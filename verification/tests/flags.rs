use ns16550a::flags::{
    IER, IER_ALL, IER_RX_AVAILABLE, IER_TX_EMPTY, LSR, LSR_ALL, LSR_DATA_AVAILABLE, LSR_THR_EMPTY,
    MCR, MCR_ALL, MCR_AUX_OUTPUT1, MCR_AUX_OUTPUT2, MCR_DATA_TERMINAL_READY, MCR_REQUEST_TO_SEND,
};

#[test]
fn flag_bits_have_their_register_positions() {
    assert_eq!(IER_RX_AVAILABLE, 1 << 0);
    assert_eq!(IER_TX_EMPTY, 1 << 1);
    assert_eq!(LSR_DATA_AVAILABLE, 1 << 0);
    assert_eq!(LSR_THR_EMPTY, 1 << 5);
    assert_eq!(MCR_DATA_TERMINAL_READY, 1 << 0);
    assert_eq!(MCR_REQUEST_TO_SEND, 1 << 1);
    assert_eq!(MCR_AUX_OUTPUT1, 1 << 2);
    assert_eq!(MCR_AUX_OUTPUT2, 1 << 3);
    assert_eq!(IER_ALL, 0x03);
    assert_eq!(LSR_ALL, 0x21);
    assert_eq!(MCR_ALL, 0x0f);
}

#[test]
fn single_flag_sets_hold_one_bit() {
    assert_eq!(IER::rx_available().bits(), 0x01);
    assert_eq!(IER::tx_empty().bits(), 0x02);
    assert_eq!(LSR::data_available().bits(), 0x01);
    assert_eq!(LSR::thr_empty().bits(), 0x20);
    assert_eq!(MCR::data_terminal_ready().bits(), 0x01);
    assert_eq!(MCR::request_to_send().bits(), 0x02);
    assert_eq!(MCR::aux_output1().bits(), 0x04);
    assert_eq!(MCR::aux_output2().bits(), 0x08);
}

#[test]
fn empty_sets_hold_nothing() {
    assert_eq!(IER::empty().bits(), 0);
    assert_eq!(LSR::empty().bits(), 0);
    assert_eq!(MCR::empty().bits(), 0);
    assert!(!IER::empty().contains(IER::rx_available()));
    assert!(!LSR::empty().contains(LSR::data_available()));
    assert!(!MCR::empty().contains(MCR::aux_output2()));
}

#[test]
fn every_set_contains_the_empty_set() {
    assert!(IER::empty().contains(IER::empty()));
    assert!(LSR::thr_empty().contains(LSR::empty()));
    assert!(MCR::aux_output1().contains(MCR::empty()));
}

#[test]
fn from_bits_truncate_drops_undefined_bits() {
    assert_eq!(IER::from_bits_truncate(0xff).bits(), 0x03);
    assert_eq!(IER::from_bits_truncate(0xfc).bits(), 0x00);
    assert_eq!(LSR::from_bits_truncate(0xff).bits(), 0x21);
    assert_eq!(LSR::from_bits_truncate(0x60).bits(), 0x20);
    assert_eq!(LSR::from_bits_truncate(0x1e).bits(), 0x00);
    assert_eq!(MCR::from_bits_truncate(0xff).bits(), 0x0f);
    assert_eq!(MCR::from_bits_truncate(0x1b).bits(), 0x0b);
}

#[test]
fn contains_asks_for_every_flag_of_the_other_set() {
    let both = IER::from_bits_truncate(0x03);
    assert!(both.contains(IER::rx_available()));
    assert!(both.contains(IER::tx_empty()));
    assert!(both.contains(both));
    assert!(!IER::rx_available().contains(both));
    assert!(!IER::rx_available().contains(IER::tx_empty()));

    let status = LSR::from_bits_truncate(0x61);
    assert!(status.contains(LSR::data_available()));
    assert!(status.contains(LSR::thr_empty()));
    assert!(!LSR::from_bits_truncate(0x40).contains(LSR::thr_empty()));
}

#[test]
fn insert_is_a_union() {
    let mut mcr = MCR::empty();
    mcr.insert(MCR::data_terminal_ready());
    assert_eq!(mcr.bits(), 0x01);
    mcr.insert(MCR::request_to_send());
    assert_eq!(mcr.bits(), 0x03);
    mcr.insert(MCR::aux_output2());
    assert_eq!(mcr.bits(), 0x0b);
    mcr.insert(MCR::request_to_send());
    assert_eq!(mcr.bits(), 0x0b);
    assert!(!mcr.contains(MCR::aux_output1()));

    let mut ier = IER::rx_available();
    ier.insert(IER::tx_empty());
    assert_eq!(ier.bits(), 0x03);

    let mut lsr = LSR::empty();
    lsr.insert(LSR::thr_empty());
    lsr.insert(LSR::data_available());
    assert_eq!(lsr.bits(), 0x21);
}

#[test]
fn equal_bits_make_equal_sets() {
    assert_eq!(MCR::from_bits_truncate(0x08), MCR::aux_output2());
    assert_ne!(MCR::aux_output1(), MCR::aux_output2());
    assert_eq!(IER::from_bits_truncate(0x05), IER::rx_available());
    assert_eq!(LSR::from_bits_truncate(0), LSR::empty());
}
