use ns16550a::device::NS16550a;
use ns16550a::mmio::RegisterBlock;
use ns16550a::raw::{REG_IER, REG_LSR, REG_MCR, REG_RBR, REG_THR};
use ns16550a::state::{Wakeups, WritePoll};
use volatile::Volatile;

const DATA_AVAILABLE: u8 = 0x01;
const THR_EMPTY: u8 = 0x20;

fn idle_block() -> RegisterBlock {
    [0u8; 8].map(Volatile::new)
}

/// Stands in for the hardware: a byte arrives and the line status says so.
fn arrive(device: &mut NS16550a, byte: u8) {
    let regs = device.registers();
    regs[REG_RBR].write(byte);
    let status = regs[REG_LSR].read();
    regs[REG_LSR].write(status | DATA_AVAILABLE);
}

/// Stands in for the hardware: the receiver has been emptied.
fn drained(device: &mut NS16550a) {
    let regs = device.registers();
    let status = regs[REG_LSR].read();
    regs[REG_LSR].write(status & !DATA_AVAILABLE);
}

/// Stands in for the hardware: the transmitter becomes ready or busy.
fn transmitter(device: &mut NS16550a, ready: bool) {
    let regs = device.registers();
    let status = regs[REG_LSR].read();
    regs[REG_LSR].write(if ready { status | THR_EMPTY } else { status & !THR_EMPTY });
}

/// One interrupt that finds `byte` in the receiver.
fn inject(device: &mut NS16550a, byte: u8) -> Wakeups {
    arrive(device, byte);
    let wake = device.handle_irq();
    drained(device);
    wake
}

const NOBODY: Wakeups = Wakeups { reader: None, writer: None };

#[test]
fn new_device_has_nothing_buffered() {
    let mut block = idle_block();
    let mut device = NS16550a::new(&mut block);
    assert!(device.read_buffer_is_empty());
    assert!(!device.reader_parked(1));
    assert!(!device.writer_parked(1));
    assert_eq!(device.handle_irq(), NOBODY);
    assert!(device.read_buffer_is_empty());
}

#[test]
fn new_device_leaves_the_hardware_alone() {
    let mut block = [9u8, 8, 7, 6, 5, 4, 3, 2].map(Volatile::new);
    let _device = NS16550a::new(&mut block);
    let bytes: Vec<u8> = block.iter().map(|cell| cell.read()).collect();
    assert_eq!(bytes, vec![9, 8, 7, 6, 5, 4, 3, 2]);
}

#[test]
fn init_sets_modem_control_and_interrupt_enable() {
    let mut block = idle_block();
    let mut device = NS16550a::new(&mut block);
    device.init();
    let mcr = device.registers()[REG_MCR].read();
    let ier = device.registers()[REG_IER].read();
    assert_eq!(mcr & 0x01, 0x01);
    assert_eq!(mcr & 0x02, 0x02);
    assert_eq!(mcr & 0x08, 0x08);
    assert_eq!(mcr, 0x0b);
    assert_eq!(ier & 0x01, 0x01);
    assert_eq!(ier, 0x01);
    assert!(device.read_buffer_is_empty());
}

#[test]
fn two_injected_bytes_are_read_in_order() {
    let mut block = idle_block();
    let mut device = NS16550a::new(&mut block);
    assert_eq!(inject(&mut device, 0x41), NOBODY);
    assert_eq!(inject(&mut device, 0x42), NOBODY);
    assert_eq!(device.read(1), Some(0x41));
    assert_eq!(device.read(1), Some(0x42));
    assert!(device.read_buffer_is_empty());
}

#[test]
fn many_injected_bytes_keep_their_order() {
    let mut block = idle_block();
    let mut device = NS16550a::new(&mut block);
    let sent: Vec<u8> = (0..=255u8).rev().chain([7, 7, 0, 255, 7]).collect();
    for byte in &sent {
        assert_eq!(inject(&mut device, *byte), NOBODY);
    }
    let mut got = Vec::new();
    while !device.read_buffer_is_empty() {
        got.push(device.read(3).unwrap());
    }
    assert_eq!(got, sent);
    assert_eq!(device.read(3), None);
}

#[test]
fn receive_appends_what_was_polled() {
    let mut block = idle_block();
    let mut device = NS16550a::new(&mut block);
    assert_eq!(device.receive(Some(0x10)), None);
    assert_eq!(device.receive(None), None);
    assert_eq!(device.receive(Some(0x20)), None);
    assert_eq!(device.read(1), Some(0x10));
    assert_eq!(device.read(1), Some(0x20));
    assert_eq!(device.read(1), None);
}

#[test]
fn interrupt_takes_one_byte_at_a_time() {
    let mut block = idle_block();
    let mut device = NS16550a::new(&mut block);
    arrive(&mut device, 0x61);
    device.handle_irq();
    device.handle_irq();
    drained(&mut device);
    device.handle_irq();
    assert_eq!(device.read(1), Some(0x61));
    assert_eq!(device.read(1), Some(0x61));
    assert_eq!(device.read(1), None);
}

#[test]
fn spurious_interrupt_with_nobody_waiting_changes_nothing() {
    let mut block = idle_block();
    let mut device = NS16550a::new(&mut block);
    device.registers()[REG_RBR].write(0x99);
    assert_eq!(device.handle_irq(), NOBODY);
    assert!(device.read_buffer_is_empty());
    inject(&mut device, 0x31);
    assert_eq!(device.handle_irq(), NOBODY);
    assert_eq!(device.read(1), Some(0x31));
    assert_eq!(device.read(1), None);
}

#[test]
fn read_on_empty_buffer_parks_until_a_byte_arrives() {
    let mut block = idle_block();
    let mut device = NS16550a::new(&mut block);
    assert_eq!(device.read(5), None);
    assert!(device.reader_parked(5));
    assert_eq!(device.read(5), None);
    assert!(device.reader_parked(5));
    let wake = inject(&mut device, 0x6b);
    assert_eq!(wake, Wakeups { reader: Some(5), writer: None });
    assert!(!device.reader_parked(5));
    assert_eq!(device.read(5), Some(0x6b));
    assert!(device.read_buffer_is_empty());
    assert!(!device.reader_parked(5));
}

#[test]
fn interrupt_before_the_reader_spares_it_the_wait() {
    let mut block = idle_block();
    let mut device = NS16550a::new(&mut block);
    assert_eq!(inject(&mut device, 0x6b), NOBODY);
    assert_eq!(device.read(5), Some(0x6b));
    assert!(!device.reader_parked(5));
    assert!(device.read_buffer_is_empty());
}

#[test]
fn one_byte_for_two_parked_readers_reaches_exactly_one() {
    let mut block = idle_block();
    let mut device = NS16550a::new(&mut block);
    assert_eq!(device.read(1), None);
    assert_eq!(device.read(2), None);
    let wake = inject(&mut device, 0x2a);
    assert_eq!(wake.reader, Some(1));
    assert!(!device.reader_parked(1));
    assert!(device.reader_parked(2));
    assert_eq!(device.read(1), Some(0x2a));
    assert!(device.read_buffer_is_empty());
    assert!(device.reader_parked(2));
    assert!(!device.reader_parked(1));
    let wake = inject(&mut device, 0x2b);
    assert_eq!(wake.reader, Some(2));
    assert_eq!(device.read(2), Some(0x2b));
    assert_eq!(device.handle_irq(), NOBODY);
}

#[test]
fn parked_readers_are_woken_in_the_order_they_parked() {
    let mut block = idle_block();
    let mut device = NS16550a::new(&mut block);
    for task in [30, 10, 20] {
        assert_eq!(device.read(task), None);
    }
    assert_eq!(inject(&mut device, 1).reader, Some(30));
    assert_eq!(inject(&mut device, 2).reader, Some(10));
    assert_eq!(inject(&mut device, 3).reader, Some(20));
    assert_eq!(inject(&mut device, 4).reader, None);
    assert_eq!(device.read(10), Some(1));
    assert_eq!(device.read(20), Some(2));
    assert_eq!(device.read(30), Some(3));
    assert_eq!(device.read(30), Some(4));
}

#[test]
fn a_reader_woken_for_nothing_parks_again() {
    let mut block = idle_block();
    let mut device = NS16550a::new(&mut block);
    assert_eq!(device.read(8), None);
    let wake = device.handle_irq();
    assert_eq!(wake.reader, Some(8));
    assert!(!device.reader_parked(8));
    assert_eq!(device.read(8), None);
    assert!(device.reader_parked(8));
    assert_eq!(inject(&mut device, 0x55).reader, Some(8));
    assert_eq!(device.read(8), Some(0x55));
}

#[test]
fn a_byte_taken_by_another_reader_sends_the_woken_one_back() {
    let mut block = idle_block();
    let mut device = NS16550a::new(&mut block);
    assert_eq!(device.read(1), None);
    assert_eq!(inject(&mut device, 0x70).reader, Some(1));
    assert_eq!(device.read(2), Some(0x70));
    assert_eq!(device.read(1), None);
    assert!(device.reader_parked(1));
}

#[test]
fn buffer_is_empty_exactly_when_read_would_park() {
    let mut block = idle_block();
    let mut device = NS16550a::new(&mut block);
    for round in 0..4u8 {
        let empty = device.read_buffer_is_empty();
        let got = device.read(1);
        assert_eq!(empty, got.is_none());
        assert_eq!(device.reader_parked(1), got.is_none());
        inject(&mut device, round);
        if round % 2 == 0 {
            inject(&mut device, round);
        }
        assert!(!device.read_buffer_is_empty());
        assert!(device.read(1).is_some());
    }
}

#[test]
fn write_hands_the_byte_to_a_ready_transmitter() {
    let mut block = idle_block();
    let mut device = NS16550a::new(&mut block);
    transmitter(&mut device, true);
    assert!(device.write(0x4f));
    assert_eq!(device.registers()[REG_THR].read(), 0x4f);
    assert!(device.write(0x4b));
    assert_eq!(device.registers()[REG_THR].read(), 0x4b);
    assert!(device.read_buffer_is_empty());
}

#[test]
fn write_to_a_busy_transmitter_stores_nothing() {
    let mut block = idle_block();
    let mut device = NS16550a::new(&mut block);
    device.registers()[REG_THR].write(0x11);
    assert!(!device.write(0x4f));
    assert_eq!(device.registers()[REG_THR].read(), 0x11);
    assert!(!device.writer_parked(1));
}

#[test]
fn poll_write_is_ready_when_the_transmitter_is() {
    let mut block = idle_block();
    let mut device = NS16550a::new(&mut block);
    transmitter(&mut device, true);
    assert_eq!(device.poll_write(4), WritePoll::Ready);
    assert!(!device.writer_parked(4));
}

#[test]
fn pending_poll_is_resumed_exactly_once() {
    let mut block = idle_block();
    let mut device = NS16550a::new(&mut block);
    assert_eq!(device.poll_write(4), WritePoll::Pending);
    assert!(device.writer_parked(4));
    assert_eq!(device.handle_irq(), NOBODY);
    assert_eq!(inject(&mut device, 0x01), NOBODY);
    assert!(device.writer_parked(4));
    transmitter(&mut device, true);
    assert_eq!(device.handle_irq(), Wakeups { reader: None, writer: Some(4) });
    assert!(!device.writer_parked(4));
    assert_eq!(device.handle_irq(), NOBODY);
    assert_eq!(device.poll_write(4), WritePoll::Ready);
    assert!(device.write(0x21));
}

#[test]
fn repeated_pending_polls_register_once() {
    let mut block = idle_block();
    let mut device = NS16550a::new(&mut block);
    assert_eq!(device.poll_write(4), WritePoll::Pending);
    assert_eq!(device.poll_write(4), WritePoll::Pending);
    assert_eq!(device.poll_write(4), WritePoll::Pending);
    transmitter(&mut device, true);
    assert_eq!(device.handle_irq().writer, Some(4));
    assert_eq!(device.handle_irq().writer, None);
}

#[test]
fn waiting_writers_are_resumed_in_order_one_per_ready_event() {
    let mut block = idle_block();
    let mut device = NS16550a::new(&mut block);
    for waiter in [6, 2, 9] {
        assert_eq!(device.poll_write(waiter), WritePoll::Pending);
    }
    transmitter(&mut device, true);
    assert_eq!(device.handle_irq().writer, Some(6));
    transmitter(&mut device, false);
    assert_eq!(device.handle_irq().writer, None);
    assert!(device.writer_parked(2));
    assert!(device.writer_parked(9));
    transmitter(&mut device, true);
    assert_eq!(device.handle_irq().writer, Some(2));
    assert_eq!(device.handle_irq().writer, Some(9));
    assert_eq!(device.handle_irq().writer, None);
}

#[test]
fn receive_events_do_not_wake_writers() {
    let mut block = idle_block();
    let mut device = NS16550a::new(&mut block);
    assert_eq!(device.poll_write(3), WritePoll::Pending);
    assert_eq!(device.read(5), None);
    let wake = inject(&mut device, 0x30);
    assert_eq!(wake, Wakeups { reader: Some(5), writer: None });
    assert!(device.writer_parked(3));
    assert_eq!(device.receive(Some(0x31)), None);
    assert!(device.writer_parked(3));
}

#[test]
fn transmit_events_do_not_wake_readers_by_themselves() {
    let mut block = idle_block();
    let mut device = NS16550a::new(&mut block);
    assert_eq!(device.read(5), None);
    assert_eq!(device.poll_write(3), WritePoll::Pending);
    assert_eq!(device.transmit_ready(true), Some(3));
    assert!(device.reader_parked(5));
    assert_eq!(device.transmit_ready(true), None);
    assert!(device.reader_parked(5));
}

#[test]
fn one_interrupt_can_wake_a_reader_and_a_writer() {
    let mut block = idle_block();
    let mut device = NS16550a::new(&mut block);
    assert_eq!(device.read(5), None);
    assert_eq!(device.poll_write(3), WritePoll::Pending);
    transmitter(&mut device, true);
    let wake = inject(&mut device, 0x44);
    assert_eq!(wake, Wakeups { reader: Some(5), writer: Some(3) });
    assert_eq!(device.read(5), Some(0x44));
}

#[test]
fn poll_write_with_decides_by_the_reported_readiness() {
    let mut block = idle_block();
    let mut device = NS16550a::new(&mut block);
    assert_eq!(device.poll_write_with(true, 1), WritePoll::Ready);
    assert!(!device.writer_parked(1));
    assert_eq!(device.poll_write_with(false, 1), WritePoll::Pending);
    assert!(device.writer_parked(1));
    assert_eq!(device.poll_write_with(true, 1), WritePoll::Ready);
    assert!(device.writer_parked(1));
    assert_eq!(device.transmit_ready(false), None);
    assert_eq!(device.transmit_ready(true), Some(1));
}

#[test]
fn init_keeps_buffer_and_queues() {
    let mut block = idle_block();
    let mut device = NS16550a::new(&mut block);
    inject(&mut device, 0x12);
    assert_eq!(device.poll_write(3), WritePoll::Pending);
    device.init();
    assert!(device.writer_parked(3));
    assert_eq!(device.read(1), Some(0x12));
    assert_eq!(device.registers()[REG_MCR].read(), 0x0b);
    assert_eq!(device.registers()[REG_IER].read(), 0x01);
}

#[test]
fn handle_irq_with_goes_by_the_given_status() {
    let mut block = idle_block();
    let mut device = NS16550a::new(&mut block);
    device.registers()[REG_RBR].write(0x5a);
    assert_eq!(device.read(1), None);
    assert_eq!(device.poll_write(2), WritePoll::Pending);

    assert_eq!(device.handle_irq_with(0x00), Wakeups { reader: Some(1), writer: None });
    assert!(device.read_buffer_is_empty());
    assert_eq!(device.read(1), None);

    assert_eq!(device.handle_irq_with(0x01), Wakeups { reader: Some(1), writer: None });
    assert!(device.writer_parked(2));
    assert_eq!(device.read(1), Some(0x5a));

    assert_eq!(device.handle_irq_with(0x20), Wakeups { reader: None, writer: Some(2) });
    assert!(device.read_buffer_is_empty());

    assert_eq!(device.poll_write(3), WritePoll::Pending);
    assert_eq!(device.handle_irq_with(0xff), Wakeups { reader: None, writer: Some(3) });
    assert_eq!(device.read(1), Some(0x5a));
    assert_eq!(device.handle_irq_with(0xde), NOBODY);
    assert!(device.read_buffer_is_empty());
}
