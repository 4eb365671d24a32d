//! The I2C and SPI bus contracts against the simulated devices.

use embedded_platform::future::ContextCell;
use embedded_platform::future::Future;
use embedded_platform::i2c::I2cBusMappingExt;
use embedded_platform::i2c::I2cReadExt;
use embedded_platform::i2c::I2cWriteExt;
use embedded_platform::io::ReadExt;
use embedded_platform::io::WriteExt;
use embedded_platform::sim::i2c::SimI2cBus;
use embedded_platform::sim::i2c::SimI2cMapping;
use embedded_platform::sim::pin::SimPin;
use embedded_platform::sim::spi::SimSpi;
use embedded_platform::spi::Mode;
use embedded_platform::spi::Phase;
use embedded_platform::spi::Polarity;
use embedded_platform::spi::Spi;
use embedded_platform::spi::SpiTransaction;
use embedded_platform::spi::SpiTransferExt;
use embedded_platform::task::Context;
use embedded_platform::task::Poll;
use embedded_platform::task::WakeQueue;
use embedded_platform::task::Waker;

fn cx() -> Context {
    Context::from_waker(Waker { task: 0 })
}

#[test]
fn i2c_bus_comes_up_over_its_pins() {
    let mut cell = ContextCell::new();
    let mapping = SimI2cMapping::new(vec![1, 2, 3]);
    let sda = SimPin::floating(false);
    let scl = SimPin::floating(false);
    let mut init = mapping.initialize(sda, scl);
    match init.poll(&mut cell, cx()) {
        Poll::Ready(Ok(_bus)) => {}
        _ => panic!("the simulated bus negotiates in one poll"),
    }
}

#[test]
fn i2c_read_transaction_delivers_the_device_response() {
    let mut cell = ContextCell::new();
    let bus = SimI2cBus::new(vec![5, 6, 7, 8]);

    let mut begin = bus.begin_read(0x42);
    let handle = match begin.poll(&mut cell, cx()) {
        Poll::Ready(Ok(handle)) => handle,
        _ => panic!("the transaction begins in one poll"),
    };

    let mut f = handle.read_exact(vec![0; 4]);
    match f.poll(&mut cell, cx()) {
        Poll::Ready(Ok(())) => {}
        _ => panic!("the device response covers the buffer"),
    }
    let (_, buffer) = f.into_parts();
    assert_eq!(buffer, vec![5, 6, 7, 8]);
}

#[test]
fn i2c_write_transaction_collects_what_is_sent() {
    let mut cell = ContextCell::new();
    let bus = SimI2cBus::new(vec![]);

    let mut begin = bus.begin_write(0x42);
    let handle = match begin.poll(&mut cell, cx()) {
        Poll::Ready(Ok(handle)) => handle,
        _ => panic!("the transaction begins in one poll"),
    };

    let mut f = handle.write_all(vec![9, 8, 7]);
    match f.poll(&mut cell, cx()) {
        Poll::Ready(Ok(())) => {}
        _ => panic!("the device accepts everything"),
    }
    let (handle, _) = f.into_parts();
    assert_eq!(handle.into_accepted(), vec![9, 8, 7]);
}

#[test]
fn spi_split_transfer_loops_back_with_zero_padding() {
    let mut cell = ContextCell::new();
    let mut queue = WakeQueue::new();

    let bus = SimSpi::new(Mode::mode_0());
    let mut transaction = bus.transaction();
    let transfer = transaction.transfer_split(vec![1, 2, 3], vec![0; 5]).unwrap();

    let mut complete = transfer.complete();
    match complete.poll(&mut cell, cx()) {
        Poll::Pending => {}
        _ => panic!("the hardware is still shifting"),
    }

    // The end-of-exchange interrupt wakes the stored waker exactly
    // once.
    complete.transfer.fire(&mut queue);
    assert!(queue.pending);
    assert_eq!(queue.invocations, 1);

    match complete.poll(&mut cell, cx()) {
        Poll::Ready(Ok(())) => {}
        _ => panic!("the exchange is done"),
    }
    let received = complete.into_inner().into_buffer();
    assert_eq!(received, vec![1, 2, 3, 0, 0]);
}

#[test]
fn spi_in_place_transfer_completes_after_the_interrupt() {
    let mut cell = ContextCell::new();
    let mut queue = WakeQueue::new();

    let bus = SimSpi::new(Mode::mode_3());
    let mut transaction = bus.transaction();
    let transfer = transaction.transfer(vec![4, 5]).unwrap();

    let mut complete = transfer.complete();
    // The interrupt fires before the first poll: no waker stored,
    // nothing woken, and the poll completes at once.
    complete.transfer.fire(&mut queue);
    assert!(!queue.pending);
    assert_eq!(queue.invocations, 0);
    match complete.poll(&mut cell, cx()) {
        Poll::Ready(Ok(())) => {}
        _ => panic!("the exchange is done"),
    }
    // On the loopback wiring, what was shifted out came straight back.
    assert_eq!(complete.into_inner().into_buffer(), vec![4, 5]);
}

#[test]
fn spi_bus_supports_sequential_transactions() {
    let mut cell = ContextCell::new();
    let mut queue = WakeQueue::new();

    let bus = SimSpi::new(Mode::mode_1());
    let mut transaction = bus.transaction();
    let transfer = transaction.transfer(vec![1]).unwrap();
    let mut complete = transfer.complete();
    complete.transfer.fire(&mut queue);
    match complete.poll(&mut cell, cx()) {
        Poll::Ready(Ok(())) => {}
        _ => panic!("the exchange is done"),
    }

    // Ending the transaction releases the bus for the next one.
    let bus = SimSpi::end_transaction(transaction);
    let mut transaction = bus.transaction();
    let transfer = transaction.transfer(vec![2]).unwrap();
    let mut complete = transfer.complete();
    complete.transfer.fire(&mut queue);
    match complete.poll(&mut cell, cx()) {
        Poll::Ready(Ok(())) => {}
        _ => panic!("the exchange is done"),
    }
    assert_eq!(complete.into_inner().into_buffer(), vec![2]);
}

#[test]
fn spi_modes_pair_polarity_and_phase() {
    assert_eq!(Mode::mode_0().polarity, Polarity::IdleLow);
    assert_eq!(Mode::mode_0().phase, Phase::CaptureOnFirstTransition);
    assert_eq!(Mode::mode_1().polarity, Polarity::IdleLow);
    assert_eq!(Mode::mode_1().phase, Phase::CaptureOnSecondTransition);
    assert_eq!(Mode::mode_2().polarity, Polarity::IdleHigh);
    assert_eq!(Mode::mode_2().phase, Phase::CaptureOnFirstTransition);
    assert_eq!(Mode::mode_3().polarity, Polarity::IdleHigh);
    assert_eq!(Mode::mode_3().phase, Phase::CaptureOnSecondTransition);
}
