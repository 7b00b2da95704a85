use embedded_hal_io::asynchronous::{read_exact_pending, read_exact_step, write_all_step, NoConnect, ReadExactStep, WriteAllStep};
use embedded_hal_io::blocking::can::{transmit_step, TransmitStep};

#[test]
fn read_exact_steps() {
    assert_eq!(read_exact_pending(0, 4), None);
    assert_eq!(read_exact_pending(4, 4), Some(4));
    assert_eq!(read_exact_pending(0, 0), Some(0));
    assert_eq!(read_exact_step::<()>(0, 4, Ok(3)), ReadExactStep::Continue(3));
    assert_eq!(read_exact_step::<()>(3, 4, Ok(1)), ReadExactStep::Done(4));
    assert_eq!(read_exact_step::<()>(3, 4, Ok(0)), ReadExactStep::Eof);
    assert_eq!(read_exact_step(1, 4, Err(7u8)), ReadExactStep::Failed(7u8));
    assert_eq!(read_exact_step::<()>(2, 4, Ok(5)), ReadExactStep::Done(7));
}

#[test]
fn write_all_steps() {
    assert_eq!(write_all_step::<()>(0, 5, Ok(2)), WriteAllStep::Continue(2));
    assert_eq!(write_all_step::<()>(2, 5, Ok(3)), WriteAllStep::Done);
    assert_eq!(write_all_step::<()>(2, 5, Ok(0)), WriteAllStep::WriteZero);
    assert_eq!(write_all_step(2, 5, Err(9u8)), WriteAllStep::Failed(9u8));
}

#[test]
fn transmit_steps() {
    assert!(matches!(transmit_step::<u8, ()>(Err(nb::Error::WouldBlock)), TransmitStep::Retry));
    assert!(matches!(transmit_step::<u8, ()>(Err(nb::Error::Other(()))), TransmitStep::Failed(())));
    assert!(matches!(transmit_step::<u8, ()>(Ok(Some(7))), TransmitStep::Resend(7)));
    assert!(matches!(transmit_step::<u8, ()>(Ok(None)), TransmitStep::Done));
}

#[test]
fn unconnected_pin_reads_its_value() {
    assert!(NoConnect::new(true).value());
    assert!(!NoConnect::new(false).value());
}
