use l5p_kbl::transport::{next_device_step, DeviceEvent, DeviceStep, TransportError, PRODUCT_ID, VENDOR_ID};

#[test]
fn device_ids() {
    assert_eq!(VENDOR_ID, 0x048d);
    assert_eq!(PRODUCT_ID, 0xc965);
}

#[test]
fn missing_device() {
    assert!(matches!(
        next_device_step(DeviceEvent::NotFound),
        DeviceStep::Done(Err(TransportError::DeviceNotFound))
    ));
}

#[test]
fn opened_device_queries_driver() {
    assert!(matches!(next_device_step(DeviceEvent::Opened), DeviceStep::QueryDriver));
}

#[test]
fn active_driver_is_detached() {
    assert!(matches!(next_device_step(DeviceEvent::DriverActive(true)), DeviceStep::DetachDriver));
    assert!(matches!(next_device_step(DeviceEvent::Detached), DeviceStep::WriteFrame));
}

#[test]
fn inactive_driver_goes_to_write() {
    assert!(matches!(next_device_step(DeviceEvent::DriverActive(false)), DeviceStep::WriteFrame));
}

#[test]
fn failures_end_the_write() {
    match next_device_step(DeviceEvent::DriverQueryFailed("q".to_string())) {
        DeviceStep::Done(Err(e)) => assert_eq!(e, TransportError::DriverQueryFailed("q".to_string())),
        other => panic!("unexpected step {:?}", other),
    }
    match next_device_step(DeviceEvent::DetachFailed("d".to_string())) {
        DeviceStep::Done(Err(e)) => assert_eq!(e, TransportError::DriverDetachFailed("d".to_string())),
        other => panic!("unexpected step {:?}", other),
    }
    match next_device_step(DeviceEvent::WriteFailed("w".to_string())) {
        DeviceStep::Done(Err(e)) => assert_eq!(e, TransportError::WriteFailed("w".to_string())),
        other => panic!("unexpected step {:?}", other),
    }
}

#[test]
fn written_frame_succeeds() {
    assert!(matches!(next_device_step(DeviceEvent::Written), DeviceStep::Done(Ok(()))));
}
