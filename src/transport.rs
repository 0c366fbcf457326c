//! The device's identity, the constants of its control transfer, and the
//! steps of one write to it.
//!
//! The caller performs each step on the device and hands its outcome back
//! as an event; the next step follows from that outcome alone.
use vstd::prelude::*;

verus! {

/// USB vendor id of the keyboard's lighting controller.
pub const VENDOR_ID: u16 = 0x048d;

/// USB product id of the keyboard's lighting controller.
pub const PRODUCT_ID: u16 = 0xc965;

/// Request type of the control transfer: class-specific, host to device,
/// to an interface.
pub const REQUEST_TYPE: u8 = 0x21;

/// Request of the control transfer (set report).
pub const REQUEST: u8 = 0x09;

/// Value of the control transfer.
pub const VALUE: u16 = 0x03cc;

/// Index of the control transfer.
pub const INDEX: u16 = 0x0000;

/// The interface whose kernel driver is checked and detached.
pub const INTERFACE: u8 = 0;

/// Seconds that the control transfer may take.
pub const TIMEOUT_SECS: u64 = 1;

/// Why a frame could not be written to the device.
#[derive(Debug, PartialEq, Eq)]
pub enum TransportError {
    /// No device with the vendor and product ids is attached.
    DeviceNotFound,
    /// Whether a kernel driver holds the interface could not be found out.
    DriverQueryFailed(String),
    /// The kernel driver could not be detached.
    DriverDetachFailed(String),
    /// The control transfer failed or timed out.
    WriteFailed(String),
}

/// The outcome of a step on the device.
#[derive(Debug)]
pub enum DeviceEvent {
    /// The device was not found.
    NotFound,
    /// The device was opened.
    Opened,
    /// Whether a kernel driver is active on the interface.
    DriverActive(bool),
    /// The kernel driver query failed.
    DriverQueryFailed(String),
    /// The kernel driver was detached.
    Detached,
    /// Detaching the kernel driver failed.
    DetachFailed(String),
    /// The frame was written.
    Written,
    /// Writing the frame failed.
    WriteFailed(String),
}

/// The next step of a write.
#[derive(Debug)]
pub enum DeviceStep {
    /// Ask whether a kernel driver is active on the interface.
    QueryDriver,
    /// Detach the kernel driver from the interface.
    DetachDriver,
    /// Send the frame in the control transfer.
    WriteFrame,
    /// The write is over, with this outcome.
    Done(Result<(), TransportError>),
}

/// The step that follows `event`. A failed driver query ends the write: the
/// driver's state is not guessed.
pub open spec fn step_after(event: DeviceEvent) -> DeviceStep {
    match event {
        DeviceEvent::NotFound => DeviceStep::Done(Err(TransportError::DeviceNotFound)),
        DeviceEvent::Opened => DeviceStep::QueryDriver,
        DeviceEvent::DriverActive(active) => if active {
            DeviceStep::DetachDriver
        } else {
            DeviceStep::WriteFrame
        },
        DeviceEvent::DriverQueryFailed(m) => DeviceStep::Done(
            Err(TransportError::DriverQueryFailed(m)),
        ),
        DeviceEvent::Detached => DeviceStep::WriteFrame,
        DeviceEvent::DetachFailed(m) => DeviceStep::Done(
            Err(TransportError::DriverDetachFailed(m)),
        ),
        DeviceEvent::Written => DeviceStep::Done(Ok(())),
        DeviceEvent::WriteFailed(m) => DeviceStep::Done(Err(TransportError::WriteFailed(m))),
    }
}

/// Decides the next step of a write from the outcome of the last one.
pub fn next_device_step(event: DeviceEvent) -> (r: DeviceStep)
    ensures
        r == step_after(event),
{
    match event {
        DeviceEvent::NotFound => DeviceStep::Done(Err(TransportError::DeviceNotFound)),
        DeviceEvent::Opened => DeviceStep::QueryDriver,
        DeviceEvent::DriverActive(active) => if active {
            DeviceStep::DetachDriver
        } else {
            DeviceStep::WriteFrame
        },
        DeviceEvent::DriverQueryFailed(m) => DeviceStep::Done(
            Err(TransportError::DriverQueryFailed(m)),
        ),
        DeviceEvent::Detached => DeviceStep::WriteFrame,
        DeviceEvent::DetachFailed(m) => DeviceStep::Done(
            Err(TransportError::DriverDetachFailed(m)),
        ),
        DeviceEvent::Written => DeviceStep::Done(Ok(())),
        DeviceEvent::WriteFailed(m) => DeviceStep::Done(Err(TransportError::WriteFailed(m))),
    }
}

/// A write only reaches the device once the driver's state is known and no
/// kernel driver holds the interface any more.
pub proof fn lemma_write_follows_driver_check(event: DeviceEvent)
    ensures
        step_after(event) is WriteFrame <==> (event == DeviceEvent::DriverActive(false)
            || event is Detached),
{
}

} // verus!
