use vstd::prelude::*;

verus! {

/// Failure taxonomy of the update stack.
///
/// Link-layer faults surface as `CrcMismatch` or `Protocol`; transport faults
/// as `Timeout` or `Connection`; firmware handling as `NoFirmwareFile`,
/// `HexFileError`, `FirmwareTooLarge` or `InvalidDeviceId`; the final CRC
/// comparison as `VerificationFailed`; exhausted bootloader probes as
/// `BootloaderNotDetected`; and configuration validation as `Configuration`.
#[derive(Debug, Clone, PartialEq, Eq)]
pub enum Error {
    Protocol(String),
    InvalidPacket(u8),
    CrcMismatch,
    Timeout,
    Connection(String),
    NoFirmwareFile,
    HexFileError(String),
    FirmwareTooLarge,
    InvalidDeviceId,
    VerificationFailed,
    BootloaderNotDetected,
    Configuration(String),
}

} // verus!
