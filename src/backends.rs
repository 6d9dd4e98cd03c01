//! Driver selection and default-device lookup.
use vstd::prelude::*;

verus! {

/// Direction a device is looked up for.
#[derive(Clone, Copy, Debug, PartialEq, Eq, Structural)]
pub enum DeviceType {
    Input,
    Output,
    Duplex,
}

/// A platform audio driver: the entry point to its devices.
pub trait AudioDriver {
    /// Error the driver reports.
    type Error;

    /// Devices of this driver.
    type Device;

    /// Whether `answer` is an answer the driver may give when asked for its
    /// default device of `device_type`.
    spec fn answers(&self, device_type: DeviceType, answer: Result<Option<Self::Device>, Self::Error>) -> bool;

    /// The system's default device of the given type, if it has one.
    fn default_device(&self, device_type: DeviceType) -> (r: Result<Option<Self::Device>, Self::Error>)
        ensures
            self.answers(device_type, r),
    ;
}

/// Why no default device could be returned.
#[derive(Debug, PartialEq, Eq)]
pub enum DefaultDeviceError<DriverError> {
    /// The driver failed to answer.
    Driver(DriverError),
    /// The driver has no default device of that type.
    NoDefaultDevice,
}

/// The default device named by a driver's answer, or why there is none.
pub open spec fn default_device_outcome<Device, DriverError>(
    found: Result<Option<Device>, DriverError>,
) -> Result<Device, DefaultDeviceError<DriverError>> {
    match found {
        Ok(Some(device)) => Ok(device),
        Ok(None) => Err(DefaultDeviceError::NoDefaultDevice),
        Err(e) => Err(DefaultDeviceError::Driver(e)),
    }
}

/// Turns a driver's answer to a default-device query into the device, or
/// into the reason there is none.
pub fn require_default_device<Device, DriverError>(
    found: Result<Option<Device>, DriverError>,
) -> (r: Result<Device, DefaultDeviceError<DriverError>>)
    ensures
        r == default_device_outcome(found),
{
    match found {
        Ok(Some(device)) => Ok(device),
        Ok(None) => Err(DefaultDeviceError::NoDefaultDevice),
        Err(e) => Err(DefaultDeviceError::Driver(e)),
    }
}

/// The driver picked for this platform; the application names its type.
pub fn default_driver<Driver: AudioDriver + Default>() -> Driver {
    Driver::default()
}

/// The default input device of `driver`, or why there is none.
pub fn default_input_device_from<Driver: AudioDriver>(driver: &Driver) -> Result<
    Driver::Device,
    DefaultDeviceError<Driver::Error>,
>
{
    require_default_device(driver.default_device(DeviceType::Input))
}

/// The default input device of the platform's driver.
pub fn default_input_device<Driver: AudioDriver + Default>() -> (r: Result<
    Driver::Device,
    DefaultDeviceError<Driver::Error>,
>)
    ensures
        exists|driver: Driver, answer: Result<Option<Driver::Device>, Driver::Error>|
            driver.answers(DeviceType::Input, answer) && r == default_device_outcome(answer),
{
    let driver = default_driver::<Driver>();
    let answer = driver.default_device(DeviceType::Input);
    proof {
        assert(driver.answers(DeviceType::Input, answer));
    }
    require_default_device(answer)
}

/// The default output device of `driver`, or why there is none.
pub fn default_output_device_from<Driver: AudioDriver>(driver: &Driver) -> Result<
    Driver::Device,
    DefaultDeviceError<Driver::Error>,
>
{
    require_default_device(driver.default_device(DeviceType::Output))
}

/// The default output device of the platform's driver.
pub fn default_output_device<Driver: AudioDriver + Default>() -> (r: Result<
    Driver::Device,
    DefaultDeviceError<Driver::Error>,
>)
    ensures
        exists|driver: Driver, answer: Result<Option<Driver::Device>, Driver::Error>|
            driver.answers(DeviceType::Output, answer) && r == default_device_outcome(answer),
{
    let driver = default_driver::<Driver>();
    let answer = driver.default_device(DeviceType::Output);
    proof {
        assert(driver.answers(DeviceType::Output, answer));
    }
    require_default_device(answer)
}

} // verus!
