//! SoC device registration: the attributes a SoC device is registered with, and the handle
//! that a successful `soc_device_register` call yields.
//!
//! Strings are held as their bytes without the terminating NUL; a device handle is held as the
//! address the C side returned.

use vstd::prelude::*;
use crate::error::{Error, from_err_ptr, is_err_ptr_spec};

verus! {

/// Attributes for a SoC device.
pub struct DeviceAttribute {
    /// Machine.
    pub machine: Option<Vec<u8>>,
    /// Family.
    pub family: Option<Vec<u8>>,
    /// Revision.
    pub revision: Option<Vec<u8>>,
    /// Serial number.
    pub serial_number: Option<Vec<u8>>,
    /// SoC id.
    pub soc_id: Option<Vec<u8>>,
}

/// Attributes ready to be handed to `soc_device_register`: each field becomes either a C
/// string or NULL, and the backing strings live as long as the registration.
pub struct BuiltDeviceAttribute {
    backing: DeviceAttribute,
}

/// The string a C attribute field points at, or `None` for a NULL field.
pub fn cstring_to_c(mcs: &Option<Vec<u8>>) -> (r: Option<&[u8]>)
    ensures
        match (mcs, r) {
            (Some(s), Some(t)) => t@ == s@,
            (None, None) => true,
            _ => false,
        },
{
    match mcs {
        Some(cs) => Some(cs.as_slice()),
        None => None,
    }
}

impl DeviceAttribute {
    /// Moves the attributes into the form the registration keeps alive.
    pub fn build(self) -> (r: BuiltDeviceAttribute)
        ensures
            r.backing() == self,
    {
        BuiltDeviceAttribute { backing: self }
    }
}

impl BuiltDeviceAttribute {
    /// The attributes this was built from.
    pub closed spec fn backing(&self) -> DeviceAttribute {
        self.backing
    }

    /// The five C fields, in the order of `struct soc_device_attribute`: machine, family,
    /// revision, serial number and SoC id (`None` stands for NULL).
    pub fn c_fields(&self) -> (r: (
        Option<&[u8]>,
        Option<&[u8]>,
        Option<&[u8]>,
        Option<&[u8]>,
        Option<&[u8]>,
    ))
        ensures
            r.0 is Some <==> self.backing().machine is Some,
            r.0 matches Some(s) ==> s@ == self.backing().machine.unwrap()@,
            r.1 is Some <==> self.backing().family is Some,
            r.1 matches Some(s) ==> s@ == self.backing().family.unwrap()@,
            r.2 is Some <==> self.backing().revision is Some,
            r.2 matches Some(s) ==> s@ == self.backing().revision.unwrap()@,
            r.3 is Some <==> self.backing().serial_number is Some,
            r.3 matches Some(s) ==> s@ == self.backing().serial_number.unwrap()@,
            r.4 is Some <==> self.backing().soc_id is Some,
            r.4 matches Some(s) ==> s@ == self.backing().soc_id.unwrap()@,
    {
        (
            cstring_to_c(&self.backing.machine),
            cstring_to_c(&self.backing.family),
            cstring_to_c(&self.backing.revision),
            cstring_to_c(&self.backing.serial_number),
            cstring_to_c(&self.backing.soc_id),
        )
    }
}

/// A registered SoC device.
pub struct Device {
    inner: usize,
}

impl Device {
    /// Address of the registered `struct soc_device`.
    pub closed spec fn addr(&self) -> usize {
        self.inner
    }

    /// Completes a registration from the address `soc_device_register` returned: an error
    /// pointer becomes the error it encodes.
    pub fn register(raw_soc: usize) -> (r: Result<Device, Error>)
        ensures
            r is Err <==> is_err_ptr_spec(raw_soc),
            r matches Ok(d) ==> d.addr() == raw_soc,
            r matches Err(e) ==> e.wf() && e.errno() == raw_soc as int - (usize::MAX as int + 1),
    {
        let raw = from_err_ptr(raw_soc)?;
        Ok(Device { inner: raw })
    }

    /// Address of the registered `struct soc_device`, as `soc_device_unregister` takes it.
    pub fn as_ptr(&self) -> (r: usize)
        ensures
            r == self.addr(),
    {
        self.inner
    }
}

/// Registration handle for a SoC device: the attributes it was registered with and the device.
pub struct DeviceRegistration {
    attr: BuiltDeviceAttribute,
    soc_dev: Device,
}

impl DeviceRegistration {
    /// The attributes the device was registered with.
    pub closed spec fn attr(&self) -> DeviceAttribute {
        self.attr.backing()
    }

    /// The registered device.
    pub closed spec fn device(&self) -> usize {
        self.soc_dev.addr()
    }

    /// Registers a device with `attr`, given the address `soc_device_register` returned for
    /// these attributes. Fails, with the error it encodes, when that address is an error pointer.
    pub fn register(attr: BuiltDeviceAttribute, raw_soc: usize) -> (r: Result<
        DeviceRegistration,
        Error,
    >)
        ensures
            r is Err <==> is_err_ptr_spec(raw_soc),
            r matches Ok(reg) ==> reg.attr() == attr.backing() && reg.device() == raw_soc,
            r matches Err(e) ==> e.wf() && e.errno() == raw_soc as int - (usize::MAX as int + 1),
    {
        let soc_dev = Device::register(raw_soc)?;
        Ok(DeviceRegistration { attr, soc_dev })
    }

    /// The attributes the device was registered with.
    pub fn attributes(&self) -> (r: &BuiltDeviceAttribute)
        ensures
            r.backing() == self.attr(),
    {
        &self.attr
    }

    /// Address of the registered device, as `soc_device_unregister` takes it.
    pub fn soc_dev(&self) -> (r: usize)
        ensures
            r == self.device(),
    {
        self.soc_dev.as_ptr()
    }
}

} // verus!
