//! Names and capabilities of the Thread devices a controller drives.
use vstd::prelude::*;
use vstd::string::StringExecFns;

use crate::text::text_eq;

verus! {

/// The unique name of a device.
#[derive(Clone, Debug, PartialEq, Eq, Hash)]
pub struct DeviceId(String);

impl View for DeviceId {
    type V = Seq<char>;

    closed spec fn view(&self) -> Seq<char> {
        self.0@
    }
}

impl DeviceId {
    pub fn new(id: &str) -> (r: Self)
        ensures
            r@ == id@,
    {
        DeviceId(String::from_str(id))
    }

    pub fn as_str(&self) -> (r: &str)
        ensures
            r@ == self@,
    {
        self.0.as_str()
    }
}

/// What a device can do; used to ask for a device by capability.
#[derive(Clone, Copy, Debug, PartialEq, Eq, Hash)]
pub enum DeviceCapability {
    /// A full-function Thread device (router-capable).
    FullFunctionDevice,
    /// A backbone border router.
    BackboneBorderRouter,
    /// A reduced-function (sleepy end) device.
    ReducedFunctionDevice,
}

/// The identity of a handle into a device pool.
#[derive(Clone, Copy, Debug, PartialEq, Eq, Hash)]
pub struct HandleId(u64);

impl View for HandleId {
    type V = u64;

    closed spec fn view(&self) -> u64 {
        self.0
    }
}

impl HandleId {
    pub fn new(id: u64) -> (r: Self)
        ensures
            r@ == id,
    {
        HandleId(id)
    }

    pub fn get(&self) -> (r: u64)
        ensures
            r == self@,
    {
        self.0
    }
}

/// Failures of a device pool.
#[derive(Clone, Debug, PartialEq, Eq)]
pub enum DevicePoolError {
    /// A device with the given ID already exists in the pool.
    DuplicateDevice(DeviceId),
    /// No device with the given ID was found in the pool.
    DeviceNotFound(DeviceId),
    /// The requested device is reserved by another handle.
    DeviceUnavailable(DeviceId),
    /// The device is not reserved by the calling handle.
    NotReservedByHandle(DeviceId),
    /// No unreserved devices remain in the pool.
    NoDevicesAvailable,
    /// No unreserved device with the requested capability is available.
    NoDeviceWithCapability(DeviceCapability),
}

/// A USB serial device known to run OpenThread.
#[derive(Clone, Copy, Debug, PartialEq, Eq)]
pub struct SerialDeviceInfo {
    pub vendor: &'static str,
    pub product: Option<&'static str>,
    pub vid: u16,
    pub pid: u16,
}

impl SerialDeviceInfo {
    /// Whether a USB port with these vendor and product IDs and product
    /// name is this device.
    pub fn matches_usb(&self, vid: u16, pid: u16, product: Option<&str>) -> (r: bool)
        ensures
            r == (self.vid == vid && self.pid == pid && match (self.product, product) {
                (Some(a), Some(b)) => a@ == b@,
                (None, None) => true,
                _ => false,
            }),
    {
        if self.vid != vid || self.pid != pid {
            return false;
        }
        match (self.product, product) {
            (Some(a), Some(b)) => text_eq(a, b),
            (None, None) => true,
            _ => false,
        }
    }
}

/// Whether a USB port is one of the devices in `filter`.
pub fn is_known_usb_device(
    filter: &[SerialDeviceInfo],
    vid: u16,
    pid: u16,
    product: Option<&str>,
) -> (r: bool)
    ensures
        r == exists|i: int|
            0 <= i < filter@.len() && #[trigger] filter@[i].vid == vid && filter@[i].pid == pid
                && match (filter@[i].product, product) {
                (Some(a), Some(b)) => a@ == b@,
                (None, None) => true,
                _ => false,
            },
{
    let mut i: usize = 0;
    while i < filter.len()
        invariant
            i <= filter@.len(),
            forall|j: int|
                0 <= j < i ==> !(#[trigger] filter@[j].vid == vid && filter@[j].pid == pid
                    && match (filter@[j].product, product) {
                    (Some(a), Some(b)) => a@ == b@,
                    (None, None) => true,
                    _ => false,
                }),
        decreases filter@.len() - i,
    {
        if filter[i].matches_usb(vid, pid, product) {
            return true;
        }
        i += 1;
    }
    false
}

} // verus!
