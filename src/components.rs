//! Which components an operational dataset holds, one bit each.
use vstd::prelude::*;

verus! {

pub const COMPONENTS_ACTIVE: u16 = 1;
pub const COMPONENTS_PENDING: u16 = 2;
pub const COMPONENTS_NETWORK_KEY: u16 = 4;
pub const COMPONENTS_NETWORK_NAME: u16 = 8;
pub const COMPONENTS_EXTENDED_PAN_ID: u16 = 16;
pub const COMPONENTS_MESH_LOCAL_PREFIX: u16 = 32;
pub const COMPONENTS_DELAY: u16 = 64;
pub const COMPONENTS_PAN_ID: u16 = 128;
pub const COMPONENTS_CHANNEL: u16 = 256;
pub const COMPONENTS_PSKC: u16 = 512;
pub const COMPONENTS_SECURITY_POLICY: u16 = 1024;
pub const COMPONENTS_CHANNEL_MASK: u16 = 2048;

/// Every component bit.
pub const COMPONENTS_ALL: u16 = 0x0FFF;

/// The components present in an active or pending operational dataset.
#[derive(Clone, Copy, Debug, PartialEq, Eq, Hash)]
pub struct Components(pub u16);

impl View for Components {
    type V = u16;

    open spec fn view(&self) -> u16 {
        self.0
    }
}

impl From<u16> for Components {
    /// Keeps the bits that name a component and drops the others.
    fn from(value: u16) -> (r: Components)
        ensures
            r@ == value & COMPONENTS_ALL,
    {
        Components(value & COMPONENTS_ALL)
    }
}

impl vstd::std_specs::convert::FromSpecImpl<u16> for Components {
    open spec fn obeys_from_spec() -> bool {
        true
    }

    open spec fn from_spec(value: u16) -> Components {
        Components(value & COMPONENTS_ALL)
    }
}

impl Components {
    pub fn bits(&self) -> (r: u16)
        ensures
            r == self@,
    {
        self.0
    }

    pub fn active(&self) -> (r: bool)
        ensures
            r == (self@ & COMPONENTS_ACTIVE == COMPONENTS_ACTIVE),
    {
        self.0 & COMPONENTS_ACTIVE == COMPONENTS_ACTIVE
    }

    pub fn pending(&self) -> (r: bool)
        ensures
            r == (self@ & COMPONENTS_PENDING == COMPONENTS_PENDING),
    {
        self.0 & COMPONENTS_PENDING == COMPONENTS_PENDING
    }

    pub fn network_key(&self) -> (r: bool)
        ensures
            r == (self@ & COMPONENTS_NETWORK_KEY == COMPONENTS_NETWORK_KEY),
    {
        self.0 & COMPONENTS_NETWORK_KEY == COMPONENTS_NETWORK_KEY
    }

    pub fn network_name(&self) -> (r: bool)
        ensures
            r == (self@ & COMPONENTS_NETWORK_NAME == COMPONENTS_NETWORK_NAME),
    {
        self.0 & COMPONENTS_NETWORK_NAME == COMPONENTS_NETWORK_NAME
    }

    pub fn extended_pan_id(&self) -> (r: bool)
        ensures
            r == (self@ & COMPONENTS_EXTENDED_PAN_ID == COMPONENTS_EXTENDED_PAN_ID),
    {
        self.0 & COMPONENTS_EXTENDED_PAN_ID == COMPONENTS_EXTENDED_PAN_ID
    }

    pub fn mesh_local_prefix(&self) -> (r: bool)
        ensures
            r == (self@ & COMPONENTS_MESH_LOCAL_PREFIX == COMPONENTS_MESH_LOCAL_PREFIX),
    {
        self.0 & COMPONENTS_MESH_LOCAL_PREFIX == COMPONENTS_MESH_LOCAL_PREFIX
    }

    pub fn delay(&self) -> (r: bool)
        ensures
            r == (self@ & COMPONENTS_DELAY == COMPONENTS_DELAY),
    {
        self.0 & COMPONENTS_DELAY == COMPONENTS_DELAY
    }

    pub fn pan_id(&self) -> (r: bool)
        ensures
            r == (self@ & COMPONENTS_PAN_ID == COMPONENTS_PAN_ID),
    {
        self.0 & COMPONENTS_PAN_ID == COMPONENTS_PAN_ID
    }

    pub fn channel(&self) -> (r: bool)
        ensures
            r == (self@ & COMPONENTS_CHANNEL == COMPONENTS_CHANNEL),
    {
        self.0 & COMPONENTS_CHANNEL == COMPONENTS_CHANNEL
    }

    pub fn pskc(&self) -> (r: bool)
        ensures
            r == (self@ & COMPONENTS_PSKC == COMPONENTS_PSKC),
    {
        self.0 & COMPONENTS_PSKC == COMPONENTS_PSKC
    }

    pub fn security_policy(&self) -> (r: bool)
        ensures
            r == (self@ & COMPONENTS_SECURITY_POLICY == COMPONENTS_SECURITY_POLICY),
    {
        self.0 & COMPONENTS_SECURITY_POLICY == COMPONENTS_SECURITY_POLICY
    }

    pub fn channel_mask(&self) -> (r: bool)
        ensures
            r == (self@ & COMPONENTS_CHANNEL_MASK == COMPONENTS_CHANNEL_MASK),
    {
        self.0 & COMPONENTS_CHANNEL_MASK == COMPONENTS_CHANNEL_MASK
    }
}

} // verus!
