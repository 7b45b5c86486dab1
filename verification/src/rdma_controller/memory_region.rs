//! Memory that is registered with the device.

use super::queue_pair::AccessFlags;
use super::IbResource;
use super::RdmaError;
use vstd::prelude::*;

verus! {

/// What the adapter asks the device to register.
#[derive(Debug, Clone, Copy, PartialEq, Eq, Structural)]
pub struct Registration {
    /// Number of bytes to register.
    pub length: usize,
    pub access: AccessFlags,
}

/// The access with which the slot array of a ring is registered: the device
/// writes what it receives, and a peer may read and write.
pub open spec fn ring_access() -> AccessFlags {
    AccessFlags { local_write: true, remote_write: true, remote_read: true, remote_atomic: false }
}

/// A registered range of bytes and the key that authorises work requests on it.
#[derive(Debug, Clone, Copy)]
pub struct MemoryRegion {
    addr: u64,
    length: u64,
    lkey: u32,
}

impl MemoryRegion {
    #[verifier::type_invariant]
    spec fn well_formed(self) -> bool {
        self.addr + self.length <= u64::MAX
    }

    pub closed spec fn spec_addr(&self) -> u64 {
        self.addr
    }

    pub closed spec fn spec_length(&self) -> u64 {
        self.length
    }

    pub closed spec fn spec_lkey(&self) -> u32 {
        self.lkey
    }

    /// The bytes from `addr` on, `length` of them, all lie in the region.
    pub open spec fn spec_covers(&self, addr: u64, length: u64) -> bool {
        self.spec_addr() <= addr && addr + length <= self.spec_addr() + self.spec_length()
    }

    /// The request to register `elements` elements of `element_size` bytes each,
    /// or nothing where that many bytes cannot be counted.
    pub fn request(elements: usize, element_size: usize) -> (request: Option<Registration>)
        ensures
            request.is_some() <==> elements * element_size <= usize::MAX,
            request matches Some(registration) ==> {
                &&& registration.length == elements * element_size
                &&& registration.access == ring_access()
            },
    {
        match elements.checked_mul(element_size) {
            Some(length) => Some(
                Registration {
                    length,
                    access: AccessFlags {
                        local_write: true,
                        remote_write: true,
                        remote_read: true,
                        remote_atomic: false,
                    },
                },
            ),
            None => None,
        }
    }

    /// The region that the device registered, from what it answered: it gave no
    /// region where `registered` is false, and a range that runs past the end of
    /// the address space is none either.
    pub fn registered(registered: bool, addr: u64, length: u64, lkey: u32) -> (region: Result<Self, RdmaError>)
        ensures
            region.is_ok() <==> registered && addr + length <= u64::MAX,
            region matches Ok(granted) ==> {
                &&& granted.spec_addr() == addr
                &&& granted.spec_length() == length
                &&& granted.spec_lkey() == lkey
            },
            region matches Err(error) ==> error == RdmaError::RegMrError,
    {
        if !registered || length > u64::MAX - addr {
            return Err(RdmaError::RegMrError);
        }
        Ok(Self { addr, length, lkey })
    }

    /// Address of the first registered byte.
    #[verifier::when_used_as_spec(spec_addr)]
    pub fn addr(&self) -> (addr: u64)
        ensures
            addr == self.spec_addr(),
    {
        self.addr
    }

    /// Number of registered bytes.
    #[verifier::when_used_as_spec(spec_length)]
    pub fn length(&self) -> (length: u64)
        ensures
            length == self.spec_length(),
            self.spec_addr() + length <= u64::MAX,
    {
        proof {
            use_type_invariant(self);
        }
        self.length
    }

    /// The local key of the region, which authorises work requests on it.
    #[verifier::when_used_as_spec(spec_lkey)]
    pub fn lkey(&self) -> (lkey: u32)
        ensures
            lkey == self.spec_lkey(),
    {
        self.lkey
    }

    /// Whether a run of bytes lies in the region.
    #[verifier::when_used_as_spec(spec_covers)]
    pub fn covers(&self, addr: u64, length: u64) -> (covered: bool)
        ensures
            covered == self.spec_covers(addr, length),
    {
        self.addr <= addr && length <= self.length && addr - self.addr <= self.length - length
    }
}

impl IbResource {
    /// The request to register a buffer of `elements` elements of `element_size`
    /// bytes each, with the access that the slots of a ring need. A buffer whose
    /// bytes cannot be counted is refused. Registering is the driver's part; it
    /// turns the answer of the device into a region with
    /// [`MemoryRegion::registered`].
    pub fn register_memory_region(&self, elements: usize, element_size: usize) -> (request: Result<
        Registration,
        RdmaError,
    >)
        ensures
            request == if elements * element_size <= usize::MAX {
                Ok::<Registration, RdmaError>(
                    Registration { length: (elements * element_size) as usize, access: ring_access() },
                )
            } else {
                Err::<Registration, RdmaError>(RdmaError::RegMrError)
            },
    {
        match MemoryRegion::request(elements, element_size) {
            Some(registration) => Ok(registration),
            None => Err(RdmaError::RegMrError),
        }
    }
}

} // verus!
