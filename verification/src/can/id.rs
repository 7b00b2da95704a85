//! CAN Identifiers.
use vstd::prelude::*;

verus! {

/// Standard 11-bit CAN Identifier (`0..=0x7FF`).
#[derive(Debug, Copy, Clone, PartialEq, Eq, Structural)]
pub struct StandardId(u16);

impl StandardId {
    #[verifier::type_invariant]
    spec fn in_range(self) -> bool {
        self.0 <= 0x7FF
    }

    /// The raw 11-bit identifier.
    pub closed spec fn raw(self) -> u16 {
        self.0
    }

    /// CAN ID `0`, the highest priority.
    pub fn zero() -> (r: Self)
        ensures
            r.raw() == 0,
    {
        StandardId(0)
    }

    /// CAN ID `0x7FF`, the lowest priority.
    pub fn max() -> (r: Self)
        ensures
            r.raw() == 0x7FF,
    {
        StandardId(0x7FF)
    }

    /// Tries to create a `StandardId` from a raw 16-bit integer.
    ///
    /// This will return `None` if `raw` is out of range of an 11-bit integer (`> 0x7FF`).
    pub fn new(raw: u16) -> (r: Option<Self>)
        ensures
            raw <= 0x7FF ==> (r matches Some(id) && id.raw() == raw),
            raw > 0x7FF ==> r is None,
    {
        if raw <= 0x7FF {
            Some(StandardId(raw))
        } else {
            None
        }
    }

    /// Returns this CAN Identifier as a raw 16-bit integer.
    pub fn as_raw(&self) -> (r: u16)
        ensures
            r == self.raw(),
            r <= 0x7FF,
    {
        proof {
            use_type_invariant(self);
        }
        self.0
    }
}

/// Extended 29-bit CAN Identifier (`0..=1FFF_FFFF`).
#[derive(Debug, Copy, Clone, PartialEq, Eq, Structural)]
pub struct ExtendedId(u32);

impl ExtendedId {
    #[verifier::type_invariant]
    spec fn in_range(self) -> bool {
        self.0 <= 0x1FFF_FFFF
    }

    /// The raw 29-bit identifier.
    pub closed spec fn raw(self) -> u32 {
        self.0
    }

    /// CAN ID `0`, the highest priority.
    pub fn zero() -> (r: Self)
        ensures
            r.raw() == 0,
    {
        ExtendedId(0)
    }

    /// CAN ID `0x1FFFFFFF`, the lowest priority.
    pub fn max() -> (r: Self)
        ensures
            r.raw() == 0x1FFF_FFFF,
    {
        ExtendedId(0x1FFF_FFFF)
    }

    /// Tries to create a `ExtendedId` from a raw 32-bit integer.
    ///
    /// This will return `None` if `raw` is out of range of an 29-bit integer (`> 0x1FFF_FFFF`).
    pub fn new(raw: u32) -> (r: Option<Self>)
        ensures
            raw <= 0x1FFF_FFFF ==> (r matches Some(id) && id.raw() == raw),
            raw > 0x1FFF_FFFF ==> r is None,
    {
        if raw <= 0x1FFF_FFFF {
            Some(ExtendedId(raw))
        } else {
            None
        }
    }

    /// Returns this CAN Identifier as a raw 32-bit integer.
    pub fn as_raw(&self) -> (r: u32)
        ensures
            r == self.raw(),
            r <= 0x1FFF_FFFF,
    {
        proof {
            use_type_invariant(self);
        }
        self.0
    }

    /// Returns the Base ID part of this extended identifier: its 11 most significant bits
    /// (ID-28 to ID-18).
    pub fn standard_id(&self) -> (r: StandardId)
        ensures
            r.raw() == self.raw() >> 18,
    {
        proof {
            use_type_invariant(self);
        }
        let raw = self.0;
        assert(raw <= 0x1FFF_FFFF ==> raw >> 18 <= 0x7FF) by (bit_vector);
        StandardId((raw >> 18) as u16)
    }
}

/// A CAN Identifier (standard or extended).
#[derive(Debug, Copy, Clone, PartialEq, Eq, Structural)]
pub enum Id {
    /// Standard 11-bit Identifier (`0..=0x7FF`).
    Standard(StandardId),
    /// Extended 29-bit Identifier (`0..=0x1FFF_FFFF`).
    Extended(ExtendedId),
}

impl From<StandardId> for Id {
    fn from(id: StandardId) -> (r: Self) {
        Id::Standard(id)
    }
}

impl vstd::std_specs::convert::FromSpecImpl<StandardId> for Id {
    open spec fn obeys_from_spec() -> bool {
        true
    }

    open spec fn from_spec(v: StandardId) -> Self {
        Id::Standard(v)
    }
}

impl From<ExtendedId> for Id {
    fn from(id: ExtendedId) -> (r: Self) {
        Id::Extended(id)
    }
}

impl vstd::std_specs::convert::FromSpecImpl<ExtendedId> for Id {
    open spec fn obeys_from_spec() -> bool {
        true
    }

    open spec fn from_spec(v: ExtendedId) -> Self {
        Id::Extended(v)
    }
}

impl Id {
    /// Creates a standard identifier, or fails with `Err(())` when `id` is out of range of an
    /// 11-bit integer (`> 0x7FF`).
    pub fn new_standard(id: u16) -> (r: Result<Id, ()>)
        ensures
            id <= 0x7FF ==> (r matches Ok(Id::Standard(s)) && s.raw() == id),
            id > 0x7FF ==> r is Err,
    {
        match StandardId::new(id) {
            Some(s) => Ok(Id::Standard(s)),
            None => Err(()),
        }
    }

    /// Creates an extended identifier, or fails with `Err(())` when `id` is out of range of a
    /// 29-bit integer (`> 0x1FFF_FFFF`).
    pub fn new_extended(id: u32) -> (r: Result<Id, ()>)
        ensures
            id <= 0x1FFF_FFFF ==> (r matches Ok(Id::Extended(e)) && e.raw() == id),
            id > 0x1FFF_FFFF ==> r is Err,
    {
        match ExtendedId::new(id) {
            Some(e) => Ok(Id::Extended(e)),
            None => Err(()),
        }
    }
}

impl From<StandardId> for u16 {
    fn from(id: StandardId) -> (r: u16) {
        id.as_raw()
    }
}

impl vstd::std_specs::convert::FromSpecImpl<StandardId> for u16 {
    open spec fn obeys_from_spec() -> bool {
        true
    }

    open spec fn from_spec(v: StandardId) -> u16 {
        v.raw()
    }
}

impl From<StandardId> for u32 {
    fn from(id: StandardId) -> (r: u32) {
        id.as_raw() as u32
    }
}

impl vstd::std_specs::convert::FromSpecImpl<StandardId> for u32 {
    open spec fn obeys_from_spec() -> bool {
        true
    }

    open spec fn from_spec(v: StandardId) -> u32 {
        v.raw() as u32
    }
}

impl From<ExtendedId> for u32 {
    fn from(id: ExtendedId) -> (r: u32) {
        id.as_raw()
    }
}

impl vstd::std_specs::convert::FromSpecImpl<ExtendedId> for u32 {
    open spec fn obeys_from_spec() -> bool {
        true
    }

    open spec fn from_spec(v: ExtendedId) -> u32 {
        v.raw()
    }
}

} // verus!
