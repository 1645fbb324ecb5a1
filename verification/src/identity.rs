//! Device identities: a six-byte address and the kind of address it is.

use vstd::prelude::*;

verus! {

/// Number of bytes in a device address.
pub const ADDRESS_LEN: usize = 6;

/// The kinds of address that the transport tells apart.
#[derive(Clone, Copy, Debug, PartialEq, Eq, Structural)]
pub enum AddressKind {
    /// A public device address.
    Public,
    /// A random device address.
    Random,
    /// A public address obtained by resolving an identity.
    PublicId,
    /// A random static address obtained by resolving an identity.
    RandomId,
}

/// The identity of a peer: its address bytes, least significant byte first, and
/// the kind of the address. Two identities are equal when both agree.
#[derive(Clone, Copy, Debug, PartialEq, Eq)]
pub struct DeviceIdentity {
    pub bytes: [u8; 6],
    pub kind: AddressKind,
}

impl DeviceIdentity {
    /// The same address in the resolved public form, the only form that is kept
    /// for long-term pairing.
    pub open spec fn spec_resolved(self) -> DeviceIdentity {
        DeviceIdentity { bytes: self.bytes, kind: AddressKind::PublicId }
    }

    /// Whether this identity already is in the resolved public form.
    pub open spec fn spec_is_resolved(self) -> bool {
        self.kind == AddressKind::PublicId
    }

    /// Whether two identities name the same device, whatever kind each was seen as.
    pub open spec fn spec_same_device(self, other: DeviceIdentity) -> bool {
        self.bytes == other.bytes
    }

    /// Builds an identity from its address bytes, least significant first.
    pub fn from_le_bytes(bytes: [u8; 6], kind: AddressKind) -> (id: DeviceIdentity)
        ensures
            id.bytes == bytes,
            id.kind == kind,
    {
        DeviceIdentity { bytes, kind }
    }

    /// The address bytes, least significant first.
    pub fn as_le_bytes(&self) -> (bytes: [u8; 6])
        ensures
            bytes == self.bytes,
    {
        self.bytes
    }

    /// The kind of the address.
    pub fn addr_type(&self) -> (kind: AddressKind)
        ensures
            kind == self.kind,
    {
        self.kind
    }

    #[verifier::when_used_as_spec(spec_resolved)]
    pub fn resolved(self) -> (id: DeviceIdentity)
        ensures
            id == self.spec_resolved(),
    {
        DeviceIdentity { bytes: self.bytes, kind: AddressKind::PublicId }
    }

    #[verifier::when_used_as_spec(spec_is_resolved)]
    pub fn is_resolved(self) -> (yes: bool)
        ensures
            yes == self.spec_is_resolved(),
    {
        self.kind == AddressKind::PublicId
    }

    #[verifier::when_used_as_spec(spec_same_device)]
    pub fn same_device(self, other: DeviceIdentity) -> (same: bool)
        ensures
            same == self.spec_same_device(other),
    {
        let same = self.bytes[0] == other.bytes[0] && self.bytes[1] == other.bytes[1]
            && self.bytes[2] == other.bytes[2] && self.bytes[3] == other.bytes[3]
            && self.bytes[4] == other.bytes[4] && self.bytes[5] == other.bytes[5];
        proof {
            if same {
                assert(self.bytes =~= other.bytes);
            }
        }
        same
    }

    /// Exact equality: the same bytes and the same kind.
    pub fn same_as(self, other: DeviceIdentity) -> (same: bool)
        ensures
            same == (self == other),
    {
        self.same_device(other) && self.kind == other.kind
    }
}

} // verus!
