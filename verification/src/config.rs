//! The persisted namespace: which records it holds and how they are encoded.
//!
//! An [`Nvs`] value is an image of the namespace. The program that owns the flash
//! partition fills an image from what it read and writes back what an operation
//! changed; everything between the two is decided here.

use vstd::prelude::*;
use crate::identity::{AddressKind, DeviceIdentity, ADDRESS_LEN};

verus! {

/// Name of the namespace that holds the records.
pub const NAMESPACE: &'static str = "config";

/// Key of the owner's address: a blob of six bytes, least significant first.
pub const PAIRED_ID_ADDRESS_KEY: &'static str = "paired_id_address";

/// Key of the provisioning flag: one byte, zero or one.
pub const SETUP_FINISHED_KEY: &'static str = "setup_finished";

/// Why the store could not serve a request.
#[derive(Clone, Copy, Debug, PartialEq, Eq, Structural)]
pub enum StorageFault {
    /// The partition could not be taken or mounted.
    PartitionUnavailable,
    /// The namespace could not be opened or created.
    NamespaceUnavailable,
    /// Reading a record failed.
    ReadFailed,
    /// Writing a record failed.
    WriteFailed,
    /// A record is present but does not have the shape of its kind.
    MalformedRecord,
}

/// An image of the namespace: each record as it lies in storage, or `None` where
/// it was never written.
#[derive(Clone, Debug, PartialEq, Eq)]
pub struct Nvs {
    pub paired_id_address: Option<Vec<u8>>,
    pub setup_finished: Option<u8>,
}

/// The mathematical content of an [`Nvs`].
pub struct NvsView {
    pub paired_id_address: Option<Seq<u8>>,
    pub setup_finished: Option<u8>,
}

impl View for Nvs {
    type V = NvsView;

    open spec fn view(&self) -> NvsView {
        NvsView {
            paired_id_address: match self.paired_id_address {
                Some(blob) => Some(blob@),
                None => None,
            },
            setup_finished: self.setup_finished,
        }
    }
}

/// The six bytes of an address record as an array.
pub open spec fn address_of(blob: Seq<u8>) -> [u8; 6] {
    [blob[0], blob[1], blob[2], blob[3], blob[4], blob[5]]
}

/// The identity that an address record stands for. The record keeps no kind:
/// what is read back is always in the resolved public form.
pub open spec fn decode_identity(blob: Seq<u8>) -> Result<DeviceIdentity, StorageFault> {
    if blob.len() == 6 {
        Ok(DeviceIdentity { bytes: address_of(blob), kind: AddressKind::PublicId })
    } else {
        Err(StorageFault::MalformedRecord)
    }
}

/// The address record of an identity.
pub open spec fn encode_identity(identity: DeviceIdentity) -> Seq<u8> {
    identity.bytes@
}

/// The flag that a stored byte stands for: anything but zero is `true`.
pub open spec fn decode_flag(byte: u8) -> bool {
    byte != 0
}

/// The stored byte of a flag.
pub open spec fn encode_flag(value: bool) -> u8 {
    if value { 1u8 } else { 0u8 }
}

impl NvsView {
    /// The namespace before anything was written.
    pub open spec fn empty() -> NvsView {
        NvsView { paired_id_address: None, setup_finished: None }
    }

    /// The owner on record: `Ok(None)` while unpaired, a fault where the record
    /// is not an address.
    pub open spec fn owner_identity(self) -> Result<Option<DeviceIdentity>, StorageFault> {
        match self.paired_id_address {
            None => Ok(None),
            Some(blob) => match decode_identity(blob) {
                Ok(identity) => Ok(Some(identity)),
                Err(fault) => Err(fault),
            },
        }
    }

    /// The provisioning flag on record.
    pub open spec fn setup_finished_flag(self) -> Option<bool> {
        match self.setup_finished {
            None => None,
            Some(byte) => Some(decode_flag(byte)),
        }
    }

    /// The namespace after `identity` was written as the owner.
    pub open spec fn with_owner_identity(self, identity: DeviceIdentity) -> NvsView {
        NvsView { paired_id_address: Some(encode_identity(identity)), ..self }
    }

    /// The namespace after `identity` was written as the owner on the condition
    /// that no owner was on record: otherwise nothing changes.
    pub open spec fn with_owner_if_absent(self, identity: DeviceIdentity) -> NvsView {
        if self.owner_identity() == Ok::<Option<DeviceIdentity>, StorageFault>(None) {
            self.with_owner_identity(identity)
        } else {
            self
        }
    }

    /// The namespace after the provisioning flag was written.
    pub open spec fn with_setup_finished(self, value: bool) -> NvsView {
        NvsView { setup_finished: Some(encode_flag(value)), ..self }
    }
}

impl Nvs {
    /// An image of a namespace in which nothing was written yet.
    pub fn new() -> (nvs: Nvs)
        ensures
            nvs@ == NvsView::empty(),
    {
        Nvs { paired_id_address: None, setup_finished: None }
    }

    /// An image made of the records as they were read from storage.
    pub fn from_records(paired_id_address: Option<Vec<u8>>, setup_finished: Option<u8>) -> (nvs:
        Nvs)
        ensures
            nvs.paired_id_address == paired_id_address,
            nvs.setup_finished == setup_finished,
    {
        Nvs { paired_id_address, setup_finished }
    }
}

/// The device's configuration once it is paired and its records are read.
#[derive(Clone, Copy, Debug, PartialEq, Eq)]
pub struct Config {
    pub paired_id_address: DeviceIdentity,
    pub setup_finished: bool,
}

impl Config {
    /// Reads the owner's identity: `Ok(None)` if none was ever written, the
    /// identity in resolved public form if the record holds six bytes, and
    /// `MalformedRecord` for a record of any other length.
    pub fn read_paired_id_address(nvs: &Nvs) -> (owner: Result<
        Option<DeviceIdentity>,
        StorageFault,
    >)
        ensures
            owner == nvs@.owner_identity(),
    {
        match &nvs.paired_id_address {
            None => Ok(None),
            Some(blob) => {
                if blob.len() == ADDRESS_LEN {
                    let bytes = [blob[0], blob[1], blob[2], blob[3], blob[4], blob[5]];
                    assert(bytes =~= address_of(blob@));
                    Ok(Some(DeviceIdentity::from_le_bytes(bytes, AddressKind::PublicId)))
                } else {
                    Err(StorageFault::MalformedRecord)
                }
            },
        }
    }

    /// Writes `address` as the owner, in place of any owner written before. Only
    /// the six address bytes are kept; the flag is left as it is.
    pub fn write_paired_id_address(nvs: &mut Nvs, address: DeviceIdentity)
        ensures
            final(nvs)@ == old(nvs)@.with_owner_identity(address),
    {
        let bytes = address.as_le_bytes();
        let mut blob: Vec<u8> = Vec::new();
        blob.push(bytes[0]);
        blob.push(bytes[1]);
        blob.push(bytes[2]);
        blob.push(bytes[3]);
        blob.push(bytes[4]);
        blob.push(bytes[5]);
        assert(blob@ =~= encode_identity(address));
        nvs.paired_id_address = Some(blob);
    }

    /// Reads the provisioning flag: `None` if it was never written, else whether
    /// the stored byte is anything but zero.
    pub fn read_setup_finished(nvs: &Nvs) -> (flag: Option<bool>)
        ensures
            flag == nvs@.setup_finished_flag(),
    {
        match nvs.setup_finished {
            None => None,
            Some(byte) => Some(byte != 0),
        }
    }

    /// Writes the provisioning flag as one byte, one for `true` and zero for
    /// `false`. The owner's record is left as it is.
    pub fn write_setup_finished(nvs: &mut Nvs, value: bool)
        ensures
            final(nvs)@ == old(nvs)@.with_setup_finished(value),
    {
        let byte: u8 = if value { 1 } else { 0 };
        nvs.setup_finished = Some(byte);
    }
}


} // verus!
