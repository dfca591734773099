//! Account addresses: a workchain and the address bytes.
use vstd::prelude::*;
use crate::text::{address_text, address_to_string};

verus! {

/// An internal message address (`MsgAddressInt` of a standard address).
pub struct MsgAddress {
    pub workchain: i32,
    pub address: Vec<u8>,
}

impl MsgAddress {
    /// The textual form `workchain:hex`.
    pub open spec fn text(&self) -> Seq<char> {
        address_text(self.workchain as int, self.address@)
    }

    /// The textual form `workchain:hex` (`MsgAddressInt::to_string`).
    pub fn to_string(&self) -> (r: String)
        ensures
            r@ == self.text(),
    {
        address_to_string(self.workchain, self.address.as_slice())
    }
}

/// The textual form of an address as the indexer writes it for its own
/// records: `workchain:hex` (`to_address`).
pub fn to_address(addr: &MsgAddress) -> (r: String)
    ensures
        r@ == addr.text(),
{
    address_to_string(addr.workchain, addr.address.as_slice())
}

/// An address as the database column type holds it: its text.
pub struct Address(pub String);

impl From<String> for Address {
    fn from(str_address: String) -> (r: Address) {
        Address(str_address)
    }
}

impl vstd::std_specs::convert::FromSpecImpl<String> for Address {
    open spec fn obeys_from_spec() -> bool {
        true
    }

    open spec fn from_spec(str_address: String) -> Address {
        Address(str_address)
    }
}

impl Address {
    /// The address of the text (`From<&str>`).
    pub fn from_str_slice(str_address: &str) -> (r: Address)
        ensures
            r.0@ == str_address@,
    {
        Address(str_address.to_string())
    }
}

} // verus!
