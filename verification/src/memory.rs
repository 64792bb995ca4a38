//! Where a payload lies, and whether the DMA engine can send it from there.
use vstd::prelude::*;

verus! {

/// First address of the internal data RAM.
pub const DRAM_START: usize = 0x3FC0_0000;

/// First address behind the internal data RAM.
pub const DRAM_END: usize = 0x4000_0000;

/// How the bytes of a write reach the DMA engine.
#[derive(Clone, Copy, Debug, PartialEq, Eq)]
pub enum DmaOperationKind {
    /// The bytes are copied into the bounce buffer and sent from there.
    Copied,
    /// The bytes are sent from where they are.
    InPlace,
}

/// Whether `address` lies in the internal data RAM.
pub open spec fn in_dram(address: int) -> bool {
    DRAM_START <= address < DRAM_END
}

/// Whether a slice of `len` bytes can start at `address`: slices never start at
/// the null address, and never reach past the end of the address space.
pub open spec fn can_start_at(len: nat, address: usize) -> bool {
    0 < address && address + len <= usize::MAX
}

/// The kind of a write whose bytes lie in the internal data RAM, or do not.
pub open spec fn kind_of(in_dram: bool) -> DmaOperationKind {
    if in_dram {
        DmaOperationKind::InPlace
    } else {
        DmaOperationKind::Copied
    }
}

/// The kind of a write whose first byte lies at `address`.
pub open spec fn kind_at(address: int) -> DmaOperationKind {
    kind_of(in_dram(address))
}

/// Address of the first byte of `data`: `<[u8]>::as_ptr`, taken as a number.
///
/// The contract claims that the call does not unwind, that the address is not
/// null and that the slice ends within the address space. Which address it is
/// depends on where the program placed the bytes, not on what they are, and is
/// left open.
#[verifier::external_body]
fn slice_address(data: &[u8]) -> (address: usize)
    ensures
        can_start_at(data@.len(), address),
    no_unwind
{
    data.as_ptr() as usize
}

/// Whether `address` is one that the program may find for the first byte of `data`.
///
/// Slices with the same bytes can lie at different addresses, so more than one
/// address can do.
pub closed spec fn may_lie_at(data: &[u8], address: usize) -> bool {
    call_ensures(slice_address, (data,), address)
}

/// A slice never starts at the null address, and never reaches past the end of
/// the address space.
pub proof fn law_slices_lie_in_the_address_space(data: &[u8], address: usize)
    requires
        may_lie_at(data, address),
    ensures
        can_start_at(data@.len(), address),
        0 < address,
        address + data@.len() <= usize::MAX,
{
}

/// Address at which the program placed the first byte of `data`.
///
/// This and the functions that decide by it do not unwind: they look at where the
/// bytes are, and make no copy of them that would lie elsewhere.
pub(crate) fn address_of_slice(data: &[u8]) -> (address: usize)
    ensures
        may_lie_at(data, address),
    no_unwind
{
    slice_address(data)
}

/// Whether `address` lies in the internal data RAM.
pub fn is_address_in_dram(address: usize) -> (res: bool)
    ensures
        res == in_dram(address as int),
        res <==> 0x3FC0_0000 <= address < 0x4000_0000,
    no_unwind
{
    address >= DRAM_START && address < DRAM_END
}

/// Whether `data` starts in the internal data RAM.
///
/// The answer is that of [`is_address_in_dram`] for the address at which the
/// program placed `data`.
pub fn is_slice_in_dram(data: &[u8]) -> (res: bool)
    ensures
        exists|address: usize| #[trigger]
            may_lie_at(data, address) && res == in_dram(address as int) && (res
                <==> 0x3FC0_0000 <= address < 0x4000_0000),
    no_unwind
{
    let address: usize = address_of_slice(data);
    is_address_in_dram(address)
}

impl DmaOperationKind {
    /// The kind of a write of bytes that lie in the internal data RAM, or do not.
    pub fn for_placement(in_dram: bool) -> (res: Self)
        ensures
            res == kind_of(in_dram),
            res is InPlace <==> in_dram,
        no_unwind
    {
        if in_dram {
            DmaOperationKind::InPlace
        } else {
            DmaOperationKind::Copied
        }
    }

    /// The kind of a write of bytes that start at `address`.
    pub fn for_address(address: usize) -> (res: Self)
        ensures
            res == kind_at(address as int),
            res is InPlace <==> 0x3FC0_0000 <= address < 0x4000_0000,
        no_unwind
    {
        let in_dram: bool = is_address_in_dram(address);
        Self::for_placement(in_dram)
    }

    /// The kind of a write of `buffer`: that of [`Self::for_address`] for the
    /// address at which the program placed it.
    pub fn for_write(buffer: &[u8]) -> (res: Self)
        ensures
            exists|address: usize| #[trigger]
                may_lie_at(buffer, address) && res == kind_at(address as int) && (res is InPlace
                    <==> 0x3FC0_0000 <= address < 0x4000_0000),
        no_unwind
    {
        let address: usize = address_of_slice(buffer);
        Self::for_address(address)
    }
}

} // verus!
