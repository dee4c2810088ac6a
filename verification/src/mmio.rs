//! Volatile access to the device's register cells.
//!
//! The UART exposes eight byte-wide cells. Stores and loads go through the
//! `volatile` crate so that the compiler keeps every one of them. What this
//! module states of that crate is taken on trust.

use vstd::prelude::*;
use volatile::Volatile;

verus! {

/// `volatile::Volatile`: a cell whose loads and stores the compiler keeps.
/// The verifier sees nothing inside it.
#[verifier::external_type_specification]
#[verifier::external_body]
#[verifier::reject_recursive_types(T)]
pub struct ExVolatile<T: Copy>(Volatile<T>);

/// Number of cells in a register block.
pub const REG_COUNT: usize = 8;

/// The cells of one UART, in the order of their offsets.
pub type RegisterBlock = [Volatile<u8>; REG_COUNT];

/// The byte that the most recent store left in a cell. A device may answer a
/// load with something else, so this speaks of stores only.
pub uninterp spec fn stored(cell: Volatile<u8>) -> u8;

/// The stored bytes of a run of cells, in order.
pub open spec fn stored_bytes(cells: Seq<Volatile<u8>>) -> Seq<u8> {
    Seq::new(cells.len(), |i: int| stored(cells[i]))
}

/// `Volatile::write`: a volatile store of `value` into the cell. Trusted: the
/// cell then holds `value` as its stored byte.
#[verifier::external_body]
pub(crate) fn store(cell: &mut Volatile<u8>, value: u8)
    ensures
        stored(*final(cell)) == value,
{
    cell.write(value)
}

/// `Volatile::read`: a volatile load from the cell. Trusted: nothing is
/// claimed of the byte that comes back, since the device behind the cell
/// decides it.
#[verifier::external_body]
pub(crate) fn load(cell: &Volatile<u8>) -> (value: u8) {
    cell.read()
}

} // verus!
