//! Trusted access to one memory cell of the display grid.
//!
//! The grid stands for storage an external observer (the display hardware)
//! reads while the program writes, so every access must happen exactly as
//! requested: never elided and never reordered against other accesses to the
//! same cell. The `volatile` crate guarantees that; this module gives its
//! wrapper type a contract.
//! What a cell currently holds is named by [`cell_value`], and the three
//! accessors below relate every read and write to that name.

use vstd::prelude::*;

use volatile::Volatile;

verus! {

#[verifier::external_type_specification]
#[verifier::external_body]
#[verifier::reject_recursive_types(T)]
pub struct ExVolatile<T: Copy>(Volatile<T>);

/// The value currently stored in a volatile grid cell.
pub uninterp spec fn cell_value(v: Volatile<u16>) -> u16;

/// Relies on volatile::Volatile::new: the fresh cell wraps exactly the given
/// value. Never panics.
#[verifier::external_body]
pub(crate) fn cell_new(value: u16) -> (v: Volatile<u16>)
    ensures
        cell_value(v) == value,
{
    Volatile::new(value)
}

/// Relies on volatile::Volatile::read: a volatile load that returns a copy of
/// the stored value and is never optimized away. Never panics.
#[verifier::external_body]
pub(crate) fn cell_read(v: &Volatile<u16>) -> (value: u16)
    ensures
        value == cell_value(*v),
{
    v.read()
}

/// Relies on volatile::Volatile::write: a volatile store of the given value
/// that is never optimized away. Never panics.
#[verifier::external_body]
pub(crate) fn cell_write(v: &mut Volatile<u16>, value: u16)
    ensures
        cell_value(*final(v)) == value,
{
    v.write(value)
}

} // verus!
