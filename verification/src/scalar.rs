//! Scalar (number-like) atoms.
//!
//! The scalar atoms are `i32`, `i64`, `bool` and `URID`. Each has a fixed
//! size and is written in one piece, so all that tells one from another is
//! the URI of its type and the number of bytes of its body.
use vstd::layout::layout_of_primitives;
use vstd::prelude::*;

verus! {

/// The number that a host has mapped a URI to.
pub type URID = u32;

pub const INT_TYPE_URI: &'static str = "http://lv2plug.in/ns/ext/atom#Int";

pub const LONG_TYPE_URI: &'static str = "http://lv2plug.in/ns/ext/atom#Long";

pub const URID_TYPE_URI: &'static str = "http://lv2plug.in/ns/ext/atom#URID";

pub const BOOL_TYPE_URI: &'static str = "http://lv2plug.in/ns/ext/atom#Bool";

/// The header that stands before the body of every atom.
#[derive(Clone, Copy, Debug, PartialEq, Eq, Structural)]
pub struct AtomHeader {
    /// The number of bytes of the body.
    pub size: i32,
    /// The type of the body.
    pub atom_type: URID,
}

/// The header and what it says of the body do not go together.
#[derive(Clone, Copy, Debug, PartialEq, Eq, Structural)]
pub struct WrongBody;

/// Abstraction over scalar (number-like) atoms.
pub trait ScalarAtomBody: Sized {
    /// The URI of the atom type.
    fn get_uri() -> &'static str;
}

impl ScalarAtomBody for i32 {
    fn get_uri() -> (uri: &'static str)
        ensures
            uri == INT_TYPE_URI,
    {
        INT_TYPE_URI
    }
}

impl ScalarAtomBody for i64 {
    fn get_uri() -> (uri: &'static str)
        ensures
            uri == LONG_TYPE_URI,
    {
        LONG_TYPE_URI
    }
}

impl ScalarAtomBody for URID {
    fn get_uri() -> (uri: &'static str)
        ensures
            uri == URID_TYPE_URI,
    {
        URID_TYPE_URI
    }
}

impl ScalarAtomBody for bool {
    fn get_uri() -> (uri: &'static str)
        ensures
            uri == BOOL_TYPE_URI,
    {
        BOOL_TYPE_URI
    }
}

/// Whether `header` stands before a scalar of type `T`, of which `urid` is
/// what the host has mapped the URI to: the type is that of `T`, and the body
/// has as many bytes as a `T`.
pub open spec fn heads<T>(header: AtomHeader, urid: URID) -> bool {
    header.atom_type == urid && header.size == vstd::layout::size_of::<T>()
}

/// Tests that the body behind `header` can be read as a scalar of type `T`,
/// of which `urid` is what the host has mapped the URI to. Of `T` only the
/// size is used.
pub fn widen_ref<T>(header: &AtomHeader, urid: URID) -> (r: Result<(), WrongBody>)
    ensures
        r is Ok <==> heads::<T>(*header, urid),
{
    if header.atom_type == urid && header.size >= 0 && header.size as usize == core::mem::size_of::<
        T,
    >() {
        Ok(())
    } else {
        Err(WrongBody)
    }
}

/// The sizes of the scalars: four bytes for `i32` and `URID`, eight for
/// `i64`, one for `bool`.
pub proof fn lemma_scalar_sizes(header: AtomHeader, urid: URID)
    ensures
        heads::<i32>(header, urid) <==> header.atom_type == urid && header.size == 4,
        heads::<URID>(header, urid) <==> header.atom_type == urid && header.size == 4,
        heads::<i64>(header, urid) <==> header.atom_type == urid && header.size == 8,
        heads::<bool>(header, urid) <==> header.atom_type == urid && header.size == 1,
{
    broadcast use layout_of_primitives;

}

} // verus!
