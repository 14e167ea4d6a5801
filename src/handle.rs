//! The ownership token for a module opened through the native loader.
use vstd::prelude::*;

verus! {

/// Exclusive ownership of one native loader handle, or of none.
///
/// The wrapped value is either the null address or what one native open call
/// returned and no close call has consumed yet. The type is neither `Copy`
/// nor `Clone`: it moves, so two live handles never wrap the same value, and
/// releasing it through `dlclose` leaves nothing behind to use again.
#[derive(Debug)]
pub struct FileHandle {
    raw: usize,
}

impl FileHandle {
    /// The native value that this handle wraps, as an address; 0 is null.
    pub closed spec fn native(&self) -> usize {
        self.raw
    }

    /// A handle is valid when it wraps a non-null native value.
    pub open spec fn valid(&self) -> bool {
        self.native() != 0
    }

    /// The placeholder handle, which wraps the null value.
    pub closed spec fn placeholder() -> FileHandle {
        FileHandle { raw: 0 }
    }

    /// Wraps what the native open call returned.
    pub(crate) fn from_native(raw: usize) -> (r: FileHandle)
        ensures
            r.native() == raw,
    {
        FileHandle { raw }
    }

    /// The wrapped native value, for the requests that hand it on.
    pub(crate) fn native_value(&self) -> (r: usize)
        ensures
            r == self.native(),
    {
        self.raw
    }

    /// A handle that does not stand for any opened module, for use where a
    /// value is needed before a real one exists. No native call is made.
    pub fn invalid() -> (r: FileHandle)
        ensures
            r == FileHandle::placeholder(),
            r.native() == 0,
    {
        FileHandle { raw: 0 }
    }

    pub fn is_valid(&self) -> (r: bool)
        ensures
            r == self.valid(),
    {
        self.raw != 0
    }
}

/// The placeholder handle is never valid.
pub proof fn placeholder_is_not_valid()
    ensures
        !FileHandle::placeholder().valid(),
        FileHandle::placeholder().native() == 0,
{
}

/// The placeholder is one fixed value: any two handles that wrap the null
/// value are the same handle, so building it again changes nothing.
pub proof fn null_handles_are_the_placeholder(a: FileHandle, b: FileHandle)
    requires
        a.native() == 0,
        b.native() == 0,
    ensures
        a == b,
        a == FileHandle::placeholder(),
{
}

} // verus!
