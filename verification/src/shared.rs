//! What every pair of an owned handle and a borrowed view has in common.
//!
//! A foreign resource is known by its address alone. The address is an
//! integer here and is never null; what lies at it is never read.

use vstd::prelude::*;

verus! {

/// Stands for a foreign object of which only the address is known.
///
/// A type that implements [`ForeignTypeRef`] is a wrapper around this type.
pub struct Opaque {
    addr: usize,
}

impl Opaque {
    #[verifier::type_invariant]
    spec fn nonnull(self) -> bool {
        self.addr != 0
    }

    /// The address of the object.
    pub closed spec fn addr(self) -> usize {
        self.addr
    }

    /// What stands for the object at `addr`.
    pub closed spec fn placed(addr: usize) -> Opaque {
        Opaque { addr }
    }

    /// What stands for the object at `addr` has that address.
    pub proof fn placed_has_address(addr: usize)
        ensures
            Opaque::placed(addr).addr() == addr,
    {
    }

    /// Stands for the object at `addr`.
    pub fn at(addr: usize) -> (object: Opaque)
        requires
            addr != 0,
        ensures
            object == Opaque::placed(addr),
            object.addr() == addr,
    {
        Opaque { addr }
    }

    /// The address of the object, which is not null.
    pub fn address(&self) -> (addr: usize)
        ensures
            addr == self.addr(),
            addr != 0,
    {
        proof {
            use_type_invariant(self);
        }
        self.addr
    }
}

/// A wrapper that owns a foreign resource: whoever holds the value is
/// responsible for the resource's destruction.
pub trait ForeignType: Sized {
    /// The type of a borrowed view of the same resource.
    type Ref: ForeignTypeRef;

    /// The address of the resource.
    spec fn ptr(&self) -> usize;

    /// Adopts the resource at `ptr`. The caller is the resource's only owner
    /// and gives the ownership to the new value.
    fn from_ptr(ptr: usize) -> (owned: Self)
        requires
            ptr != 0,
        ensures
            owned.ptr() == ptr,
    ;

    /// The address of the resource. The ownership stays with the wrapper.
    fn as_ptr(&self) -> (ptr: usize)
        ensures
            ptr == self.ptr(),
            ptr != 0,
    ;

    /// Gives up the wrapper and returns the address. The ownership goes
    /// back to the caller, and the resource is not destroyed: the wrapper
    /// is put away without being dropped.
    fn into_ptr(self) -> (ptr: usize)
        ensures
            ptr == self.ptr(),
            ptr != 0,
    {
        let ptr = self.as_ptr();
        let _ = core::mem::ManuallyDrop::new(self);
        ptr
    }
}

/// A view of a foreign resource that some other party owns. The view never
/// destroys the resource.
pub trait ForeignTypeRef: Sized {
    /// The address of the resource.
    spec fn ptr(&self) -> usize;

    /// A shared view of the resource at `ptr`. The caller sees to it that
    /// the resource outlives the view.
    fn from_ptr(ptr: usize) -> (view: Self)
        requires
            ptr != 0,
        ensures
            view.ptr() == ptr,
    ;

    /// A view for mutation of the resource at `ptr`. The caller sees to it
    /// that the resource outlives the view.
    fn from_ptr_mut(ptr: usize) -> (view: Self)
        requires
            ptr != 0,
        ensures
            view.ptr() == ptr,
    ;

    /// The address of the resource.
    fn as_ptr(&self) -> (ptr: usize)
        ensures
            ptr == self.ptr(),
            ptr != 0,
    ;
}

} // verus!
