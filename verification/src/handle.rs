//! The owned handle and the borrowed view of a foreign resource, and the
//! calls into the native library that they ask for.
//!
//! The functions of the native library cannot be called from here. An
//! operation that needs one returns the call as a value, a [`NativeCall`],
//! and its caller makes the call. Dropping an owned handle is therefore an
//! operation of its own, [`Handle::drop_call`].

use crate::shared::{ForeignType, ForeignTypeRef, Opaque};
use std::marker::PhantomData;
use vstd::prelude::*;

verus! {

/// A call into the native library.
#[derive(Clone, Copy, Debug, PartialEq, Eq, Structural)]
pub enum NativeCall {
    /// The destructor, on this address.
    Destroy(usize),
    /// The duplicator, on this address. It returns the address of the
    /// duplicate, which may be the same address.
    Duplicate(usize),
}

/// Declares that the foreign type `Self` has a duplicator. Handles and views
/// of other foreign types have no duplicating operation.
pub trait Duplicable {

}

/// A borrowed view of a resource of the foreign type `C`.
pub struct HandleRef<C> {
    target: Opaque,
    ctype: PhantomData<C>,
}

/// An owned handle of a resource of the foreign type `C`.
///
/// The handle is given up in one of two ways: by [`Handle::drop_call`],
/// which asks for the destructor, or by `into_ptr`, which returns the
/// address and asks for nothing.
pub struct Handle<C> {
    view: HandleRef<C>,
}

impl<C> ForeignTypeRef for HandleRef<C> {
    closed spec fn ptr(&self) -> usize {
        self.target.addr()
    }

    fn from_ptr(ptr: usize) -> (view: Self)
        ensures
            view == HandleRef::<C>::viewing(ptr),
    {
        HandleRef { target: Opaque::at(ptr), ctype: PhantomData }
    }

    fn from_ptr_mut(ptr: usize) -> (view: Self)
        ensures
            view == HandleRef::<C>::viewing(ptr),
    {
        HandleRef { target: Opaque::at(ptr), ctype: PhantomData }
    }

    fn as_ptr(&self) -> (ptr: usize) {
        self.target.address()
    }
}

impl<C> ForeignType for Handle<C> {
    type Ref = HandleRef<C>;

    closed spec fn ptr(&self) -> usize {
        self.view.ptr()
    }

    fn from_ptr(ptr: usize) -> (owned: Self)
        ensures
            owned == Handle::<C>::adopted(ptr),
    {
        Handle { view: HandleRef::from_ptr(ptr) }
    }

    fn as_ptr(&self) -> (ptr: usize) {
        self.view.as_ptr()
    }

    fn into_ptr(self) -> (ptr: usize)
        ensures
            ptr == self.released(),
    {
        let ptr = self.view.as_ptr();
        let _ = core::mem::ManuallyDrop::new(self);
        ptr
    }
}

impl<C> HandleRef<C> {
    /// The view of the resource at `ptr`.
    pub closed spec fn viewing(ptr: usize) -> HandleRef<C> {
        HandleRef { target: Opaque::placed(ptr), ctype: PhantomData }
    }
}

impl<C> Handle<C> {
    /// The handle that adopting the resource at `ptr` gives.
    pub closed spec fn adopted(ptr: usize) -> Handle<C> {
        Handle { view: HandleRef::viewing(ptr) }
    }

    /// The view that an owned handle dereferences to.
    pub closed spec fn borrowed(&self) -> HandleRef<C> {
        self.view
    }

    /// The address that the handle's owner has after releasing it.
    pub open spec fn released(&self) -> usize {
        self.ptr()
    }

    /// The calls that the end of the handle's life asks for: one, of the
    /// destructor, on the handle's address.
    pub open spec fn calls_when_dropped(&self) -> Seq<NativeCall> {
        seq![NativeCall::Destroy(self.ptr())]
    }

    /// A shared view of the resource, for as long as the handle is borrowed.
    /// It is at the handle's address.
    pub fn borrow(&self) -> (view: &HandleRef<C>)
        ensures
            *view == self.borrowed(),
            view.ptr() == self.ptr(),
    {
        &self.view
    }

    /// A view of the resource for mutation, for as long as the handle is
    /// borrowed exclusively. It is at the handle's address.
    pub fn borrow_mut(&mut self) -> (view: &HandleRef<C>)
        ensures
            *view == old(self).borrowed(),
            view.ptr() == old(self).ptr(),
            *final(self) == *old(self),
    {
        &self.view
    }

    /// Ends the handle's life: the destructor is to be called once, on the
    /// handle's address.
    pub fn drop_call(self) -> (call: NativeCall)
        ensures
            call == NativeCall::Destroy(self.ptr()),
            seq![call] == self.calls_when_dropped(),
    {
        NativeCall::Destroy(self.as_ptr())
    }
}

impl<C: Duplicable> Handle<C> {
    /// The calls that a duplication of the handle asks for: one, of the
    /// duplicator, on the handle's address.
    pub open spec fn calls_when_duplicated(&self) -> Seq<NativeCall> {
        seq![NativeCall::Duplicate(self.ptr())]
    }

    /// The first half of a duplication: the duplicator is to be called once,
    /// on the handle's address. What it returns is then adopted with
    /// `from_ptr`, and is an owned handle in its own right, whatever the
    /// address.
    pub fn clone_call(&self) -> (call: NativeCall)
        ensures
            call == NativeCall::Duplicate(self.ptr()),
            seq![call] == self.calls_when_duplicated(),
    {
        NativeCall::Duplicate(self.as_ptr())
    }
}

impl<C: Duplicable> HandleRef<C> {
    /// The calls that a duplication from this view asks for: one, of the
    /// duplicator, on the view's address.
    pub open spec fn calls_when_duplicated(&self) -> Seq<NativeCall> {
        seq![NativeCall::Duplicate(self.ptr())]
    }

    /// The first half of a duplication from a view: the duplicator is to be
    /// called once, on the view's address. What it returns is then adopted
    /// as an owned handle.
    pub fn to_owned_call(&self) -> (call: NativeCall)
        ensures
            call == NativeCall::Duplicate(self.ptr()),
            seq![call] == self.calls_when_duplicated(),
    {
        NativeCall::Duplicate(self.as_ptr())
    }
}

/// An adopted handle is at the address that was adopted.
pub proof fn adopted_handle_keeps_address<C>(ptr: usize)
    requires
        ptr != 0,
    ensures
        Handle::<C>::adopted(ptr).ptr() == ptr,
        HandleRef::<C>::viewing(ptr).ptr() == ptr,
{
    Opaque::placed_has_address(ptr);
}

/// The view that a handle is borrowed as is at the handle's address.
pub proof fn borrowed_view_keeps_address<C>(owned: Handle<C>)
    ensures
        owned.borrowed().ptr() == owned.ptr(),
{
}

/// The handle that adopts a released address owes, at the end of its life,
/// exactly the call that the released handle would have owed: the
/// destructor, once, on that address. Releasing itself returns the address
/// and nothing else, so across both lives the destructor is asked for
/// once.
pub proof fn release_then_adopt_again<C>(first: Handle<C>)
    requires
        first.ptr() != 0,
    ensures
        Handle::<C>::adopted(first.released()).ptr() == first.ptr(),
        Handle::<C>::adopted(first.released()).calls_when_dropped() == first.calls_when_dropped(),
        first.calls_when_dropped() == seq![NativeCall::Destroy(first.ptr())],
{
    adopted_handle_keeps_address::<C>(first.released());
}

/// Duplicating a handle asks for the duplicator once. The handle and its
/// duplicate, which adopts the address that the duplicator returned, then
/// each ask for the destructor once, on their own address: also where the
/// duplicator returned the address that it was given.
pub proof fn duplicate_then_drop_both<C: Duplicable>(source: Handle<C>, returned: usize)
    requires
        source.ptr() != 0,
        returned != 0,
    ensures
        source.calls_when_duplicated() + source.calls_when_dropped() + Handle::<C>::adopted(
            returned,
        ).calls_when_dropped() == seq![
            NativeCall::Duplicate(source.ptr()),
            NativeCall::Destroy(source.ptr()),
            NativeCall::Destroy(returned),
        ],
        source.borrowed().calls_when_duplicated() == source.calls_when_duplicated(),
{
    let duplicate = Handle::<C>::adopted(returned);
    adopted_handle_keeps_address::<C>(returned);
    assert(source.calls_when_duplicated() + source.calls_when_dropped()
        + duplicate.calls_when_dropped() =~= seq![
        NativeCall::Duplicate(source.ptr()),
        NativeCall::Destroy(source.ptr()),
        NativeCall::Destroy(returned),
    ]);
}

} // verus!
