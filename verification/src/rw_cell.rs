//! A value cell with a "modified since last observed" flag.
//!
//! `Rw` is the writable handle kind, `R` the read-oriented one. Both pair a
//! value with a dirty flag: writes (and `dry_modify`) raise the flag, and
//! `is_modified` reports and consumes it, so a reader can rebuild derived
//! data only when the value has changed since it last looked.
//!
//! Ownership here is exclusive and checked statically, so the borrowing
//! entry points that report a conflict at run time in a shared-cell design
//! (`try_borrow`, `try_borrow_mut`, `into_inner`) are total: their contracts
//! state that they always succeed. For the same reason the module offers no
//! second access point onto one cell — aliasing two handles over one value
//! cannot be specified here, and no component needs it: a text field owns
//! its text directly.

use vstd::prelude::*;

verus! {

/// Reported when a borrow of a cell cannot be granted. With exclusive
/// ownership this never happens; the type keeps the borrowing entry points'
/// `Result` shape.
#[derive(Clone, Copy, PartialEq, Eq, Structural, Debug)]
pub struct BorrowFault;

/// Writable handle: a value plus a consumable dirty flag.
pub struct Rw<T> {
    value: T,
    modified: bool,
}

impl<T> Rw<T> {
    /// The value currently held.
    pub closed spec fn val(&self) -> T {
        self.value
    }

    /// The dirty flag: the value was modified since last observed.
    pub closed spec fn dirty(&self) -> bool {
        self.modified
    }

    /// A fresh cell counts as modified: the initial value has not been
    /// observed yet.
    pub fn new(t: T) -> (r: Rw<T>)
        ensures
            r.val() == t,
            r.dirty(),
    {
        Rw { value: t, modified: true }
    }

    /// Raise the dirty flag without touching the value.
    pub fn dry_modify(&mut self)
        ensures
            final(self).val() == old(self).val(),
            final(self).dirty(),
    {
        self.modified = true;
    }

    /// Read access; does not touch the dirty flag.
    pub fn borrow(&self) -> (r: &T)
        ensures
            *r == self.val(),
    {
        &self.value
    }

    /// Write access; raises the dirty flag. The cell afterwards holds
    /// whatever the caller wrote through the returned reference.
    pub fn borrow_mut(&mut self) -> (r: &mut T)
        ensures
            *r == old(self).val(),
            final(self).val() == *final(r),
            final(self).dirty(),
    {
        self.modified = true;
        &mut self.value
    }

    /// Read access that reports a conflict instead of failing; with
    /// exclusive ownership it always succeeds.
    pub fn try_borrow(&self) -> (r: Result<&T, BorrowFault>)
        ensures
            r is Ok,
            r matches Ok(v) ==> *v == self.val(),
    {
        Ok(&self.value)
    }

    /// Write access that reports a conflict instead of failing; with
    /// exclusive ownership it always succeeds, and raises the dirty flag.
    pub fn try_borrow_mut(&mut self) -> (r: Result<&mut T, BorrowFault>)
        ensures
            r is Ok,
            r matches Ok(m) ==> *m == old(self).val(),
            r matches Ok(m) ==> final(self).val() == *final(m),
            final(self).dirty(),
    {
        self.modified = true;
        Ok(&mut self.value)
    }

    /// Take the value out; with exclusive ownership this always succeeds.
    pub fn into_inner(self) -> (r: Result<T, Rw<T>>)
        ensures
            r is Ok,
            r matches Ok(v) ==> v == self.val(),
    {
        Ok(self.value)
    }

    /// Report and consume the dirty flag.
    pub fn is_modified(&mut self) -> (r: bool)
        ensures
            r == old(self).dirty(),
            final(self).val() == old(self).val(),
            !final(self).dirty(),
    {
        let r = self.modified;
        self.modified = false;
        r
    }
}

/// Read-oriented handle: the same cell shape as `Rw`, handed to consumers
/// that observe the value and its dirty flag.
pub struct R<T> {
    value: T,
    modified: bool,
}

impl<T> R<T> {
    /// The value currently held.
    pub closed spec fn val(&self) -> T {
        self.value
    }

    /// The dirty flag: the value was modified since last observed.
    pub closed spec fn dirty(&self) -> bool {
        self.modified
    }

    /// A fresh cell counts as modified.
    pub fn new(t: T) -> (r: R<T>)
        ensures
            r.val() == t,
            r.dirty(),
    {
        R { value: t, modified: true }
    }

    /// Read access; does not touch the dirty flag.
    pub fn borrow(&self) -> (r: &T)
        ensures
            *r == self.val(),
    {
        &self.value
    }

    /// Write access for a sole owner; raises the dirty flag. Exclusive
    /// ownership makes this always available.
    pub fn get_mut(&mut self) -> (r: Option<&mut T>)
        ensures
            r is Some,
            r matches Some(m) ==> *m == old(self).val(),
            r matches Some(m) ==> final(self).val() == *final(m),
            final(self).dirty(),
    {
        self.modified = true;
        Some(&mut self.value)
    }

    /// Raise the dirty flag without touching the value.
    pub fn dry_modify(&mut self)
        ensures
            final(self).val() == old(self).val(),
            final(self).dirty(),
    {
        self.modified = true;
    }

    /// Read access that reports a conflict instead of failing; with
    /// exclusive ownership it always succeeds.
    pub fn try_borrow(&self) -> (r: Result<&T, BorrowFault>)
        ensures
            r is Ok,
            r matches Ok(v) ==> *v == self.val(),
    {
        Ok(&self.value)
    }

    /// Take the value out; with exclusive ownership this always succeeds.
    pub fn into_inner(self) -> (r: Result<T, R<T>>)
        ensures
            r is Ok,
            r matches Ok(v) ==> v == self.val(),
    {
        Ok(self.value)
    }

    /// Report and consume the dirty flag.
    pub fn is_modified(&mut self) -> (r: bool)
        ensures
            r == old(self).dirty(),
            final(self).val() == old(self).val(),
            !final(self).dirty(),
    {
        let r = self.modified;
        self.modified = false;
        r
    }
}

} // verus!
