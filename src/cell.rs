use vstd::prelude::*;

verus! {

/// A handle on the value inside an [`UnsafeShared`], through which that value
/// can be read and written.
///
/// The handle holds the cell's value by a mutable borrow, so while it lives no
/// other view of the same cell can exist. When it is released, the cell holds
/// whatever the handle held last.
pub struct UnsafeRef<'a, T> {
    /// The borrow of the value; it lasts exactly as long as the handle.
    pub ptr: &'a mut T,
}

impl<'a, T> UnsafeRef<'a, T> {
    /// The value that the handle currently sees.
    pub open spec fn current(&self) -> T {
        *self.ptr
    }

    /// Wraps a mutable borrow of a value into a handle on it.
    pub fn new(ptr: &'a mut T) -> (r: Self)
        ensures
            r.current() == *old(ptr),
            *final(r.ptr) == *final(ptr),
    {
        UnsafeRef { ptr }
    }
}

impl<'a, T> std::ops::Deref for UnsafeRef<'a, T> {
    type Target = T;

    /// Reads the value that the handle refers to.
    fn deref(&self) -> (r: &T)
        ensures
            *r == self.current(),
    {
        self.ptr
    }
}

impl<'a, T> std::ops::DerefMut for UnsafeRef<'a, T> {
    /// Lends out the value that the handle refers to for writing; what is
    /// written becomes what the handle sees, and the handle still ends where
    /// it would have ended.
    fn deref_mut(&mut self) -> (r: &mut T)
        ensures
            *r == old(self).current(),
            final(self).current() == *final(r),
            *final(final(self).ptr) == *final(old(self).ptr),
    {
        &mut *self.ptr
    }
}

/// A cell that owns exactly one value and hands out views of it.
///
/// The value is dropped together with the cell.
pub struct UnsafeShared<T> {
    inner: T,
}

impl<T> UnsafeShared<T> {
    /// The value the cell holds.
    pub closed spec fn view(&self) -> T {
        self.inner
    }

    /// Makes a cell that owns `value`. Until a view is taken from it, the cell
    /// keeps holding exactly `value`.
    pub fn new(value: T) -> (r: Self)
        ensures
            r.view() == value,
    {
        UnsafeShared { inner: value }
    }

    /// A mutable view of the value: it starts at what the cell holds, and the
    /// cell holds what the view holds when the view is released.
    pub fn borrow_mut(&mut self) -> (r: &mut T)
        ensures
            *r == old(self).view(),
            final(self).view() == *final(r),
    {
        &mut self.inner
    }

    /// A shared view of the value.
    pub fn borrow(&self) -> (r: &T)
        ensures
            *r == self.view(),
    {
        &self.inner
    }

    /// A handle on the value: it starts at what the cell holds, and the cell
    /// holds what the handle holds when the handle is released.
    pub fn as_ref<'a>(&'a mut self) -> (r: UnsafeRef<'a, T>)
        ensures
            r.current() == old(self).view(),
            *final(r.ptr) == final(self).view(),
    {
        UnsafeRef::new(&mut self.inner)
    }
}

/// A value written through a handle is what the cell holds once that handle
/// is released, so a view taken from the cell after the release reads exactly
/// that value.
///
/// `h` is the handle after the write of `v` and `cell` the cell after `h` was
/// released, as [`UnsafeShared::as_ref`] relates them.
pub proof fn lemma_write_then_read<T>(v: T, h: UnsafeRef<'_, T>, cell: UnsafeShared<T>)
    requires
        h.current() == v,
        has_resolved(h),
        *final(h.ptr) == cell.view(),
    ensures
        cell.view() == v,
{
}

} // verus!
