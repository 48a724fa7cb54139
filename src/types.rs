use vstd::prelude::*;

use core::marker::PhantomData;
use vstd::std_specs::cmp::PartialEqSpec;

verus! {

/// The part of `slice` before the first element equal to `last`, not
/// including it; empty when no element is equal to `last`.
pub fn terminated_slice<'a, T: PartialEq>(slice: &'a [T], last: T) -> (r: &'a [T])
    requires
        T::obeys_eq_spec(),
    ensures
        forall|j: int| 0 <= j < r@.len() ==> !(#[trigger] slice@[j]).eq_spec(&last),
        r@.len() <= slice@.len(),
        r@ == slice@.take(r@.len() as int),
        (exists|j: int| 0 <= j < slice@.len() && (#[trigger] slice@[j]).eq_spec(&last))
            ==> r@.len() < slice@.len() && slice@[r@.len() as int].eq_spec(&last),
        !(exists|j: int| 0 <= j < slice@.len() && (#[trigger] slice@[j]).eq_spec(&last)) ==> r@.len() == 0,
{
    let mut i: usize = 0;
    while i < slice.len()
        invariant
            T::obeys_eq_spec(),
            i <= slice@.len(),
            forall|j: int| 0 <= j < i ==> !(#[trigger] slice@[j]).eq_spec(&last),
        decreases slice@.len() - i,
    {
        if slice[i] == last {
            let r = &slice[0..i];
            assert(r@ =~= slice@.take(i as int));
            return r;
        }
        i += 1;
    }
    let r = &slice[0..0];
    assert(r@ =~= slice@.take(0));
    r
}

/// Typed address in some address space. The library computes with it;
/// reading and writing through it is left to the caller.
pub struct Ptr<T> {
    addr: usize,
    _ph: PhantomData<T>,
}

impl<T> Clone for Ptr<T> {
    fn clone(&self) -> (r: Self)
        ensures
            r@ == self@,
    {
        Ptr { addr: self.addr, _ph: PhantomData }
    }
}

impl<T> Copy for Ptr<T> {

}

/// Addition of a signed offset to an address, modulo the size of the address space.
pub open spec fn wrap_offset(a: usize, o: isize) -> usize {
    if a + o > usize::MAX {
        (a + o - (usize::MAX + 1)) as usize
    } else if a + o < 0 {
        (a + o + (usize::MAX + 1)) as usize
    } else {
        (a + o) as usize
    }
}

impl<T> View for Ptr<T> {
    type V = usize;

    closed spec fn view(&self) -> usize {
        self.addr
    }
}

impl<T> Ptr<T> {
    /// A pointer to `addr`.
    pub fn new(addr: usize) -> (r: Self)
        ensures
            r@ == addr,
    {
        Ptr { addr, _ph: PhantomData }
    }

    /// The address the pointer points to.
    pub fn address(&self) -> (r: usize)
        ensures
            r == self@,
    {
        self.addr
    }

    /// Whether the address is 0.
    pub fn is_null(&self) -> (r: bool)
        ensures
            r == (self@ == 0),
    {
        self.addr == 0
    }

    /// The same address, typed as a pointer to `U`.
    pub fn cast<U>(self) -> (r: Ptr<U>)
        ensures
            r@ == self@,
    {
        Ptr { addr: self.addr, _ph: PhantomData }
    }

    /// Moves the pointer one byte up.
    pub fn inc(&mut self)
        requires
            old(self)@ < usize::MAX,
        ensures
            final(self)@ == old(self)@ + 1,
    {
        self.addr = self.addr + 1;
    }

    /// Moves the pointer `offset` bytes up.
    pub fn inc_by(&mut self, offset: usize)
        requires
            old(self)@ + offset <= usize::MAX,
        ensures
            final(self)@ == old(self)@ + offset,
    {
        self.addr = self.addr + offset;
    }

    /// Moves the pointer one byte down.
    pub fn dec(&mut self)
        requires
            old(self)@ > 0,
        ensures
            final(self)@ == old(self)@ - 1,
    {
        self.addr = self.addr - 1;
    }

    /// Moves the pointer `offset` bytes down.
    pub fn dec_by(&mut self, offset: usize)
        requires
            old(self)@ >= offset,
        ensures
            final(self)@ == old(self)@ - offset,
    {
        self.addr = self.addr - offset;
    }

    /// Moves the pointer by a signed number of bytes, wrapping around the
    /// address space.
    pub fn offset(&mut self, offset: isize)
        ensures
            final(self)@ == wrap_offset(old(self)@, offset),
    {
        self.addr = self.addr.wrapping_add_signed(offset);
    }

    /// Distance in bytes from this pointer up to `other`.
    pub fn offset_from(&self, other: Ptr<T>) -> (r: isize)
        requires
            self@ <= other@,
        ensures
            r == (other@ - self@) as isize,
    {
        (other.addr - self.addr) as isize
    }
}

/// Address of a zero-terminated ASCII string; never 0.
#[derive(Debug, Clone)]
pub struct StrPtr(usize);

impl View for StrPtr {
    type V = usize;

    closed spec fn view(&self) -> usize {
        self.0
    }
}

impl StrPtr {
    /// A string pointer to `p`, or `None` when `p` is 0.
    pub fn new(p: usize) -> (r: Option<Self>)
        ensures
            r is Some <==> p != 0,
            r is Some ==> r->0@ == p,
    {
        if p == 0 {
            None
        } else {
            Some(StrPtr(p))
        }
    }

    /// Address of the string.
    pub fn as_ptr(&self) -> (r: usize)
        ensures
            r == self@,
    {
        self.0
    }

    /// Address of the string, for writing.
    pub fn as_mut_ptr(&mut self) -> (r: usize)
        ensures
            r == old(self)@,
            final(self)@ == old(self)@,
    {
        self.0
    }
}

/// Address of a zero-terminated UTF-16 string; never 0.
#[derive(Debug, Clone)]
pub struct WidePtr(usize);

impl View for WidePtr {
    type V = usize;

    closed spec fn view(&self) -> usize {
        self.0
    }
}

impl WidePtr {
    /// A wide string pointer to `p`, or `None` when `p` is 0.
    pub fn new(p: usize) -> (r: Option<Self>)
        ensures
            r is Some <==> p != 0,
            r is Some ==> r->0@ == p,
    {
        if p == 0 {
            None
        } else {
            Some(WidePtr(p))
        }
    }

    /// Address of the string.
    pub fn as_ptr(&self) -> (r: usize)
        ensures
            r == self@,
    {
        self.0
    }

    /// Address of the string, for writing.
    pub fn as_mut_ptr(&mut self) -> (r: usize)
        ensures
            r == old(self)@,
            final(self)@ == old(self)@,
    {
        self.0
    }
}

} // verus!
