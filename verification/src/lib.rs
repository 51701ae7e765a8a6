//! A typed trailer container: a fixed-size header value packed together with a
//! variable-length, zero-initialized byte buffer in one owned storage block.
//!
//! The container owns storage for `size_of::<T>()` header bytes followed by
//! `capacity` trailer bytes. The header region always holds a live `T`; the
//! trailer region is an opaque byte buffer that starts out all zero. The two
//! regions are disjoint: writes through [`Trailer::bytes_mut`] never change
//! the header, and writes through [`Trailer::header_mut`] never change the
//! trailer bytes. Capacity is fixed at construction; teardown finalizes the
//! header and releases the whole storage in one step when the container is
//! dropped.

use vstd::prelude::*;

verus! {

/// The mathematical model of a trailer container: the header value together
/// with the contents of the trailer region.
pub ghost struct TrailerView<T> {
    /// The value held in the header region.
    pub header: T,
    /// The bytes held in the trailer region.
    pub trailer: Seq<u8>,
}

/// The all-zero byte sequence of length `n`: what the trailer region holds
/// immediately after construction.
pub open spec fn zero_bytes(n: nat) -> Seq<u8> {
    Seq::new(n, |i: int| 0u8)
}

/// A header value of type `T` and a trailer region of `capacity` bytes in one
/// owned storage block of `size_of::<T>() + capacity` bytes.
pub struct Trailer<T> {
    header: T,
    buf: Vec<u8>,
}

impl<T> View for Trailer<T> {
    type V = TrailerView<T>;

    closed spec fn view(&self) -> TrailerView<T> {
        TrailerView { header: self.header, trailer: self.buf@ }
    }
}

/// The trailer region of a freshly built container: `capacity` zero bytes.
fn zeroed_buffer(capacity: usize) -> (v: Vec<u8>)
    ensures
        v@ == zero_bytes(capacity as nat),
{
    let mut v: Vec<u8> = Vec::new();
    while v.len() < capacity
        invariant
            v@.len() <= capacity,
            v@ == zero_bytes(v@.len()),
        decreases capacity - v@.len(),
    {
        v.push(0u8);
        proof {
            assert(v@ =~= zero_bytes(v@.len()));
        }
    }
    v
}

impl<T: Default> Trailer<T> {
    /// Build a container whose header region holds a default-constructed `T`
    /// and whose trailer region holds `capacity` zero bytes.
    pub fn new(capacity: usize) -> (t: Trailer<T>)
        requires
            vstd::layout::size_of::<T>() + capacity <= usize::MAX,
        ensures
            call_ensures(T::default, (), t@.header),
            t@.trailer == zero_bytes(capacity as nat),
            t.spec_total_size() == vstd::layout::size_of::<T>() + capacity,
            t.wf(),
    {
        Trailer { header: T::default(), buf: zeroed_buffer(capacity) }
    }
}

impl<T: Copy> Trailer<T> {
    /// Build a container whose header region holds a copy of `value` and whose
    /// trailer region holds `capacity` zero bytes.
    pub fn from(value: T, capacity: usize) -> (t: Trailer<T>)
        requires
            vstd::layout::size_of::<T>() + capacity <= usize::MAX,
        ensures
            t@.header == value,
            t@.trailer == zero_bytes(capacity as nat),
            t.spec_total_size() == vstd::layout::size_of::<T>() + capacity,
            t.wf(),
    {
        Trailer { header: value, buf: zeroed_buffer(capacity) }
    }
}

impl<T> Trailer<T> {
    /// Number of bytes in the trailer region, fixed at construction.
    pub open spec fn spec_capacity(&self) -> nat {
        self@.trailer.len()
    }

    /// Total size of the owned storage: the header region followed by the
    /// trailer region.
    pub open spec fn spec_total_size(&self) -> nat {
        vstd::layout::size_of::<T>() + self@.trailer.len()
    }

    /// The storage size fits the platform's size type.
    pub open spec fn wf(&self) -> bool {
        self.spec_total_size() <= usize::MAX
    }

    /// Read-only view of the trailer region: exactly `capacity` bytes,
    /// beginning immediately after the header region.
    pub fn bytes(&self) -> (r: &[u8])
        ensures
            r@ == self@.trailer,
    {
        self.buf.as_slice()
    }

    /// Mutable view of the trailer region. Writes through it land in the
    /// trailer region alone: the header is left exactly as it was.
    pub fn bytes_mut(&mut self) -> (r: &mut [u8])
        ensures
            r@ == old(self)@.trailer,
            final(self)@.trailer == final(r)@,
            final(self)@.header == old(self)@.header,
    {
        self.buf.as_mut_slice()
    }

    /// Read access to the header value.
    pub fn header(&self) -> (r: &T)
        ensures
            *r == self@.header,
    {
        &self.header
    }

    /// Mutable access to the header value. In-place mutation through it never
    /// touches the trailer region.
    pub fn header_mut(&mut self) -> (r: &mut T)
        ensures
            *r == old(self)@.header,
            final(self)@.header == *final(r),
            final(self)@.trailer == old(self)@.trailer,
    {
        &mut self.header
    }

    /// Number of bytes in the trailer region.
    pub fn capacity(&self) -> (n: usize)
        ensures
            n == self.spec_capacity(),
    {
        self.buf.len()
    }

    /// Total size of the owned storage: `size_of::<T>()` header bytes plus
    /// `capacity` trailer bytes.
    pub fn total_size(&self) -> (n: usize)
        requires
            self.wf(),
        ensures
            n == self.spec_total_size(),
    {
        core::mem::size_of::<T>() + self.buf.len()
    }
}

} // verus!
