//! Fixed-size transfer buffer: a byte array of static capacity with an
//! explicit valid-data length, as handed to the radio for sends and
//! receives.

use vstd::prelude::*;
use vstd::slice::slice_subrange;

verus! {

/// A buffer of `N` bytes, of which the first `len` are valid data.
pub struct AlignedBuffer<const N: usize> {
    buffer: [u8; N],
    len: usize,
}

impl<const N: usize> AlignedBuffer<N> {
    /// The buffer's full contents, valid or not.
    pub closed spec fn contents(self) -> Seq<u8> {
        self.buffer@
    }

    /// Number of valid data bytes.
    pub closed spec fn spec_len(self) -> usize {
        self.len
    }

    /// The valid length never exceeds the capacity.
    pub closed spec fn wf(self) -> bool {
        self.len <= N
    }

    /// Creates an empty zeroed buffer.
    pub fn new() -> (r: Self)
        ensures
            r.wf(),
            r.spec_len() == 0,
            r.contents().len() == N,
            forall|i: int| 0 <= i < N ==> r.contents()[i] == 0u8,
    {
        Self { buffer: [0; N], len: 0 }
    }

    /// Sets the valid data length.
    pub fn set_len(&mut self, len: usize)
        requires
            len <= N,
        ensures
            final(self).wf(),
            final(self).spec_len() == len,
            final(self).contents() == old(self).contents(),
    {
        self.len = len;
    }

    /// Number of valid data bytes.
    pub fn len(&self) -> (r: usize)
        ensures
            r == self.spec_len(),
    {
        self.len
    }

    /// Whether the buffer holds no valid data.
    pub fn is_empty(&self) -> (r: bool)
        ensures
            r == (self.spec_len() == 0),
    {
        self.len == 0
    }

    /// Discards the valid data.
    pub fn clear(&mut self)
        ensures
            final(self).wf(),
            final(self).spec_len() == 0,
            final(self).contents() == old(self).contents(),
    {
        self.len = 0;
    }

    /// Copies as much of `data` as fits into the buffer and returns the
    /// number of bytes copied.
    pub fn copy_from_slice(&mut self, data: &[u8]) -> (r: usize)
        ensures
            final(self).wf(),
            r == if data@.len() < N {
                data@.len() as int
            } else {
                N as int
            },
            final(self).spec_len() == r,
            final(self).contents().len() == N,
            forall|i: int| 0 <= i < r ==> final(self).contents()[i] == data@[i],
            forall|i: int| r <= i < N ==> final(self).contents()[i] == old(self).contents()[i],
    {
        let copy_len = if data.len() < N {
            data.len()
        } else {
            N
        };
        let mut i: usize = 0;
        while i < copy_len
            invariant
                i <= copy_len,
                copy_len <= N,
                copy_len <= data@.len(),
                self.buffer@.len() == N,
                forall|j: int| 0 <= j < i ==> self.buffer@[j] == data@[j],
                forall|j: int| i <= j < N ==> self.buffer@[j] == old(self).buffer@[j],
                self.len == old(self).len,
            decreases copy_len - i,
        {
            self.buffer[i] = data[i];
            i = i + 1;
        }
        self.len = copy_len;
        copy_len
    }

    /// The valid data as a borrowed span.
    pub fn as_slice(&self) -> (r: &[u8])
        requires
            self.wf(),
        ensures
            r@ == self.contents().take(self.spec_len() as int),
    {
        slice_subrange(self.buffer.as_slice(), 0, self.len)
    }
}

} // verus!
