//! The payload buffer that serialisation writes into: a byte region of
//! fixed capacity with a high-water mark up to which it is filled.

use vstd::prelude::*;
use crate::profile::spec_e2e_blank;

verus! {

/// Capacity of the payload region of one tunnel frame.
pub const PAYLOAD_CAPACITY: usize = 1500;

/// A byte region of fixed capacity of which a prefix is filled. A writer
/// appends behind what is filled; the view is the filled prefix.
#[derive(Debug)]
pub struct WriteBuf {
    bytes: Vec<u8>,
    filled: usize,
}

impl View for WriteBuf {
    type V = Seq<u8>;

    closed spec fn view(&self) -> Seq<u8> {
        self.bytes@.subrange(0, self.filled as int)
    }
}

impl WriteBuf {
    #[verifier::type_invariant]
    spec fn inv(self) -> bool {
        self.filled <= self.bytes@.len()
    }

    /// The number of bytes that the region can hold.
    pub closed spec fn spec_capacity(&self) -> nat {
        self.bytes@.len()
    }

    /// An empty buffer that can hold `capacity` bytes.
    pub fn new(capacity: usize) -> (r: Self)
        ensures
            r@ == Seq::<u8>::empty(),
            r.spec_capacity() == capacity,
    {
        let bytes: Vec<u8> = vec![0u8; capacity];
        let r = WriteBuf { bytes, filled: 0 };
        assert(r@ =~= Seq::<u8>::empty());
        r
    }

    /// The number of bytes that the region can hold.
    pub fn capacity(&self) -> (r: usize)
        ensures
            r == self.spec_capacity(),
    {
        self.bytes.len()
    }

    /// The number of bytes filled so far; never more than the capacity.
    pub fn filled_len(&self) -> (r: usize)
        ensures
            r == self@.len(),
            r <= self.spec_capacity(),
    {
        proof {
            use_type_invariant(self);
        }
        self.filled
    }

    /// The number of bytes that can still be appended.
    pub fn remaining(&self) -> (r: usize)
        ensures
            r == self.spec_capacity() - self@.len(),
    {
        proof {
            use_type_invariant(self);
        }
        self.bytes.len() - self.filled
    }

    /// The filled bytes.
    pub fn filled(&self) -> (r: &[u8])
        ensures
            r@ == self@,
    {
        proof {
            use_type_invariant(self);
        }
        vstd::slice::slice_subrange(self.bytes.as_slice(), 0, self.filled)
    }

    /// Appends `n` zero bytes, as room for what is written later. Fails
    /// and changes nothing where fewer than `n` bytes remain.
    pub fn advance_filled(&mut self, n: usize) -> (r: Result<(), ()>)
        ensures
            final(self).spec_capacity() == old(self).spec_capacity(),
            r is Ok <==> old(self)@.len() + n <= old(self).spec_capacity(),
            r is Ok ==> final(self)@ == old(self)@ + spec_e2e_blank(n as int),
            r is Err ==> final(self)@ == old(self)@,
    {
        proof {
            use_type_invariant(&*self);
        }
        if n > self.bytes.len() - self.filled {
            return Err(());
        }
        let ghost before = self@;
        let start: usize = self.filled;
        let mut i: usize = 0;
        while i < n
            invariant
                i <= n,
                start + n <= self.bytes@.len(),
                self.filled == start + i,
                self.bytes@.len() == old(self).bytes@.len(),
                self.bytes@.len() <= usize::MAX,
                self@ == before + spec_e2e_blank(i as int),
            decreases n - i,
        {
            let ghost prev = self@;
            self.bytes[self.filled] = 0u8;
            self.filled = self.filled + 1;
            i = i + 1;
            assert(self@ =~= prev.push(0u8));
            assert(prev.push(0u8) =~= before + spec_e2e_blank(i as int));
        }
        Ok(())
    }

    /// Appends one byte. Fails and changes nothing where the buffer is full.
    pub fn put_u8(&mut self, value: u8) -> (r: Result<(), ()>)
        ensures
            final(self).spec_capacity() == old(self).spec_capacity(),
            r is Ok <==> old(self)@.len() < old(self).spec_capacity(),
            r is Ok ==> final(self)@ == old(self)@.push(value),
            r is Err ==> final(self)@ == old(self)@,
    {
        proof {
            use_type_invariant(&*self);
        }
        if self.filled >= self.bytes.len() {
            return Err(());
        }
        self.bytes[self.filled] = value;
        self.filled = self.filled + 1;
        assert(self@ =~= old(self)@.push(value));
        Ok(())
    }

    /// Appends `data`. Fails and changes nothing where fewer bytes remain
    /// than `data` has.
    pub fn put_slice(&mut self, data: &[u8]) -> (r: Result<(), ()>)
        ensures
            final(self).spec_capacity() == old(self).spec_capacity(),
            r is Ok <==> old(self)@.len() + data@.len() <= old(self).spec_capacity(),
            r is Ok ==> final(self)@ == old(self)@ + data@,
            r is Err ==> final(self)@ == old(self)@,
    {
        proof {
            use_type_invariant(&*self);
        }
        if data.len() > self.bytes.len() - self.filled {
            return Err(());
        }
        let ghost before = self@;
        let start: usize = self.filled;
        let mut i: usize = 0;
        while i < data.len()
            invariant
                i <= data@.len(),
                start + data@.len() <= self.bytes@.len(),
                self.filled == start + i,
                self.bytes@.len() == old(self).bytes@.len(),
                self.bytes@.len() <= usize::MAX,
                self@ == before + data@.subrange(0, i as int),
            decreases data@.len() - i,
        {
            let ghost prev = self@;
            self.bytes[self.filled] = data[i];
            self.filled = self.filled + 1;
            i = i + 1;
            assert(self@ =~= prev.push(data@[i - 1]));
            assert(prev.push(data@[i - 1]) =~= before + data@.subrange(0, i as int));
        }
        assert(data@.subrange(0, data@.len() as int) =~= data@);
        Ok(())
    }

    /// Forgets what is filled behind the first `len` bytes. Changes nothing
    /// where no more than `len` bytes are filled.
    pub fn truncate(&mut self, len: usize)
        ensures
            final(self).spec_capacity() == old(self).spec_capacity(),
            final(self)@ == if len <= old(self)@.len() {
                old(self)@.subrange(0, len as int)
            } else {
                old(self)@
            },
    {
        proof {
            use_type_invariant(&*self);
        }
        if len <= self.filled {
            self.filled = len;
            assert(self@ =~= old(self)@.subrange(0, len as int));
        }
    }

    /// Overwrites the filled byte at `at`. Fails and changes nothing where
    /// `at` lies behind what is filled.
    pub fn set_byte(&mut self, at: usize, value: u8) -> (r: Result<(), ()>)
        ensures
            final(self).spec_capacity() == old(self).spec_capacity(),
            r is Ok <==> at < old(self)@.len(),
            r is Ok ==> final(self)@ == old(self)@.update(at as int, value),
            r is Err ==> final(self)@ == old(self)@,
    {
        proof {
            use_type_invariant(&*self);
        }
        if at >= self.filled {
            return Err(());
        }
        self.bytes[at] = value;
        assert(self@ =~= old(self)@.update(at as int, value));
        Ok(())
    }

    /// Inserts one byte in front of the filled byte at `at`, moving that
    /// byte and all behind it one place to the right; `at` may be the end
    /// of what is filled. Fails and changes nothing where the buffer is
    /// full or `at` lies behind the end of what is filled.
    pub fn insert_byte(&mut self, at: usize, value: u8) -> (r: Result<(), ()>)
        ensures
            final(self).spec_capacity() == old(self).spec_capacity(),
            r is Ok <==> at <= old(self)@.len() && old(self)@.len() < old(self).spec_capacity(),
            r is Ok ==> final(self)@ == old(self)@.insert(at as int, value),
            r is Err ==> final(self)@ == old(self)@,
    {
        proof {
            use_type_invariant(&*self);
        }
        if at > self.filled || self.filled >= self.bytes.len() {
            return Err(());
        }
        let ghost before = self.bytes@;
        let end: usize = self.filled;
        let mut k: usize = end;
        while k > at
            invariant
                at <= k <= end,
                end == self.filled,
                end < self.bytes@.len(),
                self.bytes@.len() == before.len(),
                forall|j: int| 0 <= j <= k ==> self.bytes@[j] == before[j],
                forall|j: int| k < j <= end ==> self.bytes@[j] == before[j - 1],
            decreases k,
        {
            let moved: u8 = self.bytes[k - 1];
            self.bytes[k] = moved;
            k = k - 1;
        }
        self.bytes[at] = value;
        self.filled = end + 1;
        assert(self@ =~= old(self)@.insert(at as int, value));
        Ok(())
    }
}

} // verus!
