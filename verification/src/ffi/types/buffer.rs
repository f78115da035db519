//! The byte buffer: the payload of a record.

use vstd::prelude::*;
use vstd::utf8::*;
use vstd::string::*;
use vstd::slice::*;
use vstd::std_specs::convert::FromSpecImpl;
use std::sync::Arc;
use crate::ffi::types::traits::{ShallowCopy, share};
use crate::ffi::utils::strings::{REPLACEMENT, bytes_to_string_safe, lossy_text};

verus! {

/// A region of bytes with its length. The bytes may be any bytes: a buffer
/// carries its length, so nothing in it ends it.
#[derive(Debug)]
pub struct ByteBuffer {
    bytes: Arc<Vec<u8>>,
    len: usize,
}

impl View for ByteBuffer {
    type V = Seq<u8>;

    closed spec fn view(&self) -> Seq<u8> {
        self.bytes@
    }
}

impl ByteBuffer {
    #[verifier::type_invariant]
    spec fn well_formed(self) -> bool {
        self.len == self.bytes@.len()
    }

    /// The buffer that `from` makes of bytes.
    pub closed spec fn of_bytes(bytes: Vec<u8>) -> ByteBuffer {
        ByteBuffer { bytes: Arc::new(bytes), len: bytes@.len() as usize }
    }

    /// The number of bytes in the region.
    pub fn len(&self) -> (n: usize)
        ensures
            n == self@.len(),
    {
        proof {
            use_type_invariant(self);
        }
        self.len
    }

    /// The region, to read from.
    pub fn get_bytes_as_const_ptr(&self) -> (region: &[u8])
        ensures
            region@ == self@,
    {
        self.bytes.as_slice()
    }

    /// The bytes read as text. Never fails: bytes that are no valid UTF-8
    /// are read lossily.
    pub fn to_string(&self) -> (text: String)
        ensures
            text@ == lossy_text(self@),
            !valid_utf8(self@) ==> text@.contains(REPLACEMENT),
    {
        proof {
            use_type_invariant(self);
        }
        let text = bytes_to_string_safe(self.bytes.as_slice(), self.len);
        assert(self@.take(self.len as int) =~= self@);
        text
    }

    /// The bytes, in a vector of their own.
    pub fn to_byte_vec(&self) -> (bytes: Vec<u8>)
        ensures
            bytes@ == self@,
    {
        slice_to_vec(self.bytes.as_slice())
    }

    /// Lets go of the region: the buffer is empty afterwards.
    pub fn free_contents(&mut self)
        ensures
            final(self)@ == Seq::<u8>::empty(),
    {
        *self = ByteBuffer { bytes: Arc::new(Vec::new()), len: 0 };
    }
}

impl Clone for ByteBuffer {
    /// A buffer with a region of its own, which holds the same bytes.
    fn clone(&self) -> (copy: Self)
        ensures
            copy@ == self@,
    {
        let bytes = self.to_byte_vec();
        let len = bytes.len();
        ByteBuffer { bytes: Arc::new(bytes), len }
    }
}

impl ShallowCopy for ByteBuffer {
    fn shallow_copy(&self) -> (copy: Self) {
        proof {
            use_type_invariant(self);
        }
        ByteBuffer { bytes: share(&self.bytes), len: self.len }
    }
}

impl From<Vec<u8>> for ByteBuffer {
    /// The buffer of the bytes of `value`.
    fn from(value: Vec<u8>) -> (buf: Self)
        ensures
            buf@ == value@,
    {
        let len = value.len();
        ByteBuffer { bytes: Arc::new(value), len }
    }
}

impl FromSpecImpl<Vec<u8>> for ByteBuffer {
    open spec fn obeys_from_spec() -> bool {
        true
    }

    open spec fn from_spec(value: Vec<u8>) -> Self {
        ByteBuffer::of_bytes(value)
    }
}

impl From<String> for ByteBuffer {
    /// The buffer of the UTF-8 bytes of `input`.
    fn from(input: String) -> (buf: Self)
        ensures
            buf@ == encode_utf8(input@),
    {
        let bytes = slice_to_vec(input.as_str().as_bytes());
        let len = bytes.len();
        ByteBuffer { bytes: Arc::new(bytes), len }
    }
}

impl FromSpecImpl<String> for ByteBuffer {
    open spec fn obeys_from_spec() -> bool {
        false
    }

    open spec fn from_spec(input: String) -> Self {
        arbitrary()
    }
}

/// A buffer made of bytes holds those bytes, each of them, a zero like any
/// other, and is as long as they are.
pub proof fn lemma_buffer_round_trip(bytes: Vec<u8>)
    ensures
        ByteBuffer::of_bytes(bytes)@ == bytes@,
        ByteBuffer::of_bytes(bytes)@.len() == bytes@.len(),
{
}

/// Takes a buffer from its owner and releases it.
pub fn free_buf(buf: ByteBuffer) {
}

} // verus!
