//! The plain types of the boundary: its integers and its text.

use vstd::prelude::*;

verus! {

/// The unsigned integer in which the boundary counts and numbers things.
pub type Uint = u32;

/// The byte that ends a text on the boundary.
pub const TERMINATOR: u8 = 0;

/// Why a host value could not be given its boundary form.
#[derive(Clone, Copy, PartialEq, Eq, Structural, Debug)]
pub enum MarshalError {
    /// A text holds a terminator; the field is the place of the first one
    /// among the text's bytes.
    InteriorTerminator(usize),
    /// There are more items than a `Uint` can count; the field is their
    /// number.
    TooManyItems(usize),
}

/// No byte of `bytes` is the terminator.
pub open spec fn terminator_free(bytes: Seq<u8>) -> bool {
    forall|i: int| 0 <= i < bytes.len() ==> bytes[i] != TERMINATOR
}

/// Where the text of a region ends: at its first terminator, or at the end
/// of the region where it holds none.
pub open spec fn text_end(region: Seq<u8>) -> int
    decreases region.len(),
{
    if region.len() == 0 || region[0] == TERMINATOR {
        0
    } else {
        1 + text_end(region.drop_first())
    }
}

/// The text of a region: the bytes before its first terminator.
pub open spec fn text_of(region: Seq<u8>) -> Seq<u8> {
    region.take(text_end(region))
}

/// `text_end` lies within the region, no terminator precedes it, and a
/// terminator stands at it unless it is the end of the region.
pub proof fn lemma_text_end(region: Seq<u8>)
    ensures
        0 <= text_end(region) <= region.len(),
        forall|i: int| 0 <= i < text_end(region) ==> region[i] != TERMINATOR,
        text_end(region) < region.len() ==> region[text_end(region)] == TERMINATOR,
        terminator_free(text_of(region)),
    decreases region.len(),
{
    if region.len() == 0 || region[0] == TERMINATOR {
    } else {
        let rest = region.drop_first();
        lemma_text_end(rest);
        assert forall|i: int| 0 <= i < text_end(region) implies region[i] != TERMINATOR by {
            if i > 0 {
                assert(region[i] == rest[i - 1]);
            }
        }
        if text_end(region) < region.len() {
            assert(region[text_end(region)] == rest[text_end(rest)]);
        }
    }
}

/// A place with a terminator, or the end of the region, that no terminator
/// precedes is `text_end`.
pub proof fn lemma_text_end_is(region: Seq<u8>, at: int)
    requires
        0 <= at <= region.len(),
        forall|i: int| 0 <= i < at ==> region[i] != TERMINATOR,
        at < region.len() ==> region[at] == TERMINATOR,
    ensures
        text_end(region) == at,
{
    lemma_text_end(region);
    let end = text_end(region);
    if end < at {
        assert(region[end] != TERMINATOR);
    } else if at < end {
        assert(region[at] != TERMINATOR);
    }
}

/// A text as it crosses the boundary: the bytes that stand before the
/// terminator. The terminator itself is not stored, and no byte of the text
/// is one.
#[derive(Debug)]
pub struct CharString {
    bytes: Vec<u8>,
}

impl View for CharString {
    type V = Seq<u8>;

    closed spec fn view(&self) -> Seq<u8> {
        self.bytes@
    }
}

impl CharString {
    #[verifier::type_invariant]
    spec fn well_formed(self) -> bool {
        terminator_free(self.bytes@)
    }

    /// Reads the text that starts a region, stopping at the first
    /// terminator.
    pub fn from_region(region: &[u8]) -> (text: CharString)
        ensures
            text@ == text_of(region@),
    {
        let mut bytes: Vec<u8> = Vec::new();
        let mut i: usize = 0;
        while i < region.len() && region[i] != TERMINATOR
            invariant
                0 <= i <= region@.len(),
                bytes@ == region@.take(i as int),
                terminator_free(bytes@),
            decreases region@.len() - i,
        {
            bytes.push(region[i]);
            i += 1;
            assert(bytes@ =~= region@.take(i as int));
        }
        proof {
            assert forall|j: int| 0 <= j < i implies region@[j] != TERMINATOR by {
                assert(region@[j] == bytes@[j]);
            }
            lemma_text_end_is(region@, i as int);
        }
        CharString { bytes }
    }

    /// The bytes of the text, without a terminator.
    pub fn as_bytes(&self) -> (bytes: &[u8])
        ensures
            bytes@ == self@,
            terminator_free(bytes@),
    {
        proof {
            use_type_invariant(self);
        }
        self.bytes.as_slice()
    }

    /// The number of bytes before the terminator.
    pub fn len(&self) -> (n: usize)
        ensures
            n == self@.len(),
    {
        self.bytes.len()
    }
}

impl Clone for CharString {
    /// A text of its own with the same bytes.
    fn clone(&self) -> (copy: Self)
        ensures
            copy@ == self@,
    {
        proof {
            use_type_invariant(self);
        }
        CharString { bytes: self.bytes.clone() }
    }
}

} // verus!
