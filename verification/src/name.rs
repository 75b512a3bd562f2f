//! Paths and attribute names.

use vstd::prelude::*;

verus! {

/// No byte of `bytes` is zero.
pub open spec fn zero_free(bytes: Seq<u8>) -> bool {
    forall|i: int| 0 <= i < bytes.len() ==> bytes[i] != 0
}

/// A path or an attribute name as the operating system takes it: a string of
/// bytes that ends at the first zero. A name holds the bytes before that
/// zero, so none of its bytes is zero, and the operating system reads it to
/// its end.
#[derive(Debug, Clone, Copy, PartialEq, Eq)]
pub struct Name<'a> {
    bytes: &'a [u8],
}

impl<'a> View for Name<'a> {
    type V = Seq<u8>;

    closed spec fn view(&self) -> Seq<u8> {
        self.bytes@
    }
}

impl<'a> Name<'a> {
    #[verifier::type_invariant]
    spec fn holds_no_zero(self) -> bool {
        zero_free(self.bytes@)
    }

    /// Takes `bytes` for a name if none of them is zero.
    pub fn new(bytes: &'a [u8]) -> (r: Option<Name<'a>>)
        ensures
            r is Some <==> zero_free(bytes@),
            r matches Some(name) ==> name@ == bytes@,
    {
        let mut i: usize = 0;
        while i < bytes.len()
            invariant
                i <= bytes.len(),
                forall|j: int| 0 <= j < i ==> bytes@[j] != 0,
            decreases bytes.len() - i,
        {
            if bytes[i] == 0 {
                return None;
            }
            i += 1;
        }
        Some(Name { bytes })
    }

    /// The bytes of the name.
    pub fn as_bytes(&self) -> (bytes: &'a [u8])
        ensures
            bytes@ == self@,
            zero_free(bytes@),
    {
        proof {
            use_type_invariant(self);
        }
        self.bytes
    }
}

} // verus!
