//! The 512-bit integer vector type and the 8-lane writemask type.

use vstd::prelude::*;

verus! {

/// A 512-bit vector of packed integers, viewed as its 64 bytes.
///
/// The view `v@` is the little-endian byte image of the vector; the lane
/// views in [`crate::lanes`] read the packed 8-, 16-, 32- and 64-bit
/// integers out of it.
#[derive(Debug)]
pub struct __m512i {
    bytes: Vec<u8>,
}

/// An 8-bit writemask: bit `i` governs the 64-bit lane at index `i`.
#[derive(Debug, Clone, Copy)]
pub struct __mmask8(pub u8);

impl __m512i {
    /// Always 64 bytes long.
    #[verifier::type_invariant]
    spec fn well_formed(self) -> bool {
        self.bytes@.len() == 64
    }

    /// The bytes of the vector, lowest lane first.
    pub fn to_bytes(&self) -> (r: Vec<u8>)
        ensures
            r@ == self@,
    {
        proof {
            use_type_invariant(self);
        }
        let mut out: Vec<u8> = Vec::new();
        let mut i: usize = 0;
        while i < 64
            invariant
                self@.len() == 64,
                i <= 64,
                out@.len() == i,
                forall|j: int| 0 <= j < i ==> out@[j] == self@[j],
            decreases 64 - i,
        {
            out.push(self.bytes[i]);
            i += 1;
        }
        proof {
            assert(out@ =~= self@);
        }
        out
    }
}

impl View for __m512i {
    type V = Seq<u8>;

    closed spec fn view(&self) -> Seq<u8> {
        self.bytes@
    }
}

impl PartialEq for __m512i {
    fn eq(&self, other: &Self) -> (r: bool) {
        proof {
            use_type_invariant(self);
            use_type_invariant(other);
        }
        let mut i: usize = 0;
        while i < 64
            invariant
                self@.len() == 64,
                other@.len() == 64,
                i <= 64,
                forall|j: int| 0 <= j < i ==> self@[j] == other@[j],
            decreases 64 - i,
        {
            if self.bytes[i] != other.bytes[i] {
                return false;
            }
            i += 1;
        }
        proof {
            assert(self@ =~= other@);
        }
        true
    }
}

impl vstd::std_specs::cmp::PartialEqSpecImpl for __m512i {
    open spec fn obeys_eq_spec() -> bool {
        true
    }

    open spec fn eq_spec(&self, other: &Self) -> bool {
        self@ == other@
    }
}

/// Wraps 64 bytes as a vector.
pub(crate) fn from_bytes(bytes: Vec<u8>) -> (r: __m512i)
    requires
        bytes@.len() == 64,
    ensures
        r@ == bytes@,
{
    __m512i { bytes }
}

/// Borrows the bytes of a vector.
pub(crate) fn bytes_of(v: &__m512i) -> (r: &Vec<u8>)
    ensures
        r@ == v@,
        r@.len() == 64,
{
    proof {
        use_type_invariant(v);
    }
    &v.bytes
}

} // verus!
