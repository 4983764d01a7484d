use vstd::prelude::*;

verus! {

/// A 32-byte account identity: the owner of a record or the address of one.
#[derive(Clone, Copy, Debug)]
pub struct Key {
    pub bytes: [u8; 32],
}

impl View for Key {
    type V = Seq<u8>;

    open spec fn view(&self) -> Seq<u8> {
        self.bytes@
    }
}

impl Key {
    /// The bytes of the all-zero key.
    pub open spec fn zero_bytes() -> Seq<u8> {
        Seq::new(32, |_i: int| 0u8)
    }

    /// The all-zero key, which stands for "no key" (the native currency as
    /// a payment asset, an unset reference).
    pub fn zero() -> (r: Key)
        ensures
            r@ == Key::zero_bytes(),
    {
        let r = Key { bytes: [0u8; 32] };
        assert(r@ =~= Key::zero_bytes());
        r
    }

    pub fn new(bytes: [u8; 32]) -> (r: Key)
        ensures
            r@ == bytes@,
    {
        Key { bytes }
    }

    /// Compares two keys byte by byte.
    pub fn same(&self, other: &Key) -> (r: bool)
        ensures
            r == (self@ == other@),
    {
        let mut i: usize = 0;
        while i < 32
            invariant
                0 <= i <= 32,
                self@.len() == 32,
                other@.len() == 32,
                forall|j: int| 0 <= j < i ==> self@[j] == other@[j],
            decreases 32 - i,
        {
            if self.bytes[i] != other.bytes[i] {
                return false;
            }
            i = i + 1;
        }
        assert(self@ =~= other@);
        true
    }
}

impl PartialEq for Key {
    fn eq(&self, other: &Key) -> (r: bool) {
        self.same(other)
    }
}

impl Eq for Key {
}

impl vstd::std_specs::cmp::PartialEqSpecImpl for Key {
    open spec fn obeys_eq_spec() -> bool {
        true
    }

    open spec fn eq_spec(&self, other: &Key) -> bool {
        self@ == other@
    }
}

} // verus!
