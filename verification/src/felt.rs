use vstd::prelude::*;
use vstd::string::StringExecFns;
use crate::hex::{be_val, hex_digits, hex_of_bytes, hex_str_of, lemma_be_val_zero_prefix,
    lemma_hex_of_bytes_is_digits};

verus! {

/// A scalar field element held in its canonical 32-byte big-endian form. All
/// addresses and numeric event fields are carried in this type; its integer
/// value is `be_val(self@)`.
pub struct Felt252 {
    pub bytes: Vec<u8>,
}

/// The canonical 32-byte form of a byte sequence of at most 32 bytes: the
/// bytes, left-padded with zeros.
pub open spec fn pad32(s: Seq<u8>) -> Seq<u8>
    recommends
        s.len() <= 32,
{
    Seq::new(32, |i: int| if i < 32 - s.len() { 0u8 } else { s[i - (32 - s.len())] })
}

impl View for Felt252 {
    type V = Seq<u8>;

    open spec fn view(&self) -> Seq<u8> {
        self.bytes@
    }
}

impl Felt252 {
    pub open spec fn wf(&self) -> bool {
        self@.len() == 32
    }

    /// The integer value of this scalar.
    pub open spec fn val(&self) -> nat {
        be_val(self@)
    }

    /// Big-endian parse of a byte array of at most the field width: the bytes
    /// are left-padded with zeros to the canonical 32-byte form, which leaves
    /// the denoted integer value unchanged.
    pub fn from_bytes_be(s: &Vec<u8>) -> (r: Felt252)
        requires
            s@.len() <= 32,
        ensures
            r.wf(),
            r@ == pad32(s@),
            r.val() == be_val(s@),
    {
        let pad: usize = 32 - s.len();
        let mut bytes: Vec<u8> = Vec::new();
        let mut i: usize = 0;
        while i < pad
            invariant
                i <= pad,
                pad == 32 - s@.len(),
                bytes@.len() == i,
                forall|j: int| 0 <= j < i ==> bytes@[j] == 0u8,
            decreases pad - i,
        {
            bytes.push(0u8);
            i += 1;
        }
        let mut k: usize = 0;
        while k < s.len()
            invariant
                k <= s@.len(),
                s@.len() <= 32,
                pad == 32 - s@.len(),
                bytes@.len() == pad + k,
                forall|j: int| 0 <= j < pad ==> bytes@[j] == 0u8,
                forall|j: int| 0 <= j < k ==> bytes@[pad + j] == s@[j],
            decreases s@.len() - k,
        {
            bytes.push(s[k]);
            k += 1;
        }
        proof {
            assert(bytes@ =~= pad32(s@));
            let zeros = bytes@.take(pad as int);
            assert(bytes@ =~= zeros + s@);
            lemma_be_val_zero_prefix(zeros, s@);
        }
        Felt252 { bytes }
    }

    /// A copy of this scalar holding the same bytes.
    pub fn clone_felt(&self) -> (r: Felt252)
        ensures
            r@ == self@,
    {
        let bytes = self.bytes.clone();
        proof {
            assert(bytes@ =~= self.bytes@);
        }
        Felt252 { bytes }
    }

    /// Whether two scalars hold the same canonical bytes.
    pub fn felt_eq(&self, other: &Felt252) -> (r: bool)
        ensures
            r == (self@ == other@),
    {
        if self.bytes.len() != other.bytes.len() {
            return false;
        }
        let n = self.bytes.len();
        let mut i: usize = 0;
        while i < n
            invariant
                i <= n,
                n == self@.len(),
                n == other@.len(),
                forall|j: int| 0 <= j < i ==> self@[j] == other@[j],
            decreases n - i,
        {
            if self.bytes[i] != other.bytes[i] {
                return false;
            }
            i += 1;
        }
        proof {
            assert(self@ =~= other@);
        }
        true
    }

    /// The zero-padded 64-hex-digit lowercase rendering of this scalar,
    /// prefixed with `0x`: exactly the base-16 digit string of its value in a
    /// 256-bit fixed width.
    pub fn to_fixed_hex(&self) -> (r: String)
        requires
            self.wf(),
        ensures
            r@ == seq!['0', 'x'] + hex_of_bytes(self@),
            r@ == seq!['0', 'x'] + hex_digits(self.val(), 64),
            r@.len() == 66,
    {
        let mut s = String::from_str("0x");
        proof {
            reveal_strlit("0x");
            assert(s@ =~= seq!['0', 'x'] + hex_of_bytes(self@.take(0)));
        }
        let mut i: usize = 0;
        while i < 32
            invariant
                i <= 32,
                self.wf(),
                s@ == seq!['0', 'x'] + hex_of_bytes(self@.take(i as int)),
            decreases 32 - i,
        {
            let b = self.bytes[i];
            let hi = b / 16;
            let lo = b % 16;
            s.append(hex_str_of(hi));
            s.append(hex_str_of(lo));
            proof {
                assert(self@.take(i + 1).drop_last() =~= self@.take(i as int));
                assert(self@.take(i + 1).last() == self@[i as int]);
                assert(s@ =~= seq!['0', 'x'] + hex_of_bytes(self@.take(i + 1)));
            }
            i += 1;
        }
        proof {
            assert(self@.take(32) =~= self@);
            lemma_hex_of_bytes_is_digits(self@);
            crate::hex::lemma_hex_of_bytes_len(self@);
        }
        s
    }
}

} // verus!
