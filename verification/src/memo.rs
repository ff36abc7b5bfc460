//! The memo field: an opaque fixed-size byte container carried at the end
//! of a full note plaintext.

use vstd::prelude::*;

use crate::byteops::array_eq;
use crate::MEMO_SIZE;

verus! {

/// A memo: exactly `MEMO_SIZE` opaque bytes.
#[derive(Clone, Debug)]
pub struct MemoBytes(pub(crate) [u8; MEMO_SIZE]);

impl View for MemoBytes {
    type V = Seq<u8>;

    open(crate) spec fn view(&self) -> Seq<u8> {
        self.0@
    }
}

impl PartialEq for MemoBytes {
    /// Memos are equal when their bytes are.
    fn eq(&self, other: &Self) -> (r: bool) {
        array_eq(&self.0, &other.0)
    }
}

impl vstd::std_specs::cmp::PartialEqSpecImpl for MemoBytes {
    open spec fn obeys_eq_spec() -> bool {
        true
    }

    open spec fn eq_spec(&self, other: &Self) -> bool {
        self@ == other@
    }
}

impl MemoBytes {
    /// The all-zero memo.
    pub fn empty() -> (r: MemoBytes)
        ensures
            r@ == Seq::new(MEMO_SIZE as nat, |i: int| 0u8),
    {
        let bytes: [u8; MEMO_SIZE] = [0u8; MEMO_SIZE];
        proof {
            assert(bytes@ =~= Seq::new(MEMO_SIZE as nat, |i: int| 0u8));
        }
        MemoBytes(bytes)
    }

    /// Wraps up to `MEMO_SIZE` bytes, padding with zeros; `None` when the
    /// input is longer.
    pub fn from_bytes(bytes: &[u8]) -> (r: Option<MemoBytes>)
        ensures
            (match r {
                Some(m) => bytes@.len() <= MEMO_SIZE && m@.len() == MEMO_SIZE && (forall|i: int|
                    0 <= i < MEMO_SIZE ==> m@[i] == (if i < bytes@.len() {
                        bytes@[i]
                    } else {
                        0u8
                    })),
                None => bytes@.len() > MEMO_SIZE,
            }),
    {
        let n = bytes.len();
        if n > MEMO_SIZE {
            return None;
        }
        let mut out: [u8; MEMO_SIZE] = [0u8; MEMO_SIZE];
        let mut i: usize = 0;
        while i < n
            invariant
                i <= n,
                n == bytes@.len(),
                n <= MEMO_SIZE,
                out@.len() == MEMO_SIZE,
                forall|j: int| 0 <= j < i ==> out@[j] == bytes@[j],
                forall|j: int| i <= j < MEMO_SIZE ==> out@[j] == 0u8,
            decreases n - i,
        {
            out[i] = bytes[i];
            i = i + 1;
        }
        Some(MemoBytes(out))
    }

    /// The memo's bytes.
    pub fn as_array(&self) -> (r: &[u8; MEMO_SIZE])
        ensures
            r@ == self@,
    {
        &self.0
    }
}

} // verus!
