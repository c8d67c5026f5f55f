//! Fixed-width on-screen-display names: zero-padded byte strings of a
//! fixed maximum width, as they sit in the adapter structures.

use vstd::prelude::*;
use vstd::string::StringSliceAdditionalSpecFns;
use vstd::string::is_ascii;

verus! {

/// The index of the first nul byte, or the length when no byte is nul:
/// how much of a zero-padded buffer is text.
pub open spec fn first_nul(s: Seq<u8>) -> int
    decreases s.len(),
{
    if s.len() == 0 {
        0
    } else if s[0] == 0u8 {
        0
    } else {
        1 + first_nul(s.drop_first())
    }
}

/// A scan that saw no nul among the first `i` bytes, and a nul (or the
/// end) at `i`, has found the first nul.
proof fn lemma_first_nul_at(s: Seq<u8>, i: int)
    requires
        0 <= i <= s.len(),
        forall|j: int| 0 <= j < i ==> s[j] != 0u8,
        i < s.len() ==> s[i] == 0u8,
    ensures
        first_nul(s) == i,
    decreases i,
{
    if i > 0 {
        lemma_first_nul_at(s.drop_first(), i - 1);
    }
}

/// A zero-padded byte string of at most `MAX` bytes: the text runs to the
/// first nul or to the full width.
#[derive(Debug, Clone, Copy)]
pub struct OSDStr<const MAX: usize> {
    pub bytes: [u8; MAX],
}

impl<const MAX: usize> OSDStr<MAX> {
    /// The empty name: all bytes nul.
    pub fn empty() -> (r: OSDStr<MAX>)
        ensures
            r.bytes@ =~= Seq::new(MAX as nat, |i: int| 0u8),
    {
        OSDStr { bytes: [0; MAX] }
    }

    /// A name holding the given bytes: anything beyond the width is cut
    /// off, anything short of it is nul-padded.
    pub fn from_slice(v: &[u8]) -> (r: OSDStr<MAX>)
        ensures
            r.bytes@.len() == MAX,
            forall|i: int|
                0 <= i < MAX ==> r.bytes@[i] == (if i < v@.len() {
                    v@[i]
                } else {
                    0u8
                }),
    {
        let mut bytes: [u8; MAX] = [0; MAX];
        let n = if v.len() < MAX {
            v.len()
        } else {
            MAX
        };
        let mut i: usize = 0;
        while i < n
            invariant
                n <= MAX,
                n <= v@.len(),
                i <= n,
                bytes@.len() == MAX,
                forall|j: int| 0 <= j < i ==> bytes@[j] == v@[j],
                forall|j: int| i <= j < MAX ==> bytes@[j] == 0u8,
                n == if v@.len() < MAX {
                    v@.len() as int
                } else {
                    MAX as int
                },
            decreases n - i,
        {
            bytes[i] = v[i];
            i = i + 1;
        }
        OSDStr { bytes }
    }

    /// A name from a string, which must be ASCII so that its bytes are
    /// its characters: anything beyond the width is cut off, anything
    /// short of it is nul-padded.
    pub fn from_str(s: &str) -> (r: Option<OSDStr<MAX>>)
        ensures
            r is Some <==> is_ascii(s),
            r matches Some(o) ==> {
                &&& o.bytes@.len() == MAX
                &&& forall|i: int|
                    0 <= i < MAX ==> o.bytes@[i] == (if i < s.spec_bytes().len() {
                        s.spec_bytes()[i]
                    } else {
                        0u8
                    })
            },
    {
        if s.is_ascii() {
            Some(Self::from_slice(s.as_bytes()))
        } else {
            None
        }
    }

    /// The text this name holds: the bytes up to the first nul.
    pub fn text(&self) -> (r: Vec<u8>)
        ensures
            r@ == self.bytes@.take(first_nul(self.bytes@)),
    {
        let mut r: Vec<u8> = Vec::new();
        let mut i: usize = 0;
        loop
            invariant
                i <= MAX,
                self.bytes@.len() == MAX,
                forall|j: int| 0 <= j < i ==> self.bytes@[j] != 0u8,
                r@ == self.bytes@.take(i as int),
            decreases MAX - i,
        {
            if i == MAX {
                proof {
                    lemma_first_nul_at(self.bytes@, i as int);
                }
                return r;
            }
            let b = self.bytes[i];
            if b == 0 {
                proof {
                    lemma_first_nul_at(self.bytes@, i as int);
                }
                return r;
            }
            r.push(b);
            proof {
                assert(r@ =~= self.bytes@.take(i + 1));
            }
            i = i + 1;
        }
    }
}

impl<const MAX: usize> Default for OSDStr<MAX> {
    /// The empty name: all bytes nul.
    fn default() -> (r: OSDStr<MAX>)
        ensures
            r.bytes@ =~= Seq::new(MAX as nat, |i: int| 0u8),
    {
        OSDStr { bytes: [0; MAX] }
    }
}

} // verus!
