//! Turning an input image into decoded instructions: splitting a byte
//! buffer into little-endian words, locating the code region behind the
//! header, and decoding a batch of words in order.

use vstd::prelude::*;
use vstd::slice::{slice_subrange, slice_to_vec};

use crate::dsi::{header_of, le32_at, HeaderNDS, HEADER_LEN};
use crate::errors::{DisasemblerError, ParseError};
use crate::instruction::{arm_decode, ArmInstruction};

verus! {

/// The little-endian 32-bit words of a byte buffer, in order.
pub open spec fn words_of(b: Seq<u8>) -> Seq<u32> {
    Seq::new(b.len() / 4, |i: int| le32_at(b, 4 * i))
}

/// Whether every word of a batch decodes.
pub open spec fn all_decode(words: Seq<u32>) -> bool {
    forall|i: int| 0 <= i < words.len() ==> (#[trigger] arm_decode(words[i])) is Ok
}

/// The decode of every word of a batch, in order.
pub open spec fn decoded(words: Seq<u32>) -> Seq<ArmInstruction> {
    Seq::new(words.len(), |i: int| arm_decode(words[i])->Ok_0)
}

/// A batch decode respects order and splits: decoding the concatenation
/// of two batches that both decode equals the two decodes, concatenated.
/// A batch may therefore be decoded in independent parts (even
/// concurrently) and reassembled in address order, with the same result
/// as one sequential pass.
pub proof fn lemma_batch_split(a: Seq<u32>, b: Seq<u32>)
    requires
        all_decode(a),
        all_decode(b),
    ensures
        all_decode(a + b),
        decoded(a + b) == decoded(a) + decoded(b),
{
    assert forall|i: int| 0 <= i < (a + b).len() implies (#[trigger] arm_decode(
        (a + b)[i],
    )) is Ok by {
        if i < a.len() {
            assert((a + b)[i] == a[i]);
        } else {
            assert((a + b)[i] == b[i - a.len()]);
        }
    }
    assert(decoded(a + b) =~= decoded(a) + decoded(b)) by {
        assert forall|i: int| 0 <= i < (a + b).len() implies decoded(a + b)[i] == (decoded(a)
            + decoded(b))[i] by {
            if i < a.len() {
                assert((a + b)[i] == a[i]);
            } else {
                assert((a + b)[i] == b[i - a.len()]);
            }
        }
    }
}

/// The raw material of one disassembly: the code region as words, the
/// bytes behind the header region, and the header when one was present.
#[derive(Debug, PartialEq, Eq)]
pub struct Parser {
    pub iter_arm_9: Vec<u32>,
    pub rest: Vec<u8>,
    pub using_little_endian: bool,
    pub header: Option<HeaderNDS>,
}

impl Parser {
    /// Splits a byte buffer into little-endian words; a buffer whose
    /// length is no multiple of the word size is rejected, carrying the
    /// number of left-over bytes.
    pub fn from_bin(code: &[u8]) -> (r: Result<Vec<u32>, DisasemblerError>)
        ensures
            code@.len() % 4 == 0 ==> (r matches Ok(v) && v@ == words_of(code@)),
            code@.len() % 4 != 0 ==> r == Err::<Vec<u32>, DisasemblerError>(
                DisasemblerError::UnaligedFile((code@.len() % 4) as usize),
            ),
    {
        let n: usize = code.len();
        if n % 4 != 0 {
            return Err(DisasemblerError::UnaligedFile(n % 4));
        }
        let count: usize = n / 4;
        let mut words: Vec<u32> = Vec::new();
        let mut i: usize = 0;
        while i < count
            invariant
                i <= count,
                count == n / 4,
                n % 4 == 0,
                n == code@.len(),
                words@.len() == i,
                forall|j: int| 0 <= j < i ==> words@[j] == le32_at(code@, 4 * j),
            decreases count - i,
        {
            assert(4 * (i + 1) <= n);
            let w: u32 = crate::dsi::read_le32(code, 4 * i);
            words.push(w);
            i += 1;
        }
        proof {
            assert(words@ =~= words_of(code@));
        }
        Ok(words)
    }

    /// Builds a parser from a whole image: an image long enough for the
    /// header is read through it, taking the code region the header
    /// points at (rejecting one that points outside the image or inside
    /// the header region); a shorter image is taken as bare code.
    pub fn from_image(file: &[u8]) -> (r: Result<Parser, DisasemblerError>)
        ensures
            r matches Ok(p) ==> p.using_little_endian,
            file@.len() >= HEADER_LEN ==> match r {
                Ok(p) => {
                    let h = header_of(file@);
                    &&& p.header == Some(h)
                    &&& h.arm9_offset >= HEADER_LEN
                    &&& h.arm9_offset + h.arm9_size <= file@.len()
                    &&& h.arm9_size % 4 == 0
                    &&& p.iter_arm_9@ == words_of(
                        file@.subrange(
                            h.arm9_offset as int,
                            h.arm9_offset + h.arm9_size,
                        ),
                    )
                    &&& p.rest@ == file@.subrange(HEADER_LEN as int, file@.len() as int)
                },
                Err(e) => {
                    let h = header_of(file@);
                    ||| (h.arm9_offset < HEADER_LEN || h.arm9_offset + h.arm9_size > file@.len())
                        && e == DisasemblerError::FileToShort
                    ||| h.arm9_size % 4 != 0 && e == DisasemblerError::UnaligedFile(
                        (h.arm9_size % 4) as usize,
                    )
                },
            },
            file@.len() < HEADER_LEN ==> match r {
                Ok(p) => {
                    &&& p.header is None
                    &&& file@.len() % 4 == 0
                    &&& p.iter_arm_9@ == words_of(file@)
                    &&& p.rest@.len() == 0
                },
                Err(e) => file@.len() % 4 != 0 && e == DisasemblerError::UnaligedFile(
                    (file@.len() % 4) as usize,
                ),
            },
    {
        if file.len() >= HEADER_LEN {
            let header = match HeaderNDS::from_bytes(file) {
                Ok(h) => h,
                Err(e) => {
                    return Err(e);
                },
            };
            let offset: usize = header.arm9_offset as usize;
            let size: usize = header.arm9_size as usize;
            if offset < HEADER_LEN || size > file.len() || offset > file.len() - size {
                return Err(DisasemblerError::FileToShort);
            }
            let region: &[u8] = slice_subrange(file, offset, offset + size);
            let words = match Self::from_bin(region) {
                Ok(w) => w,
                Err(e) => {
                    return Err(e);
                },
            };
            Ok(
                Parser {
                    iter_arm_9: words,
                    rest: slice_to_vec(slice_subrange(file, HEADER_LEN, file.len())),
                    using_little_endian: true,
                    header: Some(header),
                },
            )
        } else {
            let words = match Self::from_bin(file) {
                Ok(w) => w,
                Err(e) => {
                    return Err(e);
                },
            };
            Ok(
                Parser {
                    iter_arm_9: words,
                    rest: Vec::new(),
                    using_little_endian: true,
                    header: None,
                },
            )
        }
    }

    /// Decodes the words of the code region in address order.  Every word
    /// decoding gives the decodes in order; a word failing gives the
    /// first failure, leaving later words untouched.
    pub fn parse(self) -> (r: Result<Vec<ArmInstruction>, ParseError>)
        ensures
            match r {
                Ok(v) => all_decode(self.iter_arm_9@) && v@ == decoded(self.iter_arm_9@),
                Err(e) => exists|i: int|
                    0 <= i < self.iter_arm_9@.len() && #[trigger] arm_decode(self.iter_arm_9@[i])
                        == Err::<ArmInstruction, ParseError>(e) && (forall|j: int|
                        0 <= j < i ==> (#[trigger] arm_decode(self.iter_arm_9@[j])) is Ok),
            },
    {
        let ghost ws = self.iter_arm_9@;
        let n: usize = self.iter_arm_9.len();
        let mut out: Vec<ArmInstruction> = Vec::new();
        let mut i: usize = 0;
        while i < n
            invariant
                i <= n,
                n == ws.len(),
                ws == self.iter_arm_9@,
                out@.len() == i,
                forall|j: int|
                    0 <= j < i ==> (#[trigger] arm_decode(ws[j])) == Ok::<
                        ArmInstruction,
                        ParseError,
                    >(out@[j]),
            decreases n - i,
        {
            match ArmInstruction::decode(self.iter_arm_9[i]) {
                Ok(inst) => {
                    out.push(inst);
                },
                Err(e) => {
                    proof {
                        let wi = i as int;
                        assert(arm_decode(ws[wi]) == Err::<ArmInstruction, ParseError>(e));
                        assert(forall|j: int|
                            0 <= j < wi ==> (#[trigger] arm_decode(ws[j])) is Ok);
                    }
                    return Err(e);
                },
            }
            i += 1;
        }
        proof {
            assert(out@ =~= decoded(ws));
        }
        Ok(out)
    }
}

} // verus!
