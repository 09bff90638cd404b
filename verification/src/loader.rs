//! Decoding a program file's bytes into words.
//!
//! A program file is a sequence of fixed-width (4-byte) big-endian words. Its
//! byte length must be an exact multiple of 4, else decoding fails before any
//! machine is constructed.

use vstd::prelude::*;

verus! {

/// A load-time error: no machine is produced when one is reported.
#[derive(Clone, Copy, Debug, PartialEq, Eq, Structural)]
pub enum LoadError {
    /// The byte length of the program file is not a multiple of 4.
    MalformedLength,
    /// The program holds more words than the program region can store.
    ProgramTooLarge,
}

/// The word read big-endian from four bytes.
pub open spec fn be_word(b0: u8, b1: u8, b2: u8, b3: u8) -> i32 {
    (((b0 as u32) << 24u32) | ((b1 as u32) << 16u32) | ((b2 as u32) << 8u32) | (b3 as u32)) as i32
}

/// The word sequence encoded by a byte sequence, four bytes to a word.
pub open spec fn words_of_bytes(bytes: Seq<u8>) -> Seq<i32> {
    Seq::new((bytes.len() / 4) as nat, |i: int| be_word(
        bytes[4 * i],
        bytes[4 * i + 1],
        bytes[4 * i + 2],
        bytes[4 * i + 3],
    ))
}

/// Packs a program file's bytes into big-endian words. Fails, producing no
/// words at all, exactly when the byte length is not a multiple of 4.
pub fn cast_u8_to_i32(source: &Vec<u8>) -> (r: Result<Vec<i32>, LoadError>)
    ensures
        source@.len() % 4 == 0 ==> r is Ok && r->Ok_0@ == words_of_bytes(source@),
        source@.len() % 4 != 0 ==> r == Err::<Vec<i32>, LoadError>(LoadError::MalformedLength),
{
    if source.len() % 4 != 0 {
        return Err(LoadError::MalformedLength);
    }

    let mut ret: Vec<i32> = Vec::new();
    let mut pointer: usize = 0;

    while pointer < source.len()
        invariant
            source@.len() % 4 == 0,
            pointer % 4 == 0,
            pointer <= source@.len(),
            ret@.len() == pointer / 4,
            forall|j: int| 0 <= j < ret@.len() ==> #[trigger] ret@[j] == words_of_bytes(source@)[j],
        decreases source@.len() - pointer,
    {
        let b0 = source[pointer];
        let b1 = source[pointer + 1];
        let b2 = source[pointer + 2];
        let b3 = source[pointer + 3];
        let word: u32 = ((b0 as u32) << 24u32) | ((b1 as u32) << 16u32) | ((b2 as u32) << 8u32)
            | (b3 as u32);
        ret.push(#[verifier::truncate] (word as i32));
        pointer = pointer + 4;
    }

    proof {
        assert(ret@ =~= words_of_bytes(source@));
    }
    Ok(ret)
}

} // verus!
