//! The password of the password-protected archives.
//!
//! The password is no secret: anyone can work it out from the few lines
//! below. It keeps a curious user from opening an archive by accident, and
//! nothing more. It must stay as it is for the archives that are published
//! with it.

use vstd::prelude::*;

verus! {

/// The number of letters in the password.
pub const PASSWORD_LEN: usize = 64;

/// The letter with the given index among the 52 letters `a` to `z`, `A`
/// to `Z`, as its code.
pub open spec fn letter(index: int) -> u16 {
    if index < 26 {
        (97 + index) as u16
    } else {
        (65 + index - 26) as u16
    }
}

/// The index of the letter at position `i` of the password: two bytes are
/// worked out from `i`, each wrapping at 256, and the first is reduced by
/// the second and then by the number of letters.
pub open spec fn letter_index(i: int) -> int {
    let a = (5 + 104729 * i) % 256;
    let b = (9 + 224737 * i) % 256;
    (a % b) % 52
}

/// The password, as 64 letters of 16 bits each.
pub open spec fn password() -> Seq<u16> {
    Seq::new(PASSWORD_LEN as nat, |i: int| letter(letter_index(i)))
}

/// Works out the password of the password-protected archives.
pub fn derive_password() -> (letters: Vec<u16>)
    ensures
        letters@ == password(),
{
    let mut letters: Vec<u16> = Vec::new();
    let mut i: u32 = 0;
    while i < 64
        invariant
            i <= 64,
            letters@.len() == i,
            forall|k: int| 0 <= k < i ==> letters@[k] == letter(letter_index(k)),
        decreases 64 - i,
    {
        let a: u32 = (5 + 104729 * i) % 256;
        let b: u32 = (9 + 224737 * i) % 256;
        assert(b != 0) by (bit_vector)
            requires
                i < 64,
                b == (9 + 224737 * i) % 256,
        ;
        let index: u32 = (a % b) % 52;
        let code: u32 = if index < 26 {
            97 + index
        } else {
            65 + index - 26
        };
        letters.push(code as u16);
        i += 1;
    }
    assert(letters@ =~= password());
    letters
}

} // verus!
