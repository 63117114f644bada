//! Numbers written out in binary, the way a round shows them.

use vstd::arithmetic::div_mod::lemma_div_denominator;
use vstd::arithmetic::power2::{lemma2_to64, lemma_pow2_pos, lemma_pow2_unfold, pow2};
use vstd::prelude::*;
use vstd::string::*;

verus! {

/// The binary digit of `value` that weighs `2^place`.
pub open spec fn bit_at(value: nat, place: nat) -> char {
    if (value / pow2(place)) % 2 == 1 {
        '1'
    } else {
        '0'
    }
}

/// The lowest `width` binary digits of `value`, the highest of them first.
/// For a value below `2^width` this is the value in binary, padded with
/// zeros on the left to `width` digits.
pub open spec fn binary_digits(value: nat, width: nat) -> Seq<char> {
    Seq::new(width, |i: int| bit_at(value, (width - 1 - i) as nat))
}

/// `digits` in groups of four, counted from the left, with one space
/// between two groups.
pub open spec fn grouped(digits: Seq<char>) -> Seq<char>
    decreases digits.len(),
{
    if digits.len() == 0 {
        digits
    } else if digits.len() > 1 && (digits.len() - 1) % 4 == 0 {
        grouped(digits.drop_last()).push(' ').push(digits.last())
    } else {
        grouped(digits.drop_last()).push(digits.last())
    }
}

/// The lowest `width` binary digits of `value`, the highest first.
pub fn to_binary_digits(value: u32, width: u32) -> (digits: Vec<char>)
    ensures
        digits@ == binary_digits(value as nat, width as nat),
{
    let mut digits: Vec<char> = Vec::new();
    let mut filled: u32 = 0;
    while filled < width
        invariant
            filled <= width,
            digits.len() == filled,
            forall|i: int| 0 <= i < filled ==> digits[i] == '0',
        decreases width - filled,
    {
        digits.push('0');
        filled += 1;
    }
    let mut rest: u32 = value;
    let mut place: u32 = 0;
    proof {
        lemma2_to64();
    }
    while place < width
        invariant
            place <= width,
            digits.len() == width,
            rest == value as nat / pow2(place as nat),
            forall|i: int|
                width - place <= i < width ==> digits[i] == bit_at(
                    value as nat,
                    (width - 1 - i) as nat,
                ),
        decreases width - place,
    {
        let bit: char = if rest % 2 == 1 {
            '1'
        } else {
            '0'
        };
        let at: usize = (width - 1 - place) as usize;
        digits.set(at, bit);
        proof {
            lemma_pow2_pos(place as nat);
            lemma_pow2_unfold((place + 1) as nat);
            lemma_div_denominator(value as int, pow2(place as nat) as int, 2);
        }
        rest = rest / 2;
        place += 1;
    }
    assert(digits@ =~= binary_digits(value as nat, width as nat));
    digits
}

/// The characters of `digits` as a string, in groups of four with a space
/// between two groups.
pub fn group_digits(digits: &Vec<char>) -> (text: String)
    requires
        forall|i: int| 0 <= i < digits.len() ==> digits[i] == '0' || digits[i] == '1',
    ensures
        text@ == grouped(digits@),
{
    let mut text: String = String::new();
    let mut i: usize = 0;
    proof {
        reveal_strlit("0");
        reveal_strlit("1");
        reveal_strlit(" ");
        assert(digits@.take(0) =~= Seq::<char>::empty());
    }
    while i < digits.len()
        invariant
            i <= digits.len(),
            text@ == grouped(digits@.take(i as int)),
            forall|k: int| 0 <= k < digits.len() ==> digits[k] == '0' || digits[k] == '1',
            "0"@ == seq!['0'],
            "1"@ == seq!['1'],
            " "@ == seq![' '],
        decreases digits.len() - i,
    {
        proof {
            let upto = digits@.take(i + 1);
            assert(upto.drop_last() =~= digits@.take(i as int));
            assert(upto.last() == digits[i as int]);
        }
        if i > 0 && i % 4 == 0 {
            text.append(" ");
        }
        if digits[i] == '1' {
            text.append("1");
        } else {
            text.append("0");
        }
        assert(text@ =~= grouped(digits@.take(i + 1)));
        i += 1;
    }
    assert(digits@.take(digits.len() as int) =~= digits@);
    text
}

/// `value` in binary, padded with zeros to `width` digits, in groups of
/// four. Digits of `value` above the lowest `width` are left out.
pub fn to_binary_string(value: u32, width: u32) -> (text: String)
    ensures
        text@ == grouped(binary_digits(value as nat, width as nat)),
{
    let digits: Vec<char> = to_binary_digits(value, width);
    group_digits(&digits)
}

} // verus!
