//! Plain text handling for request bodies: characters, fields separated by
//! commas, and unsigned numbers.

use vstd::prelude::*;

verus! {

/// The characters of `text`, in order.
pub fn chars_of(text: &str) -> (chars: Vec<char>)
    ensures
        chars@ == text@,
{
    let mut chars: Vec<char> = Vec::new();
    for c in it: text.chars()
        invariant
            it.seq() == text@,
            chars@ == text@.take(it.index() as int),
    {
        chars.push(c);
        proof {
            assert(text@.take(it.index() + 1) == text@.take(it.index() as int).push(c));
        }
    }
    proof {
        assert(text@.take(text@.len() as int) == text@);
    }
    chars
}

/// Calls `String::push`, which appends one character to a string.
#[verifier::external_body]
pub(crate) fn push_char(text: &mut String, c: char)
    ensures
        final(text)@ == old(text)@.push(c),
{
    text.push(c);
}

/// The string that consists of the characters `chars[from..to]`.
pub fn string_of(chars: &Vec<char>, from: usize, to: usize) -> (text: String)
    requires
        from <= to <= chars@.len(),
    ensures
        text@ == chars@.subrange(from as int, to as int),
{
    let mut text = String::new();
    let mut i: usize = from;
    proof {
        assert(text@ =~= chars@.subrange(from as int, from as int));
    }
    while i < to
        invariant
            from <= i <= to,
            to <= chars@.len(),
            text@ == chars@.subrange(from as int, i as int),
        decreases to - i,
    {
        push_char(&mut text, chars[i]);
        proof {
            assert(chars@.subrange(from as int, i + 1) == chars@.subrange(
                from as int,
                i as int,
            ).push(chars@[i as int]));
        }
        i += 1;
    }
    text
}

/// The fields of `text`, which are separated by commas. A text without a
/// comma is one field; a comma at either end borders an empty field.
pub open spec fn split_fields(text: Seq<char>) -> Seq<Seq<char>>
    decreases text.len(),
{
    if text.len() == 0 {
        seq![Seq::<char>::empty()]
    } else {
        let front = split_fields(text.drop_last());
        if text.last() == ',' {
            front.push(Seq::<char>::empty())
        } else {
            front.drop_last().push(front.last().push(text.last()))
        }
    }
}

/// Splits `text` at its commas.
pub fn split_commas(text: &str) -> (fields: Vec<String>)
    ensures
        fields.deep_view() == split_fields(text@),
{
    let chars = chars_of(text);
    let mut done: Vec<String> = Vec::new();
    let mut current = String::new();
    let mut i: usize = 0;
    proof {
        assert(chars@.take(0) =~= Seq::<char>::empty());
        assert(done.deep_view().push(current@) =~= split_fields(chars@.take(0)));
    }
    while i < chars.len()
        invariant
            i <= chars@.len(),
            done.deep_view().push(current@) == split_fields(chars@.take(i as int)),
        decreases chars@.len() - i,
    {
        let ghost before = done.deep_view().push(current@);
        let ghost done_before = done.deep_view();
        let c = chars[i];
        proof {
            assert(chars@.take(i + 1).drop_last() == chars@.take(i as int));
            assert(chars@.take(i + 1).last() == c);
        }
        if c == ',' {
            let ghost finished = current@;
            done.push(current);
            current = String::new();
            proof {
                assert(done.deep_view() =~= before);
                assert(done.deep_view().push(current@) =~= before.push(Seq::<char>::empty()));
            }
        } else {
            push_char(&mut current, c);
            proof {
                assert(before.drop_last() =~= done_before);
                assert(done.deep_view().push(current@) =~= before.drop_last().push(
                    before.last().push(c),
                ));
            }
        }
        i += 1;
    }
    proof {
        assert(chars@.take(chars@.len() as int) == chars@);
    }
    done.push(current);
    proof {
        assert(done.deep_view() =~= split_fields(text@));
    }
    done
}

/// The value of the decimal digit `c`.
pub open spec fn digit_value(c: char) -> Option<nat> {
    let v = c as u32;
    if 48 <= v <= 57 {
        Some((v - 48) as nat)
    } else {
        None
    }
}

/// The number that the decimal digits `digits` spell, if all of them are
/// digits.
pub open spec fn digits_value(digits: Seq<char>) -> Option<nat>
    decreases digits.len(),
{
    if digits.len() == 0 {
        Some(0nat)
    } else {
        match (digits_value(digits.drop_last()), digit_value(digits.last())) {
            (Some(front), Some(d)) => Some(front * 10 + d),
            _ => None,
        }
    }
}

/// The unsigned 64-bit number that `text` spells: decimal digits, at least
/// one, after an optional plus sign, with a value that fits.
pub open spec fn parse_unsigned(text: Seq<char>) -> Option<u64> {
    let digits = if text.len() > 0 && text[0] == '+' {
        text.skip(1)
    } else {
        text
    };
    if digits.len() == 0 {
        None
    } else {
        match digits_value(digits) {
            Some(v) => if v <= u64::MAX {
                Some(v as u64)
            } else {
                None
            },
            None => None,
        }
    }
}

/// A longer text spells no smaller number, and no number at all once a
/// part of it does not.
proof fn lemma_digits_value_grows(digits: Seq<char>, upto: int)
    requires
        0 <= upto <= digits.len(),
    ensures
        digits_value(digits.take(upto)) is None ==> digits_value(digits) is None,
        digits_value(digits) is Some ==> digits_value(digits.take(upto)) is Some
            && digits_value(digits.take(upto)).unwrap() <= digits_value(digits).unwrap(),
    decreases digits.len() - upto,
{
    if upto == digits.len() {
        assert(digits.take(upto) =~= digits);
    } else {
        lemma_digits_value_grows(digits, upto + 1);
        assert(digits.take(upto + 1).drop_last() =~= digits.take(upto));
    }
}

/// Reads an unsigned 64-bit number in decimal notation.
pub fn parse_u64(text: &str) -> (value: Option<u64>)
    ensures
        value == parse_unsigned(text@),
{
    let chars = chars_of(text);
    let start: usize = if chars.len() > 0 && chars[0] == '+' {
        1
    } else {
        0
    };
    if chars.len() == start {
        return None;
    }
    let ghost digits = if text@.len() > 0 && text@[0] == '+' {
        text@.skip(1)
    } else {
        text@
    };
    let mut value: u64 = 0;
    let mut i: usize = start;
    proof {
        assert(digits =~= chars@.skip(start as int));
        assert(digits.take(0) =~= Seq::<char>::empty());
    }
    while i < chars.len()
        invariant
            start <= i <= chars@.len(),
            chars@ == text@,
            digits == if text@.len() > 0 && text@[0] == '+' {
                text@.skip(1)
            } else {
                text@
            },
            digits == chars@.skip(start as int),
            digits.len() > 0,
            digits_value(digits.take(i - start)) == Some(value as nat),
        decreases chars@.len() - i,
    {
        let c = chars[i];
        proof {
            assert(digits.take(i - start + 1).drop_last() =~= digits.take(i - start));
            assert(digits.take(i - start + 1).last() == c);
            lemma_digits_value_grows(digits, i - start + 1);
        }
        let code: u32 = c as u32;
        if code < 48 || code > 57 {
            assert(digit_value(c) is None);
            assert(digits_value(digits.take(i - start + 1)) is None);
            return None;
        }
        let d: u64 = (code - 48) as u64;
        assert(digit_value(c) == Some(d as nat));
        assert(digits_value(digits.take(i - start + 1)) == Some((value * 10 + d) as nat));
        if value > (u64::MAX - d) / 10 {
            return None;
        }
        value = value * 10 + d;
        i += 1;
    }
    proof {
        assert(digits.take(digits.len() as int) =~= digits);
    }
    Some(value)
}

} // verus!
