//! Views of string collections and small string building blocks.

use vstd::prelude::*;
use vstd::string::StringExecFns;

verus! {

/// The character sequences held by a sequence of strings, in order.
pub open spec fn texts(lines: Seq<String>) -> Seq<Seq<char>> {
    Seq::new(lines.len(), |i: int| lines[i]@)
}

/// Every item of `items` in order, each between `before` and `after`.
pub open spec fn framed(items: Seq<Seq<char>>, before: Seq<char>, after: Seq<char>) -> Seq<char>
    decreases items.len(),
{
    if items.len() == 0 {
        Seq::empty()
    } else {
        framed(items.drop_last(), before, after) + before + items.last() + after
    }
}

/// An owned copy of `text`.
pub fn owned(text: &str) -> (copy: String)
    ensures
        copy@ == text@,
{
    String::from_str(text)
}

/// The decimal digit that stands for `value`, for values from 0 to 9.
pub open spec fn digit(value: int) -> char {
    if value == 1 {
        '1'
    } else if value == 2 {
        '2'
    } else if value == 3 {
        '3'
    } else if value == 4 {
        '4'
    } else if value == 5 {
        '5'
    } else if value == 6 {
        '6'
    } else if value == 7 {
        '7'
    } else if value == 8 {
        '8'
    } else if value == 9 {
        '9'
    } else {
        '0'
    }
}

/// `number` in decimal digits, without leading zeros.
pub open spec fn decimal(number: nat) -> Seq<char>
    decreases number,
{
    if number < 10 {
        seq![digit(number as int)]
    } else {
        decimal(number / 10).push(digit((number % 10) as int))
    }
}

/// The last `width` decimal digits of `number`, with zeros in front where
/// it has fewer.
pub open spec fn padded(number: nat, width: nat) -> Seq<char>
    decreases width,
{
    if width == 0 {
        Seq::empty()
    } else {
        padded(number / 10, (width - 1) as nat).push(digit((number % 10) as int))
    }
}

/// The decimal digit that stands for `value`.
fn digit_text(value: u128) -> (text: &'static str)
    requires
        value < 10,
    ensures
        text@ == seq![digit(value as int)],
{
    proof {
        reveal_strlit("0");
        reveal_strlit("1");
        reveal_strlit("2");
        reveal_strlit("3");
        reveal_strlit("4");
        reveal_strlit("5");
        reveal_strlit("6");
        reveal_strlit("7");
        reveal_strlit("8");
        reveal_strlit("9");
    }
    let text = if value == 1 {
        "1"
    } else if value == 2 {
        "2"
    } else if value == 3 {
        "3"
    } else if value == 4 {
        "4"
    } else if value == 5 {
        "5"
    } else if value == 6 {
        "6"
    } else if value == 7 {
        "7"
    } else if value == 8 {
        "8"
    } else if value == 9 {
        "9"
    } else {
        "0"
    };
    assert(text@ =~= seq![digit(value as int)]);
    text
}

/// Appends `number` to `buffer` in decimal digits, without leading zeros.
pub fn push_decimal(buffer: &mut String, number: u128)
    ensures
        final(buffer)@ == old(buffer)@ + decimal(number as nat),
    decreases number,
{
    if number >= 10 {
        push_decimal(buffer, number / 10);
    }
    buffer.append(digit_text(number % 10));
    assert(buffer@ =~= old(buffer)@ + decimal(number as nat));
}

/// Appends to `buffer` the last `width` decimal digits of `number`, with
/// zeros in front where it has fewer.
pub fn push_padded(buffer: &mut String, number: u128, width: u8)
    ensures
        final(buffer)@ == old(buffer)@ + padded(number as nat, width as nat),
    decreases width,
{
    if width > 0 {
        push_padded(buffer, number / 10, width - 1);
        buffer.append(digit_text(number % 10));
    }
    assert(buffer@ =~= old(buffer)@ + padded(number as nat, width as nat));
}

/// Appends to `buffer` every line of `lines` in order, each between
/// `before` and `after`.
pub fn push_framed(buffer: &mut String, lines: &Vec<String>, before: &str, after: &str)
    ensures
        final(buffer)@ == old(buffer)@ + framed(texts(lines@), before@, after@),
{
    let mut i: usize = 0;
    assert(texts(lines@).take(0) =~= Seq::<Seq<char>>::empty());
    while i < lines.len()
        invariant
            i <= lines.len(),
            buffer@ == old(buffer)@ + framed(texts(lines@).take(i as int), before@, after@),
        decreases lines.len() - i,
    {
        buffer.append(before);
        buffer.append(lines[i].as_str());
        buffer.append(after);
        proof {
            let done = texts(lines@).take(i as int + 1);
            assert(done.drop_last() =~= texts(lines@).take(i as int));
            assert(done.last() == lines@[i as int]@);
            assert(buffer@ =~= old(buffer)@ + framed(done, before@, after@));
        }
        i = i + 1;
    }
    assert(texts(lines@).take(lines.len() as int) =~= texts(lines@));
}

} // verus!
