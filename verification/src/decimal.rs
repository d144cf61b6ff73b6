//! Decimal notation: the digits of a number, padded on the left with zeros
//! to a least width.

use vstd::prelude::*;

verus! {

/// The character that writes the digit `d` (0 to 9).
pub open spec fn digit_char(d: int) -> char {
    if d == 0 {
        '0'
    } else if d == 1 {
        '1'
    } else if d == 2 {
        '2'
    } else if d == 3 {
        '3'
    } else if d == 4 {
        '4'
    } else if d == 5 {
        '5'
    } else if d == 6 {
        '6'
    } else if d == 7 {
        '7'
    } else if d == 8 {
        '8'
    } else {
        '9'
    }
}

/// The decimal digits of `n`, most significant first, without leading zeros
/// (`0` is written as one digit).
pub open spec fn decimal(n: nat) -> Seq<char>
    decreases n,
{
    if n < 10 {
        seq![digit_char(n as int)]
    } else {
        decimal(n / 10).push(digit_char((n % 10) as int))
    }
}

/// `count` zeros.
pub open spec fn zeros(count: nat) -> Seq<char> {
    Seq::new(count, |i: int| '0')
}

/// The decimal digits of `n`, with zeros in front where there are fewer than
/// `width` of them. A number with more digits than `width` is written in
/// full.
pub open spec fn padded(n: nat, width: nat) -> Seq<char> {
    if decimal(n).len() >= width {
        decimal(n)
    } else {
        zeros((width - decimal(n).len()) as nat) + decimal(n)
    }
}

/// How many digits a number has, up to four: one below 10, two below 100,
/// three below 1000, four below 10000, and more from there on.
pub proof fn lemma_decimal_len(n: nat)
    ensures
        decimal(n).len() >= 1,
        n < 10 ==> decimal(n).len() == 1,
        10 <= n < 100 ==> decimal(n).len() == 2,
        100 <= n < 1000 ==> decimal(n).len() == 3,
        1000 <= n < 10000 ==> decimal(n).len() == 4,
        n >= 10000 ==> decimal(n).len() >= 5,
    decreases n,
{
    if n >= 10 {
        lemma_decimal_len(n / 10);
    }
}

/// The text of one digit.
fn digit_text(d: u64) -> (text: &'static str)
    requires
        d < 10,
    ensures
        text@ == seq![digit_char(d as int)],
{
    proof {
        reveal_strlit("0");
        reveal_strlit("1");
        reveal_strlit("2");
        reveal_strlit("3");
        reveal_strlit("4");
        reveal_strlit("5");
        reveal_strlit("6");
        reveal_strlit("7");
        reveal_strlit("8");
        reveal_strlit("9");
    }
    let text: &'static str = if d == 0 {
        "0"
    } else if d == 1 {
        "1"
    } else if d == 2 {
        "2"
    } else if d == 3 {
        "3"
    } else if d == 4 {
        "4"
    } else if d == 5 {
        "5"
    } else if d == 6 {
        "6"
    } else if d == 7 {
        "7"
    } else if d == 8 {
        "8"
    } else {
        "9"
    };
    assert(text@ =~= seq![digit_char(d as int)]);
    text
}

/// Padding splits at the last digit: all digits but the last, padded to one
/// less, and then the last digit.
pub proof fn lemma_padded_step(n: nat, width: nat)
    requires
        n >= 10,
    ensures
        padded(n, width) == padded(n / 10, if width > 0 {
            (width - 1) as nat
        } else {
            0
        }).push(digit_char((n % 10) as int)),
{
    let rest = n / 10;
    let less: nat = if width > 0 {
        (width - 1) as nat
    } else {
        0
    };
    let last = digit_char((n % 10) as int);
    if decimal(n).len() < width {
        assert(padded(n, width) =~= (zeros((less - decimal(rest).len()) as nat) + decimal(
            rest,
        )).push(last));
    }
}

/// Appends `count` zeros to `out`.
fn push_zeros(out: &mut String, count: usize)
    ensures
        final(out)@ == old(out)@ + zeros(count as nat),
{
    let mut done: usize = 0;
    assert(out@ =~= old(out)@ + zeros(0));
    while done < count
        invariant
            done <= count,
            out@ == old(out)@ + zeros(done as nat),
        decreases count - done,
    {
        proof {
            reveal_strlit("0");
        }
        out.append("0");
        done = done + 1;
        assert(out@ =~= old(out)@ + zeros(done as nat));
    }
}

/// Appends to `out` the decimal digits of `n`, with zeros in front where
/// there are fewer than `width` of them.
pub fn push_padded(out: &mut String, n: u64, width: usize)
    ensures
        final(out)@ == old(out)@ + padded(n as nat, width as nat),
    decreases n,
{
    let less: usize = if width > 0 {
        width - 1
    } else {
        0
    };
    if n >= 10 {
        push_padded(out, n / 10, less);
        proof {
            lemma_padded_step(n as nat, width as nat);
        }
    } else {
        push_zeros(out, less);
    }
    let ghost before = out@;
    out.append(digit_text(n % 10));
    assert(out@ =~= before.push(digit_char((n % 10) as int)));
    assert(out@ =~= old(out)@ + padded(n as nat, width as nat));
}

/// The decimal digits of `n`, with zeros in front where there are fewer than
/// `width` of them.
pub fn to_padded(n: u64, width: usize) -> (text: String)
    ensures
        text@ == padded(n as nat, width as nat),
{
    let mut text = String::new();
    push_padded(&mut text, n, width);
    assert(text@ =~= padded(n as nat, width as nat));
    text
}

} // verus!
