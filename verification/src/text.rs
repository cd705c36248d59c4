//! Building the short pieces of text that the display is made of.

use vstd::prelude::*;

verus! {

/// The ten decimal digits, in order.
pub open spec fn digits() -> Seq<char> {
    seq!['0', '1', '2', '3', '4', '5', '6', '7', '8', '9']
}

/// The character that stands for the digit `d`.
pub open spec fn digit(d: nat) -> char {
    digits()[d as int]
}

/// `n` written in base ten, without sign or leading zeros.
pub open spec fn decimal(n: nat) -> Seq<char>
    decreases n,
{
    if n < 10 {
        seq![digit(n)]
    } else {
        decimal(n / 10).push(digit(n % 10))
    }
}

/// `unit` written `count` times in a row.
pub open spec fn repeated(unit: Seq<char>, count: nat) -> Seq<char>
    decreases count,
{
    if count == 0 {
        Seq::empty()
    } else {
        repeated(unit, (count - 1) as nat) + unit
    }
}

/// `n` in base ten, with `fill` in front of it as often as it takes to reach
/// `width` characters. A number that is already that wide is left as it is.
pub open spec fn padded(n: nat, width: nat, fill: char) -> Seq<char> {
    let body = decimal(n);
    if body.len() >= width {
        body
    } else {
        repeated(seq![fill], (width - body.len()) as nat) + body
    }
}

/// A number has at least one digit, and a number below a power of ten has no
/// more digits than that power has zeros.
pub proof fn lemma_decimal_len(n: nat)
    ensures
        decimal(n).len() >= 1,
        n < 10 ==> decimal(n).len() == 1,
        10 <= n < 100 ==> decimal(n).len() == 2,
        100 <= n < 1000 ==> decimal(n).len() == 3,
{
    reveal_with_fuel(decimal, 4);
}

/// Repeating a unit `count` times gives `count` times its length.
pub proof fn lemma_repeated_len(unit: Seq<char>, count: nat)
    ensures
        repeated(unit, count).len() == count * unit.len(),
    decreases count,
{
    if count == 0 {
        assert(0 * unit.len() == 0) by (nonlinear_arith);
    } else {
        let rest = (count - 1) as nat;
        lemma_repeated_len(unit, rest);
        assert(count * unit.len() == rest * unit.len() + unit.len()) by (nonlinear_arith)
            requires
                count == rest + 1,
        ;
    }
}

/// A padded number is as wide as asked, or as wide as the number where that
/// is wider.
pub proof fn lemma_padded_len(n: nat, width: nat, fill: char)
    ensures
        padded(n, width, fill).len() == if decimal(n).len() >= width {
            decimal(n).len()
        } else {
            width
        },
{
    let body = decimal(n);
    if body.len() < width {
        let gap = (width - body.len()) as nat;
        lemma_repeated_len(seq![fill], gap);
        assert(gap * 1 == gap) by (nonlinear_arith);
    }
}

/// Whether two texts are the same, character for character.
pub fn same_text(a: &str, b: &str) -> (same: bool)
    ensures
        same == (a@ == b@),
{
    let a = String::from_str(a);
    let b = String::from_str(b);
    a == b
}

/// Appends `n` in base ten to `out`.
pub fn push_decimal(out: &mut String, n: u64)
    ensures
        final(out)@ == old(out)@ + decimal(n as nat),
    decreases n,
{
    if n >= 10 {
        push_decimal(out, n / 10);
    }
    let d: usize = (n % 10) as usize;
    let table = "0123456789";
    proof {
        reveal_strlit("0123456789");
    }
    out.append(table.substring_ascii(d, d + 1));
}

/// Appends `unit` to `out`, `count` times.
pub fn push_repeated(out: &mut String, unit: &str, count: usize)
    ensures
        final(out)@ == old(out)@ + repeated(unit@, count as nat),
{
    let mut done: usize = 0;
    while done < count
        invariant
            done <= count,
            out@ == old(out)@ + repeated(unit@, done as nat),
        decreases count - done,
    {
        out.append(unit);
        done = done + 1;
    }
}

/// Appends `n` in base ten to `out`, filled up on the left to `width`
/// characters with the one character that `fill` holds.
pub fn push_padded(out: &mut String, n: u64, width: usize, fill: &str)
    requires
        fill@.len() == 1,
    ensures
        final(out)@ == old(out)@ + padded(n as nat, width as nat, fill@[0]),
{
    let mut body = String::new();
    push_decimal(&mut body, n);
    let len = body.as_str().unicode_len();
    if len < width {
        push_repeated(out, fill, width - len);
        assert(fill@ =~= seq![fill@[0]]);
    }
    out.append(body.as_str());
}

} // verus!
