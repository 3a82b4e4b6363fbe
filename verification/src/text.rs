//! Text helpers: characters, decimal numbers and joined texts.

use vstd::prelude::*;

verus! {

/// `String::push` appends one character to the end of the text.
pub assume_specification[ String::push ](s: &mut String, c: char)
    ensures
        final(s)@ == old(s)@.push(c),
;

/// The characters of `s`, in order.
pub fn chars_of(s: &str) -> (chars: Vec<char>)
    ensures
        chars@ == s@,
{
    let mut chars: Vec<char> = Vec::new();
    for c in it: s.chars()
        invariant
            chars@ == s@.take(it.index()),
            it.seq() == s@,
    {
        chars.push(c);
    }
    chars
}

/// `a` followed by `b`.
pub fn joined(a: &str, b: &str) -> (s: String)
    ensures
        s@ == a@ + b@,
{
    let mut s = a.to_string();
    s.append(b);
    s
}

/// The decimal digit with the value `d`.
pub open spec fn digit(d: nat) -> char {
    ((48 + d) as int) as char
}

/// `n` in decimal, without leading zeros.
pub open spec fn decimal(n: nat) -> Seq<char>
    decreases n,
{
    if n < 10 {
        seq![digit(n)]
    } else {
        decimal(n / 10).push(digit(n % 10))
    }
}

fn digit_text(d: u64) -> (c: char)
    requires
        d < 10,
    ensures
        c == digit(d as nat),
{
    if d == 0 {
        '0'
    } else if d == 1 {
        '1'
    } else if d == 2 {
        '2'
    } else if d == 3 {
        '3'
    } else if d == 4 {
        '4'
    } else if d == 5 {
        '5'
    } else if d == 6 {
        '6'
    } else if d == 7 {
        '7'
    } else if d == 8 {
        '8'
    } else {
        '9'
    }
}

/// `n` in decimal.
pub fn decimal_text(n: u64) -> (s: String)
    ensures
        s@ == decimal(n as nat),
    decreases n,
{
    if n < 10 {
        let mut s = String::new();
        s.push(digit_text(n));
        assert(s@ =~= decimal(n as nat));
        s
    } else {
        let mut s = decimal_text(n / 10);
        s.push(digit_text(n % 10));
        s
    }
}

/// The texts of `parts` with `separator` between each two.
pub open spec fn join(parts: Seq<Seq<char>>, separator: Seq<char>) -> Seq<char>
    decreases parts.len(),
{
    if parts.len() == 0 {
        Seq::empty()
    } else if parts.len() == 1 {
        parts[0]
    } else {
        join(parts.drop_last(), separator) + separator + parts.last()
    }
}

/// Join `parts` with `separator` between each two.
pub fn join_text(parts: &Vec<String>, separator: &str) -> (s: String)
    ensures
        s@ == join(parts.deep_view(), separator@),
{
    let mut s = String::new();
    let mut i: usize = 0;
    let ghost model = parts.deep_view();
    while i < parts.len()
        invariant
            i <= parts.len(),
            model == parts.deep_view(),
            s@ == join(model.take(i as int), separator@),
        decreases parts.len() - i,
    {
        proof {
            assert(model.take(i + 1).drop_last() =~= model.take(i as int));
            assert(model.take(i + 1).last() == parts@[i as int]@);
        }
        if i > 0 {
            s = joined(s.as_str(), separator);
        } else {
            assert(s@ + parts@[i as int]@ =~= parts@[i as int]@);
        }
        s = joined(s.as_str(), parts[i].as_str());
        i += 1;
    }
    assert(model.take(i as int) =~= model);
    s
}

}
