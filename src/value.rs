//! A JSON-like structured value: what a frame is read from and written to.

use vstd::prelude::*;

verus! {

/// One structured value of a frame.
#[derive(Debug)]
pub enum Value {
    Null,
    Bool(bool),
    /// A non-negative integer.
    Int(u64),
    /// Any other number, kept as its JSON text (see `is_number_text`).
    Real(String),
    Str(String),
    Array(Vec<Value>),
    /// Members in document order; where a key repeats, the last one counts.
    Object(Vec<(String, Value)>),
}

/// The member of `e` under `key`: the last one where the key repeats.
pub open spec fn field(e: Seq<(String, Value)>, key: Seq<char>) -> Option<Value>
    decreases e.len(),
{
    if e.len() == 0 {
        None
    } else if e.last().0@ == key {
        Some(e.last().1)
    } else {
        field(e.drop_last(), key)
    }
}

/// Whether `v` is a string whose characters are `s`.
pub open spec fn is_str(v: Value, s: Seq<char>) -> bool {
    v is Str && v->Str_0@ == s
}

/// Where a scan of JSON number text stands after a prefix: at the start,
/// after the sign, after a leading zero, in the integer digits, after the
/// point, in the fraction, after the exponent mark, after its sign, in its
/// digits, or past a character the grammar does not allow.
#[derive(Clone, Copy, Debug, PartialEq, Eq, Structural)]
pub enum NumberScan {
    Start,
    Minus,
    Zero,
    Int,
    Dot,
    Frac,
    Exp,
    ExpSign,
    ExpInt,
    Bad,
}

pub open spec fn is_digit(c: char) -> bool {
    '0' <= c && c <= '9'
}

/// One step of the JSON number grammar
/// `-? (0 | [1-9][0-9]*) (. [0-9]+)? ([eE] [+-]? [0-9]+)?`.
pub open spec fn scan_step(st: NumberScan, c: char) -> NumberScan {
    match st {
        NumberScan::Start => if c == '-' {
            NumberScan::Minus
        } else if c == '0' {
            NumberScan::Zero
        } else if is_digit(c) {
            NumberScan::Int
        } else {
            NumberScan::Bad
        },
        NumberScan::Minus => if c == '0' {
            NumberScan::Zero
        } else if is_digit(c) {
            NumberScan::Int
        } else {
            NumberScan::Bad
        },
        NumberScan::Zero => if c == '.' {
            NumberScan::Dot
        } else if c == 'e' || c == 'E' {
            NumberScan::Exp
        } else {
            NumberScan::Bad
        },
        NumberScan::Int => if is_digit(c) {
            NumberScan::Int
        } else if c == '.' {
            NumberScan::Dot
        } else if c == 'e' || c == 'E' {
            NumberScan::Exp
        } else {
            NumberScan::Bad
        },
        NumberScan::Dot => if is_digit(c) {
            NumberScan::Frac
        } else {
            NumberScan::Bad
        },
        NumberScan::Frac => if is_digit(c) {
            NumberScan::Frac
        } else if c == 'e' || c == 'E' {
            NumberScan::Exp
        } else {
            NumberScan::Bad
        },
        NumberScan::Exp => if c == '+' || c == '-' {
            NumberScan::ExpSign
        } else if is_digit(c) {
            NumberScan::ExpInt
        } else {
            NumberScan::Bad
        },
        NumberScan::ExpSign => if is_digit(c) {
            NumberScan::ExpInt
        } else {
            NumberScan::Bad
        },
        NumberScan::ExpInt => if is_digit(c) {
            NumberScan::ExpInt
        } else {
            NumberScan::Bad
        },
        NumberScan::Bad => NumberScan::Bad,
    }
}

/// Where the scan stands after all of `s`.
pub open spec fn scan_number(s: Seq<char>) -> NumberScan
    decreases s.len(),
{
    if s.len() == 0 {
        NumberScan::Start
    } else {
        scan_step(scan_number(s.drop_last()), s.last())
    }
}

/// Whether `s` is the text of a JSON number.
pub open spec fn is_number_text(s: Seq<char>) -> bool {
    let st = scan_number(s);
    st == NumberScan::Zero || st == NumberScan::Int || st == NumberScan::Frac || st
        == NumberScan::ExpInt
}

fn scan_step_exec(st: NumberScan, c: char) -> (r: NumberScan)
    ensures
        r == scan_step(st, c),
{
    let digit = '0' <= c && c <= '9';
    let exp = c == 'e' || c == 'E';
    match st {
        NumberScan::Start => if c == '-' {
            NumberScan::Minus
        } else if c == '0' {
            NumberScan::Zero
        } else if digit {
            NumberScan::Int
        } else {
            NumberScan::Bad
        },
        NumberScan::Minus => if c == '0' {
            NumberScan::Zero
        } else if digit {
            NumberScan::Int
        } else {
            NumberScan::Bad
        },
        NumberScan::Zero => if c == '.' {
            NumberScan::Dot
        } else if exp {
            NumberScan::Exp
        } else {
            NumberScan::Bad
        },
        NumberScan::Int => if digit {
            NumberScan::Int
        } else if c == '.' {
            NumberScan::Dot
        } else if exp {
            NumberScan::Exp
        } else {
            NumberScan::Bad
        },
        NumberScan::Dot => if digit {
            NumberScan::Frac
        } else {
            NumberScan::Bad
        },
        NumberScan::Frac => if digit {
            NumberScan::Frac
        } else if exp {
            NumberScan::Exp
        } else {
            NumberScan::Bad
        },
        NumberScan::Exp => if c == '+' || c == '-' {
            NumberScan::ExpSign
        } else if digit {
            NumberScan::ExpInt
        } else {
            NumberScan::Bad
        },
        NumberScan::ExpSign => if digit {
            NumberScan::ExpInt
        } else {
            NumberScan::Bad
        },
        NumberScan::ExpInt => if digit {
            NumberScan::ExpInt
        } else {
            NumberScan::Bad
        },
        NumberScan::Bad => NumberScan::Bad,
    }
}

/// Whether `s` is the text of a JSON number.
pub fn check_number_text(s: &str) -> (r: bool)
    ensures
        r == is_number_text(s@),
{
    let n = s.unicode_len();
    let mut st = NumberScan::Start;
    let mut i: usize = 0;
    while i < n
        invariant
            n == s@.len(),
            i <= n,
            st == scan_number(s@.subrange(0, i as int)),
        decreases n - i,
    {
        let c = s.get_char(i);
        st = scan_step_exec(st, c);
        assert(s@.subrange(0, i + 1).drop_last() =~= s@.subrange(0, i as int));
        i = i + 1;
    }
    assert(s@.subrange(0, n as int) =~= s@);
    st == NumberScan::Zero || st == NumberScan::Int || st == NumberScan::Frac || st
        == NumberScan::ExpInt
}

} // verus!
