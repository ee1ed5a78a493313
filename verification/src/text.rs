//! Verified plain-text formatting: decimal rendering of integers, padding and
//! centering. Every executable function is pinned to a spec-level sequence of
//! characters, so the display strings elsewhere in the crate have exact
//! contracts.

use vstd::prelude::*;
use vstd::string::*;

verus! {

/// Appends the given `char` to the end of the `String`.
/// Relies on `String::push` of std, whose documentation says exactly that.
pub assume_specification[ String::push ](s: &mut String, ch: char)
    ensures
        final(s)@ == old(s)@.push(ch),
;

/// `n` space characters.
pub open spec fn spaces(n: nat) -> Seq<char>
    decreases n,
{
    if n == 0 {
        Seq::empty()
    } else {
        spaces((n - 1) as nat).push(' ')
    }
}

/// The character for one decimal digit.
pub open spec fn dec_digit(d: nat) -> char {
    if d == 0 {
        '0'
    } else if d == 1 {
        '1'
    } else if d == 2 {
        '2'
    } else if d == 3 {
        '3'
    } else if d == 4 {
        '4'
    } else if d == 5 {
        '5'
    } else if d == 6 {
        '6'
    } else if d == 7 {
        '7'
    } else if d == 8 {
        '8'
    } else {
        '9'
    }
}

/// The decimal representation of `n`, most significant digit first,
/// with no leading zeros (a single `'0'` for zero).
pub open spec fn dec_rep(n: nat) -> Seq<char>
    decreases n,
{
    if n < 10 {
        seq![dec_digit(n)]
    } else {
        dec_rep(n / 10).push(dec_digit(n % 10))
    }
}

/// The decimal representation of a signed value: a leading `'-'` for
/// negative values, else `dec_rep` alone.
pub open spec fn int_rep(i: int) -> Seq<char> {
    if i < 0 {
        seq!['-'] + dec_rep((-i) as nat)
    } else {
        dec_rep(i as nat)
    }
}

/// `s` padded on the right with spaces to at least `w` characters.
pub open spec fn left_aligned(s: Seq<char>, w: nat) -> Seq<char> {
    if s.len() >= w {
        s
    } else {
        s + spaces((w - s.len()) as nat)
    }
}

/// `s` centered in a field of `w` characters; when the padding is odd the
/// extra space goes to the right.
pub open spec fn centered(s: Seq<char>, w: nat) -> Seq<char> {
    if s.len() >= w {
        s
    } else {
        let pad = (w - s.len()) as nat;
        spaces(pad / 2) + s + spaces((pad - pad / 2) as nat)
    }
}

/// A string of `n` spaces.
pub fn spaces_string(n: usize) -> (r: String)
    ensures
        r@ == spaces(n as nat),
{
    let mut s = String::new();
    let mut i: usize = 0;
    while i < n
        invariant
            i <= n,
            s@ == spaces(i as nat),
        decreases n - i,
    {
        s.append(" ");
        proof {
            reveal_strlit(" ");
            assert(s@ =~= spaces(i as nat).push(' '));
        }
        i = i + 1;
    }
    s
}

/// The one-character string for a decimal digit.
pub fn digit_str(d: u64) -> (r: &'static str)
    requires
        d < 10,
    ensures
        r@ == seq![dec_digit(d as nat)],
{
    if d == 0 {
        proof {
            reveal_strlit("0");
            assert("0"@ =~= seq![dec_digit(d as nat)]);
        }
        "0"
    } else if d == 1 {
        proof {
            reveal_strlit("1");
            assert("1"@ =~= seq![dec_digit(d as nat)]);
        }
        "1"
    } else if d == 2 {
        proof {
            reveal_strlit("2");
            assert("2"@ =~= seq![dec_digit(d as nat)]);
        }
        "2"
    } else if d == 3 {
        proof {
            reveal_strlit("3");
            assert("3"@ =~= seq![dec_digit(d as nat)]);
        }
        "3"
    } else if d == 4 {
        proof {
            reveal_strlit("4");
            assert("4"@ =~= seq![dec_digit(d as nat)]);
        }
        "4"
    } else if d == 5 {
        proof {
            reveal_strlit("5");
            assert("5"@ =~= seq![dec_digit(d as nat)]);
        }
        "5"
    } else if d == 6 {
        proof {
            reveal_strlit("6");
            assert("6"@ =~= seq![dec_digit(d as nat)]);
        }
        "6"
    } else if d == 7 {
        proof {
            reveal_strlit("7");
            assert("7"@ =~= seq![dec_digit(d as nat)]);
        }
        "7"
    } else if d == 8 {
        proof {
            reveal_strlit("8");
            assert("8"@ =~= seq![dec_digit(d as nat)]);
        }
        "8"
    } else {
        proof {
            reveal_strlit("9");
            assert("9"@ =~= seq![dec_digit(d as nat)]);
        }
        "9"
    }
}

/// `n` rendered in decimal.
pub fn u64_string(n: u64) -> (r: String)
    ensures
        r@ == dec_rep(n as nat),
    decreases n,
{
    if n < 10 {
        let mut s = String::new();
        s.append(digit_str(n));
        proof {
            assert(s@ =~= dec_rep(n as nat));
        }
        s
    } else {
        let mut s = u64_string(n / 10);
        s.append(digit_str(n % 10));
        proof {
            assert(s@ =~= dec_rep(n as nat));
        }
        s
    }
}

/// `n` rendered in decimal, with a leading minus sign when negative.
pub fn i64_string(n: i64) -> (r: String)
    ensures
        r@ == int_rep(n as int),
{
    if n >= 0 {
        u64_string(n as u64)
    } else {
        let mut s = String::new();
        s.append("-");
        let magnitude: u64 = if n == i64::MIN {
            9223372036854775808u64
        } else {
            (-n) as u64
        };
        let digits = u64_string(magnitude);
        s.append(digits.as_str());
        proof {
            reveal_strlit("-");
            assert(s@ =~= int_rep(n as int));
        }
        s
    }
}

/// `s` padded on the right with spaces to at least `w` characters.
pub fn left_align(s: &str, w: usize) -> (r: String)
    ensures
        r@ == left_aligned(s@, w as nat),
{
    let len = s.unicode_len();
    let mut r = String::from_str(s);
    if len < w {
        let pad = spaces_string(w - len);
        r.append(pad.as_str());
        proof {
            assert(r@ =~= left_aligned(s@, w as nat));
        }
    }
    r
}

/// `s` centered in a field of `w` characters.
pub fn center(s: &str, w: usize) -> (r: String)
    ensures
        r@ == centered(s@, w as nat),
{
    let len = s.unicode_len();
    if len >= w {
        String::from_str(s)
    } else {
        let pad = w - len;
        let left = pad / 2;
        let mut r = spaces_string(left);
        r.append(s);
        let right = spaces_string(pad - left);
        r.append(right.as_str());
        proof {
            assert(r@ =~= centered(s@, w as nat));
        }
        r
    }
}

} // verus!
