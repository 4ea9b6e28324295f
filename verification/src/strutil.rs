//! Small verified helpers over strings, shared by the whole crate.

use vstd::prelude::*;
use vstd::string::StrSliceExecFns;
use vstd::string::StringExecFns;

verus! {

/// Relies on `String::push`: appends the given character to the end of
/// the string (vstd specifies `push_str`-like appends but not `push`).
pub assume_specification[ String::push ](s: &mut String, ch: char)
    ensures
        final(s)@ == old(s)@.push(ch),
;

/// Character-wise string equality.
pub fn str_eq(a: &str, b: &str) -> (r: bool)
    ensures
        r == (a@ == b@),
{
    let alen = a.unicode_len();
    let blen = b.unicode_len();
    if alen != blen {
        assert(a@ != b@) by {
            assert(a@.len() != b@.len());
        }
        return false;
    }
    let mut i: usize = 0;
    while i < alen
        invariant
            alen == a@.len(),
            alen == b@.len(),
            i <= alen,
            forall|j: int| 0 <= j < i ==> a@[j] == b@[j],
        decreases alen - i,
    {
        if a.get_char(i) != b.get_char(i) {
            return false;
        }
        i += 1;
    }
    assert(a@ =~= b@);
    true
}

/// The sequence with every `from` character replaced by `to`.
pub open spec fn spec_replace_char(s: Seq<char>, from: char, to: char) -> Seq<char> {
    s.map_values(|c: char| if c == from { to } else { c })
}

/// A copy of `s` with every occurrence of `from` replaced by `to`.
pub fn replace_char(s: &str, from: char, to: char) -> (r: String)
    ensures
        r@ == spec_replace_char(s@, from, to),
{
    let len = s.unicode_len();
    let mut r = String::new();
    let mut i: usize = 0;
    while i < len
        invariant
            len == s@.len(),
            i <= len,
            r@ =~= spec_replace_char(s@.take(i as int), from, to),
        decreases len - i,
    {
        let c = s.get_char(i);
        let repl = if c == from { to } else { c };
        r.push(repl);
        proof {
            assert(s@.take(i + 1) =~= s@.take(i as int).push(s@[i as int]));
            assert(spec_replace_char(s@.take(i + 1), from, to) =~= spec_replace_char(
                s@.take(i as int),
                from,
                to,
            ).push(repl));
        }
        i += 1;
    }
    proof {
        assert(s@.take(len as int) =~= s@);
    }
    r
}

/// The character of one decimal digit.
pub open spec fn digit_char(d: nat) -> char {
    if d == 0 {
        '0'
    } else if d == 1 {
        '1'
    } else if d == 2 {
        '2'
    } else if d == 3 {
        '3'
    } else if d == 4 {
        '4'
    } else if d == 5 {
        '5'
    } else if d == 6 {
        '6'
    } else if d == 7 {
        '7'
    } else if d == 8 {
        '8'
    } else {
        '9'
    }
}

/// The decimal digits of a natural number, most significant first.
pub open spec fn dec_digits(n: nat) -> Seq<char>
    decreases n,
{
    if n < 10 {
        seq![digit_char(n)]
    } else {
        dec_digits(n / 10).push(digit_char(n % 10))
    }
}

/// The decimal rendering of an integer, with a sign when negative.
pub open spec fn spec_i64_dec(n: int) -> Seq<char> {
    if n < 0 {
        seq!['-'] + dec_digits((-n) as nat)
    } else {
        dec_digits(n as nat)
    }
}

/// The decimal rendering of a natural machine integer.
pub fn u64_dec(n: u64) -> (r: String)
    ensures
        r@ == dec_digits(n as nat),
    decreases n,
{
    if n < 10 {
        let c: char = match n {
            0 => '0',
            1 => '1',
            2 => '2',
            3 => '3',
            4 => '4',
            5 => '5',
            6 => '6',
            7 => '7',
            8 => '8',
            _ => '9',
        };
        let mut s = String::new();
        s.push(c);
        proof {
            assert(s@ =~= seq![digit_char(n as nat)]);
        }
        s
    } else {
        let mut s = u64_dec(n / 10);
        let d = n % 10;
        let c: char = match d {
            0 => '0',
            1 => '1',
            2 => '2',
            3 => '3',
            4 => '4',
            5 => '5',
            6 => '6',
            7 => '7',
            8 => '8',
            _ => '9',
        };
        s.push(c);
        s
    }
}

/// The decimal rendering of a signed machine integer.
pub fn i64_dec(n: i64) -> (r: String)
    ensures
        r@ == spec_i64_dec(n as int),
{
    if n >= 0 {
        u64_dec(n as u64)
    } else {
        let m: u64 = if n == i64::MIN {
            9223372036854775808u64
        } else {
            (-n) as u64
        };
        proof {
            assert(m as nat == (-(n as int)) as nat);
        }
        let mut s = String::from_str("-");
        s.append(u64_dec(m).as_str());
        proof {
            reveal_strlit("-");
            assert(s@ =~= spec_i64_dec(n as int));
        }
        s
    }
}

/// The parts joined with the separator between neighbours.
pub open spec fn spec_join_sep(parts: Seq<Seq<char>>, sep: Seq<char>) -> Seq<char>
    decreases parts.len(),
{
    if parts.len() == 0 {
        Seq::empty()
    } else if parts.len() == 1 {
        parts[0]
    } else {
        parts[0] + sep + spec_join_sep(parts.skip(1), sep)
    }
}

proof fn lemma_join_push(parts: Seq<Seq<char>>, sep: Seq<char>, x: Seq<char>)
    ensures
        spec_join_sep(parts.push(x), sep) == if parts.len() == 0 {
            x
        } else {
            spec_join_sep(parts, sep) + sep + x
        },
    decreases parts.len(),
{
    if parts.len() == 0 {
        assert(parts.push(x).len() == 1);
        assert(parts.push(x)[0] == x);
    } else {
        lemma_join_push(parts.skip(1), sep, x);
        assert(parts.push(x).skip(1) =~= parts.skip(1).push(x));
        if parts.len() == 1 {
            assert(spec_join_sep(parts.push(x), sep) == parts[0] + sep + spec_join_sep(
                parts.skip(1).push(x),
                sep,
            ));
            assert(spec_join_sep(parts.skip(1).push(x), sep) == x);
        } else {
            assert(spec_join_sep(parts.push(x), sep) == parts[0] + sep + spec_join_sep(
                parts.skip(1).push(x),
                sep,
            ));
            assert(parts[0] + sep + (spec_join_sep(parts.skip(1), sep) + sep + x) =~= (parts[0]
                + sep + spec_join_sep(parts.skip(1), sep)) + sep + x);
        }
    }
}

/// Joins the strings with the separator between neighbours.
pub fn join_strings(parts: &Vec<String>, sep: &str) -> (r: String)
    ensures
        r@ == spec_join_sep(parts@.map_values(|s: String| s@), sep@),
{
    let ghost views = parts@.map_values(|s: String| s@);
    let mut acc = String::new();
    let mut i: usize = 0;
    while i < parts.len()
        invariant
            i <= parts@.len(),
            views == parts@.map_values(|s: String| s@),
            acc@ == spec_join_sep(views.take(i as int), sep@),
        decreases parts@.len() - i,
    {
        if i > 0 {
            acc.append(sep);
        }
        acc.append(parts[i].as_str());
        proof {
            assert(views.take(i + 1) =~= views.take(i as int).push(views[i as int]));
            lemma_join_push(views.take(i as int), sep@, views[i as int]);
        }
        i += 1;
    }
    proof {
        assert(views.take(parts@.len() as int) =~= views);
    }
    acc
}

} // verus!
