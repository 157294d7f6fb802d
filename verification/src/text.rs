use vstd::prelude::*;

verus! {

/// Whether `c` has the Unicode `White_Space` property, the set that
/// `char::is_whitespace` and `str::trim` use.
pub open spec fn is_white_space(c: char) -> bool {
    let u = c as u32;
    ||| 0x09 <= u <= 0x0d
    ||| u == 0x20
    ||| u == 0x85
    ||| u == 0xa0
    ||| u == 0x1680
    ||| 0x2000 <= u <= 0x200a
    ||| u == 0x2028
    ||| u == 0x2029
    ||| u == 0x202f
    ||| u == 0x205f
    ||| u == 0x3000
}

/// Whether a text is empty once surrounding white space is trimmed.
pub open spec fn is_blank_text(s: Seq<char>) -> bool {
    forall|i: int| 0 <= i < s.len() ==> is_white_space(#[trigger] s[i])
}

/// Whether `c` is white space, as `char::is_whitespace` decides.
pub fn char_is_white_space(c: char) -> (r: bool)
    ensures
        r == is_white_space(c),
{
    let u = c as u32;
    (0x09 <= u && u <= 0x0d) || u == 0x20 || u == 0x85 || u == 0xa0 || u == 0x1680 || (0x2000
        <= u && u <= 0x200a) || u == 0x2028 || u == 0x2029 || u == 0x202f || u == 0x205f || u
        == 0x3000
}

/// Whether `s.trim().is_empty()`: every character of `s` is white space.
pub fn is_blank(s: &str) -> (r: bool)
    ensures
        r == is_blank_text(s@),
{
    let n = s.unicode_len();
    for k in 0..n
        invariant
            n == s@.len(),
            forall|i: int| 0 <= i < k ==> is_white_space(#[trigger] s@[i]),
    {
        if !char_is_white_space(s.get_char(k)) {
            return false;
        }
    }
    true
}

/// Whether the text `a` reads exactly `b`.
pub fn same_text(a: &String, b: &str) -> (r: bool)
    ensures
        r == (a@ == b@),
{
    *a == String::from_str(b)
}

/// Whether the texts `a` and `b` are the same.
pub fn same_str(a: &str, b: &str) -> (r: bool)
    ensures
        r == (a@ == b@),
{
    String::from_str(a) == String::from_str(b)
}

/// The decimal digit for `d` (below ten).
pub open spec fn digit_char(d: nat) -> char {
    if d == 0 {
        '0'
    } else if d == 1 {
        '1'
    } else if d == 2 {
        '2'
    } else if d == 3 {
        '3'
    } else if d == 4 {
        '4'
    } else if d == 5 {
        '5'
    } else if d == 6 {
        '6'
    } else if d == 7 {
        '7'
    } else if d == 8 {
        '8'
    } else {
        '9'
    }
}

/// The decimal notation of `n`, without sign, grouping or leading zeros.
pub open spec fn decimal_text(n: nat) -> Seq<char>
    decreases n,
{
    if n < 10 {
        seq![digit_char(n)]
    } else {
        decimal_text(n / 10).push(digit_char(n % 10))
    }
}

fn digit_str(d: u64) -> (r: &'static str)
    requires
        d < 10,
    ensures
        r@ == seq![digit_char(d as nat)],
{
    proof {
        reveal_strlit("0");
        reveal_strlit("1");
        reveal_strlit("2");
        reveal_strlit("3");
        reveal_strlit("4");
        reveal_strlit("5");
        reveal_strlit("6");
        reveal_strlit("7");
        reveal_strlit("8");
        reveal_strlit("9");
    }
    match d {
        0 => "0",
        1 => "1",
        2 => "2",
        3 => "3",
        4 => "4",
        5 => "5",
        6 => "6",
        7 => "7",
        8 => "8",
        _ => "9",
    }
}

/// Appends the decimal notation of `n` to `s`.
pub fn push_decimal(s: &mut String, n: u64)
    ensures
        final(s)@ == old(s)@ + decimal_text(n as nat),
    decreases n,
{
    if n >= 10 {
        push_decimal(s, n / 10);
    }
    s.append(digit_str(n % 10));
    proof {
        if n >= 10 {
            assert(old(s)@ + decimal_text((n / 10) as nat) + seq![digit_char((n % 10) as nat)]
                =~= old(s)@ + decimal_text(n as nat));
        } else {
            assert(decimal_text(n as nat) == seq![digit_char(n as nat)]);
        }
    }
}

/// The texts of `parts` joined with single spaces.
pub open spec fn joined_with_spaces(parts: Seq<Seq<char>>) -> Seq<char>
    decreases parts.len(),
{
    if parts.len() == 0 {
        Seq::empty()
    } else if parts.len() == 1 {
        parts[0]
    } else {
        joined_with_spaces(parts.drop_last()) + seq![' '] + parts.last()
    }
}

/// Joins `parts` with single spaces, as `parts.join(" ")` does.
pub fn join_with_spaces(parts: &Vec<String>) -> (r: String)
    ensures
        r@ == joined_with_spaces(parts.deep_view()),
{
    proof {
        reveal_strlit(" ");
    }
    let ghost parts_view = parts.deep_view();
    let mut r = String::new();
    let n = parts.len();
    for k in 0..n
        invariant
            n == parts@.len(),
            parts_view == parts.deep_view(),
            r@ == joined_with_spaces(parts_view.take(k as int)),
    {
        assert(parts_view.take(k + 1).drop_last() =~= parts_view.take(k as int));
        proof {
            reveal_strlit(" ");
        }
        if k != 0 {
            r.append(" ");
        }
        r.append(parts[k].as_str());
        proof {
            assert(parts_view[k as int] == parts@[k as int]@);
            assert(parts_view.take(k + 1).last() == parts_view[k as int]);
            if k == 0 {
                assert(r@ =~= parts_view.take(1)[0]);
            } else {
                assert(r@ =~= joined_with_spaces(parts_view.take(k as int)) + seq![' ']
                    + parts_view[k as int]);
            }
        }
    }
    assert(parts_view.take(n as int) =~= parts_view);
    r
}

} // verus!
