use vstd::prelude::*;

verus! {

/// The character for one decimal digit.
pub open spec fn digit_char(d: int) -> char {
    if d == 0 {
        '0'
    } else if d == 1 {
        '1'
    } else if d == 2 {
        '2'
    } else if d == 3 {
        '3'
    } else if d == 4 {
        '4'
    } else if d == 5 {
        '5'
    } else if d == 6 {
        '6'
    } else if d == 7 {
        '7'
    } else if d == 8 {
        '8'
    } else {
        '9'
    }
}

/// The usual decimal writing of `n`: no sign, no leading zero except
/// for `n == 0` itself.
pub open spec fn dec_rep(n: nat) -> Seq<char>
    decreases n,
{
    if n < 10 {
        seq![digit_char(n as int)]
    } else {
        dec_rep(n / 10).push(digit_char((n % 10) as int))
    }
}

/// A run of `n` spaces.
pub open spec fn spaces(n: nat) -> Seq<char>
    decreases n,
{
    if n == 0 {
        Seq::empty()
    } else {
        seq![' '] + spaces((n - 1) as nat)
    }
}

/// `s` right-aligned in a field of width three: short text is padded
/// with spaces on the left, longer text is kept as it is.
pub open spec fn right_aligned3(s: Seq<char>) -> Seq<char> {
    if s.len() >= 3 {
        s
    } else {
        spaces((3 - s.len()) as nat) + s
    }
}

/// How many digits the decimal writing of `n` has.
pub proof fn lemma_dec_rep_len(n: nat)
    ensures
        dec_rep(n).len() >= 1,
        n < 10 ==> dec_rep(n).len() == 1,
        10 <= n < 100 ==> dec_rep(n).len() == 2,
        n >= 100 ==> dec_rep(n).len() >= 3,
    decreases n,
{
    if n >= 10 {
        lemma_dec_rep_len(n / 10);
    }
}

/// Append the digit `d` to `s`.
fn push_digit(s: String, d: u64) -> (r: String)
    requires
        d < 10,
    ensures
        r@ == s@.push(digit_char(d as int)),
{
    proof {
        reveal_strlit("0");
        reveal_strlit("1");
        reveal_strlit("2");
        reveal_strlit("3");
        reveal_strlit("4");
        reveal_strlit("5");
        reveal_strlit("6");
        reveal_strlit("7");
        reveal_strlit("8");
        reveal_strlit("9");
    }
    let r = match d {
        0 => s.concat("0"),
        1 => s.concat("1"),
        2 => s.concat("2"),
        3 => s.concat("3"),
        4 => s.concat("4"),
        5 => s.concat("5"),
        6 => s.concat("6"),
        7 => s.concat("7"),
        8 => s.concat("8"),
        _ => s.concat("9"),
    };
    proof {
        assert(r@ =~= s@.push(digit_char(d as int)));
    }
    r
}

/// Write `n` in decimal.
pub fn u64_to_decimal(n: u64) -> (r: String)
    ensures
        r@ == dec_rep(n as nat),
    decreases n,
{
    if n < 10 {
        let r = push_digit(String::new(), n);
        proof {
            assert(r@ =~= dec_rep(n as nat));
        }
        r
    } else {
        let prefix = u64_to_decimal(n / 10);
        push_digit(prefix, n % 10)
    }
}

/// Write `n` in decimal, right-aligned in a field of width three.
pub fn u64_to_decimal_width3(n: u64) -> (r: String)
    ensures
        r@ == right_aligned3(dec_rep(n as nat)),
{
    proof {
        lemma_dec_rep_len(n as nat);
        reveal_strlit("");
        reveal_strlit(" ");
        reveal_strlit("  ");
    }
    let pad: &'static str = if n >= 100 {
        ""
    } else if n >= 10 {
        " "
    } else {
        "  "
    };
    let digits = u64_to_decimal(n);
    let r = pad.to_owned().concat(digits.as_str());
    proof {
        assert(""@ =~= spaces(0));
        assert(" "@ =~= spaces(1));
        assert("  "@ =~= spaces(2));
        assert(r@ =~= right_aligned3(dec_rep(n as nat)));
    }
    r
}

} // verus!
