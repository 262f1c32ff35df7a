//! Decimal text: rendering unsigned integers, and recognising the plain
//! decimal numerals that may stand as a JSON number in the wire format.

use vstd::prelude::*;
use vstd::string::*;

verus! {

/// The character for one decimal digit.
pub open spec fn digit_char(d: nat) -> char {
    if d == 0 {
        '0'
    } else if d == 1 {
        '1'
    } else if d == 2 {
        '2'
    } else if d == 3 {
        '3'
    } else if d == 4 {
        '4'
    } else if d == 5 {
        '5'
    } else if d == 6 {
        '6'
    } else if d == 7 {
        '7'
    } else if d == 8 {
        '8'
    } else {
        '9'
    }
}

/// The decimal numeral for n, most significant digit first, no leading
/// zeros (the numeral for 0 is "0").
pub open spec fn dec_rep(n: nat) -> Seq<char>
    decreases n,
{
    if n < 10 {
        seq![digit_char(n)]
    } else {
        dec_rep(n / 10) + seq![digit_char(n % 10)]
    }
}

/// The decimal numeral for n modulo 10^width, zero-padded to exactly
/// `width` digits.
pub open spec fn dec_fixed(n: nat, width: nat) -> Seq<char>
    decreases width,
{
    if width == 0 {
        Seq::<char>::empty()
    } else {
        dec_fixed(n / 10, (width - 1) as nat) + seq![digit_char(n % 10)]
    }
}

fn digit_text(d: u64) -> (r: &'static str)
    requires
        d < 10,
    ensures
        r@ == seq![digit_char(d as nat)],
{
    let r: &'static str = match d {
        0 => "0",
        1 => "1",
        2 => "2",
        3 => "3",
        4 => "4",
        5 => "5",
        6 => "6",
        7 => "7",
        8 => "8",
        _ => "9",
    };
    proof {
        reveal_strlit("0");
        reveal_strlit("1");
        reveal_strlit("2");
        reveal_strlit("3");
        reveal_strlit("4");
        reveal_strlit("5");
        reveal_strlit("6");
        reveal_strlit("7");
        reveal_strlit("8");
        reveal_strlit("9");
        assert(r@ =~= seq![digit_char(d as nat)]);
    }
    r
}

/// Appends the decimal numeral of `n` to `out`.
pub fn push_u64(out: &mut String, n: u64)
    ensures
        final(out)@ == old(out)@ + dec_rep(n as nat),
    decreases n,
{
    if n >= 10 {
        push_u64(out, n / 10);
        let d = digit_text(n % 10);
        out.append(d);
        proof {
            assert(out@ =~= old(out)@ + dec_rep(n as nat));
        }
    } else {
        let d = digit_text(n);
        out.append(d);
        proof {
            assert(out@ =~= old(out)@ + dec_rep(n as nat));
        }
    }
}

/// Appends exactly `width` decimal digits of `n` (modulo 10^width) to
/// `out`, zero-padded on the left.
pub fn push_u64_fixed(out: &mut String, n: u64, width: u64)
    ensures
        final(out)@ == old(out)@ + dec_fixed(n as nat, width as nat),
    decreases width,
{
    if width > 0 {
        push_u64_fixed(out, n / 10, width - 1);
        let d = digit_text(n % 10);
        out.append(d);
        proof {
            assert(out@ =~= old(out)@ + dec_fixed(n as nat, width as nat));
        }
    }
}

/// Every character is a decimal digit, and there is at least one.
pub open spec fn all_digits(s: Seq<char>) -> bool {
    s.len() > 0 && forall|i: int| 0 <= i < s.len() ==> '0' <= #[trigger] s[i] <= '9'
}

/// A digit run that carries no superfluous leading zero.
pub open spec fn int_digits(s: Seq<char>) -> bool {
    all_digits(s) && (s.len() > 1 ==> s[0] != '0')
}

/// An unsigned plain decimal numeral: an integer part, optionally
/// followed by a dot and a fractional digit run.
pub open spec fn unsigned_number_text(s: Seq<char>) -> bool {
    int_digits(s) || (exists|k: int|
        0 <= k < s.len() && #[trigger] s[k] == '.' && int_digits(s.take(k)) && all_digits(
            s.skip(k + 1),
        ))
}

/// A plain decimal numeral, optionally signed: exactly the texts this
/// library splices into its wire format as a JSON number.
pub open spec fn number_text(s: Seq<char>) -> bool {
    if s.len() > 0 && s[0] == '-' {
        unsigned_number_text(s.skip(1))
    } else {
        unsigned_number_text(s)
    }
}

fn check_digit_range(s: &str, from: usize, to: usize) -> (b: bool)
    requires
        from <= to <= s@.len(),
    ensures
        b == all_digits(s@.subrange(from as int, to as int)),
{
    if from == to {
        return false;
    }
    let mut i: usize = from;
    while i < to
        invariant
            from <= i <= to <= s@.len(),
            forall|j: int| from <= j < i ==> '0' <= #[trigger] s@[j] <= '9',
        decreases to - i,
    {
        let c = s.get_char(i);
        if c < '0' || c > '9' {
            assert(!all_digits(s@.subrange(from as int, to as int))) by {
                assert(s@.subrange(from as int, to as int)[i - from] == s@[i as int]);
            }
            return false;
        }
        i += 1;
    }
    assert(all_digits(s@.subrange(from as int, to as int))) by {
        assert forall|j: int| 0 <= j < to - from implies '0' <= #[trigger] s@.subrange(
            from as int,
            to as int,
        )[j] <= '9' by {
            assert(s@.subrange(from as int, to as int)[j] == s@[from + j]);
        }
    }
    true
}

fn check_int_range(s: &str, from: usize, to: usize) -> (b: bool)
    requires
        from <= to <= s@.len(),
    ensures
        b == int_digits(s@.subrange(from as int, to as int)),
{
    if !check_digit_range(s, from, to) {
        return false;
    }
    if to - from > 1 && s.get_char(from) == '0' {
        assert(s@.subrange(from as int, to as int)[0] == s@[from as int]);
        return false;
    }
    assert(s@.subrange(from as int, to as int)[0] == s@[from as int]);
    true
}

/// Decides whether `s` is a plain decimal numeral acceptable in the
/// wire format.
pub fn check_number_text(s: &str) -> (b: bool)
    ensures
        b == number_text(s@),
{
    let n = s.unicode_len();
    if n == 0 {
        return false;
    }
    let start: usize = if s.get_char(0) == '-' {
        1
    } else {
        0
    };
    let ghost t: Seq<char> = s@.subrange(start as int, n as int);
    proof {
        if start == 1 {
            assert(t =~= s@.skip(1));
        } else {
            assert(t =~= s@);
        }
    }
    // find the first dot at or after `start`
    let mut i: usize = start;
    let mut dot: usize = n;
    while i < n
        invariant_except_break
            dot == n,
        invariant
            start <= i <= n == s@.len(),
            forall|j: int| start <= j < i ==> #[trigger] s@[j] != '.',
        ensures
            if dot == n {
                forall|j: int| start <= j < n ==> #[trigger] s@[j] != '.'
            } else {
                start <= dot < n && s@[dot as int] == '.' && forall|j: int|
                    start <= j < dot ==> #[trigger] s@[j] != '.'
            },
        decreases n - i,
    {
        if s.get_char(i) == '.' {
            dot = i;
            break ;
        }
        i += 1;
    }
    if dot == n {
        // no dot: the whole of t must be an integer numeral
        let b = check_int_range(s, start, n);
        proof {
            assert forall|k: int| 0 <= k < t.len() implies #[trigger] t[k] != '.' by {
                assert(t[k] == s@[start + k]);
            }
            if !b {
                assert forall|k: int|
                    !(0 <= k < t.len() && #[trigger] t[k] == '.' && int_digits(t.take(k))
                        && all_digits(t.skip(k + 1))) by {}
                assert(!unsigned_number_text(t));
            }
        }
        return b;
    }
    // dot is the first '.' in t
    let ghost kd: int = dot - start;
    assert(t[kd] == '.');
    let head_ok = check_int_range(s, start, dot);
    let tail_ok = if dot + 1 <= n {
        check_digit_range(s, dot + 1, n)
    } else {
        false
    };
    let b = head_ok && tail_ok;
    proof {
        assert(t.take(kd) =~= s@.subrange(start as int, dot as int));
        assert(t.skip(kd + 1) =~= s@.subrange(dot + 1 as int, n as int));
        if b {
            assert(unsigned_number_text(t));
        } else {
            // t holds a dot, so it is no bare integer numeral
            assert(!int_digits(t)) by {
                if all_digits(t) {
                    assert('0' <= t[kd] <= '9');
                }
            }
            // and no other dot position can satisfy the split form
            assert forall|k: int|
                !(0 <= k < t.len() && #[trigger] t[k] == '.' && int_digits(t.take(k))
                    && all_digits(t.skip(k + 1))) by {
                if 0 <= k < t.len() && t[k] == '.' && int_digits(t.take(k)) && all_digits(
                    t.skip(k + 1),
                ) {
                    if k < kd {
                        assert(s@[start + k] == t[k]);
                    } else if k > kd {
                        assert(t.take(k)[kd] == '.');
                        assert('0' <= t.take(k)[kd] <= '9');
                    } else {
                        assert(!b);
                    }
                }
            }
            assert(!unsigned_number_text(t));
        }
    }
    b
}

} // verus!
