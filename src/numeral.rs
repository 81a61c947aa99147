use vstd::prelude::*;

verus! {

/// The decimal digit character for `d` (`d < 10`).
pub open spec fn digit_char(d: nat) -> char {
    if d == 0 {
        '0'
    } else if d == 1 {
        '1'
    } else if d == 2 {
        '2'
    } else if d == 3 {
        '3'
    } else if d == 4 {
        '4'
    } else if d == 5 {
        '5'
    } else if d == 6 {
        '6'
    } else if d == 7 {
        '7'
    } else if d == 8 {
        '8'
    } else {
        '9'
    }
}

/// Canonical decimal spelling of a natural number: no sign, no leading zero.
pub open spec fn nat_text(n: nat) -> Seq<char>
    decreases n,
{
    if n < 10 {
        seq![digit_char(n)]
    } else {
        nat_text(n / 10) + seq![digit_char(n % 10)]
    }
}

/// Canonical decimal spelling of an integer: a `-` before the magnitude of a negative one.
pub open spec fn int_text(v: int) -> Seq<char> {
    if v < 0 {
        seq!['-'] + nat_text((-v) as nat)
    } else {
        nat_text(v as nat)
    }
}

pub open spec fn is_digit(c: char) -> bool {
    '0' <= c && c <= '9'
}

pub open spec fn all_digits(s: Seq<char>) -> bool {
    forall|i: int| 0 <= i < s.len() ==> is_digit(#[trigger] s[i])
}

/// Value of a run of decimal digits, most significant first.
pub open spec fn digits_value(s: Seq<char>) -> nat
    decreases s.len(),
{
    if s.len() == 0 {
        0
    } else {
        digits_value(s.drop_last()) * 10 + ((s.last() as int - '0' as int) as nat)
    }
}

/// The integer a numeric literal denotes: an optional `-`, then one or more decimal digits.
pub open spec fn numeral_value(s: Seq<char>) -> Option<int> {
    if s.len() > 0 && s[0] == '-' {
        let d = s.drop_first();
        if d.len() > 0 && all_digits(d) {
            Some(-(digits_value(d) as int))
        } else {
            None
        }
    } else if s.len() > 0 && all_digits(s) {
        Some(digits_value(s) as int)
    } else {
        None
    }
}

/// The immediate that a text stands for: a numeric literal whose value fits in `i64`.
pub open spec fn immediate_value(s: Seq<char>) -> Option<int> {
    match numeral_value(s) {
        Some(v) => if i64::MIN <= v <= i64::MAX {
            Some(v)
        } else {
            None
        },
        None => None,
    }
}

fn digit_str(d: u64) -> (r: &'static str)
    requires
        d < 10,
    ensures
        r@ == seq![digit_char(d as nat)],
{
    if d == 0 {
        proof { reveal_strlit("0"); }
        "0"
    } else if d == 1 {
        proof { reveal_strlit("1"); }
        "1"
    } else if d == 2 {
        proof { reveal_strlit("2"); }
        "2"
    } else if d == 3 {
        proof { reveal_strlit("3"); }
        "3"
    } else if d == 4 {
        proof { reveal_strlit("4"); }
        "4"
    } else if d == 5 {
        proof { reveal_strlit("5"); }
        "5"
    } else if d == 6 {
        proof { reveal_strlit("6"); }
        "6"
    } else if d == 7 {
        proof { reveal_strlit("7"); }
        "7"
    } else if d == 8 {
        proof { reveal_strlit("8"); }
        "8"
    } else {
        proof { reveal_strlit("9"); }
        "9"
    }
}

/// Appends the decimal spelling of `n` to `out`.
pub fn push_nat(out: &mut std::string::String, n: u64)
    ensures
        final(out)@ == old(out)@ + nat_text(n as nat),
    decreases n,
{
    if n >= 10 {
        push_nat(out, n / 10);
    }
    out.append(digit_str(n % 10));
    assert(final(out)@ =~= old(out)@ + nat_text(n as nat));
}

/// Decimal spelling of a natural number.
pub fn nat_to_text(n: u64) -> (r: std::string::String)
    ensures
        r@ == nat_text(n as nat),
{
    let mut out = std::string::String::new();
    push_nat(&mut out, n);
    assert(out@ =~= nat_text(n as nat));
    out
}

/// Decimal spelling of an integer, with a leading `-` when it is negative.
pub fn int_to_text(v: i64) -> (r: std::string::String)
    ensures
        r@ == int_text(v as int),
{
    let mut out = std::string::String::new();
    if v < 0 {
        proof { reveal_strlit("-"); }
        out.append("-");
        let magnitude: u64 = if v == i64::MIN {
            9223372036854775808u64
        } else {
            (-v) as u64
        };
        push_nat(&mut out, magnitude);
    } else {
        push_nat(&mut out, v as u64);
    }
    assert(out@ =~= int_text(v as int));
    out
}

proof fn lemma_digits_value_grows(s: Seq<char>, i: int)
    requires
        0 <= i <= s.len(),
        all_digits(s),
    ensures
        digits_value(s.take(i)) <= digits_value(s),
    decreases s.len() - i,
{
    if i < s.len() {
        lemma_digits_value_grows(s, i + 1);
        assert(s.take(i + 1).drop_last() =~= s.take(i));
        assert(is_digit(s[i]));
    } else {
        assert(s.take(i) =~= s);
    }
}

proof fn lemma_nat_text_digits(n: nat)
    ensures
        nat_text(n).len() >= 1,
        all_digits(nat_text(n)),
        digits_value(nat_text(n)) == n,
    decreases n,
{
    if n >= 10 {
        lemma_nat_text_digits(n / 10);
        let s = nat_text(n);
        assert(s.drop_last() =~= nat_text(n / 10));
        let d = (n % 10) as nat;
        assert(is_digit(digit_char(d)) && digit_char(d) as int - '0' as int == d);
        assert(s.last() == digit_char(d));
        assert((n / 10) * 10 + d == n);
        assert(digits_value(s) == digits_value(s.drop_last()) * 10 + d);
        assert forall|i: int| 0 <= i < s.len() implies is_digit(#[trigger] s[i]) by {
            if i < s.len() - 1 {
                assert(s[i] == nat_text(n / 10)[i]);
            }
        }
    } else {
        assert(is_digit(digit_char(n)) && digit_char(n) as int - '0' as int == n);
        let s = nat_text(n);
        assert(s.drop_last() =~= Seq::<char>::empty());
        assert(digits_value(s.drop_last()) == 0);
        assert(s.last() == digit_char(n));
    }
}

/// Reading back the canonical spelling of an integer gives the integer.
pub proof fn lemma_immediate_round_trip(v: i64)
    ensures
        immediate_value(int_text(v as int)) == Some(v as int),
{
    if v < 0 {
        let m = (-(v as int)) as nat;
        lemma_nat_text_digits(m);
        assert(int_text(v as int).drop_first() =~= nat_text(m));
    } else {
        lemma_nat_text_digits(v as nat);
        assert(is_digit(nat_text(v as nat)[0]));
    }
}

/// Reads the immediate that `s` spells, if any.
pub fn parse_immediate(s: &str) -> (r: Option<i64>)
    ensures
        r matches Some(v) ==> immediate_value(s@) == Some(v as int),
        r is None ==> immediate_value(s@) is None,
{
    let len = s.unicode_len();
    if len == 0 {
        return None;
    }
    let negative = s.get_char(0) == '-';
    let start: usize = if negative { 1 } else { 0 };
    if start >= len {
        return None;
    }
    let ghost d = s@.subrange(start as int, len as int);
    proof {
        if negative {
            assert(s@.drop_first() =~= d);
        } else {
            assert(s@ =~= d);
        }
    }
    let mut acc: u64 = 0;
    let mut i: usize = start;
    while i < len
        invariant
            start <= i <= len,
            len == s@.len(),
            d == s@.subrange(start as int, len as int),
            all_digits(d.take(i - start)),
            acc as nat == digits_value(d.take(i - start)),
            negative ==> s@[0] == '-' && s@.drop_first() == d,
            !negative ==> s@[0] != '-' && s@ == d,
        decreases len - i,
    {
        let c = s.get_char(i);
        if c < '0' || c > '9' {
            assert(!is_digit(d[i - start]));
            assert(!all_digits(d));
            return None;
        }
        let dv: u64 = (c as u32 - '0' as u32) as u64;
        assert(d.take(i - start + 1).drop_last() =~= d.take(i - start));
        if acc > 922337203685477580u64 {
            // the digits read so far already spell more than any i64 magnitude
            proof {
                if all_digits(d) {
                    lemma_digits_value_grows(d, i - start + 1);
                    assert(acc * 10 > 9223372036854775808u64) by (nonlinear_arith)
                        requires
                            acc > 922337203685477580u64,
                    ;
                }
            }
            return None;
        }
        acc = acc * 10 + dv;
        i = i + 1;
    }
    assert(d.take(len - start) =~= d);
    if negative {
        if acc > 9223372036854775808u64 {
            None
        } else if acc == 9223372036854775808u64 {
            Some(i64::MIN)
        } else {
            Some(-(acc as i64))
        }
    } else {
        if acc > 9223372036854775807u64 {
            None
        } else {
            Some(acc as i64)
        }
    }
}

} // verus!
