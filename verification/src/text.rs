//! Decimal rendering and parsing of the plain numbers that the
//! configuration and the status reports use, and comma splitting for the
//! configuration's list values.

use vstd::prelude::*;
use vstd::string::*;

verus! {

/// The decimal digit character for a value below ten.
pub open spec fn digit_char(d: int) -> char {
    if d == 0 {
        '0'
    } else if d == 1 {
        '1'
    } else if d == 2 {
        '2'
    } else if d == 3 {
        '3'
    } else if d == 4 {
        '4'
    } else if d == 5 {
        '5'
    } else if d == 6 {
        '6'
    } else if d == 7 {
        '7'
    } else if d == 8 {
        '8'
    } else {
        '9'
    }
}

/// Decimal rendering of a natural number, most significant digit first.
pub open spec fn dec_str(n: nat) -> Seq<char>
    decreases n,
{
    if n < 10 {
        seq![digit_char(n as int)]
    } else {
        dec_str(n / 10) + seq![digit_char((n % 10) as int)]
    }
}

fn digit_literal(d: u64) -> (s: &'static str)
    requires
        d < 10,
    ensures
        s@ == seq![digit_char(d as int)],
{
    proof {
        reveal_strlit("0");
        reveal_strlit("1");
        reveal_strlit("2");
        reveal_strlit("3");
        reveal_strlit("4");
        reveal_strlit("5");
        reveal_strlit("6");
        reveal_strlit("7");
        reveal_strlit("8");
        reveal_strlit("9");
    }
    let s: &'static str = if d == 0 {
        "0"
    } else if d == 1 {
        "1"
    } else if d == 2 {
        "2"
    } else if d == 3 {
        "3"
    } else if d == 4 {
        "4"
    } else if d == 5 {
        "5"
    } else if d == 6 {
        "6"
    } else if d == 7 {
        "7"
    } else if d == 8 {
        "8"
    } else {
        "9"
    };
    proof {
        assert(s@ =~= seq![digit_char(d as int)]);
    }
    s
}

/// Renders a number in decimal, as the status reports and log lines show it.
pub fn u64_to_dec(n: u64) -> (s: String)
    ensures
        s@ == dec_str(n as nat),
    decreases n,
{
    if n < 10 {
        let s = digit_literal(n);
        s.to_owned()
    } else {
        let mut s = u64_to_dec(n / 10);
        let d = digit_literal(n % 10);
        s.append(d);
        proof {
            assert(s@ =~= dec_str(n as nat));
        }
        s
    }
}

/// A decimal digit character.
pub open spec fn is_digit(c: char) -> bool {
    '0' <= c && c <= '9'
}

/// The value of a decimal digit character.
pub open spec fn digit_val(c: char) -> int {
    c as int - '0' as int
}

/// Every character of the sequence is a decimal digit.
pub open spec fn all_digits(s: Seq<char>) -> bool {
    forall|i: int| 0 <= i < s.len() ==> is_digit(#[trigger] s[i])
}

/// The number a sequence of decimal digits denotes, most significant
/// digit first; an empty sequence denotes zero.
pub open spec fn dec_val(s: Seq<char>) -> int
    decreases s.len(),
{
    if s.len() == 0 {
        0
    } else {
        dec_val(s.drop_last()) * 10 + digit_val(s.last())
    }
}

/// The digit character of a value below ten denotes that value.
proof fn lemma_digit_char_val(d: int)
    requires
        0 <= d < 10,
    ensures
        is_digit(digit_char(d)),
        digit_val(digit_char(d)) == d,
{
}

/// Rendering a number in decimal yields digits that denote the number
/// back: the decimal writer and the decimal parser agree on every
/// value.
pub proof fn lemma_dec_round_trip(n: nat)
    ensures
        dec_str(n).len() > 0,
        all_digits(dec_str(n)),
        dec_val(dec_str(n)) == n,
    decreases n,
{
    if n < 10 {
        lemma_digit_char_val(n as int);
        let s = dec_str(n);
        assert(s.last() == digit_char(n as int));
        assert(s.drop_last() =~= Seq::<char>::empty());
        assert(dec_val(Seq::<char>::empty()) == 0);
        assert(dec_val(s) == dec_val(s.drop_last()) * 10 + digit_val(s.last()));
    } else {
        lemma_dec_round_trip(n / 10);
        lemma_digit_char_val((n % 10) as int);
        let s = dec_str(n);
        let head = dec_str(n / 10);
        assert(s =~= head + seq![digit_char((n % 10) as int)]);
        assert(s.last() == digit_char((n % 10) as int));
        assert(s.drop_last() =~= head);
        assert(dec_val(s) == dec_val(head) * 10 + digit_val(s.last()));
        assert(dec_val(s) == (n / 10) * 10 + (n % 10));
        assert(forall|i: int| 0 <= i < head.len() ==> #[trigger] s[i] == head[i]);
    }
}

/// A nonempty all-digit sequence whose value fits below the bound: what
/// a number field of the configuration must look like.
pub open spec fn dec_parses(s: Seq<char>, max: int) -> bool {
    s.len() > 0 && all_digits(s) && dec_val(s) <= max
}

/// The denoted value of an all-digit sequence is never negative.
pub proof fn lemma_dec_val_nonneg(s: Seq<char>)
    requires
        all_digits(s),
    ensures
        dec_val(s) >= 0,
    decreases s.len(),
{
    if s.len() > 0 {
        assert(all_digits(s.drop_last())) by {
            assert(forall|i: int|
                0 <= i < s.len() - 1 ==> #[trigger] s.drop_last()[i] == s[i]);
        }
        lemma_dec_val_nonneg(s.drop_last());
    }
}

/// Every prefix of an all-digit sequence denotes at most the value of
/// the whole sequence.
pub proof fn lemma_dec_val_prefix_le(s: Seq<char>, i: int)
    requires
        all_digits(s),
        0 <= i <= s.len(),
    ensures
        dec_val(s.subrange(0, i)) <= dec_val(s),
    decreases s.len() - i,
{
    if i < s.len() {
        let t = s.subrange(0, i + 1);
        assert(t.drop_last() =~= s.subrange(0, i));
        assert(all_digits(t)) by {
            assert(forall|j: int| 0 <= j < t.len() ==> #[trigger] t[j] == s[j]);
        }
        assert(all_digits(t.drop_last())) by {
            assert(forall|j: int|
                0 <= j < t.len() - 1 ==> #[trigger] t.drop_last()[j] == t[j]);
        }
        lemma_dec_val_nonneg(t.drop_last());
        assert(dec_val(t) == dec_val(t.drop_last()) * 10 + digit_val(t.last()));
        assert(dec_val(t.drop_last()) * 10 >= dec_val(t.drop_last())) by (nonlinear_arith)
            requires
                dec_val(t.drop_last()) >= 0,
        ;
        assert(dec_val(s.subrange(0, i)) <= dec_val(t));
        lemma_dec_val_prefix_le(s, i + 1);
        assert(s.subrange(0, i + 1) =~= t);
    } else {
        assert(s.subrange(0, i) =~= s);
    }
}

/// Parses a decimal number as the configuration writes them: one or
/// more digit characters and nothing else. Returns the denoted value
/// when it fits in a `u64`; returns nothing for an empty string, a
/// non-digit character, or a value past `u64::MAX`.
pub fn parse_u64(s: &str) -> (r: Option<u64>)
    ensures
        r is Some <==> dec_parses(s@, u64::MAX as int),
        r is Some ==> r->0 as int == dec_val(s@),
{
    let len = s.unicode_len();
    if len == 0 {
        return None;
    }
    let mut n: u64 = 0;
    let mut i: usize = 0;
    while i < len
        invariant
            0 < len == s@.len(),
            0 <= i <= len,
            all_digits(s@.subrange(0, i as int)),
            n as int == dec_val(s@.subrange(0, i as int)),
        decreases len - i,
    {
        let c = s.get_char(i);
        if c < '0' || c > '9' {
            assert(!all_digits(s@));
            return None;
        }
        let d: u64 = (c as u32 as u64) - ('0' as u32 as u64);
        let prefix = Ghost(s@.subrange(0, i as int));
        let prefix2 = Ghost(s@.subrange(0, i + 1 as int));
        proof {
            assert(prefix2@.drop_last() =~= prefix@);
            assert(all_digits(prefix2@)) by {
                assert(forall|j: int|
                    0 <= j < prefix2@.len() ==> #[trigger] prefix2@[j] == s@[j]);
            }
            assert(dec_val(prefix2@) == n * 10 + d);
        }
        if n > (u64::MAX - d) / 10 {
            proof {
                assert(n * 10 + d > u64::MAX) by (nonlinear_arith)
                    requires
                        n > (u64::MAX - d) / 10,
                        0 <= d <= 9,
                ;
                if dec_parses(s@, u64::MAX as int) {
                    lemma_dec_val_prefix_le(s@, i + 1);
                }
            }
            return None;
        }
        proof {
            assert(n * 10 + d <= u64::MAX) by (nonlinear_arith)
                requires
                    n <= (u64::MAX - d) / 10,
                    0 <= d <= 9,
            ;
        }
        n = n * 10 + d;
        i = i + 1;
    }
    proof {
        assert(s@.subrange(0, len as int) =~= s@);
    }
    Some(n)
}

/// Parses a decimal number that must fit in a `u32`: a GPIO line offset.
pub fn parse_u32(s: &str) -> (r: Option<u32>)
    ensures
        r is Some <==> dec_parses(s@, u32::MAX as int),
        r is Some ==> r->0 as int == dec_val(s@),
{
    proof {
        if s@.len() > 0 && all_digits(s@) {
            lemma_dec_val_nonneg(s@);
        }
    }
    match parse_u64(s) {
        Some(n) => {
            if n <= u32::MAX as u64 {
                Some(n as u32)
            } else {
                None
            }
        },
        None => None,
    }
}

/// The comma-separated pieces of the part of a value not yet read,
/// given the piece accumulated so far. Splitting keeps empty pieces: a
/// trailing comma yields a final empty piece, and an empty value is one
/// empty piece.
pub open spec fn split_acc(s: Seq<char>, cur: Seq<char>) -> Seq<Seq<char>>
    decreases s.len(),
{
    if s.len() == 0 {
        seq![cur]
    } else if s[0] == ',' {
        seq![cur] + split_acc(s.drop_first(), Seq::empty())
    } else {
        split_acc(s.drop_first(), cur.push(s[0]))
    }
}

/// The comma-separated pieces of a configuration list value.
pub open spec fn split_commas_spec(s: Seq<char>) -> Seq<Seq<char>> {
    split_acc(s, Seq::empty())
}

/// Splits a configuration list value at every comma, keeping empty
/// pieces.
pub fn split_commas(s: &str) -> (r: Vec<String>)
    ensures
        r@.map_values(|t: String| t@) =~= split_commas_spec(s@),
{
    let len = s.unicode_len();
    let mut r: Vec<String> = Vec::new();
    let mut start: usize = 0;
    let mut i: usize = 0;
    proof {
        assert(s@.subrange(0, len as int) =~= s@);
        assert(s@.subrange(0, 0) =~= Seq::<char>::empty());
        assert(r@.map_values(|t: String| t@) =~= Seq::<Seq<char>>::empty());
        assert(Seq::<Seq<char>>::empty() + split_commas_spec(s@) =~= split_commas_spec(s@));
    }
    while i < len
        invariant
            0 <= start <= i <= len == s@.len(),
            split_commas_spec(s@) =~= r@.map_values(|t: String| t@) + split_acc(
                s@.subrange(i as int, len as int),
                s@.subrange(start as int, i as int),
            ),
        decreases len - i,
    {
        let c = s.get_char(i);
        let ghost suffix = s@.subrange(i as int, len as int);
        let ghost cur = s@.subrange(start as int, i as int);
        proof {
            assert(suffix[0] == s@[i as int]);
            assert(suffix.drop_first() =~= s@.subrange(i + 1 as int, len as int));
        }
        if c == ',' {
            let piece = s.substring_char(start, i).to_owned();
            proof {
                assert(split_acc(suffix, cur) =~= seq![cur] + split_acc(
                    suffix.drop_first(),
                    Seq::empty(),
                ));
                assert(r@.push(piece).map_values(|t: String| t@) =~= r@.map_values(
                    |t: String| t@,
                ).push(piece@));
                assert(s@.subrange(i + 1 as int, i + 1 as int) =~= Seq::<char>::empty());
            }
            r.push(piece);
            start = i + 1;
        } else {
            proof {
                assert(split_acc(suffix, cur) =~= split_acc(suffix.drop_first(), cur.push(s@[i as int])));
                assert(cur.push(s@[i as int]) =~= s@.subrange(start as int, i + 1 as int));
            }
        }
        i = i + 1;
    }
    let piece = s.substring_char(start, len).to_owned();
    proof {
        assert(s@.subrange(len as int, len as int) =~= Seq::<char>::empty());
        assert(split_acc(Seq::empty(), s@.subrange(start as int, len as int)) =~= seq![
            s@.subrange(start as int, len as int),
        ]);
        assert(r@.push(piece).map_values(|t: String| t@) =~= r@.map_values(|t: String| t@).push(
            piece@,
        ));
    }
    r.push(piece);
    r
}

} // verus!
