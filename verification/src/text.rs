//! Text forms used on the wire: decimal integers, hyphenated UUIDs,
//! comma-joined lists and lossy UTF-8 decoding.

use vstd::prelude::*;
use vstd::arithmetic::power2::pow2;
use vstd::string::*;
use vstd::utf8::{decode_utf8, valid_utf8};

verus! {

/// The ASCII digit for `d`, which is expected in `0..10`.
pub open spec fn digit_char(d: nat) -> char {
    (48 + d) as char
}

/// The decimal representation of `n`, without sign or leading zeros.
pub open spec fn decimal_digits(n: nat) -> Seq<char>
    decreases n,
{
    if n < 10 {
        seq![digit_char(n)]
    } else {
        decimal_digits(n / 10).push(digit_char(n % 10))
    }
}

/// The number that a string of ASCII digits denotes.
pub open spec fn decimal_value(s: Seq<char>) -> int
    decreases s.len(),
{
    if s.len() == 0 {
        0
    } else {
        decimal_value(s.drop_last()) * 10 + (s.last() as int - 48)
    }
}

/// Every character of `s` is an ASCII digit.
pub open spec fn all_digits(s: Seq<char>) -> bool {
    forall|i: int| 0 <= i < s.len() ==> 48 <= #[trigger] (s[i] as int) < 58
}

fn digit_str(d: u64) -> (r: &'static str)
    requires
        d < 10,
    ensures
        r@ == seq![digit_char(d as nat)],
{
    proof {
        reveal_strlit("0");
        reveal_strlit("1");
        reveal_strlit("2");
        reveal_strlit("3");
        reveal_strlit("4");
        reveal_strlit("5");
        reveal_strlit("6");
        reveal_strlit("7");
        reveal_strlit("8");
        reveal_strlit("9");
    }
    match d {
        0 => "0",
        1 => "1",
        2 => "2",
        3 => "3",
        4 => "4",
        5 => "5",
        6 => "6",
        7 => "7",
        8 => "8",
        _ => "9",
    }
}

/// Formats `n` in decimal, as `u64`'s `Display` does.
pub fn decimal_text(n: u64) -> (s: String)
    ensures
        s@ == decimal_digits(n as nat),
    decreases n,
{
    if n < 10 {
        String::from_str(digit_str(n))
    } else {
        let mut s = decimal_text(n / 10);
        s.append(digit_str(n % 10));
        s
    }
}

/// Decimal text is made of digits, starts with a non-zero digit unless it is
/// "0", and reads back as the number it was made from.
pub proof fn lemma_decimal_round_trip(n: nat)
    ensures
        all_digits(decimal_digits(n)),
        decimal_value(decimal_digits(n)) == n,
        decimal_digits(n).len() >= 1,
        decimal_digits(n)[0] == '0' ==> n == 0,
    decreases n,
{
    if n < 10 {
        assert(decimal_digits(n).drop_last() =~= Seq::<char>::empty());
        assert(decimal_value(Seq::<char>::empty()) == 0);
    } else {
        lemma_decimal_round_trip(n / 10);
        let s = decimal_digits(n);
        assert(s.drop_last() =~= decimal_digits(n / 10));
        assert(decimal_digits(n / 10)[0] == s[0]);
        assert(s.last() as int == 48 + n % 10);
        assert(n == (n / 10) * 10 + n % 10);
    }
}

/// Different numbers have different decimal texts.
pub proof fn lemma_decimal_injective(m: nat, n: nat)
    requires
        decimal_digits(m) == decimal_digits(n),
    ensures
        m == n,
{
    lemma_decimal_round_trip(m);
    lemma_decimal_round_trip(n);
}

/// The lower-case hexadecimal digit for `d`, which is expected in `0..16`.
pub open spec fn hex_digit(d: int) -> char {
    if d < 10 {
        (48 + d) as char
    } else {
        (87 + d) as char
    }
}

/// The `k`-th hexadecimal digit of `v`, counting from the most significant
/// of its 32 digits.
pub open spec fn nibble_at(v: u128, k: int) -> int {
    (v as int / pow2((4 * (31 - k)) as nat) as int) % 16
}

/// Number of hyphens that precede position `i` of a hyphenated UUID.
pub open spec fn hyphens_before(i: int) -> int {
    if i < 9 {
        0
    } else if i < 14 {
        1
    } else if i < 19 {
        2
    } else if i < 24 {
        3
    } else {
        4
    }
}

/// The hyphenated lower-case form of the UUID whose big-endian value is `v`:
/// 32 hexadecimal digits in groups of 8, 4, 4, 4 and 12, separated by '-'.
pub open spec fn uuid_hyphenated(v: u128) -> Seq<char> {
    Seq::new(
        36,
        |i: int|
            if i == 8 || i == 13 || i == 18 || i == 23 {
                '-'
            } else {
                hex_digit(nibble_at(v, i - hyphens_before(i)))
            },
    )
}

/// Calls `uuid::Uuid::from_u128` and the `Display` impl of `uuid::Uuid`.
/// Trusted: the text is the hyphenated lower-case form of the value, as the
/// crate documents `Display` (it formats through `LowerHex` of the hyphenated
/// form) and `from_u128` (big-endian byte order).
#[verifier::external_body]
pub(crate) fn uuid_text(value: u128) -> (s: String)
    ensures
        s@ == uuid_hyphenated(value),
{
    uuid::Uuid::from_u128(value).to_string()
}

/// What `String::from_utf8_lossy` makes of a byte string.
pub uninterp spec fn utf8_lossy(bytes: Seq<u8>) -> Seq<char>;

/// Calls `String::from_utf8_lossy` and takes the owned text.
/// Trusted: the result is a function of the bytes alone, and on valid UTF-8
/// it is the decoded text, as std documents.
#[verifier::external_body]
pub(crate) fn lossy_text(bytes: &[u8]) -> (s: String)
    ensures
        s@ == utf8_lossy(bytes@),
        valid_utf8(bytes@) ==> s@ == decode_utf8(bytes@),
{
    String::from_utf8_lossy(bytes).into_owned()
}

/// The texts in `parts`, in order, with `sep` between each two of them.
pub open spec fn join_texts(parts: Seq<Seq<char>>, sep: Seq<char>) -> Seq<char>
    decreases parts.len(),
{
    if parts.len() == 0 {
        Seq::empty()
    } else if parts.len() == 1 {
        parts[0]
    } else {
        join_texts(parts.drop_last(), sep) + sep + parts.last()
    }
}

/// The pieces of `s` between occurrences of `sep`, in order; a text without
/// `sep` is one piece.
pub open spec fn split_text(s: Seq<char>, sep: char) -> Seq<Seq<char>>
    decreases s.len(),
{
    if s.len() == 0 {
        seq![Seq::empty()]
    } else {
        let rest = split_text(s.drop_last(), sep);
        if s.last() == sep {
            rest.push(Seq::empty())
        } else {
            rest.update(rest.len() - 1, rest.last().push(s.last()))
        }
    }
}

proof fn lemma_split_len(s: Seq<char>, sep: char)
    ensures
        split_text(s, sep).len() >= 1,
    decreases s.len(),
{
    if s.len() > 0 {
        lemma_split_len(s.drop_last(), sep);
    }
}

proof fn lemma_split_append_plain(x: Seq<char>, b: Seq<char>, sep: char)
    requires
        !b.contains(sep),
    ensures
        split_text(x + b, sep) == split_text(x, sep).update(
            split_text(x, sep).len() - 1,
            split_text(x, sep).last() + b,
        ),
    decreases b.len(),
{
    lemma_split_len(x, sep);
    let sx = split_text(x, sep);
    if b.len() == 0 {
        assert(x + b =~= x);
        assert(sx.last() + b =~= sx.last());
        assert(sx.update(sx.len() - 1, sx.last() + b) =~= sx);
    } else {
        let b2 = b.drop_last();
        assert(!b2.contains(sep)) by {
            if b2.contains(sep) {
                let i = choose|i: int| 0 <= i < b2.len() && b2[i] == sep;
                assert(b[i] == sep);
            }
        }
        lemma_split_append_plain(x, b2, sep);
        assert((x + b).drop_last() =~= x + b2);
        assert(b.last() != sep) by {
            assert(b[b.len() - 1] == b.last());
        }
        assert((sx.last() + b2).push(b.last()) =~= sx.last() + b);
        assert(split_text(x + b, sep) =~= sx.update(sx.len() - 1, sx.last() + b));
    }
}

/// Splitting a joined list at the separator gives the list back, when the
/// list is not empty and no text in it holds the separator.
pub proof fn lemma_split_join(parts: Seq<Seq<char>>, sep: char)
    requires
        parts.len() >= 1,
        forall|i: int| 0 <= i < parts.len() ==> !(#[trigger] parts[i]).contains(sep),
    ensures
        split_text(join_texts(parts, seq![sep]), sep) == parts,
    decreases parts.len(),
{
    if parts.len() == 1 {
        lemma_split_append_plain(Seq::empty(), parts[0], sep);
        assert(Seq::<char>::empty() + parts[0] =~= parts[0]);
        assert(split_text(Seq::<char>::empty(), sep) =~= seq![Seq::<char>::empty()]);
        assert(split_text(parts[0], sep) =~= parts);
    } else {
        let init = parts.drop_last();
        assert forall|i: int| 0 <= i < init.len() implies !(#[trigger] init[i]).contains(sep) by {
            assert(init[i] == parts[i]);
        }
        lemma_split_join(init, sep);
        let j = join_texts(init, seq![sep]);
        let js = j + seq![sep];
        assert(js.drop_last() =~= j);
        assert(split_text(js, sep) == parts.drop_last().push(Seq::empty()));
        assert(!parts.last().contains(sep)) by {
            assert(parts[parts.len() - 1] == parts.last());
        }
        lemma_split_append_plain(js, parts.last(), sep);
        assert(Seq::<char>::empty() + parts.last() =~= parts.last());
        assert(parts.drop_last().push(Seq::empty()).update(parts.len() - 1, parts.last())
            =~= parts);
    }
}

} // verus!
