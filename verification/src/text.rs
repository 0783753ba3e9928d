//! Plain-text utilities: upper-casing, whitespace tokenizing, comma
//! splitting, trimming, and decimal integers read from and written to text.
//!
//! Every function is executable and verified against a specification-level
//! model of the same operation, so the grammar of the command language can be
//! stated exactly in the contracts of the parsing functions.

use vstd::prelude::*;
use vstd::string::StrSliceExecFns;
use vstd::string::StringExecFns;

verus! {

/// The whitespace characters that separate tokens on a command line.
pub open spec fn spec_is_space(c: char) -> bool {
    c == ' ' || c == '\t' || c == '\n' || c == '\r'
}

/// Whether `c` separates tokens on a command line.
pub fn is_space(c: char) -> (r: bool)
    ensures
        r == spec_is_space(c),
{
    c == ' ' || c == '\t' || c == '\n' || c == '\r'
}

/// A lower-case ASCII letter mapped to its upper-case form; any other
/// character is left as it is.
pub open spec fn spec_upper(c: char) -> char {
    if 'a' <= c && c <= 'z' {
        (((c as u32) - 32) as char)
    } else {
        c
    }
}

/// A whole sequence of characters upper-cased letter by letter.
pub open spec fn spec_upper_seq(s: Seq<char>) -> Seq<char> {
    s.map_values(|c: char| spec_upper(c))
}

/// Upper-cases one character.
pub fn to_upper(c: char) -> (r: char)
    ensures
        r == spec_upper(c),
{
    if 'a' <= c && c <= 'z' {
        let b: u8 = (c as u8) - 32;
        b as char
    } else {
        c
    }
}

/// The characters of `s`, in order, as a vector.
pub fn chars_of(s: &str) -> (r: Vec<char>)
    ensures
        r@ == s@,
{
    let n = s.unicode_len();
    let mut r: Vec<char> = Vec::new();
    let mut i: usize = 0;
    while i < n
        invariant
            n == s@.len(),
            i <= n,
            r@ == s@.take(i as int),
        decreases n - i,
    {
        r.push(s.get_char(i));
        i = i + 1;
        proof {
            assert(r@ =~= s@.take(i as int));
        }
    }
    proof {
        assert(r@ =~= s@);
    }
    r
}

/// A copy of `v` with every character upper-cased.
pub fn upper_chars(v: &Vec<char>) -> (r: Vec<char>)
    ensures
        r@ == spec_upper_seq(v@),
{
    let mut r: Vec<char> = Vec::new();
    let mut i: usize = 0;
    while i < v.len()
        invariant
            i <= v@.len(),
            r@ == spec_upper_seq(v@.take(i as int)),
        decreases v@.len() - i,
    {
        r.push(to_upper(v[i]));
        i = i + 1;
        proof {
            assert(r@ =~= spec_upper_seq(v@.take(i as int)));
        }
    }
    proof {
        assert(v@.take(v@.len() as int) =~= v@);
    }
    r
}

/// Whether the characters of `v` spell exactly the text `s`.
pub fn eq_str(v: &Vec<char>, s: &str) -> (r: bool)
    ensures
        r == (v@ == s@),
{
    let n = s.unicode_len();
    if v.len() != n {
        return false;
    }
    let mut i: usize = 0;
    while i < n
        invariant
            i <= n,
            n == s@.len(),
            v@.len() == n,
            forall|j: int| 0 <= j < i ==> v@[j] == s@[j],
        decreases n - i,
    {
        if v[i] != s.get_char(i) {
            return false;
        }
        i = i + 1;
    }
    proof {
        assert(v@ =~= s@);
    }
    true
}

/// Splitting on whitespace, one character at a time: `cur` is the token being
/// read and `acc` the tokens already read. Tokens are maximal runs of
/// non-whitespace characters; no token is empty.
pub open spec fn split_ws_rec(s: Seq<char>, cur: Seq<char>, acc: Seq<Seq<char>>) -> Seq<Seq<char>>
    decreases s.len(),
{
    if s.len() == 0 {
        if cur.len() == 0 {
            acc
        } else {
            acc.push(cur)
        }
    } else if spec_is_space(s[0]) {
        if cur.len() == 0 {
            split_ws_rec(s.drop_first(), Seq::empty(), acc)
        } else {
            split_ws_rec(s.drop_first(), Seq::empty(), acc.push(cur))
        }
    } else {
        split_ws_rec(s.drop_first(), cur.push(s[0]), acc)
    }
}

/// The whitespace-separated tokens of `s`.
pub open spec fn spec_tokens(s: Seq<char>) -> Seq<Seq<char>> {
    split_ws_rec(s, Seq::empty(), Seq::empty())
}

/// The whitespace-separated tokens of `v`, each as its own vector.
pub fn tokenize(v: &Vec<char>) -> (r: Vec<Vec<char>>)
    ensures
        r.deep_view() == spec_tokens(v@),
{
    let mut acc: Vec<Vec<char>> = Vec::new();
    let mut cur: Vec<char> = Vec::new();
    let mut i: usize = 0;
    proof {
        assert(v@.skip(0) =~= v@);
        assert(acc.deep_view() =~= Seq::<Seq<char>>::empty());
    }
    while i < v.len()
        invariant
            i <= v@.len(),
            spec_tokens(v@) == split_ws_rec(v@.skip(i as int), cur@, acc.deep_view()),
        decreases v@.len() - i,
    {
        proof {
            assert(v@.skip(i as int)[0] == v@[i as int]);
            assert(v@.skip(i as int).drop_first() =~= v@.skip(i as int + 1));
        }
        let c = v[i];
        if is_space(c) {
            if cur.len() > 0 {
                let ghost old_acc = acc.deep_view();
                let ghost old_cur = cur@;
                acc.push(cur);
                cur = Vec::new();
                proof {
                    assert(acc.deep_view() =~~= old_acc.push(old_cur));
                }
            } else {
                proof {
                    assert(cur@ =~= Seq::<char>::empty());
                }
            }
        } else {
            cur.push(c);
        }
        i = i + 1;
    }
    proof {
        assert(v@.skip(v@.len() as int) =~= Seq::<char>::empty());
    }
    if cur.len() > 0 {
        let ghost old_acc = acc.deep_view();
        let ghost old_cur = cur@;
        acc.push(cur);
        proof {
            assert(acc.deep_view() =~~= old_acc.push(old_cur));
        }
    }
    acc
}

/// Splitting on commas, one character at a time: unlike whitespace
/// tokenizing, commas delimit fields rather than separate them, so empty
/// fields are kept and the final field is always pushed. The empty text
/// yields one empty field.
pub open spec fn split_comma_rec(s: Seq<char>, cur: Seq<char>, acc: Seq<Seq<char>>) -> Seq<
    Seq<char>,
>
    decreases s.len(),
{
    if s.len() == 0 {
        acc.push(cur)
    } else if s[0] == ',' {
        split_comma_rec(s.drop_first(), Seq::empty(), acc.push(cur))
    } else {
        split_comma_rec(s.drop_first(), cur.push(s[0]), acc)
    }
}

/// The comma-delimited fields of `s`.
pub open spec fn spec_fields(s: Seq<char>) -> Seq<Seq<char>> {
    split_comma_rec(s, Seq::empty(), Seq::empty())
}

/// The comma-delimited fields of `v`, each as its own vector.
pub fn split_fields(v: &Vec<char>) -> (r: Vec<Vec<char>>)
    ensures
        r.deep_view() == spec_fields(v@),
{
    let mut acc: Vec<Vec<char>> = Vec::new();
    let mut cur: Vec<char> = Vec::new();
    let mut i: usize = 0;
    proof {
        assert(v@.skip(0) =~= v@);
        assert(acc.deep_view() =~= Seq::<Seq<char>>::empty());
    }
    while i < v.len()
        invariant
            i <= v@.len(),
            spec_fields(v@) == split_comma_rec(v@.skip(i as int), cur@, acc.deep_view()),
        decreases v@.len() - i,
    {
        proof {
            assert(v@.skip(i as int)[0] == v@[i as int]);
            assert(v@.skip(i as int).drop_first() =~= v@.skip(i as int + 1));
        }
        let c = v[i];
        if c == ',' {
            let ghost old_acc = acc.deep_view();
            let ghost old_cur = cur@;
            acc.push(cur);
            cur = Vec::new();
            proof {
                assert(acc.deep_view() =~~= old_acc.push(old_cur));
            }
        } else {
            cur.push(c);
        }
        i = i + 1;
    }
    proof {
        assert(v@.skip(v@.len() as int) =~= Seq::<char>::empty());
    }
    let ghost old_acc = acc.deep_view();
    let ghost old_cur = cur@;
    acc.push(cur);
    proof {
        assert(acc.deep_view() =~~= old_acc.push(old_cur));
    }
    acc
}

/// `s` without its leading whitespace.
pub open spec fn spec_trim_left(s: Seq<char>) -> Seq<char>
    decreases s.len(),
{
    if s.len() > 0 && spec_is_space(s[0]) {
        spec_trim_left(s.drop_first())
    } else {
        s
    }
}

/// `s` without its trailing whitespace.
pub open spec fn spec_trim_right(s: Seq<char>) -> Seq<char>
    decreases s.len(),
{
    if s.len() > 0 && spec_is_space(s.last()) {
        spec_trim_right(s.drop_last())
    } else {
        s
    }
}

/// `s` without leading or trailing whitespace.
pub open spec fn spec_trim(s: Seq<char>) -> Seq<char> {
    spec_trim_right(spec_trim_left(s))
}

/// Dropping `k` all-whitespace leading characters leaves the left trim alone.
proof fn lemma_trim_left_skip(s: Seq<char>, k: int)
    requires
        0 <= k <= s.len(),
        forall|j: int| 0 <= j < k ==> spec_is_space(s[j]),
    ensures
        spec_trim_left(s) == spec_trim_left(s.skip(k)),
    decreases k,
{
    if k > 0 {
        assert(s.drop_first() =~= s.skip(1));
        lemma_trim_left_skip(s.skip(1), k - 1);
        assert(s.skip(1).skip(k - 1) =~= s.skip(k));
    } else {
        assert(s.skip(0) =~= s);
    }
}

/// Dropping `k` all-whitespace trailing characters leaves the right trim
/// alone.
proof fn lemma_trim_right_take(s: Seq<char>, k: int)
    requires
        0 <= k <= s.len(),
        forall|j: int| k <= j < s.len() ==> spec_is_space(s[j]),
    ensures
        spec_trim_right(s) == spec_trim_right(s.take(k)),
    decreases s.len() - k,
{
    if k < s.len() {
        assert(s.drop_last() =~= s.take(s.len() - 1));
        lemma_trim_right_take(s.take(s.len() - 1), k);
        assert(s.take(s.len() - 1).take(k) =~= s.take(k));
    } else {
        assert(s.take(s.len() as int) =~= s);
    }
}

/// `v` without leading or trailing whitespace.
pub fn trim_chars(v: &Vec<char>) -> (r: Vec<char>)
    ensures
        r@ == spec_trim(v@),
{
    let n = v.len();
    let mut start: usize = 0;
    while start < n && is_space(v[start])
        invariant
            start <= n,
            n == v@.len(),
            forall|j: int| 0 <= j < start ==> spec_is_space(v@[j]),
        decreases n - start,
    {
        start = start + 1;
    }
    proof {
        lemma_trim_left_skip(v@, start as int);
        if start < n {
            assert(spec_trim_left(v@.skip(start as int)) == v@.skip(start as int));
        } else {
            assert(v@.skip(start as int) =~= Seq::<char>::empty());
        }
    }
    // v@.skip(start) is the left-trimmed text.
    let mut end: usize = n;
    while end > start && is_space(v[end - 1])
        invariant
            start <= end <= n,
            n == v@.len(),
            forall|j: int| end <= j < n ==> spec_is_space(v@[j]),
        decreases end,
    {
        end = end - 1;
    }
    proof {
        let left = v@.skip(start as int);
        lemma_trim_right_take(left, end - start);
        assert(left.take(end - start) =~= v@.subrange(start as int, end as int));
        if end > start {
            assert(v@.subrange(start as int, end as int).last() == v@[end - 1]);
            assert(spec_trim_right(v@.subrange(start as int, end as int)) == v@.subrange(
                start as int,
                end as int,
            ));
        } else {
            assert(v@.subrange(start as int, end as int) =~= Seq::<char>::empty());
        }
    }
    let mut r: Vec<char> = Vec::new();
    let mut i: usize = start;
    while i < end
        invariant
            start <= i <= end <= n,
            n == v@.len(),
            r@ == v@.subrange(start as int, i as int),
        decreases end - i,
    {
        r.push(v[i]);
        i = i + 1;
        proof {
            assert(r@ =~= v@.subrange(start as int, i as int));
        }
    }
    r
}

/// A decimal digit.
pub open spec fn spec_is_digit(c: char) -> bool {
    '0' <= c && c <= '9'
}

/// The numeric value of a decimal digit character.
pub open spec fn spec_digit_val(c: char) -> int {
    (c as u32) - ('0' as u32)
}

/// The number spelled by a sequence of decimal digits, most significant
/// first; the empty sequence spells zero.
pub open spec fn spec_digits_val(s: Seq<char>) -> int
    decreases s.len(),
{
    if s.len() == 0 {
        0
    } else {
        spec_digits_val(s.drop_last()) * 10 + spec_digit_val(s.last())
    }
}

/// Every character of `s` is a decimal digit.
pub open spec fn spec_all_digits(s: Seq<char>) -> bool {
    forall|i: int| 0 <= i < s.len() ==> spec_is_digit(s[i])
}

/// `s` without its optional leading sign.
pub open spec fn spec_int_body(s: Seq<char>) -> Seq<char> {
    if s.len() > 0 && (s[0] == '+' || s[0] == '-') {
        s.drop_first()
    } else {
        s
    }
}

/// `s` carries a leading minus sign.
pub open spec fn spec_int_negative(s: Seq<char>) -> bool {
    s.len() > 0 && s[0] == '-'
}

/// The integer spelled by `s`: an optional sign followed by decimal digits.
pub open spec fn spec_i32_val(s: Seq<char>) -> int {
    if spec_int_negative(s) {
        -spec_digits_val(spec_int_body(s))
    } else {
        spec_digits_val(spec_int_body(s))
    }
}

/// `s` spells an integer that fits in an `i32`: an optional `+` or `-`,
/// then at least one decimal digit, with the value in range.
pub open spec fn spec_valid_i32(s: Seq<char>) -> bool {
    let body = spec_int_body(s);
    body.len() > 0 && spec_all_digits(body) && -0x8000_0000 <= spec_i32_val(s) <= 0x7fff_ffff
}

/// A sequence of digits spells a non-negative number.
proof fn lemma_digits_val_nonneg(s: Seq<char>)
    requires
        spec_all_digits(s),
    ensures
        spec_digits_val(s) >= 0,
    decreases s.len(),
{
    if s.len() > 0 {
        lemma_digits_val_nonneg(s.drop_last());
    }
}

/// Digits appended on the right never shrink the number spelled.
proof fn lemma_digits_val_prefix_le(s: Seq<char>, k: int)
    requires
        spec_all_digits(s),
        0 <= k <= s.len(),
    ensures
        spec_digits_val(s.take(k)) <= spec_digits_val(s),
    decreases s.len() - k,
{
    if k < s.len() {
        assert(s.drop_last().take(k) =~= s.take(k));
        lemma_digits_val_prefix_le(s.drop_last(), k);
        lemma_digits_val_nonneg(s.drop_last());
    } else {
        assert(s.take(k) =~= s);
    }
}

/// Reads `v` as a decimal `i32` exactly as the command grammar allows it:
/// an optional sign, then one or more digits, nothing else, and the value
/// in `i32`'s range. Returns `None` on any other text.
pub fn parse_i32_chars(v: &Vec<char>) -> (r: Option<i32>)
    ensures
        spec_valid_i32(v@) ==> (r matches Some(x) && x as int == spec_i32_val(v@)),
        !spec_valid_i32(v@) ==> r is None,
{
    let n = v.len();
    let mut start: usize = 0;
    let mut neg = false;
    if n > 0 && (v[0] == '+' || v[0] == '-') {
        neg = v[0] == '-';
        start = 1;
        proof {
            assert(v@.skip(1) =~= spec_int_body(v@));
        }
    } else {
        proof {
            assert(v@.skip(0) =~= spec_int_body(v@));
        }
    }
    if start == n {
        return None;
    }
    let limit: u64 = if neg {
        2147483648
    } else {
        2147483647
    };
    let mut acc: u64 = 0;
    let mut i: usize = start;
    proof {
        assert(v@.subrange(start as int, start as int) =~= Seq::<char>::empty());
    }
    while i < n
        invariant
            start <= i <= n,
            n == v@.len(),
            spec_int_body(v@) == v@.skip(start as int),
            neg == spec_int_negative(v@),
            limit == if neg {
                0x8000_0000u64
            } else {
                0x7fff_ffffu64
            },
            forall|j: int| start <= j < i ==> spec_is_digit(v@[j]),
            acc == spec_digits_val(v@.subrange(start as int, i as int)),
            acc <= limit,
        decreases n - i,
    {
        let c = v[i];
        if !('0' <= c && c <= '9') {
            proof {
                assert(spec_int_body(v@)[i - start as int] == v@[i as int]);
            }
            return None;
        }
        let d: u64 = ((c as u8) - 48) as u64;
        let next: u64 = acc * 10 + d;
        proof {
            assert(v@.subrange(start as int, i as int + 1).drop_last() =~= v@.subrange(
                start as int,
                i as int,
            ));
            assert(v@.subrange(start as int, i as int + 1).last() == v@[i as int]);
        }
        if next > limit {
            proof {
                if spec_valid_i32(v@) {
                    let body = spec_int_body(v@);
                    assert(body.take(i as int + 1 - start) =~= v@.subrange(
                        start as int,
                        i as int + 1,
                    ));
                    lemma_digits_val_prefix_le(body, i as int + 1 - start);
                }
            }
            return None;
        }
        acc = next;
        i = i + 1;
    }
    proof {
        assert(v@.subrange(start as int, n as int) =~= spec_int_body(v@));
    }
    if neg {
        let val: i64 = -(acc as i64);
        Some(val as i32)
    } else {
        Some(acc as i32)
    }
}

/// The character of one decimal digit.
pub open spec fn spec_digit_char(d: int) -> char {
    if d == 0 {
        '0'
    } else if d == 1 {
        '1'
    } else if d == 2 {
        '2'
    } else if d == 3 {
        '3'
    } else if d == 4 {
        '4'
    } else if d == 5 {
        '5'
    } else if d == 6 {
        '6'
    } else if d == 7 {
        '7'
    } else if d == 8 {
        '8'
    } else {
        '9'
    }
}

/// The decimal spelling of a non-negative number, without leading zeros
/// (zero itself is spelled `0`).
pub open spec fn spec_dec_digits(n: nat) -> Seq<char>
    decreases n,
{
    if n < 10 {
        seq![spec_digit_char(n as int)]
    } else {
        spec_dec_digits(n / 10).push(spec_digit_char((n % 10) as int))
    }
}

/// The decimal spelling of an integer: a minus sign where it is negative.
pub open spec fn spec_dec_i32(v: int) -> Seq<char> {
    if v >= 0 {
        spec_dec_digits(v as nat)
    } else {
        seq!['-'] + spec_dec_digits((-v) as nat)
    }
}

/// The text of one decimal digit.
fn digit_str(d: u32) -> (r: &'static str)
    requires
        d < 10,
    ensures
        r@ == seq![spec_digit_char(d as int)],
{
    if d == 0 {
        proof {
            reveal_strlit("0");
            assert("0"@ =~= seq![spec_digit_char(0)]);
        }
        "0"
    } else if d == 1 {
        proof {
            reveal_strlit("1");
            assert("1"@ =~= seq![spec_digit_char(1)]);
        }
        "1"
    } else if d == 2 {
        proof {
            reveal_strlit("2");
            assert("2"@ =~= seq![spec_digit_char(2)]);
        }
        "2"
    } else if d == 3 {
        proof {
            reveal_strlit("3");
            assert("3"@ =~= seq![spec_digit_char(3)]);
        }
        "3"
    } else if d == 4 {
        proof {
            reveal_strlit("4");
            assert("4"@ =~= seq![spec_digit_char(4)]);
        }
        "4"
    } else if d == 5 {
        proof {
            reveal_strlit("5");
            assert("5"@ =~= seq![spec_digit_char(5)]);
        }
        "5"
    } else if d == 6 {
        proof {
            reveal_strlit("6");
            assert("6"@ =~= seq![spec_digit_char(6)]);
        }
        "6"
    } else if d == 7 {
        proof {
            reveal_strlit("7");
            assert("7"@ =~= seq![spec_digit_char(7)]);
        }
        "7"
    } else if d == 8 {
        proof {
            reveal_strlit("8");
            assert("8"@ =~= seq![spec_digit_char(8)]);
        }
        "8"
    } else {
        proof {
            reveal_strlit("9");
            assert("9"@ =~= seq![spec_digit_char(9)]);
        }
        "9"
    }
}

/// Appends the decimal spelling of `n` to `out`.
pub fn push_dec_u32(out: &mut String, n: u32)
    ensures
        final (out)@ == old(out)@ + spec_dec_digits(n as nat),
    decreases n,
{
    if n >= 10 {
        push_dec_u32(out, n / 10);
        let s = digit_str(n % 10);
        out.append(s);
        proof {
            assert(out@ =~= old(out)@ + spec_dec_digits(n as nat));
        }
    } else {
        let s = digit_str(n);
        out.append(s);
        proof {
            assert(out@ =~= old(out)@ + spec_dec_digits(n as nat));
        }
    }
}

} // verus!
