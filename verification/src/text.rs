//! Decimal text of integers: formatting and the parsing rules of `i64::from_str`.
use vstd::prelude::*;
use vstd::string::*;

verus! {

broadcast use vstd::string::group_string_axioms;

/// The ASCII character of a decimal digit.
pub open spec fn digit_char(d: nat) -> char {
    if d == 0 { '0' }
    else if d == 1 { '1' }
    else if d == 2 { '2' }
    else if d == 3 { '3' }
    else if d == 4 { '4' }
    else if d == 5 { '5' }
    else if d == 6 { '6' }
    else if d == 7 { '7' }
    else if d == 8 { '8' }
    else { '9' }
}

/// Is `c` an ASCII decimal digit?
pub open spec fn is_digit(c: char) -> bool {
    '0' <= c && c <= '9'
}

/// The value of an ASCII decimal digit.
pub open spec fn digit_value(c: char) -> nat {
    (c as int - '0' as int) as nat
}

/// The shortest decimal text of a natural number, without sign.
pub open spec fn decimal_text(n: nat) -> Seq<char>
    decreases n,
{
    if n < 10 {
        seq![digit_char(n)]
    } else {
        decimal_text(n / 10).push(digit_char(n % 10))
    }
}

/// The decimal text of an integer, with a leading `-` when it is negative.
pub open spec fn int_text(i: int) -> Seq<char> {
    if i < 0 {
        seq!['-'] + decimal_text((-i) as nat)
    } else {
        decimal_text(i as nat)
    }
}

/// All characters of `s` are ASCII decimal digits.
pub open spec fn all_digits(s: Seq<char>) -> bool {
    forall|k: int| 0 <= k < s.len() ==> is_digit(#[trigger] s[k])
}

/// The value of a string of decimal digits (0 for the empty string).
pub open spec fn digits_value(s: Seq<char>) -> nat
    decreases s.len(),
{
    if s.len() == 0 {
        0
    } else {
        digits_value(s.drop_last()) * 10 + digit_value(s.last())
    }
}

/// The integer that `s` denotes under the grammar of Rust's integer `from_str`:
/// an optional `+` or `-`, then one or more ASCII digits, and nothing else.
pub open spec fn parse_int_text(s: Seq<char>) -> Option<int> {
    if s.len() > 0 && (s[0] == '+' || s[0] == '-') {
        let rest = s.skip(1);
        if rest.len() > 0 && all_digits(rest) {
            if s[0] == '-' {
                Some(-(digits_value(rest) as int))
            } else {
                Some(digits_value(rest) as int)
            }
        } else {
            None
        }
    } else if s.len() > 0 && all_digits(s) {
        Some(digits_value(s) as int)
    } else {
        None
    }
}

/// What `s.parse::<i64>()` gives back: the denoted integer when it fits in `i64`.
pub open spec fn parse_i64_text(s: Seq<char>) -> Option<i64> {
    match parse_int_text(s) {
        Some(v) => if i64::MIN <= v && v <= i64::MAX {
            Some(v as i64)
        } else {
            None
        },
        None => None,
    }
}

proof fn lemma_digit_char(d: nat)
    requires
        d < 10,
    ensures
        is_digit(digit_char(d)),
        digit_value(digit_char(d)) == d,
        digit_char(d) != '+',
        digit_char(d) != '-',
{
}

/// The decimal text of a number is made of digits and denotes the number.
pub proof fn lemma_decimal_text(n: nat)
    ensures
        decimal_text(n).len() > 0,
        all_digits(decimal_text(n)),
        digits_value(decimal_text(n)) == n,
    decreases n,
{
    if n < 10 {
        lemma_digit_char(n);
        assert(decimal_text(n).drop_last() =~= Seq::<char>::empty());
        assert(digits_value(Seq::<char>::empty()) == 0);
        assert(decimal_text(n).last() == digit_char(n));
    } else {
        lemma_decimal_text(n / 10);
        lemma_digit_char(n % 10);
        lemma_digits_value_push(decimal_text(n / 10), digit_char(n % 10));
        let t = decimal_text(n);
        assert(t.drop_last() =~= decimal_text(n / 10));
        assert forall|k: int| 0 <= k < t.len() implies is_digit(#[trigger] t[k]) by {
            if k < t.len() - 1 {
                assert(t[k] == decimal_text(n / 10)[k]);
            }
        }
    }
}

/// Reading back the decimal text of any `i64` gives the same `i64`.
pub proof fn lemma_parse_int_text_roundtrip(i: i64)
    ensures
        parse_i64_text(int_text(i as int)) == Some(i),
{
    if i < 0 {
        let n = (-(i as int)) as nat;
        lemma_decimal_text(n);
        let t = int_text(i as int);
        assert(t.skip(1) =~= decimal_text(n));
    } else {
        lemma_decimal_text(i as nat);
        let t = decimal_text(i as nat);
        assert(is_digit(t[0]));
    }
}

proof fn lemma_digits_value_push(s: Seq<char>, c: char)
    ensures
        digits_value(s.push(c)) == digits_value(s) * 10 + digit_value(c),
{
    assert(s.push(c).drop_last() =~= s);
}

proof fn lemma_digits_value_monotonic(s: Seq<char>, i: int, j: int)
    requires
        0 <= i <= j <= s.len(),
    ensures
        digits_value(s.take(i)) <= digits_value(s.take(j)),
    decreases j - i,
{
    if i < j {
        lemma_digits_value_monotonic(s, i, j - 1);
        assert(s.take(j).drop_last() =~= s.take(j - 1));
    }
}

/// An owned copy of `s`.
pub fn string_of(s: &str) -> (r: String)
    ensures
        r@ == s@,
{
    s.to_owned()
}

/// Do `a` and `b` hold the same characters?
pub fn str_eq(a: &str, b: &str) -> (r: bool)
    ensures
        r == (a@ == b@),
{
    a.to_owned() == b.to_owned()
}

/// The characters Rust's `char::is_whitespace` accepts (Unicode `White_Space`).
pub open spec fn is_unicode_whitespace(c: char) -> bool {
    ('\u{9}' <= c && c <= '\u{d}') || c == ' ' || c == '\u{85}' || c == '\u{a0}' || c
        == '\u{1680}' || ('\u{2000}' <= c && c <= '\u{200a}') || c == '\u{2028}' || c
        == '\u{2029}' || c == '\u{202f}' || c == '\u{205f}' || c == '\u{3000}'
}

/// `s` without its leading whitespace.
pub open spec fn trim_start_text(s: Seq<char>) -> Seq<char>
    decreases s.len(),
{
    if s.len() > 0 && is_unicode_whitespace(s[0]) {
        trim_start_text(s.drop_first())
    } else {
        s
    }
}

/// `s` without its trailing whitespace.
pub open spec fn trim_end_text(s: Seq<char>) -> Seq<char>
    decreases s.len(),
{
    if s.len() > 0 && is_unicode_whitespace(s.last()) {
        trim_end_text(s.drop_last())
    } else {
        s
    }
}

/// `s` without leading and trailing whitespace, as `str::trim` gives it.
pub open spec fn trimmed(s: Seq<char>) -> Seq<char> {
    trim_end_text(trim_start_text(s))
}

/// The lower-case form of a text, as `str::to_lowercase` gives it.
pub uninterp spec fn lowercased(s: Seq<char>) -> Seq<char>;

/// All characters are ASCII.
pub open spec fn ascii_text(s: Seq<char>) -> bool {
    forall|k: int| 0 <= k < s.len() ==> (#[trigger] s[k] as u32) < 128
}

/// An ASCII character in lower case.
pub open spec fn ascii_lower_char(c: char) -> char {
    if 'A' <= c && c <= 'Z' {
        ((c as u32) + 32) as char
    } else {
        c
    }
}

/// An ASCII text with its letters in lower case.
pub open spec fn ascii_lowercase(s: Seq<char>) -> Seq<char> {
    s.map_values(|c: char| ascii_lower_char(c))
}

/// Is `c` whitespace (`char::is_whitespace`)?
fn is_whitespace(c: char) -> (r: bool)
    ensures
        r == is_unicode_whitespace(c),
{
    ('\u{9}' <= c && c <= '\u{d}') || c == ' ' || c == '\u{85}' || c == '\u{a0}' || c
        == '\u{1680}' || ('\u{2000}' <= c && c <= '\u{200a}') || c == '\u{2028}' || c
        == '\u{2029}' || c == '\u{202f}' || c == '\u{205f}' || c == '\u{3000}'
}

/// Removes leading and trailing whitespace, as `str::trim` does.
pub(crate) fn trim(s: &str) -> (r: &str)
    ensures
        r@ == trimmed(s@),
{
    let len = s.unicode_len();
    let mut start: usize = 0;
    assert(s@.skip(0) =~= s@);
    while start < len && is_whitespace(s.get_char(start))
        invariant
            len == s@.len(),
            start <= len,
            trim_start_text(s@) == trim_start_text(s@.skip(start as int)),
        decreases len - start,
    {
        assert(s@.skip(start as int).drop_first() =~= s@.skip(start + 1));
        start = start + 1;
    }
    proof {
        if start < len {
            assert(s@.skip(start as int)[0] == s@[start as int]);
        }
    }
    let mut end: usize = len;
    assert(s@.subrange(start as int, len as int) =~= s@.skip(start as int));
    while end > start && is_whitespace(s.get_char(end - 1))
        invariant
            len == s@.len(),
            start <= end <= len,
            trim_start_text(s@) == s@.skip(start as int),
            trimmed(s@) == trim_end_text(s@.subrange(start as int, end as int)),
        decreases end - start,
    {
        assert(s@.subrange(start as int, end as int).drop_last() =~= s@.subrange(
            start as int,
            end - 1,
        ));
        end = end - 1;
    }
    s.substring_char(start, end)
}

/// The lower-case form of a text (`str::to_lowercase`); an ASCII text has
/// only its letters changed, as `to_ascii_lowercase` would.
#[verifier::external_body]
pub(crate) fn to_lowercase(s: &str) -> (r: String)
    ensures
        r@ == lowercased(s@),
        ascii_text(s@) ==> r@ == ascii_lowercase(s@),
{
    s.to_lowercase()
}

/// The pieces of `s` between the separators, as `str::split` with a `char`
/// gives them: an empty text gives one empty piece.
pub open spec fn split_text(s: Seq<char>, sep: char) -> Seq<Seq<char>>
    decreases s.len(),
{
    if s.len() == 0 {
        seq![Seq::empty()]
    } else {
        let parts = split_text(s.drop_last(), sep);
        if s.last() == sep {
            parts.push(Seq::empty())
        } else {
            parts.update(parts.len() - 1, parts.last().push(s.last()))
        }
    }
}

/// The pieces joined with the separator between them (`join`).
pub open spec fn join_text(parts: Seq<Seq<char>>, sep: char) -> Seq<char>
    decreases parts.len(),
{
    if parts.len() == 0 {
        Seq::empty()
    } else if parts.len() == 1 {
        parts[0]
    } else {
        join_text(parts.drop_last(), sep) + seq![sep] + parts.last()
    }
}

/// `s` does not hold the character `c`.
pub open spec fn lacks(s: Seq<char>, c: char) -> bool {
    forall|k: int| 0 <= k < s.len() ==> s[k] != c
}

/// Splitting always gives at least one piece.
pub proof fn lemma_split_nonempty(s: Seq<char>, sep: char)
    ensures
        split_text(s, sep).len() >= 1,
    decreases s.len(),
{
    if s.len() > 0 {
        lemma_split_nonempty(s.drop_last(), sep);
    }
}

/// Joining the pieces of a split gives the text back.
pub proof fn lemma_join_split(s: Seq<char>, sep: char)
    ensures
        join_text(split_text(s, sep), sep) == s,
    decreases s.len(),
{
    if s.len() == 0 {
    } else {
        let prev = s.drop_last();
        lemma_join_split(prev, sep);
        lemma_split_nonempty(prev, sep);
        let parts = split_text(prev, sep);
        if s.last() == sep {
            let p2 = parts.push(Seq::<char>::empty());
            assert(p2.drop_last() =~= parts);
            assert(s =~= prev + seq![sep] + Seq::<char>::empty());
        } else {
            let p2 = parts.update(parts.len() - 1, parts.last().push(s.last()));
            if parts.len() == 1 {
                assert(s =~= prev.push(s.last()));
            } else {
                assert(p2.drop_last() =~= parts.drop_last());
                assert(s =~= prev.push(s.last()));
                assert(prev =~= join_text(parts.drop_last(), sep) + seq![sep] + parts.last());
            }
        }
    }
}

/// Splitting `head + tail`, when `tail` lacks the separator, extends the last
/// piece of `head` by `tail`.
proof fn lemma_split_append_plain(head: Seq<char>, tail: Seq<char>, sep: char)
    requires
        lacks(tail, sep),
    ensures
        split_text(head + tail, sep) == split_text(head, sep).update(
            split_text(head, sep).len() - 1,
            split_text(head, sep).last() + tail,
        ),
    decreases tail.len(),
{
    lemma_split_nonempty(head, sep);
    if tail.len() == 0 {
        assert(head + tail =~= head);
        assert(split_text(head, sep).last() + tail =~= split_text(head, sep).last());
        assert(split_text(head, sep).update(
            split_text(head, sep).len() - 1,
            split_text(head, sep).last(),
        ) =~= split_text(head, sep));
    } else {
        let t0 = tail.drop_last();
        lemma_split_append_plain(head, t0, sep);
        assert((head + tail).drop_last() =~= head + t0);
        assert((head + tail).last() == tail.last());
        let parts = split_text(head, sep);
        let p0 = split_text(head + t0, sep);
        assert(tail[tail.len() - 1] != sep);
        assert(split_text(head + tail, sep) == p0.update(p0.len() - 1, p0.last().push(tail.last())));
        assert(p0.len() == parts.len());
        assert(p0.last() == parts.last() + t0);
        assert((parts.last() + t0).push(tail.last()) =~= parts.last() + tail);
        assert(p0.update(p0.len() - 1, p0.last().push(tail.last())) =~= parts.update(
            parts.len() - 1,
            parts.last() + tail,
        ));
    }
}

/// Splitting the join of pieces that lack the separator gives the pieces
/// back, when there is at least one piece.
pub proof fn lemma_split_join(parts: Seq<Seq<char>>, sep: char)
    requires
        parts.len() >= 1,
        forall|k: int| 0 <= k < parts.len() ==> lacks(#[trigger] parts[k], sep),
    ensures
        split_text(join_text(parts, sep), sep) == parts,
    decreases parts.len(),
{
    if parts.len() == 1 {
        lemma_split_append_plain(Seq::empty(), parts[0], sep);
        assert(Seq::<char>::empty() + parts[0] =~= parts[0]);
        assert(split_text(Seq::<char>::empty(), sep) =~= seq![Seq::<char>::empty()]);
        assert(Seq::<char>::empty() + parts[0] =~= parts[0]);
        assert(seq![Seq::<char>::empty()].update(0, Seq::<char>::empty() + parts[0]) =~= parts);
    } else {
        let prev = parts.drop_last();
        lemma_split_join(prev, sep);
        let head = join_text(prev, sep) + seq![sep];
        assert(head.drop_last() =~= join_text(prev, sep));
        assert(split_text(head, sep) =~= prev.push(Seq::empty()));
        lemma_split_append_plain(head, parts.last(), sep);
        assert(join_text(parts, sep) =~= head + parts.last());
        assert(Seq::<char>::empty() + parts.last() =~= parts.last());
        assert(prev.push(Seq::empty()).update(prev.len() as int, Seq::<char>::empty() + parts.last())
            =~= parts);
    }
}

/// Splits `s` at every `sep` (`str::split` with a `char`, collected).
pub fn split_on(s: &str, sep: char) -> (r: Vec<String>)
    ensures
        r@.map_values(|p: String| p@) == split_text(s@, sep),
{
    let len = s.unicode_len();
    let mut parts: Vec<String> = Vec::new();
    let mut current = String::new();
    let mut i: usize = 0;
    while i < len
        invariant
            len == s@.len(),
            i <= len,
            parts@.map_values(|p: String| p@).push(current@) == split_text(s@.take(i as int), sep),
        decreases len - i,
    {
        let c = s.get_char(i);
        proof {
            assert(s@.take(i + 1).drop_last() =~= s@.take(i as int));
            assert(s@.take(i + 1).last() == c);
            lemma_split_nonempty(s@.take(i as int), sep);
        }
        if c == sep {
            let ghost old_parts = parts@;
            parts.push(current);
            current = String::new();
            proof {
                assert(parts@.map_values(|p: String| p@) =~= old_parts.map_values(|p: String| p@).push(
                    parts@.last()@,
                ));
            }
        } else {
            let piece = s.substring_char(i, i + 1);
            assert(piece@ =~= seq![c]);
            let ghost cur0 = current@;
            current.append(piece);
            assert(current@ =~= cur0.push(c));
            proof {
                let prev = parts@.map_values(|p: String| p@);
                assert(prev.push(current@) =~= prev.push(cur0).update(
                    prev.len() as int,
                    prev.push(cur0).last().push(c),
                ));
            }
        }
        i = i + 1;
    }
    let ghost before = parts@;
    parts.push(current);
    proof {
        assert(s@.take(len as int) =~= s@);
        assert(parts@.map_values(|p: String| p@) =~= before.map_values(|p: String| p@).push(
            parts@.last()@,
        ));
    }
    parts
}

fn digit_str(d: u64) -> (r: &'static str)
    requires
        d < 10,
    ensures
        r@ == seq![digit_char(d as nat)],
{
    proof {
        reveal_strlit("0");
        reveal_strlit("1");
        reveal_strlit("2");
        reveal_strlit("3");
        reveal_strlit("4");
        reveal_strlit("5");
        reveal_strlit("6");
        reveal_strlit("7");
        reveal_strlit("8");
        reveal_strlit("9");
    }
    if d == 0 {
        "0"
    } else if d == 1 {
        "1"
    } else if d == 2 {
        "2"
    } else if d == 3 {
        "3"
    } else if d == 4 {
        "4"
    } else if d == 5 {
        "5"
    } else if d == 6 {
        "6"
    } else if d == 7 {
        "7"
    } else if d == 8 {
        "8"
    } else {
        "9"
    }
}

/// Appends the decimal text of `n` to `out`.
pub fn push_decimal(out: &mut String, n: u64)
    ensures
        final(out)@ == old(out)@ + decimal_text(n as nat),
    decreases n,
{
    if n < 10 {
        out.append(digit_str(n));
    } else {
        push_decimal(out, n / 10);
        out.append(digit_str(n % 10));
        assert(decimal_text(n as nat) == decimal_text((n / 10) as nat).push(digit_char((n % 10) as nat)));
    }
}

/// The decimal text of an unsigned number.
pub fn format_u64(n: u64) -> (s: String)
    ensures
        s@ == decimal_text(n as nat),
{
    let mut s = String::new();
    push_decimal(&mut s, n);
    s
}

/// The decimal text of a signed number, as `i64::to_string` writes it.
pub fn format_i64(n: i64) -> (s: String)
    ensures
        s@ == int_text(n as int),
{
    let mut s = String::new();
    if n < 0 {
        proof {
            reveal_strlit("-");
        }
        s.append("-");
        let m: u64 = if n == i64::MIN {
            9223372036854775808u64
        } else {
            (-n) as u64
        };
        push_decimal(&mut s, m);
    } else {
        push_decimal(&mut s, n as u64);
    }
    s
}

/// Parses a decimal integer as `str::parse::<i64>` does: an optional sign and
/// at least one ASCII digit, with nothing else, within the range of `i64`.
pub fn parse_i64(s: &str) -> (r: Option<i64>)
    ensures
        r == parse_i64_text(s@),
{
    let len = s.unicode_len();
    if len == 0 {
        return None;
    }
    let first = s.get_char(0);
    let negative = first == '-';
    let start: usize = if first == '+' || first == '-' { 1 } else { 0 };
    if start == len {
        return None;
    }
    let ghost body: Seq<char> = s@.skip(start as int);
    // Magnitudes above this bound fit in no `i64`.
    let bound: u64 = 9223372036854775808u64;
    let mut acc: u64 = 0;
    let mut i: usize = start;
    while i < len
        invariant
            len == s@.len(),
            start <= i <= len,
            start < len,
            bound == 9223372036854775808u64,
            first == s@[0],
            negative == (first == '-'),
            start == (if first == '+' || first == '-' { 1usize } else { 0usize }),
            body == s@.skip(start as int),
            acc <= bound,
            acc == digits_value(body.take(i - start)),
            all_digits(body.take(i - start)),
        decreases len - i,
    {
        let c = s.get_char(i);
        assert(body[i - start] == c);
        if !('0' <= c && c <= '9') {
            proof {
                assert(!is_digit(body[i - start]));
                assert(!all_digits(body));
                if start == 0 {
                    assert(body =~= s@);
                }
            }
            return None;
        }
        let d: u64 = (c as u32 - '0' as u32) as u64;
        assert(d <= 9);
        assert(d == digit_value(c));
        proof {
            assert(body.take(i + 1 - start) =~= body.take(i - start).push(c));
            lemma_digits_value_push(body.take(i - start), c);
        }
        if acc > (bound - d) / 10 {
            proof {
                assert(digits_value(body.take(i + 1 - start)) > bound);
                lemma_digits_value_monotonic(body, i + 1 - start, body.len() as int);
                assert(body.take(body.len() as int) =~= body);
                if start == 0 {
                    assert(body =~= s@);
                }
            }
            return None;
        }
        acc = acc * 10 + d;
        i = i + 1;
    }
    proof {
        assert(body.take(i - start) =~= body);
        if start == 0 {
            assert(body =~= s@);
        }
    }
    if negative {
        if acc == bound {
            Some(i64::MIN)
        } else {
            Some(-(acc as i64))
        }
    } else if acc == bound {
        None
    } else {
        Some(acc as i64)
    }
}

} // verus!
