//! String comparison and decimal rendering, stated over character sequences.
use vstd::prelude::*;
use vstd::string::*;
use vstd::utf8::*;

verus! {

/// `a` comes before `b` because of position `i`: they agree up to it, and there `a` either
/// ends or holds the smaller byte.
pub open spec fn diverges_at(a: Seq<u8>, b: Seq<u8>, i: int) -> bool {
    &&& 0 <= i <= a.len()
    &&& i < b.len()
    &&& forall|j: int| 0 <= j < i ==> a[j] == b[j]
    &&& i == a.len() || a[i] < b[i]
}

/// Lexicographic order of byte strings.
pub open spec fn bytes_before(a: Seq<u8>, b: Seq<u8>) -> bool {
    exists|i: int| diverges_at(a, b, i)
}

/// Order of strings: lexicographic by the bytes of their UTF-8 encoding.
pub open spec fn before(a: Seq<char>, b: Seq<char>) -> bool {
    bytes_before(encode_utf8(a), encode_utf8(b))
}

/// Equal encodings come from equal strings.
pub proof fn lemma_encoding_injective(a: Seq<char>, b: Seq<char>)
    requires
        encode_utf8(a) == encode_utf8(b),
    ensures
        a == b,
{
    encode_utf8_decode_utf8(a);
    encode_utf8_decode_utf8(b);
}

/// No string comes before itself.
pub proof fn law_order_irreflexive(a: Seq<char>)
    ensures
        !before(a, a),
{
}

/// The order of strings is transitive.
pub proof fn law_order_transitive(a: Seq<char>, b: Seq<char>, c: Seq<char>)
    requires
        before(a, b),
        before(b, c),
    ensures
        before(a, c),
{
    let (x, y, z) = (encode_utf8(a), encode_utf8(b), encode_utf8(c));
    let i = choose|i: int| diverges_at(x, y, i);
    let j = choose|j: int| diverges_at(y, z, j);
    if i <= j {
        assert(diverges_at(x, z, i));
    } else {
        assert(diverges_at(x, z, j));
    }
}

/// Of two different strings one comes before the other.
pub proof fn law_order_total(a: Seq<char>, b: Seq<char>)
    requires
        a != b,
    ensures
        before(a, b) || before(b, a),
{
    let (x, y) = (encode_utf8(a), encode_utf8(b));
    if x == y {
        lemma_encoding_injective(a, b);
    }
    lemma_bytes_total(x, y, 0);
}

proof fn lemma_bytes_total(x: Seq<u8>, y: Seq<u8>, i: int)
    requires
        0 <= i <= x.len(),
        i <= y.len(),
        forall|j: int| 0 <= j < i ==> x[j] == y[j],
        x != y,
    ensures
        bytes_before(x, y) || bytes_before(y, x),
    decreases x.len() - i,
{
    if i == x.len() && i == y.len() {
        assert(x =~= y);
    } else if i == x.len() {
        assert(diverges_at(x, y, i));
    } else if i == y.len() {
        assert(diverges_at(y, x, i));
    } else if x[i] < y[i] {
        assert(diverges_at(x, y, i));
    } else if y[i] < x[i] {
        assert(diverges_at(y, x, i));
    } else {
        lemma_bytes_total(x, y, i + 1);
    }
}

/// Whether two strings are equal.
pub fn text_eq(a: &str, b: &str) -> (equal: bool)
    ensures
        equal == (a@ == b@),
{
    let x = a.as_bytes();
    let y = b.as_bytes();
    if x.len() != y.len() {
        return false;
    }
    let mut i: usize = 0;
    while i < x.len()
        invariant
            i <= x@.len(),
            x@.len() == y@.len(),
            x@ == encode_utf8(a@),
            y@ == encode_utf8(b@),
            forall|j: int| 0 <= j < i ==> x@[j] == y@[j],
        decreases x@.len() - i,
    {
        if x[i] != y[i] {
            return false;
        }
        i += 1;
    }
    proof {
        assert(x@ =~= y@);
        lemma_encoding_injective(a@, b@);
    }
    true
}

/// Whether `a` comes before `b`.
pub fn text_before(a: &str, b: &str) -> (earlier: bool)
    ensures
        earlier == before(a@, b@),
{
    let x = a.as_bytes();
    let y = b.as_bytes();
    let mut i: usize = 0;
    while i < x.len() && i < y.len()
        invariant
            i <= x@.len(),
            i <= y@.len(),
            x@ == encode_utf8(a@),
            y@ == encode_utf8(b@),
            forall|j: int| 0 <= j < i ==> x@[j] == y@[j],
        decreases x@.len() - i,
    {
        if x[i] != y[i] {
            let earlier = x[i] < y[i];
            proof {
                if earlier {
                    assert(diverges_at(x@, y@, i as int));
                } else {
                    assert forall|k: int| !diverges_at(x@, y@, k) by {
                        if k > i {
                            assert(x@[i as int] != y@[i as int]);
                        }
                    }
                }
            }
            return earlier;
        }
        i += 1;
    }
    let earlier = i < y.len();
    proof {
        if earlier {
            assert(diverges_at(x@, y@, i as int));
        } else {
            assert forall|k: int| !diverges_at(x@, y@, k) by {}
        }
    }
    earlier
}

/// `text` begins with `prefix`.
pub open spec fn has_prefix(text: Seq<char>, prefix: Seq<char>) -> bool {
    &&& prefix.len() <= text.len()
    &&& text.subrange(0, prefix.len() as int) == prefix
}

/// `text` ends with `suffix`.
pub open spec fn has_suffix(text: Seq<char>, suffix: Seq<char>) -> bool {
    &&& suffix.len() <= text.len()
    &&& text.subrange(text.len() - suffix.len(), text.len() as int) == suffix
}

/// What follows `prefix` in `text`, when `text` begins with it.
pub open spec fn after_prefix(text: Seq<char>, prefix: Seq<char>) -> Option<Seq<char>> {
    if has_prefix(text, prefix) {
        Some(text.subrange(prefix.len() as int, text.len() as int))
    } else {
        None
    }
}

/// Returns what follows `prefix`, when `text` begins with it.
pub fn strip_prefix<'a>(text: &'a str, prefix: &str) -> (rest: Option<&'a str>)
    ensures
        opt_str(rest) == after_prefix(text@, prefix@),
{
    let n = text.unicode_len();
    let m = prefix.unicode_len();
    if m <= n && text_eq(text.substring_char(0, m), prefix) {
        Some(text.substring_char(m, n))
    } else {
        None
    }
}

/// Whether `text` ends with `suffix`.
pub fn ends_with(text: &str, suffix: &str) -> (found: bool)
    ensures
        found == has_suffix(text@, suffix@),
{
    let n = text.unicode_len();
    let m = suffix.unicode_len();
    m <= n && text_eq(text.substring_char(n - m, n), suffix)
}

/// Characters of an optional string slice.
pub open spec fn opt_str(text: Option<&str>) -> Option<Seq<char>> {
    match text {
        Some(text) => Some(text@),
        None => None,
    }
}

/// Characters of an optional string.
pub open spec fn opt_text(text: Option<String>) -> Option<Seq<char>> {
    match text {
        Some(text) => Some(text@),
        None => None,
    }
}

/// Characters of each string of a sequence.
pub open spec fn texts(items: Seq<String>) -> Seq<Seq<char>> {
    items.map_values(|item: String| item@)
}

/// Strings put together with a separator between neighbours.
pub open spec fn joined(parts: Seq<Seq<char>>, separator: Seq<char>) -> Seq<char>
    decreases parts.len(),
{
    if parts.len() == 0 {
        Seq::empty()
    } else if parts.len() == 1 {
        parts[0]
    } else {
        joined(parts.drop_last(), separator) + separator + parts.last()
    }
}

/// Character of one decimal digit.
pub open spec fn digit(d: nat) -> char {
    ('0' as nat + d) as char
}

/// Decimal rendering of a number, without leading zeros.
pub open spec fn decimal(n: nat) -> Seq<char>
    decreases n,
{
    if n < 10 {
        seq![digit(n)]
    } else {
        decimal(n / 10).push(digit(n % 10))
    }
}

fn digit_text(d: u64) -> (text: &'static str)
    requires
        d < 10,
    ensures
        text@ == seq![digit(d as nat)],
{
    proof {
        reveal_strlit("0");
        reveal_strlit("1");
        reveal_strlit("2");
        reveal_strlit("3");
        reveal_strlit("4");
        reveal_strlit("5");
        reveal_strlit("6");
        reveal_strlit("7");
        reveal_strlit("8");
        reveal_strlit("9");
    }
    match d {
        0 => "0",
        1 => "1",
        2 => "2",
        3 => "3",
        4 => "4",
        5 => "5",
        6 => "6",
        7 => "7",
        8 => "8",
        _ => "9",
    }
}

/// Renders a number in decimal.
pub fn decimal_text(n: u64) -> (text: String)
    ensures
        text@ == decimal(n as nat),
    decreases n,
{
    if n < 10 {
        digit_text(n).to_owned()
    } else {
        let mut text = decimal_text(n / 10);
        text.append(digit_text(n % 10));
        assert(text@ =~= decimal(n as nat));
        text
    }
}

/// A number below a power of ten has at most as many digits as its exponent.
pub proof fn lemma_decimal_len(n: nat, digits: nat)
    requires
        0 < digits,
        n < vstd::arithmetic::power::pow(10, digits),
    ensures
        0 < decimal(n).len() <= digits,
    decreases digits,
{
    if n >= 10 {
        vstd::arithmetic::power::lemma_pow1(10);
        assert(digits > 1);
        vstd::arithmetic::power::lemma_pow_adds(10, 1, (digits - 1) as nat);
        lemma_decimal_len(n / 10, (digits - 1) as nat);
    }
}

/// Whether a string has no character.
pub fn is_empty(text: &String) -> (empty: bool)
    ensures
        empty == (text@.len() == 0),
{
    text.as_str().unicode_len() == 0
}

/// Whether an optional string is present and equals a text.
pub fn is_text(text: Option<&str>, expected: &str) -> (equal: bool)
    ensures
        equal == (opt_str(text) == Some(expected@)),
{
    match text {
        Some(text) => text_eq(text, expected),
        None => false,
    }
}

/// The number that decimal digits stand for.
pub open spec fn value_of(digits: Seq<char>) -> int
    decreases digits.len(),
{
    if digits.len() == 0 {
        0
    } else {
        10 * value_of(digits.drop_last()) + (digits.last() as int - '0' as int)
    }
}

/// The decimal rendering of a number stands for that number, in digits alone and without leading
/// zeros.
pub proof fn law_decimal_reads_back(n: nat)
    ensures
        value_of(decimal(n)) == n,
        decimal(n).len() > 0,
        forall|i: int| 0 <= i < decimal(n).len() ==> '0' <= #[trigger] decimal(n)[i] <= '9',
        n > 0 ==> decimal(n)[0] != '0',
    decreases n,
{
    if n < 10 {
        let one = decimal(n);
        assert(one.drop_last() =~= Seq::empty());
        assert(value_of(one.drop_last()) == 0);
    } else {
        law_decimal_reads_back(n / 10);
        let all = decimal(n);
        assert(all.drop_last() =~= decimal(n / 10));
        assert forall|i: int| 0 <= i < all.len() implies '0' <= #[trigger] all[i] <= '9' by {
            if i < all.len() - 1 {
                assert(all[i] == decimal(n / 10)[i]);
            }
        }
        assert(all[0] == decimal(n / 10)[0]);
    }
}

/// Joined parts follow each other in order with the separator between them, and none is left out.
pub proof fn law_parts_are_joined(
    first: Seq<Seq<char>>,
    second: Seq<Seq<char>>,
    one: Seq<char>,
    separator: Seq<char>,
)
    ensures
        joined(Seq::empty(), separator).len() == 0,
        joined(seq![one], separator) == one,
        first.len() > 0 && second.len() > 0 ==> joined(first + second, separator) == joined(
            first,
            separator,
        ) + separator + joined(second, separator),
    decreases second.len(),
{
    if first.len() > 0 && second.len() > 0 {
        let rest = second.drop_last();
        let all = first + second;
        assert(all.drop_last() =~= first + rest);
        assert(all.last() == second.last());
        if rest.len() == 0 {
            assert(first + rest =~= first);
        } else {
            law_parts_are_joined(first, rest, one, separator);
            assert(joined(all, separator) =~= joined(first, separator) + separator + joined(
                second,
                separator,
            ));
        }
    }
}

/// A text begins with a prefix exactly where it is the prefix and a rest, and stripping gives the
/// rest; it ends with a suffix exactly where it is something and the suffix.
pub proof fn law_prefixes_and_suffixes(text: Seq<char>, part: Seq<char>, rest: Seq<char>)
    ensures
        after_prefix(part + rest, part) == Some(rest),
        has_suffix(rest + part, part),
        after_prefix(text, part) matches Some(rest) ==> text == part + rest,
        after_prefix(text, part) is None <==> !has_prefix(text, part),
        has_prefix(text, part) ==> text == part + text.subrange(
            part.len() as int,
            text.len() as int,
        ),
        has_suffix(text, part) ==> text == text.subrange(0, text.len() - part.len()) + part,
{
    assert((part + rest).subrange(0, part.len() as int) =~= part);
    assert((part + rest).subrange(part.len() as int, (part + rest).len() as int) =~= rest);
    assert((rest + part).subrange(rest.len() as int, (rest + part).len() as int) =~= part);
    if has_prefix(text, part) {
        assert(text =~= text.subrange(0, part.len() as int) + text.subrange(
            part.len() as int,
            text.len() as int,
        ));
    }
    if has_suffix(text, part) {
        assert(text =~= text.subrange(0, text.len() - part.len()) + text.subrange(
            text.len() - part.len(),
            text.len() as int,
        ));
    }
}

/// Strings are ordered by the bytes of their encodings: by the first byte in which they differ, the
/// smaller first, and a string before its extensions.
pub proof fn law_order_is_by_bytes(
    a: Seq<char>,
    b: Seq<char>,
    shared: Seq<u8>,
    x: Seq<u8>,
    y: Seq<u8>,
)
    requires
        encode_utf8(a) == shared + x,
        encode_utf8(b) == shared + y,
        y.len() > 0,
        x.len() == 0 || x[0] < y[0],
    ensures
        before(a, b),
        !before(b, a),
{
    assert(diverges_at(encode_utf8(a), encode_utf8(b), shared.len() as int));
    if before(b, a) {
        law_order_transitive(a, b, a);
        law_order_irreflexive(a);
    }
}

} // verus!
