//! Text helpers shared by the chat logic: UTF-8 byte offsets, substring
//! search, decimal rendering and joining.
use vstd::prelude::*;
use vstd::string::*;
use vstd::utf8::{encode_scalar, encode_utf8};

verus! {

/// Number of bytes that `c` takes in UTF-8.
pub open spec fn char_width(c: char) -> nat {
    if (c as u32) < 0x80 {
        1
    } else if (c as u32) < 0x800 {
        2
    } else if (c as u32) < 0x10000 {
        3
    } else {
        4
    }
}

/// Number of bytes that the characters `s` take in UTF-8.
pub open spec fn utf8_len(s: Seq<char>) -> nat
    decreases s.len(),
{
    if s.len() == 0 {
        0
    } else {
        utf8_len(s.drop_last()) + char_width(s.last())
    }
}

/// Whether byte offset `n` of the UTF-8 form of `s` falls between characters.
pub open spec fn is_byte_boundary(s: Seq<char>, n: nat) -> bool {
    exists|k: int| 0 <= k <= s.len() && #[trigger] utf8_len(s.take(k)) == n
}

/// The characters of `s` after its first `n` bytes of UTF-8; `None` where
/// `n` lies past the end or inside a character.
pub open spec fn byte_suffix(s: Seq<char>, n: nat) -> Option<Seq<char>> {
    if is_byte_boundary(s, n) {
        Some(s.skip(choose|k: int| 0 <= k <= s.len() && #[trigger] utf8_len(s.take(k)) == n))
    } else {
        None
    }
}

/// Counting from the front gives the same byte count.
proof fn lemma_utf8_len_from_front(s: Seq<char>)
    requires
        s.len() > 0,
    ensures
        utf8_len(s) == char_width(s[0]) + utf8_len(s.drop_first()),
    decreases s.len(),
{
    if s.len() > 1 {
        lemma_utf8_len_from_front(s.drop_last());
        assert(s.drop_last().drop_first() =~= s.drop_first().drop_last());
        assert(s.drop_last()[0] == s[0]);
    } else {
        assert(s.drop_first() =~= Seq::<char>::empty());
        assert(s.drop_last() =~= Seq::<char>::empty());
    }
}

/// The byte count of a character is the length of its UTF-8 encoding.
pub proof fn lemma_char_width_is_encoding_length(c: char)
    ensures
        char_width(c) == encode_utf8(seq![c]).len(),
        char_width(c) == encode_scalar(c as u32).len(),
{
    assert(seq![c].drop_first() =~= Seq::<char>::empty());
    assert(encode_utf8(Seq::<char>::empty()) =~= Seq::<u8>::empty());
}

/// The byte count of characters is the length of their UTF-8 encoding.
pub proof fn lemma_utf8_len_is_encoding_length(s: Seq<char>)
    ensures
        utf8_len(s) == encode_utf8(s).len(),
    decreases s.len(),
{
    if s.len() > 0 {
        lemma_utf8_len_from_front(s);
        lemma_utf8_len_is_encoding_length(s.drop_first());
        lemma_char_width_is_encoding_length(s[0]);
    }
}

/// Every prefix of a longer prefix is strictly shorter in bytes.
pub proof fn lemma_utf8_len_strictly_grows(s: Seq<char>, i: int, j: int)
    requires
        0 <= i < j <= s.len(),
    ensures
        utf8_len(s.take(i)) < utf8_len(s.take(j)),
    decreases j - i,
{
    assert(s.take(j).drop_last() =~= s.take(j - 1));
    if i < j - 1 {
        lemma_utf8_len_strictly_grows(s, i, j - 1);
    }
}

/// A prefix of ASCII characters takes one byte per character.
pub proof fn lemma_utf8_len_ascii(s: Seq<char>)
    requires
        forall|i: int| 0 <= i < s.len() ==> (#[trigger] s[i] as u32) < 0x80,
    ensures
        utf8_len(s) == s.len(),
    decreases s.len(),
{
    if s.len() > 0 {
        lemma_utf8_len_ascii(s.drop_last());
    }
}

/// The byte offset `k` of an all-ASCII prefix of length `k` is a boundary, and
/// `byte_suffix` then drops exactly that prefix.
pub proof fn lemma_byte_suffix_of_ascii_prefix(s: Seq<char>, k: int)
    requires
        0 <= k <= s.len(),
        forall|i: int| 0 <= i < k ==> (#[trigger] s[i] as u32) < 0x80,
    ensures
        byte_suffix(s, k as nat) == Some(s.skip(k)),
{
    lemma_utf8_len_ascii(s.take(k));
    assert(utf8_len(s.take(k)) == k);
    let c = choose|c: int| 0 <= c <= s.len() && #[trigger] utf8_len(s.take(c)) == k as nat;
    if c < k {
        lemma_utf8_len_strictly_grows(s, c, k);
    } else if c > k {
        lemma_utf8_len_strictly_grows(s, k, c);
    }
}

/// The characters of `s`, one by one.
pub fn chars_of(s: &str) -> (v: Vec<char>)
    ensures
        v@ == s@,
{
    let n = s.unicode_len();
    let mut v: Vec<char> = Vec::new();
    let mut i: usize = 0;
    while i < n
        invariant
            n == s@.len(),
            i <= n,
            v@ == s@.take(i as int),
        decreases n - i,
    {
        let c = s.get_char(i);
        v.push(c);
        i = i + 1;
        assert(v@ =~= s@.take(i as int));
    }
    assert(v@ =~= s@);
    v
}

/// Whether `a` and `b` hold the same characters.
pub fn same_text(a: &str, b: &str) -> (r: bool)
    ensures
        r == (a@ == b@),
{
    let x = chars_of(a);
    let y = chars_of(b);
    if x.len() != y.len() {
        return false;
    }
    let mut i: usize = 0;
    while i < x.len()
        invariant
            x@ == a@,
            y@ == b@,
            x.len() == y.len(),
            i <= x.len(),
            forall|j: int| 0 <= j < i ==> x@[j] == y@[j],
        decreases x.len() - i,
    {
        if x[i] != y[i] {
            return false;
        }
        i = i + 1;
    }
    assert(x@ =~= y@);
    true
}

/// Width in bytes of `c` in UTF-8.
pub fn char_utf8_width(c: char) -> (w: usize)
    ensures
        w == char_width(c),
{
    let code: u32 = c as u32;
    if code < 0x80 {
        1
    } else if code < 0x800 {
        2
    } else if code < 0x10000 {
        3
    } else {
        4
    }
}

/// The characters of `s` after its first `n` bytes of UTF-8, or `None`
/// where `n` lies past the end or inside a character.
pub fn skip_bytes(s: &str, n: usize) -> (r: Option<String>)
    ensures
        r is Some <==> byte_suffix(s@, n as nat) is Some,
        r matches Some(t) ==> t@ == byte_suffix(s@, n as nat)->Some_0,
{
    let chars = chars_of(s);
    let len = chars.len();
    let mut k: usize = 0;
    let mut bytes: usize = 0;
    while k < len && bytes < n
        invariant
            chars@ == s@,
            len == s@.len(),
            k <= len,
            bytes == utf8_len(s@.take(k as int)),
            bytes <= n,
            forall|j: int| 0 <= j < k ==> #[trigger] utf8_len(s@.take(j)) < n,
        decreases len - k,
    {
        proof {
            assert(s@.take(k + 1).drop_last() =~= s@.take(k as int));
        }
        let w = char_utf8_width(chars[k]);
        if w > n - bytes {
            proof {
                assert forall|c: int| 0 <= c <= s@.len() implies #[trigger] utf8_len(s@.take(c)) != n as nat by {
                    if c > k + 1 {
                        lemma_utf8_len_strictly_grows(s@, k + 1, c);
                    }
                }
            }
            return None;
        }
        bytes = bytes + w;
        k = k + 1;
    }
    if bytes == n {
        proof {
            let c = choose|c: int| 0 <= c <= s@.len() && #[trigger] utf8_len(s@.take(c)) == n as nat;
            if c < k {
                lemma_utf8_len_strictly_grows(s@, c, k as int);
            } else if c > k {
                lemma_utf8_len_strictly_grows(s@, k as int, c);
            }
        }
        let rest = s.substring_char(k, len);
        Some(rest.to_owned())
    } else {
        proof {
            assert forall|c: int| 0 <= c <= s@.len() implies #[trigger] utf8_len(s@.take(c)) != n as nat by {
                if c < k {
                } else if c > k {
                    lemma_utf8_len_strictly_grows(s@, k as int, c);
                }
            }
        }
        None
    }
}

/// First index, from `i` on, at which `needle` occurs in `hay`.
pub open spec fn find_from(hay: Seq<char>, needle: Seq<char>, i: int) -> Option<int>
    decreases hay.len() + 1 - i,
{
    if i < 0 || i + needle.len() > hay.len() {
        None
    } else if hay.subrange(i, i + needle.len()) == needle {
        Some(i)
    } else {
        find_from(hay, needle, i + 1)
    }
}

/// First index at which `needle` occurs in `hay`, as `str::find` gives it.
pub open spec fn find_first(hay: Seq<char>, needle: Seq<char>) -> Option<int> {
    find_from(hay, needle, 0)
}

/// What `find_from` returns is an occurrence, and none lies between the start and it.
pub proof fn lemma_find_from_is_first(hay: Seq<char>, needle: Seq<char>, i: int)
    requires
        0 <= i,
    ensures
        find_from(hay, needle, i) matches Some(p) ==> {
            &&& i <= p
            &&& p + needle.len() <= hay.len()
            &&& hay.subrange(p, p + needle.len()) == needle
            &&& forall|q: int| i <= q < p ==> #[trigger] hay.subrange(q, q + needle.len()) != needle
        },
        find_from(hay, needle, i) is None ==> forall|q: int|
            i <= q && q + needle.len() <= hay.len() ==> #[trigger] hay.subrange(q, q + needle.len()) != needle,
    decreases hay.len() + 1 - i,
{
    if i + needle.len() > hay.len() {
    } else if hay.subrange(i, i + needle.len()) == needle {
    } else {
        lemma_find_from_is_first(hay, needle, i + 1);
    }
}

/// Whether `a` and `b` agree on `len` characters from `a[start]` and `b[0]`.
fn matches_at(a: &Vec<char>, b: &Vec<char>, start: usize) -> (r: bool)
    requires
        start + b.len() <= a.len(),
    ensures
        r == (a@.subrange(start as int, start + b.len()) == b@),
{
    let mut j: usize = 0;
    while j < b.len()
        invariant
            start + b.len() <= a.len(),
            j <= b.len(),
            forall|t: int| 0 <= t < j ==> a@[start + t] == b@[t],
        decreases b.len() - j,
    {
        if a[start + j] != b[j] {
            assert(a@.subrange(start as int, start + b.len())[j as int] != b@[j as int]);
            return false;
        }
        j = j + 1;
    }
    assert(a@.subrange(start as int, start + b.len()) =~= b@);
    true
}

/// Character index of the first occurrence of `needle` in `hay`.
#[verifier::spinoff_prover]
pub fn find_chars(hay: &Vec<char>, needle: &Vec<char>) -> (r: Option<usize>)
    ensures
        r is Some <==> find_first(hay@, needle@) is Some,
        r matches Some(p) ==> p == find_first(hay@, needle@)->Some_0,
{
    if needle.len() > hay.len() {
        return None;
    }
    let last = hay.len() - needle.len();
    let mut i: usize = 0;
    loop
        invariant
            last + needle.len() == hay.len(),
            i <= last,
            find_from(hay@, needle@, i as int) == find_first(hay@, needle@),
        decreases last - i,
    {
        if matches_at(hay, needle, i) {
            return Some(i);
        }
        if i == last {
            return None;
        }
        i = i + 1;
    }
}

/// The character `'0' + d` for a digit `d`.
pub open spec fn digit_char(d: nat) -> char {
    if d == 0 {
        '0'
    } else if d == 1 {
        '1'
    } else if d == 2 {
        '2'
    } else if d == 3 {
        '3'
    } else if d == 4 {
        '4'
    } else if d == 5 {
        '5'
    } else if d == 6 {
        '6'
    } else if d == 7 {
        '7'
    } else if d == 8 {
        '8'
    } else {
        '9'
    }
}

/// Decimal digits of `n`, most significant first, without leading zeros.
pub open spec fn decimal(n: nat) -> Seq<char>
    decreases n,
{
    if n < 10 {
        seq![digit_char(n)]
    } else {
        decimal(n / 10).push(digit_char(n % 10))
    }
}

/// The value of a digit character.
pub open spec fn digit_value(c: char) -> nat {
    if c == '1' {
        1
    } else if c == '2' {
        2
    } else if c == '3' {
        3
    } else if c == '4' {
        4
    } else if c == '5' {
        5
    } else if c == '6' {
        6
    } else if c == '7' {
        7
    } else if c == '8' {
        8
    } else if c == '9' {
        9
    } else {
        0
    }
}

/// The number that decimal digits stand for.
pub open spec fn decimal_value(s: Seq<char>) -> nat
    decreases s.len(),
{
    if s.len() == 0 {
        0
    } else {
        decimal_value(s.drop_last()) * 10 + digit_value(s.last())
    }
}

/// The digits written for `n` read back as `n`, and there is at least one.
pub proof fn lemma_decimal_reads_back(n: nat)
    ensures
        decimal_value(decimal(n)) == n,
        decimal(n).len() >= 1,
    decreases n,
{
    if n >= 10 {
        lemma_decimal_reads_back(n / 10);
        assert(decimal(n).drop_last() =~= decimal(n / 10));
        assert(decimal(n).last() == digit_char(n % 10));
        assert(digit_value(digit_char(n % 10)) == n % 10);
        assert(n == (n / 10) * 10 + n % 10);
        assert(decimal(n).len() == decimal(n / 10).len() + 1);
        assert(decimal_value(decimal(n)) == decimal_value(decimal(n).drop_last()) * 10 + digit_value(
            decimal(n).last(),
        ));
    } else {
        assert(seq![digit_char(n)].drop_last() =~= Seq::<char>::empty());
        assert(decimal_value(Seq::<char>::empty()) == 0);
        assert(digit_value(digit_char(n)) == n);
    }
}

/// The digit of `d` is the character `d` places after '0'.
pub proof fn lemma_digit_chars(d: nat)
    requires
        d < 10,
    ensures
        digit_char(d) as u32 == '0' as u32 + d,
        decimal(d) == seq![digit_char(d)],
{
}

/// The one-character string of digit `d`.
fn digit_str(d: u64) -> (s: &'static str)
    requires
        d < 10,
    ensures
        s@ == seq![digit_char(d as nat)],
{
    proof {
        reveal_strlit("0");
        reveal_strlit("1");
        reveal_strlit("2");
        reveal_strlit("3");
        reveal_strlit("4");
        reveal_strlit("5");
        reveal_strlit("6");
        reveal_strlit("7");
        reveal_strlit("8");
        reveal_strlit("9");
    }
    if d == 0 {
        "0"
    } else if d == 1 {
        "1"
    } else if d == 2 {
        "2"
    } else if d == 3 {
        "3"
    } else if d == 4 {
        "4"
    } else if d == 5 {
        "5"
    } else if d == 6 {
        "6"
    } else if d == 7 {
        "7"
    } else if d == 8 {
        "8"
    } else {
        "9"
    }
}

/// Appends the decimal digits of `n` to `out`, as `format!("{}", n)` writes them.
pub fn push_decimal(out: &mut String, n: u64)
    ensures
        final(out)@ == old(out)@ + decimal(n as nat),
    decreases n,
{
    if n >= 10 {
        push_decimal(out, n / 10);
    }
    out.append(digit_str(n % 10));
    proof {
        if n >= 10 {
            assert(decimal(n as nat) == decimal((n / 10) as nat).push(digit_char((n % 10) as nat)));
        }
    }
}

/// `items` joined by `sep`, as `[..].join(sep)` builds it.
pub open spec fn seq_join(items: Seq<Seq<char>>, sep: Seq<char>) -> Seq<char>
    decreases items.len(),
{
    if items.len() == 0 {
        Seq::empty()
    } else if items.len() == 1 {
        items[0]
    } else {
        seq_join(items.drop_last(), sep) + sep + items.last()
    }
}

/// Where item `i` starts in the items joined by a separator of `sep_len`
/// characters: the lengths of the items before it, each with a separator.
pub open spec fn join_offset(items: Seq<Seq<char>>, sep_len: nat, i: int) -> int
    decreases i,
{
    if i <= 0 {
        0
    } else {
        join_offset(items, sep_len, i - 1) + items[i - 1].len() + sep_len
    }
}

/// Offsets do not depend on the items after them.
proof fn lemma_join_offset_prefix(items: Seq<Seq<char>>, sep_len: nat, i: int)
    requires
        0 <= i < items.len(),
    ensures
        join_offset(items.drop_last(), sep_len, i) == join_offset(items, sep_len, i),
    decreases i,
{
    if i > 0 {
        lemma_join_offset_prefix(items, sep_len, i - 1);
    }
}

/// Later items start no earlier than earlier items end.
proof fn lemma_join_offset_grows(items: Seq<Seq<char>>, sep_len: nat, i: int, j: int)
    requires
        0 <= i < j,
    ensures
        join_offset(items, sep_len, i) + items[i].len() + sep_len <= join_offset(items, sep_len, j),
    decreases j - i,
{
    if i < j - 1 {
        lemma_join_offset_grows(items, sep_len, i, j - 1);
    }
}

/// The length of items joined by a separator of `sep_len` characters.
pub open spec fn join_len(items: Seq<Seq<char>>, sep_len: nat) -> int {
    if items.len() == 0 {
        0
    } else {
        join_offset(items, sep_len, items.len() - 1) + items.last().len()
    }
}

/// Offsets are never negative.
proof fn lemma_join_offset_nonneg(items: Seq<Seq<char>>, sep_len: nat, i: int)
    ensures
        join_offset(items, sep_len, i) >= 0,
    decreases i,
{
    if i > 0 {
        lemma_join_offset_nonneg(items, sep_len, i - 1);
    }
}

/// The length of joined items.
proof fn lemma_join_length(items: Seq<Seq<char>>, sep: Seq<char>)
    ensures
        seq_join(items, sep).len() == join_len(items, sep.len()),
    decreases items.len(),
{
    if items.len() >= 2 {
        let front = items.drop_last();
        lemma_join_length(front, sep);
        lemma_join_offset_prefix(items, sep.len(), items.len() - 2);
    }
}

/// Item `i` stands whole at its offset.
proof fn lemma_join_item(items: Seq<Seq<char>>, sep: Seq<char>, i: int)
    requires
        0 <= i < items.len(),
    ensures
        seq_join(items, sep).subrange(
            join_offset(items, sep.len(), i),
            join_offset(items, sep.len(), i) + items[i].len(),
        ) == items[i],
    decreases items.len(),
{
    let l = sep.len();
    let j = seq_join(items, sep);
    lemma_join_offset_nonneg(items, l, i);
    if items.len() == 1 {
        assert(j.subrange(0, items[0].len() as int) =~= items[0]);
    } else {
        let n = items.len() as int;
        let front = items.drop_last();
        let jf = seq_join(front, sep);
        lemma_join_length(front, sep);
        lemma_join_offset_prefix(items, l, n - 2);
        lemma_join_offset_prefix(items, l, n - 1);
        assert(j == jf + sep + items.last());
        if i < n - 1 {
            lemma_join_item(front, sep, i);
            lemma_join_offset_prefix(items, l, i);
            if i < n - 2 {
                lemma_join_offset_grows(items, l, i, n - 2);
            }
            let x = join_offset(items, l, i);
            assert(x + items[i].len() <= jf.len());
            assert(j.subrange(x, x + items[i].len()) =~= jf.subrange(x, x + items[i].len()));
        } else {
            let x = join_offset(items, l, i);
            assert(x == jf.len() + l);
            assert(j.subrange(x, x + items[i].len()) =~= items.last());
        }
    }
}

/// Exactly the separator stands between items `i` and `i + 1`.
proof fn lemma_join_separator(items: Seq<Seq<char>>, sep: Seq<char>, i: int)
    requires
        0 <= i < items.len() - 1,
    ensures
        seq_join(items, sep).subrange(
            join_offset(items, sep.len(), i) + items[i].len(),
            join_offset(items, sep.len(), i + 1),
        ) == sep,
    decreases items.len(),
{
    let l = sep.len();
    let j = seq_join(items, sep);
    let n = items.len() as int;
    let front = items.drop_last();
    let jf = seq_join(front, sep);
    lemma_join_offset_nonneg(items, l, i);
    lemma_join_length(front, sep);
    lemma_join_offset_prefix(items, l, n - 2);
    lemma_join_offset_prefix(items, l, i);
    assert(j == jf + sep + items.last());
    let x = join_offset(items, l, i) + items[i].len();
    if i < n - 2 {
        lemma_join_separator(front, sep, i);
        lemma_join_offset_prefix(items, l, i + 1);
        if i + 1 < n - 2 {
            lemma_join_offset_grows(items, l, i + 1, n - 2);
        }
        assert(j.subrange(x, join_offset(items, l, i + 1)) =~= jf.subrange(x, join_offset(items, l, i + 1)));
    } else {
        assert(x == jf.len());
        assert(j.subrange(x, join_offset(items, l, i + 1)) =~= sep);
    }
}

/// Each item, and the separator after it, lie within the joined text.
pub proof fn lemma_join_offsets_fit(items: Seq<Seq<char>>, sep: Seq<char>, i: int)
    requires
        0 <= i < items.len(),
    ensures
        0 <= join_offset(items, sep.len(), i),
        join_offset(items, sep.len(), i) + items[i].len() <= seq_join(items, sep).len(),
        i < items.len() - 1 ==> join_offset(items, sep.len(), i + 1) == join_offset(items, sep.len(), i)
            + items[i].len() + sep.len(),
        i < items.len() - 1 ==> join_offset(items, sep.len(), i + 1) <= seq_join(items, sep).len(),
{
    let n = items.len() as int;
    lemma_join_offset_nonneg(items, sep.len(), i);
    lemma_join_length(items, sep);
    if i < n - 1 {
        lemma_join_offset_grows(items, sep.len(), i, n - 1);
        lemma_join_offset_nonneg(items, sep.len(), i + 1);
        if i + 1 < n - 1 {
            lemma_join_offset_grows(items, sep.len(), i + 1, n - 1);
        }
    }
}

/// Joining keeps every item, whole and in order, each at its offset, with
/// exactly the separator between two neighbours and nothing else.
pub proof fn lemma_seq_join_holds_items(items: Seq<Seq<char>>, sep: Seq<char>)
    ensures
        seq_join(items, sep).len() == join_len(items, sep.len()),
        forall|i: int|
            0 <= i < items.len() ==> seq_join(items, sep).subrange(
                join_offset(items, sep.len(), i),
                join_offset(items, sep.len(), i) + items[i].len(),
            ) == #[trigger] items[i],
        forall|i: int|
            0 <= i < items.len() - 1 ==> seq_join(items, sep).subrange(
                join_offset(items, sep.len(), i) + (#[trigger] items[i]).len(),
                join_offset(items, sep.len(), i + 1),
            ) == sep,
{
    lemma_join_length(items, sep);
    assert forall|i: int| 0 <= i < items.len() implies seq_join(items, sep).subrange(
        join_offset(items, sep.len(), i),
        join_offset(items, sep.len(), i) + items[i].len(),
    ) == #[trigger] items[i] by {
        lemma_join_item(items, sep, i);
    }
    assert forall|i: int| 0 <= i < items.len() - 1 implies seq_join(items, sep).subrange(
        join_offset(items, sep.len(), i) + (#[trigger] items[i]).len(),
        join_offset(items, sep.len(), i + 1),
    ) == sep by {
        lemma_join_separator(items, sep, i);
    }
}

/// The views of a list of strings.
pub open spec fn string_views(items: Seq<String>) -> Seq<Seq<char>> {
    items.map_values(|s: String| s@)
}

/// Joins `items` with `sep` between each two of them.
pub fn join_strings(items: &Vec<String>, sep: &str) -> (r: String)
    ensures
        r@ == seq_join(string_views(items@), sep@),
{
    let mut r = String::new();
    let ghost views = string_views(items@);
    let mut i: usize = 0;
    while i < items.len()
        invariant
            views == string_views(items@),
            i <= items.len(),
            r@ == seq_join(views.take(i as int), sep@),
        decreases items.len() - i,
    {
        assert(views.take(i + 1).drop_last() =~= views.take(i as int));
        if i != 0 {
            r.append(sep);
        }
        r.append(items[i].as_str());
        proof {
            if i == 0 {
                assert(views.take(1) =~= seq![views[0]]);
                assert(r@ =~= seq_join(views.take(1), sep@));
            }
        }
        i = i + 1;
    }
    assert(views.take(items.len() as int) =~= views);
    r
}

} // verus!
