//! Character-level text helpers used by the panes.
//!
//! The panes keep the text they edit as sequences of characters; these helpers
//! move text between `str`/`String` and character vectors, compare it, and search it.

use vstd::prelude::*;

verus! {

/// Lower-case form of a text, as `str::to_lowercase` computes it (Unicode rules,
/// independent of locale).
pub uninterp spec fn lowercase_of(s: Seq<char>) -> Seq<char>;

/// Every character of `s` is ASCII.
pub open spec fn is_ascii_chars(s: Seq<char>) -> bool {
    forall|i: int| 0 <= i < s.len() ==> (#[trigger] s[i] as u32) < 128
}

/// An ASCII character in lower case: capitals A to Z become a to z.
pub open spec fn ascii_lower(c: char) -> char {
    if 'A' <= c && c <= 'Z' {
        ((c as u32) + 32) as char
    } else {
        c
    }
}

/// An ASCII text in lower case.
pub open spec fn ascii_lowercase(s: Seq<char>) -> Seq<char> {
    s.map_values(|c: char| ascii_lower(c))
}

/// `needle` occurs in `hay` as a contiguous run (the empty text occurs everywhere).
pub open spec fn occurs_in(hay: Seq<char>, needle: Seq<char>) -> bool {
    exists|i: int|
        0 <= i && i + needle.len() <= hay.len() && #[trigger] hay.subrange(i, i + needle.len())
            == needle
}

/// `p` is a prefix of `s`.
pub open spec fn is_prefix(p: Seq<char>, s: Seq<char>) -> bool {
    p.len() <= s.len() && s.subrange(0, p.len() as int) == p
}

/// `p` is the longest common prefix of `a` and `b`: a prefix of both, and either one
/// of them ends there or they differ at the next position.
pub open spec fn is_longest_common_prefix(p: Seq<char>, a: Seq<char>, b: Seq<char>) -> bool {
    &&& is_prefix(p, a)
    &&& is_prefix(p, b)
    &&& (p.len() == a.len() || p.len() == b.len() || a[p.len() as int] != b[p.len() as int])
}

/// Compares two strings character by character.
pub fn str_eq(a: &str, b: &str) -> (r: bool)
    ensures
        r == (a@ == b@),
{
    let n = a.unicode_len();
    let m = b.unicode_len();
    if n != m {
        return false;
    }
    let mut i: usize = 0;
    while i < n
        invariant
            n == a@.len(),
            m == b@.len(),
            n == m,
            i <= n,
            forall|j: int| 0 <= j < i ==> a@[j] == b@[j],
        decreases n - i,
    {
        if a.get_char(i) != b.get_char(i) {
            return false;
        }
        i = i + 1;
    }
    assert(a@ =~= b@);
    true
}

/// The characters of a string, in order.
pub fn chars_of(s: &str) -> (v: Vec<char>)
    ensures
        v@ == s@,
{
    let n = s.unicode_len();
    let mut v: Vec<char> = Vec::new();
    let mut i: usize = 0;
    while i < n
        invariant
            n == s@.len(),
            i <= n,
            v@ == s@.subrange(0, i as int),
        decreases n - i,
    {
        let c = s.get_char(i);
        v.push(c);
        i = i + 1;
        assert(v@ =~= s@.subrange(0, i as int));
    }
    assert(s@.subrange(0, n as int) =~= s@);
    v
}

/// A string made of the given characters, in order (`String: FromIterator<char>`).
#[verifier::external_body]
pub(crate) fn string_of(v: &Vec<char>) -> (s: String)
    ensures
        s@ == v@,
{
    v.iter().collect::<String>()
}

/// The lower-case form of a text (`str::to_lowercase`): the result is named by
/// `lowercase_of`. Claimed here: the empty text stays empty, and an ASCII text
/// has its capitals A to Z turned into a to z and keeps every other character.
/// What happens to other characters is Unicode's case data and is left unsaid.
#[verifier::external_body]
pub(crate) fn to_lowercase(s: &str) -> (r: String)
    ensures
        r@ == lowercase_of(s@),
        s@.len() == 0 ==> r@.len() == 0,
        is_ascii_chars(s@) ==> r@ == ascii_lowercase(s@),
{
    s.to_lowercase()
}

/// Whether `needle` occurs in `hay` as a contiguous run of characters.
pub fn contains_chars(hay: &Vec<char>, needle: &Vec<char>) -> (r: bool)
    ensures
        r == occurs_in(hay@, needle@),
{
    let n = hay.len();
    let m = needle.len();
    if m > n {
        assert(!occurs_in(hay@, needle@));
        return false;
    }
    let mut i: usize = 0;
    while i <= n - m
        invariant
            n == hay@.len(),
            m == needle@.len(),
            m <= n,
            i <= n - m + 1,
            forall|k: int| 0 <= k < i ==> #[trigger] hay@.subrange(k, k + needle@.len()) != needle@,
        decreases n - m + 1 - i,
    {
        let mut j: usize = 0;
        let mut same = true;
        while j < m
            invariant
                n == hay@.len(),
                m == needle@.len(),
                i + m <= n,
                j <= m,
                same == (forall|t: int| 0 <= t < j ==> hay@[i + t] == needle@[t]),
            decreases m - j,
        {
            if hay[i + j] != needle[j] {
                same = false;
            }
            j = j + 1;
        }
        if same {
            assert(hay@.subrange(i as int, i + m) =~= needle@);
            return true;
        }
        assert(hay@.subrange(i as int, i + m) != needle@) by {
            let t = choose|t: int| 0 <= t < m && hay@[i + t] != needle@[t];
            assert(hay@.subrange(i as int, i + m)[t] == hay@[i + t]);
        }
        i = i + 1;
    }
    assert forall|k: int| 0 <= k && k + needle@.len() <= hay@.len() implies #[trigger] hay@.subrange(
        k,
        k + needle@.len(),
    ) != needle@ by {
        assert(k < i);
    }
    false
}

/// Whether `needle` occurs in `hay` (`str::contains` with a string pattern).
pub fn str_contains(hay: &str, needle: &str) -> (r: bool)
    ensures
        r == occurs_in(hay@, needle@),
{
    let h = chars_of(hay);
    let n = chars_of(needle);
    contains_chars(&h, &n)
}

/// The longest common prefix of two strings.
pub fn longest_common_prefix(a: &str, b: &str) -> (r: String)
    ensures
        is_longest_common_prefix(r@, a@, b@),
{
    let n = a.unicode_len();
    let m = b.unicode_len();
    let mut i: usize = 0;
    while i < n && i < m && a.get_char(i) == b.get_char(i)
        invariant
            n == a@.len(),
            m == b@.len(),
            i <= n,
            i <= m,
            forall|j: int| 0 <= j < i ==> a@[j] == b@[j],
        decreases n - i,
    {
        i = i + 1;
    }
    let p = a.substring_char(0, i);
    let r = String::from_str(p);
    assert(a@.subrange(0, i as int) =~= b@.subrange(0, i as int));
    r
}

} // verus!

verus! {

/// The character of a decimal digit.
pub open spec fn digit_char(d: int) -> char {
    (48 + d) as char
}

/// Decimal notation of a natural number, without leading zeros.
pub open spec fn decimal(n: nat) -> Seq<char>
    decreases n,
{
    if n < 10 {
        seq![digit_char(n as int)]
    } else {
        decimal(n / 10) + seq![digit_char((n % 10) as int)]
    }
}

/// Decimal notation of an integer, with a leading `-` when negative.
pub open spec fn signed_decimal(n: int) -> Seq<char> {
    if n < 0 {
        seq!['-'] + decimal((-n) as nat)
    } else {
        decimal(n as nat)
    }
}

/// The one-character text of a decimal digit.
fn digit_str(d: u64) -> (r: &'static str)
    requires
        d < 10,
    ensures
        r@ == seq![digit_char(d as int)],
{
    proof {
        reveal_strlit("0");
        reveal_strlit("1");
        reveal_strlit("2");
        reveal_strlit("3");
        reveal_strlit("4");
        reveal_strlit("5");
        reveal_strlit("6");
        reveal_strlit("7");
        reveal_strlit("8");
        reveal_strlit("9");
    }
    let r = if d == 0 {
        "0"
    } else if d == 1 {
        "1"
    } else if d == 2 {
        "2"
    } else if d == 3 {
        "3"
    } else if d == 4 {
        "4"
    } else if d == 5 {
        "5"
    } else if d == 6 {
        "6"
    } else if d == 7 {
        "7"
    } else if d == 8 {
        "8"
    } else {
        "9"
    };
    assert(r@ =~= seq![digit_char(d as int)]);
    r
}

/// Appends the decimal notation of `n`.
pub fn push_decimal(s: &mut String, n: u64)
    ensures
        final(s)@ == old(s)@ + decimal(n as nat),
    decreases n,
{
    if n >= 10 {
        push_decimal(s, n / 10);
    }
    let d = digit_str(n % 10);
    s.append(d);
    assert(final(s)@ =~= old(s)@ + decimal(n as nat)) by {
        if n >= 10 {
            assert(decimal(n as nat) == decimal((n / 10) as nat) + seq![digit_char((n % 10) as int)]);
        }
    }
}

/// Appends the decimal notation of `n`, with a leading `-` when negative.
pub fn push_signed_decimal(s: &mut String, n: i64)
    requires
        n > i64::MIN,
    ensures
        final(s)@ == old(s)@ + signed_decimal(n as int),
{
    if n < 0 {
        proof {
            reveal_strlit("-");
        }
        s.append("-");
        push_decimal(s, (-n) as u64);
        assert(final(s)@ =~= old(s)@ + signed_decimal(n as int));
    } else {
        push_decimal(s, n as u64);
    }
}

} // verus!

verus! {

/// The longest common prefix of two texts.
pub open spec fn lcp(a: Seq<char>, b: Seq<char>) -> Seq<char>
    decreases a.len(),
{
    if a.len() == 0 || b.len() == 0 || a[0] != b[0] {
        Seq::empty()
    } else {
        seq![a[0]] + lcp(a.subrange(1, a.len() as int), b.subrange(1, b.len() as int))
    }
}

/// `lcp` is the longest common prefix, and it is the only text that is.
pub proof fn lemma_lcp(a: Seq<char>, b: Seq<char>, p: Seq<char>)
    ensures
        is_longest_common_prefix(lcp(a, b), a, b),
        is_longest_common_prefix(p, a, b) ==> p == lcp(a, b),
    decreases a.len(),
{
    if a.len() == 0 || b.len() == 0 || a[0] != b[0] {
        if is_longest_common_prefix(p, a, b) && p.len() > 0 {
            assert(a[0] == p[0] && b[0] == p[0]) by {
                assert(a.subrange(0, p.len() as int)[0] == p[0]);
                assert(b.subrange(0, p.len() as int)[0] == p[0]);
            }
        }
        assert(lcp(a, b) =~= Seq::<char>::empty());
        assert(a.subrange(0, 0) =~= Seq::<char>::empty());
        assert(b.subrange(0, 0) =~= Seq::<char>::empty());
        if is_longest_common_prefix(p, a, b) {
            assert(p =~= Seq::<char>::empty());
        }
    } else {
        let a1 = a.subrange(1, a.len() as int);
        let b1 = b.subrange(1, b.len() as int);
        let p1 = if p.len() > 0 { p.subrange(1, p.len() as int) } else { p };
        lemma_lcp(a1, b1, p1);
        let l1 = lcp(a1, b1);
        assert(lcp(a, b) == seq![a[0]] + l1);
        assert(a.subrange(0, 1 + l1.len() as int) =~= seq![a[0]] + a1.subrange(0, l1.len() as int));
        assert(b.subrange(0, 1 + l1.len() as int) =~= seq![b[0]] + b1.subrange(0, l1.len() as int));
        if l1.len() < a1.len() && l1.len() < b1.len() {
            assert(a[1 + l1.len() as int] == a1[l1.len() as int]);
            assert(b[1 + l1.len() as int] == b1[l1.len() as int]);
        }
        assert(a.subrange(0, 1 + l1.len() as int) =~= lcp(a, b));
        assert(b.subrange(0, 1 + l1.len() as int) =~= lcp(a, b));
        assert(is_longest_common_prefix(lcp(a, b), a, b));
        if is_longest_common_prefix(p, a, b) {
            if p.len() == 0 {
                assert(a.subrange(0, 0) =~= p);
                assert(false);
            }
            assert(a1.subrange(0, p1.len() as int) =~= a.subrange(0, p.len() as int).subrange(1, p.len() as int));
            assert(b1.subrange(0, p1.len() as int) =~= b.subrange(0, p.len() as int).subrange(1, p.len() as int));
            if p1.len() < a1.len() && p1.len() < b1.len() {
                assert(a[p.len() as int] == a1[p1.len() as int]);
                assert(b[p.len() as int] == b1[p1.len() as int]);
            }
            assert(is_longest_common_prefix(p1, a1, b1));
            assert(p[0] == a[0]) by {
                assert(a.subrange(0, p.len() as int)[0] == p[0]);
            }
            assert(p =~= seq![a[0]] + p1);
        }
    }
}

/// The longest common prefix of two character sequences.
pub fn lcp_chars(a: &Vec<char>, b: &Vec<char>) -> (r: Vec<char>)
    ensures
        r@ == lcp(a@, b@),
{
    let mut r: Vec<char> = Vec::new();
    let mut i: usize = 0;
    while i < a.len() && i < b.len() && a[i] == b[i]
        invariant
            i <= a@.len(),
            i <= b@.len(),
            r@ == a@.subrange(0, i as int),
            forall|j: int| 0 <= j < i ==> a@[j] == b@[j],
        decreases a@.len() - i,
    {
        r.push(a[i]);
        i = i + 1;
        assert(r@ =~= a@.subrange(0, i as int));
    }
    proof {
        assert(a@.subrange(0, i as int) =~= b@.subrange(0, i as int));
        lemma_lcp(a@, b@, r@);
    }
    r
}

} // verus!

verus! {

/// A copy of a character sequence.
pub fn copy_chars(v: &Vec<char>) -> (r: Vec<char>)
    ensures
        r@ == v@,
{
    let mut r: Vec<char> = Vec::new();
    let mut i: usize = 0;
    while i < v.len()
        invariant
            i <= v@.len(),
            r@ == v@.subrange(0, i as int),
        decreases v@.len() - i,
    {
        r.push(v[i]);
        i = i + 1;
        assert(r@ =~= v@.subrange(0, i as int));
    }
    assert(v@.subrange(0, v@.len() as int) =~= v@);
    r
}

/// The lower-case form of a character sequence.
pub fn lowercase_chars(v: &Vec<char>) -> (r: Vec<char>)
    ensures
        r@ == lowercase_of(v@),
        v@.len() == 0 ==> r@.len() == 0,
        is_ascii_chars(v@) ==> r@ == ascii_lowercase(v@),
{
    let s = string_of(v);
    let l = to_lowercase(s.as_str());
    chars_of(l.as_str())
}

} // verus!

verus! {

/// `s` right-aligned in a field `width` characters wide: spaces in front when
/// it is shorter, unchanged when it is not.
pub open spec fn pad_left(s: Seq<char>, width: nat) -> Seq<char> {
    if s.len() < width {
        Seq::new((width - s.len()) as nat, |_i: int| ' ') + s
    } else {
        s
    }
}

/// `s` right-aligned in a field `width` characters wide.
pub fn pad_left_str(s: &str, width: usize) -> (r: String)
    ensures
        r@ == pad_left(s@, width as nat),
{
    let n = s.unicode_len();
    let mut r = String::new();
    let mut i: usize = n;
    while i < width
        invariant
            n == s@.len(),
            n <= i <= width || (i == n && width <= n),
            r@ == Seq::new((i - n) as nat, |_i: int| ' '),
        decreases width - i,
    {
        proof {
            reveal_strlit(" ");
        }
        r.append(" ");
        i = i + 1;
        assert(r@ =~= Seq::new((i - n) as nat, |_i: int| ' '));
    }
    r.append(s);
    assert(r@ =~= pad_left(s@, width as nat));
    r
}

} // verus!

verus! {

/// The first `n` characters of `s` (all of it when it is shorter).
pub open spec fn take_chars(s: Seq<char>, n: int) -> Seq<char> {
    if s.len() <= n { s } else { s.subrange(0, n) }
}

/// `name` cut to `n` characters.
pub fn take_str(name: &str, n: usize) -> (r: String)
    ensures
        r@ == take_chars(name@, n as int),
{
    let len = name.unicode_len();
    if len <= n {
        String::from_str(name)
    } else {
        String::from_str(name.substring_char(0, n))
    }
}

} // verus!

verus! {

/// How many bytes the UTF-8 encoding of `c` takes.
pub open spec fn utf8_len(c: char) -> nat {
    let u = c as u32;
    if u < 0x80 {
        1
    } else if u < 0x800 {
        2
    } else if u < 0x10000 {
        3
    } else {
        4
    }
}

/// How many bytes the UTF-8 encoding of `s` takes.
pub open spec fn byte_len(s: Seq<char>) -> nat
    decreases s.len(),
{
    if s.len() == 0 {
        0
    } else {
        byte_len(s.drop_last()) + utf8_len(s.last())
    }
}

/// Byte offset `b` is where a character of `s` starts, or the end of `s`.
pub open spec fn is_char_boundary(s: Seq<char>, b: int) -> bool {
    exists|k: int| 0 <= k <= s.len() && byte_len(s.take(k)) == b
}

/// The position of the character that starts at byte offset `b` of `s` (the
/// length of `s` at its end).
pub open spec fn char_index(s: Seq<char>, b: int) -> int {
    choose|k: int| 0 <= k <= s.len() && byte_len(s.take(k)) == b
}

/// One more character adds its bytes.
pub proof fn lemma_byte_len_step(s: Seq<char>, k: int)
    requires
        0 <= k < s.len(),
    ensures
        byte_len(s.take(k + 1)) == byte_len(s.take(k)) + utf8_len(s[k]),
{
    assert(s.take(k + 1).drop_last() =~= s.take(k));
}

/// Longer prefixes take more bytes.
pub proof fn lemma_byte_len_increasing(s: Seq<char>, j: int, k: int)
    requires
        0 <= j < k <= s.len(),
    ensures
        byte_len(s.take(j)) < byte_len(s.take(k)),
        byte_len(s.take(j)) + utf8_len(s[j]) <= byte_len(s.take(k)),
    decreases k - j,
{
    lemma_byte_len_step(s, k - 1);
    if j < k - 1 {
        lemma_byte_len_increasing(s, j, k - 1);
    }
}

/// The whole text is its longest prefix.
pub proof fn lemma_byte_len_whole(s: Seq<char>)
    ensures
        byte_len(s.take(s.len() as int)) == byte_len(s),
{
    assert(s.take(s.len() as int) =~= s);
}

/// A prefix of `k` characters that ends at byte `b` is the one `char_index` names.
pub proof fn lemma_char_index(s: Seq<char>, b: int, k: int)
    requires
        0 <= k <= s.len(),
        byte_len(s.take(k)) == b,
    ensures
        is_char_boundary(s, b),
        char_index(s, b) == k,
{
    let j = char_index(s, b);
    if j < k {
        lemma_byte_len_increasing(s, j, k);
    } else if k < j {
        lemma_byte_len_increasing(s, k, j);
    }
}

/// The bytes of a text are those of its parts.
pub proof fn lemma_byte_len_concat(a: Seq<char>, b: Seq<char>)
    ensures
        byte_len(a + b) == byte_len(a) + byte_len(b),
    decreases b.len(),
{
    if b.len() > 0 {
        lemma_byte_len_concat(a, b.drop_last());
        assert((a + b).drop_last() =~= a + b.drop_last());
    }
}

/// How many bytes UTF-8 takes for `c`.
pub fn utf8_char_len(c: char) -> (r: usize)
    ensures
        r == utf8_len(c),
{
    let u = c as u32;
    if u < 0x80 {
        1
    } else if u < 0x800 {
        2
    } else if u < 0x10000 {
        3
    } else {
        4
    }
}

/// The UTF-8 length of the characters, in bytes.
pub fn byte_length(v: &Vec<char>) -> (r: usize)
    requires
        byte_len(v@) <= usize::MAX,
    ensures
        r == byte_len(v@),
{
    let mut acc: usize = 0;
    let mut i: usize = 0;
    proof {
        lemma_byte_len_whole(v@);
    }
    while i < v.len()
        invariant
            i <= v@.len(),
            acc == byte_len(v@.take(i as int)),
            byte_len(v@.take(v@.len() as int)) <= usize::MAX,
        decreases v@.len() - i,
    {
        proof {
            lemma_byte_len_step(v@, i as int);
            if i + 1 < v@.len() {
                lemma_byte_len_increasing(v@, i + 1, v@.len() as int);
            }
        }
        acc = acc + utf8_char_len(v[i]);
        i = i + 1;
    }
    proof {
        lemma_byte_len_whole(v@);
    }
    acc
}

/// The position of the character that starts at byte offset `b` (the length at
/// the end), or `None` when `b` falls inside a character or past the end.
pub fn char_at_byte(v: &Vec<char>, b: usize) -> (r: Option<usize>)
    requires
        byte_len(v@) <= usize::MAX,
    ensures
        match r {
            Some(k) => k <= v@.len() && byte_len(v@.take(k as int)) == b && char_index(v@, b as int) == k,
            None => !is_char_boundary(v@, b as int),
        },
{
    let mut acc: usize = 0;
    let mut i: usize = 0;
    proof {
        lemma_byte_len_whole(v@);
    }
    while i < v.len() && acc < b
        invariant
            i <= v@.len(),
            acc == byte_len(v@.take(i as int)),
            byte_len(v@.take(v@.len() as int)) <= usize::MAX,
            forall|j: int| 0 <= j < i ==> #[trigger] byte_len(v@.take(j)) < b,
        decreases v@.len() - i,
    {
        proof {
            lemma_byte_len_step(v@, i as int);
            if i + 1 < v@.len() {
                lemma_byte_len_increasing(v@, i + 1, v@.len() as int);
            }
        }
        acc = acc + utf8_char_len(v[i]);
        i = i + 1;
    }
    if acc == b {
        proof {
            lemma_char_index(v@, b as int, i as int);
        }
        Some(i)
    } else {
        proof {
            if is_char_boundary(v@, b as int) {
                let k = choose|k: int| 0 <= k <= v@.len() && byte_len(v@.take(k)) == b;
                if k < i {
                    assert(byte_len(v@.take(k)) < b);
                } else if k > i {
                    lemma_byte_len_increasing(v@, i as int, k);
                }
            }
        }
        None
    }
}

} // verus!
