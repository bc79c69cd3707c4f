//! Character-level text operations: equality, decimal numbers, substring
//! search, whitespace trimming, line splitting, joining and sorting.
use vstd::prelude::*;
use vstd::string::*;

verus! {

/// Copies the characters of `s` into a vector.
pub fn chars_of(s: &str) -> (v: Vec<char>)
    ensures
        v@ == s@,
{
    let mut v: Vec<char> = Vec::new();
    for c in it: s.chars()
        invariant
            v@ == it.seq().take(it.index() as int),
            it.seq() == s@,
    {
        v.push(c);
    }
    v
}

/// Whether two character vectors hold the same characters.
pub fn chars_eq(a: &Vec<char>, b: &Vec<char>) -> (r: bool)
    ensures
        r == (a@ == b@),
{
    if a.len() != b.len() {
        return false;
    }
    let mut i: usize = 0;
    while i < a.len()
        invariant
            i <= a.len(),
            a.len() == b.len(),
            forall|k: int| 0 <= k < i ==> a@[k] == b@[k],
        decreases a.len() - i,
    {
        if a[i] != b[i] {
            return false;
        }
        i += 1;
    }
    assert(a@ =~= b@);
    true
}

/// Whether two strings hold the same characters.
pub fn str_eq(a: &str, b: &str) -> (r: bool)
    ensures
        r == (a@ == b@),
{
    let x = chars_of(a);
    let y = chars_of(b);
    chars_eq(&x, &y)
}

/// A new string holding the characters of `s`.
pub fn owned(s: &str) -> (r: String)
    ensures
        r@ == s@,
{
    String::from_str(s)
}

/// The string `a` followed by `b`.
pub fn concat2(a: &str, b: &str) -> (r: String)
    ensures
        r@ == a@ + b@,
{
    let mut r = String::from_str(a);
    r.append(b);
    r
}

/// The string `a`, `b`, `c` in that order.
pub fn concat3(a: &str, b: &str, c: &str) -> (r: String)
    ensures
        r@ == a@ + b@ + c@,
{
    let mut r = String::from_str(a);
    r.append(b);
    r.append(c);
    r
}

// ---------------------------------------------------------------------------
// Decimal numbers
// ---------------------------------------------------------------------------

/// The ASCII digit for `d` (`d < 10`).
pub open spec fn digit_char(d: nat) -> char {
    if d == 0 {
        '0'
    } else if d == 1 {
        '1'
    } else if d == 2 {
        '2'
    } else if d == 3 {
        '3'
    } else if d == 4 {
        '4'
    } else if d == 5 {
        '5'
    } else if d == 6 {
        '6'
    } else if d == 7 {
        '7'
    } else if d == 8 {
        '8'
    } else {
        '9'
    }
}

/// The decimal notation of `n`, without leading zeros.
pub open spec fn decimal(n: nat) -> Seq<char>
    decreases n,
{
    if n < 10 {
        seq![digit_char(n)]
    } else {
        decimal(n / 10).push(digit_char(n % 10))
    }
}

/// The decimal notation of a signed number: a minus sign before the digits
/// of a negative one.
pub open spec fn signed_decimal(n: int) -> Seq<char> {
    if n < 0 {
        seq!['-'] + decimal((-n) as nat)
    } else {
        decimal(n as nat)
    }
}

fn digit_str(d: u64) -> (s: &'static str)
    requires
        d < 10,
    ensures
        s@ == seq![digit_char(d as nat)],
{
    proof {
        reveal_strlit("0");
        reveal_strlit("1");
        reveal_strlit("2");
        reveal_strlit("3");
        reveal_strlit("4");
        reveal_strlit("5");
        reveal_strlit("6");
        reveal_strlit("7");
        reveal_strlit("8");
        reveal_strlit("9");
    }
    if d == 0 {
        "0"
    } else if d == 1 {
        "1"
    } else if d == 2 {
        "2"
    } else if d == 3 {
        "3"
    } else if d == 4 {
        "4"
    } else if d == 5 {
        "5"
    } else if d == 6 {
        "6"
    } else if d == 7 {
        "7"
    } else if d == 8 {
        "8"
    } else {
        "9"
    }
}

/// The decimal notation of `n`.
pub fn decimal_string(n: u64) -> (s: String)
    ensures
        s@ == decimal(n as nat),
    decreases n,
{
    if n < 10 {
        String::from_str(digit_str(n))
    } else {
        let mut s = decimal_string(n / 10);
        s.append(digit_str(n % 10));
        s
    }
}

/// The decimal notation of a signed `n`.
pub fn signed_decimal_string(n: i64) -> (s: String)
    ensures
        s@ == signed_decimal(n as int),
{
    if n < 0 {
        let m: u64 = ((-(n + 1)) as u64) + 1;
        let digits = decimal_string(m);
        proof {
            reveal_strlit("-");
        }
        concat2("-", digits.as_str())
    } else {
        decimal_string(n as u64)
    }
}

// ---------------------------------------------------------------------------
// Substring search
// ---------------------------------------------------------------------------

/// `p` occurs in `s` starting at index `i`.
pub open spec fn occurs_at(s: Seq<char>, p: Seq<char>, i: int) -> bool {
    &&& 0 <= i
    &&& i + p.len() <= s.len()
    &&& s.subrange(i, i + p.len()) == p
}

/// `p` occurs somewhere in `s` (the empty pattern occurs in every string).
pub open spec fn contains_seq(s: Seq<char>, p: Seq<char>) -> bool {
    exists|i: int| occurs_at(s, p, i)
}

/// An occurrence of an occurrence: when `q` occurs in `s` and `p` in `q`,
/// `p` occurs in `s`.
pub proof fn lemma_contains_trans(s: Seq<char>, q: Seq<char>, p: Seq<char>)
    requires
        contains_seq(s, q),
        contains_seq(q, p),
    ensures
        contains_seq(s, p),
{
    let i = choose|i: int| occurs_at(s, q, i);
    let j = choose|j: int| occurs_at(q, p, j);
    assert forall|k: int| 0 <= k < p.len() implies s.subrange(i + j, i + j + p.len())[k] == p[k] by {
        assert(q.subrange(j, j + p.len())[k] == p[k]);
        assert(s.subrange(i, i + q.len())[j + k] == q[j + k]);
    }
    assert(s.subrange(i + j, i + j + p.len()) =~= p);
    assert(occurs_at(s, p, i + j));
}

pub fn matches_at(s: &Vec<char>, p: &Vec<char>, i: usize) -> (r: bool)
    requires
        i <= s.len(),
    ensures
        r == occurs_at(s@, p@, i as int),
{
    if p.len() > s.len() - i {
        return false;
    }
    let mut k: usize = 0;
    while k < p.len()
        invariant
            k <= p.len(),
            i + p.len() <= s.len(),
            forall|j: int| 0 <= j < k ==> s@[i + j] == p@[j],
        decreases p.len() - k,
    {
        if s[i + k] != p[k] {
            assert(s@.subrange(i as int, i + p.len())[k as int] != p@[k as int]);
            return false;
        }
        k += 1;
    }
    assert(s@.subrange(i as int, i + p.len()) =~= p@);
    true
}

/// The first index at or after `start` where `p` occurs in `s`.
pub fn find_from(s: &Vec<char>, p: &Vec<char>, start: usize) -> (r: Option<usize>)
    requires
        start <= s.len(),
    ensures
        match r {
            Some(i) => {
                &&& start <= i
                &&& occurs_at(s@, p@, i as int)
                &&& forall|j: int| start <= j < i ==> !occurs_at(s@, p@, j)
            },
            None => forall|j: int| start <= j ==> !occurs_at(s@, p@, j),
        },
{
    if p.len() > s.len() - start {
        return None;
    }
    let last = s.len() - p.len();
    let mut i = start;
    while i <= last
        invariant
            start <= i,
            last == s.len() - p.len(),
            p.len() <= s.len(),
            forall|j: int| start <= j < i ==> !occurs_at(s@, p@, j),
        decreases last + 1 - i,
    {
        if matches_at(s, p, i) {
            return Some(i);
        }
        if i == last {
            return None;
        }
        i += 1;
    }
    None
}

/// Whether `p` occurs in `s`.
pub fn contains_chars(s: &Vec<char>, p: &Vec<char>) -> (r: bool)
    ensures
        r == contains_seq(s@, p@),
{
    match find_from(s, p, 0) {
        Some(i) => {
            assert(occurs_at(s@, p@, i as int));
            true
        },
        None => false,
    }
}

// ---------------------------------------------------------------------------
// Counting occurrences
// ---------------------------------------------------------------------------

/// The number of start positions at or after `pos` where `p` occurs in `s`,
/// overlapping occurrences each counted; the empty pattern occurs at each of
/// the `s.len() + 1` character boundaries.
pub open spec fn occurrences_from(s: Seq<char>, p: Seq<char>, pos: int) -> nat
    decreases s.len() + 1 - pos,
{
    if pos < 0 || pos > s.len() {
        0
    } else {
        (if occurs_at(s, p, pos) {
            1nat
        } else {
            0nat
        }) + occurrences_from(s, p, pos + 1)
    }
}

/// The number of start positions where `p` occurs in `s`.
#[verifier::opaque]
pub open spec fn occurrences(s: Seq<char>, p: Seq<char>) -> nat {
    occurrences_from(s, p, 0)
}

proof fn lemma_occurrences_absent(s: Seq<char>, p: Seq<char>, pos: int)
    requires
        0 <= pos,
        forall|j: int| pos <= j ==> !occurs_at(s, p, j),
    ensures
        occurrences_from(s, p, pos) == 0,
    decreases s.len() + 1 - pos,
{
    if pos <= s.len() {
        lemma_occurrences_absent(s, p, pos + 1);
    }
}

proof fn lemma_occurrences_mono(s: Seq<char>, p: Seq<char>, pos: int, q: int)
    requires
        0 <= pos <= q,
    ensures
        occurrences_from(s, p, pos) >= occurrences_from(s, p, q),
    decreases q - pos,
{
    if pos < q {
        lemma_occurrences_mono(s, p, pos + 1, q);
    }
}

/// A pattern that occurs nowhere has no occurrence.
pub proof fn lemma_absent_pattern_has_no_occurrence(s: Seq<char>, p: Seq<char>)
    requires
        forall|j: int| 0 <= j ==> !occurs_at(s, p, j),
    ensures
        occurrences(s, p) == 0,
{
    reveal(occurrences);
    lemma_occurrences_absent(s, p, 0);
}

/// A pattern with exactly one occurrence occurs at one position only.
pub proof fn lemma_single_occurrence(s: Seq<char>, p: Seq<char>, i: int, j: int)
    requires
        occurrences(s, p) == 1,
        occurs_at(s, p, i),
        occurs_at(s, p, j),
    ensures
        i == j,
{
    reveal(occurrences);
    if i < j {
        lemma_occurrences_mono(s, p, 0, i);
        lemma_occurrences_mono(s, p, i + 1, j);
        assert(occurrences_from(s, p, j) >= 1);
    } else if j < i {
        lemma_occurrences_mono(s, p, 0, j);
        lemma_occurrences_mono(s, p, j + 1, i);
        assert(occurrences_from(s, p, i) >= 1);
    }
}

/// The number of start positions where `p` occurs in `s`, overlapping
/// occurrences included.
pub fn count_occurrences(s: &Vec<char>, p: &Vec<char>) -> (n: usize)
    requires
        s.len() < usize::MAX,
    ensures
        n == occurrences(s@, p@),
{
    let mut n: usize = 0;
    let mut i: usize = s.len() + 1;
    while i > 0
        invariant
            i <= s.len() + 1,
            s.len() < usize::MAX,
            n == occurrences_from(s@, p@, i as int),
            n <= s.len() + 1 - i,
        decreases i,
    {
        i -= 1;
        if matches_at(s, p, i) {
            n += 1;
        }
    }
    proof {
        reveal(occurrences);
    }
    n
}

// ---------------------------------------------------------------------------
// Whitespace
// ---------------------------------------------------------------------------

/// The characters with the Unicode `White_Space` property, which
/// `char::is_whitespace` accepts.
pub open spec fn is_white_space(c: char) -> bool {
    let u = c as u32;
    ||| 0x9 <= u <= 0xD
    ||| u == 0x20
    ||| u == 0x85
    ||| u == 0xA0
    ||| u == 0x1680
    ||| 0x2000 <= u <= 0x200A
    ||| u == 0x2028
    ||| u == 0x2029
    ||| u == 0x202F
    ||| u == 0x205F
    ||| u == 0x3000
}

/// Whether `c` is a whitespace character.
pub fn white_space(c: char) -> (r: bool)
    ensures
        r == is_white_space(c),
{
    let u = c as u32;
    (0x9 <= u && u <= 0xD) || u == 0x20 || u == 0x85 || u == 0xA0 || u == 0x1680 || (0x2000 <= u
        && u <= 0x200A) || u == 0x2028 || u == 0x2029 || u == 0x202F || u == 0x205F || u == 0x3000
}

/// `s` without its leading whitespace.
pub open spec fn trim_start(s: Seq<char>) -> Seq<char>
    decreases s.len(),
{
    if s.len() > 0 && is_white_space(s[0]) {
        trim_start(s.drop_first())
    } else {
        s
    }
}

/// `s` without its trailing whitespace.
pub open spec fn trim_end(s: Seq<char>) -> Seq<char>
    decreases s.len(),
{
    if s.len() > 0 && is_white_space(s.last()) {
        trim_end(s.drop_last())
    } else {
        s
    }
}

/// `s` without leading and trailing whitespace, as `str::trim` gives it.
pub open spec fn trim(s: Seq<char>) -> Seq<char> {
    trim_end(trim_start(s))
}

/// Every character of `s` is whitespace.
pub open spec fn is_blank(s: Seq<char>) -> bool {
    forall|i: int| 0 <= i < s.len() ==> is_white_space(s[i])
}

proof fn lemma_trim_start_skip(s: Seq<char>, a: int)
    requires
        0 <= a <= s.len(),
        forall|i: int| 0 <= i < a ==> is_white_space(s[i]),
    ensures
        trim_start(s) == trim_start(s.skip(a)),
    decreases a,
{
    if a > 0 {
        assert(s.drop_first().skip(a - 1) =~= s.skip(a));
        lemma_trim_start_skip(s.drop_first(), a - 1);
    } else {
        assert(s.skip(0) =~= s);
    }
}

proof fn lemma_trim_end_take(s: Seq<char>, b: int)
    requires
        0 <= b <= s.len(),
        forall|i: int| b <= i < s.len() ==> is_white_space(s[i]),
    ensures
        trim_end(s) == trim_end(s.take(b)),
    decreases s.len() - b,
{
    if b < s.len() {
        assert(s.drop_last().take(b) =~= s.take(b));
        lemma_trim_end_take(s.drop_last(), b);
    } else {
        assert(s.take(b) =~= s);
    }
}

proof fn lemma_trim_blank(s: Seq<char>)
    ensures
        (trim(s).len() == 0) == is_blank(s),
    decreases s.len(),
{
    if s.len() > 0 && is_white_space(s[0]) {
        lemma_trim_blank(s.drop_first());
        if is_blank(s.drop_first()) {
            assert(is_blank(s)) by {
                assert forall|i: int| 0 <= i < s.len() implies is_white_space(s[i]) by {
                    if i > 0 {
                        assert(s[i] == s.drop_first()[i - 1]);
                    }
                }
            }
        } else {
            let i = choose|i: int| 0 <= i < s.drop_first().len() && !is_white_space(s.drop_first()[i]);
            assert(s[i + 1] == s.drop_first()[i]);
        }
    } else if s.len() > 0 {
        // s[0] is not whitespace, so trim_start(s) == s and trim_end keeps s[0]
        lemma_trim_end_keeps_first(s);
    }
}

proof fn lemma_trim_end_keeps_first(s: Seq<char>)
    requires
        s.len() > 0,
        !is_white_space(s[0]),
    ensures
        trim_end(s).len() > 0,
    decreases s.len(),
{
    if is_white_space(s.last()) {
        assert(s.len() > 1);
        assert(s.drop_last()[0] == s[0]);
        lemma_trim_end_keeps_first(s.drop_last());
    }
}

/// Indices `(a, b)` such that `s@.subrange(a, b)` is `s` trimmed.
pub fn trim_bounds(s: &Vec<char>) -> (r: (usize, usize))
    ensures
        r.0 <= r.1 <= s.len(),
        s@.subrange(r.0 as int, r.1 as int) == trim(s@),
{
    let n = s.len();
    let mut a: usize = 0;
    while a < n && white_space(s[a])
        invariant
            a <= n,
            n == s.len(),
            forall|i: int| 0 <= i < a ==> is_white_space(s@[i]),
        decreases n - a,
    {
        a += 1;
    }
    proof {
        lemma_trim_start_skip(s@, a as int);
        if a < n {
            assert(!is_white_space(s@.skip(a as int)[0]));
        }
        assert(trim_start(s@) == s@.skip(a as int));
    }
    let mut b: usize = n;
    while b > a && white_space(s[b - 1])
        invariant
            a <= b <= n,
            n == s.len(),
            forall|i: int| b <= i < n ==> is_white_space(s@[i]),
        decreases b,
    {
        b -= 1;
    }
    proof {
        let t = s@.skip(a as int);
        assert forall|i: int| b - a <= i < t.len() implies is_white_space(t[i]) by {
            assert(t[i] == s@[i + a]);
        }
        lemma_trim_end_take(t, b - a);
        assert(t.take(b - a) =~= s@.subrange(a as int, b as int));
        let u = s@.subrange(a as int, b as int);
        if b > a {
            assert(u.last() == s@[b - 1]);
        }
        assert(trim_end(u) == u);
    }
    (a, b)
}

/// `s` without leading and trailing whitespace.
pub fn trimmed(s: &str) -> (r: &str)
    ensures
        r@ == trim(s@),
{
    let v = chars_of(s);
    let (a, b) = trim_bounds(&v);
    s.substring_char(a, b)
}

/// Whether `s` holds only whitespace (as `s.trim().is_empty()` tells).
pub fn blank(s: &str) -> (r: bool)
    ensures
        r == is_blank(s@),
        r == (trim(s@).len() == 0),
{
    let v = chars_of(s);
    let (a, b) = trim_bounds(&v);
    proof {
        lemma_trim_blank(s@);
    }
    a == b
}

// ---------------------------------------------------------------------------
// Building strings from characters
// ---------------------------------------------------------------------------

/// Appends one character to a string (std's `String::push`).
#[verifier::external_body]
fn push_char(s: &mut String, c: char)
    ensures
        final(s)@ == old(s)@.push(c),
{
    s.push(c);
}

/// The string made of `v[a..b]`.
pub fn string_of(v: &Vec<char>, a: usize, b: usize) -> (r: String)
    requires
        a <= b <= v.len(),
    ensures
        r@ == v@.subrange(a as int, b as int),
{
    let mut r = String::new();
    let mut i = a;
    while i < b
        invariant
            a <= i <= b,
            b <= v.len(),
            r@ == v@.subrange(a as int, i as int),
        decreases b - i,
    {
        push_char(&mut r, v[i]);
        assert(v@.subrange(a as int, i + 1) =~= v@.subrange(a as int, i as int).push(v@[i as int]));
        i += 1;
    }
    r
}

// ---------------------------------------------------------------------------
// Lower case
// ---------------------------------------------------------------------------

/// The code point of `c` in ASCII lower case (other characters stay as they
/// are).
pub open spec fn ascii_lower(c: char) -> u32 {
    if 'A' <= c && c <= 'Z' {
        ((c as u32) + 32) as u32
    } else {
        c as u32
    }
}

/// `a` and `b` are equal when ASCII letters are compared without case.
pub open spec fn eq_ignore_ascii_case(a: Seq<char>, b: Seq<char>) -> bool {
    a.len() == b.len() && forall|i: int| 0 <= i < a.len() ==> ascii_lower(a[i]) == ascii_lower(b[i])
}

/// Every character of `s` is ASCII.
pub open spec fn is_ascii_text(s: Seq<char>) -> bool {
    forall|i: int| 0 <= i < s.len() ==> (s[i] as u32) < 128
}

/// What the lowercase form of an ASCII text is: the same length, each
/// character its ASCII lower case.
pub open spec fn lowercases_ascii(s: Seq<char>, lower: Seq<char>) -> bool {
    is_ascii_text(s) ==> {
        &&& lower.len() == s.len()
        &&& forall|i: int| 0 <= i < s.len() ==> (lower[i] as u32) == ascii_lower(s[i])
    }
}

/// What `str::to_lowercase` gives for a string: its characters mapped by the
/// Unicode lowercase mapping, in which a capital sigma also depends on the
/// characters around it; so the result depends on the string alone.
pub uninterp spec fn lowercase(s: Seq<char>) -> Seq<char>;

/// The lowercase form of `s`, from std's `str::to_lowercase`.  The contract
/// names the result, and states what Unicode's mapping gives for ASCII text:
/// each ASCII capital letter becomes its small letter, and every other ASCII
/// character has no lowercase mapping and stays as it is.
#[verifier::external_body]
pub(crate) fn to_lowercase(s: &str) -> (r: String)
    ensures
        r@ == lowercase(s@),
        lowercases_ascii(s@, r@),
{
    s.to_lowercase()
}

/// Two ASCII texts that are equal up to ASCII case have the same lowercase
/// form, given that lowercasing each of them lowercases its ASCII letters (as
/// every call of `to_lowercase` shows for the text it lowercases).
pub proof fn lemma_ascii_case_variants_lowercase(p: Seq<char>, q: Seq<char>)
    requires
        is_ascii_text(p),
        is_ascii_text(q),
        eq_ignore_ascii_case(p, q),
        lowercases_ascii(p, lowercase(p)),
        lowercases_ascii(q, lowercase(q)),
    ensures
        lowercase(p) == lowercase(q),
{
    let a = lowercase(p);
    let b = lowercase(q);
    assert forall|i: int| 0 <= i < a.len() implies a[i] == b[i] by {
        lemma_char_u32_injective(a[i], b[i]);
    }
    assert(a =~= b);
}

// ---------------------------------------------------------------------------
// Joining
// ---------------------------------------------------------------------------

/// The views of a sequence of strings.
pub open spec fn views(v: Seq<String>) -> Seq<Seq<char>> {
    v.map_values(|s: String| s@)
}

/// The items with `sep` between each two of them.
pub open spec fn join(items: Seq<Seq<char>>, sep: Seq<char>) -> Seq<char>
    decreases items.len(),
{
    if items.len() == 0 {
        seq![]
    } else if items.len() == 1 {
        items[0]
    } else {
        join(items.drop_last(), sep) + sep + items.last()
    }
}

/// The strings of `items` with `sep` between each two of them.
pub fn join_strings(items: &Vec<String>, sep: &str) -> (r: String)
    ensures
        r@ == join(views(items@), sep@),
{
    let mut r = String::new();
    let ghost all = views(items@);
    let mut i: usize = 0;
    while i < items.len()
        invariant
            i <= items.len(),
            all == views(items@),
            r@ == join(all.take(i as int), sep@),
        decreases items.len() - i,
    {
        if i != 0 {
            r.append(sep);
        }
        r.append(items[i].as_str());
        assert(all.take(i + 1).drop_last() =~= all.take(i as int));
        i += 1;
    }
    assert(all.take(items.len() as int) =~= all);
    r
}

// ---------------------------------------------------------------------------
// Ordering and sorting
// ---------------------------------------------------------------------------

/// Lexicographic order by code point, which is the order of `String`'s
/// `Ord` (UTF-8 keeps the order of code points).
pub open spec fn lex_le(a: Seq<char>, b: Seq<char>) -> bool
    decreases a.len(),
{
    if a.len() == 0 {
        true
    } else if b.len() == 0 {
        false
    } else if (a[0] as u32) != (b[0] as u32) {
        (a[0] as u32) < (b[0] as u32)
    } else {
        lex_le(a.drop_first(), b.drop_first())
    }
}

/// The strings are in ascending order.
pub open spec fn sorted(v: Seq<Seq<char>>) -> bool {
    forall|i: int, j: int| 0 <= i < j < v.len() ==> lex_le(v[i], v[j])
}

proof fn lemma_char_u32_injective(a: char, b: char)
    ensures
        (a as u32 == b as u32) ==> a == b,
{
    vstd::utf8::char_u32_cast(a, a as u32);
    vstd::utf8::char_u32_cast(b, b as u32);
}

pub proof fn lemma_lex_total(a: Seq<char>, b: Seq<char>)
    ensures
        lex_le(a, b) || lex_le(b, a),
    decreases a.len(),
{
    if a.len() > 0 && b.len() > 0 && (a[0] as u32) == (b[0] as u32) {
        lemma_lex_total(a.drop_first(), b.drop_first());
    }
}

pub proof fn lemma_lex_trans(a: Seq<char>, b: Seq<char>, c: Seq<char>)
    requires
        lex_le(a, b),
        lex_le(b, c),
    ensures
        lex_le(a, c),
    decreases a.len(),
{
    if a.len() > 0 && b.len() > 0 && c.len() > 0 && (a[0] as u32) == (b[0] as u32) && (b[0] as u32)
        == (c[0] as u32) {
        lemma_lex_trans(a.drop_first(), b.drop_first(), c.drop_first());
    }
}

pub proof fn lemma_lex_antisym(a: Seq<char>, b: Seq<char>)
    requires
        lex_le(a, b),
        lex_le(b, a),
    ensures
        a == b,
    decreases a.len(),
{
    if a.len() > 0 {
        lemma_lex_antisym(a.drop_first(), b.drop_first());
        lemma_char_u32_injective(a[0], b[0]);
        assert(a =~= seq![a[0]] + a.drop_first());
        assert(b =~= seq![b[0]] + b.drop_first());
    } else {
        assert(b.len() == 0);
        assert(a =~= b);
    }
}

/// Whether `a` comes before or equals `b` in lexicographic order.
pub fn lex_le_chars(a: &Vec<char>, b: &Vec<char>) -> (r: bool)
    ensures
        r == lex_le(a@, b@),
{
    let mut i: usize = 0;
    assert(a@.skip(0) =~= a@ && b@.skip(0) =~= b@);
    while i < a.len() && i < b.len()
        invariant
            i <= a.len(),
            i <= b.len(),
            lex_le(a@, b@) == lex_le(a@.skip(i as int), b@.skip(i as int)),
        decreases a.len() - i,
    {
        let x = a[i] as u32;
        let y = b[i] as u32;
        if x != y {
            assert(a@.skip(i as int)[0] == a@[i as int]);
            assert(b@.skip(i as int)[0] == b@[i as int]);
            return x < y;
        }
        assert(a@.skip(i as int).drop_first() =~= a@.skip(i + 1));
        assert(b@.skip(i as int).drop_first() =~= b@.skip(i + 1));
        i += 1;
    }
    i == a.len()
}

/// The ascending arrangement of `s`: the one sorted sequence with the same
/// items (there is exactly one, by `lemma_sorted_unique`).
pub open spec fn sorted_model(s: Seq<Seq<char>>) -> Seq<Seq<char>> {
    choose|t: Seq<Seq<char>>| t.to_multiset() == s.to_multiset() && sorted(t)
}

/// Where insertion sort puts `x` in `t`: before the first item that `x`
/// comes before or equals.
pub open spec fn insert_index(x: Seq<char>, t: Seq<Seq<char>>) -> nat
    decreases t.len(),
{
    if t.len() == 0 || lex_le(x, t[0]) {
        0
    } else {
        1 + insert_index(x, t.drop_first())
    }
}

/// Insertion sort of `s`.
pub open spec fn insertion_sorted(s: Seq<Seq<char>>) -> Seq<Seq<char>>
    decreases s.len(),
{
    if s.len() == 0 {
        seq![]
    } else {
        let t = insertion_sorted(s.drop_last());
        t.insert(insert_index(s.last(), t) as int, s.last())
    }
}

proof fn lemma_insert_index(x: Seq<char>, t: Seq<Seq<char>>)
    ensures
        insert_index(x, t) <= t.len(),
        forall|j: int| 0 <= j < insert_index(x, t) ==> !lex_le(x, #[trigger] t[j]),
        insert_index(x, t) < t.len() ==> lex_le(x, t[insert_index(x, t) as int]),
    decreases t.len(),
{
    if t.len() > 0 && !lex_le(x, t[0]) {
        let u = t.drop_first();
        lemma_insert_index(x, u);
        assert forall|j: int| 0 <= j < insert_index(x, t) implies !lex_le(x, #[trigger] t[j]) by {
            if j > 0 {
                assert(t[j] == u[j - 1]);
            }
        }
    }
}

proof fn lemma_insert_keeps_sorted(x: Seq<char>, t: Seq<Seq<char>>)
    requires
        sorted(t),
    ensures
        sorted(t.insert(insert_index(x, t) as int, x)),
{
    lemma_insert_index(x, t);
    let k = insert_index(x, t) as int;
    let r = t.insert(k, x);
    assert forall|a: int, b: int| 0 <= a < b < r.len() implies lex_le(r[a], r[b]) by {
        if b < k {
            assert(r[a] == t[a] && r[b] == t[b]);
        } else if b == k {
            assert(r[a] == t[a] && r[b] == x);
            lemma_lex_total(x, t[a]);
        } else if a < k {
            assert(r[a] == t[a] && r[b] == t[b - 1]);
        } else if a == k {
            assert(r[a] == x && r[b] == t[b - 1]);
            if b - 1 > k {
                lemma_lex_trans(x, t[k], t[b - 1]);
            }
        } else {
            assert(r[a] == t[a - 1] && r[b] == t[b - 1]);
        }
    }
}

/// Insertion sort gives a sorted arrangement of the same items.
proof fn lemma_insertion_sorted(s: Seq<Seq<char>>)
    ensures
        sorted(insertion_sorted(s)),
        insertion_sorted(s).to_multiset() == s.to_multiset(),
    decreases s.len(),
{
    if s.len() == 0 {
        assert(insertion_sorted(s) =~= s);
    } else {
        let t = insertion_sorted(s.drop_last());
        lemma_insertion_sorted(s.drop_last());
        lemma_insert_index(s.last(), t);
        lemma_insert_keeps_sorted(s.last(), t);
        vstd::seq_lib::to_multiset_insert(t, insert_index(s.last(), t) as int, s.last());
        vstd::seq_lib::to_multiset_build(s.drop_last(), s.last());
        assert(s.drop_last().push(s.last()) =~= s);
    }
}

/// The ascending arrangement holds the same items as `s` and is sorted.
pub proof fn lemma_sorted_model(s: Seq<Seq<char>>)
    ensures
        sorted(sorted_model(s)),
        sorted_model(s).to_multiset() == s.to_multiset(),
        forall|x: Seq<char>| sorted_model(s).contains(x) <==> s.contains(x),
{
    lemma_insertion_sorted(s);
    let w = insertion_sorted(s);
    assert(w.to_multiset() == s.to_multiset() && sorted(w));
    let t = sorted_model(s);
    assert forall|x: Seq<char>| t.contains(x) <==> s.contains(x) by {
        vstd::seq_lib::to_multiset_contains(t, x);
        vstd::seq_lib::to_multiset_contains(s, x);
    }
}

/// Two sorted sequences with the same items are equal.
pub proof fn lemma_sorted_unique(a: Seq<Seq<char>>, b: Seq<Seq<char>>)
    requires
        sorted(a),
        sorted(b),
        a.to_multiset() == b.to_multiset(),
    ensures
        a == b,
    decreases a.len(),
{
    vstd::seq_lib::to_multiset_len(a);
    vstd::seq_lib::to_multiset_len(b);
    if a.len() > 0 {
        vstd::seq_lib::to_multiset_contains(a, a[0]);
        vstd::seq_lib::to_multiset_contains(b, a[0]);
        vstd::seq_lib::to_multiset_contains(a, b[0]);
        vstd::seq_lib::to_multiset_contains(b, b[0]);
        assert(a.contains(a[0]));
        assert(b.contains(b[0]));
        let j = choose|j: int| 0 <= j < b.len() && b[j] == a[0];
        let k = choose|k: int| 0 <= k < a.len() && a[k] == b[0];
        if j > 0 {
            assert(lex_le(b[0], b[j]));
        } else {
            lemma_lex_total(b[0], b[0]);
        }
        if k > 0 {
            assert(lex_le(a[0], a[k]));
        } else {
            lemma_lex_total(a[0], a[0]);
        }
        lemma_lex_antisym(a[0], b[0]);
        vstd::seq_lib::to_multiset_remove(a, 0);
        vstd::seq_lib::to_multiset_remove(b, 0);
        assert(a.remove(0) =~= a.drop_first());
        assert(b.remove(0) =~= b.drop_first());
        assert(sorted(a.drop_first())) by {
            assert forall|x: int, y: int| 0 <= x < y < a.drop_first().len() implies lex_le(
                a.drop_first()[x],
                a.drop_first()[y],
            ) by {
                assert(a.drop_first()[x] == a[x + 1] && a.drop_first()[y] == a[y + 1]);
            }
        }
        assert(sorted(b.drop_first())) by {
            assert forall|x: int, y: int| 0 <= x < y < b.drop_first().len() implies lex_le(
                b.drop_first()[x],
                b.drop_first()[y],
            ) by {
                assert(b.drop_first()[x] == b[x + 1] && b.drop_first()[y] == b[y + 1]);
            }
        }
        lemma_sorted_unique(a.drop_first(), b.drop_first());
        assert(a =~= seq![a[0]] + a.drop_first());
        assert(b =~= seq![b[0]] + b.drop_first());
    } else {
        assert(a =~= b);
    }
}

/// The strings of `v` in ascending order.
pub fn sort_strings(v: &Vec<String>) -> (r: Vec<String>)
    ensures
        views(r@) == sorted_model(views(v@)),
{
    let mut r: Vec<String> = Vec::new();
    let mut i: usize = 0;
    assert(views(v@).take(0) =~= views(r@));
    while i < v.len()
        invariant
            i <= v.len(),
            views(r@).to_multiset() == views(v@).take(i as int).to_multiset(),
            forall|a: int, b: int| 0 <= a < b < r@.len() ==> lex_le(r@[a]@, r@[b]@),
        decreases v.len() - i,
    {
        let x = v[i].clone();
        let xc = chars_of(x.as_str());
        let mut k: usize = 0;
        while k < r.len() && lex_le_chars(&chars_of(r[k].as_str()), &xc)
            invariant
                k <= r.len(),
                xc@ == x@,
                forall|j: int| 0 <= j < k ==> lex_le(#[trigger] r@[j]@, x@),
            decreases r.len() - k,
        {
            k += 1;
        }
        proof {
            if k < r.len() {
                lemma_lex_total(r@[k as int]@, x@);
            }
        }
        let ghost old_r = r@;
        r.insert(k, x);
        proof {
            assert(views(r@) =~= views(old_r).insert(k as int, x@));
            vstd::seq_lib::to_multiset_insert(views(old_r), k as int, x@);
            assert(views(v@).take(i + 1) =~= views(v@).take(i as int).push(v@[i as int]@));
            vstd::seq_lib::to_multiset_build(views(v@).take(i as int), v@[i as int]@);
            let nr = r@;
            assert forall|a: int, b: int| 0 <= a < b < nr.len() implies lex_le(nr[a]@, nr[b]@) by {
                if b < k {
                    assert(nr[a] == old_r[a] && nr[b] == old_r[b]);
                } else if b == k {
                    assert(nr[a] == old_r[a] && nr[b] == x);
                } else if a < k {
                    assert(nr[a] == old_r[a] && nr[b] == old_r[b - 1]);
                } else if a == k {
                    assert(nr[a] == x && nr[b] == old_r[b - 1]);
                    if b - 1 > k {
                        lemma_lex_trans(x@, old_r[k as int]@, old_r[b - 1]@);
                    }
                } else {
                    assert(nr[a] == old_r[a - 1] && nr[b] == old_r[b - 1]);
                }
            }
        }
        i += 1;
    }
    assert(views(v@).take(v.len() as int) =~= views(v@));
    proof {
        let w = views(r@);
        assert(sorted(w));
        let t = sorted_model(views(v@));
        assert(t.to_multiset() == views(v@).to_multiset() && sorted(t));
        lemma_sorted_unique(w, t);
    }
    r
}

// ---------------------------------------------------------------------------
// Lines
// ---------------------------------------------------------------------------

/// The index of the first line feed in `s`, or `s.len()` when there is none.
pub open spec fn newline_index(s: Seq<char>) -> nat
    decreases s.len(),
{
    if s.len() == 0 || s[0] == '\n' {
        0
    } else {
        1 + newline_index(s.drop_first())
    }
}

/// A line without the carriage return that ended it.
pub open spec fn strip_cr(l: Seq<char>) -> Seq<char> {
    if l.len() > 0 && l.last() == '\r' {
        l.drop_last()
    } else {
        l
    }
}

/// The lines of `s` as `str::lines` gives them: split after each line feed,
/// each line ended by a line feed loses it and then a carriage return before
/// it; a last piece without a line feed is kept as it is, and an empty rest
/// gives no line.
pub open spec fn lines(s: Seq<char>) -> Seq<Seq<char>>
    decreases s.len(),
{
    if s.len() == 0 {
        seq![]
    } else {
        let j = newline_index(s);
        if j >= s.len() {
            seq![s]
        } else {
            seq![strip_cr(s.take(j as int))] + lines(s.skip(j + 1 as int))
        }
    }
}

pub proof fn lemma_newline_index(s: Seq<char>, k: int)
    requires
        0 <= k <= s.len(),
        k < s.len() ==> s[k] == '\n',
        forall|i: int| 0 <= i < k ==> s[i] != '\n',
    ensures
        newline_index(s) == k,
    decreases k,
{
    if k > 0 {
        lemma_newline_index(s.drop_first(), k - 1);
    }
}

} // verus!
