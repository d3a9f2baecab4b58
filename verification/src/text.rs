//! Text primitives over character sequences: searching, splitting,
//! trimming and decimal formatting, each with the specification that the
//! chat logic is stated against.

use vstd::prelude::*;

verus! {

// ---------------------------------------------------------------------------
// Specifications
// ---------------------------------------------------------------------------

/// `pat` occurs in `s` starting at index `i`.
pub open spec fn occurs_at(s: Seq<char>, pat: Seq<char>, i: int) -> bool {
    0 <= i && i + pat.len() <= s.len() && s.subrange(i, i + pat.len()) == pat
}

/// The first index at or after `from` at which `pat` occurs in `s`.
pub open spec fn find_from(s: Seq<char>, pat: Seq<char>, from: int) -> Option<int>
    decreases s.len() + 1 - from,
{
    if from < 0 || from + pat.len() > s.len() {
        None
    } else if occurs_at(s, pat, from) {
        Some(from)
    } else {
        find_from(s, pat, from + 1)
    }
}

/// The first index at which `pat` occurs in `s`.
pub open spec fn find(s: Seq<char>, pat: Seq<char>) -> Option<int> {
    find_from(s, pat, 0)
}

/// `pat` occurs somewhere in `s`.
pub open spec fn contains(s: Seq<char>, pat: Seq<char>) -> bool {
    find(s, pat) is Some
}

/// `s` begins with `prefix`.
pub open spec fn starts_with(s: Seq<char>, prefix: Seq<char>) -> bool {
    occurs_at(s, prefix, 0)
}

/// The last index at which the character `c` occurs in `s` before `end`.
pub open spec fn rfind_char_before(s: Seq<char>, c: char, end: int) -> Option<int>
    decreases end,
{
    if end <= 0 || end > s.len() {
        None
    } else if s[end - 1] == c {
        Some(end - 1)
    } else {
        rfind_char_before(s, c, end - 1)
    }
}

/// The last index at which `c` occurs in `s`.
pub open spec fn rfind_char(s: Seq<char>, c: char) -> Option<int> {
    rfind_char_before(s, c, s.len() as int)
}

/// Splits `s` around the first occurrence of `c`.
pub open spec fn split_once(s: Seq<char>, c: char) -> Option<(Seq<char>, Seq<char>)> {
    match find(s, seq![c]) {
        Some(i) => Some((s.subrange(0, i), s.subrange(i + 1, s.len() as int))),
        None => None,
    }
}

/// Splits `s` around the last occurrence of `c`.
pub open spec fn rsplit_once(s: Seq<char>, c: char) -> Option<(Seq<char>, Seq<char>)> {
    match rfind_char(s, c) {
        Some(i) => Some((s.subrange(0, i), s.subrange(i + 1, s.len() as int))),
        None => None,
    }
}

/// The characters with the Unicode `White_Space` property.
pub open spec fn is_whitespace(c: char) -> bool {
    ||| ('\u{9}' <= c && c <= '\u{d}')
    ||| c == ' '
    ||| c == '\u{85}'
    ||| c == '\u{a0}'
    ||| c == '\u{1680}'
    ||| ('\u{2000}' <= c && c <= '\u{200a}')
    ||| c == '\u{2028}'
    ||| c == '\u{2029}'
    ||| c == '\u{202f}'
    ||| c == '\u{205f}'
    ||| c == '\u{3000}'
}

/// `s` without its leading whitespace.
pub open spec fn trim_start(s: Seq<char>) -> Seq<char>
    decreases s.len(),
{
    if s.len() > 0 && is_whitespace(s[0]) {
        trim_start(s.drop_first())
    } else {
        s
    }
}

/// `s` without its trailing whitespace.
pub open spec fn trim_end(s: Seq<char>) -> Seq<char>
    decreases s.len(),
{
    if s.len() > 0 && is_whitespace(s.last()) {
        trim_end(s.drop_last())
    } else {
        s
    }
}

/// `s` without leading or trailing whitespace.
pub open spec fn trim(s: Seq<char>) -> Seq<char> {
    trim_end(trim_start(s))
}

/// Every character of `s` is ASCII.
pub open spec fn all_ascii(s: Seq<char>) -> bool {
    vstd::utf8::is_ascii_chars(s)
}

/// The decimal digit for `d < 10`.
pub open spec fn digit_char(d: nat) -> char {
    ((d + 48) as u8) as char
}

/// The decimal representation of `n`, without leading zeros.
pub open spec fn decimal(n: nat) -> Seq<char>
    decreases n,
{
    if n < 10 {
        seq![digit_char(n)]
    } else {
        decimal(n / 10).push(digit_char(n % 10))
    }
}

/// The decimal representation of a signed integer.
pub open spec fn signed_decimal(n: int) -> Seq<char> {
    if n < 0 {
        seq!['-'] + decimal((-n) as nat)
    } else {
        decimal(n as nat)
    }
}

// ---------------------------------------------------------------------------
// Lemmas
// ---------------------------------------------------------------------------

/// What `find_from` returns: the first occurrence at or after `from`.
pub proof fn lemma_find_from(s: Seq<char>, pat: Seq<char>, from: int)
    requires
        0 <= from,
    ensures
        match find_from(s, pat, from) {
            Some(i) => from <= i && occurs_at(s, pat, i) && forall|j: int|
                from <= j < i ==> !occurs_at(s, pat, j),
            None => forall|j: int| from <= j ==> !occurs_at(s, pat, j),
        },
    decreases s.len() + 1 - from,
{
    if from + pat.len() > s.len() {
    } else if occurs_at(s, pat, from) {
    } else {
        lemma_find_from(s, pat, from + 1);
    }
}

/// Splitting at the first `c`: when `s[i]` is `c` and no earlier character
/// is, `split_once` cuts `s` around position `i`.
pub proof fn lemma_split_once_at(s: Seq<char>, c: char, i: int)
    requires
        0 <= i < s.len(),
        s[i] == c,
        forall|j: int| 0 <= j < i ==> s[j] != c,
    ensures
        split_once(s, c) == Some((s.subrange(0, i), s.subrange(i + 1, s.len() as int))),
{
    lemma_find_from(s, seq![c], 0);
    assert(s.subrange(i, i + 1) =~= seq![c]);
    assert(occurs_at(s, seq![c], i));
    match find_from(s, seq![c], 0) {
        Some(k) => {
            if k < i {
                assert(s.subrange(k, k + 1)[0] == s[k]);
            }
        },
        None => {},
    }
}

/// `find_from` skips positions where `pat` does not occur.
pub proof fn lemma_find_from_step(s: Seq<char>, pat: Seq<char>, from: int)
    requires
        0 <= from,
        !occurs_at(s, pat, from),
    ensures
        find_from(s, pat, from) == find_from(s, pat, from + 1),
{
    if from + pat.len() > s.len() {
        lemma_find_from(s, pat, from + 1);
        assert(find_from(s, pat, from + 1) is None);
    }
}

/// What `rfind_char_before` returns: the last occurrence before `end`.
pub proof fn lemma_rfind_char_before(s: Seq<char>, c: char, end: int)
    requires
        0 <= end <= s.len(),
    ensures
        match rfind_char_before(s, c, end) {
            Some(i) => 0 <= i < end && s[i] == c && forall|j: int| i < j < end ==> s[j] != c,
            None => forall|j: int| 0 <= j < end ==> s[j] != c,
        },
    decreases end,
{
    if end > 0 && s[end - 1] != c {
        lemma_rfind_char_before(s, c, end - 1);
    }
}

// ---------------------------------------------------------------------------
// Executable primitives
// ---------------------------------------------------------------------------

/// `String::push` appends one character.
pub assume_specification[ String::push ](s: &mut String, ch: char)
    ensures
        final(s)@ == old(s)@.push(ch),
;

/// The characters of `s`, in order.
pub fn chars_of(s: &str) -> (v: Vec<char>)
    ensures
        v@ == s@,
{
    let n = s.unicode_len();
    let mut v: Vec<char> = Vec::new();
    let mut i: usize = 0;
    while i < n
        invariant
            n == s@.len(),
            i <= n,
            v@ == s@.subrange(0, i as int),
        decreases n - i,
    {
        v.push(s.get_char(i));
        i = i + 1;
    }
    v
}

/// The string made of `chars[from..to]`.
pub fn string_of(chars: &[char], from: usize, to: usize) -> (r: String)
    requires
        from <= to <= chars@.len(),
    ensures
        r@ == chars@.subrange(from as int, to as int),
{
    let mut r = String::new();
    let mut i: usize = from;
    while i < to
        invariant
            from <= i <= to <= chars@.len(),
            r@ == chars@.subrange(from as int, i as int),
        decreases to - i,
    {
        r.push(chars[i]);
        i = i + 1;
    }
    r
}

/// Whether `pat` occurs in `s` at index `i`.
pub fn occurs_at_exec(s: &[char], pat: &[char], i: usize) -> (b: bool)
    ensures
        b == occurs_at(s@, pat@, i as int),
{
    if i > s.len() || pat.len() > s.len() - i {
        return false;
    }
    let mut k: usize = 0;
    while k < pat.len()
        invariant
            i + pat@.len() <= s@.len(),
            i + pat.len() <= s.len(),
            k <= pat@.len(),
            forall|j: int| 0 <= j < k ==> s@[i + j] == pat@[j],
        decreases pat@.len() - k,
    {
        if s[i + k] != pat[k] {
            assert(s@.subrange(i as int, i + pat@.len())[k as int] != pat@[k as int]);
            return false;
        }
        k = k + 1;
    }
    assert(s@.subrange(i as int, i + pat@.len()) =~= pat@);
    true
}

/// The first index at or after `from` at which `pat` occurs in `s`.
pub fn find_from_exec(s: &[char], pat: &[char], from: usize) -> (r: Option<usize>)
    ensures
        match r {
            Some(i) => find_from(s@, pat@, from as int) == Some(i as int),
            None => find_from(s@, pat@, from as int) is None,
        },
{
    if from > s.len() {
        return None;
    }
    let mut i = from;
    while i < s.len()
        invariant
            from <= i <= s@.len(),
            find_from(s@, pat@, from as int) == find_from(s@, pat@, i as int),
        decreases s@.len() - i,
    {
        if occurs_at_exec(s, pat, i) {
            return Some(i);
        }
        proof {
            lemma_find_from_step(s@, pat@, i as int);
        }
        i = i + 1;
    }
    if occurs_at_exec(s, pat, i) {
        return Some(i);
    }
    proof {
        lemma_find_from_step(s@, pat@, i as int);
        lemma_find_from(s@, pat@, i + 1);
    }
    None
}

/// The first index at which `c` occurs in `s`.
pub fn find_char_exec(s: &[char], c: char) -> (r: Option<usize>)
    ensures
        match r {
            Some(i) => find(s@, seq![c]) == Some(i as int),
            None => find(s@, seq![c]) is None,
        },
{
    let pat: [char; 1] = [c];
    let pat_slice: &[char] = &pat;
    assert(pat_slice@ =~= seq![c]);
    find_from_exec(s, pat_slice, 0)
}

/// The last index at which `c` occurs in `s`.
pub fn rfind_char_exec(s: &[char], c: char) -> (r: Option<usize>)
    ensures
        match r {
            Some(i) => rfind_char(s@, c) == Some(i as int),
            None => rfind_char(s@, c) is None,
        },
{
    let mut end = s.len();
    while end > 0
        invariant
            end <= s@.len(),
            rfind_char(s@, c) == rfind_char_before(s@, c, end as int),
        decreases end,
    {
        if s[end - 1] == c {
            return Some(end - 1);
        }
        end = end - 1;
    }
    None
}

/// Whether `s` begins with `prefix`.
pub fn starts_with_exec(s: &[char], prefix: &[char]) -> (b: bool)
    ensures
        b == starts_with(s@, prefix@),
{
    occurs_at_exec(s, prefix, 0)
}

/// Whether `s` contains `pat`.
pub fn contains_exec(s: &[char], pat: &[char]) -> (b: bool)
    ensures
        b == contains(s@, pat@),
{
    find_from_exec(s, pat, 0).is_some()
}

/// Whether two strings hold the same characters.
pub fn str_eq(a: &str, b: &str) -> (r: bool)
    ensures
        r == (a@ == b@),
{
    let x = chars_of(a);
    let y = chars_of(b);
    if x.len() != y.len() {
        return false;
    }
    let mut i: usize = 0;
    while i < x.len()
        invariant
            x@ == a@,
            y@ == b@,
            x@.len() == y@.len(),
            i <= x@.len(),
            forall|j: int| 0 <= j < i ==> x@[j] == y@[j],
        decreases x@.len() - i,
    {
        if x[i] != y[i] {
            return false;
        }
        i = i + 1;
    }
    assert(x@ =~= y@);
    true
}

/// Whether `c` has the Unicode `White_Space` property.
pub fn is_whitespace_exec(c: char) -> (b: bool)
    ensures
        b == is_whitespace(c),
{
    ('\u{9}' <= c && c <= '\u{d}') || c == ' ' || c == '\u{85}' || c == '\u{a0}' || c
        == '\u{1680}' || ('\u{2000}' <= c && c <= '\u{200a}') || c == '\u{2028}' || c
        == '\u{2029}' || c == '\u{202f}' || c == '\u{205f}' || c == '\u{3000}'
}

/// The bounds `[start, end)` of `trim(chars[from..to])` within `chars`.
pub fn trim_bounds(chars: &[char], from: usize, to: usize) -> (r: (usize, usize))
    requires
        from <= to <= chars@.len(),
    ensures
        from <= r.0 <= r.1 <= to,
        chars@.subrange(r.0 as int, r.1 as int) == trim(chars@.subrange(from as int, to as int)),
{
    let ghost s = chars@.subrange(from as int, to as int);
    let mut start = from;
    while start < to && is_whitespace_exec(chars[start])
        invariant
            from <= start <= to <= chars@.len(),
            s == chars@.subrange(from as int, to as int),
            trim_start(s) == trim_start(chars@.subrange(start as int, to as int)),
        decreases to - start,
    {
        assert(chars@.subrange(start as int, to as int).drop_first() =~= chars@.subrange(
            start + 1,
            to as int,
        ));
        start = start + 1;
    }
    assert(trim_start(chars@.subrange(start as int, to as int)) == chars@.subrange(
        start as int,
        to as int,
    ));
    let mut end = to;
    while end > start && is_whitespace_exec(chars[end - 1])
        invariant
            from <= start <= end <= to <= chars@.len(),
            trim(s) == trim_end(chars@.subrange(start as int, end as int)),
        decreases end,
    {
        assert(chars@.subrange(start as int, end as int).drop_last() =~= chars@.subrange(
            start as int,
            end - 1,
        ));
        end = end - 1;
    }
    (start, end)
}

/// The decimal representation of `n`.
pub fn u64_to_string(n: u64) -> (r: String)
    ensures
        r@ == decimal(n as nat),
{
    let mut digits: Vec<char> = Vec::new();
    let mut m = n;
    // digits are collected least significant first
    while m >= 10
        invariant
            decimal(n as nat) == decimal(m as nat) + digits@.reverse(),
        decreases m,
    {
        let d = (m % 10) as u8;
        let c = (d + 48) as char;
        proof {
            assert(decimal(m as nat) == decimal((m / 10) as nat).push(digit_char((m % 10) as nat)));
            assert(digits@.push(c).reverse() =~= seq![c] + digits@.reverse());
        }
        digits.push(c);
        m = m / 10;
    }
    let last = ((m as u8) + 48) as char;
    digits.push(last);
    proof {
        assert(digits@.reverse() =~= seq![last] + digits@.drop_last().reverse());
    }
    let mut r = String::new();
    let mut i = digits.len();
    while i > 0
        invariant
            i <= digits@.len(),
            r@ + digits@.subrange(0, i as int).reverse() == digits@.reverse(),
        decreases i,
    {
        proof {
            assert(digits@.subrange(0, i as int).reverse() =~= seq![digits@[i - 1]]
                + digits@.subrange(0, i - 1).reverse());
        }
        r.push(digits[i - 1]);
        i = i - 1;
    }
    assert(digits@.subrange(0, 0).reverse() =~= Seq::<char>::empty());
    assert(r@ =~= digits@.reverse());
    r
}

/// The decimal representation of a signed `n`, with a leading `-` when negative.
pub fn i64_to_string(n: i64) -> (r: String)
    ensures
        r@ == signed_decimal(n as int),
{
    if n < 0 {
        let magnitude: u64 = if n == i64::MIN {
            9223372036854775808u64
        } else {
            (-n) as u64
        };
        let mut r = String::new();
        r.push('-');
        let digits = u64_to_string(magnitude);
        r.append(digits.as_str());
        assert(r@ =~= seq!['-'] + decimal((-n) as nat));
        r
    } else {
        u64_to_string(n as u64)
    }
}

/// What `str::to_lowercase` returns for a string with the characters `s`.
pub uninterp spec fn lowercase(s: Seq<char>) -> Seq<char>;

/// `str::to_lowercase` maps a string to its Unicode lowercase form, a
/// function of the string alone; which string that is is left to the name
/// `lowercase`.
pub assume_specification[ str::to_lowercase ](s: &str) -> (r: String)
    ensures
        r@ == lowercase(s@),
;

/// The number of characters before the first whitespace in `s`.
pub open spec fn word_len(s: Seq<char>) -> nat
    decreases s.len(),
{
    if s.len() == 0 || is_whitespace(s[0]) {
        0
    } else {
        1 + word_len(s.drop_first())
    }
}

/// `word_len` counts a non-whitespace prefix.
pub proof fn lemma_word_len(s: Seq<char>)
    ensures
        word_len(s) <= s.len(),
        forall|j: int| 0 <= j < word_len(s) ==> !is_whitespace(#[trigger] s[j]),
        word_len(s) < s.len() ==> is_whitespace(s[word_len(s) as int]),
    decreases s.len(),
{
    if s.len() > 0 && !is_whitespace(s[0]) {
        lemma_word_len(s.drop_first());
        assert forall|j: int| 0 <= j < word_len(s) implies !is_whitespace(#[trigger] s[j]) by {
            if j > 0 {
                assert(s[j] == s.drop_first()[j - 1]);
            }
        }
    }
}

/// The whitespace-separated words of `s`.
pub open spec fn words(s: Seq<char>) -> Seq<Seq<char>>
    decreases s.len(),
{
    if s.len() == 0 {
        Seq::empty()
    } else if is_whitespace(s[0]) {
        words(s.drop_first())
    } else {
        proof {
            lemma_word_len(s);
        }
        seq![s.take(word_len(s) as int)] + words(s.skip(word_len(s) as int))
    }
}

/// The whitespace-separated words of `s`.
pub fn split_whitespace(s: &[char]) -> (r: Vec<String>)
    ensures
        r@.map_values(|w: String| w@) == words(s@),
{
    let n = s.len();
    let mut r: Vec<String> = Vec::new();
    let mut i: usize = 0;
    assert(s@.subrange(0, n as int) =~= s@);
    while i < n
        invariant
            n == s@.len(),
            i <= n,
            words(s@) == r@.map_values(|w: String| w@) + words(s@.subrange(i as int, n as int)),
        decreases n - i,
    {
        let ghost rest = s@.subrange(i as int, n as int);
        if is_whitespace_exec(s[i]) {
            assert(rest.drop_first() =~= s@.subrange(i + 1, n as int));
            i = i + 1;
        } else {
            let mut j = i + 1;
            proof {
                assert(rest.drop_first() =~= s@.subrange(i + 1, n as int));
            }
            while j < n && !is_whitespace_exec(s[j])
                invariant
                    n == s@.len(),
                    i < j <= n,
                    rest == s@.subrange(i as int, n as int),
                    word_len(rest) == (j - i) + word_len(s@.subrange(j as int, n as int)),
                decreases n - j,
            {
                assert(s@.subrange(j as int, n as int).drop_first() =~= s@.subrange(
                    j + 1,
                    n as int,
                ));
                j = j + 1;
            }
            let word = string_of(s, i, j);
            let ghost prev = r@.map_values(|w: String| w@);
            r.push(word);
            proof {
                assert(word_len(rest) == j - i);
                assert(rest.take((j - i) as int) =~= s@.subrange(i as int, j as int));
                assert(rest.skip((j - i) as int) =~= s@.subrange(j as int, n as int));
                assert(r@.map_values(|w: String| w@) =~= prev.push(word@));
            }
            i = j;
        }
    }
    assert(words(s@.subrange(n as int, n as int)) =~= Seq::<Seq<char>>::empty());
    r
}

/// `s` without one trailing carriage return.
pub open spec fn strip_cr(s: Seq<char>) -> Seq<char> {
    if s.len() > 0 && s.last() == '\r' {
        s.drop_last()
    } else {
        s
    }
}

/// The pieces of `s` between line feeds.
pub open spec fn line_pieces(s: Seq<char>) -> Seq<Seq<char>>
    decreases s.len(),
{
    match find(s, seq!['\n']) {
        Some(i) => {
            proof {
                lemma_find_from(s, seq!['\n'], 0);
            }
            seq![s.subrange(0, i)] + line_pieces(s.subrange(i + 1, s.len() as int))
        },
        None => seq![s],
    }
}

/// The lines of `s` as `str::lines` gives them: split at line feeds, a line
/// that ended with `\r\n` loses its `\r`, and an empty last piece is no line.
pub open spec fn lines(s: Seq<char>) -> Seq<Seq<char>> {
    let pieces = line_pieces(s);
    let ended = pieces.drop_last().map_values(|p: Seq<char>| strip_cr(p));
    if pieces.last().len() > 0 {
        ended.push(pieces.last())
    } else {
        ended
    }
}

/// The lines of `s` (see `lines`).
pub fn split_lines(s: &str) -> (r: Vec<String>)
    ensures
        r@.map_values(|l: String| l@) == lines(s@),
{
    let chars = chars_of(s);
    let n = chars.len();
    let mut r: Vec<String> = Vec::new();
    let mut start: usize = 0;
    let ghost pieces = line_pieces(s@);
    let ghost mut done: Seq<Seq<char>> = Seq::empty();
    assert(chars@.subrange(0, n as int) =~= s@);
    loop
        invariant
            n == chars@.len(),
            chars@ == s@,
            start <= n,
            pieces == line_pieces(s@),
            pieces == done + line_pieces(chars@.subrange(start as int, n as int)),
            r@.map_values(|l: String| l@) == done.map_values(|p: Seq<char>| strip_cr(p)),
        decreases n - start,
    {
        let rest: &[char] = &chars[start..n];
        let found = find_char_exec(rest, '\n');
        proof {
            lemma_find_from(rest@, seq!['\n'], 0);
        }
        match found {
            Some(i) => {
                assert(occurs_at(rest@, seq!['\n'], i as int));
                assert(i < rest.len());
                let end = if i > 0 && rest[i - 1] == '\r' {
                    i - 1
                } else {
                    i
                };
                let line = string_of(rest, 0, end);
                let ghost prev = r@.map_values(|l: String| l@);
                r.push(line);
                proof {
                    let piece = rest@.subrange(0, i as int);
                    assert(line_pieces(rest@) == seq![piece] + line_pieces(
                        rest@.subrange(i + 1, rest@.len() as int),
                    ));
                    assert(rest@.subrange(i + 1, rest@.len() as int) =~= chars@.subrange(
                        start + i + 1,
                        n as int,
                    ));
                    assert(strip_cr(piece) =~= rest@.subrange(0, end as int));
                    assert(r@.map_values(|l: String| l@) =~= prev.push(strip_cr(piece)));
                    assert(done.push(piece).map_values(|p: Seq<char>| strip_cr(p)) =~= done.map_values(
                        |p: Seq<char>| strip_cr(p),
                    ).push(strip_cr(piece)));
                    assert(pieces =~= done.push(piece) + line_pieces(
                        chars@.subrange(start + i + 1, n as int),
                    ));
                    done = done.push(piece);
                }
                start = start + i + 1;
            },
            None => {
                proof {
                    assert(line_pieces(rest@) == seq![rest@]);
                    assert(pieces =~= done.push(rest@));
                    assert(pieces.drop_last() =~= done);
                }
                if rest.len() > 0 {
                    let line = string_of(rest, 0, rest.len());
                    let ghost prev = r@.map_values(|l: String| l@);
                    r.push(line);
                    proof {
                        assert(rest@.subrange(0, rest@.len() as int) =~= rest@);
                        assert(r@.map_values(|l: String| l@) =~= prev.push(rest@));
                    }
                }
                return r;
            },
        }
    }
}


// ---------------------------------------------------------------------------
// Decimal parsing
// ---------------------------------------------------------------------------

/// `c` is one of the ASCII digits.
pub open spec fn is_digit(c: char) -> bool {
    '0' <= c && c <= '9'
}

/// Every character of `s` is an ASCII digit.
pub open spec fn all_digits(s: Seq<char>) -> bool {
    forall|i: int| 0 <= i < s.len() ==> is_digit(#[trigger] s[i])
}

/// The number that the digits `s` write in base ten (0 for no digits).
pub open spec fn digits_value(s: Seq<char>) -> int
    decreases s.len(),
{
    if s.len() == 0 {
        0
    } else {
        digits_value(s.drop_last()) * 10 + ((s.last() as int) - 48)
    }
}

/// The integer that `s` writes: an optional `+` or `-` and at least one
/// digit, nothing else.
pub open spec fn signed_value(s: Seq<char>) -> Option<int> {
    if s.len() > 0 && (s[0] == '-' || s[0] == '+') {
        let body = s.drop_first();
        if body.len() > 0 && all_digits(body) {
            Some(
                if s[0] == '-' {
                    -digits_value(body)
                } else {
                    digits_value(body)
                },
            )
        } else {
            None
        }
    } else if s.len() > 0 && all_digits(s) {
        Some(digits_value(s))
    } else {
        None
    }
}

/// What `str::parse::<i64>` gives for `s`: the integer it writes, when that
/// fits in an `i64`.
pub open spec fn parsed_i64(s: Seq<char>) -> Option<int> {
    match signed_value(s) {
        Some(v) => if i64::MIN <= v <= i64::MAX {
            Some(v)
        } else {
            None
        },
        None => None,
    }
}

/// A prefix of a digit string writes no more than the whole string, and
/// neither is negative.
pub proof fn lemma_digits_prefix(s: Seq<char>, k: int)
    requires
        all_digits(s),
        0 <= k <= s.len(),
    ensures
        0 <= digits_value(s.take(k)) <= digits_value(s),
    decreases s.len(),
{
    if s.len() > 0 {
        assert(all_digits(s.drop_last()));
        if k == s.len() {
            assert(s.take(k) =~= s);
            lemma_digits_prefix(s.drop_last(), k - 1);
        } else {
            lemma_digits_prefix(s.drop_last(), k);
            assert(s.drop_last().take(k) =~= s.take(k));
        }
        assert(is_digit(s[s.len() - 1]));
    }
}

/// The integer that the characters `s` write, when it fits in an `i64`
/// (see `parsed_i64`).
pub fn parse_i64(s: &[char]) -> (r: Option<i64>)
    ensures
        match r {
            Some(v) => parsed_i64(s@) == Some(v as int),
            None => parsed_i64(s@) is None,
        },
{
    let n = s.len();
    if n == 0 {
        return None;
    }
    let neg = s[0] == '-';
    let start: usize = if neg || s[0] == '+' {
        1
    } else {
        0
    };
    if start == n {
        return None;
    }
    let ghost body = s@.subrange(start as int, n as int);
    assert(start == 1 ==> body =~= s@.drop_first());
    assert(start == 0 ==> body =~= s@);
    let mut i = start;
    while i < n
        invariant
            start <= i <= n == s@.len(),
            body == s@.subrange(start as int, n as int),
            start == 1 ==> body =~= s@.drop_first(),
            start == 0 ==> body =~= s@,
            start <= 1,
            start == 1 <==> (s@[0] == '-' || s@[0] == '+'),
            forall|j: int| start <= j < i ==> is_digit(#[trigger] s@[j]),
        decreases n - i,
    {
        if !('0' <= s[i] && s[i] <= '9') {
            assert(!is_digit(body[i - start]));
            assert(!all_digits(body));
            return None;
        }
        i = i + 1;
    }
    assert(all_digits(body));
    let limit: u128 = if neg {
        9223372036854775808u128
    } else {
        9223372036854775807u128
    };
    let mut v: u128 = 0;
    let mut j = start;
    while j < n
        invariant
            start <= j <= n == s@.len(),
            body == s@.subrange(start as int, n as int),
            all_digits(body),
            v == digits_value(body.take(j - start)),
            v <= limit,
            limit == (if neg {
                9223372036854775808u128
            } else {
                9223372036854775807u128
            }),
            neg == (s@[0] == '-'),
            start == 1 ==> body =~= s@.drop_first(),
            start == 0 ==> body =~= s@,
            start <= 1,
            start == 1 <==> (s@[0] == '-' || s@[0] == '+'),
        decreases n - j,
    {
        assert(is_digit(body[j - start]));
        let d = ((s[j] as u32) - 48) as u128;
        let next = v * 10 + d;
        assert(body.take(j - start + 1).drop_last() =~= body.take(j - start));
        assert(next == digits_value(body.take(j - start + 1)));
        if next > limit {
            proof {
                lemma_digits_prefix(body, j - start + 1);
                assert(digits_value(body) > limit);
                if start == 1 {
                    assert(signed_value(s@) == Some(
                        if neg {
                            -digits_value(body)
                        } else {
                            digits_value(body)
                        },
                    ));
                } else {
                    assert(body == s@);
                    assert(all_digits(s@));
                    assert(signed_value(s@) == Some(digits_value(body)));
                }
            }
            return None;
        }
        v = next;
        j = j + 1;
    }
    assert(body.take(n - start) =~= body);
    if neg {
        if v == 9223372036854775808u128 {
            Some(i64::MIN)
        } else {
            Some(-(v as i64))
        }
    } else {
        Some(v as i64)
    }
}

/// `s` with every `\r\n` taken out, matching from the left as
/// `str::replace` does.
pub open spec fn without_crlf(s: Seq<char>) -> Seq<char>
    decreases s.len(),
{
    if s.len() < 2 {
        s
    } else if s[0] == '\r' && s[1] == '\n' {
        without_crlf(s.skip(2))
    } else {
        seq![s[0]] + without_crlf(s.drop_first())
    }
}

/// The characters `chars` with every `\r\n` taken out (see `without_crlf`).
pub fn remove_crlf(chars: &[char]) -> (r: String)
    ensures
        r@ == without_crlf(chars@),
{
    let n = chars.len();
    let mut r = String::new();
    let mut i: usize = 0;
    assert(chars@.skip(0) =~= chars@);
    assert(r@ =~= Seq::<char>::empty());
    while i < n
        invariant
            n == chars@.len(),
            i <= n,
            without_crlf(chars@) == r@ + without_crlf(chars@.skip(i as int)),
        decreases n - i,
    {
        let ghost rest = chars@.skip(i as int);
        if i + 1 < n && chars[i] == '\r' && chars[i + 1] == '\n' {
            assert(rest.skip(2) =~= chars@.skip(i + 2));
            i = i + 2;
        } else {
            proof {
                assert(rest.drop_first() =~= chars@.skip(i + 1));
                if rest.len() < 2 {
                    assert(without_crlf(chars@.skip(i + 1)) == chars@.skip(i + 1));
                    assert(rest =~= seq![chars@[i as int]] + chars@.skip(i + 1));
                }
            }
            r.push(chars[i]);
            i = i + 1;
        }
    }
    assert(chars@.skip(n as int) =~= Seq::<char>::empty());
    r
}

/// The pieces of `s` between occurrences of `c`.
pub open spec fn split_all(s: Seq<char>, c: char) -> Seq<Seq<char>>
    decreases s.len(),
{
    match find(s, seq![c]) {
        Some(i) => {
            proof {
                lemma_find_from(s, seq![c], 0);
            }
            seq![s.subrange(0, i)] + split_all(s.subrange(i + 1, s.len() as int), c)
        },
        None => seq![s],
    }
}

/// The pieces of `s` between occurrences of `c` (see `split_all`).
pub fn split_char(s: &[char], c: char) -> (r: Vec<String>)
    ensures
        r@.map_values(|p: String| p@) == split_all(s@, c),
{
    let ghost pieces = split_all(s@, c);
    let ghost mut done: Seq<Seq<char>> = Seq::empty();
    let mut r: Vec<String> = Vec::new();
    let mut rem: &[char] = s;
    loop
        invariant
            pieces == split_all(s@, c),
            pieces == done + split_all(rem@, c),
            r@.map_values(|p: String| p@) == done,
        decreases rem@.len(),
    {
        let found = find_char_exec(rem, c);
        proof {
            lemma_find_from(rem@, seq![c], 0);
        }
        let piece: &[char] = match found {
            Some(i) => &rem[0usize..i],
            None => rem,
        };
        let ghost before = r@.map_values(|p: String| p@);
        r.push(string_of(piece, 0, piece.len()));
        proof {
            assert(piece@.subrange(0, piece@.len() as int) =~= piece@);
            assert(split_all(rem@, c)[0] == piece@);
            assert(r@.map_values(|p: String| p@) =~= before.push(piece@));
            done = done.push(piece@);
        }
        match found {
            Some(i) => {
                assert(occurs_at(rem@, seq![c], i as int));
                assert(i < rem.len());
                let ghost old_rem = rem@;
                rem = &rem[(i + 1)..rem.len()];
                assert(split_all(old_rem, c) =~= seq![piece@] + split_all(rem@, c));
            },
            None => {
                assert(pieces =~= done);
                return r;
            },
        }
    }
}

// ---------------------------------------------------------------------------
// UTF-8 byte offsets
// ---------------------------------------------------------------------------

/// The number of bytes in the UTF-8 encoding of the character `c`.
pub open spec fn char_width(c: char) -> nat {
    vstd::utf8::encode_scalar(c as u32).len()
}

/// The number of bytes in the UTF-8 encoding of the first `i` characters
/// of `s`: the byte offset at which character `i` begins.
pub open spec fn byte_offset(s: Seq<char>, i: int) -> int {
    vstd::utf8::encode_utf8(s.take(i)).len() as int
}

/// The index of the character that begins at byte `k` of the UTF-8
/// encoding of `s` (the length of `s` when `k` is the end of the text);
/// none when byte `k` lies inside a character or past the end.
pub open spec fn char_at_byte(s: Seq<char>, k: int) -> Option<int> {
    if exists|i: int| 0 <= i <= s.len() && #[trigger] byte_offset(s, i) == k {
        Some(choose|i: int| 0 <= i <= s.len() && #[trigger] byte_offset(s, i) == k)
    } else {
        None
    }
}

/// The encoding of two texts one after the other is the encoding of the
/// first followed by the encoding of the second.
pub proof fn lemma_encode_concat(a: Seq<char>, b: Seq<char>)
    ensures
        vstd::utf8::encode_utf8(a + b) == vstd::utf8::encode_utf8(a) + vstd::utf8::encode_utf8(b),
    decreases a.len(),
{
    if a.len() == 0 {
        assert(a + b =~= b);
        assert(vstd::utf8::encode_utf8(a) =~= Seq::<u8>::empty());
        assert(vstd::utf8::encode_utf8(a) + vstd::utf8::encode_utf8(b) =~= vstd::utf8::encode_utf8(b));
    } else {
        assert((a + b).drop_first() =~= a.drop_first() + b);
        assert((a + b)[0] == a[0]);
        lemma_encode_concat(a.drop_first(), b);
        assert(vstd::utf8::encode_utf8(a + b) =~= vstd::utf8::encode_scalar(a[0] as u32) + (
        vstd::utf8::encode_utf8(a.drop_first()) + vstd::utf8::encode_utf8(b)));
    }
}

/// A stretch of a text takes no more bytes than the whole text.
pub proof fn lemma_encode_subrange_len(s: Seq<char>, i: int, j: int)
    requires
        0 <= i <= j <= s.len(),
    ensures
        vstd::utf8::encode_utf8(s.subrange(i, j)).len() <= vstd::utf8::encode_utf8(s).len(),
{
    let a = s.subrange(0, i);
    let m = s.subrange(i, j);
    let z = s.subrange(j, s.len() as int);
    assert(s =~= (a + m) + z);
    lemma_encode_concat(a + m, z);
    lemma_encode_concat(a, m);
}

/// Character `i` adds its own width to the byte offset, and every character
/// is one to four bytes wide.
pub proof fn lemma_byte_offset_step(s: Seq<char>, i: int)
    requires
        0 <= i < s.len(),
    ensures
        byte_offset(s, i + 1) == byte_offset(s, i) + char_width(s[i]),
        1 <= char_width(s[i]) <= 4,
{
    let one = seq![s[i]];
    assert(s.take(i + 1) =~= s.take(i) + one);
    lemma_encode_concat(s.take(i), one);
    assert(one.drop_first() =~= Seq::<char>::empty());
    assert(vstd::utf8::encode_utf8(one.drop_first()) =~= Seq::<u8>::empty());
    assert(one[0] == s[i]);
    assert(vstd::utf8::encode_utf8(one) =~= vstd::utf8::encode_scalar(s[i] as u32));
    vstd::utf8::char_is_scalar(s[i]);
}

/// Byte offsets grow strictly from one character to the next, starting at 0.
pub proof fn lemma_byte_offset_increasing(s: Seq<char>, i: int, j: int)
    requires
        0 <= i < j <= s.len(),
    ensures
        byte_offset(s, 0) == 0,
        0 <= byte_offset(s, i) < byte_offset(s, j),
    decreases j - i,
{
    assert(s.take(0) =~= Seq::<char>::empty());
    lemma_byte_offset_step(s, j - 1);
    if i < j - 1 {
        lemma_byte_offset_increasing(s, i, j - 1);
    }
}

/// The character that begins at byte `k` is the one whose offset is `k`.
pub proof fn lemma_char_at_byte(s: Seq<char>, k: int, i: int)
    requires
        0 <= i <= s.len(),
        byte_offset(s, i) == k,
    ensures
        char_at_byte(s, k) == Some(i),
{
    let j = choose|j: int| 0 <= j <= s.len() && #[trigger] byte_offset(s, j) == k;
    if j < i {
        lemma_byte_offset_increasing(s, j, i);
    } else if i < j {
        lemma_byte_offset_increasing(s, i, j);
    }
}

/// The byte offsets of characters `i <= j` are in the same order.
pub proof fn lemma_byte_offset_ordered(s: Seq<char>, i: int, j: int)
    requires
        0 <= i <= j <= s.len(),
    ensures
        0 <= byte_offset(s, i) <= byte_offset(s, j),
        byte_offset(s, s.len() as int) == vstd::utf8::encode_utf8(s).len(),
{
    assert(s.take(s.len() as int) =~= s);
    assert(s.take(0) =~= Seq::<char>::empty());
    if i < j {
        lemma_byte_offset_increasing(s, i, j);
    }
}

/// The byte width of `c`.
pub fn char_width_exec(c: char) -> (w: usize)
    ensures
        w == char_width(c),
{
    proof {
        vstd::utf8::char_is_scalar(c);
    }
    let v = c as u32;
    if v < 0x80 {
        1
    } else if v < 0x800 {
        2
    } else if v < 0x10000 {
        3
    } else {
        4
    }
}

/// The byte offset of character `i` of `chars`, whose encoding fits in a
/// `usize`.
pub fn byte_offset_exec(chars: &[char], i: usize) -> (r: usize)
    requires
        i <= chars@.len(),
        byte_offset(chars@, chars@.len() as int) <= usize::MAX,
    ensures
        r == byte_offset(chars@, i as int),
{
    let mut j: usize = 0;
    let mut w: usize = 0;
    proof {
        lemma_byte_offset_ordered(chars@, 0, 0);
    }
    while j < i
        invariant
            j <= i <= chars@.len(),
            byte_offset(chars@, chars@.len() as int) <= usize::MAX,
            w == byte_offset(chars@, j as int),
        decreases i - j,
    {
        proof {
            lemma_byte_offset_step(chars@, j as int);
            lemma_byte_offset_ordered(chars@, j + 1, chars@.len() as int);
        }
        w = w + char_width_exec(chars[j]);
        j = j + 1;
    }
    w
}

/// The index of the character that begins at byte `k` of `chars` (see
/// `char_at_byte`).
pub fn char_at_byte_exec(chars: &[char], k: usize) -> (r: Option<usize>)
    ensures
        match r {
            Some(i) => char_at_byte(chars@, k as int) == Some(i as int),
            None => char_at_byte(chars@, k as int) is None,
        },
{
    let n = chars.len();
    let mut i: usize = 0;
    let mut w: usize = 0;
    proof {
        lemma_byte_offset_ordered(chars@, 0, 0);
    }
    while w < k
        invariant
            i <= n == chars@.len(),
            w == byte_offset(chars@, i as int),
            w <= k,
            forall|j: int| 0 <= j <= i ==> #[trigger] byte_offset(chars@, j) < k || j == i,
        decreases n - i,
    {
        if i == n {
            proof {
                assert forall|j: int| 0 <= j <= chars@.len() implies #[trigger] byte_offset(
                    chars@,
                    j,
                ) != k by {}
            }
            return None;
        }
        let width = char_width_exec(chars[i]);
        proof {
            lemma_byte_offset_step(chars@, i as int);
        }
        if width > k - w {
            proof {
                assert forall|j: int| 0 <= j <= chars@.len() implies #[trigger] byte_offset(
                    chars@,
                    j,
                ) != k by {
                    if j > i + 1 {
                        lemma_byte_offset_increasing(chars@, i + 1, j);
                    }
                }
            }
            return None;
        }
        proof {
            assert forall|j: int| 0 <= j <= i + 1 implies #[trigger] byte_offset(chars@, j) < k
                || j == i + 1 by {
                if j < i {
                    lemma_byte_offset_increasing(chars@, j, i as int);
                }
            }
        }
        w = w + width;
        i = i + 1;
    }
    proof {
        lemma_char_at_byte(chars@, k as int, i as int);
    }
    Some(i)
}

} // verus!
