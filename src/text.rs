//! Text helpers: comparison, prefixes, search, and the std text functions relied on.

use vstd::prelude::*;

verus! {

/// Whether two texts hold the same characters.
pub fn same_text(a: &str, b: &str) -> (r: bool)
    ensures
        r == (a@ == b@),
{
    let n = a.unicode_len();
    if n != b.unicode_len() {
        return false;
    }
    let mut i: usize = 0;
    while i < n
        invariant
            n == a@.len(),
            n == b@.len(),
            i <= n,
            a@.subrange(0, i as int) == b@.subrange(0, i as int),
        decreases n - i,
    {
        if a.get_char(i) != b.get_char(i) {
            return false;
        }
        assert(a@.subrange(0, i + 1) == a@.subrange(0, i as int).push(a@[i as int]));
        assert(b@.subrange(0, i + 1) == b@.subrange(0, i as int).push(b@[i as int]));
        i = i + 1;
    }
    assert(a@ == a@.subrange(0, n as int));
    assert(b@ == b@.subrange(0, n as int));
    true
}

/// Whether `text` begins with `prefix`.
pub open spec fn has_prefix(text: Seq<char>, prefix: Seq<char>) -> bool {
    prefix.len() <= text.len() && text.subrange(0, prefix.len() as int) == prefix
}

/// The text after `prefix` where `text` begins with it.
pub fn strip_prefix<'a>(text: &'a str, prefix: &str) -> (r: Option<&'a str>)
    ensures
        match r {
            Some(rest) => has_prefix(text@, prefix@) && rest@ == text@.subrange(
                prefix@.len() as int,
                text@.len() as int,
            ),
            None => !has_prefix(text@, prefix@),
        },
{
    let n = text.unicode_len();
    let k = prefix.unicode_len();
    if k > n {
        return None;
    }
    let head = text.substring_char(0, k);
    if same_text(head, prefix) {
        Some(text.substring_char(k, n))
    } else {
        None
    }
}

/// What `String::from_utf8_lossy` makes of a byte sequence.
pub uninterp spec fn utf8_lossy(bytes: Seq<u8>) -> Seq<char>;

/// What `str::trim` leaves of a text.
pub uninterp spec fn trimmed(text: Seq<char>) -> Seq<char>;

/// Relies on `String::from_utf8_lossy`: the text depends on the bytes alone.
#[verifier::external_body]
pub(crate) fn decode_lossy(bytes: &[u8]) -> (r: String)
    ensures
        r@ == utf8_lossy(bytes@),
{
    String::from_utf8_lossy(bytes).into_owned()
}

/// Relies on `str::trim`: leading and trailing white space removed, depending on the
/// text alone.
#[verifier::external_body]
pub(crate) fn trim(text: &str) -> (r: &str)
    ensures
        r@ == trimmed(text@),
{
    text.trim()
}


/// The characters of `s`, one by one.
pub fn char_vec(s: &str) -> (r: Vec<char>)
    ensures
        r@ == s@,
{
    let n = s.unicode_len();
    let mut out: Vec<char> = Vec::new();
    let mut i: usize = 0;
    while i < n
        invariant
            n == s@.len(),
            i <= n,
            out@ == s@.subrange(0, i as int),
        decreases n - i,
    {
        out.push(s.get_char(i));
        assert(out@ =~= s@.subrange(0, i + 1));
        i = i + 1;
    }
    assert(s@.subrange(0, n as int) == s@);
    out
}

/// Whether `needle` occurs in `hay` at position `i`.
pub open spec fn occurs_at(hay: Seq<char>, needle: Seq<char>, i: int) -> bool {
    0 <= i && i + needle.len() <= hay.len() && hay.subrange(i, i + needle.len()) == needle
}

/// Whether `needle` occurs anywhere in `hay`.
pub open spec fn contains_seq(hay: Seq<char>, needle: Seq<char>) -> bool {
    exists|i: int| occurs_at(hay, needle, i)
}

/// The first position at or after `from` where `needle` occurs in `hay`.
pub open spec fn first_occurrence_from(hay: Seq<char>, needle: Seq<char>, from: int) -> Option<int>
    decreases hay.len() + 1 - from,
{
    if from < 0 || from + needle.len() > hay.len() {
        None
    } else if occurs_at(hay, needle, from) {
        Some(from)
    } else {
        first_occurrence_from(hay, needle, from + 1)
    }
}

/// The first occurrence found is one, and none comes before it.
pub proof fn lemma_first_occurrence(hay: Seq<char>, needle: Seq<char>, from: int)
    requires
        0 <= from,
    ensures
        match first_occurrence_from(hay, needle, from) {
            Some(i) => from <= i && occurs_at(hay, needle, i) && forall|j: int|
                from <= j < i ==> !occurs_at(hay, needle, j),
            None => forall|j: int| from <= j ==> !occurs_at(hay, needle, j),
        },
    decreases hay.len() + 1 - from,
{
    if from + needle.len() <= hay.len() && !occurs_at(hay, needle, from) {
        lemma_first_occurrence(hay, needle, from + 1);
    }
}

/// Whether `needle` occurs in `hay` at position `i`.
fn matches_at(hay: &Vec<char>, needle: &Vec<char>, i: usize) -> (r: bool)
    requires
        i + needle@.len() <= hay@.len(),
    ensures
        r == occurs_at(hay@, needle@, i as int),
{
    let mut k: usize = 0;
    while k < needle.len()
        invariant
            i + needle@.len() <= hay@.len(),
            k <= needle@.len(),
            hay@.subrange(i as int, i + k) == needle@.subrange(0, k as int),
        decreases needle.len() - k,
    {
        let n = hay.len();
        assert(i + k < n);
        if hay[i + k] != needle[k] {
            assert(hay@.subrange(i as int, i + needle@.len())[k as int] != needle@[k as int]);
            return false;
        }
        assert(hay@.subrange(i as int, i + k + 1) =~= hay@.subrange(i as int, i + k).push(hay@[i + k]));
        assert(needle@.subrange(0, k + 1) =~= needle@.subrange(0, k as int).push(needle@[k as int]));
        k = k + 1;
    }
    assert(needle@.subrange(0, needle@.len() as int) == needle@);
    true
}

/// The first position at or after `from` where `needle` occurs in `hay`.
pub fn find_from(hay: &Vec<char>, needle: &Vec<char>, from: usize) -> (r: Option<usize>)
    ensures
        match first_occurrence_from(hay@, needle@, from as int) {
            Some(i) => r matches Some(k) && k as int == i,
            None => r is None,
        },
{
    if needle.len() > hay.len() || from > hay.len() - needle.len() {
        return None;
    }
    let last = hay.len() - needle.len();
    let mut i = from;
    while i <= last
        invariant
            from <= i,
            last + needle@.len() == hay@.len(),
            first_occurrence_from(hay@, needle@, from as int) == first_occurrence_from(hay@, needle@, i as int),
        decreases last + 1 - i,
    {
        if matches_at(hay, needle, i) {
            return Some(i);
        }
        if i == last {
            return None;
        }
        i = i + 1;
    }
    None
}

/// The first position at or after `from` where `c` stands in `hay`.
pub fn find_char_from(hay: &Vec<char>, c: char, from: usize) -> (r: Option<usize>)
    ensures
        match first_occurrence_from(hay@, seq![c], from as int) {
            Some(i) => r matches Some(k) && k as int == i,
            None => r is None,
        },
{
    let needle = vec![c];
    assert(needle@ =~= seq![c]);
    find_from(hay, &needle, from)
}

/// Whether `needle` occurs in `hay`.
pub fn contains_text(hay: &str, needle: &str) -> (r: bool)
    ensures
        r == contains_seq(hay@, needle@),
{
    let h = char_vec(hay);
    let n = char_vec(needle);
    proof {
        lemma_first_occurrence(h@, n@, 0);
    }
    match find_from(&h, &n, 0) {
        Some(_) => true,
        None => {
            assert(!contains_seq(hay@, needle@));
            false
        },
    }
}

/// What `str::to_lowercase` makes of a text.
pub uninterp spec fn lower_of(text: Seq<char>) -> Seq<char>;

/// Relies on `str::to_lowercase`: the result depends on the text alone.
#[verifier::external_body]
pub(crate) fn lowercase(text: &str) -> (r: String)
    ensures
        r@ == lower_of(text@),
{
    text.to_lowercase()
}

/// What `char::is_whitespace` says of a character.
pub uninterp spec fn is_white_space(c: char) -> bool;

/// Relies on `char::is_whitespace`: the answer depends on the character alone.
#[verifier::external_body]
pub(crate) fn white_space(c: char) -> (r: bool)
    ensures
        r == is_white_space(c),
{
    c.is_whitespace()
}

/// Whether some character of `text` is white space.
pub open spec fn has_white_space(text: Seq<char>) -> bool {
    exists|i: int| 0 <= i < text.len() && is_white_space(#[trigger] text[i])
}

/// Whether some character of `text` is white space.
pub fn contains_white_space(text: &str) -> (r: bool)
    ensures
        r == has_white_space(text@),
{
    let cs = char_vec(text);
    let mut i: usize = 0;
    while i < cs.len()
        invariant
            cs@ == text@,
            i <= cs@.len(),
            forall|j: int| 0 <= j < i ==> !is_white_space(#[trigger] text@[j]),
        decreases cs.len() - i,
    {
        if white_space(cs[i]) {
            return true;
        }
        i = i + 1;
    }
    false
}

/// The decimal text of an integer, as `ToString` writes it.
pub uninterp spec fn decimal_text(n: i64) -> Seq<char>;

/// Relies on `i64`'s `ToString`: the text depends on the number alone.
#[verifier::external_body]
pub(crate) fn decimal(n: i64) -> (r: String)
    ensures
        r@ == decimal_text(n),
{
    n.to_string()
}

/// What `str::parse::<u64>` makes of a text: the number, or the text of its error.
pub uninterp spec fn u64_parse(text: Seq<char>) -> Result<u64, Seq<char>>;

/// Relies on `str::parse::<u64>`: the outcome depends on the text alone; the error is
/// carried over as its text.
#[verifier::external_body]
pub(crate) fn parse_u64(text: &str) -> (r: Result<u64, String>)
    ensures
        match r {
            Ok(n) => u64_parse(text@) == Ok::<u64, Seq<char>>(n),
            Err(e) => u64_parse(text@) == Err::<u64, Seq<char>>(e@),
        },
{
    text.parse::<u64>().map_err(|e| e.to_string())
}

} // verus!
