//! Text as sequences of characters: comparison, substring search, scanning
//! for classes of characters, and the one call that lower-cases a string.

use vstd::prelude::*;
use vstd::std_specs::iter::IteratorSpec;

verus! {

/// The characters of `s`, in order.
pub fn chars_of(s: &str) -> (out: Vec<char>)
    ensures
        out@ == s@,
{
    let mut out: Vec<char> = Vec::new();
    for c in it: s.chars()
        invariant
            out@ == it.seq().take(it.index() as int),
            it.seq() == s@,
    {
        out.push(c);
    }
    out
}

/// Whether two character vectors hold the same text.
pub fn same_chars(a: &Vec<char>, b: &Vec<char>) -> (r: bool)
    ensures
        r == (a@ == b@),
{
    if a.len() != b.len() {
        return false;
    }
    let mut i: usize = 0;
    while i < a.len()
        invariant
            i <= a.len(),
            a.len() == b.len(),
            forall|k: int| 0 <= k < i ==> a@[k] == b@[k],
        decreases a.len() - i,
    {
        if a[i] != b[i] {
            return false;
        }
        i += 1;
    }
    assert(a@ =~= b@);
    true
}

/// Whether two strings hold the same text.
pub fn same_text(a: &str, b: &str) -> (r: bool)
    ensures
        r == (a@ == b@),
{
    let x = chars_of(a);
    let y = chars_of(b);
    same_chars(&x, &y)
}

/// `needle` stands in `hay` at index `at`.
pub open spec fn occurs_at(hay: Seq<char>, needle: Seq<char>, at: int) -> bool {
    &&& 0 <= at
    &&& at + needle.len() <= hay.len()
    &&& hay.subrange(at, at + needle.len()) == needle
}

/// `needle` is a contiguous part of `hay`. The empty text is part of every text.
pub open spec fn contains(hay: Seq<char>, needle: Seq<char>) -> bool {
    exists|at: int| occurs_at(hay, needle, at)
}

/// Whether `needle` stands in `hay` at `at`.
pub fn matches_at(hay: &Vec<char>, needle: &Vec<char>, at: usize) -> (r: bool)
    ensures
        r == occurs_at(hay@, needle@, at as int),
{
    if needle.len() > hay.len() || at > hay.len() - needle.len() {
        return false;
    }
    let mut k: usize = 0;
    while k < needle.len()
        invariant
            k <= needle.len(),
            at + needle.len() <= hay.len(),
            forall|j: int| 0 <= j < k ==> hay@[at + j] == needle@[j],
        decreases needle.len() - k,
    {
        if hay[at + k] != needle[k] {
            assert(hay@.subrange(at as int, at + needle.len())[k as int] == hay@[at + k]);
            return false;
        }
        k += 1;
    }
    assert(hay@.subrange(at as int, at + needle.len()) =~= needle@);
    true
}

/// The lower-case form of a text as the standard library computes it.
pub uninterp spec fn lowercase_of(s: Seq<char>) -> Seq<char>;

/// Calls `str::to_lowercase`. The result is only named: the mapping is Unicode's
/// and is not spelled out in this crate, so nothing here is proved about which
/// characters it changes.
#[verifier::external_body]
pub(crate) fn lowercase(s: &str) -> (r: String)
    ensures
        r@ == lowercase_of(s@),
{
    s.to_lowercase()
}

/// Joins two texts.
pub fn concat2(a: &str, b: &str) -> (r: String)
    ensures
        r@ == a@ + b@,
{
    String::from_str(a).concat(b)
}

/// The texts of a sequence of strings.
pub open spec fn texts(v: Seq<String>) -> Seq<Seq<char>> {
    v.map_values(|s: String| s@)
}

/// `c` is white space: one of the characters with Unicode's `White_Space`
/// property.
pub open spec fn is_space(c: char) -> bool {
    let u = c as u32;
    (0x09 <= u <= 0x0d) || u == 0x20 || u == 0x85 || u == 0xa0 || u == 0x1680 || (0x2000 <= u
        <= 0x200a) || u == 0x2028 || u == 0x2029 || u == 0x202f || u == 0x205f || u == 0x3000
}

/// Whether `c` is white space.
pub fn space(c: char) -> (r: bool)
    ensures
        r == is_space(c),
{
    let u = c as u32;
    (0x09 <= u && u <= 0x0d) || u == 0x20 || u == 0x85 || u == 0xa0 || u == 0x1680 || (0x2000 <= u
        && u <= 0x200a) || u == 0x2028 || u == 0x2029 || u == 0x202f || u == 0x205f || u == 0x3000
}

/// `s` without the white space at its two ends.
pub open spec fn trimmed(s: Seq<char>) -> Seq<char>
    decreases s.len(),
{
    if s.len() == 0 {
        s
    } else if is_space(s[0]) {
        trimmed(s.drop_first())
    } else if is_space(s.last()) {
        trimmed(s.drop_last())
    } else {
        s
    }
}

/// `s` without the white space at its two ends.
pub fn trim(s: &str) -> (r: String)
    ensures
        r@ == trimmed(s@),
{
    let chars = chars_of(s);
    let mut a: usize = 0;
    let mut b: usize = chars.len();
    assert(chars@.subrange(0, chars@.len() as int) =~= s@);
    while a < b && space(chars[a])
        invariant
            a <= b == chars.len(),
            chars@ == s@,
            trimmed(s@) == trimmed(chars@.subrange(a as int, b as int)),
        decreases b - a,
    {
        assert(chars@.subrange(a as int, b as int).drop_first() =~= chars@.subrange(
            a + 1,
            b as int,
        ));
        a += 1;
    }
    while a < b && space(chars[b - 1])
        invariant
            a <= b <= chars.len(),
            chars@ == s@,
            a < b ==> !is_space(chars@[a as int]),
            trimmed(s@) == trimmed(chars@.subrange(a as int, b as int)),
        decreases b - a,
    {
        assert(chars@.subrange(a as int, b as int).drop_last() =~= chars@.subrange(
            a as int,
            b - 1,
        ));
        b -= 1;
    }
    proof {
        let part = chars@.subrange(a as int, b as int);
        if a < b {
            assert(part[0] == chars@[a as int]);
            assert(part.last() == chars@[b - 1]);
        }
        assert(trimmed(part) == part);
    }
    String::from_str(s.substring_char(a, b))
}

/// A class of characters that a scan stops at.
#[derive(Debug, Clone, Copy, PartialEq, Eq, Structural)]
pub enum CharClass {
    /// The line feed.
    Newline,
    /// White space.
    Space,
    /// Anything but white space.
    NotSpace,
    /// Anything but the letter `n`.
    NotN,
    /// The point and the hyphen.
    DotOrDash,
    /// The point.
    Point,
}

/// `c` belongs to `class`.
pub open spec fn in_class(class: CharClass, c: char) -> bool {
    match class {
        CharClass::Newline => c == '\n',
        CharClass::Space => is_space(c),
        CharClass::NotSpace => !is_space(c),
        CharClass::NotN => c != 'n',
        CharClass::DotOrDash => c == '.' || c == '-',
        CharClass::Point => c == '.',
    }
}

/// Whether `c` belongs to `class`.
pub fn class_holds(class: CharClass, c: char) -> (r: bool)
    ensures
        r == in_class(class, c),
{
    match class {
        CharClass::Newline => c == '\n',
        CharClass::Space => space(c),
        CharClass::NotSpace => !space(c),
        CharClass::NotN => c != 'n',
        CharClass::DotOrDash => c == '.' || c == '-',
        CharClass::Point => c == '.',
    }
}

/// The index of the first character of `s` in `class`, or the length of `s`
/// where there is none.
pub open spec fn first_of(s: Seq<char>, class: CharClass) -> int
    decreases s.len(),
{
    if s.len() == 0 {
        0
    } else if in_class(class, s[0]) {
        0
    } else {
        1 + first_of(s.drop_first(), class)
    }
}

/// An index whose character is in the class, with none before it that is, is
/// the first of the class; so is the length where no character is in it.
pub proof fn lemma_first_of_is(s: Seq<char>, class: CharClass, at: int)
    requires
        0 <= at <= s.len(),
        forall|j: int| 0 <= j < at ==> !in_class(class, #[trigger] s[j]),
        at < s.len() ==> in_class(class, s[at]),
    ensures
        first_of(s, class) == at,
    decreases s.len(),
{
    if at > 0 {
        assert(!in_class(class, s[0]));
        let rest = s.drop_first();
        assert forall|j: int| 0 <= j < at - 1 implies !in_class(class, #[trigger] rest[j]) by {
            assert(rest[j] == s[j + 1]);
        }
        lemma_first_of_is(rest, class, at - 1);
    }
}

/// The index of the first character of `s[from..to]` in `class`, or `to`
/// where there is none.
pub fn scan(s: &Vec<char>, from: usize, to: usize, class: CharClass) -> (r: usize)
    requires
        from <= to <= s.len(),
    ensures
        from <= r <= to,
        r == from + first_of(s@.subrange(from as int, to as int), class),
{
    let mut at: usize = from;
    let ghost part = s@.subrange(from as int, to as int);
    while at < to && !class_holds(class, s[at])
        invariant
            from <= at <= to <= s.len(),
            part == s@.subrange(from as int, to as int),
            forall|j: int| 0 <= j < at - from ==> !in_class(class, #[trigger] part[j]),
        decreases to - at,
    {
        assert(part[at - from] == s@[at as int]);
        at += 1;
    }
    proof {
        if at < to {
            assert(part[at - from] == s@[at as int]);
        }
        lemma_first_of_is(part, class, at - from);
    }
    at
}

/// The index at which `needle` first stands in `hay`, or the length of `hay`
/// where it stands nowhere.
pub open spec fn first_occurrence(hay: Seq<char>, needle: Seq<char>) -> int
    decreases hay.len(),
{
    if occurs_at(hay, needle, 0) {
        0
    } else if hay.len() == 0 {
        0
    } else {
        1 + first_occurrence(hay.drop_first(), needle)
    }
}

/// Standing in a part of a text is standing in the text, moved by where the
/// part begins, and within the part's end.
pub proof fn lemma_occurs_in_part(hay: Seq<char>, needle: Seq<char>, from: int, to: int, j: int)
    requires
        0 <= from <= to <= hay.len(),
        0 <= j,
    ensures
        occurs_at(hay.subrange(from, to), needle, j) <==> (from + j + needle.len() <= to
            && occurs_at(hay, needle, from + j)),
{
    if from + j + needle.len() <= to {
        assert(hay.subrange(from, to).subrange(j, j + needle.len()) =~= hay.subrange(
            from + j,
            from + j + needle.len(),
        ));
    }
}

/// An index at which the needle stands, with none before it at which it
/// does, is its first occurrence; so is the length where it stands nowhere.
pub proof fn lemma_first_occurrence_is(hay: Seq<char>, needle: Seq<char>, at: int)
    requires
        0 <= at <= hay.len(),
        forall|j: int| 0 <= j < at ==> !occurs_at(hay, needle, j),
        at < hay.len() ==> occurs_at(hay, needle, at),
        at == hay.len() ==> !occurs_at(hay, needle, at),
    ensures
        first_occurrence(hay, needle) == at,
    decreases hay.len(),
{
    if at > 0 {
        assert(!occurs_at(hay, needle, 0));
        let rest = hay.drop_first();
        assert(rest =~= hay.subrange(1, hay.len() as int));
        assert forall|j: int| 0 <= j implies (occurs_at(rest, needle, j) <==> occurs_at(
            hay,
            needle,
            j + 1,
        )) by {
            lemma_occurs_in_part(hay, needle, 1, hay.len() as int, j);
        }
        lemma_first_occurrence_is(rest, needle, at - 1);
    }
}

/// The needle is a part of the text exactly when its first occurrence lies
/// before the text's end, given that the needle is not empty.
pub proof fn lemma_first_occurrence_contains(hay: Seq<char>, needle: Seq<char>)
    requires
        needle.len() > 0,
    ensures
        0 <= first_occurrence(hay, needle) <= hay.len(),
        contains(hay, needle) <==> first_occurrence(hay, needle) < hay.len(),
        first_occurrence(hay, needle) < hay.len() ==> occurs_at(
            hay,
            needle,
            first_occurrence(hay, needle),
        ),
    decreases hay.len(),
{
    if occurs_at(hay, needle, 0) {
    } else if hay.len() == 0 {
        assert forall|at: int| !occurs_at(hay, needle, at) by {}
    } else {
        let rest = hay.drop_first();
        assert(rest =~= hay.subrange(1, hay.len() as int));
        lemma_first_occurrence_contains(rest, needle);
        assert forall|j: int| 0 <= j implies (occurs_at(rest, needle, j) <==> occurs_at(
            hay,
            needle,
            j + 1,
        )) by {
            lemma_occurs_in_part(hay, needle, 1, hay.len() as int, j);
        }
        if contains(hay, needle) {
            let at = choose|at: int| occurs_at(hay, needle, at);
            assert(occurs_at(rest, needle, at - 1));
        }
        if contains(rest, needle) {
            let at = choose|at: int| occurs_at(rest, needle, at);
            assert(occurs_at(hay, needle, at + 1));
        }
    }
}

/// The index at which `needle` first stands in `hay[from..to]`, or `to`
/// where it stands nowhere in that part.
pub fn find_first(hay: &Vec<char>, needle: &Vec<char>, from: usize, to: usize) -> (r: usize)
    requires
        from <= to <= hay.len(),
    ensures
        from <= r <= to,
        r == from + first_occurrence(hay@.subrange(from as int, to as int), needle@),
        r < to ==> r + needle.len() <= to,
{
    let ghost part = hay@.subrange(from as int, to as int);
    if needle.len() == 0 {
        assert(part.subrange(0, 0) =~= needle@);
        return from;
    }
    let mut at: usize = from;
    while at < to
        invariant
            from <= at <= to <= hay.len(),
            needle.len() > 0,
            part == hay@.subrange(from as int, to as int),
            forall|j: int| 0 <= j < at - from ==> !occurs_at(part, needle@, j),
        decreases to - at,
    {
        proof {
            lemma_occurs_in_part(hay@, needle@, from as int, to as int, at - from);
        }
        if needle.len() <= to - at && matches_at(hay, needle, at) {
            proof {
                lemma_first_occurrence_is(part, needle@, at - from);
            }
            return at;
        }
        at += 1;
    }
    proof {
        lemma_first_occurrence_is(part, needle@, at - from);
    }
    at
}

/// Whether `needle` is a contiguous part of `hay`.
pub fn contains_chars(hay: &Vec<char>, needle: &Vec<char>) -> (r: bool)
    ensures
        r == contains(hay@, needle@),
{
    if needle.len() == 0 {
        assert(occurs_at(hay@, needle@, 0)) by {
            assert(hay@.subrange(0, 0) =~= needle@);
        }
        return true;
    }
    proof {
        lemma_first_occurrence_contains(hay@, needle@);
        assert(hay@.subrange(0, hay@.len() as int) =~= hay@);
    }
    find_first(hay, needle, 0, hay.len()) < hay.len()
}

/// Whether the text `needle` is a contiguous part of `hay`.
pub fn contains_text(hay: &Vec<char>, needle: &str) -> (r: bool)
    ensures
        r == contains(hay@, needle@),
{
    let n = chars_of(needle);
    contains_chars(hay, &n)
}

} // verus!
