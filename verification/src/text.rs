use vstd::prelude::*;
use vstd::string::StringExecFns;

verus! {

/// What `str::to_lowercase` gives for a string that is not all ASCII (full Unicode
/// case mapping).
pub uninterp spec fn lowercase(s: Seq<char>) -> Seq<char>;

/// What `str::to_uppercase` gives for a string that is not all ASCII (full Unicode
/// case mapping).
pub uninterp spec fn uppercase(s: Seq<char>) -> Seq<char>;

/// Whether `c` has the Unicode `White_Space` property (what `char::is_whitespace` tests).
pub open spec fn white_space(c: char) -> bool {
    let v = c as int;
    ||| 0x09 <= v <= 0x0d
    ||| v == 0x20
    ||| v == 0x85
    ||| v == 0xa0
    ||| v == 0x1680
    ||| 0x2000 <= v <= 0x200a
    ||| v == 0x2028
    ||| v == 0x2029
    ||| v == 0x202f
    ||| v == 0x205f
    ||| v == 0x3000
}

/// `s` without its leading white space.
pub open spec fn trimmed_start(s: Seq<char>) -> Seq<char>
    decreases s.len(),
{
    if s.len() > 0 && white_space(s[0]) {
        trimmed_start(s.drop_first())
    } else {
        s
    }
}

/// `s` without its trailing white space.
pub open spec fn trimmed_end(s: Seq<char>) -> Seq<char>
    decreases s.len(),
{
    if s.len() > 0 && white_space(s.last()) {
        trimmed_end(s.drop_last())
    } else {
        s
    }
}

/// `s` without white space at either end (what `str::trim` gives).
pub open spec fn trimmed(s: Seq<char>) -> Seq<char> {
    trimmed_end(trimmed_start(s))
}

/// Whether every character of `s` is ASCII.
pub open spec fn ascii_text(s: Seq<char>) -> bool {
    forall|i: int| 0 <= i < s.len() ==> (#[trigger] s[i] as int) < 128
}

/// `c` with an ASCII capital letter turned into its small letter.
pub open spec fn ascii_lower_char(c: char) -> char {
    if 65 <= (c as int) <= 90 {
        ((c as int) + 32) as char
    } else {
        c
    }
}

/// What `str::to_lowercase` gives: on ASCII text the capital letters `A`-`Z` become
/// `a`-`z` and every other character stays; on other text, `lowercase` of it.
pub open spec fn lowercased(s: Seq<char>) -> Seq<char> {
    if ascii_text(s) {
        s.map_values(|c: char| ascii_lower_char(c))
    } else {
        lowercase(s)
    }
}

/// Calls `str::to_lowercase`. Unicode's lower-case mapping of an ASCII character is the
/// ASCII one (only `A`-`Z` change), so on ASCII text the result is stated; on other text
/// it is named `lowercase` of the input.
#[verifier::external_body]
pub(crate) fn to_lowercase(s: &str) -> (r: String)
    ensures
        ascii_text(s@) ==> r@ == s@.map_values(|c: char| ascii_lower_char(c)),
        !ascii_text(s@) ==> r@ == lowercase(s@),
{
    s.to_lowercase()
}

/// `c` with an ASCII small letter turned into its capital letter.
pub open spec fn ascii_upper_char(c: char) -> char {
    if 97 <= (c as int) <= 122 {
        ((c as int) - 32) as char
    } else {
        c
    }
}

/// What `str::to_uppercase` gives: on ASCII text the small letters `a`-`z` become
/// `A`-`Z` and every other character stays; on other text, `uppercase` of it.
pub open spec fn uppercased(s: Seq<char>) -> Seq<char> {
    if ascii_text(s) {
        s.map_values(|c: char| ascii_upper_char(c))
    } else {
        uppercase(s)
    }
}

/// Calls `str::to_uppercase`. Unicode's upper-case mapping of an ASCII character is the
/// ASCII one (only `a`-`z` change), so on ASCII text the result is stated; on other text
/// it is named `uppercase` of the input.
#[verifier::external_body]
pub(crate) fn to_uppercase(s: &str) -> (r: String)
    ensures
        ascii_text(s@) ==> r@ == s@.map_values(|c: char| ascii_upper_char(c)),
        !ascii_text(s@) ==> r@ == uppercase(s@),
{
    s.to_uppercase()
}

/// Calls `str::trim`, which removes leading and trailing characters with the Unicode
/// `White_Space` property: the result is `trimmed` of the input.
#[verifier::external_body]
pub(crate) fn trim(s: &str) -> (r: &str)
    ensures
        r@ == trimmed(s@),
{
    s.trim()
}

/// Collects characters into a `String` (`FromIterator<&char> for String`),
/// which holds exactly those characters in order.
#[verifier::external_body]
pub(crate) fn string_from_chars(chars: &Vec<char>) -> (r: String)
    ensures
        r@ == chars@,
{
    chars.iter().collect()
}

/// The characters of a string slice, in order.
pub fn chars_of(s: &str) -> (r: Vec<char>)
    ensures
        r@ == s@,
{
    let mut v: Vec<char> = Vec::new();
    for c in it: s.chars()
        invariant
            v@ == it.seq().take(it.index() as int),
    {
        v.push(c);
    }
    v
}

/// Owned copy of a string slice.
pub fn owned(s: &str) -> (r: String)
    ensures
        r@ == s@,
{
    String::from_str(s)
}

/// `a` followed by `b`.
pub fn join2(a: &str, b: &str) -> (r: String)
    ensures
        r@ == a@ + b@,
{
    String::from_str(a).concat(b)
}

/// Whether two string slices hold the same characters.
pub fn same_text(a: &str, b: &str) -> (r: bool)
    ensures
        r == (a@ == b@),
{
    let x = String::from_str(a);
    let y = String::from_str(b);
    x == y
}

/// The character for a decimal digit.
pub open spec fn digit_char(d: nat) -> char
    recommends
        d < 10,
{
    ((d + 48) as u8) as char
}

/// Decimal rendering of a natural number, without sign or leading zeros.
pub open spec fn decimal(n: nat) -> Seq<char>
    decreases n,
{
    if n < 10 {
        seq![digit_char(n)]
    } else {
        decimal(n / 10).push(digit_char(n % 10))
    }
}

/// `s` left-padded with `'0'` up to `width` characters.
pub open spec fn zero_padded(s: Seq<char>, width: nat) -> Seq<char> {
    if s.len() >= width {
        s
    } else {
        Seq::new((width - s.len()) as nat, |i: int| '0') + s
    }
}

/// Decimal digits of `n`.
pub fn decimal_chars(n: u64) -> (r: Vec<char>)
    ensures
        r@ == decimal(n as nat),
    decreases n,
{
    let d: u8 = (n % 10) as u8;
    let c: char = (d + 48u8) as char;
    if n < 10 {
        let mut v: Vec<char> = Vec::new();
        v.push(c);
        v
    } else {
        let mut v = decimal_chars(n / 10);
        v.push(c);
        v
    }
}

/// Decimal rendering of `n` as a `String`.
pub fn decimal_string(n: u64) -> (r: String)
    ensures
        r@ == decimal(n as nat),
{
    let v = decimal_chars(n);
    string_from_chars(&v)
}

/// Decimal rendering of `n`, left-padded with zeros to at least `width` characters.
pub fn zero_padded_decimal(n: u64, width: usize) -> (r: String)
    ensures
        r@ == zero_padded(decimal(n as nat), width as nat),
{
    let digits = decimal_chars(n);
    if digits.len() >= width {
        return string_from_chars(&digits);
    }
    let pad: usize = width - digits.len();
    let mut v: Vec<char> = Vec::new();
    let mut i: usize = 0;
    while i < pad
        invariant
            i <= pad,
            v@ == Seq::new(i as nat, |j: int| '0'),
        decreases pad - i,
    {
        v.push('0');
        i = i + 1;
    }
    let mut k: usize = 0;
    while k < digits.len()
        invariant
            k <= digits.len(),
            v@ == Seq::new(pad as nat, |j: int| '0') + digits@.take(k as int),
        decreases digits.len() - k,
    {
        v.push(digits[k]);
        k = k + 1;
        assert(digits@.take(k as int) == digits@.take((k - 1) as int).push(digits@[k - 1]));
    }
    assert(digits@.take(digits.len() as int) == digits@);
    string_from_chars(&v)
}

/// Strict lexicographic order on character sequences, by code point.
pub open spec fn text_lt(a: Seq<char>, b: Seq<char>) -> bool
    decreases a.len(),
{
    if a.len() == 0 {
        b.len() > 0
    } else if b.len() == 0 {
        false
    } else if (a[0] as int) < (b[0] as int) {
        true
    } else if (a[0] as int) > (b[0] as int) {
        false
    } else {
        text_lt(a.drop_first(), b.drop_first())
    }
}

/// `text_lt` never relates a sequence to itself.
pub proof fn lemma_text_lt_irreflexive(a: Seq<char>)
    ensures
        !text_lt(a, a),
    decreases a.len(),
{
    if a.len() > 0 {
        lemma_text_lt_irreflexive(a.drop_first());
    }
}

/// `text_lt` is transitive.
pub proof fn lemma_text_lt_transitive(a: Seq<char>, b: Seq<char>, c: Seq<char>)
    requires
        text_lt(a, b),
        text_lt(b, c),
    ensures
        text_lt(a, c),
    decreases a.len(),
{
    if a.len() > 0 && b.len() > 0 && c.len() > 0 {
        if a[0] == b[0] && b[0] == c[0] {
            lemma_text_lt_transitive(a.drop_first(), b.drop_first(), c.drop_first());
        }
    }
}

/// Two distinct sequences are related one way or the other.
pub proof fn lemma_text_lt_total(a: Seq<char>, b: Seq<char>)
    requires
        a != b,
    ensures
        text_lt(a, b) || text_lt(b, a),
    decreases a.len(),
{
    if a.len() > 0 && b.len() > 0 {
        if (a[0] as int) == (b[0] as int) {
            assert(a[0] == b[0]);
            if a.drop_first() == b.drop_first() {
                assert(a =~= seq![a[0]] + a.drop_first());
                assert(b =~= seq![b[0]] + b.drop_first());
            }
            lemma_text_lt_total(a.drop_first(), b.drop_first());
        }
    } else if a.len() == 0 && b.len() == 0 {
        assert(a =~= b);
    }
}

proof fn lemma_text_lt_skip(a: Seq<char>, b: Seq<char>, i: int)
    requires
        0 <= i < a.len(),
        i < b.len(),
        a[i] == b[i],
    ensures
        text_lt(a.skip(i), b.skip(i)) == text_lt(a.skip(i + 1), b.skip(i + 1)),
{
    assert(a.skip(i).drop_first() =~= a.skip(i + 1));
    assert(b.skip(i).drop_first() =~= b.skip(i + 1));
}

/// Whether `a` comes strictly before `b` in code-point lexicographic order.
pub fn text_less(a: &Vec<char>, b: &Vec<char>) -> (r: bool)
    ensures
        r == text_lt(a@, b@),
{
    let mut i: usize = 0;
    assert(a@.skip(0) =~= a@);
    assert(b@.skip(0) =~= b@);
    while i < a.len() && i < b.len()
        invariant
            i <= a.len(),
            i <= b.len(),
            text_lt(a@, b@) == text_lt(a@.skip(i as int), b@.skip(i as int)),
        decreases a.len() - i,
    {
        let x: char = a[i];
        let y: char = b[i];
        assert(a@.skip(i as int)[0] == a@[i as int]);
        assert(b@.skip(i as int)[0] == b@[i as int]);
        if x < y {
            return true;
        }
        if x > y {
            return false;
        }
        assert(a@[i as int] == b@[i as int]);
        proof {
            lemma_text_lt_skip(a@, b@, i as int);
        }
        i = i + 1;
    }
    a.len() < b.len()
}

/// A single relative path component: not empty, no separator or drive colon,
/// not `.` or `..`.
pub open spec fn plain_component(rel: Seq<char>) -> bool {
    &&& rel.len() > 0
    &&& forall|i: int| 0 <= i < rel.len() ==> rel[i] != '/' && rel[i] != '\\' && rel[i] != ':'
    &&& rel != "."@
    &&& rel != ".."@
}

/// Whether `s` ends with `t`.
pub open spec fn ends_with(s: Seq<char>, t: Seq<char>) -> bool {
    s.len() >= t.len() && s.subrange(s.len() - t.len(), s.len() as int) == t
}

/// Whether `c` separates path components (`/`, or `\\` as on Windows).
pub open spec fn path_sep(c: char) -> bool {
    c == '/' || c == '\\'
}

/// Whether a `.` or `..` component starts at position `i` of `s`.
pub open spec fn dot_component_at(s: Seq<char>, i: int) -> bool {
    &&& 0 <= i < s.len()
    &&& (i == 0 || path_sep(s[i - 1]))
    &&& s[i] == '.'
    &&& (i + 1 == s.len() || path_sep(s[i + 1]) || (s[i + 1] == '.' && (i + 2 == s.len() || path_sep(
        s[i + 2],
    ))))
}

/// Whether a configured directory is a path that stays inside the directory it is
/// joined to: not empty, no leading separator (root), no `:` (drive or prefix), and no
/// `.` or `..` component.
pub open spec fn contained_relative(s: Seq<char>) -> bool {
    &&& s.len() > 0
    &&& !path_sep(s[0])
    &&& forall|i: int| 0 <= i < s.len() ==> s[i] != ':'
    &&& forall|i: int| !dot_component_at(s, i)
}

/// Whether `s` begins with the Windows verbatim prefix `\\?\`.
pub open spec fn verbatim_prefix(s: Seq<char>) -> bool {
    s.len() >= 4 && s[0] == '\\' && s[1] == '\\' && s[2] == '?' && s[3] == '\\'
}

/// What `Path::join` gives for a base path and a path joined onto it (as text, on the
/// platform the library runs on).
pub uninterp spec fn path_join(base: Seq<char>, rel: Seq<char>) -> Seq<char>;

/// Calls `Path::join` (on text): the result is named `path_join` of the two.
/// `PathBuf::push` appends a relative path that has no root and no prefix to the base
/// (after a separator where one is needed), so the result begins with the base and,
/// for a single plain component, ends with that component. The one exception is a
/// Windows verbatim base (`\\?\...`), which `push` rebuilds from its components, so
/// no prefix is claimed there; how the separator is written is left to the name.
#[verifier::external_body]
pub(crate) fn join_path(base: &str, rel: &str) -> (r: String)
    ensures
        r@ == path_join(base@, rel@),
        plain_component(rel@) ==> ends_with(r@, rel@),
        contained_relative(rel@) && !verbatim_prefix(base@) ==> r@.len() > base@.len() && r@.subrange(
            0,
            base@.len() as int,
        ) == base@,
{
    std::path::Path::new(base).join(rel).to_string_lossy().into_owned()
}

} // verus!
