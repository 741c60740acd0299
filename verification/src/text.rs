//! Characters and character sequences: the alphabet of user names, Unicode
//! white space, runs of one class of characters, trimming, and substring
//! search.

use vstd::prelude::*;
use vstd::std_specs::iter::IteratorSpec;
use vstd::string::StrSliceExecFns;

verus! {

/// A character that may occur in a user name: an ASCII letter, an ASCII
/// digit or an underscore.
pub open spec fn is_name_char(c: char) -> bool {
    ('a' <= c && c <= 'z') || ('A' <= c && c <= 'Z') || ('0' <= c && c <= '9') || c == '_'
}

/// A user name: between 2 and 16 name characters.
pub open spec fn is_name(s: Seq<char>) -> bool {
    &&& 2 <= s.len() <= 16
    &&& forall|i: int| 0 <= i < s.len() ==> is_name_char(#[trigger] s[i])
}

/// A character that Unicode classes as `White_Space`.
pub open spec fn is_whitespace(c: char) -> bool {
    ||| ('\u{9}' <= c && c <= '\u{d}')
    ||| c == ' '
    ||| c == '\u{85}'
    ||| c == '\u{a0}'
    ||| c == '\u{1680}'
    ||| ('\u{2000}' <= c && c <= '\u{200a}')
    ||| c == '\u{2028}'
    ||| c == '\u{2029}'
    ||| c == '\u{202f}'
    ||| c == '\u{205f}'
    ||| c == '\u{3000}'
}

/// The classes of characters that the grammars scan for.
#[derive(Clone, Copy, Debug)]
pub enum CharClass {
    /// Characters of user names.
    Name,
    /// White space.
    Space,
    /// Everything but white space.
    Word,
    /// Everything but a comma.
    Entry,
}

impl CharClass {
    /// Whether `c` belongs to the class.
    pub open spec fn holds(self, c: char) -> bool {
        match self {
            CharClass::Name => is_name_char(c),
            CharClass::Space => is_whitespace(c),
            CharClass::Word => !is_whitespace(c),
            CharClass::Entry => c != ',',
        }
    }

    /// Tells whether `c` belongs to the class.
    pub fn test(&self, c: char) -> (r: bool)
        ensures
            r == self.holds(c),
    {
        match self {
            CharClass::Name => name_char(c),
            CharClass::Space => whitespace(c),
            CharClass::Word => !whitespace(c),
            CharClass::Entry => c != ',',
        }
    }
}

/// Where the longest run of characters of `class` that starts at `i` ends:
/// the first index from `i` on whose character is outside the class, or the
/// length of `s`.
pub open spec fn run_end(s: Seq<char>, i: int, class: CharClass) -> int
    decreases s.len() - i,
{
    if 0 <= i < s.len() && class.holds(s[i]) {
        run_end(s, i + 1, class)
    } else {
        i
    }
}

/// Where the white space that ends `s` begins, looking no further left than
/// `lo`.
pub open spec fn space_start(s: Seq<char>, lo: int, j: int) -> int
    decreases j,
{
    if lo < j <= s.len() && 0 < j && is_whitespace(s[j - 1]) {
        space_start(s, lo, j - 1)
    } else {
        j
    }
}

/// `s` without the white space at its two ends.
pub open spec fn trim(s: Seq<char>) -> Seq<char> {
    let a = run_end(s, 0, CharClass::Space);
    let b = space_start(s, a, s.len() as int);
    s.subrange(a, b)
}

/// `s` neither begins nor ends with white space.
pub open spec fn is_trimmed(s: Seq<char>) -> bool {
    s.len() > 0 ==> !is_whitespace(s[0]) && !is_whitespace(s[s.len() - 1])
}

/// `needle` stands in `hay` at index `i`.
pub open spec fn occurs_at(hay: Seq<char>, needle: Seq<char>, i: int) -> bool {
    &&& 0 <= i
    &&& i + needle.len() <= hay.len()
    &&& hay.subrange(i, i + needle.len()) == needle
}

/// `needle` stands somewhere in `hay`.
pub open spec fn contains(hay: Seq<char>, needle: Seq<char>) -> bool {
    exists|i: int| occurs_at(hay, needle, i)
}

/// `needle` stands in `hay` at index `i` and nowhere before.
pub open spec fn is_first_occurrence(hay: Seq<char>, needle: Seq<char>, i: int) -> bool {
    &&& occurs_at(hay, needle, i)
    &&& forall|j: int| 0 <= j < i ==> !occurs_at(hay, needle, j)
}

/// The index of the first occurrence of `needle` in `hay`, where there is
/// one.
pub open spec fn first_occurrence(hay: Seq<char>, needle: Seq<char>) -> int {
    choose|i: int| is_first_occurrence(hay, needle, i)
}

/// The strings of `list`, each as a sequence of characters.
pub open spec fn texts(list: Seq<String>) -> Seq<Seq<char>> {
    list.map_values(|s: String| s@)
}

/// A run ends inside the sequence, every character of it is of the class,
/// and the character that follows it, if any, is not.
pub proof fn lemma_run_end(s: Seq<char>, i: int, class: CharClass)
    requires
        0 <= i <= s.len(),
    ensures
        i <= run_end(s, i, class) <= s.len(),
        forall|k: int| i <= k < run_end(s, i, class) ==> class.holds(#[trigger] s[k]),
        run_end(s, i, class) < s.len() ==> !class.holds(s[run_end(s, i, class)]),
    decreases s.len() - i,
{
    if i < s.len() && class.holds(s[i]) {
        lemma_run_end(s, i + 1, class);
    }
}

/// The end of a run is the only index of which `lemma_run_end` holds.
pub proof fn lemma_run_end_unique(s: Seq<char>, i: int, class: CharClass, e: int)
    requires
        0 <= i <= e <= s.len(),
        forall|k: int| i <= k < e ==> class.holds(#[trigger] s[k]),
        e < s.len() ==> !class.holds(s[e]),
    ensures
        run_end(s, i, class) == e,
    decreases e - i,
{
    if i < e {
        lemma_run_end_unique(s, i + 1, class, e);
    }
}

/// The trailing white space begins between `lo` and `j`, everything from
/// there to `j` is white space, and the character before it, if it lies
/// right of `lo`, is not.
pub proof fn lemma_space_start(s: Seq<char>, lo: int, j: int)
    requires
        0 <= lo <= j <= s.len(),
    ensures
        lo <= space_start(s, lo, j) <= j,
        forall|k: int| space_start(s, lo, j) <= k < j ==> is_whitespace(#[trigger] s[k]),
        lo < space_start(s, lo, j) ==> !is_whitespace(s[space_start(s, lo, j) - 1]),
    decreases j,
{
    if lo < j && is_whitespace(s[j - 1]) {
        lemma_space_start(s, lo, j - 1);
    }
}

/// What `trim` returns neither begins nor ends with white space, and what
/// it leaves out at either end is white space only.
pub proof fn lemma_trim_bounds(s: Seq<char>)
    ensures
        is_trimmed(trim(s)),
        ({
            let a = run_end(s, 0, CharClass::Space);
            let b = space_start(s, a, s.len() as int);
            &&& 0 <= a <= b <= s.len()
            &&& forall|k: int| 0 <= k < a ==> is_whitespace(#[trigger] s[k])
            &&& forall|k: int| b <= k < s.len() ==> is_whitespace(#[trigger] s[k])
        }),
{
    let a = run_end(s, 0, CharClass::Space);
    lemma_run_end(s, 0, CharClass::Space);
    lemma_space_start(s, a, s.len() as int);
}

/// Trimming changes nothing where there is nothing to trim.
pub proof fn lemma_trim_of_trimmed(s: Seq<char>)
    requires
        is_trimmed(s),
    ensures
        trim(s) == s,
{
    lemma_run_end_unique(s, 0, CharClass::Space, 0);
    assert(trim(s) =~= s);
}

/// An index at which `needle` first occurs is the first occurrence.
pub proof fn lemma_first_occurrence(hay: Seq<char>, needle: Seq<char>, i: int)
    requires
        is_first_occurrence(hay, needle, i),
    ensures
        contains(hay, needle),
        first_occurrence(hay, needle) == i,
{
    let j = first_occurrence(hay, needle);
    assert(is_first_occurrence(hay, needle, j));
    if j < i {
        assert(!occurs_at(hay, needle, j));
    }
    if i < j {
        assert(!occurs_at(hay, needle, i));
    }
}

/// Tells whether `c` may occur in a user name.
pub fn name_char(c: char) -> (r: bool)
    ensures
        r == is_name_char(c),
{
    (c >= 'a' && c <= 'z') || (c >= 'A' && c <= 'Z') || (c >= '0' && c <= '9') || c == '_'
}

/// Tells whether `c` is white space.
pub fn whitespace(c: char) -> (r: bool)
    ensures
        r == is_whitespace(c),
{
    (c >= '\u{9}' && c <= '\u{d}')
        || c == ' '
        || c == '\u{85}'
        || c == '\u{a0}'
        || c == '\u{1680}'
        || (c >= '\u{2000}' && c <= '\u{200a}')
        || c == '\u{2028}'
        || c == '\u{2029}'
        || c == '\u{202f}'
        || c == '\u{205f}'
        || c == '\u{3000}'
}

/// The characters of `s`, in order.
pub fn to_chars(s: &str) -> (v: Vec<char>)
    ensures
        v@ == s@,
{
    let mut v: Vec<char> = Vec::new();
    let mut it = s.chars();
    loop
        invariant
            v@ + it.remaining() == s@,
            it.decrease() is Some,
        ensures
            v@ == s@,
        decreases it.decrease()->0,
    {
        match it.next() {
            Some(c) => {
                v.push(c);
            },
            None => {
                break ;
            },
        }
    }
    v
}

/// The end of the run of characters of `class` that starts at `i`. From an
/// index beyond the end of `s` no run starts, and the index itself comes
/// back.
pub fn scan(s: &[char], i: usize, class: CharClass) -> (e: usize)
    ensures
        e == run_end(s@, i as int, class),
        i <= e,
        i <= s@.len() ==> e <= s@.len(),
{
    let mut e: usize = i;
    while e < s.len() && class.test(s[e])
        invariant
            i <= e,
            i <= s@.len() ==> e <= s@.len(),
            run_end(s@, i as int, class) == run_end(s@, e as int, class),
        decreases s@.len() - e,
    {
        e = e + 1;
    }
    e
}

/// Where the white space that ends the first `j` characters of `s` begins,
/// looking no further left than `lo`. Where `s` has fewer than `j`
/// characters, `j` itself comes back.
pub fn scan_back(s: &[char], lo: usize, j: usize) -> (b: usize)
    ensures
        b == space_start(s@, lo as int, j as int),
        b <= j,
        lo <= j ==> lo <= b,
{
    if j > s.len() {
        return j;
    }
    let mut b: usize = j;
    while lo < b && whitespace(s[b - 1])
        invariant
            b <= j,
            lo <= j ==> lo <= b,
            j <= s@.len(),
            space_start(s@, lo as int, j as int) == space_start(s@, lo as int, b as int),
        decreases b,
    {
        b = b - 1;
    }
    b
}

/// Tells whether `needle` stands in `hay` at index `i`.
pub fn matches_at(hay: &[char], needle: &[char], i: usize) -> (r: bool)
    ensures
        r == occurs_at(hay@, needle@, i as int),
{
    let n: usize = needle.len();
    let m: usize = hay.len();
    if n > m || i > m - n {
        return false;
    }
    let mut k: usize = 0;
    while k < n
        invariant
            k <= n,
            n == needle@.len(),
            m == hay@.len(),
            i + n <= m,
            forall|j: int| 0 <= j < k ==> hay@[i + j] == needle@[j],
        decreases n - k,
    {
        if hay[i + k] != needle[k] {
            proof {
                let sub = hay@.subrange(i as int, i + n);
                assert(sub[k as int] == hay@[i + k]);
            }
            return false;
        }
        k = k + 1;
    }
    proof {
        assert(hay@.subrange(i as int, i + n) =~= needle@);
    }
    true
}

/// The index at which `needle` first occurs in `hay`, if it occurs.
pub fn find(hay: &[char], needle: &[char]) -> (r: Option<usize>)
    ensures
        match r {
            Some(i) => is_first_occurrence(hay@, needle@, i as int),
            None => !contains(hay@, needle@),
        },
{
    let n: usize = needle.len();
    if n > hay.len() {
        return None;
    }
    let last: usize = hay.len() - n;
    let mut i: usize = 0;
    loop
        invariant
            i <= last,
            last + n == hay@.len(),
            n == needle@.len(),
            forall|j: int| 0 <= j < i ==> !occurs_at(hay@, needle@, j),
        decreases last - i,
    {
        if matches_at(hay, needle, i) {
            return Some(i);
        }
        if i == last {
            return None;
        }
        i = i + 1;
    }
}

/// Tells whether `needle` stands somewhere in `hay`.
pub fn has(hay: &[char], needle: &[char]) -> (r: bool)
    ensures
        r == contains(hay@, needle@),
{
    find(hay, needle).is_some()
}

/// Tells whether `s` is a user name.
pub fn name(s: &[char]) -> (r: bool)
    ensures
        r == is_name(s@),
{
    let n: usize = s.len();
    if n < 2 || n > 16 {
        return false;
    }
    let e: usize = scan(s, 0, CharClass::Name);
    proof {
        lemma_run_end(s@, 0, CharClass::Name);
    }
    e == n
}

/// Tells whether `a` and `b` hold the same characters.
pub fn same(a: &str, b: &str) -> (r: bool)
    ensures
        r == (a@ == b@),
{
    let x = to_chars(a);
    let y = to_chars(b);
    proof {
        assert(x@.subrange(0, x@.len() as int) =~= x@);
    }
    x.len() == y.len() && matches_at(x.as_slice(), y.as_slice(), 0)
}

/// `s` without the white space at its two ends.
pub fn trimmed(s: &str) -> (r: &str)
    ensures
        r@ == trim(s@),
{
    let chars = to_chars(s);
    let a: usize = scan(chars.as_slice(), 0, CharClass::Space);
    let b: usize = scan_back(chars.as_slice(), a, chars.len());
    s.substring_char(a, b)
}

} // verus!
