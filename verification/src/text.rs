//! Character-level text model shared by the message and session logic.
//!
//! A `&str` or `String` is viewed as its sequence of `char`s (`s@`).  The
//! operations the plugin needs (whitespace trimming, locating a line break or
//! a code fence) are defined here as spec functions over `Seq<char>` and
//! implemented over a `Vec<char>` copy of the text, with index ranges
//! `[from, to)` standing for sub-slices.
use vstd::prelude::*;
use vstd::string::*;

verus! {

broadcast use vstd::string::group_string_axioms;

/// The characters of an optional text.
pub open spec fn opt_text(o: Option<String>) -> Option<Seq<char>> {
    match o {
        Some(s) => Some(s@),
        None => None,
    }
}

/// The characters of a text or of its error.
pub open spec fn text_result(r: Result<String, String>) -> Result<Seq<char>, Seq<char>> {
    match r {
        Ok(s) => Ok(s@),
        Err(e) => Err(e@),
    }
}

/// The characters of an error, if any.
pub open spec fn unit_result(r: Result<(), String>) -> Result<(), Seq<char>> {
    match r {
        Ok(()) => Ok(()),
        Err(e) => Err(e@),
    }
}

/// The Unicode `White_Space` property, which is what `char::is_whitespace`
/// (and therefore `str::trim`) tests.
pub open spec fn is_ws(c: char) -> bool {
    let u = c as u32;
    ||| 0x09 <= u <= 0x0d
    ||| u == 0x20
    ||| u == 0x85
    ||| u == 0xa0
    ||| u == 0x1680
    ||| 0x2000 <= u <= 0x200a
    ||| u == 0x2028
    ||| u == 0x2029
    ||| u == 0x202f
    ||| u == 0x205f
    ||| u == 0x3000
}

/// `s` with its leading whitespace removed.
pub open spec fn trim_start(s: Seq<char>) -> Seq<char>
    decreases s.len(),
{
    if s.len() > 0 && is_ws(s[0]) {
        trim_start(s.drop_first())
    } else {
        s
    }
}

/// `s` with its trailing whitespace removed.
pub open spec fn trim_end(s: Seq<char>) -> Seq<char>
    decreases s.len(),
{
    if s.len() > 0 && is_ws(s.last()) {
        trim_end(s.drop_last())
    } else {
        s
    }
}

/// `s` with whitespace removed from both ends.
pub open spec fn trim(s: Seq<char>) -> Seq<char> {
    trim_end(trim_start(s))
}

/// Whether `s` is empty or made of whitespace only.
pub open spec fn is_blank(s: Seq<char>) -> bool {
    trim(s).len() == 0
}

/// Neither end of `s` is whitespace.
pub open spec fn is_trimmed(s: Seq<char>) -> bool {
    s.len() > 0 ==> !is_ws(s[0]) && !is_ws(s.last())
}

/// A code fence (three backticks) starts at index `k` of `s`.
pub open spec fn fence_at(s: Seq<char>, k: int) -> bool {
    &&& 0 <= k
    &&& k + 3 <= s.len()
    &&& s[k] == '`'
    &&& s[k + 1] == '`'
    &&& s[k + 2] == '`'
}

/// `s` contains a code fence.
pub open spec fn has_fence(s: Seq<char>) -> bool {
    exists|k: int| fence_at(s, k)
}

/// `k` is where the last code fence of `s` starts.
pub open spec fn is_last_fence(s: Seq<char>, k: int) -> bool {
    fence_at(s, k) && forall|j: int| k < j ==> !fence_at(s, j)
}

/// The part of `s` before its last code fence, or `s` when it has none.
pub open spec fn before_last_fence(s: Seq<char>) -> Seq<char> {
    if has_fence(s) {
        s.subrange(0, choose|k: int| is_last_fence(s, k))
    } else {
        s
    }
}

/// `k` is the index of the first line break of `s`.
pub open spec fn is_first_newline(s: Seq<char>, k: int) -> bool {
    &&& 0 <= k < s.len()
    &&& s[k] == '\n'
    &&& forall|j: int| 0 <= j < k ==> s[j] != '\n'
}

/// The part of `s` after its first line break, or `s` when it has none.
pub open spec fn after_first_newline(s: Seq<char>) -> Seq<char> {
    if s.contains('\n') {
        s.subrange((choose|k: int| is_first_newline(s, k)) + 1, s.len() as int)
    } else {
        s
    }
}

pub proof fn lemma_first_newline_unique(s: Seq<char>, k: int)
    requires
        is_first_newline(s, k),
    ensures
        s.contains('\n'),
        after_first_newline(s) == s.subrange(k + 1, s.len() as int),
{
    assert(s[k] == '\n');
    let c = choose|c: int| is_first_newline(s, c);
    assert(is_first_newline(s, c));
    if c < k {
        assert(s[c] != '\n');
    }
    if k < c {
        assert(s[k] != '\n');
    }
}

pub proof fn lemma_last_fence_unique(s: Seq<char>, k: int)
    requires
        is_last_fence(s, k),
    ensures
        has_fence(s),
        before_last_fence(s) == s.subrange(0, k),
{
    let c = choose|c: int| is_last_fence(s, c);
    assert(is_last_fence(s, c));
}

/// A text with a line break has a first line break.
pub proof fn lemma_first_newline_exists(s: Seq<char>, j: int)
    requires
        0 <= j < s.len(),
        s[j] == '\n',
    ensures
        exists|k: int| is_first_newline(s, k),
    decreases j,
{
    if exists|i: int| 0 <= i < j && s[i] == '\n' {
        let i = choose|i: int| 0 <= i < j && s[i] == '\n';
        lemma_first_newline_exists(s, i);
    } else {
        assert(is_first_newline(s, j));
    }
}

/// A text with a code fence has a last code fence.
pub proof fn lemma_last_fence_exists(s: Seq<char>, j: int)
    requires
        fence_at(s, j),
    ensures
        exists|k: int| is_last_fence(s, k),
    decreases s.len() - j,
{
    if exists|i: int| j < i && fence_at(s, i) {
        let i = choose|i: int| j < i && fence_at(s, i);
        lemma_last_fence_exists(s, i);
    } else {
        assert(is_last_fence(s, j));
    }
}

/// Taking the part after the first line break, or before the last fence,
/// keeps a slice of the text.
pub proof fn lemma_after_first_newline_slice(s: Seq<char>) -> (k: int)
    ensures
        0 <= k <= s.len(),
        after_first_newline(s) == s.subrange(k, s.len() as int),
{
    if s.contains('\n') {
        let j = choose|j: int| 0 <= j < s.len() && s[j] == '\n';
        lemma_first_newline_exists(s, j);
        let c = choose|c: int| is_first_newline(s, c);
        c + 1
    } else {
        assert(s.subrange(0, s.len() as int) =~= s);
        0
    }
}

pub proof fn lemma_before_last_fence_slice(s: Seq<char>) -> (k: int)
    ensures
        0 <= k <= s.len(),
        before_last_fence(s) == s.subrange(0, k),
{
    if has_fence(s) {
        let j = choose|j: int| fence_at(s, j);
        lemma_last_fence_exists(s, j);
        let c = choose|c: int| is_last_fence(s, c);
        c
    } else {
        assert(s.subrange(0, s.len() as int) =~= s);
        s.len() as int
    }
}

/// Whitespace only at the ends: dropping a whitespace first char does not
/// change the start-trimmed text.
pub proof fn lemma_trim_start_skip(s: Seq<char>, from: int, to: int)
    requires
        0 <= from < to <= s.len(),
        is_ws(s[from]),
    ensures
        trim_start(s.subrange(from, to)) == trim_start(s.subrange(from + 1, to)),
{
    assert(s.subrange(from, to).drop_first() =~= s.subrange(from + 1, to));
}

pub proof fn lemma_trim_end_skip(s: Seq<char>, from: int, to: int)
    requires
        0 <= from < to <= s.len(),
        is_ws(s[to - 1]),
    ensures
        trim_end(s.subrange(from, to)) == trim_end(s.subrange(from, to - 1)),
{
    assert(s.subrange(from, to).drop_last() =~= s.subrange(from, to - 1));
}

/// A text whose ends are not whitespace is its own trim.
pub proof fn lemma_trimmed_fixed(s: Seq<char>)
    requires
        is_trimmed(s),
    ensures
        trim_start(s) == s,
        trim_end(s) == s,
        trim(s) == s,
{
}

/// The start-trim of a text drops a run of leading whitespace.
pub proof fn lemma_trim_start_shape(s: Seq<char>) -> (i: int)
    ensures
        0 <= i <= s.len(),
        trim_start(s) == s.subrange(i, s.len() as int),
        forall|k: int| 0 <= k < i ==> is_ws(#[trigger] s[k]),
        i < s.len() ==> !is_ws(s[i]),
    decreases s.len(),
{
    if s.len() > 0 && is_ws(s[0]) {
        let i0 = lemma_trim_start_shape(s.drop_first());
        assert(s.drop_first().subrange(i0, s.len() - 1) =~= s.subrange(i0 + 1, s.len() as int));
        assert forall|k: int| 0 <= k < i0 + 1 implies is_ws(#[trigger] s[k]) by {
            if k > 0 {
                assert(s[k] == s.drop_first()[k - 1]);
            }
        }
        i0 + 1
    } else {
        assert(s.subrange(0, s.len() as int) =~= s);
        0
    }
}

/// The end-trim of a text drops a run of trailing whitespace.
pub proof fn lemma_trim_end_shape(s: Seq<char>) -> (j: int)
    ensures
        0 <= j <= s.len(),
        trim_end(s) == s.subrange(0, j),
        forall|k: int| j <= k < s.len() ==> is_ws(#[trigger] s[k]),
        j > 0 ==> !is_ws(s[j - 1]),
    decreases s.len(),
{
    if s.len() > 0 && is_ws(s.last()) {
        let j0 = lemma_trim_end_shape(s.drop_last());
        assert(s.drop_last().subrange(0, j0) =~= s.subrange(0, j0));
        assert forall|k: int| j0 <= k < s.len() implies is_ws(#[trigger] s[k]) by {
            if k < s.len() - 1 {
                assert(s[k] == s.drop_last()[k]);
            }
        }
        j0
    } else {
        assert(s.subrange(0, s.len() as int) =~= s);
        s.len() as int
    }
}

/// The trim of a text is a slice of it whose ends are not whitespace, and
/// everything outside that slice is whitespace.
pub proof fn lemma_trim_shape(s: Seq<char>) -> (r: (int, int))
    ensures
        0 <= r.0 <= r.1 <= s.len(),
        trim(s) == s.subrange(r.0, r.1),
        is_trimmed(trim(s)),
        forall|k: int| 0 <= k < r.0 ==> is_ws(#[trigger] s[k]),
        forall|k: int| r.1 <= k < s.len() ==> is_ws(#[trigger] s[k]),
{
    let i = lemma_trim_start_shape(s);
    let t = s.subrange(i, s.len() as int);
    let j = lemma_trim_end_shape(t);
    assert(t.subrange(0, j) =~= s.subrange(i, i + j));
    assert forall|k: int| i + j <= k < s.len() implies is_ws(#[trigger] s[k]) by {
        assert(s[k] == t[k - i]);
    }
    if j > 0 {
        assert(t[0] == s[i]);
        assert(t[j - 1] == s[i + j - 1]);
    }
    (i, i + j)
}

/// Trimming twice is trimming once.
pub proof fn lemma_trim_idempotent(s: Seq<char>)
    ensures
        trim(trim(s)) == trim(s),
{
    lemma_trim_shape(s);
    lemma_trimmed_fixed(trim(s));
}

/// The UTF-8 encoding of a concatenation is the concatenation of encodings.
pub proof fn lemma_encode_utf8_concat(a: Seq<char>, b: Seq<char>)
    ensures
        vstd::utf8::encode_utf8(a + b) == vstd::utf8::encode_utf8(a) + vstd::utf8::encode_utf8(b),
    decreases a.len(),
{
    if a.len() == 0 {
        assert(a + b =~= b);
    } else {
        lemma_encode_utf8_concat(a.drop_first(), b);
        assert((a + b).drop_first() =~= a.drop_first() + b);
        assert((a + b)[0] == a[0]);
    }
}

/// `c` is a Unicode whitespace character.
pub fn is_whitespace(c: char) -> (b: bool)
    ensures
        b == is_ws(c),
{
    let u = c as u32;
    (0x09 <= u && u <= 0x0d) || u == 0x20 || u == 0x85 || u == 0xa0 || u == 0x1680 || (0x2000
        <= u && u <= 0x200a) || u == 0x2028 || u == 0x2029 || u == 0x202f || u == 0x205f || u
        == 0x3000
}

/// The characters of `s`, in order.
pub fn chars_of(s: &str) -> (v: Vec<char>)
    ensures
        v@ == s@,
{
    let mut v: Vec<char> = Vec::new();
    for c in it: s.chars()
        invariant
            v@ == it.seq().take(it.index() as int),
    {
        v.push(c);
    }
    v
}

/// A new `String` holding the characters `from..to` of `s`.
pub fn slice_chars(s: &str, from: usize, to: usize) -> (r: String)
    requires
        from <= to <= s@.len(),
    ensures
        r@ == s@.subrange(from as int, to as int),
{
    s.substring_char(from, to).to_owned()
}

/// The bounds `[a, b)` of the trim of `v[from..to]`.
pub fn trim_range(v: &Vec<char>, from: usize, to: usize) -> (r: (usize, usize))
    requires
        from <= to <= v@.len(),
    ensures
        from <= r.0 <= r.1 <= to,
        v@.subrange(r.0 as int, r.1 as int) == trim(v@.subrange(from as int, to as int)),
{
    let ghost s = v@;
    let mut i: usize = from;
    while i < to && is_whitespace(v[i])
        invariant
            from <= i <= to <= v@.len(),
            s == v@,
            trim_start(s.subrange(from as int, to as int)) == trim_start(
                s.subrange(i as int, to as int),
            ),
        decreases to - i,
    {
        proof {
            lemma_trim_start_skip(s, i as int, to as int);
        }
        i = i + 1;
    }
    assert(trim_start(s.subrange(i as int, to as int)) == s.subrange(i as int, to as int));
    let mut j: usize = to;
    while j > i && is_whitespace(v[j - 1])
        invariant
            from <= i <= j <= to <= v@.len(),
            s == v@,
            trim_end(s.subrange(i as int, to as int)) == trim_end(s.subrange(i as int, j as int)),
        decreases j,
    {
        proof {
            lemma_trim_end_skip(s, i as int, j as int);
        }
        j = j - 1;
    }
    assert(trim_end(s.subrange(i as int, j as int)) == s.subrange(i as int, j as int));
    (i, j)
}

/// Whether a code fence starts at index `k` of `v[from..to]`.
pub fn fence_at_in(v: &Vec<char>, from: usize, to: usize, k: usize) -> (b: bool)
    requires
        from <= to <= v@.len(),
    ensures
        b == fence_at(v@.subrange(from as int, to as int), k as int),
{
    if k <= to - from && 3 <= to - from - k {
        v[from + k] == '`' && v[from + k + 1] == '`' && v[from + k + 2] == '`'
    } else {
        false
    }
}

/// The index in `v` of the first line break of `v[from..to]`, if any.
pub fn find_newline(v: &Vec<char>, from: usize, to: usize) -> (r: Option<usize>)
    requires
        from <= to <= v@.len(),
    ensures
        match r {
            Some(k) => from <= k < to && is_first_newline(
                v@.subrange(from as int, to as int),
                k - from,
            ),
            None => !v@.subrange(from as int, to as int).contains('\n'),
        },
{
    let ghost s = v@.subrange(from as int, to as int);
    let mut i: usize = from;
    while i < to
        invariant
            from <= i <= to <= v@.len(),
            s == v@.subrange(from as int, to as int),
            forall|j: int| 0 <= j < i - from ==> s[j] != '\n',
        decreases to - i,
    {
        if v[i] == '\n' {
            assert(s[i - from] == '\n');
            return Some(i);
        }
        i = i + 1;
    }
    assert(!s.contains('\n')) by {
        if s.contains('\n') {
            let j = choose|j: int| 0 <= j < s.len() && s[j] == '\n';
            assert(s[j] != '\n');
        }
    }
    None
}

/// The index in `v` where the last code fence of `v[from..to]` starts, if any.
pub fn rfind_fence(v: &Vec<char>, from: usize, to: usize) -> (r: Option<usize>)
    requires
        from <= to <= v@.len(),
    ensures
        match r {
            Some(k) => from <= k <= to && is_last_fence(
                v@.subrange(from as int, to as int),
                k - from,
            ),
            None => !has_fence(v@.subrange(from as int, to as int)),
        },
{
    let ghost s = v@.subrange(from as int, to as int);
    let len: usize = to - from;
    let mut k: usize = len;
    while k > 0
        invariant
            k <= len,
            len == to - from,
            from <= to <= v@.len(),
            s == v@.subrange(from as int, to as int),
            forall|j: int| k <= j ==> !fence_at(s, j),
        decreases k,
    {
        k = k - 1;
        if fence_at_in(v, from, to, k) {
            return Some(from + k);
        }
    }
    assert(!has_fence(s)) by {
        if has_fence(s) {
            let j = choose|j: int| fence_at(s, j);
            assert(!fence_at(s, j));
        }
    }
    None
}

/// Whether `v[from..to]` contains a code fence.
pub fn has_fence_in(v: &Vec<char>, from: usize, to: usize) -> (b: bool)
    requires
        from <= to <= v@.len(),
    ensures
        b == has_fence(v@.subrange(from as int, to as int)),
{
    match rfind_fence(v, from, to) {
        Some(k) => {
            assert(fence_at(v@.subrange(from as int, to as int), k - from));
            true
        },
        None => false,
    }
}

/// Whether `s` is empty or whitespace only.
pub fn is_blank_text(s: &str) -> (b: bool)
    ensures
        b == is_blank(s@),
{
    let v = chars_of(s);
    let n = v.len();
    assert(v@.subrange(0, n as int) =~= v@);
    let (a, z) = trim_range(&v, 0, n);
    a == z
}

/// `s` with whitespace removed from both ends, as a new `String`.
pub fn trimmed(s: &str) -> (r: String)
    ensures
        r@ == trim(s@),
{
    let v = chars_of(s);
    let n = v.len();
    assert(v@.subrange(0, n as int) =~= v@);
    let (a, z) = trim_range(&v, 0, n);
    slice_chars(s, a, z)
}

/// `s` without trailing whitespace, as a new `String`.
pub fn trimmed_end(s: &str) -> (r: String)
    ensures
        r@ == trim_end(s@),
{
    let v = chars_of(s);
    let n = v.len();
    let ghost c = v@;
    let mut j: usize = n;
    assert(c.subrange(0, n as int) =~= c);
    while j > 0 && is_whitespace(v[j - 1])
        invariant
            j <= n,
            n == c.len(),
            c == v@,
            trim_end(c) == trim_end(c.subrange(0, j as int)),
        decreases j,
    {
        proof {
            lemma_trim_end_skip(c, 0, j as int);
        }
        j = j - 1;
    }
    assert(trim_end(c.subrange(0, j as int)) == c.subrange(0, j as int));
    slice_chars(s, 0, j)
}

/// Whether `a` and `b` hold the same characters.
pub fn same_text(a: &String, b: &str) -> (r: bool)
    ensures
        r == (a@ == b@),
{
    let owned = b.to_owned();
    *a == owned
}

/// What `str::to_lowercase` returns for a text (Unicode lowercase mapping);
/// a function of the text alone.
pub uninterp spec fn lowercase(s: Seq<char>) -> Seq<char>;

/// Calls `str::to_lowercase`. Its contract claims only that the result is
/// the fixed function `lowercase` of the argument's characters; the mapping
/// itself (Unicode case tables) is not stated.
#[verifier::external_body]
pub(crate) fn to_lowercase(s: &str) -> (r: String)
    ensures
        r@ == lowercase(s@),
{
    s.to_lowercase()
}

/// What `{:?}` (the `Debug` impl of `str`) writes for a text: the text in
/// double quotes with escapes; a function of the text alone.
pub uninterp spec fn debug_quoted(s: Seq<char>) -> Seq<char>;

/// Formats a text with `{:?}` (`<str as Debug>::fmt`). Its contract claims
/// only that the result is the fixed function `debug_quoted` of the
/// argument's characters; the escaping rules are not stated.
#[verifier::external_body]
pub(crate) fn quote_debug(s: &str) -> (r: String)
    ensures
        r@ == debug_quoted(s@),
{
    format!("{:?}", s)
}

} // verus!
