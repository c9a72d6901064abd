//! Splitting a script into its configuration block and its program source.
//!
//! A script is text. Whitespace around it is ignored. It may start with a
//! shebang line, which is dropped together with the whitespace after it.
//! What follows may start with a frontmatter block: a first line `+++`, the
//! configuration text, and a closing line `+++`. The rest is the program
//! source.
//!
//! A delimiter line is a line that holds `+++` and nothing else. The block
//! closes with the first such line after the opening one, wherever the text
//! goes on or ends after it. Only `\n` ends a line here.

use vstd::prelude::*;
use vstd::string::StrSliceExecFns;

verus! {

/// Whether `char::is_whitespace` holds of `c`: whether the character has the
/// Unicode property White_Space.
pub uninterp spec fn is_whitespace(c: char) -> bool;

/// Calls `char::is_whitespace`.
///
/// Trusted: the answer depends on the character alone.
#[verifier::external_body]
fn is_space(c: char) -> (b: bool)
    ensures
        b == is_whitespace(c),
{
    c.is_whitespace()
}

/// `s` without its leading whitespace.
pub open spec fn trim_start(s: Seq<char>) -> Seq<char>
    decreases s.len(),
{
    if s.len() > 0 && is_whitespace(s.first()) {
        trim_start(s.drop_first())
    } else {
        s
    }
}

/// `s` without its trailing whitespace.
pub open spec fn trim_end(s: Seq<char>) -> Seq<char>
    decreases s.len(),
{
    if s.len() > 0 && is_whitespace(s.last()) {
        trim_end(s.drop_last())
    } else {
        s
    }
}

/// `s` without its leading and trailing whitespace.
pub open spec fn trim(s: Seq<char>) -> Seq<char> {
    trim_end(trim_start(s))
}

/// Whether `s` begins with `p`.
pub open spec fn starts_with(s: Seq<char>, p: Seq<char>) -> bool {
    p.len() <= s.len() && s.take(p.len() as int) =~= p
}

/// Whether `p` stands in `s` at position `k`.
pub open spec fn occurs_at(s: Seq<char>, p: Seq<char>, k: int) -> bool {
    0 <= k && k + p.len() <= s.len() && s.subrange(k, k + p.len()) =~= p
}

/// Whether `k` is the first position at which `p` stands in `s`.
pub open spec fn is_first_occurrence(s: Seq<char>, p: Seq<char>, k: int) -> bool {
    occurs_at(s, p, k) && forall|j: int| 0 <= j < k ==> !occurs_at(s, p, j)
}

/// The first position at which `p` stands in `s`, if there is one.
pub open spec fn first_occurrence(s: Seq<char>, p: Seq<char>) -> Option<int> {
    if exists|k: int| is_first_occurrence(s, p, k) {
        Some(choose|k: int| is_first_occurrence(s, p, k))
    } else {
        None
    }
}

/// The marker that opens a shebang line: `#!`.
pub open spec fn shebang() -> Seq<char> {
    seq!['#', '!']
}

/// A line break.
pub open spec fn newline() -> Seq<char> {
    seq!['\n']
}

/// Number of characters in a delimiter line.
pub const FENCE_LEN: usize = 3;

/// The text of a delimiter line: `+++`.
pub open spec fn fence() -> Seq<char> {
    seq!['+', '+', '+']
}

/// Whether a delimiter line starts at position `k` of `s`: whether `+++`
/// stands there, with the start of the text or a line break before it and
/// the end of the text or a line break after it.
pub open spec fn fence_line_at(s: Seq<char>, k: int) -> bool {
    &&& occurs_at(s, fence(), k)
    &&& (k == 0 || s[k - 1] == '\n')
    &&& (k + FENCE_LEN == s.len() || s[k + FENCE_LEN] == '\n')
}

/// Where the second line of a text begins that opens with a delimiter line.
pub open spec fn block_start() -> int {
    FENCE_LEN + 1
}

/// Whether the line that closes the block at the start of `s` starts at
/// position `k`: whether that is the first delimiter line after the opening
/// one.
pub open spec fn is_closing_line(s: Seq<char>, k: int) -> bool {
    &&& block_start() <= k
    &&& fence_line_at(s, k)
    &&& forall|j: int| block_start() <= j < k ==> !fence_line_at(s, j)
}

/// Where the line starts that closes the block at the start of `s`, if the
/// block is closed.
pub open spec fn closing_line(s: Seq<char>) -> Option<int> {
    if exists|k: int| is_closing_line(s, k) {
        Some(choose|k: int| is_closing_line(s, k))
    } else {
        None
    }
}

/// What is left of trimmed text `t` once a shebang line is dropped: if `t`
/// begins with `#!`, the trimmed text after its first line break, or nothing
/// where it has no line break; otherwise `t` itself.
pub open spec fn without_shebang(t: Seq<char>) -> Seq<char> {
    if starts_with(t, shebang()) {
        match first_occurrence(t, newline()) {
            Some(k) => trim(t.skip(k + 1)),
            None => Seq::empty(),
        }
    } else {
        t
    }
}

/// The two parts of a script, as text.
pub struct Parts {
    /// The configuration text between the frontmatter delimiters; empty where
    /// the script has no frontmatter.
    pub frontmatter: Seq<char>,
    /// The program source.
    pub body: Seq<char>,
}

/// Why a script could not be split.
#[derive(Clone, Copy, Debug, PartialEq, Eq, Structural)]
pub enum FrontmatterError {
    /// A frontmatter block is opened and the text ends before a closing
    /// line.
    Unclosed,
}

/// The parts of a script `u` whose surrounding whitespace and shebang line
/// are gone.
///
/// If `u` opens with a delimiter line, the frontmatter is what stands
/// between that line and the closing line, without the line breaks that end
/// the opening line and the last line of the block, and the body is what
/// follows the closing line and its line break; without a closing line the
/// script is rejected. If `u` does not open with a delimiter line, the
/// frontmatter is empty and the body is `u`.
pub open spec fn split_fenced(u: Seq<char>) -> Result<Parts, FrontmatterError> {
    if fence_line_at(u, 0) {
        match closing_line(u) {
            Some(k) => Ok(
                Parts {
                    frontmatter: if k == block_start() {
                        Seq::empty()
                    } else {
                        u.subrange(block_start(), k - 1)
                    },
                    body: if k + FENCE_LEN == u.len() {
                        Seq::empty()
                    } else {
                        u.skip(k + block_start())
                    },
                },
            ),
            None => Err(FrontmatterError::Unclosed),
        }
    } else {
        Ok(Parts { frontmatter: Seq::empty(), body: u })
    }
}

/// The parts of the script `source`: those of the trimmed source without its
/// shebang line.
pub open spec fn split(source: Seq<char>) -> Result<Parts, FrontmatterError> {
    split_fenced(without_shebang(trim(source)))
}

/// A script split into its configuration text and its program source.
#[derive(Clone, Debug, PartialEq, Eq)]
pub struct Script {
    /// The configuration text; empty where the script has no frontmatter.
    pub frontmatter: String,
    /// The program source.
    pub body: String,
}

impl View for Script {
    type V = Parts;

    open spec fn view(&self) -> Parts {
        Parts { frontmatter: self.frontmatter@, body: self.body@ }
    }
}

/// Leading whitespace can be dropped all at once.
proof fn lemma_trim_start_skip(s: Seq<char>, i: int)
    requires
        0 <= i <= s.len(),
        forall|k: int| 0 <= k < i ==> is_whitespace(#[trigger] s[k]),
        i < s.len() ==> !is_whitespace(s[i]),
    ensures
        trim_start(s) == s.skip(i),
    decreases i,
{
    if i == 0 {
        assert(s.skip(0) =~= s);
    } else {
        let rest = s.drop_first();
        assert forall|k: int| 0 <= k < i - 1 implies is_whitespace(#[trigger] rest[k]) by {
            assert(rest[k] == s[k + 1]);
        }
        lemma_trim_start_skip(rest, i - 1);
        assert(rest.skip(i - 1) =~= s.skip(i));
    }
}

/// Trailing whitespace can be dropped all at once.
proof fn lemma_trim_end_take(s: Seq<char>, j: int)
    requires
        0 <= j <= s.len(),
        forall|k: int| j <= k < s.len() ==> is_whitespace(#[trigger] s[k]),
        0 < j ==> !is_whitespace(s[j - 1]),
    ensures
        trim_end(s) == s.take(j),
    decreases s.len() - j,
{
    if j == s.len() {
        assert(s.take(j) =~= s);
    } else {
        let rest = s.drop_last();
        assert forall|k: int| j <= k < rest.len() implies is_whitespace(#[trigger] rest[k]) by {
            assert(rest[k] == s[k]);
        }
        lemma_trim_end_take(rest, j);
        assert(rest.take(j) =~= s.take(j));
    }
}

/// A first occurrence is the only one.
proof fn lemma_first_occurrence_is(s: Seq<char>, p: Seq<char>, k: int)
    requires
        is_first_occurrence(s, p, k),
    ensures
        first_occurrence(s, p) == Some(k),
{
    let c = choose|c: int| is_first_occurrence(s, p, c);
    if c < k {
        assert(!occurs_at(s, p, c));
    }
    if k < c {
        assert(!occurs_at(s, p, k));
    }
}

/// The bounds of the part of `v[lo..hi]` that is left after trimming.
fn trim_range(v: &Vec<char>, lo: usize, hi: usize) -> (r: (usize, usize))
    requires
        lo <= hi <= v.len(),
    ensures
        lo <= r.0 <= r.1 <= hi,
        v@.subrange(r.0 as int, r.1 as int) == trim(v@.subrange(lo as int, hi as int)),
{
    let ghost whole = v@.subrange(lo as int, hi as int);
    let mut a: usize = lo;
    while a < hi && is_space(v[a])
        invariant
            lo <= a <= hi <= v.len(),
            forall|k: int| lo <= k < a ==> is_whitespace(#[trigger] v@[k]),
        decreases hi - a,
    {
        a += 1;
    }
    let ghost front = v@.subrange(a as int, hi as int);
    proof {
        assert forall|k: int| 0 <= k < a - lo implies is_whitespace(#[trigger] whole[k]) by {
            assert(whole[k] == v@[lo + k]);
        }
        lemma_trim_start_skip(whole, a - lo);
        assert(whole.skip(a - lo) =~= front);
    }
    let mut b: usize = hi;
    while a < b && is_space(v[b - 1])
        invariant
            a <= b <= hi <= v.len(),
            forall|k: int| b <= k < hi ==> is_whitespace(#[trigger] v@[k]),
        decreases b,
    {
        b -= 1;
    }
    proof {
        assert forall|k: int| b - a <= k < front.len() implies is_whitespace(
            #[trigger] front[k],
        ) by {
            assert(front[k] == v@[a + k]);
        }
        if a < b {
            assert(front[b - a - 1] == v@[b - 1]);
        }
        if a == b && a < hi {
            // everything from `a` on is whitespace, so `a` cannot have stopped the first loop
            assert(is_whitespace(v@[a as int]));
        }
        lemma_trim_end_take(front, b - a);
        assert(front.take(b - a) =~= v@.subrange(a as int, b as int));
    }
    (a, b)
}

/// Whether `pat` stands in `v` at `at` and ends at or before `hi`.
fn matches_at(v: &Vec<char>, at: usize, hi: usize, pat: &Vec<char>) -> (b: bool)
    requires
        at <= hi <= v.len(),
    ensures
        b == (at + pat.len() <= hi && v@.subrange(at as int, at + pat.len()) =~= pat@),
{
    let m = pat.len();
    if m > hi - at {
        return false;
    }
    let mut i: usize = 0;
    while i < m
        invariant
            i <= m,
            m == pat.len(),
            at + m <= hi <= v.len(),
            forall|k: int| 0 <= k < i ==> v@[at + k] == pat@[k],
        decreases m - i,
    {
        if v[at + i] != pat[i] {
            proof {
                assert(v@.subrange(at as int, at + m)[i as int] == v@[at + i]);
            }
            return false;
        }
        i += 1;
    }
    true
}

/// The first position, counted from `lo`, at which `pat` stands in
/// `v[lo..hi]`.
fn find_in(v: &Vec<char>, lo: usize, hi: usize, pat: &Vec<char>) -> (r: Option<usize>)
    requires
        lo <= hi <= v.len(),
    ensures
        match r {
            Some(k) => lo + k + pat.len() <= hi && first_occurrence(
                v@.subrange(lo as int, hi as int),
                pat@,
            ) == Some(k as int),
            None => first_occurrence(v@.subrange(lo as int, hi as int), pat@) is None,
        },
{
    let ghost s = v@.subrange(lo as int, hi as int);
    let m = pat.len();
    if m > hi - lo {
        return None;
    }
    let last: usize = hi - lo - m;
    let mut k: usize = 0;
    while k <= last
        invariant
            lo <= hi <= v.len(),
            m == pat.len(),
            lo + m <= hi,
            last == hi - lo - m,
            k <= last + 1,
            s == v@.subrange(lo as int, hi as int),
            forall|j: int| 0 <= j < k ==> !occurs_at(s, pat@, j),
        decreases last + 1 - k,
    {
        let hit = matches_at(v, lo + k, hi, pat);
        proof {
            assert(s.subrange(k as int, k + m) =~= v@.subrange(lo + k, lo + k + m));
        }
        if hit {
            proof {
                assert(occurs_at(s, pat@, k as int));
                lemma_first_occurrence_is(s, pat@, k as int);
            }
            return Some(k);
        }
        k += 1;
    }
    None
}

/// Whether `v[lo..hi]` begins with `pat`.
fn begins_with(v: &Vec<char>, lo: usize, hi: usize, pat: &Vec<char>) -> (b: bool)
    requires
        lo <= hi <= v.len(),
    ensures
        b == starts_with(v@.subrange(lo as int, hi as int), pat@),
{
    let b = matches_at(v, lo, hi, pat);
    proof {
        let s = v@.subrange(lo as int, hi as int);
        if lo + pat.len() <= hi {
            assert(s.take(pat.len() as int) =~= v@.subrange(lo as int, lo + pat.len()));
        }
    }
    b
}

/// The bounds of what is left of the trimmed text `v[a..b]` once a shebang
/// line is dropped.
fn shebang_range(v: &Vec<char>, a: usize, b: usize) -> (r: (usize, usize))
    requires
        a <= b <= v.len(),
    ensures
        a <= r.0 <= r.1 <= b,
        v@.subrange(r.0 as int, r.1 as int) == without_shebang(v@.subrange(a as int, b as int)),
{
    let ghost t = v@.subrange(a as int, b as int);
    let hash_bang: Vec<char> = vec!['#', '!'];
    let line_break: Vec<char> = vec!['\n'];
    assert(hash_bang@ =~= shebang());
    assert(line_break@ =~= newline());
    if begins_with(v, a, b, &hash_bang) {
        match find_in(v, a, b, &line_break) {
            Some(k) => {
                proof {
                    assert(t.skip(k + 1) =~= v@.subrange(a + k + 1, b as int));
                }
                trim_range(v, a + k + 1, b)
            },
            None => {
                proof {
                    assert(v@.subrange(b as int, b as int) =~= Seq::<char>::empty());
                }
                (b, b)
            },
        }
    } else {
        (a, b)
    }
}

/// A closing line is the only one.
proof fn lemma_closing_line_is(s: Seq<char>, k: int)
    requires
        is_closing_line(s, k),
    ensures
        closing_line(s) == Some(k),
{
    let c = choose|c: int| is_closing_line(s, c);
    if c < k {
        assert(!fence_line_at(s, c));
    }
    if k < c {
        assert(!fence_line_at(s, k));
    }
}

/// Whether a delimiter line starts at position `k` of `v`.
fn is_fence_line(v: &Vec<char>, k: usize) -> (b: bool)
    requires
        k <= v.len(),
    ensures
        b == fence_line_at(v@, k as int),
{
    let n = v.len();
    if n - k < FENCE_LEN {
        return false;
    }
    proof {
        let found = v@.subrange(k as int, k + FENCE_LEN);
        assert(found[0] == v@[k as int]);
        assert(found[1] == v@[k + 1]);
        assert(found[2] == v@[k + 2]);
        if v@[k as int] == '+' && v@[k + 1] == '+' && v@[k + 2] == '+' {
            assert(found =~= fence());
        }
    }
    if v[k] != '+' || v[k + 1] != '+' || v[k + 2] != '+' {
        return false;
    }
    if k > 0 && v[k - 1] != '\n' {
        return false;
    }
    if n - k > FENCE_LEN && v[k + FENCE_LEN] != '\n' {
        return false;
    }
    true
}

/// Where the line starts that closes the block at the start of `v`.
fn find_closing_line(v: &Vec<char>) -> (r: Option<usize>)
    ensures
        match r {
            Some(k) => block_start() <= k && k + FENCE_LEN <= v.len() && closing_line(v@) == Some(
                k as int,
            ),
            None => closing_line(v@) is None,
        },
{
    let n = v.len();
    let start: usize = FENCE_LEN + 1;
    if n < start + FENCE_LEN {
        return None;
    }
    let mut k: usize = start;
    while k <= n - FENCE_LEN
        invariant
            n == v.len(),
            start == block_start(),
            start + FENCE_LEN <= n,
            start <= k <= n - FENCE_LEN + 1,
            forall|j: int| start <= j < k ==> !fence_line_at(v@, j),
        decreases n - k,
    {
        if is_fence_line(v, k) {
            proof {
                lemma_closing_line_is(v@, k as int);
            }
            return Some(k);
        }
        k += 1;
    }
    None
}

/// Splits text that has neither surrounding whitespace nor a shebang line
/// into its configuration text and its program source.
pub fn split_frontmatter(text: &str) -> (r: Result<Script, FrontmatterError>)
    ensures
        match r {
            Ok(script) => split_fenced(text@) == Ok::<Parts, FrontmatterError>(script@),
            Err(e) => split_fenced(text@) == Err::<Parts, FrontmatterError>(e),
        },
{
    let v = chars_of(text);
    let n = v.len();
    if !is_fence_line(&v, 0) {
        return Ok(Script { frontmatter: String::new(), body: text.to_owned() });
    }
    let start: usize = FENCE_LEN + 1;
    match find_closing_line(&v) {
        Some(k) => {
            let frontmatter = if k == start {
                String::new()
            } else {
                text.substring_char(start, k - 1).to_owned()
            };
            let body = if k + FENCE_LEN == n {
                String::new()
            } else {
                proof {
                    assert(text@.skip(k + start) =~= text@.subrange(k + start, n as int));
                }
                text.substring_char(k + start, n).to_owned()
            };
            Ok(Script { frontmatter, body })
        },
        None => Err(FrontmatterError::Unclosed),
    }
}

/// Splits a script into its configuration text and its program source.
pub fn split_script(source: &str) -> (r: Result<Script, FrontmatterError>)
    ensures
        match r {
            Ok(script) => split(source@) == Ok::<Parts, FrontmatterError>(script@),
            Err(e) => split(source@) == Err::<Parts, FrontmatterError>(e),
        },
{
    let v = chars_of(source);
    let n = v.len();
    assert(v@.subrange(0, n as int) =~= v@);
    let (a, b) = trim_range(&v, 0, n);
    let (c, d) = shebang_range(&v, a, b);
    split_frontmatter(source.substring_char(c, d))
}

/// The characters of a string, in order.
fn chars_of(text: &str) -> (chars: Vec<char>)
    ensures
        chars@ == text@,
{
    let mut chars: Vec<char> = Vec::new();
    for c in it: text.chars()
        invariant
            chars@ == it.seq().take(it.index() as int),
            it.seq() == text@,
    {
        chars.push(c);
    }
    chars
}

/// Whether `t` neither begins nor ends with whitespace.
pub open spec fn is_trimmed(t: Seq<char>) -> bool {
    t.len() > 0 ==> !is_whitespace(t.first()) && !is_whitespace(t.last())
}

/// What is left after trimming at the start does not begin with whitespace,
/// and ends as the text did.
proof fn lemma_trim_start_shape(s: Seq<char>)
    ensures
        trim_start(s).len() > 0 ==> !is_whitespace(trim_start(s).first()) && trim_start(s).last()
            == s.last(),
        trim_start(s).len() <= s.len(),
    decreases s.len(),
{
    if s.len() > 0 && is_whitespace(s.first()) {
        lemma_trim_start_shape(s.drop_first());
    }
}

/// What is left after trimming at the end does not end with whitespace, and
/// begins as the text did.
proof fn lemma_trim_end_shape(s: Seq<char>)
    ensures
        trim_end(s).len() > 0 ==> !is_whitespace(trim_end(s).last()) && trim_end(s).first()
            == s.first(),
        trim_end(s).len() <= s.len(),
    decreases s.len(),
{
    if s.len() > 0 && is_whitespace(s.last()) {
        lemma_trim_end_shape(s.drop_last());
    }
}

/// Trimmed text neither begins nor ends with whitespace.
pub proof fn lemma_trim_is_trimmed(s: Seq<char>)
    ensures
        is_trimmed(trim(s)),
{
    lemma_trim_start_shape(s);
    lemma_trim_end_shape(trim_start(s));
}

/// Trimming leaves text alone that neither begins nor ends with
/// whitespace.
pub proof fn lemma_trim_keeps_trimmed(t: Seq<char>)
    ensures
        is_trimmed(t) ==> trim(t) == t,
{
}

/// Trimming twice is trimming once.
pub proof fn lemma_trim_is_idempotent(s: Seq<char>)
    ensures
        trim(trim(s)) == trim(s),
{
    lemma_trim_is_trimmed(s);
    lemma_trim_keeps_trimmed(trim(s));
}

/// Whitespace around a script makes no difference to its parts.
pub proof fn lemma_split_ignores_surrounding_whitespace(source: Seq<char>)
    ensures
        split(trim(source)) == split(source),
{
    lemma_trim_is_idempotent(source);
}

/// The body of a script does not end with whitespace, and the body of a
/// script without frontmatter does not begin with whitespace either.
pub proof fn lemma_body_is_trimmed(source: Seq<char>)
    ensures
        split(source) matches Ok(parts) ==> {
            &&& parts.body.len() > 0 ==> !is_whitespace(parts.body.last())
            &&& !fence_line_at(without_shebang(trim(source)), 0) ==> is_trimmed(parts.body)
        },
{
    let t = trim(source);
    let u = without_shebang(t);
    lemma_trim_is_trimmed(source);
    if starts_with(t, shebang()) {
        if first_occurrence(t, newline()) is Some {
            let k = first_occurrence(t, newline())->0;
            lemma_trim_is_trimmed(t.skip(k + 1));
        }
    }
    assert(is_trimmed(u));
    if fence_line_at(u, 0) {
        if closing_line(u) is Some {
            let k = closing_line(u)->0;
            assert(is_closing_line(u, k));
            if k + FENCE_LEN != u.len() {
                let body = u.skip(k + block_start());
                if body.len() > 0 {
                    assert(body.last() == u.last());
                }
            }
        }
    }
}

/// Nothing of a block is lost in splitting: text that opens with a
/// delimiter line and is split is the opening line, the frontmatter on lines
/// of its own, the closing line, and the body after a line break. Where the
/// block is empty the closing line follows the opening line at once, and
/// where the text ends with the closing line there is no body.
pub proof fn lemma_split_fenced_loses_nothing(u: Seq<char>)
    ensures
        fence_line_at(u, 0) && split_fenced(u) is Ok ==> {
            let parts = split_fenced(u)->Ok_0;
            let k = closing_line(u)->0;
            let block = if k == block_start() {
                Seq::<char>::empty()
            } else {
                parts.frontmatter + newline()
            };
            let rest = if k + FENCE_LEN == u.len() {
                Seq::<char>::empty()
            } else {
                newline() + parts.body
            };
            u == fence() + newline() + block + fence() + rest
        },
{
    if fence_line_at(u, 0) && split_fenced(u) is Ok {
        let parts = split_fenced(u)->Ok_0;
        let k = closing_line(u)->0;
        assert(is_closing_line(u, k));
        let block = if k == block_start() {
            Seq::<char>::empty()
        } else {
            parts.frontmatter + newline()
        };
        let rest = if k + FENCE_LEN == u.len() {
            Seq::<char>::empty()
        } else {
            newline() + parts.body
        };
        let whole = fence() + newline() + block + fence() + rest;
        assert(u.subrange(0, FENCE_LEN as int) =~= fence());
        assert(u.subrange(k, k + FENCE_LEN) =~= fence());
        assert(whole.len() == u.len());
        assert forall|i: int| 0 <= i < u.len() implies u[i] == whole[i] by {
            if i < FENCE_LEN {
                assert(u.subrange(0, FENCE_LEN as int)[i] == u[i]);
            } else if k <= i < k + FENCE_LEN {
                assert(u.subrange(k, k + FENCE_LEN)[i - k] == u[i]);
            }
        }
        assert(u =~= whole);
    }
}

} // verus!
