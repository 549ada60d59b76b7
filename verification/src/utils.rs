//! Small helpers on text: blank fields, surrounding white space, leading
//! separators and comparison of string slices.

use vstd::prelude::*;
use vstd::string::StringExecFns;
use vstd::string::StringSliceAdditionalSpecFns;
use vstd::utf8::encode_utf8_decode_utf8;

verus! {

/// The character that separates the components of a path.
pub const SEPARATOR: char = '/';

/// Whether `c` has the Unicode property `White_Space`, as `char::is_whitespace`
/// reports it.
pub uninterp spec fn white_space(c: char) -> bool;

/// Calls `char::is_whitespace`. The contract only ties the answer to the
/// name `white_space`; which characters count is left to the standard
/// library.
#[verifier::external_body]
fn is_white_space(c: char) -> (r: bool)
    ensures
        r == white_space(c),
{
    c.is_whitespace()
}

/// `s` without its leading white space.
pub open spec fn trimmed_start(s: Seq<char>) -> Seq<char>
    decreases s.len(),
{
    if s.len() > 0 && white_space(s[0]) {
        trimmed_start(s.skip(1))
    } else {
        s
    }
}

/// `s` without its trailing white space.
pub open spec fn trimmed_end(s: Seq<char>) -> Seq<char>
    decreases s.len(),
{
    if s.len() > 0 && white_space(s.last()) {
        trimmed_end(s.drop_last())
    } else {
        s
    }
}

/// `s` without the white space around it.
pub open spec fn trimmed(s: Seq<char>) -> Seq<char> {
    trimmed_end(trimmed_start(s))
}

/// Every character of `s` is white space.
pub open spec fn blank(s: Seq<char>) -> bool {
    forall|i: int| 0 <= i < s.len() ==> white_space(#[trigger] s[i])
}

/// Leading white space ends at the first character that is none.
pub proof fn lemma_trimmed_start(s: Seq<char>, from: int)
    requires
        0 <= from <= s.len(),
        forall|i: int| 0 <= i < from ==> white_space(#[trigger] s[i]),
        from < s.len() ==> !white_space(s[from]),
    ensures
        trimmed_start(s) == s.skip(from),
    decreases from,
{
    if from == 0 {
        assert(s.skip(0) =~= s);
    } else {
        let rest = s.skip(1);
        assert forall|i: int| 0 <= i < from - 1 implies white_space(#[trigger] rest[i]) by {
            assert(rest[i] == s[i + 1]);
        }
        lemma_trimmed_start(rest, from - 1);
        assert(rest.skip(from - 1) =~= s.skip(from));
    }
}

/// Trailing white space begins after the last character that is none.
pub proof fn lemma_trimmed_end(s: Seq<char>, to: int)
    requires
        0 <= to <= s.len(),
        forall|i: int| to <= i < s.len() ==> white_space(#[trigger] s[i]),
        to > 0 ==> !white_space(s[to - 1]),
    ensures
        trimmed_end(s) == s.take(to),
    decreases s.len() - to,
{
    if to == s.len() {
        assert(s.take(to) =~= s);
    } else {
        let rest = s.drop_last();
        lemma_trimmed_end(rest, to);
        assert(rest.take(to) =~= s.take(to));
    }
}

/// A text trims to nothing exactly when it is blank.
pub proof fn lemma_blank_iff_trimmed_empty(s: Seq<char>)
    ensures
        blank(s) <==> trimmed(s).len() == 0,
    decreases s.len(),
{
    if s.len() > 0 && white_space(s[0]) {
        let rest = s.skip(1);
        lemma_blank_iff_trimmed_empty(rest);
        if blank(s) {
            assert forall|i: int| 0 <= i < rest.len() implies white_space(#[trigger] rest[i]) by {
                assert(rest[i] == s[i + 1]);
            }
        }
        if blank(rest) {
            assert forall|i: int| 0 <= i < s.len() implies white_space(#[trigger] s[i]) by {
                if i > 0 {
                    assert(s[i] == rest[i - 1]);
                }
            }
        }
    } else if s.len() > 0 {
        assert(trimmed_start(s) == s);
        lemma_trimmed_end_keeps_head(s);
    }
}

/// Trimming the end never removes a first character that is no white space.
proof fn lemma_trimmed_end_keeps_head(s: Seq<char>)
    requires
        s.len() > 0,
        !white_space(s[0]),
    ensures
        trimmed_end(s).len() > 0,
    decreases s.len(),
{
    if white_space(s.last()) {
        let rest = s.drop_last();
        assert(rest.len() > 0);
        assert(rest[0] == s[0]);
        lemma_trimmed_end_keeps_head(rest);
    }
}

/// The text of `s` without the white space around it.
pub fn trim(s: &str) -> (r: &str)
    ensures
        r@ == trimmed(s@),
{
    let n = s.unicode_len();
    let mut from: usize = 0;
    while from < n && is_white_space(s.get_char(from))
        invariant
            n == s@.len(),
            from <= n,
            forall|i: int| 0 <= i < from ==> white_space(#[trigger] s@[i]),
        decreases n - from,
    {
        from = from + 1;
    }
    let mut to: usize = n;
    while to > from && is_white_space(s.get_char(to - 1))
        invariant
            n == s@.len(),
            from <= to <= n,
            forall|i: int| to <= i < n ==> white_space(#[trigger] s@[i]),
        decreases to,
    {
        to = to - 1;
    }
    proof {
        let head = s@.skip(from as int);
        lemma_trimmed_start(s@, from as int);
        assert forall|i: int| to - from <= i < head.len() implies white_space(
            #[trigger] head[i],
        ) by {
            assert(head[i] == s@[i + from]);
        }
        if to > from {
            assert(head[to - from - 1] == s@[to - 1]);
        }
        lemma_trimmed_end(head, to - from);
        assert(head.take(to - from) =~= s@.subrange(from as int, to as int));
    }
    s.substring_char(from, to)
}

/// Whether a field holds nothing but white space.
pub fn is_empty(val: &str) -> (r: bool)
    ensures
        r == (trimmed(val@).len() == 0),
        r == blank(val@),
{
    proof {
        lemma_blank_iff_trimmed_empty(val@);
    }
    trim(val).unicode_len() == 0
}

/// Whether two string slices hold the same text.
pub fn same_text(a: &str, b: &str) -> (r: bool)
    ensures
        r == (a@ == b@),
{
    let x = a.as_bytes();
    let y = b.as_bytes();
    proof {
        encode_utf8_decode_utf8(a@);
        encode_utf8_decode_utf8(b@);
    }
    if x.len() != y.len() {
        return false;
    }
    let mut i: usize = 0;
    while i < x.len()
        invariant
            i <= x.len(),
            x.len() == y.len(),
            forall|j: int| 0 <= j < i ==> x@[j] == y@[j],
            x@ == a.spec_bytes(),
            y@ == b.spec_bytes(),
        decreases x.len() - i,
    {
        if x[i] != y[i] {
            return false;
        }
        i = i + 1;
    }
    assert(x@ =~= y@);
    true
}

/// `path` without one leading separator, if it has one.
pub open spec fn without_leading_separator(path: Seq<char>) -> Seq<char> {
    if path.len() > 0 && path[0] == SEPARATOR {
        path.skip(1)
    } else {
        path
    }
}

/// Drops one leading separator from `path`, so that the rest is taken
/// relative to the working directory.
pub fn del_start_separator(path: &str) -> (r: &str)
    ensures
        r@ == without_leading_separator(path@),
{
    let n = path.unicode_len();
    if n > 0 && path.get_char(0) == SEPARATOR {
        assert(path@.subrange(1, n as int) =~= path@.skip(1));
        path.substring_char(1, n)
    } else {
        path
    }
}

/// `left` followed by `right`.
pub fn chain(left: &str, right: &str) -> (r: String)
    ensures
        r@ == left@ + right@,
{
    String::from_str(left).concat(right)
}

/// `dir` placed under `base`: one separator stands between them unless
/// `base` is empty or already ends in one.
pub open spec fn joined(base: Seq<char>, dir: Seq<char>) -> Seq<char> {
    if base.len() == 0 || base.last() == SEPARATOR {
        base + dir
    } else {
        base + seq![SEPARATOR] + dir
    }
}

/// The path of `dir` under the directory `base`.
pub fn join(base: &str, dir: &str) -> (r: String)
    ensures
        r@ == joined(base@, dir@),
{
    let n = base.unicode_len();
    if n == 0 || base.get_char(n - 1) == SEPARATOR {
        chain(base, dir)
    } else {
        proof {
            reveal_strlit("/");
            assert("/"@ =~= seq![SEPARATOR]);
        }
        chain(base, "/").concat(dir)
    }
}

/// The number of characters of `path` up to and including its last
/// separator; 0 where it has none.
pub open spec fn directory_len(path: Seq<char>) -> int
    decreases path.len(),
{
    if path.len() == 0 {
        0
    } else if path.last() == SEPARATOR {
        path.len() as int
    } else {
        directory_len(path.drop_last())
    }
}

/// The last component of `path`: what follows its last separator.
pub open spec fn base_name_of(path: Seq<char>) -> Seq<char> {
    path.skip(directory_len(path))
}

/// `directory_len` is the place after the last separator.
pub proof fn lemma_directory_len(path: Seq<char>, at: int)
    requires
        0 <= at <= path.len(),
        at > 0 ==> path[at - 1] == SEPARATOR,
        forall|i: int| at <= i < path.len() ==> #[trigger] path[i] != SEPARATOR,
    ensures
        directory_len(path) == at,
    decreases path.len() - at,
{
    if at < path.len() {
        let rest = path.drop_last();
        lemma_directory_len(rest, at);
    }
}

/// The base name holds no separator, and the whole path is its directory
/// part followed by the base name.
pub proof fn lemma_base_name(path: Seq<char>)
    ensures
        0 <= directory_len(path) <= path.len(),
        directory_len(path) > 0 ==> path[directory_len(path) - 1] == SEPARATOR,
        forall|i: int| 0 <= i < base_name_of(path).len() ==> #[trigger] base_name_of(path)[i] != SEPARATOR,
        path == path.take(directory_len(path)) + base_name_of(path),
    decreases path.len(),
{
    if path.len() > 0 && path.last() != SEPARATOR {
        let rest = path.drop_last();
        lemma_base_name(rest);
        let d = directory_len(path);
        assert forall|i: int| 0 <= i < base_name_of(path).len() implies #[trigger] base_name_of(
            path,
        )[i] != SEPARATOR by {
            if i < base_name_of(rest).len() {
                assert(base_name_of(path)[i] == base_name_of(rest)[i]);
            }
        }
    }
    assert(path =~= path.take(directory_len(path)) + base_name_of(path));
}

/// The last component of `path`: it holds no separator, and what stands
/// before it in `path` is empty or ends in one.
pub fn base_name(path: &str) -> (r: &str)
    ensures
        r@ == base_name_of(path@),
        forall|i: int| 0 <= i < r@.len() ==> #[trigger] r@[i] != SEPARATOR,
        path@ == path@.take(directory_len(path@)) + r@,
{
    proof {
        lemma_base_name(path@);
    }
    let n = path.unicode_len();
    let mut at: usize = n;
    while at > 0 && path.get_char(at - 1) != SEPARATOR
        invariant
            n == path@.len(),
            at <= n,
            forall|i: int| at <= i < n ==> #[trigger] path@[i] != SEPARATOR,
        decreases at,
    {
        at = at - 1;
    }
    proof {
        lemma_directory_len(path@, at as int);
        assert(path@.subrange(at as int, n as int) =~= path@.skip(at as int));
    }
    path.substring_char(at, n)
}

} // verus!
