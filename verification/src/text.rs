//! Text helpers: prefixes, equality, and the base name of a path.

use vstd::prelude::*;
use vstd::string::StrSliceExecFns;

verus! {

/// `text` begins with `prefix`.
pub open spec fn has_prefix(text: Seq<char>, prefix: Seq<char>) -> bool {
    prefix.len() <= text.len() && forall|i: int| 0 <= i < prefix.len() ==> text[i] == prefix[i]
}

/// The index at which the last component of `path` begins: just behind the
/// last `/`, or 0 where there is none.
pub open spec fn base_name_start(path: Seq<char>) -> int
    decreases path.len(),
{
    if path.len() == 0 {
        0
    } else if path.last() == '/' {
        path.len() as int
    } else {
        base_name_start(path.drop_last())
    }
}

/// The last component of `path`: what follows its last `/`.
pub open spec fn base_name(path: Seq<char>) -> Seq<char> {
    path.subrange(base_name_start(path), path.len() as int)
}

/// `path` without the `/` at its end, however many there are.
pub open spec fn trim_slashes(path: Seq<char>) -> Seq<char>
    decreases path.len(),
{
    if path.len() > 0 && path.last() == '/' {
        trim_slashes(path.drop_last())
    } else {
        path
    }
}

/// The last non-empty component of `path`: the base name of the path
/// without the `/` at its end. Empty only where the path holds nothing but
/// `/`.
pub open spec fn last_component(path: Seq<char>) -> Seq<char> {
    base_name(trim_slashes(path))
}

/// A trimmed path is a front part of the path, does not end in `/`, and
/// only `/` was taken away.
pub proof fn lemma_trim_slashes(path: Seq<char>)
    ensures
        trim_slashes(path).len() <= path.len(),
        trim_slashes(path) == path.subrange(0, trim_slashes(path).len() as int),
        trim_slashes(path).len() == 0 || trim_slashes(path).last() != '/',
        forall|i: int| trim_slashes(path).len() <= i < path.len() ==> path[i] == '/',
    decreases path.len(),
{
    if path.len() > 0 && path.last() == '/' {
        let front = path.drop_last();
        lemma_trim_slashes(front);
        let n = trim_slashes(front).len() as int;
        assert(front.subrange(0, n) =~= path.subrange(0, n));
        assert forall|i: int| n <= i < path.len() implies path[i] == '/' by {
            if i < front.len() {
                assert(path[i] == front[i]);
            }
        }
    } else {
        assert(path.subrange(0, path.len() as int) =~= path);
    }
}

/// The last component holds no `/`, and is empty only where every
/// character of the path is a `/`.
pub proof fn lemma_last_component(path: Seq<char>)
    ensures
        forall|i: int| 0 <= i < last_component(path).len() ==> last_component(path)[i] != '/',
        last_component(path).len() == 0 <==> (forall|i: int| 0 <= i < path.len() ==> path[i]
            == '/'),
{
    let trimmed = trim_slashes(path);
    lemma_trim_slashes(path);
    lemma_base_name_start(trimmed);
    let start = base_name_start(trimmed);
    assert forall|i: int| 0 <= i < last_component(path).len() implies last_component(path)[i]
        != '/' by {
        assert(last_component(path)[i] == trimmed[start + i]);
    }
    if trimmed.len() > 0 {
        assert(trimmed.last() != '/');
        assert(start < trimmed.len());
        assert(path[trimmed.len() - 1] == trimmed[trimmed.len() - 1]);
    }
}

/// `base_name_start` is within the path, stands behind a `/` or at the
/// start, and no `/` follows it.
pub proof fn lemma_base_name_start(path: Seq<char>)
    ensures
        0 <= base_name_start(path) <= path.len(),
        base_name_start(path) == 0 || path[base_name_start(path) - 1] == '/',
        forall|i: int| base_name_start(path) <= i < path.len() ==> path[i] != '/',
    decreases path.len(),
{
    if path.len() > 0 && path.last() != '/' {
        let front = path.drop_last();
        lemma_base_name_start(front);
        assert forall|i: int| base_name_start(path) <= i < path.len() implies path[i] != '/' by {
            if i < front.len() {
                assert(path[i] == front[i]);
            }
        }
    }
}

/// A path without `/` is its own base name.
pub proof fn lemma_base_name_of_plain(path: Seq<char>)
    requires
        forall|i: int| 0 <= i < path.len() ==> path[i] != '/',
    ensures
        base_name(path) == path,
    decreases path.len(),
{
    if path.len() > 0 {
        lemma_base_name_of_plain(path.drop_last());
        lemma_base_name_start(path.drop_last());
    }
    assert(base_name(path) =~= path);
}

/// Whether `text` begins with `prefix`.
pub fn starts_with(text: &str, prefix: &str) -> (found: bool)
    ensures
        found == has_prefix(text@, prefix@),
{
    let text_len: usize = text.unicode_len();
    let prefix_len: usize = prefix.unicode_len();
    if prefix_len > text_len {
        return false;
    }
    let mut i: usize = 0;
    while i < prefix_len
        invariant
            prefix_len == prefix@.len(),
            text_len == text@.len(),
            prefix_len <= text_len,
            i <= prefix_len,
            forall|j: int| 0 <= j < i ==> text@[j] == prefix@[j],
        decreases prefix_len - i,
    {
        if text.get_char(i) != prefix.get_char(i) {
            return false;
        }
        i = i + 1;
    }
    true
}

/// Whether the two texts are the same.
pub fn same_text(left: &str, right: &str) -> (same: bool)
    ensures
        same == (left@ == right@),
{
    let left_len: usize = left.unicode_len();
    let right_len: usize = right.unicode_len();
    if left_len != right_len {
        return false;
    }
    let found = starts_with(left, right);
    proof {
        if found {
            assert(left@ =~= right@);
        }
    }
    found
}

/// The last component of `path`.
pub fn base_name_of(path: &str) -> (name: &str)
    ensures
        name@ == base_name(path@),
{
    let len: usize = path.unicode_len();
    let mut start: usize = 0;
    let mut i: usize = 0;
    while i < len
        invariant
            len == path@.len(),
            i <= len,
            start <= i,
            start == base_name_start(path@.subrange(0, i as int)),
        decreases len - i,
    {
        let c = path.get_char(i);
        proof {
            let next = path@.subrange(0, i + 1);
            assert(next.drop_last() =~= path@.subrange(0, i as int));
            assert(next.last() == c);
        }
        if c == '/' {
            start = i + 1;
        }
        i = i + 1;
    }
    proof {
        assert(path@.subrange(0, len as int) =~= path@);
    }
    path.substring_char(start, len)
}

/// The last non-empty component of `path`.
pub fn last_component_of(path: &str) -> (name: &str)
    ensures
        name@ == last_component(path@),
{
    let len: usize = path.unicode_len();
    let mut end: usize = len;
    let mut trimmed = false;
    proof {
        assert(path@.subrange(0, len as int) =~= path@);
    }
    while !trimmed && end > 0
        invariant
            len == path@.len(),
            end <= len,
            trim_slashes(path@) == trim_slashes(path@.subrange(0, end as int)),
            trimmed ==> end > 0 && path@[end - 1] != '/',
        decreases end + (if trimmed { 0int } else { 1int }),
    {
        let c = path.get_char(end - 1);
        proof {
            let head = path@.subrange(0, end as int);
            assert(head.last() == c);
            assert(head.drop_last() =~= path@.subrange(0, end - 1));
        }
        if c == '/' {
            end = end - 1;
        } else {
            trimmed = true;
        }
    }
    proof {
        let head = path@.subrange(0, end as int);
        if end > 0 {
            assert(head.last() == path@[end - 1]);
        }
        assert(trim_slashes(head) == head);
    }
    base_name_of(path.substring_char(0, end))
}

} // verus!
