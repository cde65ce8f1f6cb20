//! Texts cut at the first occurrence of a character.

use vstd::prelude::*;
use vstd::string::StrSliceExecFns;

verus! {

/// Position `i` holds the first `mark` of `text`.
pub open spec fn is_first(text: Seq<char>, mark: char, i: int) -> bool {
    &&& 0 <= i < text.len()
    &&& text[i] == mark
    &&& forall|j: int| 0 <= j < i ==> #[trigger] text[j] != mark
}

/// What stands before the first `mark` of `text`: all of it where it
/// holds none.
pub open spec fn before_first(text: Seq<char>, mark: char) -> Seq<char> {
    if exists|i: int| is_first(text, mark, i) {
        text.take(choose|i: int| is_first(text, mark, i))
    } else {
        text
    }
}

/// What stands behind the first `mark` of `text`: nothing where it holds
/// none.
pub open spec fn after_first(text: Seq<char>, mark: char) -> Seq<char> {
    if exists|i: int| is_first(text, mark, i) {
        text.skip((choose|i: int| is_first(text, mark, i)) + 1)
    } else {
        Seq::empty()
    }
}

/// The first `mark` of a text parts what stands before it from what
/// stands behind it.
pub proof fn lemma_first(text: Seq<char>, mark: char, i: int)
    requires
        is_first(text, mark, i),
    ensures
        before_first(text, mark) == text.take(i),
        after_first(text, mark) == text.skip(i + 1),
{
    let k = choose|k: int| is_first(text, mark, k);
    if k < i {
        assert(text[k] != mark);
    } else if i < k {
        assert(text[i] != mark);
    }
}

/// A text without `mark` stands before it as a whole.
pub proof fn lemma_absent(text: Seq<char>, mark: char)
    requires
        forall|j: int| 0 <= j < text.len() ==> #[trigger] text[j] != mark,
    ensures
        before_first(text, mark) == text,
        after_first(text, mark) == Seq::<char>::empty(),
{
    assert forall|k: int| !is_first(text, mark, k) by {
        if is_first(text, mark, k) {
            assert(text[k] != mark);
        }
    }
}

/// What stands before the first `mark` of a text is free of it.
pub proof fn lemma_before_first_is_free(text: Seq<char>, mark: char)
    ensures
        forall|j: int|
            0 <= j < before_first(text, mark).len() ==> #[trigger] before_first(text, mark)[j]
                != mark,
        before_first(before_first(text, mark), mark) == before_first(text, mark),
{
    let head = before_first(text, mark);
    if exists|i: int| is_first(text, mark, i) {
        let i = choose|i: int| is_first(text, mark, i);
        assert forall|j: int| 0 <= j < head.len() implies #[trigger] head[j] != mark by {
            assert(head[j] == text[j]);
        }
    } else {
        assert forall|j: int| 0 <= j < head.len() implies #[trigger] head[j] != mark by {
            if head[j] == mark {
                lemma_least(text, mark, j);
            }
        }
    }
    lemma_absent(head, mark);
}

/// Where a text holds `mark` at `j`, it holds a first one.
proof fn lemma_least(text: Seq<char>, mark: char, j: int)
    requires
        0 <= j < text.len(),
        text[j] == mark,
    ensures
        exists|i: int| is_first(text, mark, i),
    decreases j,
{
    if forall|m: int| 0 <= m < j ==> #[trigger] text[m] != mark {
        assert(is_first(text, mark, j));
    } else {
        let m = choose|m: int| 0 <= m < j && #[trigger] text[m] == mark;
        lemma_least(text, mark, m);
    }
}

/// Cuts a text at its first `mark`.
pub fn split_at_first(text: &str, mark: char) -> (parts: (String, String))
    ensures
        parts.0@ == before_first(text@, mark),
        parts.1@ == after_first(text@, mark),
{
    let n = text.unicode_len();
    let mut i: usize = 0;
    for c in it: text.chars()
        invariant
            i == it.index(),
            it.seq() == text@,
            text@.len() == n,
            forall|j: int| 0 <= j < i ==> #[trigger] text@[j] != mark,
    {
        assert(text@[i as int] == c);
        if c == mark {
            proof {
                assert(is_first(text@, mark, i as int));
                lemma_first(text@, mark, i as int);
                assert(text@.take(i as int) =~= text@.subrange(0, i as int));
                assert(text@.skip(i + 1) =~= text@.subrange(i + 1, n as int));
            }
            return (text.substring_char(0, i).to_owned(), text.substring_char(i + 1, n).to_owned());
        }
        i = i + 1;
    }
    proof {
        lemma_absent(text@, mark);
    }
    (text.to_owned(), String::new())
}

} // verus!
