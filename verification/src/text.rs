//! Comparing texts, and cutting a text at the first occurrence of a
//! character.

use vstd::prelude::*;
use vstd::string::{StrSliceExecFns, StringExecFns};

verus! {

/// Whether two texts are the same.
pub fn same_text(a: &str, b: &str) -> (same: bool)
    ensures
        same == (a@ == b@),
{
    String::from_str(a) == String::from_str(b)
}

/// The text up to the first `mark`, or all of it where there is none.
pub open spec fn prefix_before(text: Seq<char>, mark: char) -> Seq<char>
    decreases text.len(),
{
    if text.len() == 0 || text[0] == mark {
        Seq::empty()
    } else {
        seq![text[0]] + prefix_before(text.drop_first(), mark)
    }
}

/// The text behind the first `mark`, where there is one.
pub open spec fn after_first(text: Seq<char>, mark: char) -> Option<Seq<char>> {
    let at = prefix_before(text, mark).len();
    if at < text.len() {
        Some(text.skip(at as int + 1))
    } else {
        None
    }
}

/// A place before which no `mark` stands, and at which either one stands or
/// the text ends, is where the prefix ends.
pub proof fn lemma_prefix_ends_at(text: Seq<char>, mark: char, at: int)
    requires
        0 <= at <= text.len(),
        forall|j: int| 0 <= j < at ==> text[j] != mark,
        at < text.len() ==> text[at] == mark,
    ensures
        prefix_before(text, mark) == text.take(at),
    decreases text.len(),
{
    if at == 0 {
        assert(text.take(0) =~= Seq::<char>::empty());
    } else {
        let rest = text.drop_first();
        assert forall|j: int| 0 <= j < at - 1 implies rest[j] != mark by {
            assert(rest[j] == text[j + 1]);
        }
        lemma_prefix_ends_at(rest, mark, at - 1);
        assert(seq![text[0]] + rest.take(at - 1) =~= text.take(at));
    }
}

/// The prefix holds no `mark`, and is the whole text exactly where the text
/// holds none.
pub proof fn lemma_prefix_properties(text: Seq<char>, mark: char)
    ensures
        prefix_before(text, mark).len() <= text.len(),
        prefix_before(text, mark) == text.take(prefix_before(text, mark).len() as int),
        !prefix_before(text, mark).contains(mark),
        !text.contains(mark) <==> prefix_before(text, mark) == text,
    decreases text.len(),
{
    let prefix = prefix_before(text, mark);
    if text.len() == 0 {
        assert(prefix =~= text);
    } else if text[0] == mark {
        assert(text.take(0) =~= prefix);
        assert(text.contains(mark));
    } else {
        let rest = text.drop_first();
        lemma_prefix_properties(rest, mark);
        let tail = prefix_before(rest, mark);
        assert(seq![text[0]] + rest.take(tail.len() as int) =~= text.take(tail.len() as int + 1));
        assert(!prefix.contains(mark)) by {
            if prefix.contains(mark) {
                let i = choose|i: int| 0 <= i < prefix.len() && prefix[i] == mark;
                assert(tail[i - 1] == mark);
                assert(tail.contains(mark));
            }
        }
        if text.contains(mark) {
            let i = choose|i: int| 0 <= i < text.len() && text[i] == mark;
            assert(rest[i - 1] == mark);
            assert(rest.contains(mark));
            assert(tail.len() < rest.len()) by {
                if tail.len() == rest.len() {
                    assert(rest.take(rest.len() as int) =~= rest);
                }
            }
        } else {
            assert(!rest.contains(mark)) by {
                if rest.contains(mark) {
                    let i = choose|i: int| 0 <= i < rest.len() && rest[i] == mark;
                    assert(text[i + 1] == mark);
                }
            }
            assert(seq![text[0]] + rest =~= text);
        }
    }
}

/// Where the first `mark` stands in the text: the number of characters
/// before it, or the length of the text where there is none.
pub fn position_of(text: &str, mark: char) -> (at: usize)
    ensures
        at == prefix_before(text@, mark).len(),
        at <= text@.len(),
        prefix_before(text@, mark) == text@.take(at as int),
        at < text@.len() ==> text@[at as int] == mark,
{
    let len = text.unicode_len();
    let mut at: usize = 0;
    while at < len
        invariant
            len == text@.len(),
            at <= len,
            forall|j: int| 0 <= j < at ==> text@[j] != mark,
        decreases len - at,
    {
        if text.get_char(at) == mark {
            proof {
                lemma_prefix_ends_at(text@, mark, at as int);
            }
            return at;
        }
        at += 1;
    }
    proof {
        lemma_prefix_ends_at(text@, mark, at as int);
    }
    at
}

} // verus!
