//! Substrings around the last occurrence of a character.

use crate::misc::text::chars_of;
use vstd::prelude::*;
use vstd::string::StrSliceExecFns;

verus! {

/// Index of the last occurrence of `c` in `s`, if there is one.
pub open spec fn last_index_of(s: Seq<char>, c: char) -> Option<int>
    decreases s.len(),
{
    if s.len() == 0 {
        None
    } else if s.last() == c {
        Some(s.len() - 1)
    } else {
        last_index_of(s.drop_last(), c)
    }
}

/// What follows the last `c` in `s`; all of `s` where it holds no `c`.
pub open spec fn after_last(s: Seq<char>, c: char) -> Seq<char> {
    match last_index_of(s, c) {
        Some(i) => s.skip(i + 1),
        None => s,
    }
}

/// What precedes the last `c` in `s`; all of `s` where it holds no `c`.
pub open spec fn before_last(s: Seq<char>, c: char) -> Seq<char> {
    match last_index_of(s, c) {
        Some(i) => s.take(i),
        None => s,
    }
}

/// `last_index_of` finds an occurrence after which no other follows, and
/// finds none only where there is none.
pub proof fn lemma_last_index_of(s: Seq<char>, c: char)
    ensures
        match last_index_of(s, c) {
            Some(i) => 0 <= i < s.len() && s[i] == c && forall|j: int|
                i < j < s.len() ==> s[j] != c,
            None => forall|j: int| 0 <= j < s.len() ==> s[j] != c,
        },
    decreases s.len(),
{
    if s.len() > 0 && s.last() != c {
        let front = s.drop_last();
        lemma_last_index_of(front, c);
        assert forall|j: int| 0 <= j < front.len() implies front[j] == s[j] by {}
    }
}

/// Scans `s` once and returns the position of its last `c`.
fn find_last(s: &str, c: char) -> (found: Option<usize>)
    ensures
        match found {
            Some(i) => last_index_of(s@, c) == Some(i as int),
            None => last_index_of(s@, c) is None,
        },
{
    let chars = chars_of(s);
    let mut i: usize = chars.len();
    assert(s@.take(i as int) =~= s@);
    while i > 0
        invariant
            i <= chars.len(),
            chars@ == s@,
            last_index_of(s@, c) == last_index_of(s@.take(i as int), c),
        decreases i,
    {
        if chars[i - 1] == c {
            assert(s@.take(i as int).last() == c);
            return Some(i - 1);
        }
        assert(s@.take(i as int).drop_last() =~= s@.take(i - 1));
        i = i - 1;
    }
    None
}

/// Texts that can be cut at the last occurrence of a character.
pub trait StringExt: Sized {
    /// The text as a sequence of characters.
    spec fn chars(&self) -> Seq<char>;

    /// The part after the last `c`, or the whole where `c` does not occur.
    fn substring_after_last(&self, c: char) -> (r: Self)
        ensures
            r.chars() == after_last(self.chars(), c),
    ;

    /// The part before the last `c`, or the whole where `c` does not occur.
    fn substring_before_last(&self, c: char) -> (r: Self)
        ensures
            r.chars() == before_last(self.chars(), c),
    ;
}

impl StringExt for &str {
    open spec fn chars(&self) -> Seq<char> {
        self@
    }

    fn substring_after_last(&self, c: char) -> (r: Self) {
        proof {
            lemma_last_index_of(self@, c);
        }
        let n: usize = self.unicode_len();
        match find_last(self, c) {
            Some(i) => self.substring_char(i + 1, n),
            None => *self,
        }
    }

    fn substring_before_last(&self, c: char) -> (r: Self) {
        proof {
            lemma_last_index_of(self@, c);
        }
        match find_last(self, c) {
            Some(i) => self.substring_char(0, i),
            None => *self,
        }
    }
}

/// Optional texts with the empty text as their default.
pub trait OrEmpty {
    /// The text held, if any.
    spec fn text(&self) -> Option<Seq<char>>;

    /// The text held, or the empty string.
    fn or_empty(&self) -> (r: &str)
        ensures
            r@ == match self.text() {
                Some(s) => s,
                None => Seq::<char>::empty(),
            },
    ;
}

impl OrEmpty for Option<String> {
    open spec fn text(&self) -> Option<Seq<char>> {
        match self {
            Some(s) => Some(s@),
            None => None,
        }
    }

    fn or_empty(&self) -> (r: &str) {
        match self {
            None => {
                proof {
                    reveal_strlit("");
                }
                ""
            },
            Some(value) => value.as_str(),
        }
    }
}

} // verus!
