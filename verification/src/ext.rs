//! Searching and splitting text. Positions count characters.

use vstd::prelude::*;
use crate::args::substring;
use crate::text::chars_of;
use crate::text::contains_seq;
use crate::text::occurs_at;
use crate::text::starts_at;

verus! {

/// Keeps [`TextExt`] to the types of this library.
pub trait Sealed {

}

/// A text to search or split.
pub struct Text<'a>(pub &'a str);

impl<'a> Sealed for Text<'a> {

}

/// Where `needle` first occurs in `hay` at or after `from`.
pub open spec fn first_occurrence(hay: Seq<char>, needle: Seq<char>, from: int) -> Option<int>
    decreases hay.len() + 1 - from,
{
    if from < 0 || from + needle.len() > hay.len() {
        None
    } else if occurs_at(hay, needle, from) {
        Some(from)
    } else {
        first_occurrence(hay, needle, from + 1)
    }
}

/// The first occurrence is an occurrence, and nothing occurs before it;
/// where there is none, nothing occurs at all.
pub proof fn first_occurrence_is_first(hay: Seq<char>, needle: Seq<char>, from: int)
    requires
        0 <= from,
    ensures
        match first_occurrence(hay, needle, from) {
            Some(at) => from <= at && occurs_at(hay, needle, at) && forall|k: int|
                from <= k < at ==> !occurs_at(hay, needle, k),
            None => forall|k: int| from <= k ==> !occurs_at(hay, needle, k),
        },
    decreases hay.len() + 1 - from,
{
    if from + needle.len() <= hay.len() && !occurs_at(hay, needle, from) {
        first_occurrence_is_first(hay, needle, from + 1);
    }
}

/// The two sides of the first occurrence of `needle` in `hay`.
pub open spec fn split_once_of(hay: Seq<char>, needle: Seq<char>) -> Option<
    (Seq<char>, Seq<char>),
> {
    match first_occurrence(hay, needle, 0) {
        Some(at) => Some((hay.take(at), hay.skip(at + needle.len()))),
        None => None,
    }
}

/// The pieces of `hay` between the occurrences of `needle`, which is not
/// empty: reading from the left, each occurrence ends a piece.
pub open spec fn pieces(hay: Seq<char>, needle: Seq<char>) -> Seq<Seq<char>>
    decreases hay.len(),
{
    if needle.len() == 0 {
        seq![hay]
    } else {
        match first_occurrence(hay, needle, 0) {
            Some(at) => if 0 <= at && at + needle.len() <= hay.len() {
                seq![hay.take(at)] + pieces(hay.skip(at + needle.len()), needle)
            } else {
                seq![hay]
            },
            None => seq![hay],
        }
    }
}

fn find_from(hay: &Vec<char>, needle: &Vec<char>, from: usize) -> (r: Option<usize>)
    ensures
        match r {
            Some(at) => first_occurrence(hay@, needle@, from as int) == Some(at as int) && from
                <= at && at + needle@.len() <= hay@.len(),
            None => first_occurrence(hay@, needle@, from as int) is None,
        },
{
    let n: usize = hay.len();
    let m: usize = needle.len();
    if m > n || from > n - m {
        return None;
    }
    let last: usize = n - m;
    let mut at: usize = from;
    loop
        invariant
            n == hay@.len(),
            m == needle@.len(),
            last == n - m,
            from <= at <= last,
            first_occurrence(hay@, needle@, from as int) == first_occurrence(
                hay@,
                needle@,
                at as int,
            ),
        decreases last - at,
    {
        if starts_at(hay, needle, at) {
            return Some(at);
        }
        if at == last {
            return None;
        }
        at += 1;
    }
}

/// Searching and splitting text.
pub trait TextExt: Sealed {
    /// Whether `needle` occurs in the text.
    fn contains(&self, needle: &str) -> bool;

    /// Where `needle` first occurs in the text.
    fn find(&self, needle: &str) -> Option<usize>;

    /// The text without `prefix`, where it starts with it.
    fn strip_prefix(&self, prefix: &str) -> Option<String>;

    /// Whether the text starts with `prefix`.
    fn starts_with(&self, prefix: &str) -> bool;

    /// The text before and after the first occurrence of `needle`.
    fn split_once(&self, needle: &str) -> Option<(String, String)>;
}

impl<'a> TextExt for Text<'a> {
    fn contains(&self, needle: &str) -> (r: bool)
        ensures
            r == contains_seq(self.0@, needle@),
    {
        crate::text::contains(self.0, needle)
    }

    fn find(&self, needle: &str) -> (r: Option<usize>)
        ensures
            match r {
                Some(at) => first_occurrence(self.0@, needle@, 0) == Some(at as int),
                None => first_occurrence(self.0@, needle@, 0) is None,
            },
    {
        let hay = chars_of(self.0);
        let pattern = chars_of(needle);
        find_from(&hay, &pattern, 0)
    }

    fn strip_prefix(&self, prefix: &str) -> (r: Option<String>)
        ensures
            match r {
                Some(rest) => occurs_at(self.0@, prefix@, 0) && rest@ == self.0@.skip(
                    prefix@.len() as int,
                ),
                None => !occurs_at(self.0@, prefix@, 0),
            },
    {
        let hay = chars_of(self.0);
        let pattern = chars_of(prefix);
        if pattern.len() <= hay.len() && starts_at(&hay, &pattern, 0) {
            let rest = substring(&hay, pattern.len(), hay.len());
            assert(rest@ =~= self.0@.skip(prefix@.len() as int));
            Some(rest)
        } else {
            None
        }
    }

    fn starts_with(&self, prefix: &str) -> (r: bool)
        ensures
            r == occurs_at(self.0@, prefix@, 0),
    {
        let hay = chars_of(self.0);
        let pattern = chars_of(prefix);
        pattern.len() <= hay.len() && starts_at(&hay, &pattern, 0)
    }

    fn split_once(&self, needle: &str) -> (r: Option<(String, String)>)
        ensures
            match r {
                Some(sides) => split_once_of(self.0@, needle@) == Some((sides.0@, sides.1@)),
                None => split_once_of(self.0@, needle@) is None,
            },
    {
        let hay = chars_of(self.0);
        let pattern = chars_of(needle);
        match find_from(&hay, &pattern, 0) {
            Some(at) => {
                let n: usize = hay.len();
                let first = substring(&hay, 0, at);
                let second = substring(&hay, at + pattern.len(), n);
                assert(first@ =~= self.0@.take(at as int));
                assert(second@ =~= self.0@.skip(at + needle@.len()));
                Some((first, second))
            },
            None => None,
        }
    }
}

/// The pieces of `hay` between the occurrences of `needle`, which must
/// not be empty.
pub fn split(hay: &str, needle: &str) -> (r: Vec<String>)
    requires
        needle@.len() > 0,
    ensures
        crate::options::texts(r@) == pieces(hay@, needle@),
{
    let chars = chars_of(hay);
    let pattern = chars_of(needle);
    let n: usize = chars.len();
    let m: usize = pattern.len();
    let mut out: Vec<String> = Vec::new();
    let mut from: usize = 0;
    assert(chars@.skip(0) =~= chars@);
    assert(crate::options::texts(out@) =~= Seq::<Seq<char>>::empty());
    loop
        invariant
            n == chars@.len(),
            m == pattern@.len(),
            m > 0,
            chars@ == hay@,
            pattern@ == needle@,
            from <= n,
            pieces(hay@, needle@) == crate::options::texts(out@) + pieces(
                chars@.skip(from as int),
                needle@,
            ),
        decreases n - from,
    {
        let ghost rest = chars@.skip(from as int);
        let rest_chars = tail(&chars, from);
        match find_from(&rest_chars, &pattern, 0) {
            Some(at) => {
                let piece = substring(&rest_chars, 0, at);
                proof {
                    assert(piece@ =~= rest.take(at as int));
                    assert(rest.skip(at + m) =~= chars@.skip(from + at + m));
                    assert(crate::options::texts(out@.push(piece)) =~= crate::options::texts(
                        out@,
                    ).push(piece@));
                    assert(crate::options::texts(out@) + (seq![rest.take(at as int)] + pieces(
                        rest.skip(at + m),
                        needle@,
                    )) =~= crate::options::texts(out@).push(piece@) + pieces(
                        chars@.skip(from + at + m),
                        needle@,
                    ));
                }
                out.push(piece);
                from = from + at + m;
            },
            None => {
                let piece = substring(&rest_chars, 0, rest_chars.len());
                proof {
                    assert(piece@ =~= rest);
                    assert(crate::options::texts(out@.push(piece)) =~= crate::options::texts(
                        out@,
                    ).push(piece@));
                    assert(crate::options::texts(out@) + seq![rest] =~= crate::options::texts(
                        out@,
                    ).push(piece@));
                }
                out.push(piece);
                return out;
            },
        }
    }
}

fn tail(chars: &Vec<char>, from: usize) -> (r: Vec<char>)
    requires
        from <= chars@.len(),
    ensures
        r@ == chars@.skip(from as int),
{
    let mut out: Vec<char> = Vec::new();
    let mut i: usize = from;
    while i < chars.len()
        invariant
            from <= i <= chars@.len(),
            out@ == chars@.subrange(from as int, i as int),
        decreases chars@.len() - i,
    {
        out.push(chars[i]);
        i += 1;
        assert(out@ =~= chars@.subrange(from as int, i as int));
    }
    assert(out@ =~= chars@.skip(from as int));
    out
}

} // verus!
