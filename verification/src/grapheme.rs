//! Grapheme-aware editing of a text buffer.
//!
//! Text is modelled by its sequence of `char`s. Deletion works on extended
//! grapheme clusters, so that a combined emoji or a letter with combining
//! marks leaves as one unit.

use unicode_segmentation::UnicodeSegmentation;
use vstd::prelude::*;

verus! {

/// The extended grapheme clusters of `text`, in order, as
/// `unicode_segmentation` segments it.
pub uninterp spec fn grapheme_clusters(text: Seq<char>) -> Seq<Seq<char>>;

/// The pieces joined in order.
pub open spec fn concat(parts: Seq<Seq<char>>) -> Seq<char>
    decreases parts.len(),
{
    if parts.len() == 0 {
        Seq::empty()
    } else {
        concat(parts.drop_last()) + parts.last()
    }
}

/// The pieces as sequences of characters.
pub open spec fn views(parts: Seq<String>) -> Seq<Seq<char>> {
    Seq::new(parts.len(), |i: int| parts[i]@)
}

/// All pieces but the last, joined; nothing if there is no piece.
pub open spec fn all_but_last(parts: Seq<Seq<char>>) -> Seq<char> {
    if parts.len() == 0 {
        Seq::empty()
    } else {
        concat(parts.drop_last())
    }
}

/// All pieces but the first, joined; nothing if there is no piece.
pub open spec fn all_but_first(parts: Seq<Seq<char>>) -> Seq<char> {
    if parts.len() == 0 {
        Seq::empty()
    } else {
        concat(parts.skip(1))
    }
}

/// The last grapheme cluster of `text`; nothing if `text` is empty.
pub open spec fn last_grapheme(text: Seq<char>) -> Seq<char> {
    if text.len() == 0 || grapheme_clusters(text).len() == 0 {
        Seq::empty()
    } else {
        grapheme_clusters(text).last()
    }
}

/// The first grapheme cluster of `text`; nothing if `text` is empty.
pub open spec fn first_grapheme(text: Seq<char>) -> Seq<char> {
    if text.len() == 0 || grapheme_clusters(text).len() == 0 {
        Seq::empty()
    } else {
        grapheme_clusters(text).first()
    }
}

/// `text` without its first grapheme cluster; empty text stays empty.
pub open spec fn without_first_grapheme(text: Seq<char>) -> Seq<char> {
    if text.len() == 0 {
        text
    } else {
        all_but_first(grapheme_clusters(text))
    }
}

/// `text` without its last grapheme cluster; empty text stays empty.
pub open spec fn without_last_grapheme(text: Seq<char>) -> Seq<char> {
    if text.len() == 0 {
        text
    } else {
        all_but_last(grapheme_clusters(text))
    }
}

/// `text` after `count` deletions of the last grapheme cluster.
pub open spec fn without_last_graphemes(text: Seq<char>, count: nat) -> Seq<char>
    decreases count,
{
    if count == 0 {
        text
    } else {
        without_last_graphemes(without_last_grapheme(text), (count - 1) as nat)
    }
}

/// Specifies `String::push`: the character is appended.
pub assume_specification[ String::push ](s: &mut String, c: char)
    ensures
        final(s)@ == old(s)@.push(c),
;

/// Calls `UnicodeSegmentation::graphemes` for extended clusters and collects
/// the pieces as owned strings.
///
/// Trusted: the pieces are the grapheme clusters of `text`; they are
/// consecutive slices that start at the beginning of `text` and end at its
/// end, so joined they give `text` back; and none of them is empty.
#[verifier::external_body]
pub(crate) fn graphemes(text: &str) -> (clusters: Vec<String>)
    ensures
        views(clusters@) == grapheme_clusters(text@),
        concat(views(clusters@)) == text@,
        forall|i: int| 0 <= i < clusters@.len() ==> (#[trigger] clusters@[i])@.len() > 0,
{
    text.graphemes(true).map(|cluster| cluster.to_owned()).collect()
}

/// Joining one more piece appends it.
pub proof fn lemma_concat_take(parts: Seq<Seq<char>>, n: int)
    requires
        0 <= n < parts.len(),
    ensures
        concat(parts.take(n + 1)) == concat(parts.take(n)) + parts[n],
{
    assert(parts.take(n + 1).drop_last() =~= parts.take(n));
    assert(parts.take(n + 1).last() == parts[n]);
}

/// Joining pieces is putting the first before the others joined.
pub proof fn lemma_concat_first(parts: Seq<Seq<char>>)
    requires
        parts.len() > 0,
    ensures
        concat(parts) == parts.first() + concat(parts.skip(1)),
    decreases parts.len(),
{
    if parts.len() == 1 {
        assert(parts.drop_last() =~= Seq::<Seq<char>>::empty());
        assert(parts.skip(1) =~= Seq::<Seq<char>>::empty());
        assert(concat(parts) =~= parts.first() + concat(parts.skip(1)));
    } else {
        lemma_concat_first(parts.drop_last());
        assert(parts.skip(1).drop_last() =~= parts.drop_last().skip(1));
        assert(parts.skip(1).last() == parts.last());
        assert(parts.drop_last().first() == parts.first());
        assert(concat(parts) =~= parts.first() + concat(parts.skip(1)));
    }
}

/// Joins all clusters but the first.
pub fn join_all_but_first(clusters: &Vec<String>) -> (kept: String)
    ensures
        kept@ == all_but_first(views(clusters@)),
{
    let len: usize = clusters.len();
    let mut kept = String::new();
    if len == 0 {
        return kept;
    }
    let ghost rest = views(clusters@).skip(1);
    let mut i: usize = 1;
    proof {
        assert(rest.take(0) =~= Seq::<Seq<char>>::empty());
    }
    while i < len
        invariant
            1 <= i <= len,
            len == clusters@.len(),
            rest == views(clusters@).skip(1),
            kept@ == concat(rest.take(i - 1)),
        decreases len - i,
    {
        proof {
            lemma_concat_take(rest, i - 1);
            assert(rest[i - 1] == clusters@[i as int]@);
        }
        kept.append(clusters[i].as_str());
        i = i + 1;
    }
    proof {
        assert(rest.take(len - 1) =~= rest);
    }
    kept
}

/// Joins all clusters but the last.
pub fn join_all_but_last(clusters: &Vec<String>) -> (kept: String)
    ensures
        kept@ == all_but_last(views(clusters@)),
{
    let len: usize = clusters.len();
    let new_len: usize = if len > 0 { len - 1 } else { 0 };
    let mut kept = String::new();
    let mut i: usize = 0;
    proof {
        assert(views(clusters@).take(0) =~= Seq::<Seq<char>>::empty());
    }
    while i < new_len
        invariant
            0 <= i <= new_len,
            new_len <= clusters@.len(),
            kept@ == concat(views(clusters@).take(i as int)),
        decreases new_len - i,
    {
        proof {
            lemma_concat_take(views(clusters@), i as int);
        }
        kept.append(clusters[i].as_str());
        i = i + 1;
    }
    proof {
        if len > 0 {
            assert(views(clusters@).take(new_len as int) =~= views(clusters@).drop_last());
        }
    }
    kept
}

/// Removes the last grapheme cluster of `content`.
///
/// What is left is a prefix of `content`, and a shorter one unless `content`
/// was empty already.
pub fn drop_last_grapheme(content: &str) -> (kept: String)
    ensures
        kept@ == without_last_grapheme(content@),
        kept@.len() <= content@.len(),
        kept@ == content@.take(kept@.len() as int),
        content@.len() > 0 ==> kept@.len() < content@.len(),
{
    let clusters = graphemes(content);
    let kept = join_all_but_last(&clusters);
    proof {
        let parts = views(clusters@);
        if parts.len() > 0 {
            assert(parts.last() == clusters@[clusters@.len() - 1]@);
            assert(content@ == kept@ + parts.last());
            assert(kept@ =~= content@.take(kept@.len() as int));
        } else {
            assert(content@.len() == 0);
            assert(kept@ =~= content@.take(0));
        }
        if content@.len() == 0 {
            assert(kept@ =~= content@);
        }
    }
    kept
}

/// Splits `content` before its last grapheme cluster.
///
/// The two parts joined give `content` back, and the second is empty only if
/// `content` is.
pub fn split_last_grapheme(content: &str) -> (parts: (String, String))
    ensures
        parts.0@ == without_last_grapheme(content@),
        parts.1@ == last_grapheme(content@),
        parts.0@ + parts.1@ == content@,
        content@.len() > 0 ==> parts.1@.len() > 0,
{
    let clusters = graphemes(content);
    let kept = join_all_but_last(&clusters);
    let len: usize = clusters.len();
    let ghost pieces = views(clusters@);
    if len == 0 {
        let last = String::new();
        assert(kept@ + last@ =~= content@);
        return (kept, last);
    }
    let last = clusters[len - 1].clone();
    proof {
        assert(pieces.last() == clusters@[len - 1]@);
        assert(content@ == kept@ + pieces.last());
    }
    (kept, last)
}

/// Splits `content` after its first grapheme cluster.
///
/// The two parts joined give `content` back, and the first is empty only if
/// `content` is.
pub fn split_first_grapheme(content: &str) -> (parts: (String, String))
    ensures
        parts.0@ == first_grapheme(content@),
        parts.1@ == without_first_grapheme(content@),
        parts.0@ + parts.1@ == content@,
        content@.len() > 0 ==> parts.0@.len() > 0,
{
    let clusters = graphemes(content);
    let rest = join_all_but_first(&clusters);
    let len: usize = clusters.len();
    let ghost pieces = views(clusters@);
    if len == 0 {
        let first = String::new();
        assert(first@ + rest@ =~= content@);
        return (first, rest);
    }
    let first = clusters[0].clone();
    proof {
        assert(pieces.first() == clusters@[0]@);
        lemma_concat_first(pieces);
    }
    (first, rest)
}

/// Deleting from empty text leaves it empty, however often it is done.
pub proof fn lemma_deleting_from_empty(count: nat)
    ensures
        without_last_graphemes(Seq::empty(), count) == Seq::<char>::empty(),
    decreases count,
{
    if count > 0 {
        lemma_deleting_from_empty((count - 1) as nat);
    }
}

} // verus!
