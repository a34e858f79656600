//! Derivation of the destination key from the key of the source object.

use vstd::prelude::*;
use vstd::std_specs::iter::IteratorSpec;
use vstd::string::StrSliceExecFns;
use vstd::string::StringExecFns;

verus! {

/// The pieces of `key` between its slashes, in order. A key without a slash
/// is one segment; a leading, trailing or doubled slash gives an empty one.
pub open spec fn segments(key: Seq<char>) -> Seq<Seq<char>>
    decreases key.len(),
{
    if key.len() == 0 {
        seq![Seq::<char>::empty()]
    } else {
        let before = segments(key.drop_last());
        if key.last() == '/' {
            before.push(Seq::<char>::empty())
        } else {
            before.update(before.len() - 1, before.last().push(key.last()))
        }
    }
}

/// The number of slashes in `key`.
pub open spec fn slash_count(key: Seq<char>) -> nat
    decreases key.len(),
{
    if key.len() == 0 {
        0
    } else if key.last() == '/' {
        slash_count(key.drop_last()) + 1
    } else {
        slash_count(key.drop_last())
    }
}

/// The segments in `parts` with a slash between each two of them.
pub open spec fn joined(parts: Seq<Seq<char>>) -> Seq<char>
    decreases parts.len(),
{
    if parts.len() == 0 {
        Seq::empty()
    } else if parts.len() == 1 {
        parts[0]
    } else {
        joined(parts.drop_last()) + seq!['/'] + parts.last()
    }
}

/// The text `/images/`, which goes between the two segments of a key.
pub open spec fn images_infix() -> Seq<char> {
    "/images/"@
}

/// The text `images/`, which goes in front of every other key.
pub open spec fn images_prefix() -> Seq<char> {
    "images/"@
}

/// The destination key of `key`: a key of exactly two segments, neither of
/// them empty, gets `images` as a segment between them. Every other key is
/// kept whole under `images/`, and so is a key with one slash at its start
/// or at its end.
pub open spec fn mapped_key(key: Seq<char>) -> Seq<char> {
    let parts = segments(key);
    if parts.len() == 2 && parts[0].len() > 0 && parts[1].len() > 0 {
        parts[0] + images_infix() + parts[1]
    } else {
        images_prefix() + key
    }
}

/// Derives the destination key of a source key.
pub fn map_key(source_key: &str) -> (destination: String)
    ensures
        destination@ == mapped_key(source_key@),
{
    let length: usize = source_key.unicode_len();
    let mut chars = source_key.chars();
    let mut slashes: usize = 0;
    let mut first_slash: usize = 0;
    let mut at: usize = 0;
    while at < length
        invariant
            length == source_key@.len(),
            at <= length,
            chars.obeys_prophetic_iter_laws(),
            chars.remaining() == source_key@.skip(at as int),
            slashes <= at,
            segments(source_key@.take(at as int)).len() == slashes + 1,
            slashes == 1 ==> first_slash < at && segments(source_key@.take(at as int)) == seq![
                source_key@.take(first_slash as int),
                source_key@.subrange(first_slash + 1, at as int),
            ],
        decreases length - at,
    {
        let next = chars.next();
        proof {
            let upto = source_key@.take(at + 1);
            assert(upto.drop_last() == source_key@.take(at as int));
            assert(upto.last() == source_key@[at as int]);
            assert(source_key@.skip(at as int).drop_first() == source_key@.skip(at + 1));
            if slashes == 1 {
                assert(source_key@.subrange(first_slash + 1, at as int).push(
                    source_key@[at as int],
                ) == source_key@.subrange(first_slash + 1, at + 1));
            }
            assert(source_key@.subrange(at + 1, at + 1) == Seq::<char>::empty());
        }
        if next == Some('/') {
            if slashes == 0 {
                first_slash = at;
                proof {
                    let front = source_key@.take(at as int);
                    lemma_segments_split_the_key(front);
                    assert(segments(front) =~= seq![front]);
                }
            }
            slashes = slashes + 1;
        }
        at = at + 1;
    }
    proof {
        assert(source_key@.take(length as int) == source_key@);
    }
    if slashes == 1 && first_slash > 0 && first_slash + 1 < length {
        let head = source_key.substring_char(0, first_slash);
        let tail = source_key.substring_char(first_slash + 1, length);
        String::from_str(head).concat("/images/").concat(tail)
    } else {
        String::from_str("images/").concat(source_key)
    }
}

/// The segments of a key are its split at the slashes: there is one more
/// of them than there are slashes, none of them holds a slash, and with the
/// slashes put back between them they make up the key.
pub proof fn lemma_segments_split_the_key(key: Seq<char>)
    ensures
        segments(key).len() == slash_count(key) + 1,
        forall|i: int|
            0 <= i < segments(key).len() ==> !(#[trigger] segments(key)[i]).contains('/'),
        joined(segments(key)) == key,
    decreases key.len(),
{
    if key.len() == 0 {
        assert(joined(segments(key)) =~= key);
    } else {
        let front = key.drop_last();
        let before = segments(front);
        lemma_segments_split_the_key(front);
        assert(front.push(key.last()) =~= key);
        if key.last() == '/' {
            let parts = before.push(Seq::<char>::empty());
            assert(parts.drop_last() =~= before);
            assert(joined(parts) =~= front.push('/'));
        } else {
            let last = before.last().push(key.last());
            let parts = before.update(before.len() - 1, last);
            assert forall|i: int| 0 <= i < parts.len() implies !(#[trigger] parts[i]).contains(
                '/',
            ) by {
                if i == parts.len() - 1 {
                    assert(!before.last().contains('/'));
                    assert(forall|j: int|
                        0 <= j < last.len() - 1 ==> last[j] == before.last()[j]);
                }
            }
            if before.len() == 1 {
                assert(joined(parts) =~= front.push(key.last()));
            } else {
                assert(parts.drop_last() =~= before.drop_last());
                assert(joined(parts) =~= joined(before).push(key.last()));
            }
        }
    }
}

/// A key with exactly one slash has as its segments what stands before the
/// slash and what stands after it.
pub proof fn lemma_segments_around_one_slash(head: Seq<char>, tail: Seq<char>)
    requires
        !head.contains('/'),
        !tail.contains('/'),
    ensures
        segments(head + seq!['/'] + tail) == seq![head, tail],
    decreases tail.len(),
{
    let key = head + seq!['/'] + tail;
    if tail.len() == 0 {
        assert(key.drop_last() =~= head);
        lemma_segments_without_slash(head);
        assert(tail =~= Seq::<char>::empty());
    } else {
        assert(key.drop_last() =~= head + seq!['/'] + tail.drop_last());
        assert(key.last() == tail.last());
        assert(tail.contains(tail.last()));
        assert forall|c: char| tail.drop_last().contains(c) implies tail.contains(c) by {
            let i = choose|i: int| 0 <= i < tail.drop_last().len() && tail.drop_last()[i] == c;
            assert(tail[i] == c);
        }
        lemma_segments_around_one_slash(head, tail.drop_last());
        assert(tail.drop_last().push(tail.last()) =~= tail);
    }
}

/// A key without a slash is its own single segment.
pub proof fn lemma_segments_without_slash(key: Seq<char>)
    requires
        !key.contains('/'),
    ensures
        segments(key) == seq![key],
    decreases key.len(),
{
    if key.len() == 0 {
        assert(key =~= Seq::<char>::empty());
    } else {
        assert(key.contains(key.last()));
        assert forall|c: char| key.drop_last().contains(c) implies key.contains(c) by {
            let i = choose|i: int| 0 <= i < key.drop_last().len() && key.drop_last()[i] == c;
            assert(key[i] == c);
        }
        lemma_segments_without_slash(key.drop_last());
        assert(key.drop_last().push(key.last()) =~= key);
    }
}

/// A key of the form `head/tail`, with something on both sides of its only
/// slash, is mapped to `head/images/tail`.
pub proof fn lemma_one_slash_inserts_images(head: Seq<char>, tail: Seq<char>)
    requires
        !head.contains('/'),
        !tail.contains('/'),
        head.len() > 0,
        tail.len() > 0,
    ensures
        mapped_key(head + seq!['/'] + tail) == head + "/images/"@ + tail,
{
    lemma_segments_around_one_slash(head, tail);
}

/// A key whose only slash stands at its start or at its end has an empty
/// segment and is mapped to itself under `images/`: `head/` goes to
/// `images/head/`, `/tail` to `images//tail` and `/` to `images//`.
pub proof fn lemma_empty_side_goes_under_images(head: Seq<char>, tail: Seq<char>)
    requires
        !head.contains('/'),
        !tail.contains('/'),
        head.len() == 0 || tail.len() == 0,
    ensures
        mapped_key(head + seq!['/'] + tail) == "images/"@ + (head + seq!['/'] + tail),
{
    lemma_segments_around_one_slash(head, tail);
}

/// A key with no slash, or with two and more, is mapped to itself under
/// `images/`, slashes and all. The empty key is among them.
pub proof fn lemma_other_keys_go_under_images(key: Seq<char>)
    requires
        slash_count(key) != 1,
    ensures
        mapped_key(key) == "images/"@ + key,
{
    lemma_segments_split_the_key(key);
}

/// `images` is put in for the keys with exactly one slash and something on
/// both sides of it, and for no others.
pub proof fn lemma_images_is_inserted_only_between_two_segments(key: Seq<char>)
    ensures
        mapped_key(key) != "images/"@ + key ==> slash_count(key) == 1 && key.first() != '/'
            && key.last() != '/',
{
    lemma_segments_split_the_key(key);
    let parts = segments(key);
    if parts.len() == 2 && parts[0].len() > 0 && parts[1].len() > 0 {
        lemma_first_and_last_of_two_segments(key);
    }
}

/// A key of two segments, neither of them empty, neither starts nor ends
/// with a slash.
proof fn lemma_first_and_last_of_two_segments(key: Seq<char>)
    requires
        segments(key).len() == 2,
        segments(key)[0].len() > 0,
        segments(key)[1].len() > 0,
    ensures
        key.len() > 0,
        key.first() != '/',
        key.last() != '/',
{
    lemma_segments_split_the_key(key);
    let parts = segments(key);
    assert(parts.drop_last() =~= seq![parts[0]]);
    assert(joined(parts.drop_last()) == parts[0]);
    assert(key =~= parts[0] + seq!['/'] + parts[1]);
    assert(key.first() == parts[0][0]);
    assert(key.last() == parts[1].last());
    assert(parts[0].contains(parts[0][0]));
    assert(parts[1].contains(parts[1].last()));
}

} // verus!
