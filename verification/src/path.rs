//! Paths inside a repository: non-empty names separated by `/`.
//!
//! A path is read as bytes. `/` is a single byte in UTF-8 and occurs in no
//! longer encoding, so splitting the bytes splits the text at the same
//! places.

use vstd::prelude::*;
use vstd::utf8::encode_utf8;

verus! {

/// The byte that separates the segments of a path.
pub const SEPARATOR: u8 = 0x2f;

/// The pieces of `bytes` between occurrences of `sep`, in order. There is one
/// piece more than there are separators, so the result is never empty.
pub open spec fn split(bytes: Seq<u8>, sep: u8) -> Seq<Seq<u8>>
    decreases bytes.len(),
{
    if bytes.len() == 0 {
        seq![Seq::<u8>::empty()]
    } else {
        let before = split(bytes.drop_last(), sep);
        if bytes.last() == sep {
            before.push(Seq::<u8>::empty())
        } else {
            before.drop_last().push(before.last().push(bytes.last()))
        }
    }
}

/// The pieces put together again, with `sep` between neighbours.
pub open spec fn join(pieces: Seq<Seq<u8>>, sep: u8) -> Seq<u8>
    decreases pieces.len(),
{
    if pieces.len() == 0 {
        Seq::<u8>::empty()
    } else if pieces.len() == 1 {
        pieces[0]
    } else {
        join(pieces.drop_last(), sep).push(sep) + pieces.last()
    }
}

/// A path as a mathematical value.
pub struct PathModel {
    /// The names to look up, outermost first.
    pub segments: Seq<Seq<u8>>,
    /// Whether the path was written with a `/` after its last name, which
    /// asks for a directory.
    pub directory: bool,
}

impl PathModel {
    /// There is at least one segment, none is empty and none holds a
    /// separator.
    pub open spec fn wf(self) -> bool {
        &&& self.segments.len() > 0
        &&& forall|i: int|
            0 <= i < self.segments.len() ==> (#[trigger] self.segments[i]).len() > 0
                && !self.segments[i].contains(SEPARATOR)
    }

    /// The bytes that this path is written as.
    pub open spec fn text(self) -> Seq<u8> {
        if self.directory {
            join(self.segments, SEPARATOR).push(SEPARATOR)
        } else {
            join(self.segments, SEPARATOR)
        }
    }
}

/// No piece is empty.
pub open spec fn all_nonempty(pieces: Seq<Seq<u8>>) -> bool {
    forall|i: int| 0 <= i < pieces.len() ==> (#[trigger] pieces[i]).len() > 0
}

/// The path that `bytes` spell, if they spell one: the pieces between the
/// separators, all of them non-empty. One separator after the last name is
/// allowed and marks a directory. The empty text spells no path.
pub open spec fn parse(bytes: Seq<u8>) -> Option<PathModel> {
    let pieces = split(bytes, SEPARATOR);
    let directory = pieces.len() >= 2 && pieces.last().len() == 0;
    let segments = if directory {
        pieces.drop_last()
    } else {
        pieces
    };
    if all_nonempty(segments) {
        Some(PathModel { segments, directory })
    } else {
        None
    }
}

/// The bytes of a text, in UTF-8.
pub open spec fn text_bytes(text: Seq<char>) -> Seq<u8> {
    encode_utf8(text)
}

/// The path that a text spells, if it spells one.
pub open spec fn parse_text(text: Seq<char>) -> Option<PathModel> {
    parse(text_bytes(text))
}

/// The views of the rows of `rows`.
pub open spec fn rows_view(rows: Seq<Vec<u8>>) -> Seq<Seq<u8>> {
    Seq::new(rows.len(), |i: int| rows[i]@)
}

/// `split` never returns an empty sequence.
pub proof fn lemma_split_nonempty(bytes: Seq<u8>, sep: u8)
    ensures
        split(bytes, sep).len() > 0,
    decreases bytes.len(),
{
    if bytes.len() > 0 {
        lemma_split_nonempty(bytes.drop_last(), sep);
    }
}

/// No piece of a split holds the separator.
pub proof fn lemma_split_pieces_hold_no_separator(bytes: Seq<u8>, sep: u8)
    ensures
        forall|i: int|
            0 <= i < split(bytes, sep).len() ==> !(#[trigger] split(bytes, sep)[i]).contains(sep),
    decreases bytes.len(),
{
    if bytes.len() > 0 {
        let before = split(bytes.drop_last(), sep);
        lemma_split_nonempty(bytes.drop_last(), sep);
        lemma_split_pieces_hold_no_separator(bytes.drop_last(), sep);
        if bytes.last() != sep {
            let grown = before.last().push(bytes.last());
            assert forall|k: int| 0 <= k < grown.len() implies grown[k] != sep by {
                if k < before.last().len() {
                    assert(before.last().contains(grown[k]));
                }
            }
        }
    }
}

/// Joining the pieces of a split gives the bytes back.
pub proof fn lemma_join_split(bytes: Seq<u8>, sep: u8)
    ensures
        join(split(bytes, sep), sep) == bytes,
    decreases bytes.len(),
{
    if bytes.len() == 0 {
        assert(split(bytes, sep)[0] == bytes);
    } else {
        let shorter = bytes.drop_last();
        let before = split(shorter, sep);
        lemma_split_nonempty(shorter, sep);
        lemma_join_split(shorter, sep);
        if bytes.last() == sep {
            let pieces = before.push(Seq::<u8>::empty());
            assert(pieces.drop_last() == before);
            assert(join(pieces, sep) == join(before, sep).push(sep) + Seq::<u8>::empty());
            assert(join(pieces, sep) == shorter.push(sep));
            assert(shorter.push(sep) == bytes);
        } else {
            let grown = before.last().push(bytes.last());
            let pieces = before.drop_last().push(grown);
            if before.len() == 1 {
                assert(join(before, sep) == before[0]);
                assert(join(pieces, sep) == grown);
                assert(grown == shorter.push(bytes.last()));
            } else {
                assert(pieces.drop_last() == before.drop_last());
                assert(join(pieces, sep) == join(before.drop_last(), sep).push(sep) + grown);
                assert(join(before, sep) == join(before.drop_last(), sep).push(sep)
                    + before.last());
                assert(join(pieces, sep) == join(before, sep).push(bytes.last()));
            }
            assert(shorter.push(bytes.last()) == bytes);
        }
    }
}

/// A path inside a repository, parsed.
pub struct RepoPath {
    segments: Vec<Vec<u8>>,
    directory: bool,
}

impl View for RepoPath {
    type V = PathModel;

    closed spec fn view(&self) -> PathModel {
        PathModel { segments: rows_view(self.segments@), directory: self.directory }
    }
}

impl RepoPath {
    /// Reads a path. Succeeds exactly on the texts that spell one.
    pub fn parse(path: &str) -> (parsed: Option<RepoPath>)
        ensures
            parsed is Some <==> parse_text(path@) is Some,
            parsed matches Some(p) ==> p@ == parse_text(path@)->0 && p@.wf(),
    {
        let bytes = path.as_bytes();
        let mut segments: Vec<Vec<u8>> = Vec::new();
        let mut current: Vec<u8> = Vec::new();
        let mut i: usize = 0;
        while i < bytes.len()
            invariant
                i <= bytes@.len(),
                split(bytes@.take(i as int), SEPARATOR) == rows_view(segments@).push(current@),
            decreases bytes@.len() - i,
        {
            let b = bytes[i];
            proof {
                let upto = bytes@.take(i as int + 1);
                assert(upto.drop_last() == bytes@.take(i as int));
                assert(upto.last() == b);
                let before = rows_view(segments@).push(current@);
                assert(before.drop_last() == rows_view(segments@));
                assert(before.last() == current@);
            }
            if b == SEPARATOR {
                let ghost old_rows = rows_view(segments@);
                segments.push(current);
                current = Vec::new();
                proof {
                    assert(rows_view(segments@) == old_rows.push(segments@.last()@));
                    assert(current@ == Seq::<u8>::empty());
                }
            } else {
                current.push(b);
            }
            i += 1;
        }
        proof {
            assert(bytes@.take(i as int) == bytes@);
            lemma_split_pieces_hold_no_separator(bytes@, SEPARATOR);
        }
        let ghost pieces = split(bytes@, SEPARATOR);
        proof {
            assert(pieces.len() == segments@.len() + 1);
            assert(pieces.last() == current@);
        }
        let directory = segments.len() >= 1 && current.len() == 0;
        if !directory {
            segments.push(current);
            proof {
                assert(rows_view(segments@) == pieces);
            }
        } else {
            proof {
                assert(pieces.drop_last() == rows_view(segments@));
            }
        }
        let ghost wanted = if directory {
            pieces.drop_last()
        } else {
            pieces
        };
        assert(rows_view(segments@) == wanted);
        assert(directory == (pieces.len() >= 2 && pieces.last().len() == 0));
        let ghost target = parse_text(path@);
        assert(target == if all_nonempty(wanted) {
            Some(PathModel { segments: wanted, directory })
        } else {
            None
        });
        let mut j: usize = 0;
        while j < segments.len()
            invariant
                j <= segments@.len(),
                rows_view(segments@) == wanted,
                forall|k: int| 0 <= k < j ==> (#[trigger] wanted[k]).len() > 0,
                target == parse_text(path@),
                target == if all_nonempty(wanted) {
                    Some(PathModel { segments: wanted, directory })
                } else {
                    None
                },
            decreases segments@.len() - j,
        {
            if segments[j].len() == 0 {
                proof {
                    assert(wanted[j as int] == segments@[j as int]@);
                    assert(wanted[j as int].len() == 0);
                }
                return None;
            }
            proof {
                assert(wanted[j as int] == segments@[j as int]@);
            }
            j += 1;
        }
        let parsed = RepoPath { segments, directory };
        proof {
            assert(parsed@.segments == wanted);
            assert forall|k: int| 0 <= k < wanted.len() implies (#[trigger] wanted[k]).len() > 0
                && !wanted[k].contains(SEPARATOR) by {
                assert(wanted[k] == pieces[k]);
            }
        }
        Some(parsed)
    }

    /// How many names the path has.
    pub fn len(&self) -> (n: usize)
        ensures
            n == self@.segments.len(),
    {
        self.segments.len()
    }

    /// The name at a position, outermost first.
    pub fn segment(&self, index: usize) -> (name: &[u8])
        requires
            index < self@.segments.len(),
        ensures
            name@ == self@.segments[index as int],
    {
        self.segments[index].as_slice()
    }

    /// Whether the path asks for a directory.
    pub fn directory(&self) -> (flag: bool)
        ensures
            flag == self@.directory,
    {
        self.directory
    }
}

} // verus!
