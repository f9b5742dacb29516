//! What a directory and a file hold, once they have been read.

use crate::trusted::{blob_bytes, name_at, text_from_utf8, tree_names};
use vstd::prelude::*;
use vstd::slice::slice_to_vec;
use vstd::utf8::{decode_utf8, valid_utf8};

verus! {

/// The texts of a list of strings.
pub open spec fn texts_view(texts: Seq<String>) -> Seq<Seq<char>> {
    Seq::new(texts.len(), |i: int| texts[i]@)
}

/// The names that are text, decoded, in the order in which they stand. A
/// name that is not valid UTF-8 is left out.
pub open spec fn text_names(names: Seq<Seq<u8>>) -> Seq<Seq<char>>
    decreases names.len(),
{
    if names.len() == 0 {
        Seq::<Seq<char>>::empty()
    } else if valid_utf8(names.last()) {
        text_names(names.drop_last()).push(decode_utf8(names.last()))
    } else {
        text_names(names.drop_last())
    }
}

/// Lists a directory: the names of the entries of `tree` itself, in the
/// order in which the tree stores them.
///
/// Every entry with a name that is text is listed, once, by its name alone:
/// a subdirectory appears as one name, and nothing that it holds appears.
pub fn list_names(tree: &git2::Tree) -> (names: Vec<String>)
    ensures
        texts_view(names@) == text_names(tree_names(*tree)),
{
    let count = tree.len();
    let mut names: Vec<String> = Vec::new();
    let mut i: usize = 0;
    proof {
        assert(tree_names(*tree).take(0) == Seq::<Seq<u8>>::empty());
        assert(texts_view(names@) == Seq::<Seq<char>>::empty());
    }
    while i < count
        invariant
            i <= count,
            count == tree_names(*tree).len(),
            texts_view(names@) == text_names(tree_names(*tree).take(i as int)),
        decreases count - i,
    {
        let ghost all = tree_names(*tree);
        let ghost listed = texts_view(names@);
        proof {
            let upto = all.take(i as int + 1);
            assert(upto.drop_last() == all.take(i as int));
            assert(upto.last() == all[i as int]);
        }
        match name_at(tree, i) {
            Some(bytes) => {
                match text_from_utf8(bytes) {
                    Ok(text) => {
                        names.push(text);
                        proof {
                            assert(texts_view(names@) == listed.push(text@));
                        }
                    },
                    Err(_) => {},
                }
            },
            None => {},
        }
        i += 1;
    }
    proof {
        assert(tree_names(*tree).take(i as int) == tree_names(*tree));
    }
    names
}

/// Reads a file: the bytes of `blob` as they are, none added, none dropped
/// and none changed.
pub fn file_bytes(blob: &git2::Blob) -> (bytes: Vec<u8>)
    ensures
        bytes@ == blob_bytes(*blob),
{
    slice_to_vec(blob.content())
}

} // verus!
