//! The tag pipeline's data model and field-update rule.
//!
//! A tag edit carries four optional fields; an absent field leaves the
//! file's value unchanged. The title supports two sentinel values: `keep`,
//! an explicit no-op, and `filename`, which derives the title from the
//! file's stem. `apply_view` is the one rule every tag mutation follows,
//! whether on a snapshot or on a real tag container.

use vstd::prelude::*;
use crate::names::{spec_stem, str_eq};

verus! {

/// The four tag fields as mathematical values: each present or absent.
#[verifier::ext_equal]
pub ghost struct TagView {
    pub album: Option<Seq<char>>,
    pub artist: Option<Seq<char>>,
    pub title: Option<Seq<char>>,
    pub genre: Option<Seq<char>>,
}

/// The four string-valued fields read from a file's tag container, each
/// independently present or absent. Read fresh before a mutation and
/// reconstructed fresh for display, never persisted on its own.
#[derive(Debug, Clone, PartialEq, Eq)]
pub struct TagSnapshot {
    pub album: Option<String>,
    pub artist: Option<String>,
    pub title: Option<String>,
    pub genre: Option<String>,
}

impl View for TagSnapshot {
    type V = TagView;

    open spec fn view(&self) -> TagView {
        TagView {
            album: match self.album {
                Some(s) => Some(s@),
                None => None,
            },
            artist: match self.artist {
                Some(s) => Some(s@),
                None => None,
            },
            title: match self.title {
                Some(s) => Some(s@),
                None => None,
            },
            genre: match self.genre {
                Some(s) => Some(s@),
                None => None,
            },
        }
    }
}

/// One tag-edit invocation: which files qualify, and the field overrides to
/// apply. Constructed once, read-only afterwards.
#[derive(Debug, Clone)]
pub struct TagEditArgs {
    pub file_type: String,
    pub album: Option<String>,
    pub artist: Option<String>,
    pub title: Option<String>,
    pub genre: Option<String>,
}

/// What the configured title field makes of the current title: `keep`
/// leaves it, `filename` takes the file's stem, any other string overwrites,
/// and an absent field changes nothing.
pub open spec fn apply_title(
    setting: Option<String>,
    current: Option<Seq<char>>,
    stem: Seq<char>,
) -> Option<Seq<char>> {
    match setting {
        None => current,
        Some(t) => if t@ == "keep"@ {
            current
        } else if t@ == "filename"@ {
            Some(stem)
        } else {
            Some(t@)
        },
    }
}

impl TagEditArgs {
    /// Build an edit that overrides all four fields.
    pub fn new(file_type: &str, album: &str, artist: &str, title: &str, genre: &str) -> (r: Self)
        ensures
            r.file_type@ == file_type@,
            r.album matches Some(a) && a@ == album@,
            r.artist matches Some(a) && a@ == artist@,
            r.title matches Some(t) && t@ == title@,
            r.genre matches Some(g) && g@ == genre@,
    {
        TagEditArgs {
            file_type: file_type.to_owned(),
            album: Some(album.to_owned()),
            artist: Some(artist.to_owned()),
            title: Some(title.to_owned()),
            genre: Some(genre.to_owned()),
        }
    }

    /// The tag values this edit leaves behind, given the values found and
    /// the stem of the file's name.
    pub open spec fn apply_view(self, current: TagView, stem: Seq<char>) -> TagView {
        TagView {
            album: match self.album {
                Some(a) => Some(a@),
                None => current.album,
            },
            artist: match self.artist {
                Some(a) => Some(a@),
                None => current.artist,
            },
            title: apply_title(self.title, current.title, stem),
            genre: match self.genre {
                Some(g) => Some(g@),
                None => current.genre,
            },
        }
    }

    /// Apply the edit to a snapshot of a file's tags. `file_name` is the
    /// file's base name; the `filename` title mode strips its extension.
    pub fn apply_to_snapshot(&self, current: &TagSnapshot, file_name: &str) -> (r: TagSnapshot)
        ensures
            r@ == self.apply_view(current@, spec_stem(file_name@)),
    {
        let album = match &self.album {
            Some(a) => Some(a.clone()),
            None => current.album.clone(),
        };
        let artist = match &self.artist {
            Some(a) => Some(a.clone()),
            None => current.artist.clone(),
        };
        let genre = match &self.genre {
            Some(g) => Some(g.clone()),
            None => current.genre.clone(),
        };
        let title = match &self.title {
            Some(t) => {
                if str_eq(t.as_str(), "keep") {
                    current.title.clone()
                } else if str_eq(t.as_str(), "filename") {
                    Some(crate::names::stem_of(file_name))
                } else {
                    Some(t.clone())
                }
            },
            None => current.title.clone(),
        };
        let r = TagSnapshot { album, artist, title, genre };
        proof {
            assert(r@ =~= self.apply_view(current@, spec_stem(file_name@)));
        }
        r
    }

    /// Whether one file qualifies for this edit: its extension equals the
    /// configured suffix exactly.
    pub fn matches_file_type(&self, file_name: &str) -> (r: bool)
        ensures
            r == (crate::names::spec_extension(file_name@) == Some(self.file_type@)),
    {
        match crate::names::extension_of(file_name) {
            Some(e) => str_eq(e.as_str(), self.file_type.as_str()),
            None => false,
        }
    }

    /// Select the files of a directory listing this edit applies to: entry
    /// `i` of the result says whether the name at index `i` qualifies.
    /// Per-file mutation failures do not abort the batch; the loop that
    /// carries the edits out proceeds past them.
    pub fn tag_all(&self, names: &Vec<String>) -> (sel: Vec<bool>)
        ensures
            sel@.len() == names@.len(),
            forall|i: int|
                0 <= i < names@.len() ==> #[trigger] sel@[i] == (crate::names::spec_extension(
                    names@[i]@,
                ) == Some(self.file_type@)),
    {
        let mut sel: Vec<bool> = Vec::new();
        let mut i: usize = 0;
        while i < names.len()
            invariant
                i <= names@.len(),
                sel@.len() == i,
                forall|k: int|
                    0 <= k < i ==> #[trigger] sel@[k] == (crate::names::spec_extension(
                        names@[k]@,
                    ) == Some(self.file_type@)),
            decreases names@.len() - i,
        {
            let m = self.matches_file_type(names[i].as_str());
            sel.push(m);
            i = i + 1;
        }
        sel
    }
}

/// How many names of a listing carry the extension `ft`.
pub open spec fn count_matching(names: Seq<String>, ft: Seq<char>) -> nat
    decreases names.len(),
{
    if names.len() == 0 {
        0
    } else {
        (if crate::names::spec_extension(names[0]@) == Some(ft) {
            1nat
        } else {
            0nat
        }) + count_matching(names.skip(1), ft)
    }
}

/// How many files a selection picks.
pub open spec fn count_selected(sel: Seq<bool>) -> nat
    decreases sel.len(),
{
    if sel.len() == 0 {
        0
    } else {
        (if sel[0] {
            1nat
        } else {
            0nat
        }) + count_selected(sel.skip(1))
    }
}

/// Of `N` listed files of which `M` match the filter, a batch edit touches
/// exactly `M`: the selection picks as many files as carry the configured
/// extension, and no other file is handed to the mutation at all.
pub proof fn lemma_batch_touches_exactly_matching(names: Seq<String>, sel: Seq<bool>, ft: Seq<char>)
    requires
        sel.len() == names.len(),
        forall|i: int|
            0 <= i < names.len() ==> #[trigger] sel[i] == (crate::names::spec_extension(names[i]@)
                == Some(ft)),
    ensures
        count_selected(sel) == count_matching(names, ft),
    decreases names.len(),
{
    if names.len() > 0 {
        assert(sel[0] == (crate::names::spec_extension(names[0]@) == Some(ft)));
        assert(forall|i: int|
            0 <= i < names.skip(1).len() ==> #[trigger] sel.skip(1)[i] == (
            crate::names::spec_extension(names.skip(1)[i]@) == Some(ft))) by {
            assert(forall|i: int|
                0 <= i < names.skip(1).len() ==> #[trigger] names.skip(1)[i] == names[i + 1]
                    && sel.skip(1)[i] == sel[i + 1]);
        }
        lemma_batch_touches_exactly_matching(names.skip(1), sel.skip(1), ft);
    }
}

/// Applying one edit twice leaves the same tag values as applying it once:
/// no field accumulates.
pub proof fn lemma_apply_idempotent(args: TagEditArgs, current: TagView, stem: Seq<char>)
    ensures
        args.apply_view(args.apply_view(current, stem), stem) == args.apply_view(current, stem),
{
    assert(args.apply_view(args.apply_view(current, stem), stem) =~= args.apply_view(
        current,
        stem,
    ));
}

/// A configured field comes back exactly as configured: after the edit, the
/// album, artist and genre fields hold the configured values, and under the
/// `filename` title mode the title holds the stem.
pub proof fn lemma_fields_written(args: TagEditArgs, current: TagView, stem: Seq<char>)
    ensures
        args.album matches Some(a) ==> args.apply_view(current, stem).album == Some(a@),
        args.artist matches Some(a) ==> args.apply_view(current, stem).artist == Some(a@),
        args.genre matches Some(g) ==> args.apply_view(current, stem).genre == Some(g@),
        args.title matches Some(t) && t@ == "filename"@ ==> args.apply_view(
            current,
            stem,
        ).title == Some(stem),
{
    reveal_strlit("filename");
    reveal_strlit("keep");
    assert("filename"@.len() == 8);
    assert("keep"@.len() == 4);
}

} // verus!
