//! The tag container of the `id3` crate, and the verified edit applied to
//! it.
//!
//! A tag's four text fields are named by uninterpreted projections; each
//! `id3` method the pipeline calls stands behind one trusted wrapper whose
//! contract states, over those projections, what the crate's source shows.
//! `EditTags` then applies a `TagEditArgs` to a real tag, proved to follow
//! the same `apply_view` rule as the snapshot model.

use vstd::prelude::*;
use id3::TagLike;
use crate::names::spec_stem;
use crate::tags::{TagEditArgs, TagSnapshot, TagView};

verus! {

#[verifier::external_type_specification]
#[verifier::external_body]
pub struct ExTag(id3::Tag);

/// The album text (TALB frame) a tag holds.
pub uninterp spec fn tag_album(t: id3::Tag) -> Option<Seq<char>>;

/// The artist text (TPE1 frame) a tag holds.
pub uninterp spec fn tag_artist(t: id3::Tag) -> Option<Seq<char>>;

/// The title text (TIT2 frame) a tag holds.
pub uninterp spec fn tag_title(t: id3::Tag) -> Option<Seq<char>>;

/// The genre text (TCON frame) a tag holds.
pub uninterp spec fn tag_genre(t: id3::Tag) -> Option<Seq<char>>;

/// A frame with the TALB id stands in the tag, whatever its content.
pub uninterp spec fn has_album_frame(t: id3::Tag) -> bool;

/// A frame with the TPE1 id stands in the tag, whatever its content.
pub uninterp spec fn has_artist_frame(t: id3::Tag) -> bool;

/// A frame with the TIT2 id stands in the tag, whatever its content.
pub uninterp spec fn has_title_frame(t: id3::Tag) -> bool;

/// A frame with the TCON id stands in the tag, whatever its content.
pub uninterp spec fn has_genre_frame(t: id3::Tag) -> bool;

/// The four named fields of a tag, gathered as one value.
pub open spec fn tag_view(t: id3::Tag) -> TagView {
    TagView {
        album: tag_album(t),
        artist: tag_artist(t),
        title: tag_title(t),
        genre: tag_genre(t),
    }
}

/// The view of a tag with no frames.
pub open spec fn empty_tag_view() -> TagView {
    TagView { album: None, artist: None, title: None, genre: None }
}

/// Everything the pipeline tracks of a tag's album: its text and whether
/// any TALB frame is present at all. The other three fields read the same
/// way.
pub open spec fn album_state(t: id3::Tag) -> (Option<Seq<char>>, bool) {
    (tag_album(t), has_album_frame(t))
}

pub open spec fn artist_state(t: id3::Tag) -> (Option<Seq<char>>, bool) {
    (tag_artist(t), has_artist_frame(t))
}

pub open spec fn title_state(t: id3::Tag) -> (Option<Seq<char>>, bool) {
    (tag_title(t), has_title_frame(t))
}

pub open spec fn genre_state(t: id3::Tag) -> (Option<Seq<char>>, bool) {
    (tag_genre(t), has_genre_frame(t))
}

/// Relies on id3::Tag::new: a new tag holds no frames, so no text field.
#[verifier::external_body]
fn tag_new() -> (t: id3::Tag)
    ensures
        tag_view(t) == empty_tag_view(),
        !has_album_frame(t),
        !has_artist_frame(t),
        !has_title_frame(t),
        !has_genre_frame(t),
{
    id3::Tag::new()
}

/// Relies on id3::TagLike::album: the text of the TALB frame, if one holds
/// text.
#[verifier::external_body]
fn tag_album_get(t: &id3::Tag) -> (r: Option<String>)
    ensures
        match r {
            Some(s) => tag_album(*t) == Some(s@),
            None => tag_album(*t) is None,
        },
{
    match t.album() {
        Some(s) => Some(s.to_string()),
        None => None,
    }
}

/// Relies on id3::TagLike::artist: the text of the TPE1 frame, if one holds
/// text.
#[verifier::external_body]
fn tag_artist_get(t: &id3::Tag) -> (r: Option<String>)
    ensures
        match r {
            Some(s) => tag_artist(*t) == Some(s@),
            None => tag_artist(*t) is None,
        },
{
    match t.artist() {
        Some(s) => Some(s.to_string()),
        None => None,
    }
}

/// Relies on id3::TagLike::title: the text of the TIT2 frame, if one holds
/// text.
#[verifier::external_body]
fn tag_title_get(t: &id3::Tag) -> (r: Option<String>)
    ensures
        match r {
            Some(s) => tag_title(*t) == Some(s@),
            None => tag_title(*t) is None,
        },
{
    match t.title() {
        Some(s) => Some(s.to_string()),
        None => None,
    }
}

/// Relies on id3::TagLike::genre: the text of the TCON frame, if one holds
/// text.
#[verifier::external_body]
fn tag_genre_get(t: &id3::Tag) -> (r: Option<String>)
    ensures
        match r {
            Some(s) => tag_genre(*t) == Some(s@),
            None => tag_genre(*t) is None,
        },
{
    match t.genre() {
        Some(s) => Some(s.to_string()),
        None => None,
    }
}

/// Relies on id3::TagLike::remove_album: every frame with the TALB id is
/// removed and no frame of another id is touched.
#[verifier::external_body]
fn tag_album_remove(t: &mut id3::Tag)
    ensures
        tag_album(*final(t)) is None,
        !has_album_frame(*final(t)),
        artist_state(*final(t)) == artist_state(*old(t)),
        title_state(*final(t)) == title_state(*old(t)),
        genre_state(*final(t)) == genre_state(*old(t)),
{
    t.remove_album()
}

/// Relies on id3::TagLike::remove_artist: every frame with the TPE1 id is
/// removed and no frame of another id is touched.
#[verifier::external_body]
fn tag_artist_remove(t: &mut id3::Tag)
    ensures
        tag_artist(*final(t)) is None,
        !has_artist_frame(*final(t)),
        album_state(*final(t)) == album_state(*old(t)),
        title_state(*final(t)) == title_state(*old(t)),
        genre_state(*final(t)) == genre_state(*old(t)),
{
    t.remove_artist()
}

/// Relies on id3::TagLike::remove_title: every frame with the TIT2 id is
/// removed and no frame of another id is touched.
#[verifier::external_body]
fn tag_title_remove(t: &mut id3::Tag)
    ensures
        tag_title(*final(t)) is None,
        !has_title_frame(*final(t)),
        album_state(*final(t)) == album_state(*old(t)),
        artist_state(*final(t)) == artist_state(*old(t)),
        genre_state(*final(t)) == genre_state(*old(t)),
{
    t.remove_title()
}

/// Relies on id3::TagLike::remove_genre: every frame with the TCON id is
/// removed and no frame of another id is touched.
#[verifier::external_body]
fn tag_genre_remove(t: &mut id3::Tag)
    ensures
        tag_genre(*final(t)) is None,
        !has_genre_frame(*final(t)),
        album_state(*final(t)) == album_state(*old(t)),
        artist_state(*final(t)) == artist_state(*old(t)),
        title_state(*final(t)) == title_state(*old(t)),
{
    t.remove_genre()
}

/// Relies on id3::TagLike::set_album: with no TALB frame present at all,
/// the new text frame conflicts with nothing and is appended, so the album
/// reads back as `v`, and no frame of another id is touched.
#[verifier::external_body]
fn tag_album_set(t: &mut id3::Tag, v: &str)
    requires
        !has_album_frame(*old(t)),
    ensures
        tag_album(*final(t)) == Some(v@),
        has_album_frame(*final(t)),
        artist_state(*final(t)) == artist_state(*old(t)),
        title_state(*final(t)) == title_state(*old(t)),
        genre_state(*final(t)) == genre_state(*old(t)),
{
    t.set_album(v)
}

/// Relies on id3::TagLike::set_artist: with no TPE1 frame present at all,
/// the new text frame conflicts with nothing and is appended, so the artist
/// reads back as `v`, and no frame of another id is touched.
#[verifier::external_body]
fn tag_artist_set(t: &mut id3::Tag, v: &str)
    requires
        !has_artist_frame(*old(t)),
    ensures
        tag_artist(*final(t)) == Some(v@),
        has_artist_frame(*final(t)),
        album_state(*final(t)) == album_state(*old(t)),
        title_state(*final(t)) == title_state(*old(t)),
        genre_state(*final(t)) == genre_state(*old(t)),
{
    t.set_artist(v)
}

/// Relies on id3::TagLike::set_title: with no TIT2 frame present at all,
/// the new text frame conflicts with nothing and is appended, so the title
/// reads back as `v`, and no frame of another id is touched.
#[verifier::external_body]
fn tag_title_set(t: &mut id3::Tag, v: &str)
    requires
        !has_title_frame(*old(t)),
    ensures
        tag_title(*final(t)) == Some(v@),
        has_title_frame(*final(t)),
        album_state(*final(t)) == album_state(*old(t)),
        artist_state(*final(t)) == artist_state(*old(t)),
        genre_state(*final(t)) == genre_state(*old(t)),
{
    t.set_title(v)
}

/// Relies on id3::TagLike::set_genre: with no TCON frame present at all,
/// the new text frame conflicts with nothing and is appended, so the genre
/// reads back as `v`, and no frame of another id is touched.
#[verifier::external_body]
fn tag_genre_set(t: &mut id3::Tag, v: &str)
    requires
        !has_genre_frame(*old(t)),
    ensures
        tag_genre(*final(t)) == Some(v@),
        has_genre_frame(*final(t)),
        album_state(*final(t)) == album_state(*old(t)),
        artist_state(*final(t)) == artist_state(*old(t)),
        title_state(*final(t)) == title_state(*old(t)),
{
    t.set_genre(v)
}

/// The degrade rule for reading a file's tag: a tag that was read is used
/// as found, and any failure to read one, container absent or unreadable,
/// starts from an empty tag instead. Read failures are tolerated, never
/// fatal.
pub fn prepare_tag(loaded: Option<id3::Tag>) -> (t: id3::Tag)
    ensures
        tag_view(t) == match loaded {
            Some(found) => tag_view(found),
            None => empty_tag_view(),
        },
{
    match loaded {
        Some(found) => found,
        None => tag_new(),
    }
}

/// Overwrite one field of a real tag: clear it, then set it, so the field
/// reads back as `v` whatever the tag held.
fn overwrite_album(t: &mut id3::Tag, v: &str)
    ensures
        tag_album(*final(t)) == Some(v@),
        tag_artist(*final(t)) == tag_artist(*old(t)),
        tag_title(*final(t)) == tag_title(*old(t)),
        tag_genre(*final(t)) == tag_genre(*old(t)),
{
    tag_album_remove(t);
    tag_album_set(t, v);
}

fn overwrite_artist(t: &mut id3::Tag, v: &str)
    ensures
        tag_artist(*final(t)) == Some(v@),
        tag_album(*final(t)) == tag_album(*old(t)),
        tag_title(*final(t)) == tag_title(*old(t)),
        tag_genre(*final(t)) == tag_genre(*old(t)),
{
    tag_artist_remove(t);
    tag_artist_set(t, v);
}

fn overwrite_title(t: &mut id3::Tag, v: &str)
    ensures
        tag_title(*final(t)) == Some(v@),
        tag_album(*final(t)) == tag_album(*old(t)),
        tag_artist(*final(t)) == tag_artist(*old(t)),
        tag_genre(*final(t)) == tag_genre(*old(t)),
{
    tag_title_remove(t);
    tag_title_set(t, v);
}

fn overwrite_genre(t: &mut id3::Tag, v: &str)
    ensures
        tag_genre(*final(t)) == Some(v@),
        tag_album(*final(t)) == tag_album(*old(t)),
        tag_artist(*final(t)) == tag_artist(*old(t)),
        tag_title(*final(t)) == tag_title(*old(t)),
{
    tag_genre_remove(t);
    tag_genre_set(t, v);
}

/// Apply a tag edit to a file's tag container. `file_name` is the file's
/// base name; the `filename` title mode sets the title to its stem. The tag
/// ends up exactly as the edit's `apply_view` rule prescribes.
#[allow(non_snake_case)]
pub fn EditTags(tag: &mut id3::Tag, args: &TagEditArgs, file_name: &str)
    ensures
        tag_view(*final(tag)) == args.apply_view(tag_view(*old(tag)), spec_stem(file_name@)),
{
    if let Some(album) = &args.album {
        overwrite_album(tag, album.as_str());
    }
    if let Some(artist) = &args.artist {
        overwrite_artist(tag, artist.as_str());
    }
    match &args.title {
        Some(title) => {
            if crate::names::str_eq(title.as_str(), "keep") {
                // an explicit no-op: the current title stays, present or not
            } else if crate::names::str_eq(title.as_str(), "filename") {
                let stem = crate::names::stem_of(file_name);
                overwrite_title(tag, stem.as_str());
            } else {
                overwrite_title(tag, title.as_str());
            }
        },
        None => {},
    }
    if let Some(genre) = &args.genre {
        overwrite_genre(tag, genre.as_str());
    }
    proof {
        assert(tag_view(*tag) =~= args.apply_view(tag_view(*old(tag)), spec_stem(file_name@)));
    }
}

/// Read the four fields of a tag container into a snapshot, for display.
pub fn read_snapshot(t: &id3::Tag) -> (s: TagSnapshot)
    ensures
        s@ == tag_view(*t),
{
    let s = TagSnapshot {
        album: tag_album_get(t),
        artist: tag_artist_get(t),
        title: tag_title_get(t),
        genre: tag_genre_get(t),
    };
    proof {
        assert(s@ =~= tag_view(*t));
    }
    s
}

} // verus!
