use crate::generator::catalog_spec;
use crate::song::{default_song, lemma_default_song_non_empty, Song, SongView};
use vstd::prelude::*;

verus! {

/// The media type of a reply body.
#[derive(Debug, Clone, Copy, PartialEq, Eq, Structural)]
pub enum ContentType {
    Html,
    PlainText,
}

/// A reply with a fixed text body.
#[derive(Debug)]
pub struct TextReply {
    pub status: u16,
    pub content_type: ContentType,
    pub body: String,
}

/// A reply of the song route: a status and the record that becomes its body.
#[derive(Debug, Clone, Copy)]
pub struct SongReply {
    pub status: u16,
    pub song: Song,
}

/// The greeting page served at `GET /`.
pub open spec fn greeting_body() -> Seq<char> {
    "<h1>Rust server</h1> <p>Hello</p>"@
}

/// The body of the reply to any request that no route matches.
pub open spec fn not_found_body() -> Seq<char> {
    "Route not found"@
}

/// The record that the song route serves for the outcome of a selection:
/// the selected record, or the default song where the selection failed.
pub open spec fn song_body(outcome: Option<SongView>) -> SongView {
    match outcome {
        Some(s) => s,
        None => default_song(),
    }
}

/// `GET /`: status 200 and the greeting page as HTML.
pub fn root_get_handler() -> (r: TextReply)
    ensures
        r.status == 200,
        r.content_type == ContentType::Html,
        r.body@ == greeting_body(),
{
    TextReply {
        status: 200,
        content_type: ContentType::Html,
        body: "<h1>Rust server</h1> <p>Hello</p>".to_owned(),
    }
}

/// Any unmatched request: status 404 and a short plain-text body.
pub fn not_found_handler() -> (r: TextReply)
    ensures
        r.status == 404,
        r.content_type == ContentType::PlainText,
        r.body@ == not_found_body(),
{
    TextReply {
        status: 404,
        content_type: ContentType::PlainText,
        body: "Route not found".to_owned(),
    }
}

/// `GET /song`, given the outcome of the selection task (`None` where the
/// task failed): status 200 always, with the selected record or the default song.
pub fn song_handler(outcome: Option<Song>) -> (r: SongReply)
    ensures
        r.status == 200,
        r.song@ == song_body(
            match outcome {
                Some(s) => Some(s@),
                None => None,
            },
        ),
{
    let song = match outcome {
        Some(s) => s,
        None => Song::default(),
    };
    SongReply { status: 200, song }
}

/// The song route's body is a catalog record whenever the selection yielded
/// one, and the default song only when the selection failed; either way all
/// three fields are non-empty.
pub proof fn lemma_song_body_valid(outcome: Option<SongView>)
    requires
        outcome matches Some(s) ==> catalog_spec().contains(s),
    ensures
        outcome is Some ==> catalog_spec().contains(song_body(outcome)),
        outcome is None ==> song_body(outcome) == default_song(),
        song_body(outcome).fields_non_empty(),
{
    crate::generator::lemma_catalog_fields_non_empty();
    lemma_default_song_non_empty();
}

} // verus!
