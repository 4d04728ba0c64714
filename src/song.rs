use vstd::prelude::*;

verus! {

/// The mathematical value of a [`Song`]: its three texts as character sequences.
pub struct SongView {
    pub title: Seq<char>,
    pub artist: Seq<char>,
    pub lyric: Seq<char>,
}

impl SongView {
    /// Every field holds at least one character.
    pub open spec fn fields_non_empty(self) -> bool {
        &&& self.title.len() > 0
        &&& self.artist.len() > 0
        &&& self.lyric.len() > 0
    }
}

/// One song record: a title, the performing artist and a memorable lyric.
#[derive(Debug, Clone, Copy)]
pub struct Song {
    /// The title of the song
    pub title: &'static str,
    /// The artist who performed the song
    pub artist: &'static str,
    /// A memorable lyric from the song
    pub lyric: &'static str,
}

impl View for Song {
    type V = SongView;

    open spec fn view(&self) -> SongView {
        SongView { title: self.title@, artist: self.artist@, lyric: self.lyric@ }
    }
}

/// The record that stands in for a song when none could be selected.
pub open spec fn default_song() -> SongView {
    SongView { title: "Unknown"@, artist: "Unknown"@, lyric: "No lyrics available"@ }
}

impl Default for Song {
    fn default() -> (r: Song)
        ensures
            r@ == default_song(),
    {
        Song { title: "Unknown", artist: "Unknown", lyric: "No lyrics available" }
    }
}

/// None of the default song's fields is empty.
pub proof fn lemma_default_song_non_empty()
    ensures
        default_song().fields_non_empty(),
{
    reveal_strlit("Unknown");
    reveal_strlit("No lyrics available");
}

} // verus!
