use crate::song::{Song, SongView};
use vstd::prelude::*;

verus! {

/// The fixed catalog, in order.
pub open spec fn catalog_spec() -> Seq<SongView> {
    seq![
        SongView { title: "Hello"@, artist: "Adele"@, lyric: "Hello, it's me"@ },
        SongView {
            title: "Hello"@,
            artist: "Lionel Richie"@,
            lyric: "Hello, is it me you're looking for?"@,
        },
        SongView {
            title: "Hello, Goodbye"@,
            artist: "The Beatles"@,
            lyric: "You say goodbye and I say hello"@,
        },
    ]
}

/// Builds the catalog; its records are those of [`catalog_spec`], in order.
pub fn catalog() -> (r: Vec<Song>)
    ensures
        r@.len() == catalog_spec().len(),
        forall|i: int| 0 <= i < r@.len() ==> (#[trigger] r@[i])@ == catalog_spec()[i],
{
    let songs = vec![
        Song { title: "Hello", artist: "Adele", lyric: "Hello, it's me" },
        Song {
            title: "Hello",
            artist: "Lionel Richie",
            lyric: "Hello, is it me you're looking for?",
        },
        Song {
            title: "Hello, Goodbye",
            artist: "The Beatles",
            lyric: "You say goodbye and I say hello",
        },
    ];
    songs
}

/// Every catalog record has a non-empty title, artist and lyric, and the
/// catalog itself is not empty.
pub proof fn lemma_catalog_fields_non_empty()
    ensures
        catalog_spec().len() > 0,
        forall|i: int|
            0 <= i < catalog_spec().len() ==> (#[trigger] catalog_spec()[i]).fields_non_empty(),
{
    reveal_strlit("Hello");
    reveal_strlit("Adele");
    reveal_strlit("Hello, it's me");
    reveal_strlit("Lionel Richie");
    reveal_strlit("Hello, is it me you're looking for?");
    reveal_strlit("Hello, Goodbye");
    reveal_strlit("The Beatles");
    reveal_strlit("You say goodbye and I say hello");
}

/// Relies on fastrand::usize: for the range `..n` with `n > 0` it returns a
/// value below `n` (it panics on an empty range, which `requires` leaves out).
#[verifier::external_body]
fn random_index(n: usize) -> (r: usize)
    requires
        n > 0,
    ensures
        r < n,
{
    fastrand::usize(..n)
}

/// Selects songs from the catalog, which it builds once and never changes.
#[derive(Debug)]
pub struct SongGenerator {
    songs: Vec<Song>,
}

impl View for SongGenerator {
    type V = Seq<SongView>;

    closed spec fn view(&self) -> Seq<SongView> {
        self.songs@.map_values(|s: Song| s@)
    }
}

impl SongGenerator {
    /// The generator holds exactly the catalog.
    #[verifier::type_invariant]
    closed spec fn holds_catalog(self) -> bool {
        self@ == catalog_spec()
    }

    pub fn new() -> (r: Self)
        ensures
            r@ == catalog_spec(),
    {
        let songs = catalog();
        assert(songs@.map_values(|s: Song| s@) =~= catalog_spec());
        SongGenerator { songs }
    }

    /// The catalog record at `index`, by value.
    pub fn song_at(&self, index: usize) -> (r: Song)
        requires
            index < catalog_spec().len(),
        ensures
            r@ == catalog_spec()[index as int],
    {
        proof {
            use_type_invariant(self);
        }
        self.songs[index]
    }

    /// A record drawn from the catalog; each record is equally likely.
    pub fn get_random_song(&self) -> (r: Song)
        ensures
            catalog_spec().contains(r@),
    {
        proof {
            use_type_invariant(self);
        }
        let i = random_index(self.songs.len());
        let r = self.song_at(i);
        assert(catalog_spec()[i as int] == r@);
        r
    }
}

impl Clone for SongGenerator {
    fn clone(&self) -> (r: Self)
        ensures
            r@ == self@,
    {
        proof {
            use_type_invariant(self);
        }
        SongGenerator::new()
    }
}

} // verus!
