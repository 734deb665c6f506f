//! The records that travel through the tracker, and their mathematical views.
//!
//! Every record has a view made of sequences of characters and plain values;
//! contracts elsewhere in the crate speak about those views only.

use vstd::prelude::*;

verus! {

/// Whether a track is audible, held back, or absent.
#[derive(Debug, Clone, Copy, PartialEq, Eq, Structural)]
pub enum PlaybackState {
    Playing,
    Paused,
    Stopped,
}

/// One rendition of an album cover.
#[derive(Debug)]
pub struct Image {
    pub url: String,
    pub size: String,
}

/// An album as the metadata lookup describes it.
#[derive(Debug)]
pub struct Album {
    pub artist: String,
    pub title: String,
    pub url: String,
    pub image: Vec<Image>,
}

/// The performer of a track.
#[derive(Debug)]
pub struct Artist {
    pub name: String,
    pub url: String,
}

/// Rich metadata of a track; `duration` is a decimal number of milliseconds.
#[derive(Debug)]
pub struct Track {
    pub name: String,
    pub url: String,
    pub duration: String,
    pub artist: Artist,
    pub album: Option<Album>,
}

/// One observation of what is being listened to, and at the same time the
/// event that is handed to viewers.
#[derive(Debug)]
pub struct NowPlaying {
    pub id: String,
    pub artist: String,
    pub track: String,
    pub album: Option<String>,
    pub album_art: Option<String>,
    pub now_playing: bool,
    pub track_info: Option<Track>,
    pub timestamp: Option<u64>,
}

/// The view of an [`Image`].
pub struct ImageView {
    pub url: Seq<char>,
    pub size: Seq<char>,
}

/// The view of an [`Album`]; its images are a sequence of views.
pub struct AlbumView {
    pub artist: Seq<char>,
    pub title: Seq<char>,
    pub url: Seq<char>,
    pub image: Seq<ImageView>,
}

/// The view of an [`Artist`].
pub struct ArtistView {
    pub name: Seq<char>,
    pub url: Seq<char>,
}

/// The view of a [`Track`].
pub struct TrackView {
    pub name: Seq<char>,
    pub url: Seq<char>,
    pub duration: Seq<char>,
    pub artist: ArtistView,
    pub album: Option<AlbumView>,
}

/// The view of a [`NowPlaying`]: what contracts say about an observation or
/// an event.
pub struct NowPlayingView {
    pub id: Seq<char>,
    pub artist: Seq<char>,
    pub track: Seq<char>,
    pub album: Option<Seq<char>>,
    pub album_art: Option<Seq<char>>,
    pub now_playing: bool,
    pub track_info: Option<TrackView>,
    pub timestamp: Option<u64>,
}

/// The view of an optional string.
pub open spec fn text_view(s: Option<String>) -> Option<Seq<char>> {
    match s {
        Some(t) => Some(t@),
        None => None,
    }
}

/// The view of an optional observation.
pub open spec fn snapshot_view(s: Option<NowPlaying>) -> Option<NowPlayingView> {
    match s {
        Some(np) => Some(np@),
        None => None,
    }
}

impl View for Image {
    type V = ImageView;

    open spec fn view(&self) -> ImageView {
        ImageView { url: self.url@, size: self.size@ }
    }
}

impl View for Album {
    type V = AlbumView;

    open spec fn view(&self) -> AlbumView {
        AlbumView {
            artist: self.artist@,
            title: self.title@,
            url: self.url@,
            image: self.image@.map_values(|i: Image| i@),
        }
    }
}

impl View for Artist {
    type V = ArtistView;

    open spec fn view(&self) -> ArtistView {
        ArtistView { name: self.name@, url: self.url@ }
    }
}

impl View for Track {
    type V = TrackView;

    open spec fn view(&self) -> TrackView {
        TrackView {
            name: self.name@,
            url: self.url@,
            duration: self.duration@,
            artist: self.artist@,
            album: match self.album {
                Some(a) => Some(a@),
                None => None,
            },
        }
    }
}

impl View for NowPlaying {
    type V = NowPlayingView;

    open spec fn view(&self) -> NowPlayingView {
        NowPlayingView {
            id: self.id@,
            artist: self.artist@,
            track: self.track@,
            album: text_view(self.album),
            album_art: text_view(self.album_art),
            now_playing: self.now_playing,
            track_info: match self.track_info {
                Some(t) => Some(t@),
                None => None,
            },
            timestamp: self.timestamp,
        }
    }
}

/// A copy of an optional string.
pub fn clone_text(s: &Option<String>) -> (out: Option<String>)
    ensures
        text_view(out) == text_view(*s),
{
    match s {
        Some(t) => Some(t.clone()),
        None => None,
    }
}

impl Clone for Image {
    fn clone(&self) -> (out: Self)
        ensures
            out@ == self@,
    {
        Image { url: self.url.clone(), size: self.size.clone() }
    }
}

impl Clone for Album {
    fn clone(&self) -> (out: Self)
        ensures
            out@ == self@,
    {
        let mut image: Vec<Image> = Vec::new();
        let mut i: usize = 0;
        while i < self.image.len()
            invariant
                i <= self.image.len(),
                image@.len() == i,
                forall|k: int| 0 <= k < i ==> (#[trigger] image@[k])@ == self.image@[k]@,
            decreases self.image.len() - i,
        {
            image.push(self.image[i].clone());
            i += 1;
        }
        let out = Album {
            artist: self.artist.clone(),
            title: self.title.clone(),
            url: self.url.clone(),
            image,
        };
        assert(out@.image =~= self@.image);
        out
    }
}

impl Clone for Artist {
    fn clone(&self) -> (out: Self)
        ensures
            out@ == self@,
    {
        Artist { name: self.name.clone(), url: self.url.clone() }
    }
}

impl Clone for Track {
    fn clone(&self) -> (out: Self)
        ensures
            out@ == self@,
    {
        Track {
            name: self.name.clone(),
            url: self.url.clone(),
            duration: self.duration.clone(),
            artist: self.artist.clone(),
            album: match &self.album {
                Some(a) => Some(a.clone()),
                None => None,
            },
        }
    }
}

impl Clone for NowPlaying {
    fn clone(&self) -> (out: Self)
        ensures
            out@ == self@,
    {
        NowPlaying {
            id: self.id.clone(),
            artist: self.artist.clone(),
            track: self.track.clone(),
            album: clone_text(&self.album),
            album_art: clone_text(&self.album_art),
            now_playing: self.now_playing,
            track_info: match &self.track_info {
                Some(t) => Some(t.clone()),
                None => None,
            },
            timestamp: self.timestamp,
        }
    }
}

/// Whether two optional strings hold the same text, or are both absent.
pub fn same_text(a: &Option<String>, b: &Option<String>) -> (same: bool)
    ensures
        same == (text_view(*a) == text_view(*b)),
{
    match (a, b) {
        (Some(x), Some(y)) => *x == *y,
        (None, None) => true,
        _ => false,
    }
}

impl Image {
    /// Whether two images are equal in value.
    pub fn same_value(&self, other: &Image) -> (same: bool)
        ensures
            same == (self@ == other@),
    {
        self.url == other.url && self.size == other.size
    }
}

impl Album {
    /// Whether two albums are equal in value.
    pub fn same_value(&self, other: &Album) -> (same: bool)
        ensures
            same == (self@ == other@),
    {
        if !(self.artist == other.artist && self.title == other.title && self.url == other.url) {
            return false;
        }
        if self.image.len() != other.image.len() {
            assert(self@.image.len() != other@.image.len());
            return false;
        }
        let mut i: usize = 0;
        while i < self.image.len()
            invariant
                i <= self.image.len(),
                self.image.len() == other.image.len(),
                forall|k: int| 0 <= k < i ==> self.image@[k]@ == other.image@[k]@,
            decreases self.image.len() - i,
        {
            if !self.image[i].same_value(&other.image[i]) {
                assert(self@.image[i as int] != other@.image[i as int]);
                return false;
            }
            i += 1;
        }
        assert(self@.image =~= other@.image);
        true
    }
}

impl Artist {
    /// Whether two artists are equal in value.
    pub fn same_value(&self, other: &Artist) -> (same: bool)
        ensures
            same == (self@ == other@),
    {
        self.name == other.name && self.url == other.url
    }
}

impl Track {
    /// Whether two tracks are equal in value.
    pub fn same_value(&self, other: &Track) -> (same: bool)
        ensures
            same == (self@ == other@),
    {
        let albums = match (&self.album, &other.album) {
            (Some(a), Some(b)) => a.same_value(b),
            (None, None) => true,
            _ => false,
        };
        albums && self.name == other.name && self.url == other.url && self.duration
            == other.duration && self.artist.same_value(&other.artist)
    }
}

impl NowPlaying {
    /// Whether two events are equal in value: every field agrees.
    pub fn same_value(&self, other: &NowPlaying) -> (same: bool)
        ensures
            same == (self@ == other@),
    {
        let infos = match (&self.track_info, &other.track_info) {
            (Some(a), Some(b)) => a.same_value(b),
            (None, None) => true,
            _ => false,
        };
        let stamps = match (self.timestamp, other.timestamp) {
            (Some(a), Some(b)) => a == b,
            (None, None) => true,
            _ => false,
        };
        infos && stamps && self.id == other.id && self.artist == other.artist && self.track
            == other.track && same_text(&self.album, &other.album) && same_text(
            &self.album_art,
            &other.album_art,
        ) && self.now_playing == other.now_playing
    }
}

} // verus!
