//! What the scrobbling service is asked, and what its answers mean.
//!
//! The requests themselves are made elsewhere. This module says which
//! parameters a request carries, and turns the fields of the newest entry of
//! a listener's recent tracks into an observation.

use crate::identity::{identity, identity_of};
use crate::model::{snapshot_view, text_view, NowPlaying, NowPlayingView, Track};
use crate::text::{contains, contains_text, parse_u64, parse_u64_spec};
use vstd::prelude::*;

verus! {

/// The fields of the newest entry of a listener's recent tracks, as the
/// service sent them. A field that was missing, or was not text, is absent.
#[derive(Debug)]
pub struct RecentTrack {
    /// The text of the entry's artist.
    pub artist: Option<String>,
    /// The entry's name.
    pub name: Option<String>,
    /// The entry's `nowplaying` attribute.
    pub now_playing: Option<String>,
    /// The text of the entry's album.
    pub album: Option<String>,
    /// The text of each of the entry's images, in the order sent.
    pub images: Vec<Option<String>>,
    /// The entry's date in seconds since the Unix epoch.
    pub date_uts: Option<String>,
}

/// The view of a [`RecentTrack`].
pub struct RecentTrackView {
    pub artist: Option<Seq<char>>,
    pub name: Option<Seq<char>>,
    pub now_playing: Option<Seq<char>>,
    pub album: Option<Seq<char>>,
    pub images: Seq<Option<Seq<char>>>,
    pub date_uts: Option<Seq<char>>,
}

impl View for RecentTrack {
    type V = RecentTrackView;

    open spec fn view(&self) -> RecentTrackView {
        RecentTrackView {
            artist: text_view(self.artist),
            name: text_view(self.name),
            now_playing: text_view(self.now_playing),
            album: text_view(self.album),
            images: self.images@.map_values(|i: Option<String>| text_view(i)),
            date_uts: text_view(self.date_uts),
        }
    }
}

/// The view of an optional entry.
pub open spec fn recent_view(track: Option<RecentTrack>) -> Option<RecentTrackView> {
    match track {
        Some(t) => Some(t@),
        None => None,
    }
}

/// An absent text read as the empty text.
pub open spec fn or_empty(text: Option<Seq<char>>) -> Seq<char> {
    match text {
        Some(t) => t,
        None => Seq::empty(),
    }
}

/// A text that is present and not empty.
pub open spec fn non_empty(text: Option<Seq<char>>) -> Option<Seq<char>> {
    match text {
        Some(t) => if t.len() > 0 {
            Some(t)
        } else {
            None
        },
        None => None,
    }
}

/// An address of cover art stands for "no artwork" when it holds the
/// signature of the service's placeholder image.
pub open spec fn is_placeholder(url: Seq<char>) -> bool {
    contains_text(url, "2a96cbd8b46e442fc41c2b86b821562f"@)
}

/// The cover art of an entry: the last of its images, unless that is empty or
/// the placeholder.
pub open spec fn artwork(images: Seq<Option<Seq<char>>>) -> Option<Seq<char>> {
    if images.len() == 0 {
        None
    } else {
        match non_empty(images.last()) {
            Some(url) => if is_placeholder(url) {
                None
            } else {
                Some(url)
            },
            None => None,
        }
    }
}

/// The time of an entry, where its date is a number.
pub open spec fn timestamp_of(date: Option<Seq<char>>) -> Option<u64> {
    match date {
        Some(d) => parse_u64_spec(d),
        None => None,
    }
}

/// What an answer of the service shows. Without an entry, or with an entry
/// whose `nowplaying` attribute is not the text `true`, nothing is playing.
/// Otherwise the entry is an observation of a playing track, still without
/// rich metadata.
pub open spec fn observed(track: Option<RecentTrackView>) -> Option<NowPlayingView> {
    match track {
        Some(t) => if t.now_playing == Some("true"@) {
            Some(
                NowPlayingView {
                    id: identity_of(or_empty(t.artist), or_empty(t.name)),
                    artist: or_empty(t.artist),
                    track: or_empty(t.name),
                    album: non_empty(t.album),
                    album_art: artwork(t.images),
                    now_playing: true,
                    track_info: None,
                    timestamp: timestamp_of(t.date_uts),
                },
            )
        } else {
            None
        },
        None => None,
    }
}

fn text_or_empty(text: &Option<String>) -> (out: String)
    ensures
        out@ == or_empty(text_view(*text)),
{
    match text {
        Some(t) => t.clone(),
        None => String::new(),
    }
}

fn text_if_any(text: &Option<String>) -> (out: Option<String>)
    ensures
        text_view(out) == non_empty(text_view(*text)),
{
    match text {
        Some(t) => if t.as_str().is_empty() {
            None
        } else {
            Some(t.clone())
        },
        None => None,
    }
}

/// The cover art among the images of an entry.
pub fn cover_art(images: &Vec<Option<String>>) -> (art: Option<String>)
    ensures
        text_view(art) == artwork(images@.map_values(|i: Option<String>| text_view(i))),
{
    let n = images.len();
    if n == 0 {
        return None;
    }
    match text_if_any(&images[n - 1]) {
        Some(url) => if contains(url.as_str(), "2a96cbd8b46e442fc41c2b86b821562f") {
            None
        } else {
            Some(url)
        },
        None => None,
    }
}

/// Turns the newest entry of the recent tracks into an observation.
pub fn observe(track: &Option<RecentTrack>) -> (seen: Option<NowPlaying>)
    ensures
        snapshot_view(seen) == observed(recent_view(*track)),
{
    match track {
        Some(t) => {
            let playing = match &t.now_playing {
                Some(flag) => *flag == "true".to_owned(),
                None => false,
            };
            if !playing {
                return None;
            }
            let artist = text_or_empty(&t.artist);
            let name = text_or_empty(&t.name);
            let timestamp = match &t.date_uts {
                Some(d) => parse_u64(d.as_str()),
                None => None,
            };
            Some(
                NowPlaying {
                    id: identity(artist.as_str(), name.as_str()),
                    artist,
                    track: name,
                    album: text_if_any(&t.album),
                    album_art: cover_art(&t.images),
                    now_playing: true,
                    track_info: None,
                    timestamp,
                },
            )
        },
        None => None,
    }
}

/// Adds the result of the metadata lookup to an observation. A lookup that
/// failed leaves the observation without rich metadata, and so without a
/// known length; it never spoils the observation.
pub fn with_track_info(np: NowPlaying, info: Option<Track>) -> (out: NowPlaying)
    ensures
        out@ == (NowPlayingView {
            track_info: match info {
                Some(t) => Some(t@),
                None => None,
            },
            ..np@
        }),
{
    let mut out = np;
    out.track_info = info;
    out
}

/// One parameter of a request.
#[derive(Debug)]
pub struct Param {
    pub name: String,
    pub value: String,
}

impl View for Param {
    type V = (Seq<char>, Seq<char>);

    open spec fn view(&self) -> (Seq<char>, Seq<char>) {
        (self.name@, self.value@)
    }
}

/// The views of the parameters of a request.
pub open spec fn param_views(params: Seq<Param>) -> Seq<(Seq<char>, Seq<char>)> {
    params.map_values(|p: Param| p@)
}

/// The parameters that ask for the newest of a listener's recent tracks.
pub open spec fn recent_tracks_params(user: Seq<char>, api_key: Seq<char>) -> Seq<
    (Seq<char>, Seq<char>),
> {
    seq![
        ("method"@, "user.getrecenttracks"@),
        ("user"@, user),
        ("api_key"@, api_key),
        ("format"@, "json"@),
        ("limit"@, "1"@),
    ]
}

/// The parameters that ask for the rich metadata of one track.
pub open spec fn track_info_params(artist: Seq<char>, track: Seq<char>, api_key: Seq<char>) -> Seq<
    (Seq<char>, Seq<char>),
> {
    seq![
        ("method"@, "track.getInfo"@),
        ("artist"@, artist),
        ("track"@, track),
        ("api_key"@, api_key),
        ("format"@, "json"@),
    ]
}

fn param(name: &str, value: &str) -> (p: Param)
    ensures
        p@ == (name@, value@),
{
    Param { name: name.to_owned(), value: value.to_owned() }
}

/// The credentials with which the service is asked about one listener.
pub struct LastFmClient {
    api_key: String,
    user: String,
}

impl LastFmClient {
    /// The key that identifies the caller to the service.
    pub closed spec fn api_key(&self) -> Seq<char> {
        self.api_key@
    }

    /// The listener who is asked about.
    pub closed spec fn user(&self) -> Seq<char> {
        self.user@
    }

    /// A client that asks about `user` with `api_key`.
    pub fn new(api_key: String, user: String) -> (client: Self)
        ensures
            client.api_key() == api_key@,
            client.user() == user@,
    {
        LastFmClient { api_key, user }
    }

    /// The address that every request goes to.
    pub fn endpoint() -> (url: &'static str)
        ensures
            url@ == "https://ws.audioscrobbler.com/2.0/"@,
    {
        "https://ws.audioscrobbler.com/2.0/"
    }

    /// The parameters of the request for the listener's newest track.
    pub fn recent_tracks_query(&self) -> (params: Vec<Param>)
        ensures
            param_views(params@) == recent_tracks_params(self.user(), self.api_key()),
    {
        let mut params: Vec<Param> = Vec::new();
        params.push(param("method", "user.getrecenttracks"));
        params.push(param("user", self.user.as_str()));
        params.push(param("api_key", self.api_key.as_str()));
        params.push(param("format", "json"));
        params.push(param("limit", "1"));
        params
    }

    /// The parameters of the request for the rich metadata of a track.
    pub fn track_info_query(&self, artist: &str, track: &str) -> (params: Vec<Param>)
        ensures
            param_views(params@) == track_info_params(artist@, track@, self.api_key()),
    {
        let mut params: Vec<Param> = Vec::new();
        params.push(param("method", "track.getInfo"));
        params.push(param("artist", artist));
        params.push(param("track", track));
        params.push(param("api_key", self.api_key.as_str()));
        params.push(param("format", "json"));
        params
    }
}

} // verus!
