//! The statistics client's verified half: the request URLs for the top
//! items endpoints and the display line of a track. The HTTP transport
//! and JSON decoding of responses stay outside the library.

use vstd::prelude::*;
use vstd::string::StringExecFns;
use crate::config::{spec_time_range_value, TimeRange};
use crate::encoding::{form_urlencode, urlencode_of};
use crate::text::{dec_digits, u64_to_string};

verus! {

/// A client for the top-items endpoints: the bearer token and the
/// statistics window every request carries.
pub struct Api {
    pub access_token: String,
    pub time_range: TimeRange,
}

/// The URL of a top-items endpoint for a window and a page size.
pub open spec fn spec_api_url(tr: TimeRange, endpoint: Seq<char>, limit: u32) -> Seq<char> {
    "https://api.spotify.com/v1/me/top/"@ + endpoint + "?time_range="@ + urlencode_of(
        spec_time_range_value(tr),
    ) + "&limit="@ + urlencode_of(dec_digits(limit as u64))
}

impl Api {
    /// A client from a bearer token and a window.
    pub fn new(access_token: String, time_range: TimeRange) -> (r: Api)
        ensures
            r.access_token@ == access_token@,
            r.time_range == time_range,
    {
        Api { access_token, time_range }
    }

    /// The URL that lists the top items of `endpoint`, `limit` at most.
    pub fn build_url(&self, endpoint: &str, limit: u32) -> (r: String)
        ensures
            r@ == spec_api_url(self.time_range, endpoint@, limit),
    {
        let mut url = String::new();
        url.append("https://api.spotify.com/v1/me/top/");
        url.append(endpoint);
        url.append("?time_range=");
        url.append(form_urlencode(self.time_range.query_value().as_str()).as_str());
        url.append("&limit=");
        url.append(form_urlencode(u64_to_string(limit as u64).as_str()).as_str());
        url
    }

    /// The request a top-artists fetch makes: none at all for a zero
    /// limit — the result is then empty without any network call — and
    /// the artists URL otherwise.
    pub fn top_artists_url(&self, limit: u32) -> (r: Option<String>)
        ensures
            match r {
                None => limit == 0,
                Some(u) => limit != 0 && u@ == spec_api_url(self.time_range, "artists"@, limit),
            },
    {
        if limit == 0 {
            None
        } else {
            Some(self.build_url("artists", limit))
        }
    }

    /// The request a top-tracks fetch makes, as for `top_artists_url`.
    pub fn top_tracks_url(&self, limit: u32) -> (r: Option<String>)
        ensures
            match r {
                None => limit == 0,
                Some(u) => limit != 0 && u@ == spec_api_url(self.time_range, "tracks"@, limit),
            },
    {
        if limit == 0 {
            None
        } else {
            Some(self.build_url("tracks", limit))
        }
    }
}

/// One rendition of a cover image, as the provider lists it.
#[derive(Debug, Clone)]
pub struct Image {
    pub url: String,
    pub height: u32,
    pub width: u32,
}

/// An artist with the covers the provider offers for them.
#[derive(Debug)]
pub struct Artist {
    pub name: String,
    pub images: Vec<Image>,
}

/// The top-artists endpoint's payload.
#[derive(Debug)]
pub struct TopArtistsResponse {
    pub items: Vec<Artist>,
}

/// An artist as named inside a track.
#[derive(Debug)]
pub struct SimpleArtist {
    pub name: String,
}

/// An album with its covers.
#[derive(Debug)]
pub struct Album {
    pub name: String,
    pub images: Vec<Image>,
}

/// A track, its artists and its album.
#[derive(Debug)]
pub struct Track {
    pub name: String,
    pub artists: Vec<SimpleArtist>,
    pub album: Album,
}

/// The top-tracks endpoint's payload.
#[derive(Debug)]
pub struct TopTracksResponse {
    pub items: Vec<Track>,
}

/// The names of a track's artists.
pub open spec fn spec_artist_names(aa: Seq<SimpleArtist>) -> Seq<Seq<char>> {
    aa.map_values(|x: SimpleArtist| x.name@)
}

/// The names joined with a comma and a space.
pub open spec fn spec_join_comma(names: Seq<Seq<char>>) -> Seq<char>
    decreases names.len(),
{
    if names.len() == 0 {
        Seq::empty()
    } else if names.len() == 1 {
        names[0]
    } else {
        spec_join_comma(names.drop_last()) + ", "@ + names.last()
    }
}

/// The display line of a track: name, artists and album.
pub open spec fn spec_track_display(t: Track) -> Seq<char> {
    t.name@ + " - "@ + spec_join_comma(spec_artist_names(t.artists@)) + " ("@ + t.album.name@
        + ")"@
}

impl Track {
    /// Formats the track as `name - artist, artist (album)`.
    pub fn format_track_display(&self) -> (r: String)
        ensures
            r@ == spec_track_display(*self),
    {
        let mut line = String::new();
        line.append(self.name.as_str());
        line.append(" - ");
        let mut i: usize = 0;
        let ghost names = spec_artist_names(self.artists@);
        while i < self.artists.len()
            invariant
                i <= self.artists@.len(),
                names == spec_artist_names(self.artists@),
                line@ == self.name@ + " - "@ + spec_join_comma(names.subrange(0, i as int)),
            decreases self.artists@.len() - i,
        {
            if i > 0 {
                line.append(", ");
            }
            line.append(self.artists[i].name.as_str());
            proof {
                let next = names.subrange(0, (i + 1) as int);
                assert(next.drop_last() =~= names.subrange(0, i as int));
                assert(next.last() == names[i as int]);
                assert(names[i as int] == self.artists@[i as int].name@);
                if i == 0 {
                    assert(spec_join_comma(next) == names[0]);
                }
            }
            i = i + 1;
        }
        proof {
            assert(names.subrange(0, names.len() as int) =~= names);
        }
        line.append(" (");
        line.append(self.album.name.as_str());
        line.append(")");
        line
    }
}

} // verus!
