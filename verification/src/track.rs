//! The playable-item record: immutable after construction, owned by the
//! queue entry that holds it, and able to render itself as the protocol's
//! track reply block.

use vstd::prelude::*;

use crate::strutil::{
    concat2, i64_to_string, join_sep, spec_i64_dec, spec_join_sep, spec_u64_dec, u64_to_string,
};

verus! {

/// A playable item as resolved from the catalog.
#[derive(Debug)]
pub struct Track {
    /// Opaque catalog key; optional until resolved.
    pub id: Option<String>,
    pub title: String,
    pub track_number: u32,
    pub disc_number: i32,
    /// Duration in milliseconds.
    pub duration: u32,
    /// Ordered artist names.
    pub artists: Vec<String>,
    pub album: String,
    pub album_id: Option<String>,
    pub album_artists: Vec<String>,
    /// Playable URL/URI.
    pub url: String,
    /// Epoch milliseconds when the item was added, when known.
    pub added_at: Option<i64>,
    /// Release date as given by the catalog.
    pub date: String,
}

/// The mathematical value of a [`Track`]: every text field as a character
/// sequence.
pub struct TrackModel {
    pub id: Option<Seq<char>>,
    pub title: Seq<char>,
    pub track_number: u32,
    pub disc_number: i32,
    pub duration: u32,
    pub artists: Seq<Seq<char>>,
    pub album: Seq<char>,
    pub album_id: Option<Seq<char>>,
    pub album_artists: Seq<Seq<char>>,
    pub url: Seq<char>,
    pub added_at: Option<i64>,
    pub date: Seq<char>,
}

pub open spec fn view_opt_string(s: Option<String>) -> Option<Seq<char>> {
    match s {
        Some(v) => Some(v@),
        None => None,
    }
}

pub open spec fn view_string_vec(v: Seq<String>) -> Seq<Seq<char>> {
    v.map_values(|s: String| s@)
}

impl View for Track {
    type V = TrackModel;

    open spec fn view(&self) -> TrackModel {
        TrackModel {
            id: view_opt_string(self.id),
            title: self.title@,
            track_number: self.track_number,
            disc_number: self.disc_number,
            duration: self.duration,
            artists: view_string_vec(self.artists@),
            album: self.album@,
            album_id: view_opt_string(self.album_id),
            album_artists: view_string_vec(self.album_artists@),
            url: self.url@,
            added_at: self.added_at,
            date: self.date@,
        }
    }
}

fn clone_opt_string(s: &Option<String>) -> (r: Option<String>)
    ensures
        view_opt_string(r) == view_opt_string(*s),
{
    match s {
        Some(v) => Some(v.clone()),
        None => None,
    }
}

fn clone_string_vec(v: &Vec<String>) -> (r: Vec<String>)
    ensures
        view_string_vec(r@) == view_string_vec(v@),
{
    let mut out: Vec<String> = Vec::new();
    let mut i: usize = 0;
    while i < v.len()
        invariant
            i <= v.len(),
            out@.len() == i,
            forall|j: int| 0 <= j < i ==> out@[j]@ == v@[j]@,
        decreases v.len() - i,
    {
        out.push(v[i].clone());
        i = i + 1;
    }
    proof {
        assert(view_string_vec(out@) =~= view_string_vec(v@));
    }
    out
}

impl Clone for Track {
    /// A copy with the same value: queue entries own their tracks.
    fn clone(&self) -> (r: Track)
        ensures
            r@ == self@,
    {
        let r = Track {
            id: clone_opt_string(&self.id),
            title: self.title.clone(),
            track_number: self.track_number,
            disc_number: self.disc_number,
            duration: self.duration,
            artists: clone_string_vec(&self.artists),
            album: self.album.clone(),
            album_id: clone_opt_string(&self.album_id),
            album_artists: clone_string_vec(&self.album_artists),
            url: self.url.clone(),
            added_at: self.added_at,
            date: self.date.clone(),
        };
        r
    }
}

/// The track reply block of the protocol, as character sequences: one
/// `label: value` line per field, with artist lists joined by semicolons,
/// times in whole seconds, and the queue position doubling as the id.
pub open spec fn spec_mpd_format(t: TrackModel, pos: int) -> Seq<Seq<char>>
    recommends
        t.id is Some,
{
    seq![
        "file: "@ + t.id.unwrap(),
        "Artist: "@ + spec_join_sep(t.artists, ";"@),
        "AlbumArtist: "@ + spec_join_sep(t.album_artists, ";"@),
        "Title: "@ + t.title,
        "Album: "@ + t.album,
        "Track: "@ + spec_u64_dec(t.track_number as nat),
        "Date: "@ + t.date,
        "Time: "@ + spec_u64_dec((t.duration / 1000) as nat),
        "duration: "@ + spec_u64_dec((t.duration / 1000) as nat),
        "Pos: "@ + spec_i64_dec(pos),
        "Id: "@ + spec_i64_dec(pos),
    ]
}

impl Track {
    /// Render this track as the protocol's reply block for position `pos`.
    pub fn to_mpd_format(&self, pos: i32) -> (r: Vec<String>)
        requires
            self.id is Some,
        ensures
            r@.map_values(|l: String| l@) == spec_mpd_format(self@, pos as int),
    {
        let mut output: Vec<String> = Vec::new();
        output.push(concat2("file: ", self.id.as_ref().unwrap().as_str()));
        let artists = join_sep(&self.artists, ";");
        output.push(concat2("Artist: ", artists.as_str()));
        let album_artists = join_sep(&self.album_artists, ";");
        output.push(concat2("AlbumArtist: ", album_artists.as_str()));
        output.push(concat2("Title: ", self.title.as_str()));
        output.push(concat2("Album: ", self.album.as_str()));
        let track_no = u64_to_string(self.track_number as u64);
        output.push(concat2("Track: ", track_no.as_str()));
        output.push(concat2("Date: ", self.date.as_str()));
        let secs = u64_to_string((self.duration / 1000) as u64);
        output.push(concat2("Time: ", secs.as_str()));
        output.push(concat2("duration: ", secs.as_str()));
        let pos_str = i64_to_string(pos as i64);
        output.push(concat2("Pos: ", pos_str.as_str()));
        output.push(concat2("Id: ", pos_str.as_str()));
        proof {
            assert(output@.map_values(|l: String| l@) =~= spec_mpd_format(self@, pos as int));
        }
        output
    }
}

} // verus!
