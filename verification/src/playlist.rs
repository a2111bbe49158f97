//! Playlist snapshots and song metadata: a verified rendering of the
//! device's queue into the order-preserving textual form that is compared
//! between polling cycles, and the extraction of the observable fields of
//! the current song.

use vstd::prelude::*;

use crate::model::{clone_opt_text, str_eq, CurrentItem, CurrentItemModel};

verus! {

/// One song as the device reports it: an optional title and a list of
/// `(tag name, tag value)` pairs.
#[derive(Clone, Debug)]
pub struct SongInfo {
    pub title: Option<String>,
    pub tags: Vec<(String, String)>,
}

/// Mathematical model of a [`SongInfo`].
pub struct SongModel {
    pub title: Option<Seq<char>>,
    pub tags: Seq<(Seq<char>, Seq<char>)>,
}

impl View for SongInfo {
    type V = SongModel;

    open spec fn view(&self) -> SongModel {
        SongModel { title: self.title.deep_view(), tags: self.tags.deep_view() }
    }
}

impl DeepView for SongInfo {
    type V = SongModel;

    open spec fn deep_view(&self) -> SongModel {
        self.view()
    }
}

/// The value of the first tag named `key`, if any.
pub open spec fn spec_tag(tags: Seq<(Seq<char>, Seq<char>)>, key: Seq<char>) -> Option<Seq<char>>
    decreases tags.len(),
{
    if tags.len() == 0 {
        None
    } else if tags.first().0 == key {
        Some(tags.first().1)
    } else {
        spec_tag(tags.drop_first(), key)
    }
}

/// Looks up the value of the first tag named `key` on a song.
pub fn tag_value(song: &SongInfo, key: &str) -> (r: Option<String>)
    ensures
        r.deep_view() == spec_tag(song@.tags, key@),
{
    let ghost tags = song@.tags;
    proof {
        assert(tags.skip(0) =~= tags);
    }
    let mut i: usize = 0;
    while i < song.tags.len()
        invariant
            i <= song.tags.len(),
            tags == song@.tags,
            spec_tag(tags, key@) == spec_tag(tags.skip(i as int), key@),
        decreases song.tags.len() - i,
    {
        proof {
            assert(tags.skip(i as int).len() > 0);
            assert(tags.skip(i as int).first() == tags[i as int]);
            assert(tags.skip(i as int).drop_first() =~= tags.skip(i as int + 1));
        }
        let entry = &song.tags[i];
        if str_eq(entry.0.as_str(), key) {
            return Some(entry.1.clone());
        }
        i = i + 1;
    }
    proof {
        assert(tags.skip(i as int).len() == 0);
    }
    None
}

/// The observable fields of the current song, or an empty item when no
/// song is loaded: the artist and album come from the song's tags, the
/// title from its own field.
pub open spec fn spec_current_item(song: Option<SongModel>) -> CurrentItemModel {
    match song {
        Some(s) => CurrentItemModel {
            artist: spec_tag(s.tags, "Artist"@),
            album: spec_tag(s.tags, "Album"@),
            title: s.title,
        },
        None => CurrentItemModel { artist: None, album: None, title: None },
    }
}

/// Extracts the observable fields of the current song.
pub fn current_item_from(song: &Option<SongInfo>) -> (r: CurrentItem)
    ensures
        r@ == spec_current_item(song.deep_view()),
{
    match song {
        Some(s) => CurrentItem {
            artist: tag_value(s, "Artist"),
            album: tag_value(s, "Album"),
            title: clone_opt_text(&s.title),
        },
        None => CurrentItem { artist: None, album: None, title: None },
    }
}

/// The artist part of a snapshot line.
pub open spec fn spec_artist_part(s: SongModel) -> Seq<char> {
    match spec_tag(s.tags, "Artist"@) {
        Some(a) => a,
        None => "Unknown"@,
    }
}

/// The title part of a snapshot line.
pub open spec fn spec_title_part(s: SongModel) -> Seq<char> {
    match s.title {
        Some(t) => t,
        None => "Unknown"@,
    }
}

/// One line of the snapshot: the artist and the title, separated.
pub open spec fn spec_line(s: SongModel) -> Seq<char> {
    spec_artist_part(s) + " - "@ + spec_title_part(s)
}

/// The textual snapshot of a queue: one line per song, in queue order,
/// joined by newlines.
pub open spec fn spec_snapshot(songs: Seq<SongModel>) -> Seq<char>
    decreases songs.len(),
{
    if songs.len() == 0 {
        Seq::empty()
    } else if songs.len() == 1 {
        spec_line(songs.last())
    } else {
        spec_snapshot(songs.drop_last()) + "\n"@ + spec_line(songs.last())
    }
}

/// Renders one line of the snapshot for a song.
fn song_line(song: &SongInfo) -> (r: String)
    ensures
        r@ == spec_line(song@),
{
    let mut line = match tag_value(song, "Artist") {
        Some(a) => a,
        None => "Unknown".to_owned(),
    };
    line.append(" - ");
    match &song.title {
        Some(t) => line.append(t.as_str()),
        None => line.append("Unknown"),
    }
    line
}

/// Renders the order-preserving textual snapshot of the device's queue,
/// used only for equality comparison between polling cycles.
pub fn playlist_snapshot(songs: &Vec<SongInfo>) -> (r: String)
    ensures
        r@ == spec_snapshot(songs.deep_view()),
{
    let ghost model = songs.deep_view();
    let mut out = String::new();
    let mut i: usize = 0;
    while i < songs.len()
        invariant
            i <= songs.len(),
            model == songs.deep_view(),
            out@ == spec_snapshot(model.take(i as int)),
        decreases songs.len() - i,
    {
        proof {
            assert(model.take(i as int + 1).drop_last() =~= model.take(i as int));
            assert(model.take(i as int + 1).last() == model[i as int]);
        }
        if i > 0 {
            out.append("\n");
        }
        let line = song_line(&songs[i]);
        out.append(line.as_str());
        i = i + 1;
    }
    proof {
        assert(model.take(songs.len() as int) =~= model);
    }
    out
}

} // verus!
