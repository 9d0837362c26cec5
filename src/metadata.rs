use vstd::prelude::*;

verus! {

/// What `str::to_uppercase` makes of a string.
pub uninterp spec fn upper_of(s: Seq<char>) -> Seq<char>;

/// What `Path::file_stem` makes of a path: the file name without its last
/// extension, if the path names a file.
pub uninterp spec fn stem_of(p: Seq<char>) -> Option<Seq<char>>;

/// Relies on `str::to_uppercase`: the upper-case mapping of every character.
#[verifier::external_body]
fn to_upper(s: &str) -> (r: String)
    ensures
        r@ == upper_of(s@),
{
    s.to_uppercase()
}

/// Relies on `Path::file_stem`: the file name of the path without its
/// extension; `None` where the path has no file name or the stem is not
/// Unicode.
#[verifier::external_body]
fn file_stem(p: &str) -> (r: Option<String>)
    ensures
        r matches Some(s) ==> stem_of(p@) == Some(s@),
        r is None ==> stem_of(p@) is None,
{
    match std::path::Path::new(p).file_stem() {
        Some(s) => match s.to_str() {
            Some(t) => Some(t.to_string()),
            None => None,
        },
        None => None,
    }
}

/// The standard meaning a container gives a tag, where it gives one.
#[derive(PartialEq, Eq, Structural, Clone, Copy, Debug)]
pub enum StandardKey {
    Artist,
    TrackTitle,
    Other,
}

/// One tag found in the container's metadata.
pub struct TagEntry {
    pub std_key: Option<StandardKey>,
    pub key: String,
    pub value: String,
}

/// The fields the tag reader found in the file.
pub struct FileTags {
    pub title: Option<String>,
    pub artist: Option<String>,
    pub album: Option<String>,
    pub year: Option<i32>,
}

/// Which field a container tag sets.
#[derive(PartialEq, Eq, Structural, Clone, Copy, Debug)]
pub enum TagField {
    Title,
    Artist,
    Neither,
}

/// A tag with a standard key is read by that key; one without is read by
/// its name in upper case, `TITLE` or `ARTIST`.
pub open spec fn field_of(std_key: Option<StandardKey>, key: Seq<char>) -> TagField {
    match std_key {
        Some(StandardKey::Artist) => TagField::Artist,
        Some(StandardKey::TrackTitle) => TagField::Title,
        Some(StandardKey::Other) => TagField::Neither,
        None => if upper_of(key) == "TITLE"@ {
            TagField::Title
        } else if upper_of(key) == "ARTIST"@ {
            TagField::Artist
        } else {
            TagField::Neither
        },
    }
}

/// The value of `f` after the container tags `es`, in order, over `init`:
/// the last tag that sets `f` wins.
pub open spec fn merged(init: Option<Seq<char>>, es: Seq<TagEntry>, f: TagField) -> Option<Seq<char>>
    decreases es.len(),
{
    if es.len() == 0 {
        init
    } else {
        let e = es.last();
        if field_of(e.std_key, e.key@) == f {
            Some(e.value@)
        } else {
            merged(init, es.drop_last(), f)
        }
    }
}

pub open spec fn opt_view(o: Option<String>) -> Option<Seq<char>> {
    match o {
        Some(s) => Some(s@),
        None => None,
    }
}

/// Whole seconds of a track of `n_frames` frames at `sample_rate`, where both
/// are known.
pub open spec fn duration_secs_spec(n_frames: Option<u64>, sample_rate: Option<u32>) -> Option<u64> {
    match (n_frames, sample_rate) {
        (Some(n), Some(r)) => if r > 0 {
            Some((n / r as u64) as u64)
        } else {
            None
        },
        _ => None,
    }
}

/// What playback needs to know of a loaded track. It does not change once
/// made.
#[derive(Clone, Debug)]
pub struct TrackMetadata {
    pub full_time_secs: Option<u64>,
    pub path: String,
    pub file_stem: String,
    pub title: Option<String>,
    pub artist: Option<String>,
    pub album: Option<String>,
    pub year: Option<i32>,
}

pub fn duration_secs(n_frames: Option<u64>, sample_rate: Option<u32>) -> (r: Option<u64>)
    ensures
        r == duration_secs_spec(n_frames, sample_rate),
{
    match (n_frames, sample_rate) {
        (Some(n), Some(r)) => if r > 0 {
            Some(n / r as u64)
        } else {
            None
        },
        _ => None,
    }
}

fn tag_field(e: &TagEntry) -> (r: TagField)
    ensures
        r == field_of(e.std_key, e.key@),
{
    match e.std_key {
        Some(StandardKey::Artist) => TagField::Artist,
        Some(StandardKey::TrackTitle) => TagField::Title,
        Some(StandardKey::Other) => TagField::Neither,
        None => {
            let up = to_upper(e.key.as_str());
            let title = "TITLE".to_owned();
            let artist = "ARTIST".to_owned();
            if up == title {
                TagField::Title
            } else if up == artist {
                TagField::Artist
            } else {
                TagField::Neither
            }
        },
    }
}

impl TrackMetadata {
    /// The metadata of the track at `path`, from what probing the container
    /// found (`n_frames`, `sample_rate`, its tags `entries`) and what the tag
    /// reader found (`tags`). The container's title and artist tags, read in
    /// order, override the tag reader's; the last one wins.
    pub fn from_probe(
        path: String,
        n_frames: Option<u64>,
        sample_rate: Option<u32>,
        tags: FileTags,
        entries: &Vec<TagEntry>,
    ) -> (m: TrackMetadata)
        ensures
            m.full_time_secs == duration_secs_spec(n_frames, sample_rate),
            m.path@ == path@,
            m.file_stem@ == (match stem_of(path@) {
                Some(s) => s,
                None => Seq::<char>::empty(),
            }),
            opt_view(m.title) == merged(opt_view(tags.title), entries@, TagField::Title),
            opt_view(m.artist) == merged(opt_view(tags.artist), entries@, TagField::Artist),
            m.album == tags.album,
            m.year == tags.year,
    {
        let stem = match file_stem(path.as_str()) {
            Some(s) => s,
            None => String::new(),
        };
        let mut title = tags.title;
        let mut artist = tags.artist;
        let mut i: usize = 0;
        while i < entries.len()
            invariant
                i <= entries@.len(),
                opt_view(title) == merged(opt_view(tags.title), entries@.subrange(0, i as int), TagField::Title),
                opt_view(artist) == merged(opt_view(tags.artist), entries@.subrange(0, i as int), TagField::Artist),
            decreases entries@.len() - i,
        {
            let e = &entries[i];
            let f = tag_field(e);
            proof {
                let pre = entries@.subrange(0, i as int);
                let next = entries@.subrange(0, i + 1);
                assert(next.drop_last() =~= pre);
                assert(next.last() == entries@[i as int]);
            }
            if f == TagField::Title {
                title = Some(e.value.clone());
            } else if f == TagField::Artist {
                artist = Some(e.value.clone());
            }
            i = i + 1;
        }
        proof {
            assert(entries@.subrange(0, entries@.len() as int) =~= entries@);
        }
        TrackMetadata {
            full_time_secs: duration_secs(n_frames, sample_rate),
            path,
            file_stem: stem,
            title,
            artist,
            album: tags.album,
            year: tags.year,
        }
    }
}

} // verus!
