use sha2::Digest;
use sha2::Sha256;
use vstd::prelude::*;
use vstd::string::StringExecFns;

use crate::utils::clone_bytes;
use crate::utils::clone_opt_string;
use crate::utils::opt_text;

verus! {

/// One colour of a cover palette.
#[derive(Clone, Copy, Debug, PartialEq, Eq, Structural)]
pub struct Rgb {
    pub r: u8,
    pub g: u8,
    pub b: u8,
}

/// Image format of an embedded picture.
#[derive(Clone, Copy, Debug, PartialEq, Eq, Structural)]
pub enum MimeType {
    Png,
    Jpeg,
    Tiff,
    Bmp,
    Gif,
    Unknown,
    Unspecified,
}

/// A picture embedded in a tag.
#[derive(Debug)]
pub struct Picture {
    /// Whether the tag marks this picture as the front cover.
    pub front_cover: bool,
    pub mime_type: MimeType,
    pub data: Vec<u8>,
}

/// One tag block of an audio file.
#[derive(Debug)]
pub struct Tag {
    pub artist: Option<String>,
    pub title: Option<String>,
    pub album: Option<String>,
    pub pictures: Vec<Picture>,
}

/// What a tag reader found in an audio file.
#[derive(Debug)]
pub struct TaggedFile {
    /// The tag of the kind that is native to the file's format, if present.
    pub primary_tag: Option<Tag>,
    /// Every tag of the file, in file order.
    pub tags: Vec<Tag>,
    /// Length of the audio stream in whole seconds.
    pub duration: u64,
}

/// The picture's bytes when its format can be shown as cover art.
pub open spec fn picture_art(p: Picture) -> Option<Seq<u8>> {
    match p.mime_type {
        MimeType::Png => Some(p.data@),
        MimeType::Jpeg => Some(p.data@),
        MimeType::Tiff => Some(p.data@),
        _ => None,
    }
}

/// Bytes of the first displayable picture at or after position `i`.
pub open spec fn first_art_from(pictures: Seq<Picture>, i: int) -> Option<Seq<u8>>
    decreases pictures.len() - i,
{
    if i < 0 || i >= pictures.len() {
        None
    } else if picture_art(pictures[i]).is_some() {
        picture_art(pictures[i])
    } else {
        first_art_from(pictures, i + 1)
    }
}

/// Position of the first picture marked as front cover at or after `i`.
pub open spec fn first_front_from(pictures: Seq<Picture>, i: int) -> Option<int>
    decreases pictures.len() - i,
{
    if i < 0 || i >= pictures.len() {
        None
    } else if pictures[i].front_cover {
        Some(i)
    } else {
        first_front_from(pictures, i + 1)
    }
}

/// Cover art of a primary tag: the front cover if the tag has one (and
/// nothing when that picture cannot be shown), else the first displayable
/// picture.
pub open spec fn primary_cover(pictures: Seq<Picture>) -> Option<Seq<u8>> {
    match first_front_from(pictures, 0) {
        Some(k) => picture_art(pictures[k]),
        None => first_art_from(pictures, 0),
    }
}

/// The labels and cover art gathered from a file's tags.
pub ghost struct Labels {
    pub artist: Option<Seq<char>>,
    pub title: Option<Seq<char>>,
    pub album: Option<Seq<char>>,
    pub cover_art: Option<Seq<u8>>,
}

/// Labels with nothing in them.
pub open spec fn no_labels() -> Labels {
    Labels { artist: None, title: None, album: None, cover_art: None }
}

/// Labels after one tag of the fallback scan has been read: the tag's texts
/// replace the earlier ones, and its pictures, when it has any, decide the
/// cover art.
pub open spec fn labels_after(acc: Labels, t: Tag) -> Labels {
    Labels {
        artist: opt_text(t.artist),
        title: opt_text(t.title),
        album: opt_text(t.album),
        cover_art: if t.pictures@.len() == 0 {
            acc.cover_art
        } else {
            first_art_from(t.pictures@, 0)
        },
    }
}

/// The fallback scan over all tags from position `i` on: tags are read in
/// order until one has given both an artist and a title.
pub open spec fn scan_tags(tags: Seq<Tag>, i: int, acc: Labels) -> Labels
    decreases tags.len() - i,
{
    if i < 0 || i >= tags.len() {
        acc
    } else {
        let next = labels_after(acc, tags[i]);
        if next.artist.is_some() && next.title.is_some() {
            next
        } else {
            scan_tags(tags, i + 1, next)
        }
    }
}

/// Labels of a file: those of the primary tag when there is one, else the
/// outcome of the fallback scan.
pub open spec fn file_labels(file: TaggedFile) -> Labels {
    match file.primary_tag {
        Some(t) => Labels {
            artist: opt_text(t.artist),
            title: opt_text(t.title),
            album: opt_text(t.album),
            cover_art: primary_cover(t.pictures@),
        },
        None => scan_tags(file.tags@, 0, no_labels()),
    }
}

/// SHA-256 of the UTF-8 encoding of `message`, as 64 lower-case hex digits.
pub uninterp spec fn sha256_hex(message: Seq<char>) -> Seq<char>;

/// The text of an optional label, empty when absent.
pub open spec fn text_or_empty(o: Option<Seq<char>>) -> Seq<char> {
    match o {
        Some(s) => s,
        None => Seq::<char>::empty(),
    }
}

/// The text that is hashed into a song's identifier: the file's base name
/// twice, then artist, title and album as far as they are known.
pub open spec fn uuid_message(
    basename: Seq<char>,
    artist: Option<Seq<char>>,
    title: Option<Seq<char>>,
    album: Option<Seq<char>>,
) -> Seq<char> {
    basename + basename + text_or_empty(artist) + text_or_empty(title) + text_or_empty(album)
}

/// The stable identifier of a song, present when its file has a base name.
pub open spec fn song_uuid(
    basename: Option<Seq<char>>,
    artist: Option<Seq<char>>,
    title: Option<Seq<char>>,
    album: Option<Seq<char>>,
) -> Option<Seq<char>> {
    match basename {
        Some(b) => Some(sha256_hex(uuid_message(b, artist, title, album))),
        None => None,
    }
}

/// Hashes a text with `sha2::Sha256` (`Digest::digest` over the text's
/// UTF-8 bytes) and renders the digest with its `LowerHex` formatting. The
/// contract only gives the result its name: the digest is a function of the
/// message alone.
#[verifier::external_body]
fn sha256_hex_digest(message: &String) -> (r: String)
    ensures
        r@ == sha256_hex(message@),
{
    format!("{:x}", Sha256::digest(message.as_bytes()))
}

/// Computes the stable identifier of a song from its file's base name and
/// the labels that were read.
pub fn compute_uuid(
    basename: &Option<String>,
    artist: &Option<String>,
    title: &Option<String>,
    album: &Option<String>,
) -> (r: Option<String>)
    ensures
        opt_text(r) == song_uuid(
            opt_text(*basename),
            opt_text(*artist),
            opt_text(*title),
            opt_text(*album),
        ),
{
    match basename {
        Some(b) => {
            let mut message = String::new();
            message.append(b.as_str());
            message.append(b.as_str());
            if let Some(a) = artist {
                message.append(a.as_str());
            }
            if let Some(t) = title {
                message.append(t.as_str());
            }
            if let Some(a) = album {
                message.append(a.as_str());
            }
            assert(message@ =~= uuid_message(
                b@,
                opt_text(*artist),
                opt_text(*title),
                opt_text(*album),
            ));
            Some(sha256_hex_digest(&message))
        },
        None => None,
    }
}

/// The picture's bytes when its format can be shown as cover art.
pub fn picture_cover(p: &Picture) -> (r: Option<Vec<u8>>)
    ensures
        match r {
            Some(d) => picture_art(*p) == Some(d@),
            None => picture_art(*p).is_none(),
        },
{
    match p.mime_type {
        MimeType::Png => Some(clone_bytes(&p.data)),
        MimeType::Jpeg => Some(clone_bytes(&p.data)),
        MimeType::Tiff => Some(clone_bytes(&p.data)),
        _ => None,
    }
}

/// The bytes held by an optional buffer, if any.
pub open spec fn opt_bytes(o: Option<Vec<u8>>) -> Option<Seq<u8>> {
    match o {
        Some(d) => Some(d@),
        None => None,
    }
}

/// Finds the first displayable picture of a list.
pub fn first_cover(pictures: &Vec<Picture>) -> (r: Option<Vec<u8>>)
    ensures
        opt_bytes(r) == first_art_from(pictures@, 0),
{
    let mut i: usize = 0;
    while i < pictures.len()
        invariant
            i <= pictures.len(),
            first_art_from(pictures@, 0) == first_art_from(pictures@, i as int),
        decreases pictures.len() - i,
    {
        let found = picture_cover(&pictures[i]);
        if found.is_some() {
            return found;
        }
        i += 1;
    }
    None
}

/// Chooses the cover art of a primary tag.
pub fn primary_tag_cover(pictures: &Vec<Picture>) -> (r: Option<Vec<u8>>)
    ensures
        opt_bytes(r) == primary_cover(pictures@),
{
    let mut i: usize = 0;
    while i < pictures.len()
        invariant
            i <= pictures.len(),
            first_front_from(pictures@, 0) == first_front_from(pictures@, i as int),
        decreases pictures.len() - i,
    {
        if pictures[i].front_cover {
            return picture_cover(&pictures[i]);
        }
        i += 1;
    }
    first_cover(pictures)
}

/// Immutable metadata of one song.
#[derive(Debug)]
pub struct SongData {
    artist: Option<String>,
    title: Option<String>,
    album: Option<String>,
    cover_art: Option<Vec<u8>>,
    cover_palette: Option<Vec<Rgb>>,
    uuid: Option<String>,
    duration: u64,
    uri: String,
}

/// Mathematical value of a [`SongData`].
pub ghost struct SongDataView {
    pub artist: Option<Seq<char>>,
    pub title: Option<Seq<char>>,
    pub album: Option<Seq<char>>,
    pub cover_art: Option<Seq<u8>>,
    pub cover_palette: Option<Seq<Rgb>>,
    pub uuid: Option<Seq<char>>,
    pub duration: u64,
    pub uri: Seq<char>,
}

/// The colours held by an optional palette, if any.
pub open spec fn opt_palette(o: Option<Vec<Rgb>>) -> Option<Seq<Rgb>> {
    match o {
        Some(p) => Some(p@),
        None => None,
    }
}

/// Metadata of the sentinel song, which stands for a file that could not be
/// read as audio.
pub open spec fn sentinel_data() -> SongDataView {
    SongDataView {
        artist: Some("Invalid Artist"@),
        title: Some("Invalid Title"@),
        album: Some("Invalid Album"@),
        cover_art: None,
        cover_palette: None,
        uuid: None,
        duration: 0,
        uri: "file:///does-not-exist"@,
    }
}

/// Metadata of a readable file: labels and cover art from its tags, the
/// identifier from its base name and labels, no palette yet.
pub open spec fn data_of_file(
    uri: Seq<char>,
    basename: Option<Seq<char>>,
    file: TaggedFile,
) -> SongDataView {
    let labels = file_labels(file);
    SongDataView {
        artist: labels.artist,
        title: labels.title,
        album: labels.album,
        cover_art: labels.cover_art,
        cover_palette: None,
        uuid: song_uuid(basename, labels.artist, labels.title, labels.album),
        duration: file.duration,
        uri: uri,
    }
}

/// Whether two songs are the same song: by identifier when both have one,
/// else by URI.
pub open spec fn same_song(a: SongDataView, b: SongDataView) -> bool {
    if a.uuid.is_some() && b.uuid.is_some() {
        a.uuid == b.uuid
    } else {
        a.uri == b.uri
    }
}

/// Whether a song is the sentinel, which no queue may hold.
pub open spec fn is_sentinel(a: SongDataView) -> bool {
    a.uri == sentinel_data().uri
}

/// Copies a palette.
pub fn clone_palette(v: &Vec<Rgb>) -> (r: Vec<Rgb>)
    ensures
        r@ == v@,
{
    let mut r: Vec<Rgb> = Vec::new();
    let mut i: usize = 0;
    while i < v.len()
        invariant
            i <= v.len(),
            r@ == v@.subrange(0, i as int),
        decreases v.len() - i,
    {
        r.push(v[i]);
        i += 1;
        assert(r@ =~= v@.subrange(0, i as int));
    }
    assert(v@.subrange(0, v.len() as int) =~= v@);
    r
}

impl View for SongData {
    type V = SongDataView;

    closed spec fn view(&self) -> SongDataView {
        SongDataView {
            artist: opt_text(self.artist),
            title: opt_text(self.title),
            album: opt_text(self.album),
            cover_art: opt_bytes(self.cover_art),
            cover_palette: opt_palette(self.cover_palette),
            uuid: opt_text(self.uuid),
            duration: self.duration,
            uri: self.uri@,
        }
    }
}

impl Default for SongData {
    /// The sentinel metadata.
    fn default() -> (r: SongData)
        ensures
            r@ == sentinel_data(),
    {
        SongData {
            artist: Some("Invalid Artist".to_owned()),
            title: Some("Invalid Title".to_owned()),
            album: Some("Invalid Album".to_owned()),
            cover_art: None,
            cover_palette: None,
            uuid: None,
            duration: 0,
            uri: "file:///does-not-exist".to_owned(),
        }
    }
}

impl Clone for SongData {
    fn clone(&self) -> (r: SongData)
        ensures
            r@ == self@,
    {
        SongData {
            artist: clone_opt_string(&self.artist),
            title: clone_opt_string(&self.title),
            album: clone_opt_string(&self.album),
            cover_art: match &self.cover_art {
                Some(d) => Some(clone_bytes(d)),
                None => None,
            },
            cover_palette: match &self.cover_palette {
                Some(p) => Some(clone_palette(p)),
                None => None,
            },
            uuid: clone_opt_string(&self.uuid),
            duration: self.duration,
            uri: self.uri.clone(),
        }
    }
}

impl SongData {
    pub fn artist(&self) -> (r: Option<&str>)
        ensures
            match r {
                Some(s) => self@.artist == Some(s@),
                None => self@.artist.is_none(),
            },
    {
        match &self.artist {
            Some(s) => Some(s.as_str()),
            None => None,
        }
    }

    pub fn title(&self) -> (r: Option<&str>)
        ensures
            match r {
                Some(s) => self@.title == Some(s@),
                None => self@.title.is_none(),
            },
    {
        match &self.title {
            Some(s) => Some(s.as_str()),
            None => None,
        }
    }

    pub fn album(&self) -> (r: Option<&str>)
        ensures
            match r {
                Some(s) => self@.album == Some(s@),
                None => self@.album.is_none(),
            },
    {
        match &self.album {
            Some(s) => Some(s.as_str()),
            None => None,
        }
    }

    pub fn uuid(&self) -> (r: Option<&str>)
        ensures
            match r {
                Some(s) => self@.uuid == Some(s@),
                None => self@.uuid.is_none(),
            },
    {
        match &self.uuid {
            Some(s) => Some(s.as_str()),
            None => None,
        }
    }

    pub fn duration(&self) -> (r: u64)
        ensures
            r == self@.duration,
    {
        self.duration
    }

    /// The encoded cover picture chosen from the file's tags.
    pub fn cover_art(&self) -> (r: Option<&Vec<u8>>)
        ensures
            match r {
                Some(d) => self@.cover_art == Some(d@),
                None => self@.cover_art.is_none(),
            },
    {
        self.cover_art.as_ref()
    }

    pub fn cover_palette(&self) -> (r: Option<&Vec<Rgb>>)
        ensures
            match r {
                Some(p) => self@.cover_palette == Some(p@),
                None => self@.cover_palette.is_none(),
            },
    {
        self.cover_palette.as_ref()
    }

    pub fn uri(&self) -> (r: String)
        ensures
            r@ == self@.uri,
    {
        self.uri.clone()
    }

    /// Builds the metadata of the file at `uri` from what a tag reader found
    /// in it. A file that could not be read (`file` is `None`) yields the
    /// sentinel metadata.
    pub fn from_uri(uri: &str, basename: &Option<String>, file: &Option<TaggedFile>) -> (r:
        SongData)
        ensures
            r@ == match *file {
                Some(f) => data_of_file(uri@, opt_text(*basename), f),
                None => sentinel_data(),
            },
    {
        let tagged_file = match file {
            Some(f) => f,
            None => {
                return SongData::default();
            },
        };
        let mut artist: Option<String> = None;
        let mut title: Option<String> = None;
        let mut album: Option<String> = None;
        let mut cover_art: Option<Vec<u8>> = None;
        match &tagged_file.primary_tag {
            Some(tag) => {
                artist = clone_opt_string(&tag.artist);
                title = clone_opt_string(&tag.title);
                album = clone_opt_string(&tag.album);
                cover_art = primary_tag_cover(&tag.pictures);
            },
            None => {
                let mut i: usize = 0;
                while i < tagged_file.tags.len()
                    invariant_except_break
                        i <= tagged_file.tags.len(),
                        scan_tags(tagged_file.tags@, 0, no_labels()) == scan_tags(
                            tagged_file.tags@,
                            i as int,
                            (Labels {
                                artist: opt_text(artist),
                                title: opt_text(title),
                                album: opt_text(album),
                                cover_art: opt_bytes(cover_art),
                            }),
                        ),
                    ensures
                        scan_tags(tagged_file.tags@, 0, no_labels()) == (Labels {
                            artist: opt_text(artist),
                            title: opt_text(title),
                            album: opt_text(album),
                            cover_art: opt_bytes(cover_art),
                        }),
                    decreases tagged_file.tags.len() - i,
                {
                    let tag = &tagged_file.tags[i];
                    artist = clone_opt_string(&tag.artist);
                    title = clone_opt_string(&tag.title);
                    album = clone_opt_string(&tag.album);
                    if tag.pictures.len() > 0 {
                        cover_art = first_cover(&tag.pictures);
                    }
                    if artist.is_some() && title.is_some() {
                        break;
                    }
                    i += 1;
                }
            },
        }
        let uuid = compute_uuid(basename, &artist, &title, &album);
        SongData {
            artist,
            title,
            album,
            cover_art,
            cover_palette: None,
            uuid,
            duration: tagged_file.duration,
            uri: uri.to_owned(),
        }
    }

    /// Attaches the colour palette that was extracted from the cover art.
    pub fn set_cover_palette(&mut self, palette: Option<Vec<Rgb>>)
        ensures
            final(self)@ == (SongDataView { cover_palette: opt_palette(palette), ..old(self)@ }),
    {
        self.cover_palette = palette;
    }
}

/// A song of the queue: its metadata and the two flags that change while
/// it is queued.
#[derive(Debug)]
pub struct Song {
    data: SongData,
    playing: bool,
    selected: bool,
}

/// Mathematical value of a [`Song`].
pub ghost struct SongView {
    pub data: SongDataView,
    pub playing: bool,
    pub selected: bool,
}

/// The label shown for a song whose tag gives none.
pub open spec fn label_or(o: Option<Seq<char>>, fallback: Seq<char>) -> Seq<char> {
    match o {
        Some(s) => s,
        None => fallback,
    }
}

/// The dominant colour of a palette: its first entry, if it has one.
pub open spec fn dominant(palette: Option<Seq<Rgb>>) -> Option<Rgb> {
    match palette {
        Some(p) => if p.len() > 0 {
            Some(p[0])
        } else {
            None
        },
        None => None,
    }
}

impl View for Song {
    type V = SongView;

    closed spec fn view(&self) -> SongView {
        SongView { data: self.data@, playing: self.playing, selected: self.selected }
    }
}

impl Default for Song {
    /// The sentinel song.
    fn default() -> (r: Song)
        ensures
            r@ == (SongView { data: sentinel_data(), playing: false, selected: false }),
    {
        Song::empty()
    }
}

impl Clone for Song {
    fn clone(&self) -> (r: Song)
        ensures
            r@ == self@,
    {
        Song { data: self.data.clone(), playing: self.playing, selected: self.selected }
    }
}

impl Song {
    /// A song with the given metadata, neither playing nor selected.
    pub fn new(data: SongData) -> (r: Song)
        ensures
            r@ == (SongView { data: data@, playing: false, selected: false }),
    {
        Song { data, playing: false, selected: false }
    }

    /// The sentinel song.
    pub fn empty() -> (r: Song)
        ensures
            r@ == (SongView { data: sentinel_data(), playing: false, selected: false }),
            is_sentinel(r@.data),
    {
        Song { data: SongData::default(), playing: false, selected: false }
    }

    /// Whether `self` and `other` are the same song.
    pub fn equals(&self, other: &Song) -> (r: bool)
        ensures
            r == same_song(self@.data, other@.data),
    {
        match &self.data.uuid {
            Some(a) => match &other.data.uuid {
                Some(b) => *a == *b,
                None => self.data.uri == other.data.uri,
            },
            None => self.data.uri == other.data.uri,
        }
    }

    pub fn uri(&self) -> (r: String)
        ensures
            r@ == self@.data.uri,
    {
        self.data.uri()
    }

    /// The artist, or a placeholder when the tags name none.
    pub fn artist(&self) -> (r: String)
        ensures
            r@ == label_or(self@.data.artist, "Unknown artist"@),
    {
        match &self.data.artist {
            Some(artist) => artist.clone(),
            None => "Unknown artist".to_owned(),
        }
    }

    /// The title, or a placeholder when the tags name none.
    pub fn title(&self) -> (r: String)
        ensures
            r@ == label_or(self@.data.title, "Unknown title"@),
    {
        match &self.data.title {
            Some(title) => title.clone(),
            None => "Unknown title".to_owned(),
        }
    }

    /// The album, or a placeholder when the tags name none.
    pub fn album(&self) -> (r: String)
        ensures
            r@ == label_or(self@.data.album, "Unknown album"@),
    {
        match &self.data.album {
            Some(album) => album.clone(),
            None => "Unknown album".to_owned(),
        }
    }

    /// The encoded cover picture, if the tags hold a displayable one.
    pub fn cover_art(&self) -> (r: Option<Vec<u8>>)
        ensures
            opt_bytes(r) == self@.data.cover_art,
    {
        match &self.data.cover_art {
            Some(d) => Some(clone_bytes(d)),
            None => None,
        }
    }

    /// The dominant colour of the cover.
    pub fn cover_color(&self) -> (r: Option<Rgb>)
        ensures
            r == dominant(self@.data.cover_palette),
    {
        match &self.data.cover_palette {
            Some(p) => if p.len() > 0 {
                Some(p[0])
            } else {
                None
            },
            None => None,
        }
    }

    pub fn cover_palette(&self) -> (r: Option<Vec<Rgb>>)
        ensures
            opt_palette(r) == self@.data.cover_palette,
    {
        match &self.data.cover_palette {
            Some(p) => Some(clone_palette(p)),
            None => None,
        }
    }

    pub fn duration(&self) -> (r: u64)
        ensures
            r == self@.data.duration,
    {
        self.data.duration
    }

    pub fn playing(&self) -> (r: bool)
        ensures
            r == self@.playing,
    {
        self.playing
    }

    pub fn set_playing(&mut self, playing: bool)
        ensures
            final(self)@ == (SongView { playing: playing, ..old(self)@ }),
    {
        self.playing = playing;
    }

    pub fn selected(&self) -> (r: bool)
        ensures
            r == self@.selected,
    {
        self.selected
    }

    pub fn set_selected(&mut self, selected: bool)
        ensures
            final(self)@ == (SongView { selected: selected, ..old(self)@ }),
    {
        self.selected = selected;
    }

    pub fn uuid(&self) -> (r: Option<String>)
        ensures
            opt_text(r) == self@.data.uuid,
    {
        clone_opt_string(&self.data.uuid)
    }

    /// The song's metadata.
    pub fn data(&self) -> (r: &SongData)
        ensures
            r@ == self@.data,
    {
        &self.data
    }
}

/// Same-song is reflexive and symmetric, and the sentinel is exactly the
/// song that is the same song as the default one.
pub proof fn lemma_same_song(a: SongDataView, b: SongDataView)
    ensures
        same_song(a, a),
        same_song(a, b) == same_song(b, a),
        is_sentinel(a) == same_song(a, sentinel_data()),
{
}

} // verus!
