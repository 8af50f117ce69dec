//! Tag reading: track metadata, album art, and the replay-gain tags.
//!
//! The tag formats themselves are lofty's business; each call into it sits
//! behind a wrapper that hands back plain values. What is verified here is
//! this module's own logic: the file-name and format fields derived from
//! the path, the data-URL assembly around the base64 payload, the
//! replay-gain key fall-back order, and the parsing of the tag values into
//! the library's integer units. The host reads the file; these functions
//! take its bytes.

use vstd::prelude::*;
use crate::gain::{
    info_from_tags, spec_parse_gain, spec_parse_peak, GainComputation, ReplayGainInfo,
    ReplayGainState, spec_gain_request,
};
use lofty::tag::Accessor;
use crate::bits::ONE_BITS;
use crate::text::{chars_of, string_from_chars};

verus! {

/// The tags and stream properties of one file, held by a lofty `Tag` and
/// `FileProperties`. Opaque to the verifier; all access goes through the
/// wrappers below.
#[verifier::external_body]
pub struct TagHandle {
    tag: Option<lofty::tag::Tag>,
    props: lofty::properties::FileProperties,
}

/// Relies on lofty's probe: guesses the file type from the content, reads
/// the tags, and keeps the primary tag (or failing that the first one)
/// together with the stream properties.
#[verifier::external_body]
pub fn read_tag_file(data: Vec<u8>) -> (r: Result<TagHandle, String>) {
    let probe = match lofty::probe::Probe::new(std::io::Cursor::new(data)).guess_file_type() {
        Ok(p) => p,
        Err(e) => return Err(e.to_string()),
    };
    match probe.read() {
        Ok(f) => {
            let tag = lofty::file::TaggedFileExt::primary_tag(&f)
                .or_else(|| lofty::file::TaggedFileExt::first_tag(&f))
                .cloned();
            let props = lofty::file::AudioFile::properties(&f).clone();
            Ok(TagHandle { tag, props })
        },
        Err(e) => Err(e.to_string()),
    }
}

/// Relies on lofty's `FileProperties::duration`, as whole milliseconds.
#[verifier::external_body]
pub fn tag_duration_ms(h: &TagHandle) -> (r: u64) {
    let ms = h.props.duration().as_millis();
    if ms > u64::MAX as u128 {
        u64::MAX
    } else {
        ms as u64
    }
}

/// Relies on lofty's `FileProperties::sample_rate`.
#[verifier::external_body]
pub fn tag_sample_rate(h: &TagHandle) -> (r: Option<u32>) {
    h.props.sample_rate()
}

/// Relies on lofty's `FileProperties::bit_depth`.
#[verifier::external_body]
pub fn tag_bit_depth(h: &TagHandle) -> (r: Option<u8>) {
    h.props.bit_depth()
}

/// Relies on lofty's `FileProperties::channels`.
#[verifier::external_body]
pub fn tag_channels(h: &TagHandle) -> (r: Option<u8>) {
    h.props.channels()
}

/// A textual tag field `read_metadata` reads.
pub enum TagField {
    Title,
    Artist,
    Album,
    AlbumArtist,
    Genre,
}

/// Relies on lofty's `Accessor` getters: the basic text fields.
#[verifier::external_body]
fn tag_accessor_string(h: &TagHandle, field: &TagField) -> (r: Option<String>) {
    let tag = h.tag.as_ref()?;
    match field {
        TagField::Title => tag.title().map(|s| s.to_string()),
        TagField::Artist => tag.artist().map(|s| s.to_string()),
        TagField::Album => tag.album().map(|s| s.to_string()),
        TagField::Genre => tag.genre().map(|s| s.to_string()),
        _ => None,
    }
}

/// Relies on lofty's `Tag::get_string` with `ItemKey::AlbumArtist`.
#[verifier::external_body]
fn tag_item_string(h: &TagHandle, field: &TagField) -> (r: Option<String>) {
    let tag = h.tag.as_ref()?;
    match field {
        TagField::AlbumArtist => tag.get_string(lofty::tag::ItemKey::AlbumArtist).map(
            |s| s.to_string(),
        ),
        _ => None,
    }
}

/// The text of the given field, if the tag has it: the basic fields come
/// through lofty's accessors, the rest through an item-key lookup.
pub fn tag_string(h: &TagHandle, field: &TagField) -> (r: Option<String>) {
    match field {
        TagField::Title => tag_accessor_string(h, field),
        TagField::Artist => tag_accessor_string(h, field),
        TagField::Album => tag_accessor_string(h, field),
        TagField::Genre => tag_accessor_string(h, field),
        _ => tag_item_string(h, field),
    }
}

/// Relies on lofty's `Accessor::track`.
#[verifier::external_body]
pub fn tag_track_number(h: &TagHandle) -> (r: Option<u32>) {
    h.tag.as_ref().and_then(|t| t.track())
}

/// Relies on lofty's `Accessor::disk`.
#[verifier::external_body]
pub fn tag_disc_number(h: &TagHandle) -> (r: Option<u32>) {
    h.tag.as_ref().and_then(|t| t.disk())
}

/// Relies on lofty's `Accessor::date`: the year component of the tag's
/// timestamp.
#[verifier::external_body]
pub fn tag_year(h: &TagHandle) -> (r: Option<u32>) {
    h.tag.as_ref().and_then(|t| t.date()).map(|d| d.year as u32)
}

/// Relies on lofty's `Tag::pictures`: whether any picture is attached.
#[verifier::external_body]
pub fn tag_has_pictures(h: &TagHandle) -> (r: bool) {
    match h.tag.as_ref() {
        Some(t) => !t.pictures().is_empty(),
        None => false,
    }
}

/// Relies on lofty's `Tag::pictures`: the first picture's MIME type (if
/// recorded) and its raw bytes.
#[verifier::external_body]
pub fn tag_first_picture(h: &TagHandle) -> (r: Option<(Option<String>, Vec<u8>)>) {
    let t = h.tag.as_ref()?;
    let pic = t.pictures().first()?;
    let mime = pic.mime_type().map(|m| m.as_str().to_string());
    Some((mime, pic.data().to_vec()))
}

/// What the base64 crate's standard engine (RFC 4648, with padding)
/// encodes the bytes to; a function of the bytes alone.
pub uninterp spec fn base64_standard(bytes: Seq<u8>) -> Seq<char>;

/// Relies on base64's `STANDARD` engine: four output characters for every
/// started group of three input bytes, padding included.
#[verifier::external_body]
fn b64_encode(bytes: &Vec<u8>) -> (r: String)
    ensures
        r@ == base64_standard(bytes@),
        r@.len() == ((bytes@.len() + 2) / 3) * 4,
{
    base64::Engine::encode(&base64::engine::general_purpose::STANDARD, bytes.as_slice())
}

/// MIME type assumed for album art that does not record one.
pub open spec fn spec_default_mime() -> Seq<char> {
    "image/jpeg"@
}

/// Build the album art data URL: `data:<mime>;base64,<payload>`, with
/// `image/jpeg` standing in when the picture records no MIME type.
pub fn album_art_data_url(mime: Option<String>, data: &Vec<u8>) -> (r: String)
    ensures
        r@ == "data:"@ + (match mime {
            Some(m) => m@,
            None => spec_default_mime(),
        }) + ";base64,"@ + base64_standard(data@),
{
    let mut out = String::from_str("data:");
    match mime {
        Some(m) => out.append(m.as_str()),
        None => out.append("image/jpeg"),
    }
    out.append(";base64,");
    let payload = b64_encode(data);
    out.append(payload.as_str());
    out
}

/// Track metadata as the host sees it; times in milliseconds.
pub struct TrackMetadata {
    pub title: Option<String>,
    pub artist: Option<String>,
    pub album: Option<String>,
    pub album_artist: Option<String>,
    pub year: Option<u32>,
    pub genre: Option<String>,
    pub track_number: Option<u32>,
    pub disc_number: Option<u32>,
    pub duration_ms: u64,
    pub sample_rate: Option<u32>,
    pub bit_depth: Option<u8>,
    pub channels: Option<u8>,
    pub file_path: String,
    pub file_name: String,
    pub format: String,
    pub has_album_art: bool,
}

/// Index just past the last occurrence of `c`, or 0 if there is none.
pub open spec fn spec_after_last(s: Seq<char>, c: char) -> int
    decreases s.len(),
{
    if s.len() == 0 {
        0
    } else if s.last() == c {
        s.len() as int
    } else {
        spec_after_last(s.drop_last(), c)
    }
}

/// The file-name component of a path: everything after the last slash.
pub open spec fn spec_file_name(path: Seq<char>) -> Seq<char> {
    path.skip(spec_after_last(path, '/'))
}

/// The extension of a file name: everything after the last dot, provided
/// that dot is not the first character (a leading dot marks a hidden file,
/// not an extension).
pub open spec fn spec_extension(name: Seq<char>) -> Option<Seq<char>> {
    let d = spec_after_last(name, '.');
    if d > 1 {
        Some(name.skip(d))
    } else {
        None
    }
}

/// Everything after the last occurrence of `c` in `s`.
pub fn after_last(s: &Vec<char>, c: char) -> (r: Vec<char>)
    ensures
        r@ == s@.skip(spec_after_last(s@, c)),
        r@.len() <= s@.len(),
        spec_after_last(s@, c) == s@.len() - r@.len(),
{
    let mut cut: usize = s.len();
    proof {
        assert(s@.take(s@.len() as int) =~= s@);
    }
    while cut > 0 && s[cut - 1] != c
        invariant
            cut <= s@.len(),
            spec_after_last(s@, c) == spec_after_last(s@.take(cut as int), c),
            forall|j: int| cut <= j < s@.len() ==> s@[j] != c,
        decreases cut,
    {
        proof {
            assert(s@.take(cut as int).drop_last() =~= s@.take(cut - 1));
        }
        cut = cut - 1;
    }
    proof {
        if cut > 0 {
            assert(s@.take(cut as int).last() == s@[cut - 1]);
        } else {
            assert(s@.take(0).len() == 0);
        }
        assert(spec_after_last(s@, c) == cut);
    }
    let mut r: Vec<char> = Vec::new();
    let mut i: usize = cut;
    while i < s.len()
        invariant
            cut <= i <= s@.len(),
            r@.len() == i - cut,
            forall|j: int| 0 <= j < i - cut ==> r@[j] == s@[cut + j],
        decreases s@.len() - i,
    {
        r.push(s[i]);
        i = i + 1;
    }
    proof {
        assert(r@ =~= s@.skip(cut as int));
    }
    r
}

/// Uppercase an ASCII letter; anything else passes through.
pub open spec fn spec_ascii_upper(c: char) -> char {
    match c {
        'a' => 'A',
        'b' => 'B',
        'c' => 'C',
        'd' => 'D',
        'e' => 'E',
        'f' => 'F',
        'g' => 'G',
        'h' => 'H',
        'i' => 'I',
        'j' => 'J',
        'k' => 'K',
        'l' => 'L',
        'm' => 'M',
        'n' => 'N',
        'o' => 'O',
        'p' => 'P',
        'q' => 'Q',
        'r' => 'R',
        's' => 'S',
        't' => 'T',
        'u' => 'U',
        'v' => 'V',
        'w' => 'W',
        'x' => 'X',
        'y' => 'Y',
        'z' => 'Z',
        _ => c,
    }
}

fn ascii_upper(c: char) -> (r: char)
    ensures
        r == spec_ascii_upper(c),
{
    match c {
        'a' => 'A',
        'b' => 'B',
        'c' => 'C',
        'd' => 'D',
        'e' => 'E',
        'f' => 'F',
        'g' => 'G',
        'h' => 'H',
        'i' => 'I',
        'j' => 'J',
        'k' => 'K',
        'l' => 'L',
        'm' => 'M',
        'n' => 'N',
        'o' => 'O',
        'p' => 'P',
        'q' => 'Q',
        'r' => 'R',
        's' => 'S',
        't' => 'T',
        'u' => 'U',
        'v' => 'V',
        'w' => 'W',
        'x' => 'X',
        'y' => 'Y',
        'z' => 'Z',
        _ => c,
    }
}

/// ASCII-uppercase every character.
pub fn ascii_upper_chars(s: &Vec<char>) -> (r: Vec<char>)
    ensures
        r@.len() == s@.len(),
        forall|j: int| 0 <= j < s@.len() ==> r@[j] == spec_ascii_upper(s@[j]),
{
    let mut r: Vec<char> = Vec::new();
    let mut i: usize = 0;
    while i < s.len()
        invariant
            i <= s@.len(),
            r@.len() == i,
            forall|j: int| 0 <= j < i ==> r@[j] == spec_ascii_upper(s@[j]),
        decreases s@.len() - i,
    {
        r.push(ascii_upper(s[i]));
        i = i + 1;
    }
    r
}

/// The format label for a path: the file name's extension, ASCII
/// uppercased, or "UNKNOWN" without one.
pub open spec fn spec_format_label(path: Seq<char>) -> Seq<char> {
    match spec_extension(spec_file_name(path)) {
        Some(ext) => Seq::new(ext.len(), |j: int| spec_ascii_upper(ext[j])),
        None => "UNKNOWN"@,
    }
}

/// The file-name and format fields `read_metadata` derives from the path.
pub fn path_fields(path: &String) -> (r: (String, String))
    ensures
        r.0@ == spec_file_name(path@),
        r.1@ == spec_format_label(path@),
{
    let cs = chars_of(path.as_str());
    let name = after_last(&cs, '/');
    let file_name = string_from_chars(&name);
    let ext = after_last(&name, '.');
    let format: String = if ext.len() < name.len() && name.len() - ext.len() > 1 {
        let upper = ascii_upper_chars(&ext);
        proof {
            assert(spec_after_last(name@, '.') > 1);
            assert(upper@ =~= spec_format_label(path@));
        }
        string_from_chars(&upper)
    } else {
        proof {
            assert(spec_after_last(name@, '.') <= 1);
        }
        String::from_str("UNKNOWN")
    };
    (file_name, format)
}

/// Read a file's track metadata from its bytes; `path` supplies the
/// path-derived fields. The tag and property fields are lofty's; the
/// path fields and the millisecond duration are pinned exactly.
pub fn read_metadata(data: Vec<u8>, path: String) -> (r: Result<TrackMetadata, String>)
    ensures
        (match r {
            Ok(m) => m.file_name@ == spec_file_name(path@) && m.format@ == spec_format_label(
                path@,
            ) && m.file_path@ == path@,
            Err(_) => true,
        }),
{
    let h = match read_tag_file(data) {
        Ok(h) => h,
        Err(e) => {
            return Err(e);
        },
    };
    let (file_name, format) = path_fields(&path);
    Ok(
        TrackMetadata {
            title: tag_string(&h, &TagField::Title),
            artist: tag_string(&h, &TagField::Artist),
            album: tag_string(&h, &TagField::Album),
            album_artist: tag_string(&h, &TagField::AlbumArtist),
            year: tag_year(&h),
            genre: tag_string(&h, &TagField::Genre),
            track_number: tag_track_number(&h),
            disc_number: tag_disc_number(&h),
            duration_ms: tag_duration_ms(&h),
            sample_rate: tag_sample_rate(&h),
            bit_depth: tag_bit_depth(&h),
            channels: tag_channels(&h),
            file_path: path,
            file_name,
            format,
            has_album_art: tag_has_pictures(&h),
        },
    )
}

/// The first attached picture as a data URL, or `None` without one.
pub fn get_album_art_base64(data: Vec<u8>) -> (r: Result<Option<String>, String>) {
    let h = match read_tag_file(data) {
        Ok(h) => h,
        Err(e) => {
            return Err(e);
        },
    };
    match tag_first_picture(&h) {
        Some((mime, bytes)) => Ok(Some(album_art_data_url(mime, &bytes))),
        None => Ok(None),
    }
}

/// A replay-gain tag key.
#[derive(Clone, Copy)]
pub enum RgKey {
    TrackGain,
    TrackPeak,
    AlbumGain,
    AlbumPeak,
    R128TrackGain,
    R128AlbumGain,
}

/// The text a file's tags carry under a replay-gain key: lofty's parse of
/// the bytes is deterministic, so the lookup is a function of the bytes
/// and the key alone. `None` both when the key is absent and when the
/// bytes hold no readable tag at all.
pub uninterp spec fn rg_tag_of(bytes: Seq<u8>, key: RgKey) -> Option<Seq<char>>;

/// Relies on lofty's probe and `Tag::get_string` with the typed replay-gain
/// `ItemKey`s: the text under the key, if the bytes carry a readable tag
/// that has it.
#[verifier::external_body]
fn rg_tag_string(data: &Vec<u8>, key: &RgKey) -> (r: Option<String>)
    ensures
        rg_tag_of(data@, *key) == (match r {
            Some(s) => Some(s@),
            None => None::<Seq<char>>,
        }),
{
    let probe = lofty::probe::Probe::new(std::io::Cursor::new(data.as_slice()));
    let f = probe.guess_file_type().ok()?.read().ok()?;
    let tag = lofty::file::TaggedFileExt::primary_tag(&f)
        .or_else(|| lofty::file::TaggedFileExt::first_tag(&f))?;
    let item_key = match key {
        RgKey::TrackGain => lofty::tag::ItemKey::ReplayGainTrackGain,
        RgKey::TrackPeak => lofty::tag::ItemKey::ReplayGainTrackPeak,
        RgKey::AlbumGain => lofty::tag::ItemKey::ReplayGainAlbumGain,
        RgKey::AlbumPeak => lofty::tag::ItemKey::ReplayGainAlbumPeak,
        RgKey::R128TrackGain => lofty::tag::ItemKey::R128TrackGain,
        RgKey::R128AlbumGain => lofty::tag::ItemKey::R128AlbumGain,
    };
    tag.get_string(item_key).map(|s| s.to_string())
}

/// The track gain string a file yields: the standard key, with the EBU
/// R128 key as fall-back.
pub open spec fn spec_track_gain_string(bytes: Seq<u8>) -> Option<Seq<char>> {
    if rg_tag_of(bytes, RgKey::TrackGain).is_some() {
        rg_tag_of(bytes, RgKey::TrackGain)
    } else {
        rg_tag_of(bytes, RgKey::R128TrackGain)
    }
}

/// The album gain string a file yields, with the same R128 fall-back.
pub open spec fn spec_album_gain_string(bytes: Seq<u8>) -> Option<Seq<char>> {
    if rg_tag_of(bytes, RgKey::AlbumGain).is_some() {
        rg_tag_of(bytes, RgKey::AlbumGain)
    } else {
        rg_tag_of(bytes, RgKey::R128AlbumGain)
    }
}

/// A gain string parsed to milli-decibels, if there is one and it parses.
pub open spec fn spec_opt_gain(s: Option<Seq<char>>) -> Option<i64> {
    match s {
        Some(v) => spec_parse_gain(v),
        None => None,
    }
}

/// A peak string parsed to millionths, if there is one and it parses.
pub open spec fn spec_opt_peak(s: Option<Seq<char>>) -> Option<i64> {
    match s {
        Some(v) => spec_parse_peak(v),
        None => None,
    }
}

/// Read the replay-gain tags of a file's bytes: each gain comes from the
/// standard key with the EBU R128 key as fall-back, each peak from its
/// standard key, every value parsed into the library's integer units. A
/// file with no readable tag yields the all-`None` info.
pub fn read_replaygain_tags(data: &Vec<u8>) -> (r: ReplayGainInfo)
    ensures
        r.track_gain_db == spec_opt_gain(spec_track_gain_string(data@)),
        r.track_peak == spec_opt_peak(rg_tag_of(data@, RgKey::TrackPeak)),
        r.album_gain_db == spec_opt_gain(spec_album_gain_string(data@)),
        r.album_peak == spec_opt_peak(rg_tag_of(data@, RgKey::AlbumPeak)),
{
    let track_gain = match rg_tag_string(data, &RgKey::TrackGain) {
        Some(s) => Some(s),
        None => rg_tag_string(data, &RgKey::R128TrackGain),
    };
    let album_gain = match rg_tag_string(data, &RgKey::AlbumGain) {
        Some(s) => Some(s),
        None => rg_tag_string(data, &RgKey::R128AlbumGain),
    };
    let track_peak = rg_tag_string(data, &RgKey::TrackPeak);
    let album_peak = rg_tag_string(data, &RgKey::AlbumPeak);
    info_from_tags(track_gain, track_peak, album_gain, album_peak)
}

impl ReplayGainState {
    /// Load the replay-gain tags from a file's bytes and install them.
    /// The installed info is exactly what `read_replaygain_tags` yields for
    /// the bytes. Returns what the host must evaluate (see
    /// `GainComputation`) and hand back through `set_gain_linear`; with no
    /// usable tag the cached gain is already exactly 1.0.
    pub fn load_from_file(&mut self, data: &Vec<u8>) -> (r: Option<GainComputation>)
        ensures
            final(self).wf(),
            final(self).mode == old(self).mode,
            final(self).clipping_prevention == old(self).clipping_prevention,
            final(self).info.track_gain_db == spec_opt_gain(spec_track_gain_string(data@)),
            final(self).info.track_peak == spec_opt_peak(rg_tag_of(data@, RgKey::TrackPeak)),
            final(self).info.album_gain_db == spec_opt_gain(spec_album_gain_string(data@)),
            final(self).info.album_peak == spec_opt_peak(rg_tag_of(data@, RgKey::AlbumPeak)),
            r.is_some() == spec_gain_request(
                old(self).mode,
                old(self).clipping_prevention,
                final(self).info,
            ).is_some(),
            r.is_none() ==> final(self).gain_linear == ONE_BITS,
    {
        let info = read_replaygain_tags(data);
        self.load_info(info);
        self.gain_request()
    }
}

} // verus!
