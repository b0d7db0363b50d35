//! ReplayGain: reading the tags, choosing among them, and the resulting gain.
//!
//! Decibels, peaks and gains are held as the bit patterns of 32-bit floats; the
//! arithmetic on them comes in as closures.

use vstd::prelude::*;

verus! {

/// The bit pattern of a gain of one, which is also that of a full-scale peak.
pub const UNITY: u32 = 0x3f80_0000;

/// Which ReplayGain tags, if any, the engine applies during playback.
#[derive(Clone, Copy, Debug, PartialEq, Eq, Structural)]
pub enum ReplayGainMode {
    /// Apply no gain; play at unity.
    Off,
    /// Apply per-track ReplayGain tags.
    Track,
    /// Apply per-album ReplayGain tags.
    Album,
}

impl Default for ReplayGainMode {
    fn default() -> (mode: Self)
        ensures
            mode == ReplayGainMode::Off,
    {
        ReplayGainMode::Off
    }
}

/// ReplayGain values parsed from a track's metadata.
#[derive(Clone, Copy, Debug)]
pub struct ReplayGainInfo {
    pub track_gain_db: Option<u32>,
    pub track_peak: Option<u32>,
    pub album_gain_db: Option<u32>,
    pub album_peak: Option<u32>,
}

impl Default for ReplayGainInfo {
    fn default() -> (info: Self)
        ensures
            info == untagged(),
    {
        ReplayGainInfo {
            track_gain_db: None,
            track_peak: None,
            album_gain_db: None,
            album_peak: None,
        }
    }
}

/// The values of a track without ReplayGain tags.
pub open spec fn untagged() -> ReplayGainInfo {
    ReplayGainInfo { track_gain_db: None, track_peak: None, album_gain_db: None, album_peak: None }
}

/// The first value that is there.
pub open spec fn either(first: Option<u32>, second: Option<u32>) -> Option<u32> {
    match first {
        Some(_) => first,
        None => second,
    }
}

/// A peak limits the gain only where it lies above silence and no higher than
/// full scale. Such floats order like their bit patterns, and every other float
/// has a pattern outside this range.
pub open spec fn limits(peak: u32) -> bool {
    0 < peak <= UNITY
}

/// The one of two values to use.
fn first_of(first: Option<u32>, second: Option<u32>) -> (value: Option<u32>)
    ensures
        value == either(first, second),
{
    match first {
        Some(_) => first,
        None => second,
    }
}

impl ReplayGainInfo {
    /// The gain in decibels that applies in `mode`: that of the mode's own
    /// scope, else that of the other one.
    pub open spec fn gain_db(self, mode: ReplayGainMode) -> Option<u32> {
        match mode {
            ReplayGainMode::Off => None,
            ReplayGainMode::Track => either(self.track_gain_db, self.album_gain_db),
            ReplayGainMode::Album => either(self.album_gain_db, self.track_gain_db),
        }
    }

    /// The peak that applies in `mode`, chosen the same way.
    pub open spec fn peak(self, mode: ReplayGainMode) -> Option<u32> {
        match mode {
            ReplayGainMode::Off => None,
            ReplayGainMode::Track => either(self.track_peak, self.album_peak),
            ReplayGainMode::Album => either(self.album_peak, self.track_peak),
        }
    }

    /// `gain` is the linear gain for `mode`, given what turns decibels into a
    /// factor and what keeps a factor from exceeding the inverse of a peak.
    pub open spec fn is_linear_gain<F: Fn(u32) -> u32, G: Fn(u32, u32) -> u32>(
        self,
        mode: ReplayGainMode,
        from_db: F,
        clamp: G,
        gain: u32,
    ) -> bool {
        match self.gain_db(mode) {
            None => gain == UNITY,
            Some(db) => match self.peak(mode) {
                Some(peak) if limits(peak) => exists|raw: u32|
                    call_ensures(from_db, (db,), raw) && #[trigger] call_ensures(
                        clamp,
                        (raw, peak),
                        gain,
                    ),
                _ => call_ensures(from_db, (db,), gain),
            },
        }
    }

    /// Linear gain for `mode`, falling back to the other scope's tags and
    /// clamped against the peak so amplification can't clip. Unity when
    /// untagged.
    pub fn linear_gain<F: Fn(u32) -> u32, G: Fn(u32, u32) -> u32>(
        &self,
        mode: ReplayGainMode,
        from_db: F,
        clamp: G,
    ) -> (gain: u32)
        requires
            forall|db: u32| #[trigger] call_requires(from_db, (db,)),
            forall|raw: u32, peak: u32| #[trigger] call_requires(clamp, (raw, peak)),
        ensures
            self.is_linear_gain(mode, from_db, clamp, gain),
    {
        let (gain_db, peak) = match mode {
            ReplayGainMode::Off => return UNITY,
            ReplayGainMode::Track => (
                first_of(self.track_gain_db, self.album_gain_db),
                first_of(self.track_peak, self.album_peak),
            ),
            ReplayGainMode::Album => (
                first_of(self.album_gain_db, self.track_gain_db),
                first_of(self.album_peak, self.track_peak),
            ),
        };
        match gain_db {
            None => UNITY,
            Some(db) => {
                let raw: u32 = from_db(db);
                match peak {
                    Some(peak) => if 0 < peak && peak <= UNITY {
                        clamp(raw, peak)
                    } else {
                        raw
                    },
                    None => raw,
                }
            },
        }
    }
}

/// A metadata tag, as far as ReplayGain is concerned.
#[derive(Clone, Debug, PartialEq)]
pub enum RgTag {
    TrackGain(String),
    TrackPeak(String),
    AlbumGain(String),
    AlbumPeak(String),
    /// Any other tag.
    Unrelated,
}

/// The tags of one track of the file.
pub struct TrackTags {
    pub track_id: u64,
    pub tags: Vec<RgTag>,
}

/// The tags of the blocks of `per_track` that belong to `track_id`, in order.
pub open spec fn tags_of(per_track: Seq<TrackTags>, track_id: u64) -> Seq<RgTag>
    decreases per_track.len(),
{
    if per_track.len() == 0 {
        Seq::empty()
    } else {
        let earlier = tags_of(per_track.drop_last(), track_id);
        if per_track.last().track_id == track_id {
            earlier + per_track.last().tags@
        } else {
            earlier
        }
    }
}

/// `after` is `before` with the value of `tag` put in its place, which empties
/// the place where the value does not parse.
pub open spec fn tag_applied<P: Fn(&String) -> Option<u32>>(
    before: ReplayGainInfo,
    tag: RgTag,
    parse: P,
    after: ReplayGainInfo,
) -> bool {
    match tag {
        RgTag::TrackGain(value) => call_ensures(parse, (&value,), after.track_gain_db) && after
            == (ReplayGainInfo { track_gain_db: after.track_gain_db, ..before }),
        RgTag::TrackPeak(value) => call_ensures(parse, (&value,), after.track_peak) && after == (
        ReplayGainInfo { track_peak: after.track_peak, ..before }),
        RgTag::AlbumGain(value) => call_ensures(parse, (&value,), after.album_gain_db) && after
            == (ReplayGainInfo { album_gain_db: after.album_gain_db, ..before }),
        RgTag::AlbumPeak(value) => call_ensures(parse, (&value,), after.album_peak) && after == (
        ReplayGainInfo { album_peak: after.album_peak, ..before }),
        RgTag::Unrelated => after == before,
    }
}

/// `after` is `before` with `tags` put in place one after the other, so that the
/// last of each kind counts.
pub open spec fn tags_applied<P: Fn(&String) -> Option<u32>>(
    before: ReplayGainInfo,
    tags: Seq<RgTag>,
    parse: P,
    after: ReplayGainInfo,
) -> bool
    decreases tags.len(),
{
    if tags.len() == 0 {
        after == before
    } else {
        exists|middle: ReplayGainInfo|
            #![trigger tag_applied(middle, tags.last(), parse, after)]
            tags_applied(before, tags.drop_last(), parse, middle) && tag_applied(
                middle,
                tags.last(),
                parse,
                after,
            )
    }
}

/// Puts the tags of `block` in place.
fn apply_tags<P: Fn(&String) -> Option<u32>>(
    rg: ReplayGainInfo,
    done: Ghost<Seq<RgTag>>,
    block: &Vec<RgTag>,
    parse: &P,
) -> (after: ReplayGainInfo)
    requires
        tags_applied(untagged(), done@, *parse, rg),
        forall|value: &String| #[trigger] call_requires(*parse, (value,)),
    ensures
        tags_applied(untagged(), done@ + block@, *parse, after),
{
    let mut rg: ReplayGainInfo = rg;
    let mut i: usize = 0;
    assert(done@ + block@.take(0) =~= done@);
    while i < block.len()
        invariant
            i <= block@.len(),
            tags_applied(untagged(), done@ + block@.take(i as int), *parse, rg),
            forall|value: &String| #[trigger] call_requires(*parse, (value,)),
        decreases block@.len() - i,
    {
        let ghost before = rg;
        match &block[i] {
            RgTag::TrackGain(value) => {
                rg.track_gain_db = parse(value);
            },
            RgTag::TrackPeak(value) => {
                rg.track_peak = parse(value);
            },
            RgTag::AlbumGain(value) => {
                rg.album_gain_db = parse(value);
            },
            RgTag::AlbumPeak(value) => {
                rg.album_peak = parse(value);
            },
            RgTag::Unrelated => {},
        }
        proof {
            let tags = done@ + block@.take(i + 1);
            assert(tags.drop_last() =~= done@ + block@.take(i as int));
            assert(tags.last() == block@[i as int]);
            assert(tag_applied(before, tags.last(), *parse, rg));
        }
        i = i + 1;
    }
    assert(block@.take(i as int) =~= block@);
    rg
}

/// Collects ReplayGain values from the media-level tags and then from those of
/// the track `track_id`.
pub fn read_replaygain<P: Fn(&String) -> Option<u32>>(
    media: &Vec<RgTag>,
    per_track: &Vec<TrackTags>,
    track_id: u32,
    parse: P,
) -> (rg: ReplayGainInfo)
    requires
        forall|value: &String| #[trigger] call_requires(parse, (value,)),
    ensures
        tags_applied(untagged(), media@ + tags_of(per_track@, track_id as u64), parse, rg),
{
    let empty = ReplayGainInfo::default();
    let mut rg: ReplayGainInfo = apply_tags(empty, Ghost(Seq::empty()), media, &parse);
    assert(Seq::<RgTag>::empty() + media@ =~= media@);
    assert(media@ + tags_of(per_track@.take(0), track_id as u64) =~= media@);
    let mut i: usize = 0;
    while i < per_track.len()
        invariant
            i <= per_track@.len(),
            tags_applied(
                untagged(),
                media@ + tags_of(per_track@.take(i as int), track_id as u64),
                parse,
                rg,
            ),
            forall|value: &String| #[trigger] call_requires(parse, (value,)),
        decreases per_track@.len() - i,
    {
        let ghost done = media@ + tags_of(per_track@.take(i as int), track_id as u64);
        proof {
            let upto = per_track@.take(i + 1);
            assert(upto.drop_last() =~= per_track@.take(i as int));
            assert(upto.last() == per_track@[i as int]);
            let tags = per_track@[i as int].tags@;
            assert(media@ + (tags_of(per_track@.take(i as int), track_id as u64) + tags) =~= done
                + tags);
        }
        if per_track[i].track_id == track_id as u64 {
            rg = apply_tags(rg, Ghost(done), &per_track[i].tags, &parse);
        }
        i = i + 1;
    }
    assert(per_track@.take(i as int) =~= per_track@);
    rg
}

/// Whether a character is white space: `char::is_whitespace`.
pub uninterp spec fn is_white(c: char) -> bool;

/// Whether a character is a letter: `char::is_alphabetic`.
pub uninterp spec fn is_letter(c: char) -> bool;

/// `char::is_whitespace`: whether the character has the Unicode property
/// `White_Space`. Named, as the property is a table.
#[verifier::external_body]
fn char_is_white(c: char) -> (white: bool)
    ensures
        white == is_white(c),
{
    c.is_whitespace()
}

/// `char::is_alphabetic`: whether the character has the Unicode property
/// `Alphabetic`. Named, as the property is a table.
#[verifier::external_body]
fn char_is_letter(c: char) -> (letter: bool)
    ensures
        letter == is_letter(c),
{
    c.is_alphabetic()
}

/// `text` without the white space at its end.
pub open spec fn without_white_end(text: Seq<char>) -> Seq<char>
    decreases text.len(),
{
    if text.len() > 0 && is_white(text.last()) {
        without_white_end(text.drop_last())
    } else {
        text
    }
}

/// `text` without the letters at its end.
pub open spec fn without_letter_end(text: Seq<char>) -> Seq<char>
    decreases text.len(),
{
    if text.len() > 0 && is_letter(text.last()) {
        without_letter_end(text.drop_last())
    } else {
        text
    }
}

/// `text` without the white space at its start.
pub open spec fn without_white_start(text: Seq<char>) -> Seq<char>
    decreases text.len(),
{
    if text.len() > 0 && is_white(text[0]) {
        without_white_start(text.skip(1))
    } else {
        text
    }
}

/// `text` without the white space around it.
pub open spec fn trimmed(text: Seq<char>) -> Seq<char> {
    without_white_end(without_white_start(text))
}

/// The number in a ReplayGain tag: what is left without the white space around
/// the value, a trailing unit like "dB", and the white space before the unit.
pub open spec fn number_text(value: Seq<char>) -> Seq<char> {
    trimmed(without_letter_end(trimmed(value)))
}

/// Removes the white space around `text`.
fn trim(text: &mut Vec<char>)
    ensures
        final(text)@ == trimmed(old(text)@),
{
    let ghost whole = text@;
    let mut start: usize = 0;
    assert(whole.skip(0) =~= whole);
    while start < text.len() && char_is_white(text[start])
        invariant
            start <= text@.len(),
            text@ == whole,
            without_white_start(whole) == without_white_start(whole.skip(start as int)),
        decreases text@.len() - start,
    {
        assert(whole.skip(start as int)[0] == whole[start as int]);
        assert(whole.skip(start as int).skip(1) =~= whole.skip(start + 1));
        start = start + 1;
    }
    let ghost front = whole.skip(start as int);
    assert(start < whole.len() ==> front[0] == whole[start as int]);
    assert(without_white_start(whole) == front);
    let mut kept: Vec<char> = Vec::new();
    let mut i: usize = start;
    while i < text.len()
        invariant
            start <= i <= text@.len(),
            text@ == whole,
            kept@ == whole.subrange(start as int, i as int),
        decreases text@.len() - i,
    {
        kept.push(text[i]);
        i = i + 1;
    }
    assert(kept@ =~= front);
    while kept.len() > 0 && char_is_white(kept[kept.len() - 1])
        invariant
            without_white_end(front) == without_white_end(kept@),
        decreases kept@.len(),
    {
        let ghost longer = kept@;
        kept.pop();
        assert(kept@ =~= longer.drop_last());
    }
    *text = kept;
}

/// The characters of a string.
fn characters(value: &str) -> (text: Vec<char>)
    ensures
        text@ == value@,
{
    let n: usize = value.unicode_len();
    let mut text: Vec<char> = Vec::new();
    let mut i: usize = 0;
    while i < n
        invariant
            i <= n,
            n == value@.len(),
            text@ == value@.take(i as int),
        decreases n - i,
    {
        text.push(value.get_char(i));
        i = i + 1;
    }
    assert(value@.take(i as int) =~= value@);
    text
}

/// Parses a ReplayGain tag value, tolerating a trailing unit like "dB". `parse`
/// reads the number itself.
pub fn parse_rg<P: Fn(&Vec<char>) -> Option<u32>>(value: &str, parse: P) -> (number: Option<u32>)
    requires
        forall|text: &Vec<char>| #[trigger] call_requires(parse, (text,)),
    ensures
        exists|text: &Vec<char>| #[trigger]
            call_ensures(parse, (text,), number) && text@ == number_text(value@),
{
    let mut text: Vec<char> = characters(value);
    trim(&mut text);
    let ghost inner = text@;
    while text.len() > 0 && char_is_letter(text[text.len() - 1])
        invariant
            without_letter_end(inner) == without_letter_end(text@),
        decreases text@.len(),
    {
        let ghost longer = text@;
        text.pop();
        assert(text@ =~= longer.drop_last());
    }
    trim(&mut text);
    parse(&text)
}

/// Without tags of its own scope a mode uses the other scope's, so that both
/// modes then agree.
pub proof fn modes_fall_back(info: ReplayGainInfo)
    requires
        info.album_gain_db is None && info.album_peak is None || info.track_gain_db is None
            && info.track_peak is None,
    ensures
        info.gain_db(ReplayGainMode::Track) == info.gain_db(ReplayGainMode::Album),
        info.peak(ReplayGainMode::Track) == info.peak(ReplayGainMode::Album),
{
}

/// A track without gain tags plays at unity in every mode, and every track does
/// in mode [`ReplayGainMode::Off`].
pub proof fn untagged_plays_at_unity<F: Fn(u32) -> u32, G: Fn(u32, u32) -> u32>(
    info: ReplayGainInfo,
    mode: ReplayGainMode,
    from_db: F,
    clamp: G,
    gain: u32,
)
    requires
        mode == ReplayGainMode::Off || info.track_gain_db is None && info.album_gain_db is None,
        info.is_linear_gain(mode, from_db, clamp, gain),
    ensures
        gain == UNITY,
{
}

/// Wherever a usable peak applies, the gain is a result of the clamp against
/// that peak: what the clamp keeps below a bound, the gain keeps below it.
pub proof fn usable_peak_bounds_gain<F: Fn(u32) -> u32, G: Fn(u32, u32) -> u32>(
    info: ReplayGainInfo,
    mode: ReplayGainMode,
    from_db: F,
    clamp: G,
    gain: u32,
    bound: spec_fn(u32, u32) -> bool,
)
    requires
        info.gain_db(mode) is Some,
        info.peak(mode) is Some,
        limits(info.peak(mode)->0),
        info.is_linear_gain(mode, from_db, clamp, gain),
        forall|raw: u32, peak: u32, out: u32| #[trigger]
            call_ensures(clamp, (raw, peak), out) ==> bound(out, peak),
    ensures
        bound(gain, info.peak(mode)->0),
{
}

/// A mode goes by the tags of its own scope wherever they are there, whatever
/// those of the other scope say; only where one is missing does the other scope's
/// take its place.
pub proof fn modes_go_by_their_own_tags(info: ReplayGainInfo, db: u32, peak: u32)
    ensures
        info.track_gain_db == Some(db) ==> info.gain_db(ReplayGainMode::Track) == Some(db),
        info.album_gain_db == Some(db) ==> info.gain_db(ReplayGainMode::Album) == Some(db),
        info.track_peak == Some(peak) ==> info.peak(ReplayGainMode::Track) == Some(peak),
        info.album_peak == Some(peak) ==> info.peak(ReplayGainMode::Album) == Some(peak),
        info.track_gain_db is None ==> info.gain_db(ReplayGainMode::Track) == info.album_gain_db,
        info.album_gain_db is None ==> info.gain_db(ReplayGainMode::Album) == info.track_gain_db,
        info.track_peak is None ==> info.peak(ReplayGainMode::Track) == info.album_peak,
        info.album_peak is None ==> info.peak(ReplayGainMode::Album) == info.track_peak,
{
}

/// In mode [`ReplayGainMode::Track`] the gain is that of the track's decibels,
/// clamped against the track's peak where that lies above silence and no higher
/// than full scale. The album's tags count only for what the track lacks.
pub proof fn track_mode_plays_the_tracks_gain<F: Fn(u32) -> u32, G: Fn(u32, u32) -> u32>(
    info: ReplayGainInfo,
    from_db: F,
    clamp: G,
    gain: u32,
    db: u32,
    peak: u32,
)
    requires
        info.is_linear_gain(ReplayGainMode::Track, from_db, clamp, gain),
        info.track_gain_db == Some(db) || info.track_gain_db is None && info.album_gain_db == Some(
            db,
        ),
    ensures
        info.track_peak is None && info.album_peak is None ==> call_ensures(from_db, (db,), gain),
        info.track_peak == Some(peak) || info.track_peak is None && info.album_peak == Some(peak)
            ==> if 0 < peak <= 0x3f80_0000 {
            exists|raw: u32|
                call_ensures(from_db, (db,), raw) && #[trigger] call_ensures(
                    clamp,
                    (raw, peak),
                    gain,
                )
        } else {
            call_ensures(from_db, (db,), gain)
        },
{
}

/// The same in mode [`ReplayGainMode::Album`], with the scopes exchanged.
pub proof fn album_mode_plays_the_albums_gain<F: Fn(u32) -> u32, G: Fn(u32, u32) -> u32>(
    info: ReplayGainInfo,
    from_db: F,
    clamp: G,
    gain: u32,
    db: u32,
    peak: u32,
)
    requires
        info.is_linear_gain(ReplayGainMode::Album, from_db, clamp, gain),
        info.album_gain_db == Some(db) || info.album_gain_db is None && info.track_gain_db == Some(
            db,
        ),
    ensures
        info.track_peak is None && info.album_peak is None ==> call_ensures(from_db, (db,), gain),
        info.album_peak == Some(peak) || info.album_peak is None && info.track_peak == Some(peak)
            ==> if 0 < peak <= 0x3f80_0000 {
            exists|raw: u32|
                call_ensures(from_db, (db,), raw) && #[trigger] call_ensures(
                    clamp,
                    (raw, peak),
                    gain,
                )
        } else {
            call_ensures(from_db, (db,), gain)
        },
{
}

/// `value` is what the last tag of its kind says: `texts` gives the text of a tag
/// of that kind. Without such a tag there is no value.
pub open spec fn is_last_value<P: Fn(&String) -> Option<u32>>(
    tags: Seq<RgTag>,
    texts: spec_fn(RgTag) -> Option<String>,
    parse: P,
    value: Option<u32>,
) -> bool {
    ||| value is None && forall|i: int| 0 <= i < tags.len() ==> texts(#[trigger] tags[i]) is None
    ||| exists|i: int|
        0 <= i < tags.len() && texts(#[trigger] tags[i]) is Some && call_ensures(
            parse,
            (&texts(tags[i])->0,),
            value,
        ) && forall|j: int| i < j < tags.len() ==> texts(#[trigger] tags[j]) is None
}

/// One more tag leaves the last value as it was, or becomes it.
proof fn lemma_last_value<P: Fn(&String) -> Option<u32>>(
    tags: Seq<RgTag>,
    texts: spec_fn(RgTag) -> Option<String>,
    parse: P,
    before: Option<u32>,
    value: Option<u32>,
)
    requires
        tags.len() > 0,
        is_last_value(tags.drop_last(), texts, parse, before),
        match texts(tags.last()) {
            Some(text) => call_ensures(parse, (&text,), value),
            None => value == before,
        },
    ensures
        is_last_value(tags, texts, parse, value),
{
    let earlier = tags.drop_last();
    let n = earlier.len() as int;
    assert(tags.last() == tags[n]);
    if texts(tags[n]) is None {
        if forall|i: int| 0 <= i < earlier.len() ==> texts(#[trigger] earlier[i]) is None {
            assert forall|i: int| 0 <= i < tags.len() implies texts(#[trigger] tags[i]) is None by {
                if i < n {
                    assert(tags[i] == earlier[i]);
                }
            }
            if !(value is None) {
                let i = choose|i: int|
                    0 <= i < earlier.len() && texts(#[trigger] earlier[i]) is Some;
                assert(texts(earlier[i]) is None);
            }
        } else {
            let i = choose|i: int|
                0 <= i < earlier.len() && texts(#[trigger] earlier[i]) is Some && call_ensures(
                    parse,
                    (&texts(earlier[i])->0,),
                    before,
                ) && forall|j: int| i < j < earlier.len() ==> texts(#[trigger] earlier[j]) is None;
            assert(tags[i] == earlier[i]);
            assert forall|j: int| i < j < tags.len() implies texts(#[trigger] tags[j]) is None by {
                if j < n {
                    assert(tags[j] == earlier[j]);
                }
            }
        }
    }
}

/// Each ReplayGain value is what the last tag of its own kind says, and no tag of
/// another kind has a part in it. Those of the track come after those of the
/// file, so that they win.
pub proof fn last_tag_of_each_kind_counts<P: Fn(&String) -> Option<u32>>(
    tags: Seq<RgTag>,
    parse: P,
    info: ReplayGainInfo,
)
    requires
        tags_applied(untagged(), tags, parse, info),
    ensures
        is_last_value(
            tags,
            |tag: RgTag|
                match tag {
                    RgTag::TrackGain(text) => Some(text),
                    _ => None,
                },
            parse,
            info.track_gain_db,
        ),
        is_last_value(
            tags,
            |tag: RgTag|
                match tag {
                    RgTag::TrackPeak(text) => Some(text),
                    _ => None,
                },
            parse,
            info.track_peak,
        ),
        is_last_value(
            tags,
            |tag: RgTag|
                match tag {
                    RgTag::AlbumGain(text) => Some(text),
                    _ => None,
                },
            parse,
            info.album_gain_db,
        ),
        is_last_value(
            tags,
            |tag: RgTag|
                match tag {
                    RgTag::AlbumPeak(text) => Some(text),
                    _ => None,
                },
            parse,
            info.album_peak,
        ),
    decreases tags.len(),
{
    let track_gain = |tag: RgTag|
        match tag {
            RgTag::TrackGain(text) => Some(text),
            _ => None,
        };
    let track_peak = |tag: RgTag|
        match tag {
            RgTag::TrackPeak(text) => Some(text),
            _ => None,
        };
    let album_gain = |tag: RgTag|
        match tag {
            RgTag::AlbumGain(text) => Some(text),
            _ => None,
        };
    let album_peak = |tag: RgTag|
        match tag {
            RgTag::AlbumPeak(text) => Some(text),
            _ => None,
        };
    if tags.len() > 0 {
        let middle = choose|middle: ReplayGainInfo|
            #![trigger tag_applied(middle, tags.last(), parse, info)]
            tags_applied(untagged(), tags.drop_last(), parse, middle) && tag_applied(
                middle,
                tags.last(),
                parse,
                info,
            );
        last_tag_of_each_kind_counts(tags.drop_last(), parse, middle);
        lemma_last_value(tags, track_gain, parse, middle.track_gain_db, info.track_gain_db);
        lemma_last_value(tags, track_peak, parse, middle.track_peak, info.track_peak);
        lemma_last_value(tags, album_gain, parse, middle.album_gain_db, info.album_gain_db);
        lemma_last_value(tags, album_peak, parse, middle.album_peak, info.album_peak);
    }
}

/// Of the tags kept per track, exactly those of the track itself count.
pub proof fn tags_of_other_tracks_do_not_count(per_track: Seq<TrackTags>, track_id: u64, at: int)
    requires
        0 <= at < per_track.len(),
        per_track[at].track_id == track_id,
        forall|i: int|
            0 <= i < per_track.len() && i != at ==> (#[trigger] per_track[i]).track_id != track_id,
    ensures
        tags_of(per_track, track_id) == per_track[at].tags@,
        tags_of(per_track.take(at), track_id) == Seq::<RgTag>::empty(),
    decreases per_track.len(),
{
    let earlier = per_track.drop_last();
    if at < per_track.len() - 1 {
        assert(per_track.last() == per_track[per_track.len() - 1]);
        assert forall|i: int| 0 <= i < earlier.len() && i != at implies (
        #[trigger] earlier[i]).track_id != track_id by {
            assert(earlier[i] == per_track[i]);
        }
        tags_of_other_tracks_do_not_count(earlier, track_id, at);
        assert(earlier.take(at) =~= per_track.take(at));
    } else {
        assert(earlier =~= per_track.take(at));
        lemma_no_tags(earlier, track_id);
        assert(Seq::<RgTag>::empty() + per_track[at].tags@ =~= per_track[at].tags@);
    }
}

/// Without a block of the track there are no tags of it.
proof fn lemma_no_tags(per_track: Seq<TrackTags>, track_id: u64)
    requires
        forall|i: int|
            0 <= i < per_track.len() ==> (#[trigger] per_track[i]).track_id != track_id,
    ensures
        tags_of(per_track, track_id) == Seq::<RgTag>::empty(),
    decreases per_track.len(),
{
    if per_track.len() > 0 {
        let earlier = per_track.drop_last();
        assert(per_track.last() == per_track[per_track.len() - 1]);
        assert forall|i: int| 0 <= i < earlier.len() implies (#[trigger] earlier[i]).track_id
            != track_id by {
            assert(earlier[i] == per_track[i]);
        }
        lemma_no_tags(earlier, track_id);
    }
}

/// White space before a text that starts otherwise is all that is removed there.
proof fn lemma_white_start(white: Seq<char>, text: Seq<char>)
    requires
        forall|i: int| 0 <= i < white.len() ==> is_white(#[trigger] white[i]),
        text.len() > 0 ==> !is_white(text[0]),
    ensures
        without_white_start(white + text) == text,
    decreases white.len(),
{
    if white.len() == 0 {
        assert(white + text =~= text);
    } else {
        assert((white + text)[0] == white[0]);
        assert((white + text).skip(1) =~= white.skip(1) + text);
        lemma_white_start(white.skip(1), text);
    }
}

/// White space after a text that ends otherwise is all that is removed there.
proof fn lemma_white_end(text: Seq<char>, white: Seq<char>)
    requires
        forall|i: int| 0 <= i < white.len() ==> is_white(#[trigger] white[i]),
        text.len() > 0 ==> !is_white(text.last()),
    ensures
        without_white_end(text + white) == text,
    decreases white.len(),
{
    if white.len() == 0 {
        assert(text + white =~= text);
    } else {
        assert((text + white).last() == white[white.len() - 1]);
        assert((text + white).drop_last() =~= text + white.drop_last());
        lemma_white_end(text, white.drop_last());
    }
}

/// Letters after a text that ends otherwise are all that is removed there.
proof fn lemma_letter_end(text: Seq<char>, letters: Seq<char>)
    requires
        forall|i: int| 0 <= i < letters.len() ==> is_letter(#[trigger] letters[i]),
        text.len() > 0 ==> !is_letter(text.last()),
    ensures
        without_letter_end(text + letters) == text,
    decreases letters.len(),
{
    if letters.len() == 0 {
        assert(text + letters =~= text);
    } else {
        assert((text + letters).last() == letters[letters.len() - 1]);
        assert((text + letters).drop_last() =~= text + letters.drop_last());
        lemma_letter_end(text, letters.drop_last());
    }
}

/// A number is read whole, whatever white space stands around it and whatever unit
/// of letters follows it, with white space in between or without.
pub proof fn number_is_read_without_its_unit(
    before: Seq<char>,
    number: Seq<char>,
    gap: Seq<char>,
    unit: Seq<char>,
    after: Seq<char>,
)
    requires
        forall|i: int| 0 <= i < before.len() ==> is_white(#[trigger] before[i]),
        forall|i: int|
            0 <= i < gap.len() ==> is_white(#[trigger] gap[i]) && !is_letter(gap[i]),
        forall|i: int| 0 <= i < after.len() ==> is_white(#[trigger] after[i]),
        forall|i: int|
            0 <= i < unit.len() ==> is_letter(#[trigger] unit[i]) && !is_white(unit[i]),
        number.len() > 0,
        !is_white(number[0]),
        !is_white(number.last()),
        !is_letter(number.last()),
    ensures
        number_text(before + (number + gap + unit) + after) == number,
        number_text(number) == number,
{
    let none = Seq::<char>::empty();
    let spaced = number + gap;
    let inner = spaced + unit;
    if unit.len() > 0 {
        let whole = before + inner + after;
        assert(whole =~= before + (inner + after));
        assert((inner + after)[0] == number[0]);
        lemma_white_start(before, inner + after);
        assert(inner.last() == unit[unit.len() - 1]);
        lemma_white_end(inner, after);
        assert(trimmed(whole) == inner);
        if gap.len() > 0 {
            assert(spaced.last() == gap[gap.len() - 1]);
        } else {
            assert(spaced =~= number);
        }
        lemma_letter_end(spaced, unit);
        lemma_white_start(none, spaced);
        assert(none + spaced =~= spaced);
        assert(spaced[0] == number[0]);
        lemma_white_end(number, gap);
        assert(trimmed(spaced) == number);
    } else {
        assert(inner =~= number + gap);
        let white = gap + after;
        let whole = before + inner + after;
        assert(whole =~= before + (number + white));
        assert forall|i: int| 0 <= i < white.len() implies is_white(#[trigger] white[i]) by {
            if i < gap.len() {
                assert(white[i] == gap[i]);
            } else {
                assert(white[i] == after[i - gap.len()]);
            }
        }
        assert((number + white)[0] == number[0]);
        lemma_white_start(before, number + white);
        lemma_white_end(number, white);
        assert(trimmed(whole) == number);
        lemma_letter_end(number, none);
        assert(number + none =~= number);
        lemma_white_start(none, number);
        assert(none + number =~= number);
        lemma_white_end(number, none);
    }
    assert(number + none =~= number && none + number =~= number);
    lemma_letter_end(number, none);
    lemma_white_start(none, number);
    lemma_white_end(number, none);
}

} // verus!
