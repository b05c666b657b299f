//! What the music services tell: songs, playlists, artists, charts, lyrics.

use vstd::prelude::*;
use crate::source::{copy_opt, SourceKind};
use crate::text::{
    cat2, cat3, contains, dec, dec_text, has_text, join_names, occurs_at, replace, replaced_from,
    replacing_keeps_what_stands_around, same, separated, signed, signed_text,
};

verus! {

/// What is shown for a song without a known singer.
pub const UNKNOWN_SINGER: &'static str = "未知歌手";

#[derive(Debug, PartialEq, Eq)]
pub struct Song {
    /// The identity of the recording within its service.
    pub hash: String,
    pub name: String,
    /// The singers as they are shown; empty where none is known.
    pub singers: String,
    pub album: Option<String>,
    /// The address of the cover, with a place for its size.
    pub cover: Option<String>,
    pub duration_ms: u64,
    /// The service that the song comes from.
    pub source: SourceKind,
    /// The place of the song within a cloud playlist.
    pub file_id: Option<i64>,
    /// Whether the service marks the song as playable.
    pub playable: bool,
}

impl Clone for Song {
    fn clone(&self) -> (r: Self)
        ensures
            r == *self,
    {
        Song {
            hash: self.hash.clone(),
            name: self.name.clone(),
            singers: self.singers.clone(),
            album: copy_opt(&self.album),
            cover: copy_opt(&self.cover),
            duration_ms: self.duration_ms,
            source: self.source,
            file_id: self.file_id,
            playable: self.playable,
        }
    }
}

impl Song {
    pub open spec fn shown_singers(self) -> Seq<char> {
        if self.singers@.len() == 0 {
            UNKNOWN_SINGER@
        } else {
            self.singers@
        }
    }

    pub fn singer_text(&self) -> (r: String)
        ensures
            r@ == self.shown_singers(),
    {
        if self.singers.as_str().is_empty() {
            UNKNOWN_SINGER.to_owned()
        } else {
            self.singers.clone()
        }
    }

    pub open spec fn key(self, quality: Seq<char>) -> Seq<char> {
        self.hash@ + "-"@ + quality
    }

    pub open spec fn trial_key(self, quality: Seq<char>) -> Seq<char> {
        self.hash@ + "-"@ + quality + "-trial"@
    }

    /// The key under which the song is cached: one for each quality.
    pub fn cache_key(&self, quality: &str) -> (r: String)
        ensures
            r@ == self.key(quality@),
    {
        cat3(self.hash.as_str(), "-", quality)
    }

    /// The key for an excerpt, so that it never stands in for the whole song.
    pub fn trial_cache_key(&self, quality: &str) -> (r: String)
        ensures
            r@ == self.trial_key(quality@),
    {
        let mut key = self.cache_key(quality);
        key.append("-trial");
        key
    }

    /// Whether the service marks the song as playable.
    pub fn looks_playable(&self) -> (r: bool)
        ensures
            r == self.playable,
    {
        self.playable
    }

    /// The singers and the name, for messages.
    pub open spec fn title(self) -> Seq<char> {
        if self.shown_singers() == UNKNOWN_SINGER@ {
            self.name@
        } else {
            self.shown_singers() + " - "@ + self.name@
        }
    }
}

/// The singers and the name of a song, for messages; an unknown singer is left
/// out.
pub fn describe_song(song: &Song) -> (r: String)
    ensures
        r@ == song.title(),
{
    let singers = song.singer_text();
    if same(singers.as_str(), UNKNOWN_SINGER) {
        song.name.clone()
    } else {
        cat3(singers.as_str(), " - ", song.name.as_str())
    }
}

/// An address with the place for the size filled in, where it has one.
pub open spec fn sized(url: Seq<char>, size: u32) -> Seq<char> {
    if has_text(url, "{size}"@) {
        replaced_from(url, "{size}"@, dec(size as nat), 0)
    } else {
        url
    }
}

/// Fills in the size that an address asks for.
pub fn expand_cover_size(url: &str, size: u32) -> (r: String)
    ensures
        r@ == sized(url@, size),
{
    proof {
        reveal_strlit("{size}");
    }
    if contains(url, "{size}") {
        replace(url, "{size}", dec_text(size as u64).as_str())
    } else {
        url.to_owned()
    }
}

#[derive(Debug, PartialEq, Eq)]
pub struct Playlist {
    pub id: String,
    pub name: String,
    /// The number by which the account's own playlists are changed.
    pub list_id: Option<i64>,
    /// Whether it is one of the account's own.
    pub is_own: bool,
    pub song_count: u64,
    pub creator: Option<String>,
}

impl Clone for Playlist {
    fn clone(&self) -> (r: Self)
        ensures
            r == *self,
    {
        Playlist {
            id: self.id.clone(),
            name: self.name.clone(),
            list_id: self.list_id,
            is_own: self.is_own,
            song_count: self.song_count,
            creator: copy_opt(&self.creator),
        }
    }
}

impl Default for Playlist {
    fn default() -> (r: Self)
        ensures
            r.id@.len() == 0,
            r.name@.len() == 0,
            r.list_id is None,
            !r.is_own,
            r.song_count == 0,
            r.creator is None,
    {
        Playlist {
            id: String::new(),
            name: String::new(),
            list_id: None,
            is_own: false,
            song_count: 0,
            creator: None,
        }
    }
}

impl Playlist {
    pub open spec fn writable(self) -> bool {
        self.is_own && self.list_id is Some
    }

    /// Whether songs can be added to it and taken out.
    pub fn is_writable(&self) -> (r: bool)
        ensures
            r == self.writable(),
    {
        self.is_own && self.list_id.is_some()
    }
}

#[derive(Debug, PartialEq, Eq)]
pub struct Artist {
    pub id: i64,
    pub name: String,
    pub song_count: Option<u64>,
    pub follower_count: Option<u64>,
}

impl Clone for Artist {
    fn clone(&self) -> (r: Self)
        ensures
            r == *self,
    {
        Artist {
            id: self.id,
            name: self.name.clone(),
            song_count: self.song_count,
            follower_count: self.follower_count,
        }
    }
}

#[derive(Debug, PartialEq, Eq)]
pub struct RankBoard {
    pub id: i64,
    pub name: String,
    pub update_frequency: Option<String>,
}

impl Clone for RankBoard {
    fn clone(&self) -> (r: Self)
        ensures
            r == *self,
    {
        RankBoard {
            id: self.id,
            name: self.name.clone(),
            update_frequency: copy_opt(&self.update_frequency),
        }
    }
}

/// The account's own data.
#[derive(Debug, PartialEq, Eq)]
pub struct UserInfo {
    pub nickname: String,
    /// The address of the portrait.
    pub pic: Option<String>,
}

/// What the service says of the membership, for wide and for narrow places.
#[derive(Debug, PartialEq, Eq)]
pub struct VipInfo {
    pub label: String,
    pub short_label: String,
}

impl Default for VipInfo {
    fn default() -> (r: Self)
        ensures
            r.label@.len() == 0,
            r.short_label@.len() == 0,
    {
        VipInfo { label: String::new(), short_label: String::new() }
    }
}

/// A line of lyrics and when it starts.
#[derive(Debug, PartialEq, Eq)]
pub struct LyricLine {
    pub start_ms: u64,
    pub text: String,
}

/// The last line that has started at `position_ms`.
pub open spec fn line_at(lines: Seq<LyricLine>, position_ms: int) -> Option<usize>
    decreases lines.len(),
{
    if lines.len() == 0 {
        None
    } else if lines.last().start_ms <= position_ms {
        Some((lines.len() - 1) as usize)
    } else {
        line_at(lines.drop_last(), position_ms)
    }
}

/// The last line that has started at `position_ms`.
pub fn index_at(lines: &Vec<LyricLine>, position_ms: u64) -> (r: Option<usize>)
    ensures
        r == line_at(lines@, position_ms as int),
        match r {
            Some(i) => i < lines@.len() && lines@[i as int].start_ms <= position_ms && forall|j: int|
                i < j < lines@.len() ==> #[trigger] lines@[j].start_ms > position_ms,
            None => forall|j: int|
                0 <= j < lines@.len() ==> #[trigger] lines@[j].start_ms > position_ms,
        },
{
    let mut i: usize = lines.len();
    assert(lines@.take(i as int) =~= lines@);
    while i > 0
        invariant
            i <= lines@.len(),
            line_at(lines@, position_ms as int) == line_at(
                lines@.take(i as int),
                position_ms as int,
            ),
            forall|j: int| i <= j < lines@.len() ==> #[trigger] lines@[j].start_ms > position_ms,
        decreases i,
    {
        assert(lines@.take(i as int).drop_last() =~= lines@.take(i - 1));
        if lines[i - 1].start_ms <= position_ms {
            return Some(i - 1);
        }
        i = i - 1;
    }
    None
}

/// The line that is sung at a place has begun there, and no line behind it has; where
/// no line has begun, none is sung.
pub proof fn sung_line_has_begun(lines: Seq<LyricLine>, position_ms: int)
    requires
        lines.len() <= usize::MAX,
    ensures
        match line_at(lines, position_ms) {
            Some(i) => i < lines.len() && lines[i as int].start_ms <= position_ms && forall|j: int|
                i < j < lines.len() ==> #[trigger] lines[j].start_ms > position_ms,
            None => forall|j: int|
                0 <= j < lines.len() ==> #[trigger] lines[j].start_ms > position_ms,
        },
    decreases lines.len(),
{
    if lines.len() > 0 && lines.last().start_ms > position_ms {
        let front = lines.drop_last();
        sung_line_has_begun(front, position_ms);
        assert forall|j: int| 0 <= j < front.len() implies #[trigger] lines[j] == front[j] by {}
    }
}

/// As a song goes on, the line that is sung never goes back.
pub proof fn lyrics_go_forward(lines: Seq<LyricLine>, earlier: int, later: int)
    requires
        lines.len() <= usize::MAX,
        earlier <= later,
        line_at(lines, earlier) is Some,
    ensures
        line_at(lines, later) is Some,
        line_at(lines, earlier)->0 <= line_at(lines, later)->0,
{
    sung_line_has_begun(lines, earlier);
    sung_line_has_begun(lines, later);
    let i = line_at(lines, earlier)->0 as int;
    assert(lines[i].start_ms <= later);
}

/// A song is cached apart for each quality, apart from other songs, and an excerpt never
/// under the key of the whole song.
pub proof fn cache_keys_tell_songs_apart(
    song: Song,
    other: Song,
    quality: Seq<char>,
    other_quality: Seq<char>,
)
    ensures
        song.key(quality) == song.key(other_quality) ==> quality == other_quality,
        song.key(quality) == other.key(quality) ==> song.hash@ == other.hash@,
        song.trial_key(quality) == song.trial_key(other_quality) ==> quality == other_quality,
        song.trial_key(quality) == other.trial_key(quality) ==> song.hash@ == other.hash@,
        song.trial_key(quality) != song.key(quality),
        other_quality.len() > 0 && other_quality.last() != 'l' ==> song.trial_key(quality)
            != other.key(other_quality),
        song.hash@.is_prefix_of(song.key(quality)),
        song.key(quality).is_prefix_of(song.trial_key(quality)),
{
    reveal_strlit("-");
    reveal_strlit("-trial");
    let n = song.hash@.len() as int;
    assert(song.key(quality).skip(n + 1) =~= quality);
    assert(song.key(other_quality).skip(n + 1) =~= other_quality);
    assert(song.trial_key(quality) =~= song.key(quality) + "-trial"@);
    assert(song.trial_key(other_quality) =~= song.key(other_quality) + "-trial"@);
    assert(other.trial_key(quality) =~= other.key(quality) + "-trial"@);
    assert(song.trial_key(quality).take(song.key(quality).len() as int) =~= song.key(quality));
    assert(song.trial_key(other_quality).take(song.key(other_quality).len() as int) =~= song.key(
        other_quality,
    ));
    assert(other.trial_key(quality).take(other.key(quality).len() as int) =~= other.key(quality));
    assert(song.key(quality).take(n) =~= song.hash@);
    assert(other.key(quality).take(other.hash@.len() as int) =~= other.hash@);
    assert(song.key(quality).len() == n + 1 + quality.len());
    assert(other.key(quality).len() == other.hash@.len() + 1 + quality.len());
    assert(song.trial_key(quality).last() == 'l');
    if other_quality.len() > 0 {
        assert(other.key(other_quality).last() == other_quality.last());
    }
    assert(song.hash@ =~= song.key(quality).subrange(0, n));
    assert(song.key(quality) =~= song.trial_key(quality).subrange(
        0,
        song.key(quality).len() as int,
    ));
}

/// What a song is called ends with its name, and begins with its singers where they are
/// known.
pub proof fn titles_name_the_song(song: Song)
    ensures
        song.singers@.len() == 0 ==> song.title() == song.name@,
        song.singers@.len() > 0 && song.singers@ != UNKNOWN_SINGER@ ==> {
            &&& song.title().len() == song.singers@.len() + 3 + song.name@.len()
            &&& song.title().take(song.singers@.len() as int) == song.singers@
            &&& song.title().skip(song.singers@.len() as int + 3) == song.name@
        },
{
    reveal_strlit(" - ");
    if song.singers@.len() > 0 && song.singers@ != UNKNOWN_SINGER@ {
        assert(song.title().take(song.singers@.len() as int) =~= song.singers@);
        assert(song.title().skip(song.singers@.len() as int + 3) =~= song.name@);
    }
}

/// What an unknown quality is called is the quality itself.
pub open spec fn quality_name(quality: Seq<char>) -> Seq<char> {
    if quality == "128"@ {
        "标准 128kbps"@
    } else if quality == "320"@ {
        "较高 320kbps"@
    } else if quality == "flac"@ {
        "无损 FLAC"@
    } else if quality == "high"@ {
        "高品"@
    } else if quality == "super"@ {
        "超高"@
    } else if quality == "viper_clear"@ {
        "蝰蛇母带"@
    } else {
        quality
    }
}

/// A quality in words.
pub fn quality_label(quality: &str) -> (r: String)
    ensures
        r@ == quality_name(quality@),
{
    if same(quality, "128") {
        "标准 128kbps".to_owned()
    } else if same(quality, "320") {
        "较高 320kbps".to_owned()
    } else if same(quality, "flac") {
        "无损 FLAC".to_owned()
    } else if same(quality, "high") {
        "高品".to_owned()
    } else if same(quality, "super") {
        "超高".to_owned()
    } else if same(quality, "viper_clear") {
        "蝰蛇母带".to_owned()
    } else {
        quality.to_owned()
    }
}

/// A count with its unit, where it is known and not zero.
pub open spec fn counted(count: Option<u64>, unit: Seq<char>) -> Seq<Seq<char>> {
    match count {
        Some(n) => if n > 0 {
            seq![dec(n as nat) + unit]
        } else {
            Seq::empty()
        },
        None => Seq::empty(),
    }
}

fn push_counted(parts: &mut Vec<String>, count: Option<u64>, unit: &str)
    ensures
        final(parts)@.map_values(|s: String| s@) == old(parts)@.map_values(|s: String| s@)
            + counted(count, unit@),
{
    match count {
        Some(n) => {
            if n > 0 {
                let number = dec_text(n);
                parts.push(cat2(number.as_str(), unit));
            }
        },
        None => {},
    }
    assert(parts@.map_values(|s: String| s@) =~= old(parts)@.map_values(|s: String| s@) + counted(
        count,
        unit@,
    ));
}

/// The second line of an artist: the songs and the followers, as far as they are
/// known and not zero.
pub fn artist_subtitle(artist: &Artist) -> (r: String)
    ensures
        r@ == separated(
            counted(artist.song_count, " 首"@) + counted(artist.follower_count, " 粉丝"@),
            " · "@,
        ),
{
    let mut parts: Vec<String> = Vec::new();
    push_counted(&mut parts, artist.song_count, " 首");
    push_counted(&mut parts, artist.follower_count, " 粉丝");
    assert(parts@.map_values(|s: String| s@) =~= counted(artist.song_count, " 首"@) + counted(
        artist.follower_count,
        " 粉丝"@,
    ));
    join_names(&parts, " · ")
}

/// The parts of a playlist's second line.
pub open spec fn playlist_parts(playlist: Playlist) -> Seq<Seq<char>> {
    counted(Some(playlist.song_count), " 首"@) + (match playlist.creator {
        Some(name) => if name@.len() > 0 {
            seq!["by "@ + name@]
        } else {
            Seq::empty()
        },
        None => Seq::empty(),
    }) + (if playlist.writable() {
        seq!["可写"@]
    } else {
        Seq::empty()
    })
}

/// The second line of a playlist: its songs, who made it, and whether it can be
/// changed.
pub fn playlist_subtitle(playlist: &Playlist) -> (r: String)
    ensures
        r@ == separated(playlist_parts(*playlist), " · "@),
{
    let mut parts: Vec<String> = Vec::new();
    push_counted(&mut parts, Some(playlist.song_count), " 首");
    match &playlist.creator {
        Some(name) => {
            if !name.as_str().is_empty() {
                parts.push(cat2("by ", name.as_str()));
            }
        },
        None => {},
    }
    if playlist.is_writable() {
        parts.push("可写".to_owned());
    }
    assert(parts@.map_values(|s: String| s@) =~= playlist_parts(*playlist));
    join_names(&parts, " · ")
}

/// The second line of a chart: how often it changes, else its number.
pub fn rank_subtitle(board: &RankBoard) -> (r: String)
    ensures
        r@ == (match board.update_frequency {
            Some(text) => text@,
            None => "#"@ + signed(board.id as int),
        }),
{
    match &board.update_frequency {
        Some(text) => text.clone(),
        None => {
            let number = signed_text(board.id);
            cat2("#", number.as_str())
        },
    }
}

/// What one is told who must log in first.
pub open spec fn login_hint(source: SourceKind) -> Seq<char> {
    match source {
        SourceKind::Netease => "云端歌单需要登录，请按 L 扫码登录网易云"@,
        SourceKind::Kugou | SourceKind::KugouConcept =>
            "云端歌单需要登录，请配置 cookie（--cookie 或配置文件）"@,
    }
}

/// What one is told who must log in first: each service has its own way.
pub fn not_logged_in_hint(source: SourceKind) -> (r: String)
    ensures
        r@ == login_hint(source),
{
    match source {
        SourceKind::Netease => "云端歌单需要登录，请按 L 扫码登录网易云".to_owned(),
        SourceKind::Kugou | SourceKind::KugouConcept =>
            "云端歌单需要登录，请配置 cookie（--cookie 或配置文件）".to_owned(),
    }
}

/// The place for the size in the address of a cover is filled in with the size; an address
/// without one stays as it is.
pub proof fn covers_are_asked_for_in_a_size(front: Seq<char>, back: Seq<char>, size: u32)
    requires
        forall|i: int| 0 <= i < front.len() ==> #[trigger] front[i] != '{',
        forall|i: int| 0 <= i < back.len() ==> #[trigger] back[i] != '{',
    ensures
        sized(front + "{size}"@ + back, size) == front + dec(size as nat) + back,
        sized(front, size) == front,
{
    reveal_strlit("{size}");
    let url = front + "{size}"@ + back;
    let n = front.len() as int;
    assert(url.subrange(n, n + 6) =~= "{size}"@);
    assert(occurs_at(url, "{size}"@, n));
    replacing_keeps_what_stands_around(front, "{size}"@, dec(size as nat), back, 0);
    assert(front.skip(0) =~= front);
    assert(!has_text(front, "{size}"@)) by {
        if has_text(front, "{size}"@) {
            let i = choose|i: int| occurs_at(front, "{size}"@, i);
            assert(front.subrange(i, i + 6)[0] == front[i]);
        }
    }
}

/// Only an own playlist with a number can be changed.
pub proof fn own_playlists_can_be_changed(playlist: Playlist)
    ensures
        playlist.is_own && playlist.list_id is Some ==> playlist.writable(),
        !playlist.is_own ==> !playlist.writable(),
        playlist.list_id is None ==> !playlist.writable(),
{
}

} // verus!
