use vstd::prelude::*;

use crate::text::{eq_fold, spec_eq_fold};

verus! {

/// Cached, display-ready state for one player at one point in time.
///
/// Times are milliseconds on the caller's monotonic clock. `progress` is the
/// track position as a fraction of its length, in thousandths (0..=1000).
/// `volume` is in hundredths of a percent (0..=10000, so 2200 means 22%).
pub struct PlayerCache {
    pub title: String,
    pub player_name: String,
    pub progress: u32,
    pub volume: u64,
    pub playback: String,
    pub last_updated: u64,
}

impl PlayerCache {
    /// Well-formedness: progress and volume lie in their displayable
    /// ranges (at most full, at most 100%).
    pub open spec fn wf(self) -> bool {
        self.progress <= 1000 && self.volume <= 10000
    }
}

impl Clone for PlayerCache {
    fn clone(&self) -> (r: Self)
        ensures
            r == *self,
    {
        PlayerCache {
            title: self.title.clone(),
            player_name: self.player_name.clone(),
            progress: self.progress,
            volume: self.volume,
            playback: self.playback.clone(),
            last_updated: self.last_updated,
        }
    }
}

/// What one round of queries against a player reported, as plain values.
///
/// `title` is `None` when the player reported no track title; `position_us`
/// and `length_us` are in microseconds, with 0 standing for an unknown or
/// zero length (exactly how the transport reports it); `volume_centi` is the
/// reported volume in hundredths of a percent, `None` when the query failed.
pub struct SessionReading {
    pub title: Option<String>,
    pub player_name: String,
    pub position_us: u64,
    pub length_us: u64,
    pub volume_centi: Option<u64>,
}

/// Milliseconds elapsed from `earlier` to `now` on a monotonic clock;
/// zero when `now` reads behind `earlier`.
pub open spec fn spec_age_ms(earlier: u64, now: u64) -> int {
    if now >= earlier {
        now - earlier
    } else {
        0
    }
}

/// A cache slot is fresh when it holds a snapshot younger than the
/// time-to-live.
pub open spec fn spec_fresh(slot: Option<PlayerCache>, now_ms: u64, ttl_ms: u64) -> bool {
    match slot {
        Some(pl) => spec_age_ms(pl.last_updated, now_ms) < ttl_ms,
        None => false,
    }
}

/// Position as a fraction of length in thousandths, clamped to 0..=1000;
/// 0 when the length is unknown or zero.
pub open spec fn spec_progress_permille(position_us: u64, length_us: u64) -> int {
    if length_us > 0 {
        let p = (position_us * 1000) as int / (length_us as int);
        if p > 1000 {
            1000
        } else {
            p
        }
    } else {
        0
    }
}

/// The volume stored in a snapshot: the reported value clamped to at most
/// 100%, or the 22% placeholder when the query failed.
pub open spec fn spec_volume_centi(reported: Option<u64>) -> u64 {
    match reported {
        Some(v) => if v > 10000 {
            10000
        } else {
            v
        },
        None => 2200,
    }
}

/// The title stored in a snapshot: the reported one, or the placeholder.
pub open spec fn spec_title(reported: Option<String>) -> Seq<char> {
    match reported {
        Some(t) => t@,
        None => "Unknown Title"@,
    }
}

/// The snapshot that one reading taken at `now_ms` turns into.
pub open spec fn spec_snapshot_for(rd: SessionReading, now_ms: u64, pl: PlayerCache) -> bool {
    &&& pl.title@ == spec_title(rd.title)
    &&& pl.player_name@ == rd.player_name@
    &&& pl.progress == spec_progress_permille(rd.position_us, rd.length_us)
    &&& pl.volume == spec_volume_centi(rd.volume_centi)
    &&& pl.playback@ == "not implemented"@
    &&& pl.last_updated == now_ms
}

fn age_ms(earlier: u64, now: u64) -> (r: u64)
    ensures
        r == spec_age_ms(earlier, now),
{
    if now >= earlier {
        now - earlier
    } else {
        0
    }
}

/// True exactly when the slot cannot serve `now_ms` from cache, so the
/// caller must query the player before calling [`get_pl`].
pub fn needs_query(slot: &Option<PlayerCache>, now_ms: u64, ttl_ms: u64) -> (r: bool)
    ensures
        r == !spec_fresh(*slot, now_ms, ttl_ms),
{
    match slot {
        Some(pl) => age_ms(pl.last_updated, now_ms) >= ttl_ms,
        None => true,
    }
}

fn progress_permille(position_us: u64, length_us: u64) -> (r: u32)
    ensures
        r == spec_progress_permille(position_us, length_us),
{
    if length_us > 0 {
        let p: u128 = (position_us as u128) * 1000 / (length_us as u128);
        if p > 1000 {
            1000
        } else {
            p as u32
        }
    } else {
        0
    }
}

fn volume_centi(reported: Option<u64>) -> (r: u64)
    ensures
        r == spec_volume_centi(reported),
{
    match reported {
        Some(v) => if v > 10000 {
            10000
        } else {
            v
        },
        None => 2200,
    }
}

/// Serve one cache slot, possibly ingesting a fresh reading.
///
/// If the slot is fresh for `now_ms` under the time-to-live `refresh_ms`,
/// the cached snapshot is returned unchanged and `reading` is ignored (the
/// caller, having checked [`needs_query`], will not have queried at all).
/// Otherwise a reading, when there is one, replaces the slot with the
/// snapshot it derives; a failed query (`reading == None`) leaves the prior
/// snapshot in place, and whatever the slot then holds is returned.
pub fn get_pl(
    cache: &mut Option<PlayerCache>,
    reading: Option<SessionReading>,
    now_ms: u64,
    refresh_ms: u64,
) -> (r: Option<PlayerCache>)
    ensures
        spec_fresh(*old(cache), now_ms, refresh_ms) ==> *final(cache) == *old(cache),
        !spec_fresh(*old(cache), now_ms, refresh_ms) ==> (match reading {
            Some(rd) => *final(cache) matches Some(pl) && spec_snapshot_for(rd, now_ms, pl),
            None => *final(cache) == *old(cache),
        }),
        r == *final(cache),
{
    if !needs_query(cache, now_ms, refresh_ms) {
        return cache.clone();
    }
    match reading {
        Some(rd) => {
            let title = match rd.title {
                Some(t) => t,
                None => "Unknown Title".to_owned(),
            };
            let new_cache = PlayerCache {
                title,
                player_name: rd.player_name,
                progress: progress_permille(rd.position_us, rd.length_us),
                volume: volume_centi(rd.volume_centi),
                playback: "not implemented".to_owned(),
                last_updated: now_ms,
            };
            *cache = Some(new_cache);
        },
        None => {},
    }
    cache.clone()
}

/// Resize the snapshot cache to a freshly enumerated roster's length:
/// slots kept by the new roster keep their snapshots, slots the roster
/// grew by start empty, and trailing slots of a shrunken roster are
/// dropped.
pub fn resize_cache(cache: &mut Vec<Option<PlayerCache>>, new_len: usize)
    ensures
        final(cache)@.len() == new_len,
        forall|i: int|
            0 <= i < new_len && i < old(cache)@.len() ==> final(cache)@[i] == old(cache)@[i],
        forall|i: int| old(cache)@.len() <= i < new_len ==> final(cache)@[i] is None,
{
    cache.resize(new_len, None);
}

/// Placeholder for a per-player drawing hook; rendering happens outside
/// this crate.
pub fn drawplayer() {
}

/// One volume step of the dispatcher, in hundredths of a percent (5%).
pub const VOLUME_STEP_CENTI: i64 = 500;

/// The volume that a step lands on: the reported volume (or the 22%
/// placeholder when the read failed) plus the step, clamped to 0..=100%.
pub open spec fn spec_adjusted_volume(reported: Option<u64>, delta_centi: i64) -> u64 {
    let cur: int = match reported {
        Some(v) => v as int,
        None => 2200,
    };
    let sum = cur + delta_centi;
    if sum < 0 {
        0
    } else if sum > 10000 {
        10000
    } else {
        sum as u64
    }
}

/// Volume adjustment for the selected player, as plain arithmetic: the
/// caller reads the current volume (passing `None` when that read failed),
/// and writes back the value returned here.
pub fn adjusted_volume(reported: Option<u64>, delta_centi: i64) -> (r: u64)
    ensures
        r == spec_adjusted_volume(reported, delta_centi),
{
    let cur: i128 = match reported {
        Some(v) => v as i128,
        None => 2200,
    };
    let sum: i128 = cur + delta_centi as i128;
    if sum < 0 {
        0
    } else if sum > 10000 {
        10000
    } else {
        sum as u64
    }
}

/// Law: a snapshot taken at some instant keeps its slot fresh for the whole
/// time-to-live, so a second lookup within that window reads the cache and
/// issues no transport query at all ([`needs_query`] answers `false`, and
/// [`get_pl`] then leaves the slot untouched and returns the cached
/// snapshot).
pub proof fn lemma_ttl_suppresses_requery(pl: PlayerCache, t1: u64, ttl_ms: u64)
    requires
        pl.last_updated <= t1,
        t1 - pl.last_updated < ttl_ms,
    ensures
        spec_fresh(Some(pl), t1, ttl_ms),
{
}

/// Law: every snapshot that a reading turns into is well formed as it
/// stands, so a slot only ever holds displayable values.
pub proof fn lemma_snapshot_wf(rd: SessionReading, now_ms: u64, pl: PlayerCache)
    requires
        spec_snapshot_for(rd, now_ms, pl),
    ensures
        pl.wf(),
{
}

/// The colors the renderer understands, by name; `Reset` stands for
/// "no color".
#[derive(Clone, Copy, PartialEq, Eq, Structural, Debug)]
pub enum Color {
    Black,
    Red,
    Green,
    Yellow,
    Blue,
    Magenta,
    Cyan,
    White,
    Gray,
    Reset,
}

/// The color a name resolves to, case-insensitively; both spellings of
/// gray are accepted, and anything unrecognized (including the explicit
/// "nc", no color) falls back to `Reset`.
pub open spec fn spec_color_of(s: Seq<char>) -> Color {
    if spec_eq_fold(s, "black"@) {
        Color::Black
    } else if spec_eq_fold(s, "red"@) {
        Color::Red
    } else if spec_eq_fold(s, "green"@) {
        Color::Green
    } else if spec_eq_fold(s, "yellow"@) {
        Color::Yellow
    } else if spec_eq_fold(s, "blue"@) {
        Color::Blue
    } else if spec_eq_fold(s, "magenta"@) {
        Color::Magenta
    } else if spec_eq_fold(s, "cyan"@) {
        Color::Cyan
    } else if spec_eq_fold(s, "white"@) {
        Color::White
    } else if spec_eq_fold(s, "grey"@) {
        Color::Gray
    } else if spec_eq_fold(s, "gray"@) {
        Color::Gray
    } else {
        Color::Reset
    }
}

/// Resolve a configured color name.
pub fn color_from_string(color_str: &str) -> (r: Color)
    ensures
        r == spec_color_of(color_str@),
{
    if eq_fold(color_str, "black") {
        Color::Black
    } else if eq_fold(color_str, "red") {
        Color::Red
    } else if eq_fold(color_str, "green") {
        Color::Green
    } else if eq_fold(color_str, "yellow") {
        Color::Yellow
    } else if eq_fold(color_str, "blue") {
        Color::Blue
    } else if eq_fold(color_str, "magenta") {
        Color::Magenta
    } else if eq_fold(color_str, "cyan") {
        Color::Cyan
    } else if eq_fold(color_str, "white") {
        Color::White
    } else if eq_fold(color_str, "grey") {
        Color::Gray
    } else if eq_fold(color_str, "gray") {
        Color::Gray
    } else {
        Color::Reset
    }
}

} // verus!
