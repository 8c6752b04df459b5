use marstui_audio::audio::{
    adjusted_volume, get_pl, needs_query, resize_cache, PlayerCache, SessionReading,
    VOLUME_STEP_CENTI,
};

fn reading(title: Option<&str>, position_us: u64, length_us: u64, volume: Option<u64>) -> SessionReading {
    SessionReading {
        title: title.map(|t| t.to_string()),
        player_name: "TestPlayer".to_string(),
        position_us,
        length_us,
        volume_centi: volume,
    }
}

#[test]
fn miss_with_successful_query_fills_the_slot() {
    let mut slot: Option<PlayerCache> = None;
    let r = get_pl(&mut slot, Some(reading(Some("Song"), 30_000_000, 120_000_000, Some(5000))), 1000, 600);
    let pl = r.expect("a successful query must yield a snapshot");
    assert_eq!(pl.title, "Song");
    assert_eq!(pl.player_name, "TestPlayer");
    assert_eq!(pl.progress, 250);
    assert_eq!(pl.volume, 5000);
    assert_eq!(pl.playback, "not implemented");
    assert_eq!(pl.last_updated, 1000);
    let stored = slot.expect("the slot must hold the snapshot");
    assert_eq!(stored.title, "Song");
    assert_eq!(stored.last_updated, 1000);
}

#[test]
fn fresh_slot_is_served_without_a_query() {
    let mut slot: Option<PlayerCache> = None;
    get_pl(&mut slot, Some(reading(Some("A"), 0, 0, None)), 1000, 600);
    // within the time-to-live the cache alone answers
    assert!(!needs_query(&slot, 1400, 600));
    // a reading handed in anyway is ignored while fresh
    let r = get_pl(&mut slot, Some(reading(Some("B"), 0, 0, None)), 1400, 600);
    assert_eq!(r.unwrap().title, "A");
    assert_eq!(slot.as_ref().unwrap().title, "A");
    // once the time-to-live has elapsed, a query is due again
    assert!(needs_query(&slot, 1600, 600));
}

#[test]
fn stale_slot_is_replaced_by_a_new_reading() {
    let mut slot: Option<PlayerCache> = None;
    get_pl(&mut slot, Some(reading(Some("A"), 0, 0, None)), 1000, 600);
    let r = get_pl(&mut slot, Some(reading(Some("B"), 0, 0, None)), 1700, 600);
    assert_eq!(r.unwrap().title, "B");
    assert_eq!(slot.unwrap().last_updated, 1700);
}

#[test]
fn failed_query_keeps_the_prior_snapshot() {
    let mut slot: Option<PlayerCache> = None;
    get_pl(&mut slot, Some(reading(Some("A"), 0, 0, None)), 1000, 600);
    let r = get_pl(&mut slot, None, 1700, 600);
    assert_eq!(r.unwrap().title, "A");
    assert_eq!(slot.unwrap().last_updated, 1000);
}

#[test]
fn failed_query_with_empty_slot_yields_nothing() {
    let mut slot: Option<PlayerCache> = None;
    let r = get_pl(&mut slot, None, 1000, 600);
    assert!(r.is_none());
    assert!(slot.is_none());
}

#[test]
fn missing_title_gets_the_placeholder() {
    let mut slot: Option<PlayerCache> = None;
    let r = get_pl(&mut slot, Some(reading(None, 0, 0, None)), 1000, 600);
    assert_eq!(r.unwrap().title, "Unknown Title");
}

#[test]
fn unknown_length_means_zero_progress() {
    let mut slot: Option<PlayerCache> = None;
    let r = get_pl(&mut slot, Some(reading(Some("A"), 55_000_000, 0, None)), 1000, 600);
    assert_eq!(r.unwrap().progress, 0);
}

#[test]
fn progress_is_clamped_to_full() {
    let mut slot: Option<PlayerCache> = None;
    let r = get_pl(&mut slot, Some(reading(Some("A"), 130_000_000, 120_000_000, None)), 1000, 600);
    assert_eq!(r.unwrap().progress, 1000);
}

#[test]
fn unreported_volume_defaults_to_22_percent() {
    let mut slot: Option<PlayerCache> = None;
    let r = get_pl(&mut slot, Some(reading(Some("A"), 0, 0, None)), 1000, 600);
    assert_eq!(r.unwrap().volume, 2200);
}

#[test]
fn overdriven_volume_is_stored_clamped() {
    let mut slot: Option<PlayerCache> = None;
    let r = get_pl(&mut slot, Some(reading(Some("A"), 0, 0, Some(15000))), 1000, 600);
    assert_eq!(r.unwrap().volume, 10000);
}

#[test]
fn volume_step_up_is_clamped_at_full() {
    // 98% plus the 5% step stores 100%, not 103%
    assert_eq!(adjusted_volume(Some(9800), VOLUME_STEP_CENTI), 10000);
}

#[test]
fn volume_step_down_is_clamped_at_zero() {
    assert_eq!(adjusted_volume(Some(100), -VOLUME_STEP_CENTI), 0);
}

#[test]
fn volume_step_from_failed_read_starts_at_placeholder() {
    assert_eq!(adjusted_volume(None, VOLUME_STEP_CENTI), 2700);
    assert_eq!(adjusted_volume(Some(5000), VOLUME_STEP_CENTI), 5500);
}

#[test]
fn cache_resize_matches_roster_length() {
    let mut cache: Vec<Option<PlayerCache>> = Vec::new();
    resize_cache(&mut cache, 3);
    assert_eq!(cache.len(), 3);
    assert!(cache.iter().all(|s| s.is_none()));

    let mut slot = None;
    get_pl(
        &mut slot,
        Some(reading(Some("A"), 0, 0, None)),
        1000,
        600,
    );
    cache[0] = slot;

    // growth keeps the prefix and fills the rest empty
    resize_cache(&mut cache, 5);
    assert_eq!(cache.len(), 5);
    assert_eq!(cache[0].as_ref().unwrap().title, "A");
    assert!(cache[4].is_none());

    // shrinkage drops trailing slots only
    resize_cache(&mut cache, 1);
    assert_eq!(cache.len(), 1);
    assert_eq!(cache[0].as_ref().unwrap().title, "A");

    resize_cache(&mut cache, 0);
    assert_eq!(cache.len(), 0);
}
