use vstd::prelude::*;

use crate::audio::VOLUME_STEP_CENTI;
use crate::config::Config;
use crate::nav::{spec_moved_down, spec_moved_up, NavState, Page};

verus! {

/// The command a single key maps to, under the user's bindings.
#[derive(Clone, Copy, PartialEq, Eq, Structural, Debug)]
pub enum Command {
    Quit,
    VolumeUp,
    VolumeDown,
    Next,
    Previous,
    PlayPause,
    MoveUp,
    MoveDown,
    ChangePage,
    NoOp,
}

/// What the caller must do after a key was handled: navigation changes are
/// already applied, transport work is handed back as plain instructions.
#[derive(Clone, Copy, PartialEq, Eq, Structural, Debug)]
pub enum KeyAction {
    /// Nothing left to do.
    Idle,
    /// Leave the interface.
    Quit,
    /// Ask the selected player for the next track.
    Next,
    /// Ask the selected player for the previous track.
    Previous,
    /// Toggle playback on the selected player: read its status, then send
    /// the command [`play_pause_command`] picks.
    PlayPause,
    /// Read the selected player's volume and write back
    /// [`crate::audio::adjusted_volume`] of it and this step (hundredths
    /// of a percent).
    AdjustVolume(i64),
}

/// What a playback-status query reported; `Failed` stands for a query
/// error.
#[derive(Clone, Copy, PartialEq, Eq, Structural, Debug)]
pub enum PlaybackReading {
    Playing,
    Paused,
    Stopped,
    Failed,
}

/// The transport commands playback toggling can issue.
#[derive(Clone, Copy, PartialEq, Eq, Structural, Debug)]
pub enum TransportCmd {
    Play,
    Pause,
}

/// The key-to-command table: each binding is tried in a fixed order and
/// the first match wins, so a key bound twice acts as the earlier entry;
/// the alternate quit binding quits just like the ordinary one; a key
/// bound to nothing is a no-op.
pub open spec fn spec_dispatch(key: char, c: Config) -> Command {
    if key == c.quit_key {
        Command::Quit
    } else if key == c.volup {
        Command::VolumeUp
    } else if key == c.voldown {
        Command::VolumeDown
    } else if key == c.Xommander {
        Command::Quit
    } else if key == c.next_key {
        Command::Next
    } else if key == c.previous_key {
        Command::Previous
    } else if key == c.play_pause_key {
        Command::PlayPause
    } else if key == c.move_up_key {
        Command::MoveUp
    } else if key == c.move_down_key {
        Command::MoveDown
    } else if key == c.change_page {
        Command::ChangePage
    } else {
        Command::NoOp
    }
}

/// Map one key to its command under the configured bindings.
pub fn dispatch(key: char, config: &Config) -> (r: Command)
    ensures
        r == spec_dispatch(key, *config),
{
    if key == config.quit_key {
        Command::Quit
    } else if key == config.volup {
        Command::VolumeUp
    } else if key == config.voldown {
        Command::VolumeDown
    } else if key == config.Xommander {
        Command::Quit
    } else if key == config.next_key {
        Command::Next
    } else if key == config.previous_key {
        Command::Previous
    } else if key == config.play_pause_key {
        Command::PlayPause
    } else if key == config.move_up_key {
        Command::MoveUp
    } else if key == config.move_down_key {
        Command::MoveDown
    } else if key == config.change_page {
        Command::ChangePage
    } else {
        Command::NoOp
    }
}

/// Handle one key press against the navigation state.
///
/// Movement and page keys change `nav` right here; every other command
/// leaves `nav` exactly as it was and is reported back as the action the
/// caller must carry out against the player or the loop. An unrecognized
/// key changes nothing and asks for nothing.
pub fn handle_key(nav: &mut NavState, key: char, config: &Config, roster_len: usize) -> (act:
    KeyAction)
    ensures
        ({
            let cmd = spec_dispatch(key, *config);
            let before = *old(nav);
            let after = *final(nav);
            match cmd {
                Command::Quit => act == KeyAction::Quit && after == before,
                Command::VolumeUp => {
                    &&& act == KeyAction::AdjustVolume(VOLUME_STEP_CENTI as i64)
                    &&& after == before
                },
                Command::VolumeDown => {
                    &&& act == KeyAction::AdjustVolume(-VOLUME_STEP_CENTI as i64)
                    &&& after == before
                },
                Command::Next => act == KeyAction::Next && after == before,
                Command::Previous => act == KeyAction::Previous && after == before,
                Command::PlayPause => act == KeyAction::PlayPause && after == before,
                Command::MoveUp => {
                    &&& act == KeyAction::Idle
                    &&& after.selected_index == spec_moved_up(before.selected_index as int)
                    &&& after.scroll_offset == before.scroll_offset
                    &&& after.page == before.page
                },
                Command::MoveDown => {
                    &&& act == KeyAction::Idle
                    &&& after.selected_index == spec_moved_down(
                        before.selected_index as int,
                        roster_len as int,
                    )
                    &&& after.scroll_offset == before.scroll_offset
                    &&& after.page == before.page
                },
                Command::ChangePage => {
                    &&& act == KeyAction::Idle
                    &&& after.page == (if before.page is Main {
                        Page::Sink
                    } else {
                        Page::Main
                    })
                    &&& after.selected_index == before.selected_index
                    &&& after.scroll_offset == before.scroll_offset
                },
                Command::NoOp => act == KeyAction::Idle && after == before,
            }
        }),
{
    let cmd = dispatch(key, config);
    match cmd {
        Command::Quit => KeyAction::Quit,
        Command::VolumeUp => KeyAction::AdjustVolume(VOLUME_STEP_CENTI),
        Command::VolumeDown => KeyAction::AdjustVolume(-VOLUME_STEP_CENTI),
        Command::Next => KeyAction::Next,
        Command::Previous => KeyAction::Previous,
        Command::PlayPause => KeyAction::PlayPause,
        Command::MoveUp => {
            nav.move_up();
            KeyAction::Idle
        },
        Command::MoveDown => {
            nav.move_down(roster_len);
            KeyAction::Idle
        },
        Command::ChangePage => {
            nav.change_page();
            KeyAction::Idle
        },
        Command::NoOp => KeyAction::Idle,
    }
}

/// The read-then-act rule for the play/pause key: pause a playing player,
/// and play in every other case, a failed status query included, so an
/// ambiguous state resolves towards playback.
pub fn play_pause_command(status: PlaybackReading) -> (r: TransportCmd)
    ensures
        r == (if status is Playing {
            TransportCmd::Pause
        } else {
            TransportCmd::Play
        }),
{
    match status {
        PlaybackReading::Playing => TransportCmd::Pause,
        _ => TransportCmd::Play,
    }
}

/// Law: a key that matches none of the configured bindings dispatches to
/// the no-op command, so handling it leaves the navigation state — and,
/// having nothing to act on, the roster and the snapshot cache — exactly
/// as they were.
pub proof fn lemma_unbound_key_is_noop(key: char, c: Config)
    requires
        key != c.quit_key,
        key != c.volup,
        key != c.voldown,
        key != c.Xommander,
        key != c.next_key,
        key != c.previous_key,
        key != c.play_pause_key,
        key != c.move_up_key,
        key != c.move_down_key,
        key != c.change_page,
    ensures
        spec_dispatch(key, c) == Command::NoOp,
{
}

} // verus!
