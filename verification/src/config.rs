use vstd::prelude::*;

verus! {

/// User settings, loaded once at process start and read-only afterwards.
///
/// Key fields hold the single-character bindings of the input dispatcher;
/// the `*_fg` / `*_bg` fields hold color names (resolved case-insensitively
/// by [`crate::audio::color_from_string`]); `refresh_interval` is the
/// snapshot cache's time-to-live in milliseconds.
#[allow(non_snake_case)]
pub struct Config {
    pub quit_key: char,
    /// Alternate quit binding.
    pub Xommander: char,
    pub next_key: char,
    pub previous_key: char,
    pub play_pause_key: char,
    pub move_up_key: char,
    pub move_down_key: char,
    pub volup: char,
    pub voldown: char,
    pub selected_fg: String,
    pub selected_bg: String,
    pub unselected_fg: String,
    pub unselected_bg: String,
    pub top_fg: String,
    pub top_bg: String,
    pub bottom_fg: String,
    pub bottom_bg: String,
    pub notplaying_fg: String,
    pub notplaying_bg: String,
    /// Show volume rounded to a whole percent rather than fractional.
    pub rounding: bool,
    pub hide_controls: bool,
    /// Name of the page shown first: "default" or "sink".
    pub startpage: String,
    /// Snapshot time-to-live in milliseconds.
    pub refresh_interval: u64,
    pub change_page: char,
}

impl Default for Config {
    /// The compiled-in defaults, used on first run and whenever the settings
    /// file cannot be parsed.
    fn default() -> (c: Self)
        ensures
            c.quit_key == 'q',
            c.Xommander == 'x',
            c.next_key == 'n',
            c.previous_key == 'b',
            c.play_pause_key == 'm',
            c.move_up_key == 'c',
            c.move_down_key == 'v',
            c.volup == '+',
            c.voldown == '-',
            c.selected_fg@ == "White"@,
            c.selected_bg@ == "Black"@,
            c.unselected_fg@ == "Gray"@,
            c.unselected_bg@ == "Black"@,
            c.top_fg@ == "White"@,
            c.top_bg@ == "Black"@,
            c.bottom_fg@ == "Gray"@,
            c.bottom_bg@ == "Black"@,
            c.notplaying_fg@ == "White"@,
            c.notplaying_bg@ == "Black"@,
            c.rounding == true,
            c.hide_controls == false,
            c.startpage@ == "default"@,
            c.refresh_interval == 600,
            c.change_page == 'y',
    {
        Config {
            quit_key: 'q',
            Xommander: 'x',
            next_key: 'n',
            previous_key: 'b',
            play_pause_key: 'm',
            move_up_key: 'c',
            move_down_key: 'v',
            volup: '+',
            voldown: '-',
            selected_fg: "White".to_owned(),
            selected_bg: "Black".to_owned(),
            unselected_fg: "Gray".to_owned(),
            unselected_bg: "Black".to_owned(),
            top_fg: "White".to_owned(),
            top_bg: "Black".to_owned(),
            bottom_fg: "Gray".to_owned(),
            bottom_bg: "Black".to_owned(),
            notplaying_fg: "White".to_owned(),
            notplaying_bg: "Black".to_owned(),
            rounding: true,
            hide_controls: false,
            startpage: "default".to_owned(),
            refresh_interval: 600,
            change_page: 'y',
        }
    }
}

} // verus!
