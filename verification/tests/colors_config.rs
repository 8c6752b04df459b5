use marstui_audio::audio::{color_from_string, Color};
use marstui_audio::config::Config;

#[test]
fn every_color_name_resolves() {
    assert_eq!(color_from_string("black"), Color::Black);
    assert_eq!(color_from_string("red"), Color::Red);
    assert_eq!(color_from_string("green"), Color::Green);
    assert_eq!(color_from_string("yellow"), Color::Yellow);
    assert_eq!(color_from_string("blue"), Color::Blue);
    assert_eq!(color_from_string("magenta"), Color::Magenta);
    assert_eq!(color_from_string("cyan"), Color::Cyan);
    assert_eq!(color_from_string("white"), Color::White);
    assert_eq!(color_from_string("grey"), Color::Gray);
    assert_eq!(color_from_string("gray"), Color::Gray);
}

#[test]
fn color_names_ignore_case() {
    assert_eq!(color_from_string("Black"), Color::Black);
    assert_eq!(color_from_string("WHITE"), Color::White);
    assert_eq!(color_from_string("GrAy"), Color::Gray);
}

#[test]
fn unrecognized_color_names_reset() {
    assert_eq!(color_from_string("nc"), Color::Reset);
    assert_eq!(color_from_string(""), Color::Reset);
    assert_eq!(color_from_string("turquoise"), Color::Reset);
    assert_eq!(color_from_string("blacker"), Color::Reset);
}

#[test]
fn defaults_match_the_documented_settings() {
    let c = Config::default();
    assert_eq!(c.quit_key, 'q');
    assert_eq!(c.Xommander, 'x');
    assert_eq!(c.next_key, 'n');
    assert_eq!(c.previous_key, 'b');
    assert_eq!(c.play_pause_key, 'm');
    assert_eq!(c.move_up_key, 'c');
    assert_eq!(c.move_down_key, 'v');
    assert_eq!(c.volup, '+');
    assert_eq!(c.voldown, '-');
    assert_eq!(c.selected_fg, "White");
    assert_eq!(c.selected_bg, "Black");
    assert_eq!(c.unselected_fg, "Gray");
    assert_eq!(c.unselected_bg, "Black");
    assert_eq!(c.top_fg, "White");
    assert_eq!(c.top_bg, "Black");
    assert_eq!(c.bottom_fg, "Gray");
    assert_eq!(c.bottom_bg, "Black");
    assert_eq!(c.notplaying_fg, "White");
    assert_eq!(c.notplaying_bg, "Black");
    assert!(c.rounding);
    assert!(!c.hide_controls);
    assert_eq!(c.startpage, "default");
    assert_eq!(c.refresh_interval, 600);
    assert_eq!(c.change_page, 'y');
}
