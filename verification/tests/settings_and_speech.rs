use robot_buddy_game::audio::tts::speak;
use robot_buddy_game::settings::{
    set_text_speed, set_tts_enabled, text_speed, toggle_tts, tts_enabled, Settings, TextSpeed,
};
use robot_buddy_game::sprites::attract::Beacon;
use robot_buddy_game::sprites::player::{outfit_color, outfit_palette, OutfitColor};
use robot_buddy_game::sprites::Dir;

#[test]
fn settings_start_spoken_at_normal_speed() {
    let s = Settings::new();
    assert!(tts_enabled(&s));
    assert_eq!(text_speed(&s), TextSpeed::Normal);
}

#[test]
fn toggling_speech_twice_restores_it() {
    let mut s = Settings::new();
    toggle_tts(&mut s);
    assert!(!tts_enabled(&s));
    toggle_tts(&mut s);
    assert!(tts_enabled(&s));
    set_tts_enabled(&mut s, false);
    assert!(!tts_enabled(&s));
}

#[test]
fn text_speed_round_trips() {
    let mut s = Settings::new();
    for t in [TextSpeed::Slow, TextSpeed::Normal, TextSpeed::Fast] {
        set_text_speed(&mut s, t);
        assert_eq!(text_speed(&s), t);
    }
    assert_eq!(TextSpeed::Slow.label(), "Slow");
    assert_eq!(TextSpeed::Fast.label(), "Fast");
}

#[test]
fn speech_spells_out_math_and_drops_marks() {
    let u = speak("Sparky", "3 + 4 = 7 \u{2B50}").unwrap();
    assert_eq!(u.text, "3  plus  4 = 7 ");
    assert_eq!((u.pitch, u.rate), (160, 110));
    let v = speak("Mommy", "6 \u{00d7} 2 - 1 # yes").unwrap();
    assert_eq!(v.text, "6 times 2 minus 1  yes");
    assert_eq!((v.pitch, v.rate), (120, 95));
    let w = speak("Nobody", "8 \u{00f7} 2 \u{2212} 1").unwrap();
    assert_eq!(w.text, "8 divided by 2 minus 1");
    assert_eq!((w.pitch, w.rate), (100, 100));
}

#[test]
fn nothing_left_to_say_is_silence() {
    assert!(speak("Sparky", "").is_none());
    assert!(speak("Sparky", "  \u{1F916} # ").is_none());
    assert!(speak("Old Oak", "...").is_some());
}

#[test]
fn outfit_colors_read_back_by_id() {
    for c in outfit_palette() {
        assert_eq!(outfit_color(c.id()), c);
    }
    assert_eq!(outfit_color("chartreuse"), OutfitColor::Purple);
    assert_eq!(OutfitColor::Teal.index(), 6);
    assert_eq!(outfit_palette().len(), 8);
}

#[test]
fn legacy_direction_bytes() {
    assert_eq!(Dir::from_u8(0), Dir::Up);
    assert_eq!(Dir::from_u8(1), Dir::Down);
    assert_eq!(Dir::from_u8(2), Dir::Left);
    assert_eq!(Dir::from_u8(3), Dir::Right);
    assert_eq!(Dir::from_u8(200), Dir::Right);
    assert_ne!(Beacon::Pearl, Beacon::Dive);
}
