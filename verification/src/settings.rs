//! Game settings read by speech and dialogue and edited by the settings
//! overlay: whether lines are spoken aloud and how fast the typewriter runs.
//! The state lives in a `Settings` value; the game shell keeps the one the
//! running game uses.
use vstd::prelude::*;

verus! {

/// How fast dialogue text types out.
#[derive(Clone, Copy, PartialEq, Eq, Debug, Structural)]
pub enum TextSpeed {
    Slow,
    Normal,
    Fast,
}

/// The stored byte for a speed: 0 = slow, 1 = normal, 2 = fast.
pub open spec fn speed_raw(s: TextSpeed) -> u8 {
    match s {
        TextSpeed::Slow => 0,
        TextSpeed::Normal => 1,
        TextSpeed::Fast => 2,
    }
}

/// The speed a stored byte stands for; unknown bytes read as normal.
pub open spec fn speed_of_raw(v: u8) -> TextSpeed {
    if v == 0 {
        TextSpeed::Slow
    } else if v == 2 {
        TextSpeed::Fast
    } else {
        TextSpeed::Normal
    }
}

impl TextSpeed {
    fn from_raw(v: u8) -> (s: TextSpeed)
        ensures
            s == speed_of_raw(v),
    {
        match v {
            0 => TextSpeed::Slow,
            2 => TextSpeed::Fast,
            _ => TextSpeed::Normal,
        }
    }

    fn to_raw(self) -> (v: u8)
        ensures
            v == speed_raw(self),
    {
        match self {
            TextSpeed::Slow => 0,
            TextSpeed::Normal => 1,
            TextSpeed::Fast => 2,
        }
    }

    /// The label shown in the settings overlay.
    pub fn label(self) -> (s: &'static str)
        ensures
            s@ == (match self {
                TextSpeed::Slow => "Slow"@,
                TextSpeed::Normal => "Normal"@,
                TextSpeed::Fast => "Fast"@,
            }),
    {
        match self {
            TextSpeed::Slow => "Slow",
            TextSpeed::Normal => "Normal",
            TextSpeed::Fast => "Fast",
        }
    }
}

/// The settings: speech on or off, and the typewriter speed as its stored byte.
pub struct Settings {
    pub tts: bool,
    pub speed: u8,
}

impl Settings {
    /// Speech on, normal speed: what a fresh game starts with.
    pub fn new() -> (s: Settings)
        ensures
            s.tts,
            speed_of_raw(s.speed) == TextSpeed::Normal,
            s.speed == 1,
    {
        Settings { tts: true, speed: 1 }
    }
}

/// `s` with speech set to `v`.
pub open spec fn with_tts(s: Settings, v: bool) -> Settings {
    Settings { tts: v, speed: s.speed }
}

/// `s` with the typewriter set to `t`.
pub open spec fn with_speed(s: Settings, t: TextSpeed) -> Settings {
    Settings { tts: s.tts, speed: speed_raw(t) }
}

pub fn tts_enabled(s: &Settings) -> (b: bool)
    ensures
        b == s.tts,
{
    s.tts
}

pub fn set_tts_enabled(s: &mut Settings, v: bool)
    ensures
        *final(s) == with_tts(*old(s), v),
{
    s.tts = v;
}

pub fn toggle_tts(s: &mut Settings)
    ensures
        *final(s) == with_tts(*old(s), !old(s).tts),
{
    let cur = tts_enabled(s);
    set_tts_enabled(s, !cur);
}

pub fn text_speed(s: &Settings) -> (t: TextSpeed)
    ensures
        t == speed_of_raw(s.speed),
{
    TextSpeed::from_raw(s.speed)
}

pub fn set_text_speed(s: &mut Settings, t: TextSpeed)
    ensures
        *final(s) == with_speed(*old(s), t),
{
    s.speed = t.to_raw();
}

/// Setting a speed and reading it back gives the same speed, and leaves the
/// speech switch alone.
pub proof fn lemma_text_speed_round_trip(s: Settings, t: TextSpeed)
    ensures
        speed_of_raw(with_speed(s, t).speed) == t,
        with_speed(s, t).tts == s.tts,
{
}

/// Toggling speech twice leaves the settings as they were.
pub proof fn lemma_toggle_twice(s: Settings)
    ensures
        with_tts(with_tts(s, !s.tts), !with_tts(s, !s.tts).tts) == s,
{
}

} // verus!
