//! The outfit palette the Color Change cosmetic picks from.
use crate::chars::str_eq;
use vstd::prelude::*;

verus! {

/// One swatch of the outfit palette, in the order the color picker shows them.
#[derive(Clone, Copy, PartialEq, Eq, Debug, Structural)]
pub enum OutfitColor {
    Purple,
    Red,
    Blue,
    Green,
    Orange,
    Pink,
    Teal,
    Gold,
}

/// The palette, in picker order.
pub open spec fn palette() -> Seq<OutfitColor> {
    seq![
        OutfitColor::Purple,
        OutfitColor::Red,
        OutfitColor::Blue,
        OutfitColor::Green,
        OutfitColor::Orange,
        OutfitColor::Pink,
        OutfitColor::Teal,
        OutfitColor::Gold,
    ]
}

/// The id a swatch is saved under.
pub open spec fn outfit_id(c: OutfitColor) -> Seq<char> {
    match c {
        OutfitColor::Purple => "purple"@,
        OutfitColor::Red => "red"@,
        OutfitColor::Blue => "blue"@,
        OutfitColor::Green => "green"@,
        OutfitColor::Orange => "orange"@,
        OutfitColor::Pink => "pink"@,
        OutfitColor::Teal => "teal"@,
        OutfitColor::Gold => "gold"@,
    }
}

/// The swatch a saved id names; an unknown id reads as the first swatch.
pub open spec fn outfit_color_of(id: Seq<char>) -> OutfitColor {
    if id == "purple"@ {
        OutfitColor::Purple
    } else if id == "red"@ {
        OutfitColor::Red
    } else if id == "blue"@ {
        OutfitColor::Blue
    } else if id == "green"@ {
        OutfitColor::Green
    } else if id == "orange"@ {
        OutfitColor::Orange
    } else if id == "pink"@ {
        OutfitColor::Pink
    } else if id == "teal"@ {
        OutfitColor::Teal
    } else if id == "gold"@ {
        OutfitColor::Gold
    } else {
        OutfitColor::Purple
    }
}

impl OutfitColor {
    /// The id this swatch is saved under.
    pub fn id(self) -> (s: &'static str)
        ensures
            s@ == outfit_id(self),
    {
        match self {
            OutfitColor::Purple => "purple",
            OutfitColor::Red => "red",
            OutfitColor::Blue => "blue",
            OutfitColor::Green => "green",
            OutfitColor::Orange => "orange",
            OutfitColor::Pink => "pink",
            OutfitColor::Teal => "teal",
            OutfitColor::Gold => "gold",
        }
    }

    /// Position of this swatch in the picker.
    pub fn index(self) -> (i: usize)
        ensures
            i < palette().len(),
            palette()[i as int] == self,
    {
        match self {
            OutfitColor::Purple => 0,
            OutfitColor::Red => 1,
            OutfitColor::Blue => 2,
            OutfitColor::Green => 3,
            OutfitColor::Orange => 4,
            OutfitColor::Pink => 5,
            OutfitColor::Teal => 6,
            OutfitColor::Gold => 7,
        }
    }
}

/// The palette, in picker order.
pub fn outfit_palette() -> (v: Vec<OutfitColor>)
    ensures
        v@ == palette(),
{
    let v = vec![
        OutfitColor::Purple,
        OutfitColor::Red,
        OutfitColor::Blue,
        OutfitColor::Green,
        OutfitColor::Orange,
        OutfitColor::Pink,
        OutfitColor::Teal,
        OutfitColor::Gold,
    ];
    proof {
        assert(v@ =~= palette());
    }
    v
}

/// The swatch for a saved color id; unknown ids fall back to the first swatch.
pub fn outfit_color(id: &str) -> (c: OutfitColor)
    ensures
        c == outfit_color_of(id@),
{
    if str_eq(id, "purple") {
        OutfitColor::Purple
    } else if str_eq(id, "red") {
        OutfitColor::Red
    } else if str_eq(id, "blue") {
        OutfitColor::Blue
    } else if str_eq(id, "green") {
        OutfitColor::Green
    } else if str_eq(id, "orange") {
        OutfitColor::Orange
    } else if str_eq(id, "pink") {
        OutfitColor::Pink
    } else if str_eq(id, "teal") {
        OutfitColor::Teal
    } else if str_eq(id, "gold") {
        OutfitColor::Gold
    } else {
        OutfitColor::Purple
    }
}

proof fn lemma_outfit_ids_differ()
    ensures
        "purple"@ != "red"@,
        "purple"@ != "blue"@,
        "purple"@ != "green"@,
        "purple"@ != "orange"@,
        "purple"@ != "pink"@,
        "purple"@ != "teal"@,
        "purple"@ != "gold"@,
        "red"@ != "blue"@,
        "red"@ != "green"@,
        "red"@ != "orange"@,
        "red"@ != "pink"@,
        "red"@ != "teal"@,
        "red"@ != "gold"@,
        "blue"@ != "green"@,
        "blue"@ != "orange"@,
        "blue"@ != "pink"@,
        "blue"@ != "teal"@,
        "blue"@ != "gold"@,
        "green"@ != "orange"@,
        "green"@ != "pink"@,
        "green"@ != "teal"@,
        "green"@ != "gold"@,
        "orange"@ != "pink"@,
        "orange"@ != "teal"@,
        "orange"@ != "gold"@,
        "pink"@ != "teal"@,
        "pink"@ != "gold"@,
        "teal"@ != "gold"@,
{
    reveal_strlit("purple");
    reveal_strlit("red");
    reveal_strlit("blue");
    reveal_strlit("green");
    reveal_strlit("orange");
    reveal_strlit("pink");
    reveal_strlit("teal");
    reveal_strlit("gold");
    assert("purple"@.len() != "red"@.len());
    assert("purple"@[0] != "blue"@[0]);
    assert("purple"@[0] != "green"@[0]);
    assert("purple"@[0] != "orange"@[0]);
    assert("purple"@.len() != "pink"@.len());
    assert("purple"@[0] != "teal"@[0]);
    assert("purple"@[0] != "gold"@[0]);
    assert("red"@.len() != "blue"@.len());
    assert("red"@[0] != "green"@[0]);
    assert("red"@[0] != "orange"@[0]);
    assert("red"@[0] != "pink"@[0]);
    assert("red"@[0] != "teal"@[0]);
    assert("red"@[0] != "gold"@[0]);
    assert("blue"@.len() != "green"@.len());
    assert("blue"@[0] != "orange"@[0]);
    assert("blue"@[0] != "pink"@[0]);
    assert("blue"@[0] != "teal"@[0]);
    assert("blue"@[0] != "gold"@[0]);
    assert("green"@.len() != "orange"@.len());
    assert("green"@[0] != "pink"@[0]);
    assert("green"@[0] != "teal"@[0]);
    assert("green"@[2] != "gold"@[2]);
    assert("orange"@.len() != "pink"@.len());
    assert("orange"@[0] != "teal"@[0]);
    assert("orange"@[0] != "gold"@[0]);
    assert("pink"@[0] != "teal"@[0]);
    assert("pink"@[0] != "gold"@[0]);
    assert("teal"@[0] != "gold"@[0]);
}

/// A swatch's saved id reads back as that swatch, and no two swatches share
/// an id.
pub proof fn lemma_outfit_id_round_trip(c: OutfitColor, d: OutfitColor)
    ensures
        outfit_color_of(outfit_id(c)) == c,
        outfit_id(c) == outfit_id(d) ==> c == d,
{
    lemma_outfit_ids_differ();
}

} // verus!
