//! The game's own small rules, apart from the frame loop: the top-level
//! states, feature flags, dialogue lines and the scripted ones, the secret
//! dev-zone name, where the buddy stands, which tile the player faces, and
//! the answer tiles of quest puzzles.
pub mod dev_knobs;
pub mod interact;
pub mod leap;
pub mod menu;
pub mod pearl_hop;
pub mod portals;
pub mod shop;
pub mod shop_session;
pub mod walk;

use crate::chars::{chars_of, decimal, is_whitespace, owned, push_decimal, push_str, str_eq, unicode_white_space};
use crate::npc::{lemma_npc_ids_round_trip, npc_display_name, npc_id, NpcKind};
use crate::rng::{pick_below, shuffle};
use crate::sprites::Dir;
use crate::tilemap::{solid_at, TileMap};
use rand::rngs::SmallRng;
use vstd::prelude::*;

verus! {

/// A full fuel tank. Refilling at a depot tops the rocket back up to this.
pub const FUEL_MAX: u32 = 10;

/// Where Sparky waits when an NPC has taken over the buddy slot: next to
/// Professor Gizmo on the overworld.
pub const SPARKY_HOME_MAP: &'static str = "overworld";
pub const SPARKY_HOME_TX: usize = 13;
pub const SPARKY_HOME_TY: usize = 12;

/// The top-level state machine's states.
#[derive(Clone, Copy, PartialEq, Eq, Debug, Structural)]
pub enum GameState {
    Title,
    NewGame,
    Intake,
    Playing,
    InteractionMenu,
    Dialogue,
    Challenge,
    KenKen,
    Pattern,
    Balance,
    Sudoku,
    Shop,
    /// Handing a piece of shop swag to a buddy.
    Swag,
    /// Diving the shaft to the trench: the descent minigame.
    Descent,
    Quest,
    /// The number-bond space shooter.
    Shooter,
}

/// Opt-in toggles for in-development paths. Both default off.
#[derive(Clone, Copy, Debug)]
pub struct FeatureFlags {
    /// Random encounters fire as the kid explores.
    pub encounters: bool,
    /// Quests are offered and executable.
    pub quest: bool,
}

impl Default for FeatureFlags {
    fn default() -> (f: Self)
        ensures
            !f.encounters,
            !f.quest,
    {
        FeatureFlags { encounters: false, quest: false }
    }
}

/// Inline multiple choice for a quest's math step.
#[derive(Clone, Debug)]
pub struct QuestPuzzle {
    pub choices: Vec<i32>,
    pub answer: i32,
}

/// One line of dialogue: who says it and what they say.
#[derive(Clone, Debug)]
pub struct DialogueLine {
    pub speaker: String,
    pub text: String,
}

/// A dialogue line as (speaker, text).
pub open spec fn line_view(l: DialogueLine) -> (Seq<char>, Seq<char>) {
    (l.speaker@, l.text@)
}

/// Dialogue lines as (speaker, text) pairs.
pub open spec fn lines_view(s: Seq<DialogueLine>) -> Seq<(Seq<char>, Seq<char>)> {
    s.map_values(|l: DialogueLine| line_view(l))
}

/// A line spoken by `speaker`.
pub fn say(speaker: &str, text: &str) -> (l: DialogueLine)
    ensures
        line_view(l) == (speaker@, text@),
{
    DialogueLine { speaker: owned(speaker), text: owned(text) }
}

fn push_line(v: &mut Vec<DialogueLine>, l: DialogueLine)
    ensures
        lines_view(final(v)@) == lines_view(old(v)@).push(line_view(l)),
{
    v.push(l);
    proof {
        assert(lines_view(final(v)@) =~= lines_view(old(v)@).push(line_view(l)));
    }
}

/// Every text, each spoken by `speaker`.
fn say_all(speaker: &str, texts: Vec<&'static str>) -> (v: Vec<DialogueLine>)
    ensures
        lines_view(v@) == texts@.map_values(|t: &'static str| (speaker@, t@)),
{
    let mut v: Vec<DialogueLine> = Vec::new();
    let mut i: usize = 0;
    while i < texts.len()
        invariant
            0 <= i <= texts@.len(),
            lines_view(v@) == texts@.subrange(0, i as int).map_values(|t: &'static str| (speaker@, t@)),
        decreases texts@.len() - i,
    {
        push_line(&mut v, say(speaker, texts[i]));
        i = i + 1;
        proof {
            assert(texts@.subrange(0, i as int).map_values(|t: &'static str| (speaker@, t@))
                =~= texts@.subrange(0, i - 1).map_values(|t: &'static str| (speaker@, t@)).push((speaker@, texts@[i - 1]@)));
        }
    }
    proof {
        assert(texts@.subrange(0, i as int) =~= texts@);
    }
    v
}

// ─── The dev zone ──────────────────────────────────────────

/// The name typed at the new-game screen, whitespace dropped, is the dev
/// zone's code word, ASCII case ignored.
pub open spec fn is_dev_zone_code_spec(name: Seq<char>) -> bool {
    let n = name.filter(|c: char| !unicode_white_space(c));
    &&& n.len() == 12
    &&& forall|i: int| 0 <= i < 12 ==> #[trigger] n[i] == "justinbailey"@[i] || n[i] == "JUSTINBAILEY"@[i]
}

/// Whether a typed name opens the dev zone.
pub fn is_dev_zone_code(name: &str) -> (b: bool)
    ensures
        b == is_dev_zone_code_spec(name@),
{
    let cs = chars_of(name);
    let mut n: Vec<char> = Vec::new();
    let mut i: usize = 0;
    let ghost keep = |c: char| !unicode_white_space(c);
    while i < cs.len()
        invariant
            cs@ == name@,
            0 <= i <= cs@.len(),
            n@ == name@.subrange(0, i as int).filter(keep),
            keep == (|c: char| !unicode_white_space(c)),
        decreases cs@.len() - i,
    {
        proof {
            assert(name@.subrange(0, i + 1).drop_last() =~= name@.subrange(0, i as int));
            reveal(Seq::filter);
        }
        if !is_whitespace(cs[i]) {
            n.push(cs[i]);
        }
        i = i + 1;
    }
    proof {
        assert(name@.subrange(0, cs@.len() as int) =~= name@);
    }
    if n.len() != 12 {
        return false;
    }
    let lower = chars_of("justinbailey");
    let upper = chars_of("JUSTINBAILEY");
    proof {
        reveal_strlit("justinbailey");
        reveal_strlit("JUSTINBAILEY");
    }
    let mut j: usize = 0;
    while j < 12
        invariant
            n@.len() == 12,
            lower@ == "justinbailey"@,
            upper@ == "JUSTINBAILEY"@,
            lower@.len() == 12,
            upper@.len() == 12,
            0 <= j <= 12,
            forall|k: int| 0 <= k < j ==> #[trigger] n@[k] == lower@[k] || n@[k] == upper@[k],
            n@ == name@.filter(|c: char| !unicode_white_space(c)),
        decreases 12 - j,
    {
        if n[j] != lower[j] && n[j] != upper[j] {
            proof {
                let f = name@.filter(|c: char| !unicode_white_space(c));
                assert(f[j as int] == n@[j as int]);
            }
            return false;
        }
        j = j + 1;
    }
    true
}

// ─── Where Sparky stands ───────────────────────────────────

/// The four spots next to the player Sparky tries, in order: below, above,
/// right, left. Off-map spots (including ones that would wrap below zero)
/// are never taken.
pub open spec fn sparky_candidates(px: usize, py: usize) -> Seq<(int, int)> {
    seq![(px as int, py + 1), (px as int, py - 1), (px + 1, py as int), (px - 1, py as int)]
}

/// Whether Sparky can stand on (`c`, `r`): on the map, not solid, no NPC there.
pub open spec fn sparky_fits(m: crate::tilemap::MapView, npcs: Seq<(usize, usize)>, c: int, r: int) -> bool {
    &&& 0 <= c < m.width
    &&& 0 <= r < m.height
    &&& !solid_at(m, c as usize, r as usize)
    &&& !npcs.contains((c as usize, r as usize))
}

/// Where Sparky lands beside the player: the first candidate spot that
/// fits, or the player's own tile when none does.
pub open spec fn sparky_spot_spec(m: crate::tilemap::MapView, npcs: Seq<(usize, usize)>, px: usize, py: usize) -> (usize, usize) {
    let cs = sparky_candidates(px, py);
    if sparky_fits(m, npcs, cs[0].0, cs[0].1) {
        (cs[0].0 as usize, cs[0].1 as usize)
    } else if sparky_fits(m, npcs, cs[1].0, cs[1].1) {
        (cs[1].0 as usize, cs[1].1 as usize)
    } else if sparky_fits(m, npcs, cs[2].0, cs[2].1) {
        (cs[2].0 as usize, cs[2].1 as usize)
    } else if sparky_fits(m, npcs, cs[3].0, cs[3].1) {
        (cs[3].0 as usize, cs[3].1 as usize)
    } else {
        (px, py)
    }
}

/// A spot one step from (`px`, `py`) is free for Sparky: on the map, not
/// solid, no NPC there.
pub open spec fn free_beside(m: crate::tilemap::MapView, npcs: Seq<(usize, usize)>, c: int, r: int) -> bool {
    0 <= c < m.width && 0 <= r < m.height && !solid_at(m, c as usize, r as usize) && !npcs.contains(
        (c as usize, r as usize),
    )
}

/// Sparky never lands on something solid or on an NPC: any spot other than
/// the player's own tile is on the map, not solid, free of NPCs and one step
/// from the player. He falls back on the player's tile only when none of
/// the four tiles around the player is free, and a free tile below the
/// player is always the one taken.
pub proof fn lemma_sparky_spot_is_free(m: crate::tilemap::MapView, npcs: Seq<(usize, usize)>, px: usize, py: usize)
    ensures
        ({
            let s = sparky_spot_spec(m, npcs, px, py);
            &&& s != (px, py) ==> {
                &&& s.0 < m.width && s.1 < m.height
                &&& !solid_at(m, s.0, s.1)
                &&& !npcs.contains(s)
                &&& (if s.0 >= px { s.0 - px } else { px - s.0 }) + (if s.1 >= py { s.1 - py } else { py - s.1 }) == 1
            }
            &&& s == (px, py) ==> {
                &&& !free_beside(m, npcs, px as int, py + 1)
                &&& !free_beside(m, npcs, px as int, py - 1)
                &&& !free_beside(m, npcs, px + 1, py as int)
                &&& !free_beside(m, npcs, px - 1, py as int)
            }
            &&& free_beside(m, npcs, px as int, py + 1) ==> s == (px, (py + 1) as usize)
        }),
{
}

fn npc_at(npcs: &[(usize, usize)], c: usize, r: usize) -> (b: bool)
    ensures
        b == npcs@.contains((c, r)),
{
    let mut i: usize = 0;
    while i < npcs.len()
        invariant
            0 <= i <= npcs@.len(),
            forall|j: int| 0 <= j < i ==> npcs@[j] != (c, r),
        decreases npcs@.len() - i,
    {
        if npcs[i].0 == c && npcs[i].1 == r {
            proof {
                assert(npcs@[i as int] == (c, r));
            }
            return true;
        }
        i = i + 1;
    }
    false
}

fn fits(map: &TileMap, npcs: &[(usize, usize)], c: usize, r: usize) -> (b: bool)
    requires
        map.wf(),
    ensures
        b == sparky_fits(map@, npcs@, c as int, r as int),
{
    c < map.width && r < map.height && !map.is_solid(c, r) && !npc_at(npcs, c, r)
}

/// A free tile next to the player for Sparky, given the tiles the map's
/// NPCs stand on.
pub fn find_sparky_spot(player_x: usize, player_y: usize, map: &TileMap, npcs: &[(usize, usize)]) -> (spot: (usize, usize))
    requires
        map.wf(),
        player_x < usize::MAX,
        player_y < usize::MAX,
    ensures
        spot == sparky_spot_spec(map@, npcs@, player_x, player_y),
{
    if fits(map, npcs, player_x, player_y + 1) {
        return (player_x, player_y + 1);
    }
    if player_y > 0 && fits(map, npcs, player_x, player_y - 1) {
        return (player_x, player_y - 1);
    }
    if fits(map, npcs, player_x + 1, player_y) {
        return (player_x + 1, player_y);
    }
    if player_x > 0 && fits(map, npcs, player_x - 1, player_y) {
        return (player_x - 1, player_y);
    }
    (player_x, player_y)
}

/// The tile one step from (`tx`, `ty`) in `dir`; stepping up or left from
/// the edge wraps round to `usize::MAX`, which is off every map.
pub open spec fn facing_tile_spec(tx: usize, ty: usize, dir: Dir) -> (usize, usize) {
    match dir {
        Dir::Up => (tx, if ty == 0 { usize::MAX } else { (ty - 1) as usize }),
        Dir::Down => (tx, (ty + 1) as usize),
        Dir::Left => (if tx == 0 { usize::MAX } else { (tx - 1) as usize }, ty),
        Dir::Right => ((tx + 1) as usize, ty),
    }
}

/// The tile the player faces.
pub fn facing_tile(tx: usize, ty: usize, dir: Dir) -> (t: (usize, usize))
    requires
        dir == Dir::Down ==> ty < usize::MAX,
        dir == Dir::Right ==> tx < usize::MAX,
    ensures
        t == facing_tile_spec(tx, ty, dir),
{
    match dir {
        Dir::Up => (tx, ty.wrapping_sub(1)),
        Dir::Down => (tx, ty + 1),
        Dir::Left => (tx.wrapping_sub(1), ty),
        Dir::Right => (tx + 1, ty),
    }
}

// ─── Buddies and scripted lines ────────────────────────────

/// The NPC kind whose stable id is `id`, if any.
pub open spec fn kind_with_id(id: Seq<char>) -> Option<NpcKind> {
    if exists|k: NpcKind| npc_id(k) == id {
        Some(choose|k: NpcKind| npc_id(k) == id)
    } else {
        None
    }
}

/// The name shown for a buddy id: Sparky's, an NPC kind's display name, or
/// the raw id when no kind has it.
pub open spec fn buddy_name(id: Seq<char>) -> Seq<char> {
    if id == "sparky"@ {
        "Sparky"@
    } else {
        match kind_with_id(id) {
            Some(k) => npc_display_name(k),
            None => id,
        }
    }
}

/// The display name for a buddy id.
pub fn display_name_for_buddy_id(id: &str) -> (name: String)
    ensures
        name@ == buddy_name(id@),
{
    if str_eq(id, "sparky") {
        return owned("Sparky");
    }
    match NpcKind::from_id(id) {
        Some(k) => {
            proof {
                lemma_npc_ids_round_trip(k);
                let c = choose|c: NpcKind| npc_id(c) == id@;
                assert(npc_id(c) == npc_id(k));
            }
            owned(k.display_name())
        },
        None => {
            proof {
                assert forall|k: NpcKind| npc_id(k) != id@ by {
                    lemma_npc_ids_round_trip(k);
                }
            }
            owned(id)
        },
    }
}

/// The line a buddy says on joining the player.
pub open spec fn join_line(joined: Seq<char>) -> (Seq<char>, Seq<char>) {
    if joined == "sparky"@ {
        ("Sparky"@, "BEEP BOOP! I'm BACK, boss! Let's go adventuring!"@)
    } else {
        (buddy_name(joined), "Ooh, an adventure? I'd love to come along with you!"@)
    }
}

/// The line a buddy says on heading home.
pub open spec fn leave_line(left: Seq<char>) -> (Seq<char>, Seq<char>) {
    if left == "sparky"@ {
        ("Sparky"@, "Heading back to Professor Gizmo to charge up! Catch ya later, boss!"@)
    } else {
        (buddy_name(left), "I'll head on home now \u{2014} have so much fun out there!"@)
    }
}

/// The lines that follow a gift reaction when a dum dum swaps the buddy:
/// the newcomer's hello, then (if someone left) the old buddy's goodbye.
/// Ids are stable NPC ids, or `sparky`.
pub fn buddy_swap_dialogue(joined: &str, left: Option<&str>, reaction: Vec<DialogueLine>) -> (v: Vec<DialogueLine>)
    ensures
        lines_view(v@) == (match left {
            Some(l) => lines_view(reaction@).push(join_line(joined@)).push(leave_line(l@)),
            None => lines_view(reaction@).push(join_line(joined@)),
        }),
{
    let mut reaction = reaction;
    if str_eq(joined, "sparky") {
        push_line(&mut reaction, say("Sparky", "BEEP BOOP! I'm BACK, boss! Let's go adventuring!"));
    } else {
        let name = display_name_for_buddy_id(joined);
        push_line(
            &mut reaction,
            say(name.as_str(), "Ooh, an adventure? I'd love to come along with you!"),
        );
    }
    if let Some(prev) = left {
        if str_eq(prev, "sparky") {
            push_line(
                &mut reaction,
                say("Sparky", "Heading back to Professor Gizmo to charge up! Catch ya later, boss!"),
            );
        } else {
            let name = display_name_for_buddy_id(prev);
            push_line(
                &mut reaction,
                say(name.as_str(), "I'll head on home now \u{2014} have so much fun out there!"),
            );
        }
    }
    reaction
}

/// Flavor lines for stepping into a secret or special map; none elsewhere.
pub open spec fn secret_entry_texts(map_id: Seq<char>) -> Seq<Seq<char>> {
    if map_id == "dream"@ {
        seq![
            "BZZZT! Boss! My circuits feel all tingly! Everything looks... purple?"@,
            "Are we... dreaming? The flowers are floating! BEEP BOOP this is WEIRD!"@,
        ]
    } else if map_id == "doghouse"@ {
        seq![
            "ERROR ERROR! Visual systems reporting... BORK?! What IS this place?!"@,
            "My display is all glitchy! I see scan lines and... is that a DOG made of CODE?!"@,
        ]
    } else if map_id == "grove"@ {
        seq![
            "Whoa boss! We just walked RIGHT THROUGH those trees! How did we do that?!"@,
            "This place is SO pretty! And SO secret! The trees are whispering!"@,
        ]
    } else if map_id == "reef"@ {
        seq![
            "BLUB BLUB! We're UNDERWATER, boss! And I didn't even rust! Best upgrade EVER!"@,
            "Look \u{2014} coral, kelp, and is that a SHARK napping on the path? Let's go say hi!"@,
            "See Shelly the clam by the number-stones? Her bubble says which stone hides her PEARL!"@,
            "And little houses to the east! An underwater VILLAGE! Can we knock? Please please please?"@,
        ]
    } else if map_id == "trench"@ {
        seq![
            "WHOA, the deep trench! It's darker down here, boss... and look at all the glowing vents!"@,
            "There's another Shelly with number-stones \u{2014} find her pearl! The bright bubble column takes us back up."@,
        ]
    } else if map_id == "space_hub"@ {
        seq![
            "3... 2... 1... BLAST OFF! WHEEEE! Boss, we're in SPACE! Actual outer SPACE!"@,
            "Fly the rocket to a glowing pad to visit a planet! Tank the fuel droid is over there if we run low."@,
        ]
    } else {
        Seq::empty()
    }
}

/// Lines for stepping into a secret map, voiced by whoever is tagging along.
pub fn secret_entry_dialogue(map_id: &str, speaker: &str) -> (v: Vec<DialogueLine>)
    ensures
        lines_view(v@) == secret_entry_texts(map_id@).map_values(|t: Seq<char>| (speaker@, t)),
{
    let texts: Vec<&'static str> = if str_eq(map_id, "dream") {
        vec![
            "BZZZT! Boss! My circuits feel all tingly! Everything looks... purple?",
            "Are we... dreaming? The flowers are floating! BEEP BOOP this is WEIRD!",
        ]
    } else if str_eq(map_id, "doghouse") {
        vec![
            "ERROR ERROR! Visual systems reporting... BORK?! What IS this place?!",
            "My display is all glitchy! I see scan lines and... is that a DOG made of CODE?!",
        ]
    } else if str_eq(map_id, "grove") {
        vec![
            "Whoa boss! We just walked RIGHT THROUGH those trees! How did we do that?!",
            "This place is SO pretty! And SO secret! The trees are whispering!",
        ]
    } else if str_eq(map_id, "reef") {
        vec![
            "BLUB BLUB! We're UNDERWATER, boss! And I didn't even rust! Best upgrade EVER!",
            "Look \u{2014} coral, kelp, and is that a SHARK napping on the path? Let's go say hi!",
            "See Shelly the clam by the number-stones? Her bubble says which stone hides her PEARL!",
            "And little houses to the east! An underwater VILLAGE! Can we knock? Please please please?",
        ]
    } else if str_eq(map_id, "trench") {
        vec![
            "WHOA, the deep trench! It's darker down here, boss... and look at all the glowing vents!",
            "There's another Shelly with number-stones \u{2014} find her pearl! The bright bubble column takes us back up.",
        ]
    } else if str_eq(map_id, "space_hub") {
        vec![
            "3... 2... 1... BLAST OFF! WHEEEE! Boss, we're in SPACE! Actual outer SPACE!",
            "Fly the rocket to a glowing pad to visit a planet! Tank the fuel droid is over there if we run low.",
        ]
    } else {
        Vec::new()
    };
    let v = say_all(speaker, texts);
    proof {
        assert(texts@.map_values(|t: &'static str| (speaker@, t@)) =~= secret_entry_texts(map_id@).map_values(
            |t: Seq<char>| (speaker@, t),
        ));
    }
    v
}

/// Sparky's idle chatter; one is picked at random when he's talked to.
pub open spec fn sparky_lines() -> Seq<Seq<char>> {
    seq![
        "BEEP BOOP! Hi boss! I polished my antenna just for you!"@,
        "BZZZT! I think a butterfly landed on my head! Is it still there?"@,
        "Did you know robots dream about lollipops? I do! Every night!"@,
        "Whoa! My circuits are tingling! That means adventure is near!"@,
        "I tried to count all the flowers but I ran out of beeps!"@,
        "Hey boss! Watch this! *spins around* WHOAAAA I'm dizzy!"@,
        "Beep bop boop! That's robot for 'you're awesome!'"@,
        "ALERT ALERT! Fun detected in this area! Beep boop!"@,
    ]
}

/// Sparky's chatter line number `idx`.
pub fn sparky_line(idx: usize) -> (v: Vec<DialogueLine>)
    requires
        idx < sparky_lines().len(),
    ensures
        lines_view(v@) == seq![("Sparky"@, sparky_lines()[idx as int])],
{
    let lines: Vec<&'static str> = vec![
        "BEEP BOOP! Hi boss! I polished my antenna just for you!",
        "BZZZT! I think a butterfly landed on my head! Is it still there?",
        "Did you know robots dream about lollipops? I do! Every night!",
        "Whoa! My circuits are tingling! That means adventure is near!",
        "I tried to count all the flowers but I ran out of beeps!",
        "Hey boss! Watch this! *spins around* WHOAAAA I'm dizzy!",
        "Beep bop boop! That's robot for 'you're awesome!'",
        "ALERT ALERT! Fun detected in this area! Beep boop!",
    ];
    let mut v: Vec<DialogueLine> = Vec::new();
    push_line(&mut v, say("Sparky", lines[idx]));
    proof {
        assert(lines_view(v@) =~= seq![("Sparky"@, sparky_lines()[idx as int])]);
    }
    v
}

/// One of Sparky's chatter lines, picked by `rng`.
pub fn sparky_dialogue_lines(rng: &mut SmallRng) -> (v: Vec<DialogueLine>)
    ensures
        exists|i: int| 0 <= i < sparky_lines().len() && lines_view(v@) == seq![("Sparky"@, #[trigger] sparky_lines()[i])],
{
    let idx = pick_below(rng, 8);
    sparky_line(idx)
}

// ─── Answer tiles ──────────────────────────────────────────

/// Append each candidate, in order, that `keep` accepts and that is not
/// already held, stopping once `limit` values are held.
pub open spec fn gather<T>(out: Seq<T>, cands: Seq<T>, limit: nat, keep: spec_fn(T) -> bool) -> Seq<T>
    decreases cands.len(),
{
    if cands.len() == 0 || out.len() >= limit {
        out
    } else if keep(cands[0]) && !out.contains(cands[0]) {
        gather(out.push(cands[0]), cands.drop_first(), limit, keep)
    } else {
        gather(out, cands.drop_first(), limit, keep)
    }
}

/// What `gather` keeps: the starting values first, then only accepted
/// candidates; no value twice if none was twice to start with; never more
/// than `limit` values when it starts within the limit.
pub proof fn lemma_gather<T>(out: Seq<T>, cands: Seq<T>, limit: nat, keep: spec_fn(T) -> bool)
    ensures
        gather(out, cands, limit, keep).len() >= out.len(),
        gather(out, cands, limit, keep).subrange(0, out.len() as int) == out,
        forall|i: int|
            out.len() <= i < gather(out, cands, limit, keep).len() ==> keep(
                #[trigger] gather(out, cands, limit, keep)[i],
            ) && cands.contains(gather(out, cands, limit, keep)[i]),
        out.no_duplicates() ==> gather(out, cands, limit, keep).no_duplicates(),
        out.len() <= limit ==> gather(out, cands, limit, keep).len() <= limit,
    decreases cands.len(),
{
    let g = gather(out, cands, limit, keep);
    if cands.len() == 0 || out.len() >= limit {
        assert(g.subrange(0, out.len() as int) =~= out);
    } else if keep(cands[0]) && !out.contains(cands[0]) {
        let o2 = out.push(cands[0]);
        lemma_gather(o2, cands.drop_first(), limit, keep);
        assert(g.subrange(0, o2.len() as int) =~= o2);
        assert(g.subrange(0, out.len() as int) =~= o2.subrange(0, out.len() as int));
        assert(o2.subrange(0, out.len() as int) =~= out);
        assert forall|i: int| out.len() <= i < g.len() implies keep(#[trigger] g[i]) && cands.contains(g[i]) by {
            if i == out.len() {
                assert(g[i] == g.subrange(0, o2.len() as int)[i]);
                assert(cands.contains(cands[0]));
            } else {
                let j = choose|j: int| 0 <= j < cands.drop_first().len() && cands.drop_first()[j] == g[i];
                assert(cands[j + 1] == g[i]);
            }
        }
        if out.no_duplicates() {
            assert(o2.no_duplicates()) by {
                assert forall|a: int, b: int| 0 <= a < o2.len() && 0 <= b < o2.len() && a != b implies o2[a] != o2[b] by {
                    if a == out.len() as int {
                        assert(out[b] == o2[b]);
                    } else if b == out.len() as int {
                        assert(out[a] == o2[a]);
                    }
                }
            }
        }
    } else {
        lemma_gather(out, cands.drop_first(), limit, keep);
        assert forall|i: int| out.len() <= i < g.len() implies keep(#[trigger] g[i]) && cands.contains(g[i]) by {
            let j = choose|j: int| 0 <= j < cands.drop_first().len() && cands.drop_first()[j] == g[i];
            assert(cands[j + 1] == g[i]);
        }
    }
}

/// Gathering keeps every new accepted candidate it meets while there is
/// room: if `xs` lists distinct accepted candidates not held at the start,
/// and they all fit under the limit, at least that many values are added.
pub proof fn lemma_gathers<T>(out: Seq<T>, cands: Seq<T>, limit: nat, keep: spec_fn(T) -> bool, xs: Seq<T>)
    requires
        xs.no_duplicates(),
        forall|i: int|
            0 <= i < xs.len() ==> cands.contains(#[trigger] xs[i]) && keep(xs[i]) && !out.contains(xs[i]),
        out.len() + xs.len() <= limit,
    ensures
        gather(out, cands, limit, keep).len() >= out.len() + xs.len(),
    decreases cands.len(),
{
    lemma_gather(out, cands, limit, keep);
    if xs.len() == 0 {
    } else if cands.len() == 0 {
        assert(cands.contains(xs[0]));
    } else {
        let c = cands[0];
        let rest = cands.drop_first();
        assert forall|x: T| cands.contains(x) && x != c implies rest.contains(x) by {
            let i = choose|i: int| 0 <= i < cands.len() && cands[i] == x;
            assert(rest[i - 1] == x);
        }
        if keep(c) && !out.contains(c) {
            let o2 = out.push(c);
            assert(gather(out, cands, limit, keep) == gather(o2, rest, limit, keep));
            let xs2 = if xs.contains(c) {
                let j = choose|j: int| 0 <= j < xs.len() && xs[j] == c;
                let t = xs.subrange(0, j) + xs.subrange(j + 1, xs.len() as int);
                assert forall|k: int| 0 <= k < t.len() implies #[trigger] t[k] == (if k < j {
                    xs[k]
                } else {
                    xs[k + 1]
                }) by {}
                assert forall|a: int, b: int| 0 <= a < t.len() && 0 <= b < t.len() && a != b implies t[a]
                    != t[b] by {
                    let ia = if a < j { a } else { a + 1 };
                    let ib = if b < j { b } else { b + 1 };
                    assert(t[a] == xs[ia]);
                    assert(t[b] == xs[ib]);
                }
                assert forall|k: int| 0 <= k < t.len() implies #[trigger] t[k] != c by {
                    let ik = if k < j { k } else { k + 1 };
                    assert(t[k] == xs[ik]);
                }
                assert forall|k: int| 0 <= k < t.len() implies cands.contains(#[trigger] t[k]) && keep(t[k])
                    && !out.contains(t[k]) by {
                    let ik = if k < j { k } else { k + 1 };
                    assert(t[k] == xs[ik]);
                }
                t
            } else {
                let t = xs.drop_last();
                assert forall|k: int| 0 <= k < t.len() implies #[trigger] t[k] != c by {
                    assert(t[k] == xs[k]);
                }
                assert forall|k: int| 0 <= k < t.len() implies cands.contains(#[trigger] t[k]) && keep(t[k])
                    && !out.contains(t[k]) by {
                    assert(t[k] == xs[k]);
                }
                t
            };
            assert(xs2.len() + 1 >= xs.len());
            assert forall|k: int| 0 <= k < xs2.len() implies rest.contains(#[trigger] xs2[k]) && keep(xs2[k])
                && !o2.contains(xs2[k]) by {
                assert(xs2[k] != c);
                assert(cands.contains(xs2[k]));
                if o2.contains(xs2[k]) {
                    let m = choose|m: int| 0 <= m < o2.len() && o2[m] == xs2[k];
                    if m < out.len() {
                        assert(out[m] == xs2[k]);
                    }
                }
            }
            lemma_gathers(o2, rest, limit, keep, xs2);
        } else {
            assert forall|k: int| 0 <= k < xs.len() implies #[trigger] xs[k] != c by {}
            assert forall|k: int| 0 <= k < xs.len() implies rest.contains(#[trigger] xs[k]) && keep(xs[k])
                && !out.contains(xs[k]) by {
                assert(xs[k] != c);
            }
            lemma_gathers(out, rest, limit, keep, xs);
        }
    }
}

/// Two arrangements of the same values agree on membership, length and
/// whether any value repeats.
pub proof fn lemma_same_values<T>(a: Seq<T>, b: Seq<T>)
    requires
        a.to_multiset() == b.to_multiset(),
    ensures
        forall|x: T| a.contains(x) <==> b.contains(x),
        a.len() == b.len(),
        b.no_duplicates() ==> a.no_duplicates(),
{
    a.to_multiset_ensures();
    b.to_multiset_ensures();
    assert forall|x: T| a.contains(x) <==> b.contains(x) by {
        vstd::seq_lib::to_multiset_contains(a, x);
        vstd::seq_lib::to_multiset_contains(b, x);
    }
    if b.no_duplicates() {
        b.lemma_multiset_has_no_duplicates();
        a.lemma_multiset_has_no_duplicates_conv();
    }
}

fn contains_i32(v: &Vec<i32>, x: i32) -> (b: bool)
    ensures
        b == v@.contains(x),
{
    let mut i: usize = 0;
    while i < v.len()
        invariant
            0 <= i <= v@.len(),
            forall|j: int| 0 <= j < i ==> v@[j] != x,
        decreases v@.len() - i,
    {
        if v[i] == x {
            assert(v@[i as int] == x);
            return true;
        }
        i = i + 1;
    }
    false
}

/// Distractors on quest tiles are positive numbers.
pub open spec fn positive() -> spec_fn(i32) -> bool {
    |d: i32| d > 0
}

/// The quest tiles before shuffling: the answer, then answer+1, answer-1,
/// answer+2, answer-2, answer+3 as long as they are positive and not
/// already there, up to four tiles.
pub open spec fn quest_candidates(answer: i32) -> Seq<i32> {
    gather(
        seq![answer],
        seq![
            (answer + 1) as i32,
            (answer - 1) as i32,
            (answer + 2) as i32,
            (answer - 2) as i32,
            (answer + 3) as i32,
        ],
        4,
        positive(),
    )
}

/// The quest tiles for `answer`, in the order they are gathered.
pub fn quest_answer_candidates(answer: i32) -> (v: Vec<i32>)
    requires
        answer <= i32::MAX - 3,
        answer >= i32::MIN + 2,
    ensures
        v@ == quest_candidates(answer),
{
    let cands: Vec<i32> = vec![answer + 1, answer - 1, answer + 2, answer - 2, answer + 3];
    let mut out: Vec<i32> = vec![answer];
    let ghost keep = positive();
    let mut i: usize = 0;
    proof {
        assert(cands@.skip(0) =~= cands@);
        assert(out@ =~= seq![answer]);
        assert(cands@ =~= seq![
            (answer + 1) as i32,
            (answer - 1) as i32,
            (answer + 2) as i32,
            (answer - 2) as i32,
            (answer + 3) as i32,
        ]);
    }
    while i < cands.len()
        invariant
            cands@ == seq![
                (answer + 1) as i32,
                (answer - 1) as i32,
                (answer + 2) as i32,
                (answer - 2) as i32,
                (answer + 3) as i32,
            ],
            0 <= i <= cands@.len(),
            keep == positive(),
            gather(out@, cands@.skip(i as int), 4, keep) == quest_candidates(answer),
        ensures
            gather(out@, cands@.skip(i as int), 4, keep) == quest_candidates(answer),
            out@.len() >= 4 || i == cands@.len(),
            i <= cands@.len(),
        decreases cands@.len() - i,
    {
        if out.len() >= 4 {
            break;
        }
        let d = cands[i];
        proof {
            assert(cands@.skip(i as int)[0] == d);
            assert(cands@.skip(i as int).drop_first() =~= cands@.skip(i + 1));
        }
        if d > 0 && !contains_i32(&out, d) {
            out.push(d);
        }
        i = i + 1;
    }
    proof {
        assert(cands@.skip(i as int).len() == 0 || out@.len() >= 4);
    }
    out
}

/// Answer tiles for a quest puzzle: the answer plus nearby positive
/// distractors, shuffled by `rng`.
pub fn quest_answer_choices(answer: i32, rng: &mut SmallRng) -> (v: Vec<i32>)
    requires
        answer <= i32::MAX - 3,
        answer >= i32::MIN + 2,
    ensures
        v@.to_multiset() == quest_candidates(answer).to_multiset(),
        v@.contains(answer),
        v@.no_duplicates(),
        1 <= v@.len() <= 4,
        answer >= 0 ==> v@.len() == 4,
        forall|i: int| 0 <= i < v@.len() && v@[i] != answer ==> v@[i] > 0,
{
    let mut v = quest_answer_candidates(answer);
    shuffle(&mut v, rng);
    proof {
        lemma_quest_candidates(answer);
        lemma_same_values(v@, quest_candidates(answer));
        assert forall|i: int| 0 <= i < v@.len() && v@[i] != answer implies v@[i] > 0 by {
            assert(quest_candidates(answer).contains(v@[i]));
        }
    }
    v
}

/// The quest tiles always hold the answer, never repeat, and number at most
/// four; every other tile is positive; for an answer of zero or more there
/// are exactly four.
pub proof fn lemma_quest_candidates(answer: i32)
    requires
        answer <= i32::MAX - 3,
        answer >= i32::MIN + 2,
    ensures
        quest_candidates(answer).contains(answer),
        quest_candidates(answer).no_duplicates(),
        1 <= quest_candidates(answer).len() <= 4,
        answer >= 0 ==> quest_candidates(answer).len() == 4,
        forall|i: int|
            0 <= i < quest_candidates(answer).len() && #[trigger] quest_candidates(answer)[i] != answer
                ==> quest_candidates(answer)[i] > 0,
{
    let keep = positive();
    let cands = seq![
        (answer + 1) as i32,
        (answer - 1) as i32,
        (answer + 2) as i32,
        (answer - 2) as i32,
        (answer + 3) as i32,
    ];
    lemma_gather(seq![answer], cands, 4, keep);
    let g = quest_candidates(answer);
    assert(g.subrange(0, 1)[0] == answer);
    assert(g[0] == answer);
    assert forall|i: int| 0 <= i < g.len() && #[trigger] g[i] != answer implies g[i] > 0 by {
        if i >= 1 {
            assert(keep(g[i]));
        }
    }
    if answer >= 0 {
        // answer + 1, answer + 2 and answer + 3 are new, positive and distinct.
        let xs = seq![(answer + 1) as i32, (answer + 2) as i32, (answer + 3) as i32];
        assert(cands[0] == xs[0] && cands[2] == xs[1] && cands[4] == xs[2]);
        assert forall|k: int| 0 <= k < xs.len() implies cands.contains(#[trigger] xs[k]) && keep(xs[k])
            && !seq![answer].contains(xs[k]) by {
            if k == 0 {
                assert(cands[0] == xs[k]);
            } else if k == 1 {
                assert(cands[2] == xs[k]);
            } else {
                assert(cands[4] == xs[k]);
            }
        }
        lemma_gathers(seq![answer], cands, 4, keep, xs);
    }
}

/// The arithmetic of a quest's math step.
#[derive(Clone, Copy, PartialEq, Eq, Debug, Structural)]
pub enum QuestOperation {
    Add,
    Sub,
    Multiply,
    Divide,
    NumberBond,
}

/// A quest step's answer: a count, so a difference is taken either way
/// round; division by zero counts as zero.
pub open spec fn quest_answer(op: QuestOperation, a: u16, b: u16) -> int {
    match op {
        QuestOperation::Sub => if a >= b {
            a - b
        } else {
            b - a
        },
        QuestOperation::Multiply => a * b,
        QuestOperation::Divide => if b != 0 {
            (a / b) as int
        } else {
            0
        },
        _ => a + b,
    }
}

/// The multiple choice for a quest math step with operands `operands`;
/// `None` when the step carries no operands.
pub fn build_quest_puzzle(op: QuestOperation, operands: Option<(u16, u16)>, rng: &mut SmallRng) -> (p: Option<QuestPuzzle>)
    requires
        operands matches Some((a, b)) ==> quest_answer(op, a, b) <= i32::MAX - 3,
    ensures
        operands is None ==> p is None,
        operands matches Some((a, b)) ==> (p matches Some(q) && q.answer == quest_answer(op, a, b)
            && q.choices@.to_multiset() == quest_candidates(q.answer).to_multiset()),
{
    let (a, b) = match operands {
        Some(pair) => pair,
        None => return None,
    };
    let (a, b) = (a as i32, b as i32);
    let answer: i32 = match op {
        QuestOperation::Sub => if a >= b {
            a - b
        } else {
            b - a
        },
        QuestOperation::Multiply => {
            assert(a * b <= i32::MAX);
            a * b
        },
        QuestOperation::Divide => if b != 0 {
            a / b
        } else {
            0
        },
        _ => a + b,
    };
    Some(QuestPuzzle { choices: quest_answer_choices(answer, rng), answer })
}

// ─── Gift reactions ────────────────────────────────────────

/// A gift-count milestone reached by a gift: which reaction it earns and
/// the running total of dum dums given.
#[derive(Clone, Debug)]
pub struct Milestone {
    pub reaction: String,
    pub total: u32,
}

/// What a giftee says on reaching a milestone.
pub open spec fn milestone_text(target_id: Seq<char>, reaction: Seq<char>, total: u32) -> Seq<char> {
    if target_id == "sparky"@ && reaction == "first"@ {
        "My FIRST Dum Dum?! This is the BEST DAY of my robot LIFE!"@
    } else if target_id == "sparky"@ && reaction == "spin"@ {
        "FIVE DUM DUMS! Watch me spin! *spins* WHOAAAA!"@
    } else if target_id == "sparky"@ && reaction == "accessory"@ {
        "TEN?! I'm wearing a bow tie now! Do I look fancy?!"@
    } else if target_id == "sparky"@ && reaction == "color_change"@ {
        "TWENTY! My chest light is changing color! BZZZT!"@
    } else if target_id == "sparky"@ && reaction == "ultimate"@ {
        "FIFTY DUM DUMS. Boss. I... I don't have words. BEEP."@
    } else if reaction == "first"@ {
        "My first Dum Dum! Thank you so much, you're the best!"@
    } else {
        "WOW! You've given me "@ + decimal(total as nat) + " Dum Dums! You're amazing!"@
    }
}

/// Sparky's everyday thanks for a dum dum; one is picked at random.
pub open spec fn sparky_munch_lines() -> Seq<Seq<char>> {
    seq![
        "MMMMM! *crunch* Circuits... BUZZING!"@,
        "Dum Dum Dum Dum! That's my favorite song!"@,
        "BZZZT! Sugar rush! BEEP BOOP BEEP!"@,
    ]
}

/// What anyone else says for an everyday dum dum.
pub open spec fn plain_thanks() -> Seq<char> {
    "Thank you! You're so kind!"@
}

fn milestone_line(target_id: &str, ms: &Milestone) -> (t: String)
    ensures
        t@ == milestone_text(target_id@, ms.reaction@, ms.total),
{
    let r = ms.reaction.as_str();
    let sparky = str_eq(target_id, "sparky");
    if sparky && str_eq(r, "first") {
        owned("My FIRST Dum Dum?! This is the BEST DAY of my robot LIFE!")
    } else if sparky && str_eq(r, "spin") {
        owned("FIVE DUM DUMS! Watch me spin! *spins* WHOAAAA!")
    } else if sparky && str_eq(r, "accessory") {
        owned("TEN?! I'm wearing a bow tie now! Do I look fancy?!")
    } else if sparky && str_eq(r, "color_change") {
        owned("TWENTY! My chest light is changing color! BZZZT!")
    } else if sparky && str_eq(r, "ultimate") {
        owned("FIFTY DUM DUMS. Boss. I... I don't have words. BEEP.")
    } else if str_eq(r, "first") {
        owned("My first Dum Dum! Thank you so much, you're the best!")
    } else {
        let mut t = String::new();
        push_str(&mut t, "WOW! You've given me ");
        push_decimal(&mut t, ms.total as u64);
        push_str(&mut t, " Dum Dums! You're amazing!");
        t
    }
}

/// The giftee's reaction to a dum dum, spoken by `target_name`. A milestone
/// gets its own line; otherwise Sparky says one of his everyday thanks (the
/// one numbered `munch`) and anyone else says plain thanks.
pub fn reaction_line(target_id: &str, target_name: &str, milestone: &Option<Milestone>, munch: usize) -> (v: Vec<DialogueLine>)
    requires
        munch < sparky_munch_lines().len(),
    ensures
        lines_view(v@) == seq![(target_name@, match milestone {
            Some(ms) => milestone_text(target_id@, ms.reaction@, ms.total),
            None => if target_id@ == "sparky"@ {
                sparky_munch_lines()[munch as int]
            } else {
                plain_thanks()
            },
        })],
{
    let text = match milestone {
        Some(ms) => milestone_line(target_id, ms),
        None => if str_eq(target_id, "sparky") {
            let lines: Vec<&'static str> = vec![
                "MMMMM! *crunch* Circuits... BUZZING!",
                "Dum Dum Dum Dum! That's my favorite song!",
                "BZZZT! Sugar rush! BEEP BOOP BEEP!",
            ];
            owned(lines[munch])
        } else {
            owned("Thank you! You're so kind!")
        },
    };
    let mut v: Vec<DialogueLine> = Vec::new();
    push_line(&mut v, DialogueLine { speaker: owned(target_name), text });
    proof {
        assert(lines_view(v@) =~= seq![(target_name@, match milestone {
            Some(ms) => milestone_text(target_id@, ms.reaction@, ms.total),
            None => if target_id@ == "sparky"@ {
                sparky_munch_lines()[munch as int]
            } else {
                plain_thanks()
            },
        })]);
    }
    v
}

/// The giftee's reaction to a dum dum. Only Sparky's everyday thanks is
/// drawn from `rng`, and only then is `rng` used.
pub fn give_reaction_dialogue(target_id: &str, target_name: &str, milestone: &Option<Milestone>, rng: &mut SmallRng) -> (v: Vec<DialogueLine>)
    ensures
        exists|m: int|
            0 <= m < sparky_munch_lines().len() && lines_view(v@) == seq![(target_name@, match milestone {
                Some(ms) => milestone_text(target_id@, ms.reaction@, ms.total),
                None => if target_id@ == "sparky"@ {
                    #[trigger] sparky_munch_lines()[m]
                } else {
                    plain_thanks()
                },
            })],
{
    let munch = if milestone.is_none() && str_eq(target_id, "sparky") {
        pick_below(rng, 3)
    } else {
        0
    };
    let v = reaction_line(target_id, target_name, milestone, munch);
    assert(sparky_munch_lines()[munch as int] == sparky_munch_lines()[munch as int]);
    v
}

} // verus!
