//! A visit to a shop counter, step by step: browsing, picking an item,
//! solving the subtraction that pays for it (or the division of a pearl
//! trade), and picking a color after Color Change. Each step here says how
//! the visit changes and what the game must settle; the price rules
//! themselves (can the kid afford it, what a trade is worth) come in as
//! results the game hands over.
use crate::chars::{contains_str, push_decimal, push_str, str_eq};
use crate::game::menu::ShopKeeper;
use crate::chars::decimal;
use crate::game::shop::{division_candidates, division_choices, sat_sub, subtraction_candidates, subtraction_choices};
use crate::sprites::player::{outfit_palette, palette, OutfitColor};
use rand::rngs::SmallRng;
use vstd::prelude::*;

verus! {

/// What a counter is paid in.
#[derive(Clone, Copy, PartialEq, Eq, Debug, Structural)]
pub enum Currency {
    DumDums,
    Pearls,
}

/// What kind of thing a catalog row sells.
#[derive(Clone, Copy, PartialEq, Eq, Debug, Structural)]
pub enum ItemKind {
    /// Something to wear, which can be handed to a buddy.
    Swag,
    /// A permanent perk, banked rather than worn.
    Upgrade,
    /// The trade desk: a pile of the row's currency turned into `into`,
    /// `rate` apiece.
    Trade { rate: u32, into: Currency },
}

/// One catalog row.
#[derive(Clone, Debug)]
pub struct ShopItem {
    pub id: String,
    pub name: String,
    /// What an upgrade does, in a few words; may be empty.
    pub blurb: String,
    pub kind: ItemKind,
    pub currency: Currency,
}

/// What a trade of the whole pile comes to, as the price rules quote it: the
/// currency handed over and the one gained, how much is offered, gained,
/// left over and spent, and (when nothing is gained) how much more is
/// needed for one.
#[derive(Clone, Copy, PartialEq, Eq, Debug, Structural)]
pub struct TradeQuote {
    pub from: Currency,
    pub into: Currency,
    pub offered: u32,
    pub gain: u32,
    pub left_over: u32,
    pub spent: u32,
    pub short_by: u32,
}

/// How a purchase would go, as the price rules judge it.
#[derive(Clone, Copy, PartialEq, Eq, Debug, Structural)]
pub enum PurchaseOutcome {
    Bought { spent: u32, new_balance: u32 },
    CantAfford { shortfall: u32 },
    AlreadyOwned,
    UnknownItem,
}

/// An open shop counter.
#[derive(Clone, Debug)]
pub struct ShopSession {
    pub keeper: ShopKeeper,
    pub catalog: Vec<ShopItem>,
    /// Ids of what the kid has from this counter (worn swag, bought perks).
    pub owned: Vec<String>,
    /// The catalog row whose sum is being solved; `None` while browsing.
    pub selected: Option<usize>,
    /// The answer tiles of the sum being solved.
    pub choices: Vec<u32>,
    pub answer: u32,
    pub cost: u32,
    pub balance_before: u32,
    pub message: Option<String>,
    /// The color swatches are up.
    pub picking_color: bool,
    /// The trade being solved, if the sum is a trade.
    pub trading: Option<TradeQuote>,
    /// The catalog page on show.
    pub page: usize,
}

/// The ids the kid has, as character strings.
pub open spec fn owned_ids(s: ShopSession) -> Set<Seq<char>> {
    s.owned@.map_values(|o: String| o@).to_set()
}

/// The message as characters, if any.
pub open spec fn message_of(s: ShopSession) -> Option<Seq<char>> {
    match s.message {
        Some(m) => Some(m@),
        None => None,
    }
}

/// A session in which the row being solved is in the catalog.
pub open spec fn session_ok(s: ShopSession) -> bool {
    s.selected matches Some(i) ==> i < s.catalog@.len()
}

/// `b` is `a` with at most the message and the color picker changed.
pub open spec fn same_sum(a: ShopSession, b: ShopSession) -> bool {
    &&& b.keeper == a.keeper
    &&& b.catalog@ == a.catalog@
    &&& b.owned@ == a.owned@
    &&& b.selected == a.selected
    &&& b.choices@ == a.choices@
    &&& b.answer == a.answer
    &&& b.cost == a.cost
    &&& b.balance_before == a.balance_before
    &&& b.trading == a.trading
}

/// Open a counter with its catalog and what the kid already has from it.
pub fn open_shop(keeper: ShopKeeper, catalog: Vec<ShopItem>, owned: Vec<String>) -> (s: ShopSession)
    ensures
        s.keeper == keeper,
        s.catalog@ == catalog@,
        s.owned@ == owned@,
        s.selected is None,
        s.choices@.len() == 0,
        s.answer == 0 && s.cost == 0 && s.balance_before == 0,
        s.message is None,
        !s.picking_color,
        s.trading is None,
        s.page == 0,
        session_ok(s),
{
    ShopSession {
        keeper,
        catalog,
        owned,
        selected: None,
        choices: Vec::new(),
        answer: 0,
        cost: 0,
        balance_before: 0,
        message: None,
        picking_color: false,
        trading: None,
        page: 0,
    }
}

/// Show catalog page `page`; nothing else changes.
pub fn shop_turn_page(s: &mut ShopSession, page: usize)
    ensures
        *final(s) == (ShopSession { page, ..*old(s) }),
{
    s.page = page;
}

/// "Done": dismiss the nearest thing. With the color swatches up they close
/// (and the message clears) and the shop stays open; otherwise the answer is
/// `true`: close the shop, nothing else changes.
pub fn shop_close(s: &mut ShopSession) -> (close: bool)
    ensures
        close == !old(s).picking_color,
        same_sum(*old(s), *final(s)),
        !final(s).picking_color,
        close ==> message_of(*final(s)) == message_of(*old(s)),
        !close ==> final(s).message is None,
{
    if s.picking_color {
        s.picking_color = false;
        s.message = None;
        return false;
    }
    true
}

/// The ids in `owned` that are not in `upgrades`, in order: what the kid
/// wears out of what they have.
pub open spec fn worn_of(owned: Seq<Seq<char>>, upgrades: Seq<Seq<char>>) -> Seq<Seq<char>> {
    owned.filter(|o: Seq<char>| !upgrades.contains(o))
}

/// The swag the kid wears: what they have from the counter, less the
/// perks (`upgrades`), which are banked rather than worn.
pub fn worn_swag(owned: &Vec<String>, upgrades: &Vec<String>) -> (w: Vec<String>)
    ensures
        w@.map_values(|o: String| o@) == worn_of(owned@.map_values(|o: String| o@), upgrades@.map_values(|o: String| o@)),
{
    let ghost os = owned@.map_values(|o: String| o@);
    let ghost us = upgrades@.map_values(|o: String| o@);
    let mut w: Vec<String> = Vec::new();
    let mut i: usize = 0;
    while i < owned.len()
        invariant
            0 <= i <= owned@.len(),
            os == owned@.map_values(|o: String| o@),
            us == upgrades@.map_values(|o: String| o@),
            w@.map_values(|o: String| o@) == worn_of(os.subrange(0, i as int), us),
        decreases owned@.len() - i,
    {
        let o = &owned[i];
        proof {
            assert(os.subrange(0, i + 1) =~= os.subrange(0, i as int).push(os[i as int]));
            os.subrange(0, i as int).lemma_filter_push(os[i as int], |o: Seq<char>| !us.contains(o));
        }
        if !contains_str(upgrades, o.as_str()) {
            let c = o.clone();
            w.push(c);
            proof {
                assert(w@.map_values(|o: String| o@) =~= worn_of(os.subrange(0, i as int), us).push(os[i as int]));
            }
        }
        i = i + 1;
    }
    proof {
        assert(os.subrange(0, i as int) =~= os);
    }
    w
}

/// What picking catalog row `i` leads to.
#[derive(Clone, Copy, PartialEq, Eq, Debug, Structural)]
pub enum SelectStep {
    /// A sum is being solved or the swatches are up: nothing happens.
    Busy,
    /// Color Change is already had: the swatches open again.
    RepickColor,
    /// The trade desk: quote the pile at `rate` apiece, into `into`.
    Trade { rate: u32, into: Currency },
    /// An ordinary item: ask the price rules about buying it.
    Purchase,
}

pub open spec fn select_spec(s: ShopSession, i: int) -> SelectStep {
    let item = s.catalog@[i];
    if s.selected is Some || s.picking_color {
        SelectStep::Busy
    } else if item.id@ == "color_change"@ && owned_ids(s).contains(item.id@) {
        SelectStep::RepickColor
    } else {
        match item.kind {
            ItemKind::Trade { rate, into } => SelectStep::Trade { rate, into },
            _ => SelectStep::Purchase,
        }
    }
}

/// Pick catalog row `i`. Only a re-opened color picker changes the visit
/// here (swatches up, message cleared); a trade or a purchase goes on with
/// `shop_start_trade` or `shop_start_purchase`.
pub fn shop_select(s: &mut ShopSession, i: usize) -> (step: SelectStep)
    requires
        i < old(s).catalog@.len(),
    ensures
        step == select_spec(*old(s), i as int),
        step == SelectStep::RepickColor ==> same_sum(*old(s), *final(s)) && final(s).picking_color
            && final(s).message is None,
        step != SelectStep::RepickColor ==> *final(s) == *old(s),
{
    if s.selected.is_some() || s.picking_color {
        return SelectStep::Busy;
    }
    let is_color = str_eq(s.catalog[i].id.as_str(), "color_change");
    if is_color && contains_str(&s.owned, s.catalog[i].id.as_str()) {
        proof {
            let ids = s.owned@.map_values(|o: String| o@);
            assert(ids.to_set().contains(s.catalog@[i as int].id@));
        }
        s.picking_color = true;
        s.message = None;
        return SelectStep::RepickColor;
    }
    proof {
        if is_color {
            let ids = s.owned@.map_values(|o: String| o@);
            assert(!ids.to_set().contains(s.catalog@[i as int].id@));
        }
    }
    match s.catalog[i].kind {
        ItemKind::Trade { rate, into } => SelectStep::Trade { rate, into },
        _ => SelectStep::Purchase,
    }
}

pub open spec fn need_more_text(one: Seq<char>, short_by: nat, noun: Seq<char>) -> Seq<char> {
    "Not enough for a "@ + one + " yet — you need "@ + decimal(short_by) + " more "@ + noun + "!"@
}

/// Start the trade at row `i`, quoted as `quote`. A pile too small for one
/// of what it trades into only gets a message saying how much is missing
/// (`one` names a single one of what it trades into, `noun` the currency
/// handed over, for `quote.short_by` of it); otherwise the division is set
/// up: its answer is the gain and its tiles those of `division_choices`.
pub fn shop_start_trade(s: &mut ShopSession, i: usize, quote: TradeQuote, one: &str, noun: &str, rng: &mut SmallRng)
    requires
        quote.gain + 2 <= u32::MAX,
    ensures
        quote.gain == 0 ==> same_sum(*old(s), *final(s)) && final(s).picking_color == old(s).picking_color
            && message_of(*final(s)) == Some(need_more_text(one@, quote.short_by as nat, noun@)),
        quote.gain > 0 ==> {
            &&& final(s).selected == Some(i)
            &&& final(s).answer == quote.gain
            &&& final(s).message is None
            &&& final(s).trading == Some(quote)
            &&& final(s).choices@.to_multiset() == division_candidates(quote.gain, quote.offered).to_multiset()
            &&& final(s).keeper == old(s).keeper
            &&& final(s).catalog@ == old(s).catalog@
            &&& final(s).owned@ == old(s).owned@
            &&& final(s).cost == old(s).cost
            &&& final(s).balance_before == old(s).balance_before
            &&& final(s).picking_color == old(s).picking_color
        },
{
    if quote.gain == 0 {
        let mut t = String::new();
        push_str(&mut t, "Not enough for a ");
        push_str(&mut t, one);
        push_str(&mut t, " yet — you need ");
        push_decimal(&mut t, quote.short_by as u64);
        push_str(&mut t, " more ");
        push_str(&mut t, noun);
        push_str(&mut t, "!");
        s.message = Some(t);
        return;
    }
    s.selected = Some(i);
    s.answer = quote.gain;
    s.message = None;
    s.choices = division_choices(quote.gain, quote.offered, rng);
    s.trading = Some(quote);
}

pub open spec fn cant_afford_text(shortfall: nat, label: Seq<char>) -> Seq<char> {
    "You need "@ + decimal(shortfall) + " more "@ + label + "!"@
}

/// What the counter says of a row already had: a perk is carried, not worn.
pub open spec fn already_had_text(item: ShopItem) -> Seq<char> {
    if item.kind == ItemKind::Upgrade {
        "The "@ + item.name@ + " is already yours!"@
    } else {
        "You're already wearing that one!"@
    }
}

/// Start buying row `i` from a purse of `balance`, as the price rules
/// judged it (`outcome`); `label` is the currency's noun for the shortfall.
/// A bought item sets up the subtraction `balance - spent` with the tiles of
/// `subtraction_choices`; a short purse or an item already had only gets a
/// message; an unknown item changes nothing.
pub fn shop_start_purchase(
    s: &mut ShopSession,
    i: usize,
    balance: u32,
    outcome: PurchaseOutcome,
    label: &str,
    rng: &mut SmallRng,
)
    requires
        i < old(s).catalog@.len(),
        outcome matches PurchaseOutcome::Bought { spent, .. } ==> sat_sub(balance, spent) + 2 <= u32::MAX,
    ensures
        match outcome {
            PurchaseOutcome::Bought { spent, new_balance } => {
                &&& final(s).selected == Some(i)
                &&& final(s).cost == spent
                &&& final(s).answer == new_balance
                &&& final(s).balance_before == balance
                &&& final(s).message is None
                &&& final(s).choices@.to_multiset() == subtraction_candidates(balance, spent).to_multiset()
                &&& final(s).keeper == old(s).keeper
                &&& final(s).catalog@ == old(s).catalog@
                &&& final(s).owned@ == old(s).owned@
                &&& final(s).trading == old(s).trading
                &&& final(s).picking_color == old(s).picking_color
            },
            PurchaseOutcome::CantAfford { shortfall } => same_sum(*old(s), *final(s)) && final(s).picking_color
                == old(s).picking_color && message_of(*final(s)) == Some(cant_afford_text(shortfall as nat, label@)),
            PurchaseOutcome::AlreadyOwned => same_sum(*old(s), *final(s)) && final(s).picking_color
                == old(s).picking_color && message_of(*final(s)) == Some(already_had_text(old(s).catalog@[i as int])),
            PurchaseOutcome::UnknownItem => *final(s) == *old(s),
        },
{
    match outcome {
        PurchaseOutcome::Bought { spent, new_balance } => {
            s.selected = Some(i);
            s.cost = spent;
            s.answer = new_balance;
            s.balance_before = balance;
            s.message = None;
            s.choices = subtraction_choices(balance, spent, rng);
        },
        PurchaseOutcome::CantAfford { shortfall } => {
            let mut t = String::new();
            push_str(&mut t, "You need ");
            push_decimal(&mut t, shortfall as u64);
            push_str(&mut t, " more ");
            push_str(&mut t, label);
            push_str(&mut t, "!");
            s.message = Some(t);
        },
        PurchaseOutcome::AlreadyOwned => {
            let item = &s.catalog[i];
            let mut t = String::new();
            if item.kind == ItemKind::Upgrade {
                push_str(&mut t, "The ");
                push_str(&mut t, item.name.as_str());
                push_str(&mut t, " is already yours!");
            } else {
                push_str(&mut t, "You're already wearing that one!");
            }
            s.message = Some(t);
        },
        PurchaseOutcome::UnknownItem => {},
    }
}

/// What a solved sum leaves for the game to settle.
#[derive(Clone, Copy, PartialEq, Eq, Debug, Structural)]
pub enum Settled {
    /// Row `item` is bought: `spent` leaves the purse, `left` remains.
    Bought { item: usize, spent: u32, left: u32 },
    Traded(TradeQuote),
}

/// What the counter says of a settled trade, given the gain and the
/// left-over counted out with their nouns (`gained`, `left`).
pub open spec fn trade_done_text(q: TradeQuote, gained: Seq<char>, left: Seq<char>) -> Seq<char> {
    if q.left_over > 0 {
        gained + ", and "@ + left + " back in your pocket!"@
    } else {
        gained + ", spot on!"@
    }
}

/// What the counter says when `item` is bought.
pub open spec fn bought_text(item: ShopItem) -> Seq<char> {
    if item.id@ == "color_change"@ {
        "You got it! Pick your color!"@
    } else if item.kind == ItemKind::Upgrade {
        if item.blurb@.len() == 0 {
            "The "@ + item.name@ + " is yours for keeps!"@
        } else {
            item.name@ + " — "@ + item.blurb@ + "!"@
        }
    } else {
        "You look GREAT in the "@ + item.name@ + "!"@
    }
}

/// Tap answer tile `v`. Outside a sum nothing happens. A wrong tile gets a
/// gentle recount message. The right one closes the sum: a trade is
/// settled as quoted; a purchase adds the item to what the kid has (and,
/// for Color Change, opens the swatches) and is settled at the price and
/// remainder of the sum. `gained` and `left` count out a trade's gain and
/// left-over with their nouns (such as "3 Dum Dums", "1 pearl").
pub fn shop_answer(s: &mut ShopSession, v: u32, gained: &str, left: &str) -> (r: Option<Settled>)
    requires
        session_ok(*old(s)),
    ensures
        session_ok(*final(s)),
        old(s).selected is None ==> r is None && *final(s) == *old(s),
        old(s).selected is Some && v != old(s).answer ==> r is None && same_sum(*old(s), *final(s))
            && final(s).picking_color == old(s).picking_color
            && message_of(*final(s)) == Some("Hmm, let me count again..."@),
        old(s).selected is Some && v == old(s).answer ==> {
            &&& final(s).selected is None
            &&& final(s).choices@.len() == 0
            &&& final(s).trading is None
            &&& final(s).keeper == old(s).keeper
            &&& final(s).catalog@ == old(s).catalog@
            &&& final(s).answer == old(s).answer
            &&& final(s).cost == old(s).cost
            &&& final(s).balance_before == old(s).balance_before
        },
        old(s).selected is Some && v == old(s).answer ==> match old(s).trading {
            Some(q) => {
                &&& r == Some(Settled::Traded(q))
                &&& message_of(*final(s)) == Some(trade_done_text(q, gained@, left@))
                &&& final(s).owned@ == old(s).owned@
                &&& final(s).picking_color == old(s).picking_color
            },
            None => {
                let i = old(s).selected->0;
                let item = old(s).catalog@[i as int];
                &&& r == Some(Settled::Bought { item: i, spent: old(s).cost, left: old(s).answer })
                &&& owned_ids(*final(s)) == owned_ids(*old(s)).insert(item.id@)
                &&& message_of(*final(s)) == Some(bought_text(item))
                &&& final(s).picking_color == (old(s).picking_color || item.id@ == "color_change"@)
            },
        },
{
    let i = match s.selected {
        None => {
            return None;
        },
        Some(i) => i,
    };
    if v != s.answer {
        s.message = Some(String::from_str("Hmm, let me count again..."));
        return None;
    }
    if let Some(q) = s.trading {
        s.trading = None;
        s.selected = None;
        s.choices = Vec::new();
        let mut t = String::new();
        push_str(&mut t, gained);
        if q.left_over > 0 {
            push_str(&mut t, ", and ");
            push_str(&mut t, left);
            push_str(&mut t, " back in your pocket!");
        } else {
            push_str(&mut t, ", spot on!");
        }
        s.message = Some(t);
        return Some(Settled::Traded(q));
    }
    let ghost before = s.owned@;
    if !contains_str(&s.owned, s.catalog[i].id.as_str()) {
        let id = s.catalog[i].id.clone();
        s.owned.push(id);
        proof {
            lemma_push_ids(before, s.catalog@[i as int].id);
        }
    } else {
        proof {
            let ids = before.map_values(|o: String| o@);
            assert(ids.contains(s.catalog@[i as int].id@));
            assert(ids.to_set() =~= ids.to_set().insert(s.catalog@[i as int].id@));
        }
    }
    s.selected = None;
    s.choices = Vec::new();
    let item = &s.catalog[i];
    let mut t = String::new();
    if str_eq(item.id.as_str(), "color_change") {
        s.picking_color = true;
        push_str(&mut t, "You got it! Pick your color!");
    } else if item.kind == ItemKind::Upgrade {
        if item.blurb.as_str().unicode_len() == 0 {
            push_str(&mut t, "The ");
            push_str(&mut t, item.name.as_str());
            push_str(&mut t, " is yours for keeps!");
        } else {
            push_str(&mut t, item.name.as_str());
            push_str(&mut t, " — ");
            push_str(&mut t, item.blurb.as_str());
            push_str(&mut t, "!");
        }
    } else {
        push_str(&mut t, "You look GREAT in the ");
        push_str(&mut t, item.name.as_str());
        push_str(&mut t, "!");
    }
    s.message = Some(t);
    Some(Settled::Bought { item: i, spent: s.cost, left: s.answer })
}

/// Adding a string to the list adds its characters to the set of ids.
proof fn lemma_push_ids(owned: Seq<String>, id: String)
    ensures
        owned.push(id).map_values(|o: String| o@).to_set() == owned.map_values(|o: String| o@).to_set().insert(id@),
{
    let a = owned.push(id).map_values(|o: String| o@);
    let b = owned.map_values(|o: String| o@);
    assert(a =~= b.push(id@));
    assert forall|x: Seq<char>| a.contains(x) <==> b.contains(x) || x == id@ by {
        if a.contains(x) {
            let k = choose|k: int| 0 <= k < a.len() && a[k] == x;
            if k < b.len() {
                assert(b[k] == x);
            }
        }
        if b.contains(x) {
            let k = choose|k: int| 0 <= k < b.len() && b[k] == x;
            assert(a[k] == x);
        }
        if x == id@ {
            assert(a[b.len() as int] == x);
        }
    }
    assert(a.to_set() =~= b.to_set().insert(id@));
}

/// Tap color swatch `i`. A swatch of the palette is chosen (the game wears
/// and saves it) with a cheer; any other tap changes nothing.
pub fn shop_pick_color(s: &mut ShopSession, i: usize) -> (c: Option<OutfitColor>)
    ensures
        i < palette().len() ==> c == Some(palette()[i as int]) && same_sum(*old(s), *final(s))
            && final(s).picking_color == old(s).picking_color
            && message_of(*final(s)) == Some("Looking good!"@),
        i >= palette().len() ==> c is None && *final(s) == *old(s),
{
    let colors = outfit_palette();
    if i >= colors.len() {
        return None;
    }
    s.message = Some(String::from_str("Looking good!"));
    Some(colors[i])
}

} // verus!
