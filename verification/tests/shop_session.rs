use rand::rngs::SmallRng;
use rand::SeedableRng;
use robot_buddy_game::game::menu::ShopKeeper;
use robot_buddy_game::game::shop_session::{
    shop_turn_page, open_shop, shop_answer, shop_close, shop_pick_color, shop_select, shop_start_purchase, shop_start_trade,
    worn_swag, Currency, ItemKind, PurchaseOutcome, SelectStep, Settled, ShopItem, ShopSession, TradeQuote,
};
use robot_buddy_game::sprites::player::OutfitColor;

fn item(id: &str, name: &str, blurb: &str, kind: ItemKind) -> ShopItem {
    ShopItem { id: id.to_string(), name: name.to_string(), blurb: blurb.to_string(), kind, currency: Currency::DumDums }
}

fn bolt() -> ShopSession {
    open_shop(
        ShopKeeper::Bolt,
        vec![
            item("top_hat", "Top Hat", "", ItemKind::Swag),
            item("color_change", "Color Change", "", ItemKind::Swag),
            item("trade", "Trade Desk", "", ItemKind::Trade { rate: 5, into: Currency::DumDums }),
            item("jet_boots", "Jet Boots", "zoom zoom", ItemKind::Upgrade),
            item("lamp", "Lamp", "", ItemKind::Upgrade),
        ],
        vec![],
    )
}

fn make_quote(offered: u32, gain: u32, left_over: u32, spent: u32, short_by: u32) -> TradeQuote {
    TradeQuote { from: Currency::Pearls, into: Currency::DumDums, offered, gain, left_over, spent, short_by }
}

fn msg(s: &ShopSession) -> &str {
    s.message.as_deref().unwrap_or("")
}

#[test]
fn buying_an_item_solves_the_subtraction() {
    let mut rng = SmallRng::seed_from_u64(3);
    let mut s = bolt();
    assert_eq!(shop_select(&mut s, 0), SelectStep::Purchase);
    shop_start_purchase(&mut s, 0, 10, PurchaseOutcome::Bought { spent: 4, new_balance: 6 }, "Dum Dums", &mut rng);
    assert_eq!(s.selected, Some(0));
    assert_eq!((s.cost, s.answer, s.balance_before), (4, 6, 10));
    let mut tiles = s.choices.clone();
    tiles.sort();
    assert_eq!(tiles, vec![6, 7, 10]);
    assert_eq!(shop_select(&mut s, 1), SelectStep::Busy, "a sum is being solved");
    assert_eq!(shop_answer(&mut s, 7, "", ""), None);
    assert_eq!(msg(&s), "Hmm, let me count again...");
    assert_eq!(shop_answer(&mut s, 6, "", ""), Some(Settled::Bought { item: 0, spent: 4, left: 6 }));
    assert_eq!(msg(&s), "You look GREAT in the Top Hat!");
    assert_eq!(s.owned, vec!["top_hat".to_string()]);
    assert!(s.selected.is_none() && s.choices.is_empty());
    assert_eq!(shop_answer(&mut s, 6, "", ""), None, "nothing to solve");
}

#[test]
fn purchase_refusals_only_say_why() {
    let mut rng = SmallRng::seed_from_u64(3);
    let mut s = bolt();
    shop_start_purchase(&mut s, 0, 1, PurchaseOutcome::CantAfford { shortfall: 3 }, "Dum Dums", &mut rng);
    assert_eq!(msg(&s), "You need 3 more Dum Dums!");
    assert!(s.selected.is_none());
    shop_start_purchase(&mut s, 0, 9, PurchaseOutcome::AlreadyOwned, "Dum Dums", &mut rng);
    assert_eq!(msg(&s), "You're already wearing that one!");
    shop_start_purchase(&mut s, 3, 9, PurchaseOutcome::AlreadyOwned, "Dum Dums", &mut rng);
    assert_eq!(msg(&s), "The Jet Boots is already yours!", "a perk is carried, not worn");
    shop_start_purchase(&mut s, 0, 9, PurchaseOutcome::UnknownItem, "Dum Dums", &mut rng);
    assert_eq!(msg(&s), "The Jet Boots is already yours!");
}

#[test]
fn upgrades_say_what_they_do() {
    let mut rng = SmallRng::seed_from_u64(5);
    let mut s = bolt();
    shop_start_purchase(&mut s, 3, 10, PurchaseOutcome::Bought { spent: 2, new_balance: 8 }, "Dum Dums", &mut rng);
    assert!(shop_answer(&mut s, 8, "", "").is_some());
    assert_eq!(msg(&s), "Jet Boots — zoom zoom!");
    shop_start_purchase(&mut s, 4, 8, PurchaseOutcome::Bought { spent: 1, new_balance: 7 }, "Dum Dums", &mut rng);
    assert!(shop_answer(&mut s, 7, "", "").is_some());
    assert_eq!(msg(&s), "The Lamp is yours for keeps!");
}

#[test]
fn color_change_opens_the_swatches_and_reopens_them() {
    let mut rng = SmallRng::seed_from_u64(5);
    let mut s = bolt();
    assert_eq!(shop_select(&mut s, 1), SelectStep::Purchase);
    shop_start_purchase(&mut s, 1, 5, PurchaseOutcome::Bought { spent: 5, new_balance: 0 }, "Dum Dums", &mut rng);
    assert!(shop_answer(&mut s, 0, "", "").is_some());
    assert!(s.picking_color);
    assert_eq!(msg(&s), "You got it! Pick your color!");
    assert_eq!(shop_pick_color(&mut s, 2), Some(OutfitColor::Blue));
    assert_eq!(msg(&s), "Looking good!");
    assert_eq!(shop_pick_color(&mut s, 99), None);
    assert!(!shop_close(&mut s), "Done first closes the swatches");
    assert!(!s.picking_color && s.message.is_none());
    assert_eq!(shop_select(&mut s, 1), SelectStep::RepickColor);
    assert!(s.picking_color);
    assert!(!shop_close(&mut s));
    assert!(shop_close(&mut s), "then the shop");
}

#[test]
fn trading_pearls_divides_the_pile() {
    let mut rng = SmallRng::seed_from_u64(9);
    let mut s = bolt();
    assert_eq!(shop_select(&mut s, 2), SelectStep::Trade { rate: 5, into: Currency::DumDums });
    let short = make_quote(3, 0, 3, 0, 2);
    shop_start_trade(&mut s, 2, short, "Dum Dum", "pearls", &mut rng);
    assert_eq!(msg(&s), "Not enough for a Dum Dum yet — you need 2 more pearls!");
    assert!(s.selected.is_none());
    let quote = make_quote(17, 3, 2, 15, 0);
    shop_start_trade(&mut s, 2, quote, "Dum Dum", "pearls", &mut rng);
    assert_eq!((s.selected, s.answer, s.trading), (Some(2), 3, Some(quote)));
    let mut tiles = s.choices.clone();
    tiles.sort();
    assert_eq!(tiles, vec![2, 3, 4]);
    assert_eq!(shop_answer(&mut s, 3, "3 Dum Dums", "2 pearls"), Some(Settled::Traded(quote)));
    assert_eq!(msg(&s), "3 Dum Dums, and 2 pearls back in your pocket!");
    assert!(s.trading.is_none() && s.owned.is_empty());
    let even = make_quote(10, 2, 0, 10, 0);
    shop_start_trade(&mut s, 2, even, "Dum Dum", "pearls", &mut rng);
    assert!(shop_answer(&mut s, 2, "2 Dum Dums", "0 pearls").is_some());
    assert_eq!(msg(&s), "2 Dum Dums, spot on!");
}

#[test]
fn only_swag_is_worn() {
    let owned = vec!["top_hat".to_string(), "jet_boots".to_string(), "scarf".to_string()];
    let upgrades = vec!["jet_boots".to_string()];
    assert_eq!(worn_swag(&owned, &upgrades), vec!["top_hat".to_string(), "scarf".to_string()]);
}

#[test]
fn turning_a_page_changes_only_the_page() {
    let mut s = bolt();
    assert_eq!(s.page, 0);
    shop_turn_page(&mut s, 2);
    assert_eq!(s.page, 2);
    assert!(s.selected.is_none() && s.message.is_none());
}
