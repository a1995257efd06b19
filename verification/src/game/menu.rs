//! The interaction menu's choice: which option the kid picked in front of
//! whom decides what opens next. The game carries the step out: it rolls the
//! challenge chance, starts the activity or opens the shop.
use crate::chars::str_eq;
use vstd::prelude::*;

verus! {

/// Which shopkeeper runs a shop.
#[derive(Clone, Copy, PartialEq, Eq, Debug, Structural)]
pub enum ShopKeeper {
    /// Bolt's swag shop, paid in Dum Dums.
    Bolt,
    /// Hermie the hermit crab's reef shop, paid in pearls.
    Hermie,
}

/// What follows a choice in the interaction menu.
#[derive(Clone, Copy, PartialEq, Eq, Debug, Structural)]
pub enum MenuStep {
    /// Talk with Sparky. When `challenge_percent` is above zero, a challenge
    /// is queued after the talk with that chance, in percent.
    TalkSparky { challenge_percent: u32 },
    /// Talk with the NPC in front of the kid (if it is still there), with the
    /// same kind of challenge chance.
    TalkNpc { challenge_percent: u32 },
    StartKenken,
    StartPattern,
    StartBalance,
    StartSudoku,
    StartDescent,
    OpenShop { keeper: ShopKeeper },
    OpenSwag,
    /// Hand over a Dum Dum, if the kid has one to give.
    Give,
    /// Close the menu and play on.
    BackToPlaying,
}

/// The step for option `option` chosen in front of `target`; `None` is a
/// dismissed menu. A chat may end in a challenge only where `can_challenge`:
/// half the time with Sparky, two times in five with anyone else. The shop
/// in front of the hermit crab is Hermie's; every other shop is Bolt's.
pub open spec fn menu_step_spec(option: Option<Seq<char>>, target: Seq<char>, can_challenge: bool) -> MenuStep {
    match option {
        None => MenuStep::BackToPlaying,
        Some(o) => if o == "talk"@ {
            if target == "sparky"@ {
                MenuStep::TalkSparky { challenge_percent: if can_challenge { 50 } else { 0 } }
            } else {
                MenuStep::TalkNpc { challenge_percent: if can_challenge { 40 } else { 0 } }
            }
        } else if o == "puzzle"@ {
            MenuStep::StartKenken
        } else if o == "pattern"@ {
            MenuStep::StartPattern
        } else if o == "balance"@ {
            MenuStep::StartBalance
        } else if o == "sudoku"@ {
            MenuStep::StartSudoku
        } else if o == "dive"@ {
            MenuStep::StartDescent
        } else if o == "shop"@ {
            MenuStep::OpenShop {
                keeper: if target == "hermit_crab"@ {
                    ShopKeeper::Hermie
                } else {
                    ShopKeeper::Bolt
                },
            }
        } else if o == "swag"@ {
            MenuStep::OpenSwag
        } else if o == "give"@ {
            MenuStep::Give
        } else {
            MenuStep::BackToPlaying
        },
    }
}

/// Decide what follows the menu choice `option` (`None`: the menu was
/// dismissed) made in front of the NPC with id `target`.
pub fn menu_step(option: Option<&str>, target: &str, can_challenge: bool) -> (s: MenuStep)
    ensures
        s == menu_step_spec(
            match option {
                Some(o) => Some(o@),
                None => None,
            },
            target@,
            can_challenge,
        ),
{
    let o = match option {
        None => {
            return MenuStep::BackToPlaying;
        },
        Some(o) => o,
    };
    if str_eq(o, "talk") {
        if str_eq(target, "sparky") {
            MenuStep::TalkSparky { challenge_percent: if can_challenge { 50 } else { 0 } }
        } else {
            MenuStep::TalkNpc { challenge_percent: if can_challenge { 40 } else { 0 } }
        }
    } else if str_eq(o, "puzzle") {
        MenuStep::StartKenken
    } else if str_eq(o, "pattern") {
        MenuStep::StartPattern
    } else if str_eq(o, "balance") {
        MenuStep::StartBalance
    } else if str_eq(o, "sudoku") {
        MenuStep::StartSudoku
    } else if str_eq(o, "dive") {
        MenuStep::StartDescent
    } else if str_eq(o, "shop") {
        MenuStep::OpenShop {
            keeper: if str_eq(target, "hermit_crab") {
                ShopKeeper::Hermie
            } else {
                ShopKeeper::Bolt
            },
        }
    } else if str_eq(o, "swag") {
        MenuStep::OpenSwag
    } else if str_eq(o, "give") {
        MenuStep::Give
    } else {
        MenuStep::BackToPlaying
    }
}

} // verus!
