//! The rules of a portal trip: fuel for rocket jumps, the one-time toll of a
//! priced portal, and the dream world swapping in for the overworld. The game
//! applies the plan: it moves the player, swaps rosters and plays lines.
use crate::chars::{decimal, push_decimal, push_str, str_eq};
use crate::tilemap::Portal;
use vstd::prelude::*;

verus! {

/// What happens when the player steps on a portal.
#[derive(Clone, Copy, Debug)]
pub enum PortalTrip {
    /// A fuel-costed jump on too small a tank: nothing changes.
    OutOfFuel { needed: u32, have: u32 },
    /// The jump's fuel is spent, but the toll can't be paid, so the player
    /// stays: `fuel` is the tank afterwards, `short` what the toll lacks.
    TollShort { fuel: u32, cost: u32, short: u32 },
    /// Through the portal: the tank and the dum dums afterwards, whether the
    /// toll was paid on this trip, the map arrived on, and whether the world
    /// is dreaming from now on.
    Arrive { fuel: u32, dum_dums: u32, toll_paid: bool, dest_map: &'static str, dreaming: bool },
}

/// A trip's outcome as plain values.
pub enum TripView {
    OutOfFuel { needed: u32, have: u32 },
    TollShort { fuel: u32, cost: u32, short: u32 },
    Arrive { fuel: u32, dum_dums: u32, toll_paid: bool, dest_map: Seq<char>, dreaming: bool },
}

impl View for PortalTrip {
    type V = TripView;

    open spec fn view(&self) -> TripView {
        match *self {
            PortalTrip::OutOfFuel { needed, have } => TripView::OutOfFuel { needed, have },
            PortalTrip::TollShort { fuel, cost, short } => TripView::TollShort { fuel, cost, short },
            PortalTrip::Arrive { fuel, dum_dums, toll_paid, dest_map, dreaming } => TripView::Arrive {
                fuel,
                dum_dums,
                toll_paid,
                dest_map: dest_map@,
                dreaming,
            },
        }
    }
}

/// The trip through `p` with `fuel` in the tank, `dum_dums` in the pocket,
/// `paid` telling whether this destination's toll was already paid, while
/// the world is `dreaming` or not. Fuel is spent before the toll is looked
/// at; a toll is charged once per destination; entering the dream starts
/// dreaming, leaving it for the overworld ends it, and while dreaming the
/// overworld is the dream.
pub open spec fn trip_spec(p: Portal, fuel: u32, dum_dums: u32, paid: bool, dreaming: bool) -> TripView {
    if p.fuel_cost > 0 && fuel < p.fuel_cost {
        TripView::OutOfFuel { needed: p.fuel_cost, have: fuel }
    } else {
        let tank = (fuel - p.fuel_cost) as u32;
        let due = p.cost > 0 && !paid;
        if due && dum_dums < p.cost {
            TripView::TollShort { fuel: tank, cost: p.cost, short: (p.cost - dum_dums) as u32 }
        } else {
            let pocket = if due {
                (dum_dums - p.cost) as u32
            } else {
                dum_dums
            };
            let (dest, dream) = if p.to_map@ == "dream"@ {
                ("dream"@, true)
            } else if p.from_map@ == "dream"@ && p.to_map@ == "overworld"@ {
                (p.to_map@, false)
            } else if dreaming && p.to_map@ == "overworld"@ {
                ("dream"@, dreaming)
            } else {
                (p.to_map@, dreaming)
            };
            TripView::Arrive { fuel: tank, dum_dums: pocket, toll_paid: due, dest_map: dest, dreaming: dream }
        }
    }
}

/// Plan the trip through `portal`.
pub fn plan_portal_trip(portal: &Portal, fuel: u32, dum_dums: u32, paid: bool, dreaming: bool) -> (t: PortalTrip)
    ensures
        t@ == trip_spec(*portal, fuel, dum_dums, paid, dreaming),
{
    let fuel_cost = portal.fuel_cost;
    let cost = portal.cost;
    if fuel_cost > 0 && fuel < fuel_cost {
        return PortalTrip::OutOfFuel { needed: fuel_cost, have: fuel };
    }
    let tank = fuel - fuel_cost;
    let due = cost > 0 && !paid;
    if due && dum_dums < cost {
        return PortalTrip::TollShort { fuel: tank, cost, short: cost - dum_dums };
    }
    let pocket = if due {
        dum_dums - cost
    } else {
        dum_dums
    };
    let (dest, dream): (&'static str, bool) = if str_eq(portal.to_map, "dream") {
        ("dream", true)
    } else if str_eq(portal.from_map, "dream") && str_eq(portal.to_map, "overworld") {
        (portal.to_map, false)
    } else if dreaming && str_eq(portal.to_map, "overworld") {
        ("dream", dreaming)
    } else {
        (portal.to_map, dreaming)
    };
    PortalTrip::Arrive { fuel: tank, dum_dums: pocket, toll_paid: due, dest_map: dest, dreaming: dream }
}

/// What the buddy says when a trip is refused.
pub open spec fn refusal_text(t: TripView) -> Option<Seq<char>> {
    match t {
        TripView::OutOfFuel { needed, have } => Some(
            "Not enough fuel for that jump, boss! It needs "@ + decimal(needed as nat)
                + " and we've got "@ + decimal(have as nat)
                + ". Let's find Tank the fuel droid and do some math to top up!"@,
        ),
        TripView::TollShort { cost, short, .. } => Some(
            "Ooh, a dive spot! The first splash in costs "@ + decimal(cost as nat)
                + " Dum Dums. We need "@ + decimal(short as nat)
                + " more \u{2014} let's go find some, boss!"@,
        ),
        TripView::Arrive { .. } => None,
    }
}

/// The buddy's line for a refused trip; `None` when the trip goes ahead.
pub fn refusal_line(t: &PortalTrip) -> (s: Option<String>)
    ensures
        match s {
            Some(x) => refusal_text(t@) == Some(x@),
            None => refusal_text(t@) is None,
        },
{
    match *t {
        PortalTrip::OutOfFuel { needed, have } => {
            let mut s = String::new();
            push_str(&mut s, "Not enough fuel for that jump, boss! It needs ");
            push_decimal(&mut s, needed as u64);
            push_str(&mut s, " and we've got ");
            push_decimal(&mut s, have as u64);
            push_str(&mut s, ". Let's find Tank the fuel droid and do some math to top up!");
            Some(s)
        },
        PortalTrip::TollShort { cost, short, .. } => {
            let mut s = String::new();
            push_str(&mut s, "Ooh, a dive spot! The first splash in costs ");
            push_decimal(&mut s, cost as u64);
            push_str(&mut s, " Dum Dums. We need ");
            push_decimal(&mut s, short as u64);
            push_str(&mut s, " more \u{2014} let's go find some, boss!");
            Some(s)
        },
        PortalTrip::Arrive { .. } => None,
    }
}

/// A trip never overdraws: whatever is spent was there to spend, and a toll
/// once paid is never charged again.
pub proof fn lemma_trip_never_overdraws(p: Portal, fuel: u32, dum_dums: u32, paid: bool, dreaming: bool)
    ensures
        match trip_spec(p, fuel, dum_dums, paid, dreaming) {
            TripView::Arrive { fuel: f2, dum_dums: d2, toll_paid, .. } => {
                &&& f2 + p.fuel_cost == fuel
                &&& d2 + (if toll_paid { p.cost } else { 0 }) == dum_dums
                &&& paid ==> !toll_paid && d2 == dum_dums
            },
            TripView::TollShort { fuel: f2, .. } => f2 + p.fuel_cost == fuel && !paid,
            TripView::OutOfFuel { .. } => fuel < p.fuel_cost,
        },
{
}

/// The dream starts and ends only at its edges. A trip that arrives is
/// refused neither for fuel nor for a toll the pocket covers; once through,
/// entering the dream map starts dreaming, only a portal from the dream to
/// the overworld ends it, and a trip to any other map keeps the world as it
/// was and lands where the portal leads. While dreaming, a portal to the
/// overworld lands in the dream (unless it leaves the dream itself).
pub proof fn lemma_dreaming_changes_only_at_the_dream(p: Portal, fuel: u32, dum_dums: u32, paid: bool, dreaming: bool)
    ensures
        (p.fuel_cost == 0 || fuel >= p.fuel_cost) && (p.cost == 0 || paid || dum_dums >= p.cost)
            ==> trip_spec(p, fuel, dum_dums, paid, dreaming) is Arrive,
        trip_spec(p, fuel, dum_dums, paid, dreaming) matches TripView::Arrive { dest_map, dreaming: after, .. } ==> {
            &&& p.to_map@ == "dream"@ ==> after && dest_map == "dream"@
            &&& after != dreaming ==> p.to_map@ == "dream"@ || (p.from_map@ == "dream"@ && p.to_map@
                == "overworld"@)
            &&& p.to_map@ != "dream"@ && p.to_map@ != "overworld"@ ==> after == dreaming && dest_map
                == p.to_map@
            &&& p.from_map@ == "dream"@ && p.to_map@ == "overworld"@ ==> !after && dest_map
                == "overworld"@
            &&& dreaming && p.from_map@ != "dream"@ && p.to_map@ == "overworld"@ ==> after && dest_map
                == "dream"@
        },
{
    reveal_strlit("dream");
    reveal_strlit("overworld");
    assert("dream"@ != "overworld"@) by {
        assert("dream"@.len() != "overworld"@.len());
    }
}

} // verus!
