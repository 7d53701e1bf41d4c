use vstd::prelude::*;
use crate::model::auction::Auction;
use crate::model::property::{Condition, DealArchetype, Property};

verus! {

/// The settlement figures the finance desk quotes for a hammer price: the
/// estimated resale value, the purchase and resale fees, the cash needed to
/// settle, the contract deposit, and the appraised weekly rent with its net
/// weekly cashflow after loan interest and costs.
#[derive(Clone, Copy, Debug)]
pub struct SettlementTerms {
    pub estimated_resale: i64,
    pub purchase_fees: i64,
    pub sale_fees: i64,
    pub cash_to_settle: i64,
    pub contract_deposit: i64,
    pub weekly_rent: i64,
    pub weekly_rental_cashflow: i64,
}

/// What a hammer win means for the player, shown before settlement.
#[derive(Clone, Debug)]
pub struct PurchaseDebrief {
    pub address: String,
    pub purchase_price: i64,
    pub estimated_resale: i64,
    pub fees: i64,
    pub cash_to_settle: i64,
    pub cash_after_settle: i64,
    pub renovation_allowance: i64,
    pub walkaway_delta: i64,
    pub projected_profit: i64,
    pub contract_deposit: i64,
    pub loan_amount: i64,
    pub weekly_rent: i64,
    pub weekly_rental_cashflow: i64,
    pub lesson: String,
}

/// The renovation money a home of this condition and archetype should keep
/// in reserve: by condition, plus the archetype's adjustment, never negative.
pub open spec fn renovation_allowance(property: Property) -> int {
    let base: int = match property.condition {
        Condition::Rough => 42_000,
        Condition::Tired => 18_000,
        Condition::Solid => 9_000,
        Condition::Premium => 4_000,
    };
    let adjusted: int = match property.deal_archetype {
        DealArchetype::RiskyFixer => base + 18_000,
        DealArchetype::RenovatorBait => base + 12_000,
        DealArchetype::PrettyTrap => base + 8_000,
        DealArchetype::LandValuePlay => base - 6_000,
        _ => base,
    };
    if adjusted > 0 {
        adjusted
    } else {
        0
    }
}

/// The lesson of a win: above the walk-away, too little cash left, a loss
/// after costs, a real buffer, or a workable margin, checked in that order.
pub open spec fn debrief_lesson(walkaway_delta: int, cash_after_settle: int, projected_profit: int) -> Seq<
    char,
> {
    if walkaway_delta > 0 {
        "You won, but above your own walk-away line. That does not make the deal wrong, but it means the resale has less room to disappoint."@
    } else if cash_after_settle < 18_000 {
        "The price fits, but it leaves very little working cash. A cheap win can still become a cashflow squeeze."@
    } else if projected_profit < 0 {
        "The hammer price looks survivable until fees and repair allowance show up. Winning is not the same as buying well."@
    } else if projected_profit > 35_000 {
        "The bid leaves a real buffer after costs. This is the kind of margin that lets you choose renovations instead of needing them."@
    } else {
        "The bid leaves a workable margin before renovations. The next decision is whether upgrades improve that margin or eat it."@
    }
}

/// The projected profit of reselling: the resale value less the price, all
/// fees and the renovation allowance.
pub open spec fn projected_profit(auction: Auction, terms: SettlementTerms) -> int {
    terms.estimated_resale - auction.current_bid - (terms.purchase_fees + terms.sale_fees)
        - renovation_allowance(auction.property)
}

/// Every figure of the debrief fits in a 64-bit amount.
pub open spec fn debrief_fits(auction: Auction, player_cash: int, terms: SettlementTerms) -> bool {
    &&& i64::MIN <= terms.purchase_fees + terms.sale_fees <= i64::MAX
    &&& i64::MIN <= player_cash - terms.cash_to_settle <= i64::MAX
    &&& i64::MIN <= auction.current_bid - auction.player_walkaway_price <= i64::MAX
    &&& i64::MIN <= terms.estimated_resale - auction.current_bid <= i64::MAX
    &&& i64::MIN <= terms.estimated_resale - auction.current_bid - (terms.purchase_fees
        + terms.sale_fees) <= i64::MAX
    &&& i64::MIN <= projected_profit(auction, terms) <= i64::MAX
    &&& i64::MIN <= auction.current_bid - terms.contract_deposit <= i64::MAX
}

/// `debrief` is the debrief of a hammer win on `auction` for a player holding
/// `player_cash`, from the finance desk's settlement figures.
pub open spec fn debriefed(
    debrief: PurchaseDebrief,
    auction: Auction,
    player_cash: int,
    terms: SettlementTerms,
) -> bool {
    &&& debrief.address@ == auction.property.address@
    &&& debrief.purchase_price == auction.current_bid
    &&& debrief.estimated_resale == terms.estimated_resale
    &&& debrief.fees == terms.purchase_fees + terms.sale_fees
    &&& debrief.cash_to_settle == terms.cash_to_settle
    &&& debrief.cash_after_settle == player_cash - terms.cash_to_settle
    &&& debrief.renovation_allowance == renovation_allowance(auction.property)
    &&& debrief.walkaway_delta == auction.current_bid - auction.player_walkaway_price
    &&& debrief.projected_profit == projected_profit(auction, terms)
    &&& debrief.contract_deposit == terms.contract_deposit
    &&& debrief.loan_amount == auction.current_bid - terms.contract_deposit
    &&& debrief.weekly_rent == terms.weekly_rent
    &&& debrief.weekly_rental_cashflow == terms.weekly_rental_cashflow
    &&& debrief.lesson@ == debrief_lesson(
        auction.current_bid - auction.player_walkaway_price,
        player_cash - terms.cash_to_settle,
        projected_profit(auction, terms),
    )
}

/// The debrief of a hammer win at the auction's current bid, for a player
/// holding `player_cash`, from the finance desk's settlement figures.
pub fn purchase_debrief_for_auction(
    auction: &Auction,
    player_cash: i64,
    terms: &SettlementTerms,
) -> (debrief: PurchaseDebrief)
    requires
        debrief_fits(*auction, player_cash as int, *terms),
    ensures
        debriefed(debrief, *auction, player_cash as int, *terms),
{
    let fees = terms.purchase_fees + terms.sale_fees;
    let cash_after_settle = player_cash - terms.cash_to_settle;
    let walkaway_delta = auction.current_bid - auction.player_walkaway_price;
    let base: i64 = match auction.property.condition {
        Condition::Rough => 42_000,
        Condition::Tired => 18_000,
        Condition::Solid => 9_000,
        Condition::Premium => 4_000,
    };
    let adjusted: i64 = match auction.property.deal_archetype {
        DealArchetype::RiskyFixer => base + 18_000,
        DealArchetype::RenovatorBait => base + 12_000,
        DealArchetype::PrettyTrap => base + 8_000,
        DealArchetype::LandValuePlay => base - 6_000,
        _ => base,
    };
    let renovation_allowance: i64 = if adjusted > 0 {
        adjusted
    } else {
        0
    };
    let projected_profit = terms.estimated_resale - auction.current_bid - fees
        - renovation_allowance;
    let lesson = if walkaway_delta > 0 {
        String::from_str(
            "You won, but above your own walk-away line. That does not make the deal wrong, but it means the resale has less room to disappoint.",
        )
    } else if cash_after_settle < 18_000 {
        String::from_str(
            "The price fits, but it leaves very little working cash. A cheap win can still become a cashflow squeeze.",
        )
    } else if projected_profit < 0 {
        String::from_str(
            "The hammer price looks survivable until fees and repair allowance show up. Winning is not the same as buying well.",
        )
    } else if projected_profit > 35_000 {
        String::from_str(
            "The bid leaves a real buffer after costs. This is the kind of margin that lets you choose renovations instead of needing them.",
        )
    } else {
        String::from_str(
            "The bid leaves a workable margin before renovations. The next decision is whether upgrades improve that margin or eat it.",
        )
    };
    PurchaseDebrief {
        address: auction.property.address.clone(),
        purchase_price: auction.current_bid,
        estimated_resale: terms.estimated_resale,
        fees,
        cash_to_settle: terms.cash_to_settle,
        cash_after_settle,
        renovation_allowance,
        walkaway_delta,
        projected_profit,
        contract_deposit: terms.contract_deposit,
        loan_amount: auction.current_bid - terms.contract_deposit,
        weekly_rent: terms.weekly_rent,
        weekly_rental_cashflow: terms.weekly_rental_cashflow,
        lesson,
    }
}

/// The lesson of a debriefed win follows its own figures, in this order: a
/// win above the walk-away is told so; otherwise less than $18,000 of cash
/// left is a cashflow warning; otherwise a projected loss is told that winning
/// is not buying well; otherwise more than $35,000 of projected profit is a
/// real buffer, and anything from nothing to $35,000 a workable margin. The
/// projected profit is the resale less the price, every fee and the
/// renovation allowance; a lesson about a buffer or a margin is only given
/// to a win that projects no loss.
pub proof fn lemma_lesson_follows_the_figures(
    debrief: PurchaseDebrief,
    auction: Auction,
    player_cash: int,
    terms: SettlementTerms,
)
    requires
        debriefed(debrief, auction, player_cash, terms),
    ensures
        debrief.projected_profit == debrief.estimated_resale - debrief.purchase_price
            - debrief.fees - debrief.renovation_allowance,
        debrief.walkaway_delta > 0 ==> debrief.lesson@
            == "You won, but above your own walk-away line. That does not make the deal wrong, but it means the resale has less room to disappoint."@,
        debrief.walkaway_delta <= 0 && debrief.cash_after_settle < 18_000 ==> debrief.lesson@
            == "The price fits, but it leaves very little working cash. A cheap win can still become a cashflow squeeze."@,
        debrief.walkaway_delta <= 0 && debrief.cash_after_settle >= 18_000
            && debrief.projected_profit < 0 ==> debrief.lesson@
            == "The hammer price looks survivable until fees and repair allowance show up. Winning is not the same as buying well."@,
        debrief.walkaway_delta <= 0 && debrief.cash_after_settle >= 18_000
            && debrief.projected_profit > 35_000 ==> debrief.lesson@
            == "The bid leaves a real buffer after costs. This is the kind of margin that lets you choose renovations instead of needing them."@,
        debrief.walkaway_delta <= 0 && debrief.cash_after_settle >= 18_000 && 0
            <= debrief.projected_profit <= 35_000 ==> debrief.lesson@
            == "The bid leaves a workable margin before renovations. The next decision is whether upgrades improve that margin or eat it."@,
        debrief.lesson@
            == "The bid leaves a real buffer after costs. This is the kind of margin that lets you choose renovations instead of needing them."@
            || debrief.lesson@
            == "The bid leaves a workable margin before renovations. The next decision is whether upgrades improve that margin or eat it."@
            ==> debrief.projected_profit >= 0,
{
    reveal_strlit("You won, but above your own walk-away line. That does not make the deal wrong, but it means the resale has less room to disappoint.");
    reveal_strlit("The price fits, but it leaves very little working cash. A cheap win can still become a cashflow squeeze.");
    reveal_strlit("The hammer price looks survivable until fees and repair allowance show up. Winning is not the same as buying well.");
    reveal_strlit("The bid leaves a real buffer after costs. This is the kind of margin that lets you choose renovations instead of needing them.");
    reveal_strlit("The bid leaves a workable margin before renovations. The next decision is whether upgrades improve that margin or eat it.");
    assert("You won, but above your own walk-away line. That does not make the deal wrong, but it means the resale has less room to disappoint."@[0] == 'Y');
    assert("The price fits, but it leaves very little working cash. A cheap win can still become a cashflow squeeze."@[4] == 'p');
    assert("The hammer price looks survivable until fees and repair allowance show up. Winning is not the same as buying well."@[4] == 'h');
    assert("The bid leaves a real buffer after costs. This is the kind of margin that lets you choose renovations instead of needing them."@[0] == 'T');
    assert("The bid leaves a real buffer after costs. This is the kind of margin that lets you choose renovations instead of needing them."@[4] == 'b');
    assert("The bid leaves a workable margin before renovations. The next decision is whether upgrades improve that margin or eat it."@[0] == 'T');
    assert("The bid leaves a workable margin before renovations. The next decision is whether upgrades improve that margin or eat it."@[4] == 'b');
}

/// The same listing as a plain rental hold, whose renovation allowance is the
/// condition's own.
pub open spec fn plain_listing(property: Property) -> Property {
    Property { deal_archetype: DealArchetype::RentalHold, ..property }
}

/// The renovation allowance in figures: $42,000 for a rough home, $18,000 for
/// a tired one, $9,000 for a solid one and $4,000 for a premium one; a risky
/// fixer keeps $18,000 more, a renovator bait $12,000 more and a pretty trap
/// $8,000 more, while a land-value play keeps $6,000 less (nothing for a
/// premium home).
pub proof fn lemma_renovation_allowance_in_figures(property: Property)
    ensures
        ({
            let plain = renovation_allowance(plain_listing(property));
            let kind = property.deal_archetype;
            &&& property.condition == Condition::Rough ==> plain == 42_000
            &&& property.condition == Condition::Tired ==> plain == 18_000
            &&& property.condition == Condition::Solid ==> plain == 9_000
            &&& property.condition == Condition::Premium ==> plain == 4_000
            &&& kind == DealArchetype::RiskyFixer ==> renovation_allowance(property) == plain
                + 18_000
            &&& kind == DealArchetype::RenovatorBait ==> renovation_allowance(property) == plain
                + 12_000
            &&& kind == DealArchetype::PrettyTrap ==> renovation_allowance(property) == plain
                + 8_000
            &&& kind == DealArchetype::LandValuePlay ==> renovation_allowance(property) == (
            if property.condition == Condition::Premium {
                0
            } else {
                plain - 6_000
            })
            &&& kind != DealArchetype::RiskyFixer && kind != DealArchetype::RenovatorBait && kind
                != DealArchetype::PrettyTrap && kind != DealArchetype::LandValuePlay
                ==> renovation_allowance(property) == plain
        }),
{
}

} // verus!
