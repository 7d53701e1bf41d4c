use vstd::prelude::*;
use crate::model::player::{CareerRecord, OwnedProperty, Player};
use crate::ui::money::{decimal, format_count, money_text};
use crate::ui::{format_money, Palette};

verus! {

/// Homes shown per page: five when there are more than six (the pager takes
/// room), otherwise all six fit.
pub open spec fn page_size(count: int) -> int {
    if count > 6 {
        5
    } else {
        6
    }
}

/// The number of pages for `count` homes.
pub open spec fn page_count(count: int) -> int {
    (count + page_size(count) - 1) / page_size(count)
}

/// The page actually shown: the requested one, or the last page.
pub open spec fn shown_page(count: int, page: int) -> int {
    if page < page_count(count) - 1 {
        page
    } else {
        page_count(count) - 1
    }
}

/// The portfolio's selector row: which page is shown, the range of homes on
/// it (`start` inclusive, `end` exclusive) and the selected home.
pub struct PortfolioPage {
    pub page: usize,
    pub start: usize,
    pub end: usize,
    pub selected: usize,
}

/// Pages a portfolio of `count` homes: the page is clamped to the last page,
/// the selection is clamped to the last home and, when it falls outside the
/// page shown, moves to the page's first home.
pub fn portfolio_page(count: usize, page: usize, index: usize) -> (v: PortfolioPage)
    requires
        0 < count <= 1_000_000_000,
    ensures
        v.page == shown_page(count as int, page as int),
        v.start == v.page * page_size(count as int),
        v.end == if v.start + page_size(count as int) <= count {
            v.start + page_size(count as int)
        } else {
            count as int
        },
        v.selected == ({
            let clamped = if index < count {
                index as int
            } else {
                count - 1
            };
            if clamped < v.start || clamped >= v.end {
                v.start as int
            } else {
                clamped
            }
        }),
        v.start < v.end <= count,
        v.start <= v.selected < v.end,
{
    let clamped: usize = if index < count {
        index
    } else {
        count - 1
    };
    let size: usize = if count > 6 {
        5
    } else {
        6
    };
    let pages: usize = (count + size - 1) / size;
    let shown: usize = if page < pages - 1 {
        page
    } else {
        pages - 1
    };
    assert(pages >= 1 && (pages - 1) * size < count) by (nonlinear_arith)
        requires
            pages as int == (count + size - 1) as int / size as int,
            size == 5 || size == 6,
            count > 0,
    ;
    assert(shown * size < count) by (nonlinear_arith)
        requires
            shown <= pages - 1,
            (pages - 1) * size < count,
            size == 5 || size == 6,
    ;
    let start: usize = shown * size;
    let end: usize = if start + size <= count {
        start + size
    } else {
        count
    };
    let selected: usize = if clamped < start || clamped >= end {
        start
    } else {
        clamped
    };
    PortfolioPage { page: shown, start, end, selected }
}

/// The pager's caption: "6–10 / 12".
pub fn page_range_text(start: usize, end: usize, count: usize) -> (text: String)
    requires
        start < usize::MAX,
    ensures
        text@ == decimal((start + 1) as nat) + "–"@ + decimal(end as nat) + " / "@ + decimal(
            count as nat,
        ),
{
    let mut text = format_count((start + 1) as u64);
    text.append("–");
    let last = format_count(end as u64);
    text.append(last.as_str());
    text.append(" / ");
    let total = format_count(count as u64);
    text.append(total.as_str());
    text
}

/// The status line under a home in the selector row: on the rental market,
/// due a rent review, leased (with the open maintenance issue if there is
/// one, and the week's net cashflow), or vacant. `review_due` says whether
/// the home's rent review is due, `net_cashflow` is its net cashflow for the
/// week.
pub fn holding_label(owned: &OwnedProperty, review_due: bool, net_cashflow: i64) -> (text: String)
    ensures
        text@ == if owned.leasing_weeks_remaining > 0 {
            "On rental market | "@ + money_text(owned.weekly_rent as int) + " / wk"@
        } else if review_due {
            "Rent review due | "@ + money_text(owned.weekly_rent as int) + " / wk"@
        } else if owned.is_leased {
            match owned.maintenance_issue {
                Some(issue) => issue.kind@ + " | "@ + money_text(net_cashflow as int)
                    + " net / wk"@,
                None => "Leased "@ + money_text(owned.weekly_rent as int) + " / wk | "@
                    + money_text(net_cashflow as int) + " net"@,
            }
        } else {
            "Vacant"@
        },
{
    if owned.leasing_weeks_remaining > 0 {
        let mut text = String::from_str("On rental market | ");
        let rent = format_money(owned.weekly_rent);
        text.append(rent.as_str());
        text.append(" / wk");
        text
    } else if review_due {
        let mut text = String::from_str("Rent review due | ");
        let rent = format_money(owned.weekly_rent);
        text.append(rent.as_str());
        text.append(" / wk");
        text
    } else if owned.is_leased {
        let net = format_money(net_cashflow);
        match &owned.maintenance_issue {
            Some(issue) => {
                let mut text = String::from_str(issue.kind.as_str());
                text.append(" | ");
                text.append(net.as_str());
                text.append(" net / wk");
                text
            },
            None => {
                let mut text = String::from_str("Leased ");
                let rent = format_money(owned.weekly_rent);
                text.append(rent.as_str());
                text.append(" / wk | ");
                text.append(net.as_str());
                text.append(" net");
                text
            },
        }
    } else {
        String::from_str("Vacant")
    }
}

/// The colour of that status line: an open maintenance issue first, then a
/// due review, then a leased home by the sign of its cashflow, a home on the
/// rental market, and a vacant one.
pub fn holding_tone(owned: &OwnedProperty, review_due: bool, net_cashflow: i64) -> (color: Palette)
    ensures
        color == if owned.maintenance_issue.is_some() {
            Palette::Negative
        } else if review_due {
            Palette::Warning
        } else if owned.is_leased && net_cashflow >= 0 {
            Palette::Positive
        } else if owned.is_leased {
            Palette::Warning
        } else if owned.leasing_weeks_remaining > 0 {
            Palette::Blue
        } else {
            Palette::Warning
        },
{
    if owned.maintenance_issue.is_some() {
        Palette::Negative
    } else if review_due {
        Palette::Warning
    } else if owned.is_leased && net_cashflow >= 0 {
        Palette::Positive
    } else if owned.is_leased {
        Palette::Warning
    } else if owned.leasing_weeks_remaining > 0 {
        Palette::Blue
    } else {
        Palette::Warning
    }
}

/// Whether some completed upgrade of `owned` repaired the structural defect.
pub open spec fn defect_repaired(owned: OwnedProperty) -> bool {
    exists|i: int| 0 <= i < owned.upgrades@.len() && #[trigger] owned.upgrades@[i].removes_defect
}

/// What a portfolio action comes to: nothing to do, a refusal with the status
/// line that explains it, or going ahead at a cost with the status line that
/// reports it.
#[derive(Clone, Debug, PartialEq, Eq)]
pub enum PortfolioStep {
    Ignore,
    Refuse(String),
    Proceed { cost: i64, status: String },
}

/// Whether a home can go on the rental market at `rent` a week for the
/// leasing fee `fee`: a home already leased or on the market is left alone; a
/// renovation in progress, or a known structural defect not yet repaired,
/// blocks it; the player must afford the fee.
pub fn lease_decision(owned: &OwnedProperty, cash: i64, rent: i64, fee: i64) -> (step:
    PortfolioStep)
    ensures
        owned.is_leased || owned.leasing_weeks_remaining > 0 ==> step is Ignore,
        !(owned.is_leased || owned.leasing_weeks_remaining > 0) ==> if owned.active_renovation.is_some() {
            step matches PortfolioStep::Refuse(text) && text@
                == "Finish the renovation before placing a tenant."@
        } else if owned.hidden_defect_discovered && !defect_repaired(*owned) {
            step matches PortfolioStep::Refuse(text) && text@
                == "Repair the known structural risk before placing a tenant."@
        } else if cash < fee {
            step matches PortfolioStep::Refuse(text) && text@ == "Need "@ + money_text(fee as int)
                + " for advertising and leasing."@
        } else {
            step matches PortfolioStep::Proceed { cost, status } && cost == fee && status@
                == "Listed for "@ + money_text(rent as int) + " per week. Leasing cost "@
                + money_text(fee as int)
                + " paid; tap HOLD to advance one week and place the tenant."@
        },
{
    if owned.is_leased || owned.leasing_weeks_remaining > 0 {
        return PortfolioStep::Ignore;
    }
    if owned.active_renovation.is_some() {
        return PortfolioStep::Refuse(
            String::from_str("Finish the renovation before placing a tenant."),
        );
    }
    if owned.hidden_defect_discovered && !owned.has_defect_repair() {
        return PortfolioStep::Refuse(
            String::from_str("Repair the known structural risk before placing a tenant."),
        );
    }
    if cash < fee {
        let mut text = String::from_str("Need ");
        let money = format_money(fee);
        text.append(money.as_str());
        text.append(" for advertising and leasing.");
        return PortfolioStep::Refuse(text);
    }
    let mut status = String::from_str("Listed for ");
    let rent_money = format_money(rent);
    status.append(rent_money.as_str());
    status.append(" per week. Leasing cost ");
    let fee_money = format_money(fee);
    status.append(fee_money.as_str());
    status.append(" paid; tap HOLD to advance one week and place the tenant.");
    PortfolioStep::Proceed { cost: fee, status }
}

/// The status after paying `paid` off a loan whose weekly interest went from
/// `interest_before` to `interest_after`: nothing paid means the player lacked
/// the $10,000 kept for a principal payment; otherwise the saving is named
/// when there is one.
pub fn paydown_status(paid: i64, interest_before: i64, interest_after: i64) -> (text: String)
    requires
        i64::MIN <= interest_before - interest_after <= i64::MAX,
    ensures
        text@ == if paid == 0 {
            "Keep at least $10,000 cash available for a principal payment."@
        } else if interest_before - interest_after > 0 {
            "Paid "@ + money_text(paid as int) + " off the selected loan. Weekly interest fell "@
                + money_text(interest_before - interest_after) + " to "@ + money_text(
                interest_after as int,
            ) + " per week; bank debt fell too."@
        } else {
            "Paid "@ + money_text(paid as int)
                + " off the selected loan. Bank debt fell; weekly interest remains "@
                + money_text(interest_after as int) + " per week at dollar precision."@
        },
{
    if paid == 0 {
        return String::from_str("Keep at least $10,000 cash available for a principal payment.");
    }
    let saving = interest_before - interest_after;
    let mut text = String::from_str("Paid ");
    let paid_money = format_money(paid);
    text.append(paid_money.as_str());
    let after_money = format_money(interest_after);
    if saving > 0 {
        text.append(" off the selected loan. Weekly interest fell ");
        let saving_money = format_money(saving);
        text.append(saving_money.as_str());
        text.append(" to ");
        text.append(after_money.as_str());
        text.append(" per week; bank debt fell too.");
    } else {
        text.append(" off the selected loan. Bank debt fell; weekly interest remains ");
        text.append(after_money.as_str());
        text.append(" per week at dollar precision.");
    }
    text
}

/// What a refinance released.
#[derive(Clone, Copy, Debug)]
pub struct RefinanceResult {
    pub cash_released: i64,
    pub debt_added: i64,
    pub fee: i64,
}

/// The status after a refinance attempt: the bank's conditions when it was
/// refused; otherwise the cash released, the debt added and the fee, and the
/// rise in weekly interest when there is one.
pub fn refinance_status(
    result: Option<RefinanceResult>,
    interest_before: i64,
    interest_after: i64,
) -> (text: String)
    requires
        i64::MIN <= interest_after - interest_before <= i64::MAX,
    ensures
        text@ == match result {
            None => "Refinance needs four leased weeks, clean maintenance, equity below 80% LVR, and bank room."@,
            Some(r) => "Released "@ + money_text(r.cash_released as int) + " cash from "@
                + money_text(r.debt_added as int) + " new debt after the "@ + money_text(
                r.fee as int,
            ) + if interest_after - interest_before > 0 {
                " fee. Weekly interest rose "@ + money_text(interest_after - interest_before)
                    + " to "@ + money_text(interest_after as int) + " per week."@
            } else {
                " fee. Weekly interest remains "@ + money_text(interest_after as int)
                    + " per week at dollar precision."@
            },
        },
{
    let r = match result {
        None => {
            return String::from_str(
                "Refinance needs four leased weeks, clean maintenance, equity below 80% LVR, and bank room.",
            );
        },
        Some(r) => r,
    };
    let increase = interest_after - interest_before;
    let mut text = String::from_str("Released ");
    let released = format_money(r.cash_released);
    text.append(released.as_str());
    text.append(" cash from ");
    let added = format_money(r.debt_added);
    text.append(added.as_str());
    text.append(" new debt after the ");
    let fee = format_money(r.fee);
    text.append(fee.as_str());
    let after_money = format_money(interest_after);
    if increase > 0 {
        text.append(" fee. Weekly interest rose ");
        let rise = format_money(increase);
        text.append(rise.as_str());
        text.append(" to ");
        text.append(after_money.as_str());
        text.append(" per week.");
    } else {
        text.append(" fee. Weekly interest remains ");
        text.append(after_money.as_str());
        text.append(" per week at dollar precision.");
    }
    text
}

/// How a rent review ended: renewed at the same rent, raised, or the tenant
/// left rather than pay the ask.
#[derive(Clone, Copy, Debug, PartialEq, Eq)]
pub enum RentReviewOutcome {
    Renewed(i64),
    Raised(i64),
    Vacated(i64),
}

/// The status after a rent review of the home at `address`.
pub fn rent_review_status(outcome: &RentReviewOutcome, address: &str) -> (text: String)
    ensures
        text@ == match *outcome {
            RentReviewOutcome::Renewed(rent) => address@ + " renewed at "@ + money_text(rent as int)
                + " per week for another eight weeks."@,
            RentReviewOutcome::Raised(rent) => "The tenant accepted "@ + money_text(rent as int)
                + " per week at "@ + address@ + ". The higher rent is now contracted."@,
            RentReviewOutcome::Vacated(ask) => "The tenant rejected "@ + money_text(ask as int)
                + " per week at "@ + address@ + " and left. Advertise again to restore rent."@,
        },
{
    match outcome {
        RentReviewOutcome::Renewed(rent) => {
            let mut text = String::from_str(address);
            text.append(" renewed at ");
            let money = format_money(*rent);
            text.append(money.as_str());
            text.append(" per week for another eight weeks.");
            text
        },
        RentReviewOutcome::Raised(rent) => {
            let mut text = String::from_str("The tenant accepted ");
            let money = format_money(*rent);
            text.append(money.as_str());
            text.append(" per week at ");
            text.append(address);
            text.append(". The higher rent is now contracted.");
            text
        },
        RentReviewOutcome::Vacated(ask) => {
            let mut text = String::from_str("The tenant rejected ");
            let money = format_money(*ask);
            text.append(money.as_str());
            text.append(" per week at ");
            text.append(address);
            text.append(" and left. Advertise again to restore rent.");
            text
        },
    }
}

/// What a sale campaign came to, as the sale model decides it: the price if
/// the home sold, the selling fees, the profit on the whole deal, and the
/// reputation it earned with the reason.
#[derive(Clone, Debug)]
pub struct SaleOutcome {
    pub sale_price: Option<i64>,
    pub selling_fees: i64,
    pub profit: i64,
    pub reputation_delta: i32,
    pub reputation_reason: String,
}

/// Whether a home can go to a sale campaign.
#[derive(Clone, Debug, PartialEq, Eq)]
pub enum SaleGate {
    /// The player owns no home with that id.
    NotOwned,
    /// The sale cannot start; the status line says why.
    Refused(String),
    /// The home at this index of the portfolio can go to sale.
    Ready(usize),
}

/// Whether the home at `index` is the first in the portfolio with the id `id`.
pub open spec fn first_home_with_id(homes: Seq<OwnedProperty>, id: usize, index: int) -> bool {
    &&& 0 <= index < homes.len()
    &&& homes[index].property.id == id
    &&& forall|k: int| 0 <= k < index ==> #[trigger] homes[k].property.id != id
}

/// Checks a sale of the home `property_id` with a marketing campaign
/// (`plan_label`, costing `marketing_cost`): the home must be owned, free of
/// renovation work, and the player must afford the campaign.
pub fn sale_gate(player: &Player, property_id: usize, plan_label: &str, marketing_cost: i64) -> (gate:
    SaleGate)
    ensures
        match gate {
            SaleGate::NotOwned => forall|k: int|
                0 <= k < player.properties@.len() ==> #[trigger] player.properties@[k].property.id
                    != property_id,
            SaleGate::Refused(text) => exists|index: int|
                first_home_with_id(player.properties@, property_id, index) && if (
                #[trigger] player.properties@[index]).active_renovation.is_some() {
                    text@ == "Finish the active renovation before selling."@
                } else {
                    &&& player.cash < marketing_cost
                    &&& text@ == "Need "@ + money_text(marketing_cost as int) + " for the "@
                        + plan_label@ + " campaign."@
                },
            SaleGate::Ready(index) => {
                &&& first_home_with_id(player.properties@, property_id, index as int)
                &&& player.properties@[index as int].active_renovation.is_none()
                &&& player.cash >= marketing_cost
            },
        },
{
    let mut i: usize = 0;
    while i < player.properties.len()
        invariant
            i <= player.properties@.len(),
            forall|k: int| 0 <= k < i ==> #[trigger] player.properties@[k].property.id
                != property_id,
        decreases player.properties@.len() - i,
    {
        if player.properties[i].property.id == property_id {
            assert(first_home_with_id(player.properties@, property_id, i as int));
            if player.properties[i].active_renovation.is_some() {
                return SaleGate::Refused(
                    String::from_str("Finish the active renovation before selling."),
                );
            }
            if player.cash < marketing_cost {
                let mut text = String::from_str("Need ");
                let money = format_money(marketing_cost);
                text.append(money.as_str());
                text.append(" for the ");
                text.append(plan_label);
                text.append(" campaign.");
                return SaleGate::Refused(text);
            }
            return SaleGate::Ready(i);
        }
        i += 1;
    }
    SaleGate::NotOwned
}

/// The status line of a completed sale: the reserve choice, the profit or
/// loss, and the reputation reason.
pub open spec fn sale_line(choice_label: Seq<char>, profit: int, reason: Seq<char>) -> Seq<char> {
    choice_label + " sale complete with "@ + (if profit >= 0 {
        "profit "@ + money_text(profit)
    } else {
        "loss "@ + money_text(-profit)
    }) + ". "@ + reason
}

/// Settles the sale campaign of the home in place `index` of the portfolio,
/// once `sale_gate` has let it through. The campaign is paid; when the home sold, the sale clears its loan, the rest of
/// the proceeds (after selling fees) is cash, the reputation moves, the home
/// leaves the portfolio (the selection stays within it), and the sale and its
/// profit are recorded; when it passed in, one more week of holding costs is
/// paid and held. The status line reports either.
pub fn settle_sale(
    player: &mut Player,
    portfolio_index: &mut usize,
    status: &mut String,
    index: usize,
    choice_label: &str,
    marketing_cost: i64,
    outcome: &SaleOutcome,
)
    requires
        index < old(player).properties@.len(),
        0 <= marketing_cost <= old(player).cash,
        outcome.profit > i64::MIN,
        ({
            let home = old(player).properties@[index as int];
            let cash = old(player).cash - marketing_cost;
            match outcome.sale_price {
                Some(price) => {
                    &&& i64::MIN <= cash + price - outcome.selling_fees - home.debt <= i64::MAX
                    &&& i64::MIN <= price - outcome.selling_fees <= i64::MAX
                    &&& i64::MIN <= price - outcome.selling_fees - home.debt <= i64::MAX
                    &&& i64::MIN <= old(player).debt - home.debt <= i64::MAX
                    &&& i32::MIN <= old(player).reputation + outcome.reputation_delta <= i32::MAX
                    &&& old(player).career.homes_sold < u32::MAX
                    &&& i64::MIN <= old(player).career.realized_profit + outcome.profit
                        <= i64::MAX
                },
                None => {
                    &&& i64::MIN <= cash - home.property.holding_cost_per_week <= i64::MAX
                    &&& home.weeks_held < u32::MAX
                },
            }
        }),
    ensures
        ({
            let home = old(player).properties@[index as int];
            let cash = old(player).cash - marketing_cost;
            match outcome.sale_price {
                Some(price) => {
                    let homes = old(player).properties@.remove(index as int);
                    &&& *final(player) == (Player {
                        cash: (cash + price - outcome.selling_fees - home.debt) as i64,
                        debt: (old(player).debt - home.debt) as i64,
                        reputation: (old(player).reputation + outcome.reputation_delta) as i32,
                        properties: final(player).properties,
                        career: CareerRecord {
                            homes_sold: (old(player).career.homes_sold + 1) as u32,
                            realized_profit: (old(player).career.realized_profit
                                + outcome.profit) as i64,
                            ..old(player).career
                        },
                        ..*old(player)
                    })
                    &&& final(player).properties@ == homes
                    &&& *final(portfolio_index) == if homes.len() == 0 {
                        0
                    } else if *old(portfolio_index) < homes.len() - 1 {
                        *old(portfolio_index) as int
                    } else {
                        homes.len() - 1
                    }
                    &&& final(status)@ == sale_line(
                        choice_label@,
                        outcome.profit as int,
                        outcome.reputation_reason@,
                    )
                },
                None => {
                    &&& *final(player) == (Player {
                        cash: (cash - home.property.holding_cost_per_week) as i64,
                        properties: final(player).properties,
                        ..*old(player)
                    })
                    &&& final(player).properties@ == old(player).properties@.update(
                        index as int,
                        OwnedProperty { weeks_held: (home.weeks_held + 1) as u32, ..home },
                    )
                    &&& *final(portfolio_index) == *old(portfolio_index)
                    &&& final(status)@
                        == "Auction passed in. One more week of holding costs was paid."@
                },
            }
        }),
{
    player.cash = player.cash - marketing_cost;
    match outcome.sale_price {
        Some(price) => {
            let home = player.properties.remove(index);
            player.cash = player.cash + (price - outcome.selling_fees - home.debt);
            player.debt = player.debt - home.debt;
            player.reputation = player.reputation + outcome.reputation_delta;
            player.career.homes_sold = player.career.homes_sold + 1;
            player.career.realized_profit = player.career.realized_profit + outcome.profit;
            let count = player.properties.len();
            let last: usize = if count == 0 {
                0
            } else {
                count - 1
            };
            if *portfolio_index > last {
                *portfolio_index = last;
            }
            let mut text = String::from_str(choice_label);
            text.append(" sale complete with ");
            if outcome.profit >= 0 {
                text.append("profit ");
                let money = format_money(outcome.profit);
                text.append(money.as_str());
            } else {
                text.append("loss ");
                let money = format_money(-outcome.profit);
                text.append(money.as_str());
            }
            text.append(". ");
            text.append(outcome.reputation_reason.as_str());
            *status = text;
        },
        None => {
            let holding = player.properties[index].property.holding_cost_per_week;
            player.cash = player.cash - holding;
            player.properties[index].weeks_held = player.properties[index].weeks_held + 1;
            *status = String::from_str(
                "Auction passed in. One more week of holding costs was paid.",
            );
        },
    }
}

/// Whether a renovation can start on a home: an upgrade already done or under
/// way is left alone; another renovation in progress, a tenant in the home, or
/// a leasing campaign blocks it; the player must afford the quote
/// (`total_cost`). Going ahead names the upgrade, the job's length in weeks
/// and what was paid.
pub fn upgrade_decision(
    owned: &OwnedProperty,
    upgrade_id: &str,
    upgrade_name: &str,
    weeks_total: u32,
    cash: i64,
    total_cost: i64,
) -> (step: PortfolioStep)
    ensures
        ({
            let done = exists|i: int|
                0 <= i < owned.upgrades@.len() && #[trigger] owned.upgrades@[i].upgrade_id@
                    == upgrade_id@;
            let under_way = owned.active_renovation matches Some(project) && project.upgrade_id@
                == upgrade_id@;
            if done || under_way {
                step is Ignore
            } else if owned.active_renovation.is_some() {
                step matches PortfolioStep::Refuse(text) && text@
                    == "Finish the current renovation before starting another."@
            } else if owned.is_leased {
                step matches PortfolioStep::Refuse(text) && text@
                    == "A tenanted home cannot begin renovation work."@
            } else if owned.leasing_weeks_remaining > 0 {
                step matches PortfolioStep::Refuse(text) && text@
                    == "The home is advertised for rent. Finish the leasing week before renovating."@
            } else if cash < total_cost {
                step matches PortfolioStep::Refuse(text) && text@
                    == "Not enough cash to start that renovation."@
            } else {
                step matches PortfolioStep::Proceed { cost, status } && cost == total_cost
                    && status@ == upgrade_name@ + " started: "@ + decimal(weeks_total as nat)
                    + " week job, "@ + money_text(total_cost as int)
                    + " paid. Advance weeks to finish."@
            }
        }),
{
    if owned.has_upgrade(upgrade_id) || owned.has_active_upgrade(upgrade_id) {
        return PortfolioStep::Ignore;
    }
    if owned.active_renovation.is_some() {
        return PortfolioStep::Refuse(
            String::from_str("Finish the current renovation before starting another."),
        );
    }
    if owned.is_leased {
        return PortfolioStep::Refuse(
            String::from_str("A tenanted home cannot begin renovation work."),
        );
    }
    if owned.leasing_weeks_remaining > 0 {
        return PortfolioStep::Refuse(
            String::from_str(
                "The home is advertised for rent. Finish the leasing week before renovating.",
            ),
        );
    }
    if cash < total_cost {
        return PortfolioStep::Refuse(String::from_str("Not enough cash to start that renovation."));
    }
    let mut status = String::from_str(upgrade_name);
    status.append(" started: ");
    let weeks = format_count(weeks_total as u64);
    status.append(weeks.as_str());
    status.append(" week job, ");
    let money = format_money(total_cost);
    status.append(money.as_str());
    status.append(" paid. Advance weeks to finish.");
    PortfolioStep::Proceed { cost: total_cost, status }
}

} // verus!
