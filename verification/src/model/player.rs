use vstd::prelude::*;
use crate::model::bidder::RivalRecord;
use crate::model::property::{
    defect_likely, ActiveRenovation, CompletedUpgrade, MaintenanceIssue, Property,
    ResearchLevel, WalkawayStyle,
};

verus! {

/// Cash a new season starts with.
pub const STARTING_CASH: i64 = 220_000;

/// The investor's balance sheet and season history.
#[derive(Clone, Debug)]
pub struct Player {
    pub cash: i64,
    pub debt: i64,
    pub properties: Vec<OwnedProperty>,
    pub reputation: i32,
    pub career: CareerRecord,
    pub rival_notebook: Vec<RivalRecord>,
}

impl Player {
    /// A fresh investor: $220,000 cash, no debt, no homes, no reputation and an
    /// empty career and notebook.
    pub fn new() -> (player: Self)
        ensures
            player.cash == STARTING_CASH,
            player.debt == 0,
            player.properties@.len() == 0,
            player.reputation == 0,
            player.career.is_empty(),
            player.rival_notebook@.len() == 0,
    {
        Self {
            cash: STARTING_CASH,
            debt: 0,
            properties: Vec::new(),
            reputation: 0,
            career: CareerRecord::default(),
            rival_notebook: Vec::new(),
        }
    }
}

impl Default for Player {
    fn default() -> (player: Self)
        ensures
            player.cash == STARTING_CASH,
            player.debt == 0,
            player.properties@.len() == 0,
            player.reputation == 0,
            player.career.is_empty(),
            player.rival_notebook@.len() == 0,
    {
        Self::new()
    }
}

/// The season ledger of what the player did.
#[derive(Clone, Debug)]
pub struct CareerRecord {
    pub auctions_attended: u32,
    pub homes_bought: u32,
    pub disciplined_walkaways: u32,
    pub post_auction_buys: u32,
    pub homes_sold: u32,
    pub realized_profit: i64,
    pub unused_registrations: u32,
    pub rent_reviews_completed: u32,
    pub review_vacancies: u32,
}

impl CareerRecord {
    /// Whether every counter of the ledger is zero.
    pub open spec fn is_empty(&self) -> bool {
        &&& self.auctions_attended == 0
        &&& self.homes_bought == 0
        &&& self.disciplined_walkaways == 0
        &&& self.post_auction_buys == 0
        &&& self.homes_sold == 0
        &&& self.realized_profit == 0
        &&& self.unused_registrations == 0
        &&& self.rent_reviews_completed == 0
        &&& self.review_vacancies == 0
    }

    /// Records the registrations left unused at the end of a week; at most the
    /// two weekly registrations count.
    pub fn record_unused_registrations(&mut self, unused: u8)
        requires
            old(self).unused_registrations + (if unused < 2 { unused as int } else { 2 })
                <= u32::MAX,
        ensures
            final(self).unused_registrations == old(self).unused_registrations + (if unused
                < 2 {
                unused as int
            } else {
                2
            }),
            final(self).auctions_attended == old(self).auctions_attended,
            final(self).homes_bought == old(self).homes_bought,
            final(self).disciplined_walkaways == old(self).disciplined_walkaways,
            final(self).post_auction_buys == old(self).post_auction_buys,
            final(self).homes_sold == old(self).homes_sold,
            final(self).realized_profit == old(self).realized_profit,
            final(self).rent_reviews_completed == old(self).rent_reviews_completed,
            final(self).review_vacancies == old(self).review_vacancies,
    {
        let counted: u8 = if unused < 2 { unused } else { 2 };
        self.unused_registrations = self.unused_registrations + counted as u32;
    }
}

impl Default for CareerRecord {
    fn default() -> (record: Self)
        ensures
            record.is_empty(),
    {
        CareerRecord {
            auctions_attended: 0,
            homes_bought: 0,
            disciplined_walkaways: 0,
            post_auction_buys: 0,
            homes_sold: 0,
            realized_profit: 0,
            unused_registrations: 0,
            rent_reviews_completed: 0,
            review_vacancies: 0,
        }
    }
}

/// Total actual cost of a sequence of completed upgrades.
pub open spec fn upgrade_total(upgrades: Seq<CompletedUpgrade>) -> int
    decreases upgrades.len(),
{
    if upgrades.len() == 0 {
        0
    } else {
        upgrade_total(upgrades.drop_last()) + upgrades.last().actual_cost
    }
}

/// A home the player has settled, with its finance and operating history.
#[derive(Clone, Debug)]
pub struct OwnedProperty {
    pub property: Property,
    pub purchase_price: i64,
    pub purchase_fees: i64,
    pub deposit_paid: i64,
    pub debt: i64,
    pub walkaway_price: i64,
    pub research_level: ResearchLevel,
    pub walkaway_style: WalkawayStyle,
    pub weeks_held: u32,
    pub active_renovation: Option<ActiveRenovation>,
    pub upgrades: Vec<CompletedUpgrade>,
    pub hidden_defect_discovered: bool,
    pub is_leased: bool,
    pub weekly_rent: i64,
    pub leasing_weeks_remaining: u8,
    pub next_rent_review_week: u32,
    pub rent_received: i64,
    pub operating_spend: i64,
    pub maintenance_issue: Option<MaintenanceIssue>,
    pub maintenance_events_resolved: u8,
}

/// `owned` is a freshly settled home: the purchase terms as given, nothing
/// held, leased, upgraded or spent yet, and a hidden defect discovered exactly
/// when the defect evidence was material.
pub open spec fn freshly_owned(
    owned: OwnedProperty,
    property: Property,
    purchase_price: i64,
    purchase_fees: i64,
    deposit_paid: i64,
    debt: i64,
    walkaway_price: i64,
    research_level: ResearchLevel,
    walkaway_style: WalkawayStyle,
) -> bool {
    &&& owned.property == property
    &&& owned.purchase_price == purchase_price
    &&& owned.purchase_fees == purchase_fees
    &&& owned.deposit_paid == deposit_paid
    &&& owned.debt == debt
    &&& owned.walkaway_price == walkaway_price
    &&& owned.research_level == research_level
    &&& owned.walkaway_style == walkaway_style
    &&& owned.weeks_held == 0
    &&& owned.active_renovation.is_none()
    &&& owned.upgrades@.len() == 0
    &&& owned.hidden_defect_discovered == defect_likely(property)
    &&& !owned.is_leased
    &&& owned.weekly_rent == 0
    &&& owned.leasing_weeks_remaining == 0
    &&& owned.next_rent_review_week == 0
    &&& owned.rent_received == 0
    &&& owned.operating_spend == 0
    &&& owned.maintenance_issue.is_none()
    &&& owned.maintenance_events_resolved == 0
}

impl OwnedProperty {
    /// A freshly settled home: the purchase terms as given, nothing held,
    /// leased, upgraded or spent yet, and a hidden defect discovered exactly
    /// when the defect evidence was material.
    pub fn new(
        property: Property,
        purchase_price: i64,
        purchase_fees: i64,
        deposit_paid: i64,
        debt: i64,
        walkaway_price: i64,
        research_level: ResearchLevel,
        walkaway_style: WalkawayStyle,
    ) -> (owned: Self)
        ensures
            freshly_owned(
                owned,
                property,
                purchase_price,
                purchase_fees,
                deposit_paid,
                debt,
                walkaway_price,
                research_level,
                walkaway_style,
            ),
    {
        let hidden_defect_discovered = property.hidden_defect_risk >= 28 || (
        property.hidden_defect_risk >= 18 && property.id % 2 == 1);
        Self {
            property,
            purchase_price,
            purchase_fees,
            deposit_paid,
            debt,
            walkaway_price,
            research_level,
            walkaway_style,
            weeks_held: 0,
            active_renovation: None,
            upgrades: Vec::new(),
            hidden_defect_discovered,
            is_leased: false,
            weekly_rent: 0,
            leasing_weeks_remaining: 0,
            next_rent_review_week: 0,
            rent_received: 0,
            operating_spend: 0,
            maintenance_issue: None,
            maintenance_events_resolved: 0,
        }
    }

    /// Whether an upgrade with this id has been completed.
    pub fn has_upgrade(&self, upgrade_id: &str) -> (found: bool)
        ensures
            found == exists|i: int|
                0 <= i < self.upgrades@.len() && #[trigger] self.upgrades@[i].upgrade_id@
                    == upgrade_id@,
    {
        let mut i: usize = 0;
        while i < self.upgrades.len()
            invariant
                i <= self.upgrades@.len(),
                forall|k: int| 0 <= k < i ==> #[trigger] self.upgrades@[k].upgrade_id@ != upgrade_id@,
            decreases self.upgrades@.len() - i,
        {
            if str_equal(self.upgrades[i].upgrade_id.as_str(), upgrade_id) {
                return true;
            }
            i += 1;
        }
        false
    }

    /// Whether the renovation in progress is this upgrade.
    pub fn has_active_upgrade(&self, upgrade_id: &str) -> (found: bool)
        ensures
            found == (self.active_renovation matches Some(project) && project.upgrade_id@
                == upgrade_id@),
    {
        match &self.active_renovation {
            Some(project) => str_equal(project.upgrade_id.as_str(), upgrade_id),
            None => false,
        }
    }

    /// Whether some completed upgrade repaired the structural defect.
    pub fn has_defect_repair(&self) -> (repaired: bool)
        ensures
            repaired == exists|i: int|
                0 <= i < self.upgrades@.len() && #[trigger] self.upgrades@[i].removes_defect,
    {
        let mut i: usize = 0;
        while i < self.upgrades.len()
            invariant
                i <= self.upgrades@.len(),
                forall|k: int| 0 <= k < i ==> !#[trigger] self.upgrades@[k].removes_defect,
            decreases self.upgrades@.len() - i,
        {
            if self.upgrades[i].removes_defect {
                return true;
            }
            i += 1;
        }
        false
    }

    /// Total spent on completed upgrades.
    pub fn upgrade_spend(&self) -> (total: i64)
        requires
            forall|k: int|
                0 <= k <= self.upgrades@.len() ==> i64::MIN <= #[trigger] upgrade_total(
                    self.upgrades@.take(k),
                ) <= i64::MAX,
        ensures
            total == upgrade_total(self.upgrades@),
    {
        let mut total: i64 = 0;
        let mut i: usize = 0;
        assert(self.upgrades@.take(0) =~= Seq::<CompletedUpgrade>::empty());
        while i < self.upgrades.len()
            invariant
                i <= self.upgrades@.len(),
                total == upgrade_total(self.upgrades@.take(i as int)),
                forall|k: int|
                    0 <= k <= self.upgrades@.len() ==> i64::MIN <= #[trigger] upgrade_total(
                        self.upgrades@.take(k),
                    ) <= i64::MAX,
            decreases self.upgrades@.len() - i,
        {
            assert(self.upgrades@.take(i + 1).drop_last() =~= self.upgrades@.take(i as int));
            assert(upgrade_total(self.upgrades@.take(i + 1)) == total
                + self.upgrades@[i as int].actual_cost);
            total = total + self.upgrades[i].actual_cost;
            i += 1;
        }
        assert(self.upgrades@.take(i as int) =~= self.upgrades@);
        total
    }

    /// Holding costs paid over the weeks the home has been held.
    pub fn holding_spend(&self) -> (spend: i64)
        requires
            i64::MIN <= self.weeks_held * self.property.holding_cost_per_week <= i64::MAX,
        ensures
            spend == self.weeks_held * self.property.holding_cost_per_week,
    {
        self.weeks_held as i64 * self.property.holding_cost_per_week
    }

    /// Rent collected less operating spend.
    pub fn rental_profit(&self) -> (profit: i64)
        requires
            i64::MIN <= self.rent_received - self.operating_spend <= i64::MAX,
        ensures
            profit == self.rent_received - self.operating_spend,
    {
        self.rent_received - self.operating_spend
    }
}

/// Whether two strings hold the same characters.
pub(crate) fn str_equal(a: &str, b: &str) -> (same: bool)
    ensures
        same == (a@ == b@),
{
    let n = a.unicode_len();
    if n != b.unicode_len() {
        return false;
    }
    let mut i: usize = 0;
    while i < n
        invariant
            n == a@.len(),
            n == b@.len(),
            i <= n,
            forall|k: int| 0 <= k < i ==> a@[k] == b@[k],
        decreases n - i,
    {
        if a.get_char(i) != b.get_char(i) {
            return false;
        }
        i += 1;
    }
    assert(a@ =~= b@);
    true
}

} // verus!
