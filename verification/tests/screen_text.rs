use auction_game::model::{
    Auction, AuctionTemperature, BidLog, Bidder, BidderActor, BidderMood, BidderType, Condition,
    DealArchetype, Property, ResearchLevel, WalkawayStyle,
};
use auction_game::save::load_failure_status;
use auction_game::sim::debrief::{purchase_debrief_for_auction, SettlementTerms};
use auction_game::screens::auction_room_panel::current_bid_caption;
use auction_game::screens::dashboard::{plural_homes, signed_money};
use auction_game::screens::esc_menu::status_is_critical;
use auction_game::screens::property_detail::{
    compact_research_fit, compact_research_question, compact_risk_summary, condition_color,
    risk_badge, risk_color, walkaway_verdict,
};
use auction_game::screens::property_list::upside_badge;
use auction_game::screens::sale_result::{autopsy_color, result_color, result_verdict};
use auction_game::ui::text::starts_with;
use auction_game::ui::Palette;

fn listing(id: usize, hidden_defect_risk: u32, condition: Condition) -> Property {
    Property {
        id,
        address: "9 Gallery Road".to_string(),
        suburb: "Testville".to_string(),
        bedrooms: 3,
        bathrooms: 2,
        condition,
        land_size: 500,
        market_value: 640_000,
        guide_price: 580_000,
        reserve_price: 610_000,
        appeal: 70,
        renovation_potential: 30,
        hidden_defect_risk,
        holding_cost_per_week: 180,
        buyer_demand: 74,
        deal_archetype: DealArchetype::PrettyTrap,
        thesis: String::new(),
        main_risk: String::new(),
        best_strategy: String::new(),
        bad_strategy: String::new(),
        notes: String::new(),
    }
}

fn rival(name: &str) -> Bidder {
    Bidder {
        name: name.to_string(),
        bidder_type: BidderType::Developer,
        max_price: 700_000,
        aggression: 400,
        patience: 600,
        pressure_tolerance: 500,
        overbid_tendency: 50,
        reaction_timer_ms: 2_000,
        preparing_bid: false,
        bid_flash_ms: 0,
        bid_count: 0,
        heat: 35,
        mood: BidderMood::Watching,
        tell: String::new(),
        preference: String::new(),
        weakness: String::new(),
        danger: String::new(),
        rhythm: String::new(),
        active: true,
        has_logged_exit: false,
        stretch_bid_used: false,
    }
}

fn room(id: usize) -> Auction {
    Auction {
        property: listing(id, 10, Condition::Solid),
        current_bid: 560_000,
        reserve_price: 610_000,
        bid_increment: 10_000,
        remaining_ms: 56_000,
        call_timer_ms: 1_000,
        since_bid_ms: 0,
        bidders: vec![rival("Sol"), rival("Ada")],
        last_bidder: None,
        is_player_active: true,
        player_exit_bid: None,
        overtime_count: 0,
        status: None,
        log: vec![BidLog {
            text: "Registration confirmed.".to_string(),
            remaining_ms: 56_000,
        }],
        player_walkaway_price: 620_000,
        player_research_level: ResearchLevel::FullDiligence,
        walkaway_style: WalkawayStyle::Aggressive,
        temperature: AuctionTemperature::SteadyInterest,
        market_heat: 60,
        jump_bid_available: true,
        player_bid_count: 0,
        on_market_announced: false,
        vendor_bid_used: false,
        last_room_read: None,
        sold_post_auction: false,
        post_auction_tested: false,
        has_started: true,
        rng_state: 11,
    }
}

#[test]
fn the_bid_caption_names_who_leads() {
    let mut auction = room(4);
    assert_eq!(current_bid_caption(&auction), "Opening Call · no leading bidder");
    auction.last_bidder = Some(BidderActor::Player);
    assert_eq!(current_bid_caption(&auction), "Current Bid · Paddle 248 leads");
    auction.last_bidder = Some(BidderActor::Npc(1));
    assert_eq!(current_bid_caption(&auction), "Current Bid · Ada leads");
    auction.last_bidder = Some(BidderActor::Npc(9));
    assert_eq!(current_bid_caption(&auction), "Current Bid · another bidder leads");
    auction.last_bidder = Some(BidderActor::Vendor);
    assert_eq!(
        current_bid_caption(&auction),
        "Declared Vendor Bid · not yet selling"
    );
}

#[test]
fn dashboard_counts_and_changes_read_naturally() {
    assert_eq!(plural_homes(1), "1 home");
    assert_eq!(plural_homes(0), "0 homes");
    assert_eq!(plural_homes(12), "12 homes");
    assert_eq!(signed_money(1_200), "+$1,200");
    assert_eq!(signed_money(0), "+$0");
    assert_eq!(signed_money(-800), "-$800");
}

#[test]
fn critical_statuses_stay_on_screen() {
    assert!(status_is_critical(&load_failure_status("No save found for slot: quicksave")));
    assert!(status_is_critical("Need $1,500 for Agent Pack."));
    assert!(status_is_critical("This week's registrations are used."));
    assert!(!status_is_critical("Game saved."));
    assert!(!status_is_critical("Needless to say"));
    assert!(starts_with("Needless", "Need"));
    assert!(!starts_with("Ne", "Need"));
}

#[test]
fn property_badges_follow_the_researched_risk() {
    let risky = listing(1, 30, Condition::Rough);
    assert_eq!(risk_badge(&risky, ResearchLevel::StreetScan), "RISK UNVERIFIED");
    assert_eq!(risk_color(&risky, ResearchLevel::StreetScan), Palette::Blue);
    assert_eq!(risk_badge(&risky, ResearchLevel::AgentPack), "ELEVATED RISK");
    assert_eq!(risk_color(&risky, ResearchLevel::AgentPack), Palette::Negative);
    assert_eq!(
        compact_risk_summary(&risky, ResearchLevel::FullDiligence),
        "Risk elevated: protect the downside."
    );
    let clean = listing(2, 16, Condition::Premium);
    assert_eq!(risk_badge(&clean, ResearchLevel::AgentPack), "MODERATE RISK");
    assert_eq!(risk_badge(&clean, ResearchLevel::BuildingInspection), "LOW RISK KNOWN");
    assert_eq!(condition_color(&clean), Palette::Blue);
    assert_eq!(condition_color(&risky), Palette::Negative);
}

#[test]
fn compact_research_copy_matches_each_level() {
    assert_eq!(
        compact_research_question(ResearchLevel::AgentPack),
        "Hidden risks + value?"
    );
    assert_eq!(
        compact_research_fit(ResearchLevel::BuildingInspection),
        "Fit: inspect defects before bidding."
    );
    assert_eq!(walkaway_verdict(45_000), "Safe bid plan");
    assert_eq!(walkaway_verdict(0), "Thin margin");
    assert_eq!(walkaway_verdict(-1), "Bad deal line");
    assert_eq!(upside_badge(95_000), "HIGH UPSIDE");
    assert_eq!(upside_badge(55_000), "GOOD UPSIDE");
    assert_eq!(upside_badge(54_999), "TIGHT DEAL");
}

#[test]
fn sale_results_are_judged_by_profit_and_autopsy_wording() {
    assert_eq!(result_verdict(45_000), "Strong Exit");
    assert_eq!(result_verdict(0), "Clean Exit");
    assert_eq!(result_verdict(-39_999), "Thin Loss");
    assert_eq!(result_verdict(-40_000), "Bad Deal");
    assert_eq!(result_color(-40_000), Palette::Negative);
    assert_eq!(result_color(-1), Palette::Warning);
    assert_eq!(autopsy_color("Stretched past the walk-away."), Palette::Negative);
    assert_eq!(autopsy_color("-$4,000 on fees."), Palette::Negative);
    assert_eq!(autopsy_color("No reputation change."), Palette::Warning);
    assert_eq!(autopsy_color("Disciplined exit."), Palette::Positive);
}

fn terms() -> SettlementTerms {
    SettlementTerms {
        estimated_resale: 700_000,
        purchase_fees: 24_000,
        sale_fees: 14_000,
        cash_to_settle: 85_000,
        contract_deposit: 61_000,
        weekly_rent: 620,
        weekly_rental_cashflow: -45,
    }
}

#[test]
fn a_hammer_win_is_debriefed_before_settlement() {
    let mut auction = room(4);
    auction.current_bid = 610_000;
    let debrief = purchase_debrief_for_auction(&auction, 220_000, &terms());
    assert_eq!(debrief.address, "9 Gallery Road");
    assert_eq!(debrief.fees, 38_000);
    assert_eq!(debrief.cash_after_settle, 135_000);
    // A solid pretty trap keeps 9,000 + 8,000 for renovations.
    assert_eq!(debrief.renovation_allowance, 17_000);
    assert_eq!(debrief.walkaway_delta, -10_000);
    assert_eq!(debrief.projected_profit, 35_000);
    assert_eq!(debrief.loan_amount, 549_000);
    assert_eq!(debrief.weekly_rental_cashflow, -45);
    assert!(debrief.lesson.starts_with("The bid leaves a workable margin"));
}

#[test]
fn the_debrief_lesson_warns_about_the_walkaway_first() {
    let mut auction = room(4);
    auction.current_bid = 640_000;
    let over_limit = purchase_debrief_for_auction(&auction, 220_000, &terms());
    assert!(over_limit.lesson.starts_with("You won, but above your own walk-away line."));
    auction.current_bid = 600_000;
    let short_of_cash = purchase_debrief_for_auction(&auction, 100_000, &terms());
    assert!(short_of_cash.lesson.starts_with("The price fits, but it leaves very little working cash."));
    let comfortable = purchase_debrief_for_auction(&auction, 220_000, &terms());
    assert_eq!(comfortable.projected_profit, 45_000);
    assert!(comfortable.lesson.starts_with("The bid leaves a real buffer after costs."));
}
