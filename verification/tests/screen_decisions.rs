use auction_game::model::{
    Condition, DealArchetype, MaintenanceIssue, OwnedProperty, Player, Property, ResearchLevel,
    WalkawayStyle,
};
use auction_game::model::CampaignStatus;
use auction_game::screens::dashboard::{
    conclusion_text, open_registrations, review_first_status, turn_week, week_gate, week_status,
    SeasonCalendar, WeekGate, WeeklyPressure,
};
use auction_game::model::CareerRecord;
use auction_game::model::{ActiveRenovation, CompletedUpgrade};
use auction_game::screens::portfolio::{
    holding_label, holding_tone, lease_decision, upgrade_decision, page_range_text, paydown_status,
    portfolio_page, refinance_status, rent_review_status, sale_gate, settle_sale,
    PortfolioStep, RefinanceResult, RentReviewOutcome, SaleGate, SaleOutcome,
};
use auction_game::screens::property_detail::{
    buy_research, cap_label, choose_style, lower_walkaway, raise_walkaway, register_button, register_or_recover,
    walkaway_tone,
};
use auction_game::screens::property_list::{
    empty_listing_text, listing_matches, registrations_text, schedule_listings,
};
use auction_game::screens::sale_result::sale_headline;
use auction_game::sim::research::{recommended_walkaway, KnownRisk, MarketRead};
use auction_game::ui::{ButtonTone, Palette};

fn listing() -> Property {
    Property {
        id: 2,
        address: "9 Pager Road".to_string(),
        suburb: "Testville".to_string(),
        bedrooms: 3,
        bathrooms: 2,
        condition: Condition::Solid,
        land_size: 550,
        market_value: 520_000,
        guide_price: 470_000,
        reserve_price: 490_000,
        appeal: 62,
        renovation_potential: 35,
        hidden_defect_risk: 8,
        holding_cost_per_week: 140,
        buyer_demand: 61,
        deal_archetype: DealArchetype::RentalHold,
        thesis: String::new(),
        main_risk: String::new(),
        best_strategy: String::new(),
        bad_strategy: String::new(),
        notes: String::new(),
    }
}

fn owned() -> OwnedProperty {
    let mut owned = OwnedProperty::new(
        listing(),
        480_000,
        24_000,
        96_000,
        384_000,
        490_000,
        ResearchLevel::AgentPack,
        WalkawayStyle::Balanced,
    );
    owned.weekly_rent = 560;
    owned
}

#[test]
fn listing_filters_keep_only_matching_homes() {
    assert!(listing_matches(0, KnownRisk::Elevated, 0, 0, 900_000));
    assert!(listing_matches(9, KnownRisk::Elevated, 0, 0, 900_000));
    assert!(listing_matches(1, KnownRisk::Low, 0, 0, 900_000));
    assert!(!listing_matches(1, KnownRisk::Unverified, 0, 0, 900_000));
    assert!(listing_matches(2, KnownRisk::Unverified, 70_000, 0, 900_000));
    assert!(!listing_matches(2, KnownRisk::Unverified, 69_999, 0, 900_000));
    // 481 a week is 25,012 a year: just over 5% of 500,000.
    assert!(listing_matches(3, KnownRisk::Unverified, 0, 481, 500_000));
    assert!(!listing_matches(3, KnownRisk::Unverified, 0, 480, 500_001));
    assert!(listing_matches(3, KnownRisk::Unverified, 0, 1, 0));
    assert!(listing_matches(4, KnownRisk::Unverified, 0, 0, 500_000));
    assert!(!listing_matches(4, KnownRisk::Unverified, 0, 0, 500_001));
}

#[test]
fn the_listing_header_counts_registrations() {
    assert_eq!(
        registrations_text(1),
        "1 registration left this week. Research costs cash. Inspect before you commit."
    );
    assert_eq!(
        registrations_text(0),
        "0 registrations left this week. Research costs cash. Inspect before you commit."
    );
}

#[test]
fn an_empty_list_explains_why() {
    let exhausted = empty_listing_text(true, 0);
    assert_eq!(exhausted.0, "The season's auction book is exhausted.");
    assert_eq!(
        exhausted.1,
        "Tap PORTFOLIO to improve, lease, hold, or sell the homes you secured."
    );
    assert!(!exhausted.2);
    let filtered = empty_listing_text(false, 1);
    assert_eq!(filtered.0, "No listings match this filter.");
    assert_eq!(filtered.1, "Tap ALL, or advance the week to rotate the market.");
    assert!(filtered.2);
}

#[test]
fn the_walk_away_steps_by_ten_thousand_within_the_guide_floor() {
    assert_eq!(lower_walkaway(500_000, 470_000), 490_000);
    assert_eq!(lower_walkaway(395_000, 470_000), 390_000);
    assert_eq!(lower_walkaway(390_000, 470_000), 390_000);
    assert_eq!(raise_walkaway(390_000), 400_000);
}

#[test]
fn choosing_a_style_resets_the_recommended_walk_away() {
    let property = listing();
    let market = MarketRead {
        adjusted_value: 560_000,
        suburb_modifier: 0,
    };
    let chosen = choose_style(&property, &market, ResearchLevel::AgentPack, 15_000, 2);
    assert_eq!(
        chosen,
        recommended_walkaway(&property, &market, ResearchLevel::AgentPack, 15_000, 2)
    );
    // 560,000 - 36,000 + 6,000 (a rental hold) - 15,000 + 4,000 = 519,000, down to 510,000.
    assert_eq!(chosen, 510_000);
}

#[test]
fn registering_needs_a_registration_left() {
    assert!(register_or_recover(2));
    assert!(!register_or_recover(0));
    assert_eq!(register_button(1), ("REGISTER TO BID", ButtonTone::Primary));
    assert_eq!(register_button(0), ("RECOVER", ButtonTone::Secondary));
    assert_eq!(walkaway_tone(0), Palette::Positive);
    assert_eq!(walkaway_tone(-1), Palette::Warning);
}

#[test]
fn a_failed_season_names_each_exact_shortfall() {
    let text = conclusion_text(false, 1, 340, 25_000, -120, "Rent is the binding constraint.");
    assert_eq!(text.title, "The Bank Closes The Campaign");
    assert!(text.intro.starts_with("Week 24 has passed."));
    assert_eq!(text.homes_note, "Short 1 home");
    assert_eq!(text.rent_note, "Short $340 / week");
    assert_eq!(text.net_worth_note, "Short $25,000");
    assert_eq!(text.advice_heading, "BINDING CONSTRAINT");
    assert_eq!(text.advice, "Rent is the binding constraint.");
    assert_eq!(text.tone, Palette::Warning);

    let partial = conclusion_text(false, 0, 0, 10_000, 80, "Grow equity.");
    assert_eq!(partial.homes_note, "Goal secured");
    assert_eq!(partial.rent_note, "Goal secured | Net +$80 / wk");
    assert_eq!(partial.net_worth_note, "Short $10,000");
    assert_eq!(conclusion_text(false, 2, 0, 0, 0, "").homes_note, "Short 2 homes");
}

#[test]
fn a_won_season_that_still_loses_money_names_the_next_cycle() {
    let losing = conclusion_text(true, 0, 0, 0, -450, "unused");
    assert_eq!(losing.title, "Portfolio Established");
    assert_eq!(losing.rent_note, "Goal secured | Net -$450 / wk");
    assert_eq!(losing.advice_heading, "NEXT CYCLE");
    assert_eq!(
        losing.advice,
        "The brief is secured, but operations still lose $450 each week. Pay down the worst loan, lift supported rent, or recycle a weak asset."
    );
    assert_eq!(losing.tone, Palette::Positive);

    let steady = conclusion_text(true, 3, 100, 100, 300, "Keep compounding.");
    assert_eq!(steady.homes_note, "Goal secured");
    assert_eq!(steady.net_worth_note, "Goal secured");
    assert_eq!(steady.advice_heading, "WHAT WORKED");
    assert_eq!(steady.advice, "Keep compounding.");
}

#[test]
fn small_portfolios_fit_on_one_page() {
    let page = portfolio_page(6, 3, 9);
    assert_eq!((page.page, page.start, page.end, page.selected), (0, 0, 6, 5));
    let page = portfolio_page(4, 0, 2);
    assert_eq!((page.page, page.start, page.end, page.selected), (0, 0, 4, 2));
}

#[test]
fn larger_portfolios_page_by_five_and_clamp() {
    let page = portfolio_page(12, 1, 7);
    assert_eq!((page.page, page.start, page.end, page.selected), (1, 5, 10, 7));
    let page = portfolio_page(12, 1, 2);
    assert_eq!((page.page, page.start, page.end, page.selected), (1, 5, 10, 5));
    let page = portfolio_page(12, 9, 40);
    assert_eq!((page.page, page.start, page.end, page.selected), (2, 10, 12, 11));
    assert_eq!(page_range_text(10, 12, 12), "11–12 / 12");
}

#[test]
fn holding_labels_follow_the_home_state() {
    let mut home = owned();
    assert_eq!(holding_label(&home, false, 0), "Vacant");
    assert_eq!(holding_tone(&home, false, 0), Palette::Warning);
    home.leasing_weeks_remaining = 2;
    assert_eq!(holding_label(&home, false, 0), "On rental market | $560 / wk");
    assert_eq!(holding_tone(&home, false, 0), Palette::Blue);
    home.leasing_weeks_remaining = 0;
    home.is_leased = true;
    assert_eq!(holding_label(&home, true, 80), "Rent review due | $560 / wk");
    assert_eq!(holding_tone(&home, true, 80), Palette::Warning);
    assert_eq!(holding_label(&home, false, 80), "Leased $560 / wk | $80 net");
    assert_eq!(holding_tone(&home, false, 80), Palette::Positive);
    assert_eq!(holding_tone(&home, false, -5), Palette::Warning);
    home.maintenance_issue = Some(MaintenanceIssue {
        kind: "Hot water failure".to_string(),
        repair_cost: 1_800,
    });
    assert_eq!(
        holding_label(&home, false, -40),
        "Hot water failure | -$40 net / wk"
    );
    assert_eq!(holding_tone(&home, false, -40), Palette::Negative);
}

#[test]
fn the_cap_label_says_whether_the_suggestion_was_kept() {
    assert_eq!(cap_label(510_000, 510_000), "Manual cap matches suggestion");
    assert_eq!(cap_label(520_000, 510_000), "Manual cap · suggestion not applied");
}

#[test]
fn the_sale_result_head_tells_a_sale_from_a_pass_in() {
    let sold = sale_headline(Some(612_000), 612_000, 590_000, 402_500);
    assert_eq!(sold.kicker, "SOLD UNDER THE HAMMER");
    assert_eq!(sold.kicker_tone, Palette::Positive);
    assert_eq!(sold.title, "Sale Settled");
    assert_eq!(sold.price_title, "Sale Price");
    assert_eq!(sold.price_text, "$612,000");
    assert_eq!(sold.reserve_note, "Reserve $590,000");
    assert_eq!(sold.release_note, "After $402,500 loan + fees");
    assert_eq!(sold.release_tone, Palette::Positive);

    let passed = sale_headline(None, 575_000, 590_000, 0);
    assert_eq!(passed.kicker, "PASSED IN");
    assert_eq!(passed.kicker_tone, Palette::Warning);
    assert_eq!(passed.title, "Reserve Protected");
    assert_eq!(passed.price_title, "Highest Bid");
    assert_eq!(passed.price_text, "$575,000");
    assert_eq!(passed.release_note, "No debt cleared");
    assert_eq!(passed.release_tone, Palette::TextDim);
}

#[test]
fn research_is_paid_for_and_resets_the_walk_away() {
    let property = listing();
    let market = MarketRead {
        adjusted_value: 560_000,
        suburb_modifier: 0,
    };
    let mut cash = 10_000;
    let mut walkaway = 600_000;
    let mut status = String::new();
    let bought = buy_research(
        &mut cash,
        &mut walkaway,
        &mut status,
        ResearchLevel::StreetScan,
        ResearchLevel::BuildingInspection,
        "Building inspection",
        2_000,
        2,
        Some(&property),
        &market,
        15_000,
    );
    assert!(bought);
    // 2,000 less 10% for two reputation points.
    assert_eq!(cash, 8_200);
    // 560,000 - 30,000 + 6,000 - 15,000 + 4,000 = 525,000, down to 520,000.
    assert_eq!(walkaway, 520_000);
    assert_eq!(
        status,
        "Building inspection complete for 9 Pager Road. Walk-away updated to $520,000."
    );
}

#[test]
fn research_needs_a_deeper_level_and_the_cash() {
    let property = listing();
    let market = MarketRead {
        adjusted_value: 560_000,
        suburb_modifier: 0,
    };
    let mut cash = 1_000;
    let mut walkaway = 600_000;
    let mut status = "Keep your margin.".to_string();
    assert!(!buy_research(
        &mut cash,
        &mut walkaway,
        &mut status,
        ResearchLevel::BuildingInspection,
        ResearchLevel::AgentPack,
        "Agent pack",
        800,
        0,
        Some(&property),
        &market,
        0,
    ));
    assert_eq!((cash, walkaway, status.as_str()), (1_000, 600_000, "Keep your margin."));
    assert!(!buy_research(
        &mut cash,
        &mut walkaway,
        &mut status,
        ResearchLevel::AgentPack,
        ResearchLevel::FullDiligence,
        "Full diligence",
        4_500,
        0,
        Some(&property),
        &market,
        0,
    ));
    assert_eq!(status, "Need $4,500 for Full diligence.");
    assert_eq!((cash, walkaway), (1_000, 600_000));
    assert!(!buy_research(
        &mut cash,
        &mut walkaway,
        &mut status,
        ResearchLevel::StreetScan,
        ResearchLevel::AgentPack,
        "Agent pack",
        800,
        0,
        None,
        &market,
        0,
    ));
    assert_eq!(cash, 1_000);
}

#[test]
fn leasing_needs_a_finished_safe_home_and_the_fee() {
    let mut home = owned();
    assert_eq!(
        lease_decision(&home, 5_000, 560, 1_120),
        PortfolioStep::Proceed {
            cost: 1_120,
            status: "Listed for $560 per week. Leasing cost $1,120 paid; tap HOLD to advance one week and place the tenant."
                .to_string()
        }
    );
    assert_eq!(
        lease_decision(&home, 1_000, 560, 1_120),
        PortfolioStep::Refuse("Need $1,120 for advertising and leasing.".to_string())
    );
    home.hidden_defect_discovered = true;
    assert_eq!(
        lease_decision(&home, 5_000, 560, 1_120),
        PortfolioStep::Refuse(
            "Repair the known structural risk before placing a tenant.".to_string()
        )
    );
    home.upgrades.push(CompletedUpgrade {
        upgrade_id: "structural".to_string(),
        removes_defect: true,
        actual_cost: 9_000,
    });
    assert!(matches!(
        lease_decision(&home, 5_000, 560, 1_120),
        PortfolioStep::Proceed { .. }
    ));
    home.active_renovation = Some(ActiveRenovation {
        upgrade_id: "kitchen".to_string(),
    });
    assert_eq!(
        lease_decision(&home, 5_000, 560, 1_120),
        PortfolioStep::Refuse("Finish the renovation before placing a tenant.".to_string())
    );
    home.is_leased = true;
    assert_eq!(lease_decision(&home, 5_000, 560, 1_120), PortfolioStep::Ignore);
}

#[test]
fn loan_statuses_report_the_interest_change() {
    assert_eq!(
        paydown_status(0, 400, 400),
        "Keep at least $10,000 cash available for a principal payment."
    );
    assert_eq!(
        paydown_status(10_000, 400, 388),
        "Paid $10,000 off the selected loan. Weekly interest fell $12 to $388 per week; bank debt fell too."
    );
    assert_eq!(
        paydown_status(10_000, 400, 400),
        "Paid $10,000 off the selected loan. Bank debt fell; weekly interest remains $400 per week at dollar precision."
    );
    assert_eq!(
        refinance_status(None, 400, 400),
        "Refinance needs four leased weeks, clean maintenance, equity below 80% LVR, and bank room."
    );
    let released = RefinanceResult {
        cash_released: 38_000,
        debt_added: 40_000,
        fee: 2_000,
    };
    assert_eq!(
        refinance_status(Some(released), 400, 446),
        "Released $38,000 cash from $40,000 new debt after the $2,000 fee. Weekly interest rose $46 to $446 per week."
    );
    assert_eq!(
        refinance_status(Some(released), 400, 400),
        "Released $38,000 cash from $40,000 new debt after the $2,000 fee. Weekly interest remains $400 per week at dollar precision."
    );
}

#[test]
fn rent_review_statuses_name_the_home_and_the_rent() {
    assert_eq!(
        rent_review_status(&RentReviewOutcome::Renewed(560), "9 Pager Road"),
        "9 Pager Road renewed at $560 per week for another eight weeks."
    );
    assert_eq!(
        rent_review_status(&RentReviewOutcome::Raised(590), "9 Pager Road"),
        "The tenant accepted $590 per week at 9 Pager Road. The higher rent is now contracted."
    );
    assert_eq!(
        rent_review_status(&RentReviewOutcome::Vacated(620), "9 Pager Road"),
        "The tenant rejected $620 per week at 9 Pager Road and left. Advertise again to restore rent."
    );
}

fn templates(count: usize) -> Vec<Property> {
    (1..=count)
        .map(|id| {
            let mut home = listing();
            home.id = id;
            home
        })
        .collect()
}

fn ids(book: &[Property]) -> Vec<usize> {
    book.iter().map(|home| home.id).collect()
}

#[test]
fn the_book_skips_owned_auctioned_and_locked_homes() {
    let unlocked = vec![true, true, true, false, true];
    let book = schedule_listings(templates(5), &vec![2], &vec![5], &unlocked, 1);
    assert_eq!(ids(&book), [1, 3]);
}

#[test]
fn the_book_rotates_weekly_and_shows_at_most_six() {
    let unlocked = vec![true; 9];
    let first = schedule_listings(templates(9), &Vec::new(), &Vec::new(), &unlocked, 1);
    assert_eq!(ids(&first), [1, 2, 3, 4, 5, 6]);
    let third = schedule_listings(templates(9), &Vec::new(), &Vec::new(), &unlocked, 3);
    assert_eq!(ids(&third), [3, 4, 5, 6, 7, 8]);
    let later = schedule_listings(templates(9), &vec![1], &Vec::new(), &unlocked, 9);
    assert_eq!(ids(&later), [2, 3, 4, 5, 6, 7]);
    let none = schedule_listings(templates(2), &vec![1, 2], &Vec::new(), &vec![true, true], 4);
    assert!(none.is_empty());
}

fn pressure(total: i64, shortfall: i64) -> WeeklyPressure {
    WeeklyPressure {
        rental_income: 1_120,
        total,
        holding_cost: 280,
        debt_interest: 610,
        rental_operating_cost: 90,
        shortfall_added_to_debt: shortfall,
    }
}

#[test]
fn the_week_status_reports_the_market_pulse() {
    let notes = |items: &[&str]| items.iter().map(|s| s.to_string()).collect::<Vec<String>>();
    let text = week_status(
        CampaignStatus::Active,
        7,
        231_500,
        &pressure(980, 0),
        &notes(&["Kitchen finished.", "Roof finished."]),
        &notes(&[]),
        &notes(&["9 Pager Road leased."]),
        "Next suburb unlocks in week 9.",
    );
    assert_eq!(
        text,
        "Week 7 market pulse. Rent $1,120. Costs $980 ($280 property, $610 interest, $90 management). Kitchen finished. Roof finished. Leasing: 9 Pager Road leased. Next suburb unlocks in week 9."
    );
    let quiet = week_status(
        CampaignStatus::Active,
        2,
        220_000,
        &pressure(0, 1_500),
        &Vec::new(),
        &notes(&["Hot water failure."]),
        &Vec::new(),
        "All suburbs open.",
    );
    assert_eq!(
        quiet,
        "Week 2 market pulse. No carrying costs this week. Cash shortfall added $1,500 to debt. Maintenance: Hot water failure. All suburbs open."
    );
}

#[test]
fn the_week_status_reports_the_season_result() {
    assert_eq!(
        week_status(
            CampaignStatus::Won,
            19,
            251_000,
            &pressure(0, 0),
            &Vec::new(),
            &Vec::new(),
            &Vec::new(),
            ""
        ),
        "Campaign won in week 19 with $251,000 net worth."
    );
    assert_eq!(
        week_status(
            CampaignStatus::Failed,
            25,
            198_000,
            &pressure(0, 0),
            &Vec::new(),
            &Vec::new(),
            &Vec::new(),
            ""
        ),
        "Campaign closed after week 24. Final net worth: $198,000."
    );
}

#[test]
fn a_due_rent_review_holds_the_week() {
    assert_eq!(week_gate(true, &vec![true]), WeekGate::SeasonOver);
    assert_eq!(week_gate(false, &vec![false, true, true]), WeekGate::ReviewFirst(1));
    assert_eq!(week_gate(false, &vec![false, false]), WeekGate::Advance);
    assert_eq!(
        review_first_status("9 Pager Road"),
        "Resolve the rent review at 9 Pager Road before advancing the week."
    );
}

fn investor_with_two_homes() -> Player {
    let mut player = Player::new();
    let first = owned();
    let mut second = owned();
    second.property.id = 8;
    second.debt = 300_000;
    player.debt = first.debt + second.debt;
    player.properties = vec![first, second];
    player
}

#[test]
fn a_sale_needs_an_owned_idle_home_and_the_campaign_cash() {
    let mut player = investor_with_two_homes();
    assert_eq!(sale_gate(&player, 99, "Standard", 3_000), SaleGate::NotOwned);
    assert_eq!(sale_gate(&player, 8, "Standard", 3_000), SaleGate::Ready(1));
    assert_eq!(
        sale_gate(&player, 8, "Premium", 300_000),
        SaleGate::Refused("Need $300,000 for the Premium campaign.".to_string())
    );
    player.properties[0].active_renovation = Some(auction_game::model::ActiveRenovation {
        upgrade_id: "kitchen".to_string(),
    });
    assert_eq!(
        sale_gate(&player, 2, "Standard", 3_000),
        SaleGate::Refused("Finish the active renovation before selling.".to_string())
    );
}

#[test]
fn a_sale_clears_the_loan_and_records_the_profit() {
    let mut player = investor_with_two_homes();
    let mut index = 1;
    let mut status = String::new();
    let outcome = SaleOutcome {
        sale_price: Some(520_000),
        selling_fees: 12_000,
        profit: 18_500,
        reputation_delta: 1,
        reputation_reason: "Buyers noticed the tidy campaign.".to_string(),
    };
    settle_sale(&mut player, &mut index, &mut status, 1, "Market", 3_000, &outcome);
    assert_eq!(player.cash, 220_000 - 3_000 + 520_000 - 12_000 - 300_000);
    assert_eq!(player.debt, 384_000);
    assert_eq!(player.reputation, 1);
    assert_eq!(player.properties.len(), 1);
    assert_eq!(player.career.homes_sold, 1);
    assert_eq!(player.career.realized_profit, 18_500);
    assert_eq!(index, 0);
    assert_eq!(
        status,
        "Market sale complete with profit $18,500. Buyers noticed the tidy campaign."
    );

    let loss = SaleOutcome {
        sale_price: Some(350_000),
        selling_fees: 9_000,
        profit: -42_000,
        reputation_delta: -1,
        reputation_reason: "The rush showed.".to_string(),
    };
    settle_sale(&mut player, &mut index, &mut status, 0, "Low", 0, &loss);
    assert_eq!(status, "Low sale complete with loss $42,000. The rush showed.");
    assert!(player.properties.is_empty());
    assert_eq!(index, 0);
}

#[test]
fn a_passed_in_sale_costs_another_week() {
    let mut player = investor_with_two_homes();
    let mut index = 0;
    let mut status = String::new();
    let outcome = SaleOutcome {
        sale_price: None,
        selling_fees: 0,
        profit: 0,
        reputation_delta: 0,
        reputation_reason: String::new(),
    };
    settle_sale(&mut player, &mut index, &mut status, 1, "Market", 2_500, &outcome);
    assert_eq!(player.cash, 220_000 - 2_500 - 140);
    assert_eq!(player.properties.len(), 2);
    assert_eq!(player.properties[1].weeks_held, 1);
    assert_eq!(player.debt, 684_000);
    assert_eq!(
        status,
        "Auction passed in. One more week of holding costs was paid."
    );
}

#[test]
fn a_renovation_needs_an_empty_idle_home_and_the_quote() {
    let mut home = owned();
    assert_eq!(
        upgrade_decision(&home, "kitchen", "Kitchen refresh", 3, 30_000, 24_000),
        PortfolioStep::Proceed {
            cost: 24_000,
            status: "Kitchen refresh started: 3 week job, $24,000 paid. Advance weeks to finish."
                .to_string()
        }
    );
    assert_eq!(
        upgrade_decision(&home, "kitchen", "Kitchen refresh", 3, 20_000, 24_000),
        PortfolioStep::Refuse("Not enough cash to start that renovation.".to_string())
    );
    home.leasing_weeks_remaining = 1;
    assert_eq!(
        upgrade_decision(&home, "kitchen", "Kitchen refresh", 3, 30_000, 24_000),
        PortfolioStep::Refuse(
            "The home is advertised for rent. Finish the leasing week before renovating."
                .to_string()
        )
    );
    home.leasing_weeks_remaining = 0;
    home.is_leased = true;
    assert_eq!(
        upgrade_decision(&home, "kitchen", "Kitchen refresh", 3, 30_000, 24_000),
        PortfolioStep::Refuse("A tenanted home cannot begin renovation work.".to_string())
    );
    home.is_leased = false;
    home.active_renovation = Some(ActiveRenovation {
        upgrade_id: "bathroom".to_string(),
    });
    assert_eq!(
        upgrade_decision(&home, "kitchen", "Kitchen refresh", 3, 30_000, 24_000),
        PortfolioStep::Refuse(
            "Finish the current renovation before starting another.".to_string()
        )
    );
    assert_eq!(
        upgrade_decision(&home, "bathroom", "Bathroom", 2, 30_000, 9_000),
        PortfolioStep::Ignore
    );
    home.active_renovation = None;
    home.upgrades.push(CompletedUpgrade {
        upgrade_id: "kitchen".to_string(),
        removes_defect: false,
        actual_cost: 24_000,
    });
    assert_eq!(
        upgrade_decision(&home, "kitchen", "Kitchen refresh", 3, 30_000, 24_000),
        PortfolioStep::Ignore
    );
}

#[test]
fn turning_the_week_records_restraint_and_rotates_the_market() {
    let mut calendar = SeasonCalendar { week: 3, market_index: 2, auction_registrations: 2 };
    let mut career = CareerRecord::default();
    career.unused_registrations = 1;
    turn_week(&mut calendar, &mut career, 3);
    assert_eq!(calendar.week, 4);
    assert_eq!(calendar.market_index, 0);
    assert_eq!(calendar.auction_registrations, 0);
    assert_eq!(career.unused_registrations, 3);

    open_registrations(&mut calendar, CampaignStatus::Active);
    assert_eq!(calendar.auction_registrations, 2);
    turn_week(&mut calendar, &mut career, 3);
    assert_eq!(calendar.week, 5);
    assert_eq!(calendar.market_index, 1);
    assert_eq!(career.unused_registrations, 5);
}

#[test]
fn a_finished_season_opens_no_registrations() {
    let mut calendar = SeasonCalendar { week: 24, market_index: 0, auction_registrations: 0 };
    open_registrations(&mut calendar, CampaignStatus::Failed);
    assert_eq!(calendar.auction_registrations, 0);
    open_registrations(&mut calendar, CampaignStatus::Won);
    assert_eq!(calendar.auction_registrations, 0);
}
