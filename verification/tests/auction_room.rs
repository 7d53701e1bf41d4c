use auction_game::model::auction::{
    auction_rng_default, auction_started_default, jump_available_default,
};
use auction_game::model::{
    Auction, AuctionStatus, AuctionTemperature, BidLog, Bidder, BidderActor, BidderMood,
    BidderType, Condition, DealArchetype, Player, Property, ResearchLevel, WalkawayStyle,
};
use auction_game::sim::auction_sim::{
    auctioneer_line, award_discipline_reputation, begin_auction_calls,
    earned_discipline_reputation, extend_if_needed, finish_auction, hold_player_position,
    push_log, room_read, stop_player_bidding,
};
use auction_game::ui::format_money;
use auction_game::ui::text::replace;

fn bidder(name: &str) -> Bidder {
    Bidder {
        name: name.to_string(),
        bidder_type: BidderType::Investor,
        max_price: 1_000_000,
        aggression: 500,
        patience: 500,
        pressure_tolerance: 500,
        overbid_tendency: 100,
        reaction_timer_ms: 1_000,
        preparing_bid: false,
        bid_flash_ms: 0,
        bid_count: 0,
        heat: 35,
        mood: BidderMood::Watching,
        tell: String::new(),
        preference: String::new(),
        weakness: String::new(),
        danger: String::new(),
        rhythm: String::new(),
        active: true,
        has_logged_exit: false,
        stretch_bid_used: false,
    }
}

fn room() -> Auction {
    Auction {
        property: Property {
            id: 1,
            address: "1 Test Lane".to_string(),
            suburb: "Testville".to_string(),
            bedrooms: 3,
            bathrooms: 1,
            condition: Condition::Solid,
            land_size: 600,
            market_value: 500_000,
            guide_price: 450_000,
            reserve_price: 470_000,
            appeal: 60,
            renovation_potential: 40,
            hidden_defect_risk: 10,
            holding_cost_per_week: 120,
            buyer_demand: 60,
            deal_archetype: DealArchetype::RentalHold,
            thesis: String::new(),
            main_risk: String::new(),
            best_strategy: String::new(),
            bad_strategy: String::new(),
            notes: String::new(),
        },
        current_bid: 410_000,
        reserve_price: 470_000,
        bid_increment: 10_000,
        remaining_ms: 56_000,
        call_timer_ms: 1_000,
        since_bid_ms: 0,
        bidders: vec![bidder("Mara"), bidder("Theo"), bidder("Ines")],
        last_bidder: None,
        is_player_active: true,
        player_exit_bid: None,
        overtime_count: 0,
        status: None,
        log: vec![BidLog {
            text: "Registration confirmed.".to_string(),
            remaining_ms: 56_000,
        }],
        player_walkaway_price: 600_000,
        player_research_level: ResearchLevel::AgentPack,
        walkaway_style: WalkawayStyle::Balanced,
        temperature: AuctionTemperature::QuietRoom,
        market_heat: 50,
        jump_bid_available: true,
        player_bid_count: 0,
        on_market_announced: false,
        vendor_bid_used: true,
        last_room_read: None,
        sold_post_auction: false,
        post_auction_tested: false,
        has_started: true,
        rng_state: 7,
    }
}

fn last_line(auction: &Auction) -> &str {
    auction.log.last().map(|entry| entry.text.as_str()).unwrap_or("")
}

#[test]
fn money_reads_with_a_dollar_sign_and_thousands_separators() {
    assert_eq!(format_money(0), "$0");
    assert_eq!(format_money(950), "$950");
    assert_eq!(format_money(10_000), "$10,000");
    assert_eq!(format_money(1_234_567), "$1,234,567");
    assert_eq!(format_money(-12_500), "-$12,500");
    assert_eq!(format_money(1_000_005), "$1,000,005");
    assert_eq!(format_money(i64::MIN), "-$9,223,372,036,854,775,808");
}

#[test]
fn replacement_fills_every_placeholder() {
    assert_eq!(replace("{name} and {name}", "{name}", "Mara"), "Mara and Mara");
    assert_eq!(replace("no placeholder", "{name}", "Mara"), "no placeholder");
    assert_eq!(replace("{{name}}", "{name}", "x"), "{x}");
}

#[test]
fn the_next_and_jump_bids_step_up_from_the_current_bid() {
    let auction = room();
    assert_eq!(auction.next_bid(), 420_000);
    assert_eq!(auction.jump_bid(), 430_000);
    assert!(auction.is_running());
    assert_eq!(auction.player_paddle_number(), 137);
}

#[test]
fn rooms_saved_before_newer_fields_resume_sensibly() {
    assert!(jump_available_default());
    assert!(auction_started_default());
    assert_eq!(auction_rng_default(), 0xA117_C710_5EED_2026);
}

#[test]
fn temperature_labels_explain_the_room() {
    assert_eq!(AuctionTemperature::FomoSpiral.label(), "FOMO Spiral");
    assert_eq!(
        AuctionTemperature::FinalCall.description(),
        "Silence now decides the sale."
    );
    assert_eq!(BidderType::EgoBidder.label(), "Ego Bidder");
    assert_eq!(BidderMood::Stretching.label(), "stretching");
}

#[test]
fn opening_the_calls_announces_the_opening_bid_once() {
    let mut auction = room();
    auction.has_started = false;
    begin_auction_calls(&mut auction);
    assert!(auction.has_started);
    assert_eq!(last_line(&auction), "Bidding is open at $410,000.");
    let lines = auction.log.len();
    begin_auction_calls(&mut auction);
    assert_eq!(auction.log.len(), lines);
}

#[test]
fn the_log_keeps_only_the_latest_twelve_lines() {
    let mut auction = room();
    for i in 0..20 {
        push_log(&mut auction, format!("line {i}"));
    }
    assert_eq!(auction.log.len(), 12);
    assert_eq!(auction.log[0].text, "line 8");
    assert_eq!(last_line(&auction), "line 19");
}

#[test]
fn stopping_records_the_exit_price() {
    let mut auction = room();
    stop_player_bidding(&mut auction);
    assert!(!auction.is_player_active);
    assert_eq!(auction.player_exit_bid, Some(410_000));
    assert_eq!(
        last_line(&auction),
        "You stop at $410,000 and force the room to prove it."
    );
    let lines = auction.log.len();
    stop_player_bidding(&mut auction);
    assert_eq!(auction.log.len(), lines);
}

#[test]
fn a_rival_overpaying_after_the_player_stops_earns_discipline() {
    let mut auction = room();
    auction.player_walkaway_price = 460_000;
    stop_player_bidding(&mut auction);
    auction.current_bid = 470_000;
    auction.status = Some(AuctionStatus::SoldToNpc("Mara".to_string()));
    assert!(earned_discipline_reputation(&auction));
    let mut player = Player::new();
    assert!(award_discipline_reputation(&mut player, &auction));
    assert_eq!(player.reputation, 1);
    assert_eq!(player.career.disciplined_walkaways, 1);
    auction.current_bid = 460_000;
    assert!(!award_discipline_reputation(&mut player, &auction));
    assert_eq!(player.reputation, 1);
}

#[test]
fn the_hammer_sells_only_at_reserve_and_never_to_the_vendor() {
    let mut below = room();
    below.last_bidder = Some(BidderActor::Player);
    finish_auction(&mut below);
    assert_eq!(below.status, Some(AuctionStatus::PassedIn));
    assert_eq!(last_line(&below), "Auction passes in below reserve.");

    let mut vendor = room();
    vendor.current_bid = 480_000;
    vendor.last_bidder = Some(BidderActor::Vendor);
    finish_auction(&mut vendor);
    assert_eq!(vendor.status, Some(AuctionStatus::PassedIn));
    assert_eq!(last_line(&vendor), "Auction passes in on the vendor bid.");

    let mut rival = room();
    rival.current_bid = 480_000;
    rival.last_bidder = Some(BidderActor::Npc(1));
    finish_auction(&mut rival);
    assert_eq!(rival.status, Some(AuctionStatus::SoldToNpc("Theo".to_string())));
    assert_eq!(last_line(&rival), "Sold to Theo for $480,000.");

    let mut player = room();
    player.current_bid = 470_000;
    player.last_bidder = Some(BidderActor::Player);
    finish_auction(&mut player);
    assert_eq!(player.status, Some(AuctionStatus::SoldToPlayer));
    assert_eq!(last_line(&player), "Sold to you for $470,000.");
}

#[test]
fn late_bids_reopen_the_calls_with_shrinking_patience() {
    let mut auction = room();
    auction.remaining_ms = 9_000;
    extend_if_needed(&mut auction);
    assert_eq!(auction.remaining_ms, 9_000);
    assert_eq!(auction.overtime_count, 0);
    for expected in [11_000, 11_000, 7_000, 7_000] {
        auction.remaining_ms = 5_000;
        extend_if_needed(&mut auction);
        assert_eq!(auction.remaining_ms, expected);
    }
    assert_eq!(auction.overtime_count, 4);
    assert_eq!(
        last_line(&auction),
        "The auctioneer warns there will be no more patience."
    );
}

#[test]
fn the_auctioneer_reads_the_clock_reserve_and_leader() {
    let mut auction = room();
    assert_eq!(
        auctioneer_line(&auction),
        "Still looking for a bid that meets reserve."
    );
    auction.current_bid = 480_000;
    assert_eq!(auctioneer_line(&auction), "Auctioneer asks for $490,000.");
    auction.last_bidder = Some(BidderActor::Player);
    assert_eq!(
        auctioneer_line(&auction),
        "You are holding the top bid. Stay disciplined."
    );
    auction.temperature = AuctionTemperature::FomoSpiral;
    assert_eq!(
        auctioneer_line(&auction),
        "The room is chasing the room now, not the house."
    );
    auction.on_market_announced = true;
    assert_eq!(
        auctioneer_line(&auction),
        "We are selling. The next silence can own the home."
    );
    auction.remaining_ms = 15_000;
    assert_eq!(
        auctioneer_line(&auction),
        "Pressure rises. The next call is $490,000."
    );
    auction.remaining_ms = 5_000;
    assert_eq!(
        auctioneer_line(&auction),
        "Final call at $480,000. Any better offer?"
    );
    auction.overtime_count = 3;
    assert_eq!(
        auctioneer_line(&auction),
        "Last warning. The next silence ends it."
    );
}

#[test]
fn a_saved_log_line_keeps_its_clock() {
    let mut auction = room();
    auction.remaining_ms = 12_345;
    push_log(&mut auction, "stamp".to_string());
    let entry: &BidLog = auction.log.last().unwrap();
    assert_eq!(entry.remaining_ms, 12_345);
    assert_eq!(entry.text, "stamp");
}

#[test]
fn a_room_read_is_as_precise_as_the_research() {
    let mut auction = room();
    auction.bidders[0].tell = "Taps the brochure.".to_string();
    auction.bidders[1].bidder_type = BidderType::BargainHunter;
    // Next bid 420,000: Mara has 60,000 of headroom, Theo 15,000, Ines 80,000.
    let ceilings = vec![480_000, 435_000, 500_000];
    auction.player_research_level = ResearchLevel::StreetScan;
    auction.bidders[1].tell = "Counts the bricks.".to_string();
    assert_eq!(room_read(&auction, &ceilings), "Theo: Counts the bricks.");
    auction.player_research_level = ResearchLevel::AgentPack;
    assert_eq!(
        room_read(&auction, &ceilings),
        "Theo looks uncomfortable at the next call."
    );
    auction.player_research_level = ResearchLevel::FullDiligence;
    assert_eq!(
        room_read(&auction, &ceilings),
        "Theo needs value; reserve pressure can push them out."
    );
    let squeezed = vec![480_000, 425_000, 500_000];
    assert_eq!(
        room_read(&auction, &squeezed),
        "Theo is near ceiling; holding may flush them."
    );
    let priced_out = vec![480_000, 410_000, 500_000];
    assert_eq!(
        room_read(&auction, &priced_out),
        "Theo is priced out if the room asks again."
    );
    for bidder in &mut auction.bidders {
        bidder.active = false;
    }
    assert_eq!(
        room_read(&auction, &ceilings),
        "No active bidder wants the next bid."
    );
}

#[test]
fn waiting_prompts_the_room_and_logs_the_read() {
    let mut auction = room();
    auction.player_research_level = ResearchLevel::AgentPack;
    auction.call_timer_ms = 2_000;
    auction.bidders[0].reaction_timer_ms = 3_000;
    auction.bidders[1].reaction_timer_ms = 200;
    auction.bidders[2].active = false;
    auction.bidders[2].reaction_timer_ms = 3_000;
    let ceilings = vec![600_000, 600_000, 600_000];
    let read = hold_player_position(&mut auction, &ceilings);
    assert_eq!(read, "Mara still looks composed; the ceiling is unclear.");
    assert_eq!(auction.last_room_read.as_deref(), Some(read.as_str()));
    assert_eq!(
        last_line(&auction),
        "You wait with the paddle down. Mara still looks composed; the ceiling is unclear."
    );
    assert_eq!(auction.call_timer_ms, 450);
    assert_eq!(auction.bidders[0].reaction_timer_ms, 450);
    assert_eq!(auction.bidders[1].reaction_timer_ms, 200);
    assert_eq!(auction.bidders[2].reaction_timer_ms, 3_000);
    stop_player_bidding(&mut auction);
    assert_eq!(
        hold_player_position(&mut auction, &ceilings),
        "The room has already moved past your paddle."
    );
}
