use auction_game::model::{
    Auction, AuctionStatus, AuctionTemperature, BidLog, Bidder, BidderActor, BidderMood,
    BidderProfileData, BidderType, CareerRecord, Condition, DealArchetype, Player, Property,
    ResearchLevel, RivalRecord, WalkawayStyle,
};
use auction_game::sim::rival_notebook::record_completed_room;
use auction_game::audio::SoundEffect;
use auction_game::screens::auction::{
    handle_room_action, passed_in_terms, return_to_listings, rival_win_notice, settle_purchase,
    start_auction, AuctionDesk, FinanceCheck, RoomAction,
};
use auction_game::screens::Screen;
use auction_game::sim::auction_sim::{
    create_auction, place_npc_bid, place_player_bid, place_player_jump_bid,
    quick_resolve_auction, RivalBid, RivalSeat, RoomOpening,
};
use auction_game::sim::debrief::SettlementTerms;
use auction_game::ui::{ButtonTone, Palette};

fn bidder(name: &str) -> Bidder {
    Bidder {
        name: name.to_string(),
        bidder_type: BidderType::Investor,
        max_price: 1_000_000,
        aggression: 500,
        patience: 500,
        pressure_tolerance: 500,
        overbid_tendency: 100,
        reaction_timer_ms: 1_000,
        preparing_bid: false,
        bid_flash_ms: 0,
        bid_count: 0,
        heat: 35,
        mood: BidderMood::Watching,
        tell: String::new(),
        preference: String::new(),
        weakness: String::new(),
        danger: String::new(),
        rhythm: String::new(),
        active: true,
        has_logged_exit: false,
        stretch_bid_used: false,
    }
}

fn room() -> Auction {
    Auction {
        property: Property {
            id: 1,
            address: "1 Test Lane".to_string(),
            suburb: "Testville".to_string(),
            bedrooms: 3,
            bathrooms: 1,
            condition: Condition::Solid,
            land_size: 600,
            market_value: 500_000,
            guide_price: 450_000,
            reserve_price: 470_000,
            appeal: 60,
            renovation_potential: 40,
            hidden_defect_risk: 10,
            holding_cost_per_week: 120,
            buyer_demand: 60,
            deal_archetype: DealArchetype::RentalHold,
            thesis: String::new(),
            main_risk: String::new(),
            best_strategy: String::new(),
            bad_strategy: String::new(),
            notes: String::new(),
        },
        current_bid: 410_000,
        reserve_price: 470_000,
        bid_increment: 10_000,
        remaining_ms: 56_000,
        call_timer_ms: 1_000,
        since_bid_ms: 0,
        bidders: vec![bidder("Mara"), bidder("Theo"), bidder("Ines")],
        last_bidder: None,
        is_player_active: true,
        player_exit_bid: None,
        overtime_count: 0,
        status: None,
        log: vec![BidLog {
            text: "Registration confirmed.".to_string(),
            remaining_ms: 56_000,
        }],
        player_walkaway_price: 600_000,
        player_research_level: ResearchLevel::AgentPack,
        walkaway_style: WalkawayStyle::Balanced,
        temperature: AuctionTemperature::QuietRoom,
        market_heat: 50,
        jump_bid_available: true,
        player_bid_count: 0,
        on_market_announced: false,
        vendor_bid_used: true,
        last_room_read: None,
        sold_post_auction: false,
        post_auction_tested: false,
        has_started: true,
        rng_state: 7,
    }
}

fn last_line(auction: &Auction) -> &str {
    auction.log.last().map(|entry| entry.text.as_str()).unwrap_or("")
}


fn kinds(auction: &mut Auction, kinds: [BidderType; 3]) {
    for (bidder, kind) in auction.bidders.iter_mut().zip(kinds) {
        bidder.bidder_type = kind;
    }
}

fn rival_bid(index: usize, amount: i64) -> RivalBid {
    RivalBid {
        index,
        amount,
        tell: "Checks the numbers again.".to_string(),
        reaction_ms: 2_000,
    }
}

#[test]
fn a_player_bid_takes_the_asking_price_and_logs_it() {
    let mut auction = room();
    auction.since_bid_ms = 4_000;
    auction.last_room_read = Some("Mara looks composed.".to_string());
    place_player_bid(&mut auction);
    assert_eq!(auction.current_bid, 420_000);
    assert_eq!(auction.last_bidder, Some(BidderActor::Player));
    assert_eq!(auction.player_bid_count, 1);
    assert_eq!(auction.since_bid_ms, 0);
    assert_eq!(auction.last_room_read, None);
    assert_eq!(auction.log.len(), 2);
    assert_eq!(last_line(&auction), "You bid $420,000.");
}

#[test]
fn a_bid_above_the_walk_away_is_flagged() {
    let mut auction = room();
    auction.player_walkaway_price = 415_000;
    place_player_bid(&mut auction);
    assert_eq!(
        last_line(&auction),
        "You bid $420,000. That is above your walk-away reminder."
    );
}

#[test]
fn a_late_player_bid_reopens_the_calls_before_it_is_logged() {
    let mut auction = room();
    auction.remaining_ms = 3_000;
    place_player_bid(&mut auction);
    assert_eq!(auction.remaining_ms, 11_000);
    assert_eq!(auction.overtime_count, 1);
    let lines: Vec<&str> = auction.log.iter().map(|entry| entry.text.as_str()).collect();
    assert_eq!(
        lines[1..],
        [
            "Late bid. The auctioneer gives the room one more chance.",
            "You bid $420,000."
        ]
    );
    assert_eq!(auction.log[2].remaining_ms, 11_000);
}

#[test]
fn a_stopped_player_cannot_bid() {
    let mut auction = room();
    auction.is_player_active = false;
    place_player_bid(&mut auction);
    assert_eq!(auction.current_bid, 410_000);
    assert_eq!(auction.log.len(), 1);
}

#[test]
fn the_jump_rattles_rational_bidders_and_provokes_emotional_ones() {
    let mut auction = room();
    kinds(
        &mut auction,
        [BidderType::Investor, BidderType::EgoBidder, BidderType::Renovator],
    );
    auction.bidders[1].reaction_timer_ms = 2_000;
    auction.bidders[1].heat = 90;
    let message = place_player_jump_bid(&mut auction);
    assert_eq!(
        message,
        "You assert $430,000. Some bidders recoil; emotional buyers take it personally."
    );
    assert_eq!(last_line(&auction), message);
    assert_eq!(auction.current_bid, 430_000);
    assert!(!auction.jump_bid_available);
    assert_eq!(auction.player_bid_count, 1);

    let investor = &auction.bidders[0];
    assert_eq!(investor.max_price, 990_000);
    assert_eq!(investor.reaction_timer_ms, 2_400);
    assert_eq!(investor.heat, 17);
    assert_eq!(investor.mood, BidderMood::Hesitating);
    assert_eq!(investor.tell, "The sudden jump forces a fresh calculation.");

    let ego = &auction.bidders[1];
    assert_eq!(ego.max_price, 1_010_000);
    assert_eq!(ego.reaction_timer_ms, 700);
    assert_eq!(ego.heat, 100);
    assert_eq!(ego.mood, BidderMood::Stretching);
    assert_eq!(ego.tell, "The jump feels like a challenge.");

    let renovator = &auction.bidders[2];
    assert_eq!(renovator.max_price, 1_000_000);
    assert_eq!(renovator.reaction_timer_ms, 1_800);
    assert_eq!(renovator.heat, 25);
    assert_eq!(renovator.tell, "Rechecks the repair margin after your jump.");
}

#[test]
fn the_jump_effect_names_who_reacted() {
    let mut calm = room();
    kinds(
        &mut calm,
        [BidderType::Developer, BidderType::Developer, BidderType::Developer],
    );
    assert_eq!(
        place_player_jump_bid(&mut calm),
        "You assert $430,000. The room barely reacts."
    );
    assert_eq!(calm.bidders[0].reaction_timer_ms, 1_000);
    assert_eq!(
        calm.bidders[0].tell,
        "Ignores the theatre and checks the land value."
    );

    let mut rattled = room();
    kinds(
        &mut rattled,
        [BidderType::BargainHunter, BidderType::Developer, BidderType::Investor],
    );
    rattled.bidders[0].heat = 20;
    assert_eq!(
        place_player_jump_bid(&mut rattled),
        "You assert $430,000. The jump rattles the room."
    );
    assert_eq!(rattled.bidders[0].heat, 10);

    let mut provoked = room();
    kinds(
        &mut provoked,
        [BidderType::FirstHomeBuyer, BidderType::Developer, BidderType::Developer],
    );
    provoked.bidders[2].active = false;
    assert_eq!(
        place_player_jump_bid(&mut provoked),
        "You assert $430,000. The jump provokes the emotional bidders."
    );
    assert_eq!(provoked.bidders[2].tell, "");
}

#[test]
fn rivals_that_are_out_ignore_the_jump() {
    let mut auction = room();
    for bidder in auction.bidders.iter_mut() {
        bidder.active = false;
    }
    let message = place_player_jump_bid(&mut auction);
    assert_eq!(message, "You assert $430,000. The room barely reacts.");
    assert_eq!(auction.bidders[0].max_price, 1_000_000);
    assert_eq!(auction.bidders[0].reaction_timer_ms, 1_000);
}

#[test]
fn the_jump_is_once_per_room() {
    let mut auction = room();
    place_player_jump_bid(&mut auction);
    let lines = auction.log.len();
    assert_eq!(
        place_player_jump_bid(&mut auction),
        "The assertive jump is no longer available."
    );
    assert_eq!(auction.current_bid, 430_000);
    assert_eq!(auction.log.len(), lines);
}

fn profile(name: &str, bidder_type: BidderType, aggression: u32) -> BidderProfileData {
    BidderProfileData {
        name: name.to_string(),
        bidder_type,
        aggression,
        patience: 400,
        budget_bias: 0,
    }
}

fn seat(max_price: i64, tell: &str) -> RivalSeat {
    RivalSeat {
        max_price,
        pressure_tolerance: 600,
        overbid_tendency: 150,
        tell: tell.to_string(),
        preference: "likes land".to_string(),
        weakness: "hates delay".to_string(),
        danger: "can stretch".to_string(),
        rhythm: "steady".to_string(),
    }
}

#[test]
fn a_new_room_seats_three_rivals_and_opens_below_the_guide() {
    let property = room().property;
    let profiles = vec![
        profile("Ava", BidderType::Investor, 200),
        profile("Ben", BidderType::EgoBidder, 800),
        profile("Cy", BidderType::Developer, 500),
        profile("Dee", BidderType::Renovator, 600),
    ];
    let seats = vec![seat(500_000, "a"), seat(510_000, "b"), seat(520_000, "c")];
    let opening = RoomOpening {
        temperature: AuctionTemperature::SteadyInterest,
        market_heat: 42,
        rng_state: 99,
    };
    let auction = create_auction(
        property,
        &profiles,
        &seats,
        opening,
        480_000,
        ResearchLevel::BuildingInspection,
        WalkawayStyle::Conservative,
    );
    assert_eq!(auction.current_bid, 410_000);
    assert_eq!(auction.reserve_price, 470_000);
    assert_eq!(auction.remaining_ms, 56_000);
    assert_eq!(auction.call_timer_ms, 1_000);
    assert_eq!(auction.temperature, AuctionTemperature::SteadyInterest);
    assert_eq!(auction.market_heat, 42);
    assert_eq!(auction.rng_state, 99);
    assert!(auction.is_running());
    assert!(!auction.has_started);
    assert!(auction.jump_bid_available);
    assert_eq!(auction.player_walkaway_price, 480_000);
    assert_eq!(auction.walkaway_style, WalkawayStyle::Conservative);
    let names: Vec<&str> = auction.bidders.iter().map(|b| b.name.as_str()).collect();
    assert_eq!(names, ["Ben", "Cy", "Dee"]);
    assert_eq!(auction.bidders[0].bidder_type, BidderType::EgoBidder);
    assert_eq!(auction.bidders[0].max_price, 500_000);
    assert_eq!(auction.bidders[0].heat, 63);
    assert_eq!(auction.bidders[2].heat, 56);
    let timers: Vec<i64> = auction.bidders.iter().map(|b| b.reaction_timer_ms).collect();
    assert_eq!(timers, [1_000, 1_550, 2_100]);
    assert_eq!(auction.bidders[1].tell, "b");
    assert_eq!(auction.bidders[1].mood, BidderMood::Watching);
    assert_eq!(auction.log.len(), 1);
    assert_eq!(
        auction.log[0].text,
        "Registration confirmed. Opening call will be $410,000."
    );
}

#[test]
fn a_cheap_home_opens_at_half_its_guide() {
    let mut property = room().property;
    property.guide_price = 50_000;
    let profiles = vec![profile("Ava", BidderType::Investor, 0)];
    let seats = vec![seat(1, "a"), seat(2, "b"), seat(3, "c")];
    let opening = RoomOpening {
        temperature: AuctionTemperature::QuietRoom,
        market_heat: 0,
        rng_state: 1,
    };
    let auction = create_auction(
        property,
        &profiles,
        &seats,
        opening,
        60_000,
        ResearchLevel::StreetScan,
        WalkawayStyle::Balanced,
    );
    assert_eq!(auction.current_bid, 20_000);
    assert!(auction.bidders.iter().all(|b| b.name == "Ava" && b.heat == 35));
}

#[test]
fn rival_bids_are_described_by_how_far_they_reach() {
    let mut auction = room();
    auction.bidders[0].max_price = 400_000;
    place_npc_bid(&mut auction, &rival_bid(0, 420_000));
    assert_eq!(last_line(&auction), "Mara stretches to $420,000.");
    assert!(auction.bidders[0].stretch_bid_used);
    assert_eq!(auction.bidders[0].mood, BidderMood::Stretching);
    place_npc_bid(&mut auction, &rival_bid(1, 450_000));
    assert_eq!(last_line(&auction), "Theo jumps to $450,000.");
    place_npc_bid(&mut auction, &rival_bid(2, 460_000));
    assert_eq!(last_line(&auction), "Ines bids $460,000.");
    let ines = &auction.bidders[2];
    assert_eq!(ines.mood, BidderMood::Interested);
    assert_eq!(ines.bid_count, 1);
    assert_eq!(ines.heat, 47);
    assert_eq!(ines.bid_flash_ms, 1_100);
    assert_eq!(ines.reaction_timer_ms, 2_000);
    assert_eq!(ines.tell, "Checks the numbers again.");
    assert_eq!(auction.last_bidder, Some(BidderActor::Npc(2)));
    assert_eq!(auction.current_bid, 460_000);
}

#[test]
fn quick_resolution_lets_the_rivals_finish_the_room() {
    let mut auction = room();
    auction.is_player_active = false;
    auction.remaining_ms = 4_000;
    let bids = vec![rival_bid(0, 420_000), rival_bid(1, 430_000), rival_bid(0, 480_000)];
    quick_resolve_auction(&mut auction, &bids);
    assert_eq!(auction.status, Some(AuctionStatus::SoldToNpc("Mara".to_string())));
    assert_eq!(auction.current_bid, 480_000);
    assert_eq!(auction.remaining_ms, 0);
    assert_eq!(auction.temperature, AuctionTemperature::FinalCall);
    assert_eq!(auction.overtime_count, 0);
    assert_eq!(auction.bidders[0].bid_count, 2);
    let lines: Vec<&str> = auction.log.iter().map(|entry| entry.text.as_str()).collect();
    assert_eq!(
        lines,
        [
            "Registration confirmed.",
            "You stay out. The remaining bidders resolve the room quickly.",
            "Mara bids $420,000.",
            "Theo bids $430,000.",
            "Mara jumps to $480,000.",
            "Sold to Mara for $480,000."
        ]
    );
}

#[test]
fn quick_resolution_without_bids_passes_in_and_stops_after_twelve() {
    let mut quiet = room();
    quiet.is_player_active = false;
    quick_resolve_auction(&mut quiet, &Vec::new());
    assert_eq!(quiet.status, Some(AuctionStatus::PassedIn));
    assert_eq!(last_line(&quiet), "Auction passes in below reserve.");

    let mut busy = room();
    busy.is_player_active = false;
    let bids: Vec<RivalBid> = (0..20)
        .map(|step| rival_bid(step % 3, 420_000 + 10_000 * step as i64))
        .collect();
    quick_resolve_auction(&mut busy, &bids);
    assert_eq!(busy.current_bid, 530_000);
    assert_eq!(busy.status, Some(AuctionStatus::SoldToNpc("Ines".to_string())));
}

#[test]
fn quick_resolution_waits_for_the_player_to_stop() {
    let mut auction = room();
    quick_resolve_auction(&mut auction, &vec![rival_bid(0, 480_000)]);
    assert_eq!(auction.status, None);
    assert_eq!(auction.current_bid, 410_000);
    assert_eq!(auction.log.len(), 1);
}

fn sold_to_mara(exit: Option<i64>, price: i64) -> Auction {
    let mut auction = room();
    auction.player_walkaway_price = 460_000;
    auction.player_exit_bid = exit;
    auction.is_player_active = exit.is_none();
    auction.current_bid = price;
    auction.status = Some(AuctionStatus::SoldToNpc("Mara".to_string()));
    auction
}

#[test]
fn returning_after_a_disciplined_exit_earns_reputation() {
    let mut screen = Screen::Auction;
    let mut current = Some(sold_to_mara(Some(440_000), 480_000));
    let mut player = Player::new();
    let status = return_to_listings(&mut screen, &mut current, &mut player);
    assert_eq!(
        status.as_deref(),
        Some("Discipline reputation +1 for letting an overheated room win.")
    );
    assert_eq!(screen, Screen::PropertyList);
    assert!(current.is_none());
    assert_eq!(player.reputation, 1);
    assert_eq!(player.career.disciplined_walkaways, 1);
}

#[test]
fn returning_without_discipline_changes_nothing_but_the_screen() {
    let mut screen = Screen::Auction;
    let mut current = Some(sold_to_mara(None, 480_000));
    let mut player = Player::new();
    assert_eq!(return_to_listings(&mut screen, &mut current, &mut player), None);
    assert_eq!(screen, Screen::PropertyList);
    assert!(current.is_none());
    assert_eq!(player.reputation, 0);
    assert_eq!(player.career.disciplined_walkaways, 0);

    let mut nothing = None;
    assert_eq!(return_to_listings(&mut screen, &mut nothing, &mut player), None);
}

#[test]
fn the_result_panel_tells_a_held_walk_away_from_an_outbid_player() {
    let held = rival_win_notice(&sold_to_mara(Some(440_000), 480_000));
    assert_eq!(held.title, "Walk-away Held");
    assert_eq!(
        held.text,
        "Mara bought it for $480,000. Your cash stayed out of a hotter deal."
    );
    assert!(held.discipline_note);

    let outbid = rival_win_notice(&sold_to_mara(None, 450_000));
    assert_eq!(outbid.title, "Outbid At The Hammer");
    assert_eq!(
        outbid.text,
        "Mara held the final bid at $450,000. You kept the paddle down when the last call came."
    );
    assert!(!outbid.discipline_note);
}

#[test]
fn a_counter_within_the_walk_away_is_the_primary_choice() {
    let mut auction = room();
    auction.status = Some(AuctionStatus::PassedIn);
    auction.player_walkaway_price = 480_000;
    let terms = passed_in_terms(&auction, 465_000);
    assert_eq!(terms.offer_text, "$465,000");
    assert_eq!(terms.offer_tone, Palette::Positive);
    assert_eq!(terms.walkaway_gap, "$15,000 below walk-away");
    assert_eq!(
        terms.hint,
        "Test the vendor at the passed-in price, or meet their counter now."
    );
    assert_eq!(terms.hint_tone, Palette::Blue);
    assert_eq!(terms.test_label, "OFFER $410,000");
    assert!(terms.test_open);
    assert!(!terms.stance_known);
    assert_eq!(terms.meet_label, "MEET $465,000");
    assert_eq!(terms.meet_tone, ButtonTone::Primary);
}

#[test]
fn a_counter_above_the_walk_away_is_a_danger_after_the_test_failed() {
    let mut auction = room();
    auction.status = Some(AuctionStatus::PassedIn);
    auction.player_walkaway_price = 450_000;
    auction.post_auction_tested = true;
    auction.player_research_level = ResearchLevel::FullDiligence;
    let terms = passed_in_terms(&auction, 475_000);
    assert_eq!(terms.offer_tone, Palette::Warning);
    assert_eq!(terms.walkaway_gap, "$25,000 above walk-away");
    assert_eq!(
        terms.hint,
        "Your lower offer was rejected. The vendor counter still stands."
    );
    assert_eq!(terms.hint_tone, Palette::Warning);
    assert_eq!(terms.test_label, "OFFER REJECTED");
    assert!(!terms.test_open);
    assert!(terms.stance_known);
    assert_eq!(terms.meet_tone, ButtonTone::Danger);
}

#[test]
fn career_record_is_untouched_by_a_plain_return() {
    let mut screen = Screen::Auction;
    let mut current = Some(room());
    let mut player = Player::new();
    player.career = CareerRecord::default();
    return_to_listings(&mut screen, &mut current, &mut player);
    assert_eq!(player.career.auctions_attended, 0);
}

fn desk(room: Option<Auction>) -> AuctionDesk {
    AuctionDesk {
        screen: Screen::Auction,
        current_auction: room,
        player: Player::new(),
        status: "Registration complete.".to_string(),
        auction_read: Some(("Old read".to_string(), 2_000)),
        auction_beat: None,
        auction_result_open: false,
        auction_focus: None,
        purchase_debrief: None,
    }
}

#[test]
fn without_a_room_the_screen_falls_back_to_the_listings() {
    let mut desk = desk(None);
    assert_eq!(handle_room_action(&mut desk, RoomAction::Bid), None);
    assert_eq!(desk.screen, Screen::PropertyList);
    assert_eq!(desk.status, "Registration complete.");
}

#[test]
fn the_desk_opens_the_calls_and_takes_bids() {
    let mut lobby = room();
    lobby.has_started = false;
    let mut desk = desk(Some(lobby));
    assert_eq!(
        handle_room_action(&mut desk, RoomAction::BeginAuction),
        Some(SoundEffect::Button)
    );
    assert_eq!(
        desk.status,
        "Bidding is live. Tap RAISE, JUMP, WAIT & READ ROOM, or WALK AWAY."
    );
    assert!(desk.current_auction.as_ref().unwrap().has_started);

    assert_eq!(handle_room_action(&mut desk, RoomAction::Bid), Some(SoundEffect::Bid));
    assert_eq!(desk.auction_read, None);
    assert_eq!(
        desk.auction_beat,
        Some(("Your paddle rises. The room turns to you.".to_string(), 4_000))
    );
    assert_eq!(desk.current_auction.as_ref().unwrap().current_bid, 420_000);

    assert_eq!(handle_room_action(&mut desk, RoomAction::JumpBid), Some(SoundEffect::Bid));
    assert_eq!(desk.status, "You assert $440,000. The jump rattles the room.");
    assert_eq!(
        desk.auction_beat,
        Some(("A double step. You challenge the room.".to_string(), 4_000))
    );
}

#[test]
fn waiting_shows_the_read_for_six_seconds() {
    let mut desk = desk(Some(room()));
    let sound = handle_room_action(
        &mut desk,
        RoomAction::Hold(vec![500_000, 430_000, 600_000]),
    );
    assert_eq!(sound, None);
    assert_eq!(
        desk.auction_read,
        Some(("Theo looks uncomfortable at the next call.".to_string(), 6_000))
    );
    assert_eq!(
        desk.status,
        "Held position. Theo looks uncomfortable at the next call."
    );
}

#[test]
fn walking_away_then_resolving_and_returning_credits_discipline() {
    let mut start = room();
    start.player_walkaway_price = 415_000;
    let mut desk = desk(Some(start));
    assert_eq!(
        handle_room_action(&mut desk, RoomAction::WalkAway),
        Some(SoundEffect::Button)
    );
    assert!(!desk.current_auction.as_ref().unwrap().is_player_active);
    assert_eq!(
        handle_room_action(
            &mut desk,
            RoomAction::QuickResolve(vec![rival_bid(2, 480_000)])
        ),
        Some(SoundEffect::Hammer)
    );
    assert_eq!(
        desk.current_auction.as_ref().unwrap().status,
        Some(AuctionStatus::SoldToNpc("Ines".to_string()))
    );
    assert_eq!(handle_room_action(&mut desk, RoomAction::ReviewOutcome), None);
    assert!(desk.auction_result_open);
    assert_eq!(handle_room_action(&mut desk, RoomAction::ReturnToListings), None);
    assert_eq!(desk.screen, Screen::PropertyList);
    assert!(desk.current_auction.is_none());
    assert_eq!(desk.player.reputation, 1);
    assert_eq!(
        desk.status,
        "Discipline reputation +1 for letting an overheated room win."
    );
}

#[test]
fn focusing_a_rival_twice_clears_the_focus() {
    let mut desk = desk(Some(room()));
    handle_room_action(&mut desk, RoomAction::FocusRival(1));
    assert_eq!(desk.auction_focus, Some(1));
    handle_room_action(&mut desk, RoomAction::FocusRival(2));
    assert_eq!(desk.auction_focus, Some(2));
    handle_room_action(&mut desk, RoomAction::FocusRival(2));
    assert_eq!(desk.auction_focus, None);
}

fn book() -> Vec<Property> {
    let mut first = room().property;
    first.id = 4;
    first.address = "4 First Street".to_string();
    let mut second = room().property;
    second.id = 7;
    second.address = "7 Second Street".to_string();
    second.guide_price = 520_000;
    vec![first, second]
}

fn opening() -> RoomOpening {
    RoomOpening {
        temperature: AuctionTemperature::QuietRoom,
        market_heat: 30,
        rng_state: 5,
    }
}

fn three_seats() -> Vec<RivalSeat> {
    vec![seat(600_000, "a"), seat(610_000, "b"), seat(620_000, "c")]
}

#[test]
fn registering_opens_the_room_and_takes_the_lot_off_the_book() {
    let mut desk = desk(None);
    desk.auction_result_open = true;
    desk.auction_focus = Some(2);
    let mut listings = book();
    let mut registrations = 2;
    let mut auctioned = vec![1];
    let profiles = vec![profile("Ava", BidderType::Investor, 300)];
    let sound = start_auction(
        &mut desk,
        &mut listings,
        &mut registrations,
        &mut auctioned,
        7,
        &profiles,
        &three_seats(),
        opening(),
        560_000,
        ResearchLevel::AgentPack,
        WalkawayStyle::Aggressive,
    );
    assert_eq!(sound, Some(SoundEffect::Button));
    assert_eq!(desk.screen, Screen::Auction);
    assert_eq!(
        desk.status,
        "Registration complete. Review the terms, then tap START AUCTION CALLS."
    );
    assert!(!desk.auction_result_open);
    assert_eq!(desk.auction_focus, None);
    assert_eq!(desk.auction_read, None);
    let room = desk.current_auction.as_ref().unwrap();
    assert_eq!(room.property.address, "7 Second Street");
    assert_eq!(room.current_bid, 480_000);
    assert_eq!(room.player_walkaway_price, 560_000);
    assert_eq!(room.walkaway_style, WalkawayStyle::Aggressive);
    assert_eq!(listings.len(), 1);
    assert_eq!(listings[0].id, 4);
    assert_eq!(registrations, 1);
    assert_eq!(auctioned, vec![1, 7]);
    assert_eq!(desk.player.career.auctions_attended, 1);
}

#[test]
fn registering_needs_a_registration_and_a_listed_home() {
    let mut desk = desk(None);
    let mut listings = book();
    let mut registrations = 0;
    let mut auctioned = Vec::new();
    let profiles = vec![profile("Ava", BidderType::Investor, 300)];
    let sound = start_auction(
        &mut desk,
        &mut listings,
        &mut registrations,
        &mut auctioned,
        7,
        &profiles,
        &three_seats(),
        opening(),
        560_000,
        ResearchLevel::AgentPack,
        WalkawayStyle::Balanced,
    );
    assert_eq!(sound, None);
    assert_eq!(
        desk.status,
        "This week's registrations are used. Tap ADVANCE WEEK on RECOVER."
    );
    assert_eq!(listings.len(), 2);

    let mut desk = self::desk(None);
    registrations = 2;
    let sound = start_auction(
        &mut desk,
        &mut listings,
        &mut registrations,
        &mut auctioned,
        99,
        &profiles,
        &three_seats(),
        opening(),
        560_000,
        ResearchLevel::AgentPack,
        WalkawayStyle::Balanced,
    );
    assert_eq!(sound, None);
    assert!(desk.current_auction.is_none());
    assert_eq!(desk.status, "Registration complete.");
    assert_eq!(listings.len(), 2);
    assert_eq!(registrations, 2);
    assert!(auctioned.is_empty());
}

fn won_room() -> Auction {
    let mut room = room();
    room.property.id = 7;
    room.current_bid = 480_000;
    room.last_bidder = Some(BidderActor::Player);
    room.status = Some(AuctionStatus::SoldToPlayer);
    room.sold_post_auction = true;
    room
}

fn terms() -> SettlementTerms {
    SettlementTerms {
        estimated_resale: 540_000,
        purchase_fees: 21_000,
        sale_fees: 13_000,
        cash_to_settle: 117_000,
        contract_deposit: 96_000,
        weekly_rent: 560,
        weekly_rental_cashflow: -40,
    }
}

#[test]
fn settling_a_win_moves_the_home_into_the_portfolio() {
    let mut desk = desk(Some(won_room()));
    let mut listings = book();
    let mut index = 0;
    let finance = FinanceCheck {
        can_buy: true,
        cash_after_settle: 103_000,
        headroom_after: 90_000,
    };
    let sound = settle_purchase(&mut desk, &mut listings, &mut index, &terms(), &finance);
    assert_eq!(sound, Some(SoundEffect::Hammer));
    assert_eq!(desk.screen, Screen::Portfolio);
    assert!(desk.current_auction.is_none());
    assert_eq!(
        desk.status,
        "Property settled. Check the margin before buying upgrades."
    );
    assert_eq!(desk.player.cash, 220_000 - 117_000);
    assert_eq!(desk.player.debt, 384_000);
    assert_eq!(desk.player.properties.len(), 1);
    let home = &desk.player.properties[0];
    assert_eq!(home.purchase_price, 480_000);
    assert_eq!(home.purchase_fees, 21_000);
    assert_eq!(home.deposit_paid, 96_000);
    assert_eq!(home.debt, 384_000);
    assert_eq!(home.walkaway_price, 600_000);
    assert_eq!(desk.player.career.homes_bought, 1);
    assert_eq!(desk.player.career.post_auction_buys, 1);
    assert_eq!(index, 0);
    assert_eq!(listings.len(), 1);
    assert_eq!(listings[0].id, 4);
    let debrief = desk.purchase_debrief.as_ref().unwrap();
    assert_eq!(debrief.cash_after_settle, 103_000);
    assert_eq!(debrief.fees, 34_000);
}

#[test]
fn settling_needs_a_win_the_cash_and_the_bank() {
    let finance = FinanceCheck {
        can_buy: false,
        cash_after_settle: 103_000,
        headroom_after: -12_000,
    };
    let mut desk = desk(Some(won_room()));
    let mut listings = book();
    let mut index = 3;
    assert_eq!(
        settle_purchase(&mut desk, &mut listings, &mut index, &terms(), &finance),
        None
    );
    assert_eq!(
        desk.status,
        "Finance failed: $103,000 cash after settle, -$12,000 bank headroom."
    );
    assert!(desk.current_auction.is_some());
    assert_eq!(desk.player.cash, 220_000);
    assert_eq!(index, 3);

    let mut lost = self::desk(Some(room()));
    assert_eq!(
        settle_purchase(&mut lost, &mut listings, &mut index, &terms(), &finance),
        None
    );
    assert_eq!(lost.status, "Registration complete.");
    assert_eq!(listings.len(), 2);
}

fn passed_in_room() -> Auction {
    let mut auction = room();
    auction.current_bid = 450_000;
    auction.status = Some(AuctionStatus::PassedIn);
    auction.is_player_active = true;
    auction
}

#[test]
fn returning_notes_every_rival_of_the_finished_room() {
    let mut screen = Screen::Auction;
    let mut finished = sold_to_mara(None, 480_000);
    finished.bidders[0].stretch_bid_used = true;
    let mut current = Some(finished);
    let mut player = Player::new();
    player.rival_notebook.push(RivalRecord {
        name: "Theo".to_string(),
        bidder_type: BidderType::Investor,
        auctions_met: 2,
        auctions_won: 1,
        highest_room_price: 520_000,
        stretches_seen: 0,
    });
    return_to_listings(&mut screen, &mut current, &mut player);
    let book = &player.rival_notebook;
    assert_eq!(book.len(), 3);
    assert_eq!(book[0].name, "Theo");
    assert_eq!(book[0].auctions_met, 3);
    assert_eq!(book[0].auctions_won, 1);
    assert_eq!(book[0].highest_room_price, 520_000);
    assert_eq!(book[1].name, "Mara");
    assert_eq!(book[1].auctions_met, 1);
    assert_eq!(book[1].auctions_won, 1);
    assert_eq!(book[1].highest_room_price, 480_000);
    assert_eq!(book[1].stretches_seen, 1);
    assert_eq!(book[2].name, "Ines");
    assert_eq!(book[2].auctions_won, 0);
    assert_eq!(book[2].stretches_seen, 0);
}

#[test]
fn the_notebook_counts_a_rival_once_per_room() {
    let mut notebook = Vec::new();
    let finished = sold_to_mara(None, 480_000);
    record_completed_room(&mut notebook, &finished);
    record_completed_room(&mut notebook, &finished);
    assert_eq!(notebook.len(), 3);
    assert_eq!(notebook[0].auctions_met, 2);
    assert_eq!(notebook[0].auctions_won, 2);
    assert_eq!(notebook[2].auctions_met, 2);
    assert_eq!(notebook[2].auctions_won, 0);
}

#[test]
fn meeting_the_counteroffer_buys_the_passed_in_home() {
    let mut desk = desk(Some(passed_in_room()));
    assert_eq!(
        handle_room_action(&mut desk, RoomAction::AcceptCounteroffer(465_000)),
        None
    );
    let auction = desk.current_auction.as_ref().unwrap();
    assert_eq!(auction.status, Some(AuctionStatus::SoldToPlayer));
    assert_eq!(auction.current_bid, 465_000);
    assert!(auction.sold_post_auction);
    assert_eq!(
        desk.status,
        "Vendor accepted. Review the numbers, then tap SETTLE PURCHASE."
    );
}

#[test]
fn a_counteroffer_needs_a_pass_in() {
    let mut desk = desk(Some(room()));
    handle_room_action(&mut desk, RoomAction::AcceptCounteroffer(465_000));
    let auction = desk.current_auction.as_ref().unwrap();
    assert_eq!(auction.status, None);
    assert_eq!(auction.current_bid, 410_000);
    assert_eq!(desk.status, "Registration complete.");
}

#[test]
fn a_vendor_test_is_spent_once_and_reports_the_answer() {
    let mut desk = desk(Some(passed_in_room()));
    handle_room_action(
        &mut desk,
        RoomAction::TestVendor { counter: 470_000, vendor_accepts: false },
    );
    assert_eq!(
        desk.status,
        "Vendor rejected the test offer and holds at $470,000."
    );
    let auction = desk.current_auction.as_ref().unwrap();
    assert!(auction.post_auction_tested);
    assert_eq!(auction.status, Some(AuctionStatus::PassedIn));

    handle_room_action(
        &mut desk,
        RoomAction::TestVendor { counter: 470_000, vendor_accepts: true },
    );
    assert_eq!(
        desk.status,
        "Vendor rejected the test offer and holds at $470,000."
    );
    assert_eq!(
        desk.current_auction.as_ref().unwrap().status,
        Some(AuctionStatus::PassedIn)
    );
}

#[test]
fn an_accepted_vendor_test_buys_at_the_room_price() {
    let mut desk = desk(Some(passed_in_room()));
    handle_room_action(
        &mut desk,
        RoomAction::TestVendor { counter: 470_000, vendor_accepts: true },
    );
    assert_eq!(
        desk.status,
        "Vendor accepted your $450,000 offer. Review, then tap SETTLE PURCHASE."
    );
    let auction = desk.current_auction.as_ref().unwrap();
    assert_eq!(auction.status, Some(AuctionStatus::SoldToPlayer));
    assert_eq!(auction.current_bid, 450_000);
    assert!(auction.sold_post_auction);
    assert!(auction.post_auction_tested);
}

#[test]
fn reaching_reserve_calls_the_home_on_the_market_and_tightens_the_step() {
    let mut auction = room();
    auction.current_bid = 460_000;
    place_player_bid(&mut auction);
    assert_eq!(auction.current_bid, 470_000);
    assert!(auction.on_market_announced);
    assert_eq!(auction.bid_increment, 5_000);
    assert_eq!(last_line(&auction), "You bid $470,000.");
    place_player_bid(&mut auction);
    assert_eq!(auction.current_bid, 475_000);
    assert_eq!(auction.bid_increment, 5_000);
}

#[test]
fn below_reserve_the_room_keeps_its_opening_step() {
    let mut auction = room();
    place_player_bid(&mut auction);
    assert!(!auction.on_market_announced);
    assert_eq!(auction.bid_increment, 10_000);
    let mut rival = room();
    rival.current_bid = 450_000;
    place_npc_bid(&mut rival, &rival_bid(1, 470_000));
    assert!(rival.on_market_announced);
    assert_eq!(rival.bid_increment, 5_000);
    assert_eq!(last_line(&rival), "Theo jumps to $470,000.");
}

#[test]
fn a_quick_resolution_tightens_the_step_once_reserve_is_reached() {
    let mut auction = room();
    auction.is_player_active = false;
    quick_resolve_auction(
        &mut auction,
        &vec![rival_bid(0, 470_000), rival_bid(1, 480_000), rival_bid(0, 485_000)],
    );
    assert!(auction.on_market_announced);
    assert_eq!(auction.bid_increment, 5_000);
    let lines: Vec<&str> = auction.log.iter().map(|entry| entry.text.as_str()).collect();
    assert_eq!(
        lines[2..],
        [
            "Mara jumps to $470,000.",
            "Theo jumps to $480,000.",
            "Mara bids $485,000.",
            "Sold to Mara for $485,000."
        ]
    );
}
