use auction_game::save::{default_auction_registrations, load_failure_status, resume_point};
use auction_game::screens::Screen;

#[test]
fn missing_quicksave_is_explained_on_the_title_screen() {
    assert_eq!(
        load_failure_status("No save found for slot: quicksave"),
        "Load failed: No save found for slot: quicksave"
    );
}

#[test]
fn invalid_quicksave_is_explained_on_the_title_screen() {
    assert_eq!(
        load_failure_status("Deserialization error: missing field `player`"),
        "Load failed: Deserialization error: missing field `player`"
    );
}

#[test]
fn an_empty_error_still_reads_as_a_load_failure() {
    assert_eq!(load_failure_status(""), "Load failed: ");
}

#[test]
fn older_saves_regain_both_weekly_registrations() {
    assert_eq!(default_auction_registrations(), 2);
}

#[test]
fn a_loaded_game_resumes_at_a_position_that_exists() {
    let point = resume_point(0, 9, 6, 4, 2, Screen::Title, false);
    assert_eq!(point.week, 1);
    assert_eq!(point.market_index, 5);
    assert_eq!(point.portfolio_index, 1);
    assert_eq!(point.screen, Screen::Dashboard);
    let point = resume_point(7, 2, 6, 3, 0, Screen::Auction, false);
    assert_eq!(point.week, 7);
    assert_eq!(point.market_index, 2);
    assert_eq!(point.portfolio_index, 0);
    assert_eq!(point.screen, Screen::PropertyList);
    let point = resume_point(7, 2, 6, 0, 3, Screen::Auction, true);
    assert_eq!(point.screen, Screen::Auction);
    let point = resume_point(7, 2, 6, 0, 3, Screen::PropertyDetail(4), true);
    assert_eq!(point.screen, Screen::PropertyDetail(4));
}
