# auction_game

The rules of Auction House Tycoon, a property-auction strategy game, as a
library verified with Verus: research and valuation, the auction room's
actions (opening a room, bidding, the once-per-room jump, waiting to read the
room, walking away, late-bid overtime, a quick resolution by the rivals and
the hammer), the live room's tick (the clock, the rivals' preparation,
hesitation, rechecks, withdrawals and bids, the vendor bid and the hammer at
zero), the pass-in negotiation, the rival notebook, the auctioneer's calls and
rival reactions, the decisions behind the screens, the investor's ledger, and
save repair. Every public function states its result in its contract. The
frame loop that calls the tick lives with the caller; what the rivals' private
models decide on a tick (ceiling, commitment roll, reaction time, tells) and
whether the auctioneer makes a vendor bid are handed to the tick as values.

## Layout

- `src/model/` — listings, research levels and archetypes (`property`), the
  auction room (`auction`), rivals (`bidder`) and the investor (`player`).
- `src/sim/research.rs` — what each level of due diligence reveals: known
  risk, value range, reserve estimate, walk-away, research price, repair
  allowance, comparable sales and the written summaries.
- `src/sim/valuation.rs` — rounding to increments and to the nearest $1,000.
- `src/sim/auction_sim.rs` — creating a room, opening the calls, the player's
  bid and jump, rival bids and the quick resolution, stopping, waiting and
  reading the room, late-bid overtime, the hammer, discipline reputation, the
  log.
- `src/sim/auction_tick.rs` — one tick of a live room (`update_auction`):
  clock and flashes, each rival's turn, the call timer and vendor bid, the
  hammer when the clock runs out.
- `src/sim/post_auction.rs` — meeting the vendor's counteroffer after a
  pass-in, and the one test offer at the room price.
- `src/sim/rival_notebook.rs` — noting each rival of a finished room:
  appearances, wins, stretches and the highest room price.
- `src/sim/debrief.rs` — what a hammer win means before settlement.
- `src/ui/` — money formatting, placeholder replacement, call phases and the
  bid-pressure rail (`auction_view`), rival reactions and live calls
  (`auction_reactions`).
- `src/screens/` — the decisions behind the screens: the auction desk (what
  each action on the auction screen does, registering for a room, settling a
  win, the result panels, the passed-in negotiation), the walk-away panel and
  research purchases, listing filters and the weekly auction book, portfolio
  paging, holding labels, leasing, renovation and sale steps, loan and rent
  review statuses, the week's status and the end-of-season ledger, and the
  text, badges and colours they show.
- `src/save.rs`, `src/audio.rs` — save status text and resume repair, sound
  seeds.
- `app/main.rs` — loads the authored auction voice (JSON) and prints the
  calls of a room.

## Units

Money is in whole dollars. Clocks are in milliseconds. Defect risk is in
hundredths; behavioural ratios, suburb modifiers, range widths and defect
penalty rates are in thousandths.

## Inputs supplied by the caller

The market valuation model (`MarketRead`), each research level's list price
and range width, each walk-away style's buffer, each condition's defect
penalty rate, the archetypes' authored lines, the rivals' effective ceilings,
the settlement figures of a win, the auction voice, and for a room its
opening temperature, market heat and random seed, each seat's ceiling,
temperament and tells, the rivals' bids in a quick resolution, each rival's
reading on a live tick (`RivalTick`), the auctioneer's call (`RoomCall`) and
the room's temperature, the vendor's answer to a test offer, the bank's
check of a purchase, a sale campaign's outcome, renovation quotes, leasing
fees and the week's carrying costs are passed in as values.
