use vstd::prelude::*;
use crate::model::auction::{Auction, AuctionStatus};
use crate::model::bidder::{Bidder, RivalRecord};
use crate::model::player::str_equal;

verus! {

/// A counter one higher, stopping at the largest `u32`.
pub open spec fn counted(count: u32) -> u32 {
    if count < u32::MAX {
        (count + 1) as u32
    } else {
        count
    }
}

/// Adds one to a counter, stopping at the largest `u32`.
fn count_one(count: u32) -> (next: u32)
    ensures
        next == counted(count),
{
    if count < u32::MAX {
        count + 1
    } else {
        count
    }
}

/// Whether `rival` bought the home in the finished room.
pub open spec fn won_room(auction: Auction, rival: Bidder) -> bool {
    auction.status matches Some(AuctionStatus::SoldToNpc(name)) && name@ == rival.name@
}

/// A rival's notebook entry once this room is noted: one more room met, one
/// more won if the rival bought the home, the highest room price it has sat
/// in, and one more stretch seen if it stretched past its own ceiling.
pub open spec fn noted_record(record: RivalRecord, rival: Bidder, auction: Auction) -> RivalRecord {
    RivalRecord {
        auctions_met: counted(record.auctions_met),
        auctions_won: if won_room(auction, rival) {
            counted(record.auctions_won)
        } else {
            record.auctions_won
        },
        highest_room_price: if auction.current_bid > record.highest_room_price {
            auction.current_bid
        } else {
            record.highest_room_price
        },
        stretches_seen: if rival.stretch_bid_used {
            counted(record.stretches_seen)
        } else {
            record.stretches_seen
        },
        ..record
    }
}

/// A rival met for the first time.
pub open spec fn first_record(rival: Bidder) -> RivalRecord {
    RivalRecord {
        name: rival.name,
        bidder_type: rival.bidder_type,
        auctions_met: 0,
        auctions_won: 0,
        highest_room_price: 0,
        stretches_seen: 0,
    }
}

/// Whether entry `index` is the first one of the notebook kept on `name`.
pub open spec fn first_entry(book: Seq<RivalRecord>, name: Seq<char>, index: int) -> bool {
    &&& 0 <= index < book.len()
    &&& book[index].name@ == name
    &&& forall|k: int| 0 <= k < index ==> #[trigger] book[k].name@ != name
}

/// The notebook once `rival` of this room is noted: its entry is updated, or
/// a new entry is added at the end for a rival met for the first time.
pub open spec fn rival_noted(
    before: Seq<RivalRecord>,
    after: Seq<RivalRecord>,
    rival: Bidder,
    auction: Auction,
) -> bool {
    if exists|index: int| #[trigger] first_entry(before, rival.name@, index) {
        exists|index: int|
            #[trigger] first_entry(before, rival.name@, index) && after == before.update(
                index,
                noted_record(before[index], rival, auction),
            )
    } else {
        after == before.push(noted_record(first_record(rival), rival, auction))
    }
}

/// The notebook once a finished room is noted: each rival of the room, in
/// table order, as `rival_noted` says.
pub open spec fn room_noted(before: Seq<RivalRecord>, after: Seq<RivalRecord>, auction: Auction) -> bool {
    exists|books: Seq<Seq<RivalRecord>>|
        #[trigger] notebook_chain(books, before, after, auction)
}

/// The notebook after each rival in turn.
pub open spec fn notebook_chain(
    books: Seq<Seq<RivalRecord>>,
    before: Seq<RivalRecord>,
    after: Seq<RivalRecord>,
    auction: Auction,
) -> bool {
    &&& books.len() == auction.bidders@.len() + 1
    &&& books[0] == before
    &&& books.last() == after
    &&& forall|j: int|
        #![trigger books[j]]
        0 <= j < auction.bidders@.len() ==> rival_noted(
            books[j],
            books[j + 1],
            auction.bidders@[j],
            auction,
        )
}

/// Noting a rival of a finished room, in figures. A rival met for the first
/// time gets a new entry at the end under its name and type: one room met,
/// one room won if it bought the home (none otherwise), the room's price as
/// its highest, and one stretch if it stretched. A rival already in the
/// notebook has its first entry updated: one more room met, one more won if
/// it bought the home, the higher of its old highest and this room's price,
/// one more stretch if it stretched (each count stopping at the largest
/// `u32`); every other entry is kept.
pub proof fn lemma_noting_a_rival(
    before: Seq<RivalRecord>,
    after: Seq<RivalRecord>,
    rival: Bidder,
    auction: Auction,
)
    requires
        rival_noted(before, after, rival, auction),
    ensures
        ({
            let bought = auction.status matches Some(AuctionStatus::SoldToNpc(name))
                && name@ == rival.name@;
            let known = exists|index: int| #[trigger] first_entry(before, rival.name@, index);
            &&& !known ==> {
                &&& after.len() == before.len() + 1
                &&& after.drop_last() == before
                &&& after.last().name == rival.name
                &&& after.last().bidder_type == rival.bidder_type
                &&& after.last().auctions_met == 1
                &&& after.last().auctions_won == (if bought {
                    1u32
                } else {
                    0u32
                })
                &&& after.last().highest_room_price == (if auction.current_bid > 0 {
                    auction.current_bid
                } else {
                    0i64
                })
                &&& after.last().stretches_seen == (if rival.stretch_bid_used {
                    1u32
                } else {
                    0u32
                })
            }
            &&& known ==> exists|index: int|
                {
                    &&& #[trigger] first_entry(before, rival.name@, index)
                    &&& after.len() == before.len()
                    &&& forall|k: int|
                        0 <= k < before.len() && k != index ==> #[trigger] after[k] == before[k]
                    &&& after[index].name == before[index].name
                    &&& after[index].bidder_type == before[index].bidder_type
                    &&& after[index].auctions_met == (if before[index].auctions_met < u32::MAX {
                        before[index].auctions_met + 1
                    } else {
                        before[index].auctions_met as int
                    })
                    &&& after[index].auctions_won == (if bought && before[index].auctions_won
                        < u32::MAX {
                        before[index].auctions_won + 1
                    } else {
                        before[index].auctions_won as int
                    })
                    &&& after[index].highest_room_price == (if auction.current_bid
                        > before[index].highest_room_price {
                        auction.current_bid
                    } else {
                        before[index].highest_room_price
                    })
                    &&& after[index].stretches_seen == (if rival.stretch_bid_used
                        && before[index].stretches_seen < u32::MAX {
                        before[index].stretches_seen + 1
                    } else {
                        before[index].stretches_seen as int
                    })
                }
        }),
{
    if exists|index: int| #[trigger] first_entry(before, rival.name@, index) {
        let index = choose|index: int|
            #[trigger] first_entry(before, rival.name@, index) && after == before.update(
                index,
                noted_record(before[index], rival, auction),
            );
        assert(first_entry(before, rival.name@, index));
    } else {
        assert(after.drop_last() =~= before);
    }
}

/// The first entry kept on `name`, if any.
fn find_entry(book: &Vec<RivalRecord>, name: &str) -> (found: Option<usize>)
    ensures
        found matches Some(index) ==> first_entry(book@, name@, index as int),
        found is None ==> !exists|index: int| #[trigger] first_entry(book@, name@, index),
{
    let mut i: usize = 0;
    while i < book.len()
        invariant
            i <= book@.len(),
            forall|k: int| 0 <= k < i ==> #[trigger] book@[k].name@ != name@,
        decreases book@.len() - i,
    {
        if str_equal(book[i].name.as_str(), name) {
            return Some(i);
        }
        i += 1;
    }
    proof {
        assert forall|index: int| !#[trigger] first_entry(book@, name@, index) by {
            if 0 <= index < book@.len() {
                assert(book@[index].name@ != name@);
            }
        }
    }
    None
}

/// Notes one rival of a finished room in an entry.
fn note(record: &mut RivalRecord, rival: &Bidder, auction: &Auction)
    ensures
        *final(record) == noted_record(*old(record), *rival, *auction),
{
    let won = match &auction.status {
        Some(AuctionStatus::SoldToNpc(name)) => str_equal(name.as_str(), rival.name.as_str()),
        _ => false,
    };
    record.auctions_met = count_one(record.auctions_met);
    if won {
        record.auctions_won = count_one(record.auctions_won);
    }
    if auction.current_bid > record.highest_room_price {
        record.highest_room_price = auction.current_bid;
    }
    if rival.stretch_bid_used {
        record.stretches_seen = count_one(record.stretches_seen);
    }
}

/// Records a completed room in the player's notebook: every rival met is
/// noted (see `rival_noted`), so recurring rivals build a history of rooms
/// met and won, the highest price they sat in, and their stretches.
pub fn record_completed_room(notebook: &mut Vec<RivalRecord>, auction: &Auction)
    ensures
        room_noted(old(notebook)@, final(notebook)@, *auction),
{
    let ghost mut books: Seq<Seq<RivalRecord>> = seq![notebook@];
    let ghost start = notebook@;
    let mut j: usize = 0;
    while j < auction.bidders.len()
        invariant
            j <= auction.bidders@.len(),
            books.len() == j + 1,
            books[0] == start,
            books.last() == notebook@,
            start == old(notebook)@,
            forall|k: int|
                #![trigger books[k]]
                0 <= k < j ==> rival_noted(books[k], books[k + 1], auction.bidders@[k], *auction),
        decreases auction.bidders@.len() - j,
    {
        let ghost before = notebook@;
        let rival = &auction.bidders[j];
        match find_entry(notebook, rival.name.as_str()) {
            Some(index) => {
                note(&mut notebook[index], rival, auction);
                proof {
                    assert(notebook@ =~= before.update(
                        index as int,
                        noted_record(before[index as int], *rival, *auction),
                    ));
                }
            },
            None => {
                let mut record = RivalRecord {
                    name: rival.name.clone(),
                    bidder_type: rival.bidder_type,
                    auctions_met: 0,
                    auctions_won: 0,
                    highest_room_price: 0,
                    stretches_seen: 0,
                };
                note(&mut record, rival, auction);
                notebook.push(record);
            },
        }
        proof {
            books = books.push(notebook@);
            assert(books[j as int] == before);
        }
        j += 1;
    }
    proof {
        assert(notebook_chain(books, start, notebook@, *auction));
    }
}

} // verus!
