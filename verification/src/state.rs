//! The table of connected players: which Steam identifier plays which
//! character.

use crate::decimal::{decimal_text, push_decimal};
use std::collections::HashMap;
use vstd::prelude::*;
use vstd::std_specs::iter::IteratorSpec;

verus! {

broadcast use vstd::std_specs::hash::group_hash_axioms;

/// The players that are known to be connected, each with the name of the
/// character that they play.
#[derive(Debug)]
pub struct State {
    pub table: HashMap<u64, String>,
}

/// Where Steam shows the profile of a player: the identifier follows.
pub const STEAM_COMMUNITY: &'static str = "https://steamcommunity.com/profiles/";

/// The address of the Steam profile of `steam_id`.
pub open spec fn profile_url_text(steam_id: u64) -> Seq<char> {
    STEAM_COMMUNITY@ + decimal_text(steam_id as nat)
}

/// The line of the listing for the player `steam_id`: the name of the
/// character, the address of the player's profile, and a line feed.
pub open spec fn listing_line(table: Map<u64, Seq<char>>, steam_id: u64) -> Seq<char> {
    table[steam_id] + " - "@ + profile_url_text(steam_id) + "\n"@
}

/// The lines of the listing for the players `order`, in that order.
pub open spec fn listing_lines(table: Map<u64, Seq<char>>, order: Seq<u64>) -> Seq<char>
    decreases order.len(),
{
    if order.len() == 0 {
        Seq::empty()
    } else {
        listing_lines(table, order.drop_last()) + listing_line(table, order.last())
    }
}

/// `text` lists the players of `table`: one line for each player, each
/// player once, in some order, and then an empty line; or one sentence
/// where the table is empty.
pub open spec fn is_listing(table: Map<u64, Seq<char>>, text: Seq<char>) -> bool {
    if table.dom().len() == 0 {
        text == "No users connected.\n"@
    } else {
        exists|order: Seq<u64>|
            order.no_duplicates() && order.to_set() == table.dom() && text == #[trigger] listing_lines(
                table,
                order,
            ) + "\n"@
    }
}

/// The address of the Steam profile of `steam_id`.
pub fn profile_url(steam_id: u64) -> (url: String)
    ensures
        url@ == profile_url_text(steam_id),
{
    let mut url = STEAM_COMMUNITY.to_owned();
    push_decimal(&mut url, steam_id);
    url
}

/// Some player in `table` plays `character`.
pub open spec fn plays(table: Map<u64, Seq<char>>, character: Seq<char>) -> bool {
    exists|id: u64| #[trigger] table.contains_key(id) && table[id] == character
}

/// `id` plays `character`, and no player with a smaller identifier does.
pub open spec fn is_first_player(table: Map<u64, Seq<char>>, character: Seq<char>, id: u64) -> bool {
    &&& table.contains_key(id)
    &&& table[id] == character
    &&& forall|other: u64| #[trigger]
        table.contains_key(other) && table[other] == character ==> id <= other
}

/// The player of `character`: of those who play a character of that name,
/// the one with the smallest identifier. `None` where nobody does.
pub open spec fn player_of(table: Map<u64, Seq<char>>, character: Seq<char>) -> Option<u64> {
    if plays(table, character) {
        Some(choose|id: u64| is_first_player(table, character, id))
    } else {
        None
    }
}

/// A character has one first player at most.
pub proof fn lemma_first_player_is_player_of(
    table: Map<u64, Seq<char>>,
    character: Seq<char>,
    id: u64,
)
    requires
        is_first_player(table, character, id),
    ensures
        player_of(table, character) == Some(id),
{
    assert(table.contains_key(id) && table[id] == character);
    let chosen = choose|id: u64| is_first_player(table, character, id);
    assert(is_first_player(table, character, chosen));
    assert(table.contains_key(chosen));
}

impl View for State {
    type V = Map<u64, Seq<char>>;

    open spec fn view(&self) -> Map<u64, Seq<char>> {
        self.table@.map_values(|name: String| name@)
    }
}

impl Clone for State {
    fn clone(&self) -> (copy: Self)
        ensures
            copy@ == self@,
    {
        State { table: self.table.clone() }
    }
}

impl State {
    /// A table without players.
    pub fn new() -> (state: State)
        ensures
            state@ == Map::<u64, Seq<char>>::empty(),
    {
        let state = State { table: HashMap::new() };
        assert(state@ =~= Map::<u64, Seq<char>>::empty());
        state
    }

    /// Looks up who plays `character`. Where several players have a
    /// character of that name, the smallest identifier is returned.
    pub fn player(&self, character: &str) -> (found: Option<u64>)
        ensures
            found == player_of(self@, character@),
    {
        let wanted = character.to_owned();
        let mut best: Option<u64> = None;
        for entry in it: self.table.iter()
            invariant
                wanted@ == character@,
                it.seq() == self.table.iter().remaining(),
                best matches Some(id) ==> self.table@.contains_key(id) && self.table@[id]@
                    == character@,
                forall|j: int|
                    0 <= j < it.index() && (#[trigger] it.seq()[j]).1@ == character@ ==> best
                        is Some && best->0 <= *it.seq()[j].0,
        {
            let (id, name) = entry;
            if *name == wanted {
                match best {
                    Some(other) if other <= *id => {},
                    _ => {
                        best = Some(*id);
                    },
                }
            }
        }
        proof {
            let table = self@;
            let entries = self.table.iter().remaining();
            assert forall|id: u64| #[trigger]
                table.contains_key(id) && table[id] == character@ implies best is Some && best->0
                <= id by {
                assert(self.table@.contains_key(id));
                assert(entries.contains((&id, &self.table@[id])));
                let j = choose|j: int| 0 <= j < entries.len() && entries[j] == (&id, &self.table@[id]);
                assert(entries[j].1@ == character@);
            }
            match best {
                Some(id) => {
                    assert(table.contains_key(id) && table[id] == character@);
                    lemma_first_player_is_player_of(table, character@, id);
                },
                None => {
                    assert(!plays(table, character@));
                },
            }
        }
        best
    }

    /// Lists the players for a person to read, in no particular order.
    pub fn listing(&self) -> (text: String)
        ensures
            is_listing(self@, text@),
    {
        let ghost table = self@;
        assert(table.dom() =~= self.table@.dom());
        if self.table.len() == 0 {
            return "No users connected.\n".to_owned();
        }
        let mut text = String::new();
        let ghost entries = self.table.iter().remaining();
        let ghost order = Seq::new(entries.len(), |j: int| *entries[j].0);
        assert(listing_lines(table, order.take(0)) =~= text@);
        for entry in it: self.table.iter()
            invariant
                table == self@,
                it.seq() == entries,
                entries == self.table.iter().remaining(),
                order == Seq::new(entries.len(), |j: int| *entries[j].0),
                text@ == listing_lines(table, order.take(it.index())),
        {
            let (steam_id, character) = entry;
            let ghost before = text@;
            let ghost i = it.index();
            text.append(character.as_str());
            text.append(" - ");
            text.append(STEAM_COMMUNITY);
            push_decimal(&mut text, *steam_id);
            text.append("\n");
            proof {
                assert(order.take(i + 1).drop_last() =~= order.take(i));
                assert(order.take(i + 1).last() == *steam_id);
                assert(table.contains_key(*steam_id) && table[*steam_id] == character@);
                assert(text@ =~= before + listing_line(table, *steam_id));
            }
        }
        text.append("\n");
        proof {
            assert(order.take(order.len() as int) =~= order);
            assert forall|i: int, j: int|
                0 <= i < order.len() && 0 <= j < order.len() && i != j implies order[i]
                != order[j] by {
                if order[i] == order[j] {
                    assert(*entries[i].1 == self.table@[order[i]]);
                    assert(*entries[j].1 == self.table@[order[j]]);
                    assert(entries[i] == entries[j]);
                }
            }
            assert forall|id: u64| order.to_set().contains(id) <==> table.dom().contains(id) by {
                if table.dom().contains(id) {
                    assert(self.table@.contains_key(id));
                    assert(entries.contains((&id, &self.table@[id])));
                    let j = choose|j: int|
                        0 <= j < entries.len() && entries[j] == (&id, &self.table@[id]);
                    assert(order[j] == id);
                }
                if order.to_set().contains(id) {
                    let j = choose|j: int| 0 <= j < order.len() && order[j] == id;
                    assert(self.table@.contains_key(*entries[j].0));
                }
            }
            assert(order.to_set() =~= table.dom());
            assert(text@ == listing_lines(table, order) + "\n"@);
        }
        text
    }

    /// The Steam identifier of the player of `character`, or 0 where the
    /// table holds no such character.
    pub fn steamid_from_character(&self, character: &str) -> (id: u64)
        ensures
            id == match player_of(self@, character@) {
                Some(id) => id,
                None => 0,
            },
    {
        match self.player(character) {
            Some(id) => id,
            None => 0,
        }
    }
}

} // verus!
