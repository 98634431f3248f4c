//! Pairing connections with characters.
//!
//! The log reports a connection and the character that comes with it on two
//! separate lines, and nothing on either line names the other. The
//! correlator keeps the identifiers and the names that still wait for their
//! other half in two queues and pairs them in the order of their arrival:
//! the oldest identifier with the oldest name. That is a guess, and a wrong
//! one when two players connect at the same moment; the log offers nothing
//! better.

use crate::event::{ConnectionData, Event, EventView, SpawnView, Timestamp};
use crate::parser::{parse, parsed, ParseError};
use crate::state::{player_of, plays, State};
use vstd::prelude::*;

verus! {

broadcast use vstd::std_specs::hash::group_hash_axioms;

/// What the correlator tells the outside about an event.
#[derive(Debug, PartialEq, Eq)]
pub enum Notification {
    /// A connection was paired with a character.
    Connected { steam_id: u64, character: String },
    /// A player in the table left.
    Disconnected { steam_id: u64, character: String },
    /// The server refused a player.
    Rejected { steam_id: u64 },
    /// The server saved the world.
    WorldSaved { timestamp: Timestamp, time_spent: String },
    /// A character died. `player` is who played it, where the table says.
    Died { character: String, player: Option<u64> },
}

/// What a [`Notification`] holds, with text as sequences of characters.
pub enum NotificationView {
    Connected { steam_id: u64, character: Seq<char> },
    Disconnected { steam_id: u64, character: Seq<char> },
    Rejected { steam_id: u64 },
    WorldSaved { timestamp: Timestamp, time_spent: Seq<char> },
    Died { character: Seq<char>, player: Option<u64> },
}

impl View for Notification {
    type V = NotificationView;

    open spec fn view(&self) -> NotificationView {
        match self {
            Notification::Connected { steam_id, character } => NotificationView::Connected {
                steam_id: *steam_id,
                character: character@,
            },
            Notification::Disconnected { steam_id, character } => NotificationView::Disconnected {
                steam_id: *steam_id,
                character: character@,
            },
            Notification::Rejected { steam_id } => NotificationView::Rejected {
                steam_id: *steam_id,
            },
            Notification::WorldSaved { timestamp, time_spent } => NotificationView::WorldSaved {
                timestamp: *timestamp,
                time_spent: time_spent@,
            },
            Notification::Died { character, player } => NotificationView::Died {
                character: character@,
                player: *player,
            },
        }
    }
}

impl Clone for Notification {
    fn clone(&self) -> (copy: Self)
        ensures
            copy == *self,
    {
        match self {
            Notification::Connected { steam_id, character } => Notification::Connected {
                steam_id: *steam_id,
                character: character.clone(),
            },
            Notification::Disconnected { steam_id, character } => Notification::Disconnected {
                steam_id: *steam_id,
                character: character.clone(),
            },
            Notification::Rejected { steam_id } => Notification::Rejected { steam_id: *steam_id },
            Notification::WorldSaved { timestamp, time_spent } => Notification::WorldSaved {
                timestamp: *timestamp,
                time_spent: time_spent.clone(),
            },
            Notification::Died { character, player } => Notification::Died {
                character: character.clone(),
                player: *player,
            },
        }
    }
}

/// The names in `names`, each as a sequence of characters.
pub open spec fn names_view(names: Seq<String>) -> Seq<Seq<char>> {
    Seq::new(names.len(), |i: int| names[i]@)
}

/// The notifications in `notes`, each as its view.
pub open spec fn notes_view(notes: Seq<Notification>) -> Seq<NotificationView> {
    Seq::new(notes.len(), |i: int| notes[i]@)
}

/// What a [`Correlator`] holds.
#[verifier::ext_equal]
pub struct CorrelatorView {
    /// The identifiers that wait for a character, oldest first.
    pub pending_ids: Seq<u64>,
    /// The characters that wait for an identifier, oldest first.
    pub pending_characters: Seq<Seq<char>>,
    /// Who plays whom.
    pub table: Map<u64, Seq<char>>,
}

impl CorrelatorView {
    /// Nothing waits, nobody plays.
    pub open spec fn empty() -> CorrelatorView {
        CorrelatorView {
            pending_ids: Seq::empty(),
            pending_characters: Seq::empty(),
            table: Map::empty(),
        }
    }

    /// At most one of the two queues holds anything: whatever could be
    /// paired has been.
    pub open spec fn settled(self) -> bool {
        self.pending_ids.len() == 0 || self.pending_characters.len() == 0
    }

    /// An identifier and a character both wait.
    pub open spec fn can_pair(self) -> bool {
        self.pending_ids.len() > 0 && self.pending_characters.len() > 0
    }

    /// The oldest identifier and the oldest character leave their queues
    /// and enter the table together.
    pub open spec fn paired(self) -> CorrelatorView
        recommends
            self.can_pair(),
    {
        CorrelatorView {
            pending_ids: self.pending_ids.drop_first(),
            pending_characters: self.pending_characters.drop_first(),
            table: self.table.insert(self.pending_ids[0], self.pending_characters[0]),
        }
    }

    /// The notification of the pairing that `paired` makes.
    pub open spec fn pairing(self) -> NotificationView
        recommends
            self.can_pair(),
    {
        NotificationView::Connected {
            steam_id: self.pending_ids[0],
            character: self.pending_characters[0],
        }
    }

    /// Pairs for as long as an identifier and a character both wait.
    pub open spec fn reconciled(self) -> (CorrelatorView, Seq<NotificationView>)
        decreases self.pending_ids.len(),
    {
        if self.can_pair() {
            let (end, notes) = self.paired().reconciled();
            (end, seq![self.pairing()] + notes)
        } else {
            (self, Seq::empty())
        }
    }

    /// The correlator after `event`, and what it tells the outside.
    pub open spec fn step(self, event: EventView) -> (CorrelatorView, Seq<NotificationView>) {
        match event {
            EventView::UserConnected(data) => CorrelatorView {
                pending_ids: self.pending_ids.push(data.steam_id),
                ..self
            }.reconciled(),
            EventView::UserDisconnected(data) => if self.table.contains_key(data.steam_id) {
                (
                    CorrelatorView { table: self.table.remove(data.steam_id), ..self },
                    seq![
                        NotificationView::Disconnected {
                            steam_id: data.steam_id,
                            character: self.table[data.steam_id],
                        },
                    ],
                )
            } else {
                (self, Seq::empty())
            },
            EventView::IncorrectPasswordGiven(data) => (
                CorrelatorView { pending_ids: without(self.pending_ids, data.steam_id), ..self },
                seq![NotificationView::Rejected { steam_id: data.steam_id }],
            ),
            EventView::WorldSaved(data) => (
                self,
                seq![
                    NotificationView::WorldSaved {
                        timestamp: data.timestamp,
                        time_spent: data.time_spent,
                    },
                ],
            ),
            EventView::CharacterSpawned(data) => if plays(self.table, data.character) {
                self.reconciled()
            } else {
                CorrelatorView {
                    pending_characters: self.pending_characters.push(data.character),
                    ..self
                }.reconciled()
            },
            EventView::CharacterDied(data) => (
                self,
                seq![
                    NotificationView::Died {
                        character: data.character,
                        player: player_of(self.table, data.character),
                    },
                ],
            ),
        }
    }
}

/// `ids` without any entry equal to `id`, the rest in their order.
pub open spec fn without(ids: Seq<u64>, id: u64) -> Seq<u64> {
    ids.filter(|other: u64| other != id)
}

/// Copies `ids` without any entry equal to `id`.
fn others(ids: &Vec<u64>, id: u64) -> (kept: Vec<u64>)
    ensures
        kept@ == without(ids@, id),
{
    let mut kept: Vec<u64> = Vec::new();
    let mut i: usize = 0;
    proof {
        reveal(Seq::filter);
    }
    while i < ids.len()
        invariant
            i <= ids.len(),
            kept@ == without(ids@.take(i as int), id),
        decreases ids.len() - i,
    {
        proof {
            reveal(Seq::filter);
            assert(ids@.take(i + 1).drop_last() =~= ids@.take(i as int));
            assert(ids@.take(i + 1).last() == ids[i as int]);
        }
        if ids[i] != id {
            kept.push(ids[i]);
        }
        i = i + 1;
    }
    assert(ids@.take(i as int) =~= ids@);
    kept
}

/// The state of the pairing: who waits, and who plays whom.
#[derive(Debug)]
pub struct Correlator {
    pending_ids: Vec<u64>,
    pending_characters: Vec<String>,
    state: State,
}

impl View for Correlator {
    type V = CorrelatorView;

    closed spec fn view(&self) -> CorrelatorView {
        CorrelatorView {
            pending_ids: self.pending_ids@,
            pending_characters: names_view(self.pending_characters@),
            table: self.state@,
        }
    }
}

impl Correlator {
    /// A correlator that has seen no event.
    pub fn new() -> (correlator: Correlator)
        ensures
            correlator@ == CorrelatorView::empty(),
    {
        let correlator = Correlator {
            pending_ids: Vec::new(),
            pending_characters: Vec::new(),
            state: State::new(),
        };
        assert(correlator@ =~= CorrelatorView::empty());
        correlator
    }

    /// The table of players.
    pub fn state(&self) -> (state: &State)
        ensures
            state@ == self@.table,
    {
        &self.state
    }

    /// The identifiers that wait for a character, oldest first.
    pub fn pending_ids(&self) -> (ids: &Vec<u64>)
        ensures
            ids@ == self@.pending_ids,
    {
        &self.pending_ids
    }

    /// The characters that wait for an identifier, oldest first.
    pub fn pending_characters(&self) -> (names: &Vec<String>)
        ensures
            names_view(names@) == self@.pending_characters,
    {
        &self.pending_characters
    }

    /// Pairs for as long as an identifier and a character both wait.
    fn reconcile(&mut self) -> (notes: Vec<Notification>)
        ensures
            final(self)@ == old(self)@.reconciled().0,
            notes_view(notes@) == old(self)@.reconciled().1,
    {
        let ghost start = self@;
        let mut notes: Vec<Notification> = Vec::new();
        assert(notes_view(notes@) =~= Seq::<NotificationView>::empty());
        while self.pending_ids.len() > 0 && self.pending_characters.len() > 0
            invariant
                self@.reconciled().0 == start.reconciled().0,
                notes_view(notes@) + self@.reconciled().1 == start.reconciled().1,
            decreases self.pending_ids.len(),
        {
            let ghost before = self@;
            let ghost told = notes_view(notes@);
            let ghost waiting = self.pending_characters@;
            let ghost table = self.state.table@;
            let steam_id = self.pending_ids.remove(0);
            let character = self.pending_characters.remove(0);
            self.state.table.insert(steam_id, character.clone());
            notes.push(Notification::Connected { steam_id, character });
            proof {
                assert(before.can_pair());
                assert(self@.pending_ids =~= before.pending_ids.drop_first());
                assert(self@.pending_characters =~= before.pending_characters.drop_first());
                assert(self@.table =~= before.table.insert(steam_id, character@));
                assert(self@ =~= before.paired());
                assert(notes_view(notes@) =~= told.push(before.pairing()));
                assert(told.push(before.pairing()) + before.paired().reconciled().1 =~= told + (
                seq![before.pairing()] + before.paired().reconciled().1));
            }
        }
        proof {
            assert(!self@.can_pair());
            assert(notes_view(notes@) + Seq::<NotificationView>::empty() =~= notes_view(notes@));
        }
        notes
    }

    /// Takes in one event and returns what to tell the outside about it.
    ///
    /// A connection joins the queue of identifiers; a character that no
    /// player in the table has joins the queue of names; after either, what
    /// can be paired is paired. A refusal takes the identifier out of its
    /// queue. A disconnection takes the player out of the table, and says so
    /// only where the table had the player. A save and a death change
    /// nothing.
    pub fn apply(&mut self, event: Event) -> (notes: Vec<Notification>)
        ensures
            final(self)@ == old(self)@.step(event@).0,
            notes_view(notes@) == old(self)@.step(event@).1,
    {
        match event {
            Event::UserConnected(data) => {
                self.pending_ids.push(data.steam_id);
                self.reconcile()
            },
            Event::UserDisconnected(data) => {
                let ghost before = self@;
                let mut notes: Vec<Notification> = Vec::new();
                match self.state.table.remove(&data.steam_id) {
                    Some(character) => {
                        notes.push(
                            Notification::Disconnected { steam_id: data.steam_id, character },
                        );
                        assert(self@.table =~= before.table.remove(data.steam_id));
                        assert(notes_view(notes@) =~= before.step(event@).1);
                    },
                    None => {
                        assert(self@.table =~= before.table);
                        assert(notes_view(notes@) =~= before.step(event@).1);
                    },
                }
                notes
            },
            Event::IncorrectPasswordGiven(data) => {
                let kept = others(&self.pending_ids, data.steam_id);
                self.pending_ids = kept;
                let mut notes: Vec<Notification> = Vec::new();
                notes.push(Notification::Rejected { steam_id: data.steam_id });
                assert(notes_view(notes@) =~= old(self)@.step(event@).1);
                notes
            },
            Event::WorldSaved(data) => {
                let mut notes: Vec<Notification> = Vec::new();
                notes.push(
                    Notification::WorldSaved {
                        timestamp: data.timestamp,
                        time_spent: data.time_spent,
                    },
                );
                assert(notes_view(notes@) =~= old(self)@.step(event@).1);
                notes
            },
            Event::CharacterSpawned(data) => {
                let ghost before = self@;
                if self.state.player(data.character.as_str()).is_none() {
                    self.pending_characters.push(data.character);
                    assert(self@.pending_characters =~= before.pending_characters.push(
                        data.character@,
                    ));
                }
                self.reconcile()
            },
            Event::CharacterDied(data) => {
                let player = self.state.player(data.character.as_str());
                let mut notes: Vec<Notification> = Vec::new();
                notes.push(Notification::Died { character: data.character, player });
                assert(notes_view(notes@) =~= old(self)@.step(event@).1);
                notes
            },
        }
    }

    /// Reads one line of the log and takes in the event that it reports.
    ///
    /// A line that reports nothing, and one that cannot be read, leave the
    /// correlator as it was.
    pub fn ingest(&mut self, line: &str) -> (r: Result<Vec<Notification>, ParseError>)
        ensures
            match parsed(line@) {
                Ok(Some(event)) => r is Ok && final(self)@ == old(self)@.step(event).0
                    && notes_view(r->Ok_0@) == old(self)@.step(event).1,
                Ok(None) => r is Ok && r->Ok_0@.len() == 0 && final(self)@ == old(self)@,
                Err(e) => r == Err::<Vec<Notification>, ParseError>(e) && final(self)@ == old(
                    self,
                )@,
            },
    {
        match parse(line) {
            Ok(Some(event)) => Ok(self.apply(event)),
            Ok(None) => Ok(Vec::new()),
            Err(e) => Err(e),
        }
    }
}

/// Reconciliation leaves nothing that could still be paired.
pub proof fn lemma_reconciled_is_settled(s: CorrelatorView)
    ensures
        s.reconciled().0.settled(),
    decreases s.pending_ids.len(),
{
    if s.can_pair() {
        lemma_reconciled_is_settled(s.paired());
    }
}

/// Where nothing can be paired, reconciliation does nothing.
pub proof fn lemma_settled_is_reconciled(s: CorrelatorView)
    requires
        s.settled(),
    ensures
        s.reconciled() == (s, Seq::<NotificationView>::empty()),
{
}

/// Every event leaves a settled correlator settled, and a connection or a
/// character settles any correlator.
pub proof fn lemma_step_keeps_settled(s: CorrelatorView, event: EventView)
    ensures
        s.settled() ==> s.step(event).0.settled(),
        event is UserConnected || event is CharacterSpawned ==> s.step(event).0.settled(),
{
    broadcast use Seq::lemma_filter_len;

    match event {
        EventView::UserConnected(data) => {
            lemma_reconciled_is_settled(
                CorrelatorView { pending_ids: s.pending_ids.push(data.steam_id), ..s },
            );
        },
        EventView::CharacterSpawned(data) => {
            lemma_reconciled_is_settled(s);
            lemma_reconciled_is_settled(
                CorrelatorView {
                    pending_characters: s.pending_characters.push(data.character),
                    ..s
                },
            );
        },
        EventView::IncorrectPasswordGiven(data) => {
            assert(without(s.pending_ids, data.steam_id).len() <= s.pending_ids.len());
        },
        _ => {},
    }
}

/// Pairing is first in, first out, on the side of the identifiers: a
/// character that nobody plays yet goes to the identifier that has waited
/// longest, and the other identifiers keep their places.
pub proof fn lemma_character_goes_to_oldest_identifier(s: CorrelatorView, data: SpawnView)
    requires
        s.pending_ids.len() > 0,
        s.pending_characters.len() == 0,
        !plays(s.table, data.character),
    ensures
        s.step(EventView::CharacterSpawned(data)) == (
            CorrelatorView {
                pending_ids: s.pending_ids.drop_first(),
                pending_characters: Seq::empty(),
                table: s.table.insert(s.pending_ids[0], data.character),
            },
            seq![
                NotificationView::Connected {
                    steam_id: s.pending_ids[0],
                    character: data.character,
                },
            ],
        ),
{
    let waiting = CorrelatorView {
        pending_characters: s.pending_characters.push(data.character),
        ..s
    };
    assert(waiting.can_pair());
    assert(waiting.paired().pending_characters =~= Seq::<Seq<char>>::empty());
    lemma_settled_is_reconciled(waiting.paired());
    assert(seq![waiting.pairing()] + Seq::<NotificationView>::empty() =~= seq![waiting.pairing()]);
}

/// Pairing is first in, first out, on the side of the characters: a new
/// connection gets the character that has waited longest, and the other
/// characters keep their places.
pub proof fn lemma_identifier_goes_to_oldest_character(s: CorrelatorView, data: ConnectionData)
    requires
        s.pending_ids.len() == 0,
        s.pending_characters.len() > 0,
    ensures
        s.step(EventView::UserConnected(data)) == (
            CorrelatorView {
                pending_ids: Seq::empty(),
                pending_characters: s.pending_characters.drop_first(),
                table: s.table.insert(data.steam_id, s.pending_characters[0]),
            },
            seq![
                NotificationView::Connected {
                    steam_id: data.steam_id,
                    character: s.pending_characters[0],
                },
            ],
        ),
{
    let waiting = CorrelatorView { pending_ids: s.pending_ids.push(data.steam_id), ..s };
    assert(waiting.can_pair());
    assert(waiting.paired().pending_ids =~= Seq::<u64>::empty());
    lemma_settled_is_reconciled(waiting.paired());
    assert(seq![waiting.pairing()] + Seq::<NotificationView>::empty() =~= seq![waiting.pairing()]);
}

/// Two connections and then two characters of different names, on a
/// correlator that has seen nothing: the first connection gets the first
/// character and the second gets the second, never the other way round.
pub proof fn lemma_pairs_in_order_of_arrival(
    first: ConnectionData,
    second: ConnectionData,
    one: SpawnView,
    other: SpawnView,
)
    requires
        one.character != other.character,
    ensures
        ({
            let s1 = CorrelatorView::empty().step(EventView::UserConnected(first)).0;
            let s2 = s1.step(EventView::UserConnected(second)).0;
            let s3 = s2.step(EventView::CharacterSpawned(one)).0;
            let s4 = s3.step(EventView::CharacterSpawned(other)).0;
            &&& s4.table == Map::<u64, Seq<char>>::empty().insert(
                first.steam_id,
                one.character,
            ).insert(second.steam_id, other.character)
            &&& s4.pending_ids.len() == 0
            &&& s4.pending_characters.len() == 0
        }),
{
    let s0 = CorrelatorView::empty();
    let s1 = s0.step(EventView::UserConnected(first)).0;
    lemma_settled_is_reconciled(CorrelatorView { pending_ids: s0.pending_ids.push(first.steam_id), ..s0 });
    assert(s1.pending_ids =~= seq![first.steam_id]);
    let s2 = s1.step(EventView::UserConnected(second)).0;
    lemma_settled_is_reconciled(
        CorrelatorView { pending_ids: s1.pending_ids.push(second.steam_id), ..s1 },
    );
    assert(s2.pending_ids =~= seq![first.steam_id, second.steam_id]);
    assert(s2.table =~= Map::<u64, Seq<char>>::empty());
    assert(!plays(s2.table, one.character));
    lemma_character_goes_to_oldest_identifier(s2, one);
    let s3 = s2.step(EventView::CharacterSpawned(one)).0;
    assert(s3.pending_ids =~= seq![second.steam_id]);
    assert(!plays(s3.table, other.character)) by {
        assert forall|id: u64| #[trigger] s3.table.contains_key(id) implies s3.table[id]
            != other.character by {
            assert(id == first.steam_id);
        }
    }
    lemma_character_goes_to_oldest_identifier(s3, other);
    let s4 = s3.step(EventView::CharacterSpawned(other)).0;
    assert(s4.pending_ids =~= Seq::<u64>::empty());
}

/// A refusal takes every entry of the refused identifier out of the queue,
/// keeps the others in their order, and touches nothing else.
pub proof fn lemma_refused_is_forgotten(s: CorrelatorView, data: ConnectionData)
    ensures
        ({
            let (t, notes) = s.step(EventView::IncorrectPasswordGiven(data));
            &&& !t.pending_ids.contains(data.steam_id)
            &&& forall|id: u64|
                id != data.steam_id && s.pending_ids.contains(id) ==> #[trigger] t.pending_ids.contains(
                    id,
                )
            &&& t.pending_ids == without(s.pending_ids, data.steam_id)
            &&& t.pending_characters == s.pending_characters
            &&& t.table == s.table
            &&& notes == seq![NotificationView::Rejected { steam_id: data.steam_id }]
        }),
{
    broadcast use Seq::lemma_filter_pred;
    broadcast use Seq::lemma_filter_contains;

    let kept = without(s.pending_ids, data.steam_id);
    if kept.contains(data.steam_id) {
        let i = choose|i: int| 0 <= i < kept.len() && kept[i] == data.steam_id;
        assert((|other: u64| other != data.steam_id)(kept[i]));
    }
    assert forall|id: u64| id != data.steam_id && s.pending_ids.contains(id) implies kept.contains(
        id,
    ) by {
        let i = choose|i: int| 0 <= i < s.pending_ids.len() && s.pending_ids[i] == id;
        assert((|other: u64| other != data.steam_id)(s.pending_ids[i]));
        assert(s.pending_ids.filter(|other: u64| other != data.steam_id).contains(
            s.pending_ids[i],
        ));
    }
}

/// A connection that is refused before any character could be paired with
/// it leaves no trace: the identifier is in neither the queue nor the
/// table, and the table is as it was.
pub proof fn lemma_refused_connection_leaves_no_trace(
    s: CorrelatorView,
    connected: ConnectionData,
    refused: ConnectionData,
)
    requires
        connected.steam_id == refused.steam_id,
        s.pending_characters.len() == 0,
        !s.table.contains_key(connected.steam_id),
    ensures
        ({
            let t = s.step(EventView::UserConnected(connected)).0;
            let u = t.step(EventView::IncorrectPasswordGiven(refused)).0;
            &&& t.table == s.table
            &&& u.table == s.table
            &&& !u.table.contains_key(refused.steam_id)
            &&& !u.pending_ids.contains(refused.steam_id)
        }),
{
    let waiting = CorrelatorView { pending_ids: s.pending_ids.push(connected.steam_id), ..s };
    lemma_settled_is_reconciled(waiting);
    lemma_refused_is_forgotten(waiting, refused);
}

/// Disconnecting is idempotent: the first of two disconnections in a row
/// takes the player out of the table and tells of it if the player was
/// there; the second finds nothing to do and tells nothing.
pub proof fn lemma_disconnect_twice(s: CorrelatorView, first: ConnectionData, second: ConnectionData)
    requires
        first.steam_id == second.steam_id,
    ensures
        ({
            let (t, told) = s.step(EventView::UserDisconnected(first));
            let (u, again) = t.step(EventView::UserDisconnected(second));
            &&& !t.table.contains_key(first.steam_id)
            &&& t.table == s.table.remove(first.steam_id)
            &&& t.pending_ids == s.pending_ids
            &&& t.pending_characters == s.pending_characters
            &&& told.len() == if s.table.contains_key(first.steam_id) {
                1nat
            } else {
                0nat
            }
            &&& u == t
            &&& again.len() == 0
        }),
{
    let t = s.step(EventView::UserDisconnected(first)).0;
    if !s.table.contains_key(first.steam_id) {
        assert(s.table.remove(first.steam_id) =~= s.table);
    }
}

/// Reconciliation takes nobody out of the table.
pub proof fn lemma_reconciled_keeps_players(s: CorrelatorView)
    ensures
        s.table.dom().subset_of(s.reconciled().0.table.dom()),
        s.reconciled().1.len() == 0 ==> s.reconciled().0 == s,
    decreases s.pending_ids.len(),
{
    if s.can_pair() {
        lemma_reconciled_keeps_players(s.paired());
    }
}

/// Only a pairing puts a player into the table, and only a disconnection
/// takes one out. A save and a death change nothing at all; a refusal
/// changes the queue of identifiers alone; a disconnection adds nobody; a
/// connection and a character remove nobody, and where they give rise to
/// no notification they have paired nothing.
pub proof fn lemma_table_changes(s: CorrelatorView, event: EventView)
    ensures
        event is WorldSaved || event is CharacterDied ==> s.step(event).0 == s,
        event is IncorrectPasswordGiven ==> s.step(event).0.table == s.table,
        event is UserDisconnected ==> s.step(event).0.table.submap_of(s.table),
        !(event is UserDisconnected) ==> s.table.dom().subset_of(s.step(event).0.table.dom()),
        s.step(event).1.len() == 0 ==> s.step(event).0.table == s.table,
{
    match event {
        EventView::UserConnected(data) => {
            lemma_reconciled_keeps_players(
                CorrelatorView { pending_ids: s.pending_ids.push(data.steam_id), ..s },
            );
        },
        EventView::CharacterSpawned(data) => {
            lemma_reconciled_keeps_players(s);
            lemma_reconciled_keeps_players(
                CorrelatorView {
                    pending_characters: s.pending_characters.push(data.character),
                    ..s
                },
            );
        },
        _ => {},
    }
}

} // verus!
