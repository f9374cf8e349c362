use vstd::prelude::*;

use crate::rules::cards::{Card, CardSelector, Cards, CardsPosition};
use crate::rules::events::UpdateGameState;
use crate::rules::states::petals::{Petals, PetalsPosition};
use crate::rules::states::players_data::PlayersData;
use crate::rules::states::Phase;
use crate::rules::PlayerPos;

verus! {

// ---------------------------------------------------------------------------
// Mathematical model of a board as one player sees it.
// ---------------------------------------------------------------------------

/// A pile as a viewer sees it: either its cards, or only how many there are.
pub enum PileModel {
    Open(Seq<Card>),
    Hidden(nat),
}

impl PileModel {
    pub open spec fn len(self) -> nat {
        match self {
            PileModel::Open(cards) => cards.len(),
            PileModel::Hidden(length) => length,
        }
    }
}

/// One player's side of the board.
pub struct PlayerModel {
    pub hand: PileModel,
    pub deck: PileModel,
    pub playing: Seq<Card>,
    pub enhancements: Seq<Card>,
    pub played_pile: Seq<Card>,
    pub discard_pile: PileModel,
    pub vigor: i32,
    pub aura: Petals,
    pub life: Petals,
    pub flare: Petals,
}

/// The whole board.
pub struct BoardModel {
    pub turn: u32,
    pub turn_player: PlayerPos,
    pub phase: Phase,
    pub distance: Petals,
    pub dust: Petals,
    pub player_states: PlayersData<PlayerModel>,
}

/// Taking the card that `sel` names out of a pile. Only an open pile can give
/// a card; a selector past the end gives an error. On an error the pile is
/// unchanged.
pub open spec fn pile_take(pile: PileModel, sel: CardSelector) -> (
    Result<Card, InvalidGameViewUpdateError>,
    PileModel,
) {
    match pile {
        PileModel::Hidden(_) => (Err(InvalidGameViewUpdateError::VisibilityMismatch), pile),
        PileModel::Open(cards) => {
            let i = sel.index_in(cards.len() as int);
            if i >= cards.len() {
                (Err(InvalidGameViewUpdateError::CardSelectorOutOfBounds), pile)
            } else {
                (Ok(cards[i]), PileModel::Open(cards.remove(i)))
            }
        },
    }
}

/// Inputs on which taking a card from a pile is defined: the last card of an
/// empty open pile has no index.
pub open spec fn pile_take_defined(pile: PileModel, sel: CardSelector) -> bool {
    pile is Open ==> !(sel is Last && pile.len() == 0)
}

/// Putting a card at the place `sel` names. An open pile takes the card at
/// that index (an index past the end, or a card the viewer may not see, is
/// an error); a hidden pile only grows by one. On an error the pile is
/// unchanged.
pub open spec fn pile_put(pile: PileModel, sel: CardSelector, card: Option<Card>) -> (
    Result<(), InvalidGameViewUpdateError>,
    PileModel,
) {
    match pile {
        PileModel::Open(cards) => {
            let i = sel.index_in(cards.len() as int);
            if i > cards.len() {
                (Err(InvalidGameViewUpdateError::CardSelectorOutOfBounds), pile)
            } else {
                match card {
                    Some(c) => (Ok(()), PileModel::Open(cards.insert(i, c))),
                    None => (Err(InvalidGameViewUpdateError::VisibilityMismatch), pile),
                }
            }
        },
        PileModel::Hidden(length) => (Ok(()), PileModel::Hidden(length + 1)),
    }
}

/// Inputs on which putting a card is defined: the last card of an empty pile
/// has no index, and a hidden pile's length must stay a `usize`.
pub open spec fn pile_put_defined(pile: PileModel, sel: CardSelector) -> bool {
    &&& !(sel is Last && pile.len() == 0)
    &&& pile is Hidden ==> pile.len() < usize::MAX
}

/// Taking an unseen card from a pile: only a hidden pile can give one, and it
/// shrinks by one.
pub open spec fn pile_take_hidden(pile: PileModel) -> (
    Result<(), InvalidGameViewUpdateError>,
    PileModel,
) {
    match pile {
        PileModel::Open(_) => (Err(InvalidGameViewUpdateError::VisibilityMismatch), pile),
        PileModel::Hidden(length) => (Ok(()), PileModel::Hidden((length - 1) as nat)),
    }
}

/// Inputs on which taking an unseen card is defined: a hidden pile must not
/// be empty.
pub open spec fn pile_take_hidden_defined(pile: PileModel) -> bool {
    pile is Hidden ==> pile.len() > 0
}

impl PlayerModel {
    /// The pile of this player at `pos` (the owner named in `pos` is not read).
    pub open spec fn pile(self, pos: CardsPosition) -> PileModel {
        match pos {
            CardsPosition::Hand(_) => self.hand,
            CardsPosition::Playing(_) => PileModel::Open(self.playing),
            CardsPosition::Deck(_) => self.deck,
            CardsPosition::Enhancements(_) => PileModel::Open(self.enhancements),
            CardsPosition::Played(_) => PileModel::Open(self.played_pile),
            CardsPosition::Discards(_) => self.discard_pile,
        }
    }

    /// Open cards of a pile that is always open.
    pub open spec fn open_or(pile: PileModel, cards: Seq<Card>) -> Seq<Card> {
        match pile {
            PileModel::Open(c) => c,
            PileModel::Hidden(_) => cards,
        }
    }

    /// The same side of the board with the pile at `pos` replaced. A pile
    /// that is always open keeps its cards if handed a hidden pile.
    pub open spec fn with_pile(self, pos: CardsPosition, pile: PileModel) -> PlayerModel {
        match pos {
            CardsPosition::Hand(_) => PlayerModel { hand: pile, ..self },
            CardsPosition::Playing(_) => PlayerModel {
                playing: Self::open_or(pile, self.playing),
                ..self
            },
            CardsPosition::Deck(_) => PlayerModel { deck: pile, ..self },
            CardsPosition::Enhancements(_) => PlayerModel {
                enhancements: Self::open_or(pile, self.enhancements),
                ..self
            },
            CardsPosition::Played(_) => PlayerModel {
                played_pile: Self::open_or(pile, self.played_pile),
                ..self
            },
            CardsPosition::Discards(_) => PlayerModel { discard_pile: pile, ..self },
        }
    }

    /// Taking a card from one of this player's piles.
    pub open spec fn take(self, sel: CardSelector) -> (
        Result<Card, InvalidGameViewUpdateError>,
        PlayerModel,
    ) {
        let pos = sel.position();
        let (r, pile) = pile_take(self.pile(pos), sel);
        (r, self.with_pile(pos, pile))
    }

    /// Putting a card into one of this player's piles.
    pub open spec fn put(self, sel: CardSelector, card: Option<Card>) -> (
        Result<(), InvalidGameViewUpdateError>,
        PlayerModel,
    ) {
        let pos = sel.position();
        let (r, pile) = pile_put(self.pile(pos), sel, card);
        (r, self.with_pile(pos, pile))
    }

    /// Taking an unseen card from one of this player's piles.
    pub open spec fn take_hidden(self, pos: CardsPosition) -> (
        Result<(), InvalidGameViewUpdateError>,
        PlayerModel,
    ) {
        let (r, pile) = pile_take_hidden(self.pile(pos));
        (r, self.with_pile(pos, pile))
    }
}

impl BoardModel {
    /// The heap of petals at `pos`.
    pub open spec fn petals(self, pos: PetalsPosition) -> Petals {
        match pos {
            PetalsPosition::Distance => self.distance,
            PetalsPosition::Dust => self.dust,
            PetalsPosition::Aura(p) => self.player_states[p].aura,
            PetalsPosition::Flare(p) => self.player_states[p].flare,
            PetalsPosition::Life(p) => self.player_states[p].life,
        }
    }

    /// The same board with the heap at `pos` replaced.
    pub open spec fn with_petals(self, pos: PetalsPosition, petals: Petals) -> BoardModel {
        match pos {
            PetalsPosition::Distance => BoardModel { distance: petals, ..self },
            PetalsPosition::Dust => BoardModel { dust: petals, ..self },
            PetalsPosition::Aura(p) => BoardModel {
                player_states: self.player_states.with(
                    p,
                    PlayerModel { aura: petals, ..self.player_states[p] },
                ),
                ..self
            },
            PetalsPosition::Flare(p) => BoardModel {
                player_states: self.player_states.with(
                    p,
                    PlayerModel { flare: petals, ..self.player_states[p] },
                ),
                ..self
            },
            PetalsPosition::Life(p) => BoardModel {
                player_states: self.player_states.with(
                    p,
                    PlayerModel { life: petals, ..self.player_states[p] },
                ),
                ..self
            },
        }
    }

    /// The pile at `pos`.
    pub open spec fn pile(self, pos: CardsPosition) -> PileModel {
        self.player_states[pos.owner()].pile(pos)
    }

    /// The same board with the player's side `p` replaced.
    pub open spec fn with_player(self, p: PlayerPos, player: PlayerModel) -> BoardModel {
        BoardModel { player_states: self.player_states.with(p, player), ..self }
    }

    /// Total petals on the board.
    pub open spec fn total_petals(self) -> int {
        self.distance.count + self.dust.count + self.player_states[PlayerPos::P1].aura.count
            + self.player_states[PlayerPos::P1].flare.count
            + self.player_states[PlayerPos::P1].life.count
            + self.player_states[PlayerPos::P2].aura.count
            + self.player_states[PlayerPos::P2].flare.count
            + self.player_states[PlayerPos::P2].life.count
    }

    /// Inputs on which applying `update` is defined (no arithmetic leaves its
    /// machine type, and no selector names the last card of an empty pile).
    pub open spec fn update_defined(self, update: UpdateGameState) -> bool {
        match update {
            UpdateGameState::TransferPetals { from, to, amount } => {
                let f = self.petals(from);
                f.count >= amount ==> {
                    let t = self.with_petals(
                        from,
                        Petals { count: (f.count - amount) as u32, ..f },
                    ).petals(to);
                    t.max is None ==> t.count + amount <= u32::MAX
                }
            },
            UpdateGameState::AddToVigor { player, diff } => {
                self.player_states[player].vigor + diff <= i32::MAX
            },
            UpdateGameState::TransferCard { from, to } => {
                let owner = from.position().owner();
                let (r, player) = self.player_states[owner].take(from);
                &&& pile_take_defined(self.pile(from.position()), from)
                &&& r is Ok ==> pile_put_defined(
                    self.with_player(owner, player).pile(to.position()),
                    to,
                )
            },
            UpdateGameState::TransferCardFromHidden { from, to, card } => {
                let owner = from.owner();
                let (r, player) = self.player_states[owner].take_hidden(from);
                &&& pile_take_hidden_defined(self.pile(from))
                &&& r is Ok ==> pile_put_defined(
                    self.with_player(owner, player).pile(to.position()),
                    to,
                )
            },
            _ => true,
        }
    }

    /// Putting a card at `to` on this board.
    pub open spec fn put_card(self, to: CardSelector, card: Option<Card>) -> (
        Result<(), InvalidGameViewUpdateError>,
        BoardModel,
    ) {
        let owner = to.position().owner();
        let (r, player) = self.player_states[owner].put(to, card);
        (r, self.with_player(owner, player))
    }

    /// The result of applying `update` to this board, and the board after it.
    ///
    /// - A petal transfer fails with `InvalidPetalTransfer` when the source
    ///   has fewer petals than moved, or when the target would go over its
    ///   capacity; the board is then unchanged.
    /// - Adding to vigor fails with `NegativeVigor` when vigor would go below
    ///   zero; the board is then unchanged.
    /// - A card transfer takes the selected card out of an open pile and puts
    ///   it at the target place. A hidden source is a `VisibilityMismatch`, a
    ///   selector past the end is `CardSelectorOutOfBounds`. When taking
    ///   succeeded and putting fails, the card has already left its source.
    /// - A transfer from a hidden pile shrinks that pile by one and puts the
    ///   given card (if any) at the target; an open source is a
    ///   `VisibilityMismatch`, as is an unknown card put into an open pile.
    pub open spec fn after_update(self, update: UpdateGameState) -> (
        Result<(), InvalidGameViewUpdateError>,
        BoardModel,
    ) {
        match update {
            UpdateGameState::SetTurn { turn, turn_player } => (
                Ok(()),
                BoardModel { turn, turn_player, ..self },
            ),
            UpdateGameState::SetPhase(phase) => (Ok(()), BoardModel { phase, ..self }),
            UpdateGameState::TransferPetals { from, to, amount } => {
                let f = self.petals(from);
                if f.count < amount {
                    (Err(InvalidGameViewUpdateError::InvalidPetalTransfer), self)
                } else {
                    let s1 = self.with_petals(
                        from,
                        Petals { count: (f.count - amount) as u32, ..f },
                    );
                    let t = s1.petals(to);
                    if t.max matches Some(max) && t.count + amount > max {
                        (Err(InvalidGameViewUpdateError::InvalidPetalTransfer), self)
                    } else {
                        (Ok(()), s1.with_petals(to, Petals { count: (t.count + amount) as u32, ..t }))
                    }
                }
            },
            UpdateGameState::AddToVigor { player, diff } => {
                let p = self.player_states[player];
                if p.vigor + diff < 0 {
                    (Err(InvalidGameViewUpdateError::NegativeVigor), self)
                } else {
                    (Ok(()), self.with_player(player, PlayerModel { vigor: (p.vigor + diff) as i32, ..p }))
                }
            },
            UpdateGameState::TransferCard { from, to } => {
                let owner = from.position().owner();
                let (r, player) = self.player_states[owner].take(from);
                match r {
                    Err(e) => (Err(e), self),
                    Ok(card) => self.with_player(owner, player).put_card(to, Some(card)),
                }
            },
            UpdateGameState::TransferCardFromHidden { from, to, card } => {
                let owner = from.owner();
                let (r, player) = self.player_states[owner].take_hidden(from);
                match r {
                    Err(e) => (Err(e), self),
                    Ok(_) => self.with_player(owner, player).put_card(to, card),
                }
            },
        }
    }
}

/// Reading a heap right after replacing a heap gives the new heap when the
/// two positions are the same, and the old heap otherwise.
pub proof fn lemma_with_petals_petals(
    board: BoardModel,
    changed: PetalsPosition,
    read: PetalsPosition,
    petals: Petals,
)
    ensures
        board.with_petals(changed, petals).petals(read) == (if changed == read {
            petals
        } else {
            board.petals(read)
        }),
{
}

impl PlayerModel {
    /// The number of cards on this player's side, seen or not.
    pub open spec fn card_count(self) -> nat {
        self.hand.len() + self.deck.len() + self.playing.len() + self.enhancements.len()
            + self.played_pile.len() + self.discard_pile.len()
    }
}

impl BoardModel {
    /// The number of cards on the board, seen or not.
    pub open spec fn card_count(self) -> nat {
        self.player_states[PlayerPos::P1].card_count() + self.player_states[PlayerPos::P2].card_count()
    }
}

/// Replacing one pile changes a side's card count by the difference of the
/// two piles' lengths (an always-open pile is only replaced by an open one).
proof fn lemma_with_pile_count(player: PlayerModel, pos: CardsPosition, pile: PileModel)
    requires
        player.pile(pos) is Hidden ==> pile is Hidden || pile is Open,
        player.pile(pos) is Open && !(pos is Hand || pos is Deck || pos is Discards) ==> pile is Open,
    ensures
        player.with_pile(pos, pile).card_count() + player.pile(pos).len() == player.card_count()
            + pile.len(),
        player.with_pile(pos, pile).pile(pos) == pile,
{
}

/// Replacing one side of the board changes the board's card count by the
/// difference of the two sides' counts.
proof fn lemma_with_player_count(board: BoardModel, p: PlayerPos, player: PlayerModel)
    ensures
        board.with_player(p, player).card_count() + board.player_states[p].card_count()
            == board.card_count() + player.card_count(),
        board.with_player(p, player).player_states[p] == player,
{
}

/// A petal transfer that goes through keeps the number of petals on the
/// board.
pub proof fn lemma_transfer_petals_keeps_total(
    board: BoardModel,
    from: PetalsPosition,
    to: PetalsPosition,
    amount: u32,
)
    requires
        board.update_defined(UpdateGameState::TransferPetals { from, to, amount }),
        board.after_update(UpdateGameState::TransferPetals { from, to, amount }).0 is Ok,
    ensures
        board.after_update(UpdateGameState::TransferPetals { from, to, amount }).1.total_petals()
            == board.total_petals(),
{
    let f = board.petals(from);
    let s1 = board.with_petals(from, Petals { count: (f.count - amount) as u32, ..f });
    let t = s1.petals(to);
    assert(s1.total_petals() == board.total_petals() - amount);
    assert(s1.with_petals(to, Petals { count: (t.count + amount) as u32, ..t }).total_petals()
        == s1.total_petals() + amount);
}

/// An update that is refused before anything moved leaves the board as it
/// was: a refused petal transfer, a refused change of vigor, and a card
/// transfer whose source refused to give a card.
pub proof fn lemma_refused_update_keeps_board(board: BoardModel, update: UpdateGameState)
    requires
        board.after_update(update).0 is Err,
        match update {
            UpdateGameState::TransferCard { from, .. } =>
                board.player_states[from.position().owner()].take(from).0 is Err,
            UpdateGameState::TransferCardFromHidden { from, .. } =>
                board.player_states[from.owner()].take_hidden(from).0 is Err,
            _ => true,
        },
    ensures
        board.after_update(update).1 == board,
{
}

/// Putting a card that goes through adds one card to the pile.
proof fn lemma_pile_put_len(pile: PileModel, sel: CardSelector, card: Option<Card>)
    requires
        pile_put_defined(pile, sel),
        pile_put(pile, sel, card).0 is Ok,
    ensures
        pile_put(pile, sel, card).1.len() == pile.len() + 1,
        pile is Open ==> pile_put(pile, sel, card).1 is Open,
        pile is Hidden ==> pile_put(pile, sel, card).1 is Hidden,
{
}

/// Putting a card on the board that goes through adds one card to it.
proof fn lemma_put_card_count(board: BoardModel, to: CardSelector, card: Option<Card>)
    requires
        pile_put_defined(board.pile(to.position()), to),
        board.put_card(to, card).0 is Ok,
    ensures
        board.put_card(to, card).1.card_count() == board.card_count() + 1,
{
    let owner = to.position().owner();
    let q0 = board.player_states[owner];
    let (_, m2) = pile_put(q0.pile(to.position()), to, card);
    lemma_pile_put_len(q0.pile(to.position()), to, card);
    lemma_with_pile_count(q0, to.position(), m2);
    lemma_with_player_count(board, owner, q0.with_pile(to.position(), m2));
}

/// A card transfer that goes through keeps the number of cards on the
/// board: the card that leaves one pile arrives in another.
pub proof fn lemma_card_transfer_keeps_card_count(board: BoardModel, update: UpdateGameState)
    requires
        update is TransferCard || update is TransferCardFromHidden,
        board.update_defined(update),
        board.after_update(update).0 is Ok,
    ensures
        board.after_update(update).1.card_count() == board.card_count(),
{
    match update {
        UpdateGameState::TransferCard { from, to } => {
            let pos = from.position();
            let owner = pos.owner();
            let p0 = board.player_states[owner];
            let (r, m1) = pile_take(p0.pile(pos), from);
            assert(m1.len() + 1 == p0.pile(pos).len());
            lemma_with_pile_count(p0, pos, m1);
            let p1 = p0.with_pile(pos, m1);
            lemma_with_player_count(board, owner, p1);
            lemma_put_card_count(board.with_player(owner, p1), to, Some(r->Ok_0));
        },
        UpdateGameState::TransferCardFromHidden { from, to, card } => {
            let owner = from.owner();
            let p0 = board.player_states[owner];
            let (_, m1) = pile_take_hidden(p0.pile(from));
            assert(m1.len() + 1 == p0.pile(from).len());
            lemma_with_pile_count(p0, from, m1);
            let p1 = p0.with_pile(from, m1);
            lemma_with_player_count(board, owner, p1);
            lemma_put_card_count(board.with_player(owner, p1), to, card);
        },
        _ => {},
    }
}

/// Reading a pile right after replacing a pile of the same player gives the
/// new pile when the positions are the same, and the old pile otherwise.
pub proof fn lemma_with_pile_pile(
    board: BoardModel,
    changed: CardsPosition,
    pile: PileModel,
    read: CardsPosition,
)
    requires
        !(changed is Hand || changed is Deck || changed is Discards) ==> pile is Open,
    ensures
        board.with_player(
            changed.owner(),
            board.player_states[changed.owner()].with_pile(changed, pile),
        ).pile(read) == (if changed == read {
            pile
        } else {
            board.pile(read)
        }),
{
}

/// Which card each selector takes from an open pile of cards `c`: `Last`
/// takes the last card and leaves the ones before it, `First` takes the
/// first and leaves the rest, `Index` takes the card at its index (and is
/// refused past the end), and `PushLast` names no card.
pub proof fn lemma_selector_takes(c: Seq<Card>, pos: CardsPosition, i: usize)
    requires
        c.len() > 0,
    ensures
        pile_take(PileModel::Open(c), CardSelector::Last(pos)) == (
            Ok::<Card, InvalidGameViewUpdateError>(c.last()),
            PileModel::Open(c.drop_last()),
        ),
        pile_take(PileModel::Open(c), CardSelector::First(pos)) == (
            Ok::<Card, InvalidGameViewUpdateError>(c.first()),
            PileModel::Open(c.drop_first()),
        ),
        i < c.len() ==> pile_take(PileModel::Open(c), CardSelector::Index { position: pos, index: i })
            == (
            Ok::<Card, InvalidGameViewUpdateError>(c[i as int]),
            PileModel::Open(c.subrange(0, i as int) + c.subrange(i + 1, c.len() as int)),
        ),
        i >= c.len() ==> pile_take(PileModel::Open(c), CardSelector::Index { position: pos, index: i })
            == (
            Err::<Card, InvalidGameViewUpdateError>(
                InvalidGameViewUpdateError::CardSelectorOutOfBounds,
            ),
            PileModel::Open(c),
        ),
        pile_take(PileModel::Open(c), CardSelector::PushLast(pos)) == (
            Err::<Card, InvalidGameViewUpdateError>(
                InvalidGameViewUpdateError::CardSelectorOutOfBounds,
            ),
            PileModel::Open(c),
        ),
{
    assert(c.remove(c.len() - 1) =~= c.drop_last());
    assert(c.remove(0) =~= c.drop_first());
    if i < c.len() {
        assert(c.remove(i as int) =~= c.subrange(0, i as int) + c.subrange(i + 1, c.len() as int));
    }
}

/// Where each selector puts a card `x` into an open pile of cards `c`:
/// `PushLast` appends it, `First` puts it in front, `Last` puts it just
/// before the last card, and `Index` puts it at its index (refused past the
/// end).
pub proof fn lemma_selector_puts(c: Seq<Card>, x: Card, pos: CardsPosition, i: usize)
    ensures
        pile_put(PileModel::Open(c), CardSelector::PushLast(pos), Some(x)) == (
            Ok::<(), InvalidGameViewUpdateError>(()),
            PileModel::Open(c.push(x)),
        ),
        pile_put(PileModel::Open(c), CardSelector::First(pos), Some(x)) == (
            Ok::<(), InvalidGameViewUpdateError>(()),
            PileModel::Open(seq![x] + c),
        ),
        c.len() > 0 ==> pile_put(PileModel::Open(c), CardSelector::Last(pos), Some(x)) == (
            Ok::<(), InvalidGameViewUpdateError>(()),
            PileModel::Open(c.drop_last().push(x).push(c.last())),
        ),
        i <= c.len() ==> pile_put(
            PileModel::Open(c),
            CardSelector::Index { position: pos, index: i },
            Some(x),
        ) == (
            Ok::<(), InvalidGameViewUpdateError>(()),
            PileModel::Open(c.subrange(0, i as int).push(x) + c.subrange(i as int, c.len() as int)),
        ),
        i > c.len() ==> pile_put(
            PileModel::Open(c),
            CardSelector::Index { position: pos, index: i },
            Some(x),
        ) == (
            Err::<(), InvalidGameViewUpdateError>(
                InvalidGameViewUpdateError::CardSelectorOutOfBounds,
            ),
            PileModel::Open(c),
        ),
{
    assert(c.insert(c.len() as int, x) =~= c.push(x));
    assert(c.insert(0, x) =~= seq![x] + c);
    if c.len() > 0 {
        assert(c.insert(c.len() - 1, x) =~= c.drop_last().push(x).push(c.last()));
    }
    if i <= c.len() {
        assert(c.insert(i as int, x) =~= c.subrange(0, i as int).push(x) + c.subrange(
            i as int,
            c.len() as int,
        ));
    }
}

/// Moving the last card of one open pile to the end of another open pile:
/// the source keeps the cards before its last one, and the target gains that
/// last card at its end.
pub proof fn lemma_move_last_to_end(board: BoardModel, p: CardsPosition, q: CardsPosition)
    requires
        board.pile(p) is Open,
        board.pile(p).len() > 0,
        board.pile(q) is Open,
        p != q,
    ensures
        ({
            let c = board.pile(p)->Open_0;
            let d = board.pile(q)->Open_0;
            let (r, b) = board.after_update(
                UpdateGameState::TransferCard {
                    from: CardSelector::Last(p),
                    to: CardSelector::PushLast(q),
                },
            );
            &&& r is Ok
            &&& b.pile(p) == PileModel::Open(c.drop_last())
            &&& b.pile(q) == PileModel::Open(d.push(c.last()))
        }),
{
    let c = board.pile(p)->Open_0;
    let d = board.pile(q)->Open_0;
    lemma_selector_takes(c, p, 0);
    let m1 = PileModel::Open(c.drop_last());
    let op = p.owner();
    let s1 = board.with_player(op, board.player_states[op].with_pile(p, m1));
    lemma_with_pile_pile(board, p, m1, q);
    lemma_with_pile_pile(board, p, m1, p);
    lemma_selector_puts(d, c.last(), q, 0);
    let m2 = PileModel::Open(d.push(c.last()));
    lemma_with_pile_pile(s1, q, m2, q);
    lemma_with_pile_pile(s1, q, m2, p);
}

/// Replacing a heap leaves the cards, the turn and the phase as they were.
proof fn lemma_with_petals_keeps(board: BoardModel, pos: PetalsPosition, petals: Petals)
    ensures
        board.with_petals(pos, petals).card_count() == board.card_count(),
        board.with_petals(pos, petals).turn == board.turn,
        board.with_petals(pos, petals).phase == board.phase,
{
}

/// A petal transfer between two different heaps goes through exactly when
/// the source holds enough petals and the target stays within its capacity;
/// it then takes `amount` petals from the source, adds them to the target,
/// and leaves every other heap, the capacities and the rest of the board as
/// they were. A refused transfer changes nothing.
pub proof fn lemma_petal_transfer_moves(
    board: BoardModel,
    from: PetalsPosition,
    to: PetalsPosition,
    amount: u32,
    other: PetalsPosition,
)
    requires
        from != to,
        board.update_defined(UpdateGameState::TransferPetals { from, to, amount }),
    ensures
        ({
            let (r, b) = board.after_update(UpdateGameState::TransferPetals { from, to, amount });
            let f = board.petals(from);
            let t = board.petals(to);
            &&& r is Ok <==> (f.count >= amount && !(t.max matches Some(m) && t.count + amount > m))
            &&& r is Ok ==> {
                &&& b.petals(from).count == f.count - amount
                &&& b.petals(to).count == t.count + amount
                &&& b.petals(from).max == f.max
                &&& b.petals(to).max == t.max
                &&& (other != from && other != to ==> b.petals(other) == board.petals(other))
                &&& b.turn == board.turn
                &&& b.phase == board.phase
                &&& b.card_count() == board.card_count()
            }
            &&& r is Err ==> r == Err::<(), InvalidGameViewUpdateError>(
                InvalidGameViewUpdateError::InvalidPetalTransfer,
            ) && b == board
        }),
{
    let f = board.petals(from);
    if f.count >= amount {
        let nf = Petals { count: (f.count - amount) as u32, ..f };
        let s1 = board.with_petals(from, nf);
        lemma_with_petals_keeps(board, from, nf);
        lemma_with_petals_petals(board, from, to, nf);
        lemma_with_petals_petals(board, from, from, nf);
        lemma_with_petals_petals(board, from, other, nf);
        let t = s1.petals(to);
        let nt = Petals { count: (t.count + amount) as u32, ..t };
        lemma_with_petals_keeps(s1, to, nt);
        lemma_with_petals_petals(s1, to, from, nt);
        lemma_with_petals_petals(s1, to, to, nt);
        lemma_with_petals_petals(s1, to, other, nt);
    }
}

/// Adding to a player's vigor goes through exactly when the vigor stays at
/// zero or above; it then changes that player's vigor by `diff` and nothing
/// else. A refused change leaves the board as it was.
pub proof fn lemma_vigor_change(board: BoardModel, player: PlayerPos, diff: i32)
    requires
        board.update_defined(UpdateGameState::AddToVigor { player, diff }),
    ensures
        ({
            let (r, b) = board.after_update(UpdateGameState::AddToVigor { player, diff });
            let before = board.player_states[player];
            let after = b.player_states[player];
            &&& r is Ok <==> before.vigor + diff >= 0
            &&& r is Ok ==> {
                &&& after.vigor == before.vigor + diff
                &&& after.aura == before.aura && after.life == before.life && after.flare
                    == before.flare
                &&& after.hand == before.hand && after.deck == before.deck
                &&& b.player_states[player.spec_other()] == board.player_states[player.spec_other()]
                &&& b.distance == board.distance && b.dust == board.dust
            }
            &&& r is Err ==> r == Err::<(), InvalidGameViewUpdateError>(
                InvalidGameViewUpdateError::NegativeVigor,
            ) && b == board
        }),
{
}

/// Setting the turn or the phase always goes through and changes only that.
pub proof fn lemma_turn_and_phase_set(board: BoardModel, turn: u32, turn_player: PlayerPos, phase: Phase)
    ensures
        ({
            let (r, b) = board.after_update(UpdateGameState::SetTurn { turn, turn_player });
            &&& r is Ok
            &&& b.turn == turn && b.turn_player == turn_player
            &&& b.phase == board.phase && b.player_states == board.player_states
            &&& b.distance == board.distance && b.dust == board.dust
        }),
        ({
            let (r, b) = board.after_update(UpdateGameState::SetPhase(phase));
            &&& r is Ok
            &&& b.phase == phase
            &&& b.turn == board.turn && b.turn_player == board.turn_player
            &&& b.player_states == board.player_states
            &&& b.distance == board.distance && b.dust == board.dust
        }),
{
}

/// Drawing an unseen card from a hidden pile onto the end of another pile:
/// the hidden pile shrinks by one; an open target gains the card at its end
/// (an unknown card is refused there), and a hidden target grows by one.
pub proof fn lemma_hidden_card_arrives(
    board: BoardModel,
    from: CardsPosition,
    q: CardsPosition,
    card: Option<Card>,
)
    requires
        board.pile(from) is Hidden,
        board.pile(from).len() > 0,
        from != q,
        board.pile(q) is Hidden ==> board.pile(q).len() < usize::MAX,
    ensures
        ({
            let (r, b) = board.after_update(
                UpdateGameState::TransferCardFromHidden { from, to: CardSelector::PushLast(q), card },
            );
            &&& b.pile(from) == PileModel::Hidden((board.pile(from).len() - 1) as nat)
            &&& board.pile(q) matches PileModel::Open(d) ==> match card {
                Some(c) => r is Ok && b.pile(q) == PileModel::Open(d.push(c)),
                None => r == Err::<(), InvalidGameViewUpdateError>(
                    InvalidGameViewUpdateError::VisibilityMismatch,
                ) && b.pile(q) == board.pile(q),
            }
            &&& board.pile(q) is Hidden ==> r is Ok && b.pile(q) == PileModel::Hidden(
                board.pile(q).len() + 1,
            )
        }),
{
    let n = board.pile(from).len();
    let m1 = PileModel::Hidden((n - 1) as nat);
    let op = from.owner();
    let s1 = board.with_player(op, board.player_states[op].with_pile(from, m1));
    lemma_with_pile_pile(board, from, m1, q);
    lemma_with_pile_pile(board, from, m1, from);
    let d = board.pile(q);
    let (_, m2) = pile_put(d, CardSelector::PushLast(q), card);
    if d is Open {
        lemma_selector_puts(d->Open_0, card->0, q, 0);
    }
    if !(d is Open && card is None) {
        lemma_with_pile_pile(s1, q, m2, q);
        lemma_with_pile_pile(s1, q, m2, from);
    }
}

/// Putting back the pile a side already has changes nothing, and a second
/// replacement of the same pile overrides the first.
proof fn lemma_with_pile_same(player: PlayerModel, pos: CardsPosition, a: PileModel, b: PileModel)
    requires
        !(pos is Hand || pos is Deck || pos is Discards) ==> a is Open && b is Open,
    ensures
        player.with_pile(pos, player.pile(pos)) == player,
        player.with_pile(pos, a).with_pile(pos, b) == player.with_pile(pos, b),
        player.with_pile(pos, a).pile(pos) == a,
{
}

/// Moving the top card of one open pile onto another open pile, and then
/// moving it back, gives back the board one started from.
pub proof fn lemma_transfer_back_restores(board: BoardModel, p: CardsPosition, q: CardsPosition)
    requires
        board.pile(p) is Open,
        board.pile(p).len() > 0,
        board.pile(q) is Open,
    ensures
        ({
            let there = UpdateGameState::TransferCard {
                from: CardSelector::First(p),
                to: CardSelector::First(q),
            };
            let back = UpdateGameState::TransferCard {
                from: CardSelector::First(q),
                to: CardSelector::First(p),
            };
            let (r1, b1) = board.after_update(there);
            let (r2, b2) = b1.after_update(back);
            r1 is Ok && r2 is Ok && b2 == board
        }),
{
    let cards_p = board.pile(p)->Open_0;
    let c = cards_p[0];
    let m1 = PileModel::Open(cards_p.remove(0));
    let op = p.owner();
    let oq = q.owner();
    let ps = board.player_states;
    let x1 = ps[op].with_pile(p, m1);
    let s1 = board.with_player(op, x1);
    lemma_with_pile_pile(board, p, m1, q);
    let q1 = s1.pile(q)->Open_0;
    let m2 = PileModel::Open(q1.insert(0, c));
    let y1 = s1.player_states[oq];
    let x2 = y1.with_pile(q, m2);
    let b1 = s1.with_player(oq, x2);
    lemma_with_pile_pile(s1, q, m2, q);
    assert(b1.pile(q) == m2);
    assert(q1.insert(0, c).remove(0) =~= q1);
    assert(q1.insert(0, c)[0] == c);
    let m3 = PileModel::Open(q1);
    // Taking the card back leaves q's side as it was after the first move.
    lemma_with_pile_same(y1, q, m2, m3);
    assert(y1.pile(q) == m3);
    assert(x2.with_pile(q, m3) == y1);
    let s2 = b1.with_player(oq, y1);
    assert(s2 == s1);
    // Putting it back restores p's pile.
    assert(s1.pile(p) == m1);
    assert(cards_p.remove(0).insert(0, c) =~= cards_p);
    lemma_with_pile_same(ps[op], p, m1, PileModel::Open(cards_p));
    assert(x1.with_pile(p, PileModel::Open(cards_p)) == ps[op]);
    assert(s1.with_player(op, ps[op]) == board);
}

// ---------------------------------------------------------------------------
// Executable board.
// ---------------------------------------------------------------------------

/// A pile as a viewer sees it.
#[derive(Clone, Debug, PartialEq)]
pub enum CardsView {
    Open { cards: Cards },
    Hidden { length: usize },
}

impl View for CardsView {
    type V = PileModel;

    open spec fn view(&self) -> PileModel {
        match self {
            CardsView::Open { cards } => PileModel::Open(cards@),
            CardsView::Hidden { length } => PileModel::Hidden(*length as nat),
        }
    }
}

/// A borrowed look at a pile.
#[derive(Debug, Clone, Copy)]
pub enum CardsViewRef<'a> {
    Open { cards: &'a Cards },
    Hidden { length: &'a usize },
}

impl<'a> View for CardsViewRef<'a> {
    type V = PileModel;

    open spec fn view(&self) -> PileModel {
        match self {
            CardsViewRef::Open { cards } => PileModel::Open(cards@),
            CardsViewRef::Hidden { length } => PileModel::Hidden(**length as nat),
        }
    }
}

impl<'a> CardsViewRef<'a> {
    /// The number of cards in the pile.
    pub fn len(&self) -> (res: usize)
        ensures
            res == self@.len(),
    {
        match *self {
            CardsViewRef::Open { cards } => cards.len(),
            CardsViewRef::Hidden { length } => *length,
        }
    }
}

/// A pile lent out for changing.
#[derive(Debug)]
pub enum CardsViewMutRef<'a> {
    Open { cards: &'a mut Cards },
    Hidden { length: &'a mut usize },
}

impl<'a> CardsViewMutRef<'a> {
    /// The pile as it stands now.
    pub open spec fn pile(&self) -> PileModel {
        match self {
            CardsViewMutRef::Open { cards } => PileModel::Open((**cards)@),
            CardsViewMutRef::Hidden { length } => PileModel::Hidden(**length as nat),
        }
    }

    /// The number of cards in the pile.
    pub fn len(&self) -> (res: usize)
        ensures
            res == self.pile().len(),
    {
        match self {
            CardsViewMutRef::Open { cards } => cards.len(),
            CardsViewMutRef::Hidden { length } => **length,
        }
    }
}

/// Why a board update was refused.
#[derive(Clone, Copy, Debug, PartialEq, Eq, Structural)]
pub enum InvalidGameViewUpdateError {
    /// The given card selector's index was over the size of the cards.
    CardSelectorOutOfBounds,
    /// Vigor has been pushed to go below 0.
    NegativeVigor,
    /// Invalid petal transfer: the transfer will result in negative or
    /// over-max petal value.
    InvalidPetalTransfer,
    /// The update and state's visibility (hidden/open) didn't match.
    VisibilityMismatch,
}

impl InvalidGameViewUpdateError {
    /// A sentence that describes the error.
    pub fn message(&self) -> (res: &'static str)
        ensures
            res@ == match self {
                InvalidGameViewUpdateError::CardSelectorOutOfBounds =>
                    "The given card selector's index was over the size of the cards."@,
                InvalidGameViewUpdateError::NegativeVigor => "Vigor has been pushed to go below 0."@,
                InvalidGameViewUpdateError::InvalidPetalTransfer =>
                    "Invalid petal transfer: the transfer will result in negative or over-max petal value."@,
                InvalidGameViewUpdateError::VisibilityMismatch =>
                    "The update and state's visibility(hidden/open) didn't match."@,
            },
    {
        match self {
            InvalidGameViewUpdateError::CardSelectorOutOfBounds =>
                "The given card selector's index was over the size of the cards.",
            InvalidGameViewUpdateError::NegativeVigor => "Vigor has been pushed to go below 0.",
            InvalidGameViewUpdateError::InvalidPetalTransfer =>
                "Invalid petal transfer: the transfer will result in negative or over-max petal value.",
            InvalidGameViewUpdateError::VisibilityMismatch =>
                "The update and state's visibility(hidden/open) didn't match.",
        }
    }
}

/// Takes the card `sel` names out of an open pile.
fn take_from_cards(cards: &mut Cards, sel: CardSelector) -> (res: Result<Card, InvalidGameViewUpdateError>)
    requires
        !(sel is Last && old(cards)@.len() == 0),
    ensures
        (res, PileModel::Open(final(cards)@)) == pile_take(PileModel::Open(old(cards)@), sel),
{
    let i = sel.index(cards.len());
    if i >= cards.len() {
        return Err(InvalidGameViewUpdateError::CardSelectorOutOfBounds);
    }
    Ok(cards.remove(i))
}

/// Puts a card into an open pile at the place `sel` names.
fn put_into_cards(cards: &mut Cards, sel: CardSelector, card: Option<Card>) -> (res: Result<(), InvalidGameViewUpdateError>)
    requires
        !(sel is Last && old(cards)@.len() == 0),
    ensures
        (res, PileModel::Open(final(cards)@)) == pile_put(PileModel::Open(old(cards)@), sel, card),
{
    let i = sel.index(cards.len());
    if i > cards.len() {
        return Err(InvalidGameViewUpdateError::CardSelectorOutOfBounds);
    }
    match card {
        Some(c) => {
            cards.insert(i, c);
            Ok(())
        },
        None => Err(InvalidGameViewUpdateError::VisibilityMismatch),
    }
}

/// Whether two piles hold the same cards in the same order.
fn same_cards(a: &Cards, b: &Cards) -> (res: bool)
    ensures
        res == (a@ == b@),
{
    if a.len() != b.len() {
        return false;
    }
    let mut i: usize = 0;
    while i < a.len()
        invariant
            a@.len() == b@.len(),
            i <= a@.len(),
            forall|j: int| 0 <= j < i ==> a@[j] == b@[j],
        decreases a@.len() - i,
    {
        if a[i] != b[i] {
            return false;
        }
        i += 1;
    }
    assert(a@ =~= b@);
    true
}

impl CardsView {
    /// The view of `cards` for a viewer who owns them (all cards shown) or
    /// not (only their number shown).
    pub fn from(cards: &Cards, is_owner: bool) -> (res: CardsView)
        ensures
            res@ == (if is_owner {
                PileModel::Open(cards@)
            } else {
                PileModel::Hidden(cards@.len())
            }),
    {
        if is_owner {
            let mut copy: Cards = Vec::new();
            let n: usize = cards.len();
            let mut i: usize = 0;
            while i < n
                invariant
                    n == cards@.len(),
                    i <= n,
                    copy@ == cards@.subrange(0, i as int),
                decreases n - i,
            {
                copy.push(cards[i]);
                i += 1;
                assert(copy@ =~= cards@.subrange(0, i as int));
            }
            assert(copy@ =~= cards@);
            CardsView::Open { cards: copy }
        } else {
            CardsView::Hidden { length: cards.len() }
        }
    }

    /// A borrowed look at the pile.
    pub fn get_ref(&self) -> (res: CardsViewRef<'_>)
        ensures
            res@ == self@,
    {
        match self {
            CardsView::Open { cards } => CardsViewRef::Open { cards },
            CardsView::Hidden { length } => CardsViewRef::Hidden { length },
        }
    }

    /// Whether two piles look the same to the viewer.
    pub fn same_as(&self, other: &CardsView) -> (res: bool)
        ensures
            res == (self@ == other@),
    {
        match (self, other) {
            (CardsView::Open { cards: a }, CardsView::Open { cards: b }) => same_cards(a, b),
            (CardsView::Hidden { length: a }, CardsView::Hidden { length: b }) => *a == *b,
            _ => false,
        }
    }

    /// Takes the card `sel` names out of the pile.
    pub fn take_card(&mut self, sel: CardSelector) -> (res: Result<Card, InvalidGameViewUpdateError>)
        requires
            pile_take_defined(old(self)@, sel),
        ensures
            (res, final(self)@) == pile_take(old(self)@, sel),
    {
        match self {
            CardsView::Open { cards } => take_from_cards(cards, sel),
            CardsView::Hidden { .. } => Err(InvalidGameViewUpdateError::VisibilityMismatch),
        }
    }

    /// Puts a card into the pile at the place `sel` names.
    pub fn insert_card(&mut self, sel: CardSelector, card: Option<Card>) -> (res: Result<(), InvalidGameViewUpdateError>)
        requires
            pile_put_defined(old(self)@, sel),
        ensures
            (res, final(self)@) == pile_put(old(self)@, sel, card),
    {
        match self {
            CardsView::Open { cards } => put_into_cards(cards, sel, card),
            CardsView::Hidden { length } => {
                *length = *length + 1;
                Ok(())
            },
        }
    }

    /// Takes an unseen card out of the pile.
    pub fn take_hidden(&mut self) -> (res: Result<(), InvalidGameViewUpdateError>)
        requires
            pile_take_hidden_defined(old(self)@),
        ensures
            (res, final(self)@) == pile_take_hidden(old(self)@),
    {
        match self {
            CardsView::Open { .. } => Err(InvalidGameViewUpdateError::VisibilityMismatch),
            CardsView::Hidden { length } => {
                *length = *length - 1;
                Ok(())
            },
        }
    }
}

/// One player's side of the board as a viewer sees it.
#[derive(Clone, Debug, PartialEq)]
pub struct PlayerStateView {
    pub hand: CardsView,
    pub deck: CardsView,
    pub playing: Cards,
    pub enhancements: Cards,
    pub played_pile: Cards,
    pub discard_pile: CardsView,
    pub vigor: i32,
    pub aura: Petals,
    pub life: Petals,
    pub flare: Petals,
}

impl View for PlayerStateView {
    type V = PlayerModel;

    open spec fn view(&self) -> PlayerModel {
        PlayerModel {
            hand: self.hand@,
            deck: self.deck@,
            playing: self.playing@,
            enhancements: self.enhancements@,
            played_pile: self.played_pile@,
            discard_pile: self.discard_pile@,
            vigor: self.vigor,
            aura: self.aura,
            life: self.life,
            flare: self.flare,
        }
    }
}

impl PlayerStateView {
    /// Whether two sides of the board look the same to the viewer.
    pub fn same_as(&self, other: &PlayerStateView) -> (res: bool)
        ensures
            res == (self@ == other@),
    {
        self.hand.same_as(&other.hand) && self.deck.same_as(&other.deck) && same_cards(
            &self.playing,
            &other.playing,
        ) && same_cards(&self.enhancements, &other.enhancements) && same_cards(
            &self.played_pile,
            &other.played_pile,
        ) && self.discard_pile.same_as(&other.discard_pile) && self.vigor == other.vigor
            && self.aura == other.aura && self.life == other.life && self.flare == other.flare
    }

    /// Takes the card `sel` names out of one of this player's piles.
    fn take_card(&mut self, sel: CardSelector) -> (res: Result<Card, InvalidGameViewUpdateError>)
        requires
            pile_take_defined(old(self)@.pile(sel.position()), sel),
        ensures
            (res, final(self)@) == old(self)@.take(sel),
    {
        match sel.cards_position() {
            CardsPosition::Hand(_) => self.hand.take_card(sel),
            CardsPosition::Playing(_) => take_from_cards(&mut self.playing, sel),
            CardsPosition::Deck(_) => self.deck.take_card(sel),
            CardsPosition::Enhancements(_) => take_from_cards(&mut self.enhancements, sel),
            CardsPosition::Played(_) => take_from_cards(&mut self.played_pile, sel),
            CardsPosition::Discards(_) => self.discard_pile.take_card(sel),
        }
    }

    /// Puts a card into one of this player's piles.
    fn insert_card(&mut self, sel: CardSelector, card: Option<Card>) -> (res: Result<(), InvalidGameViewUpdateError>)
        requires
            pile_put_defined(old(self)@.pile(sel.position()), sel),
        ensures
            (res, final(self)@) == old(self)@.put(sel, card),
    {
        match sel.cards_position() {
            CardsPosition::Hand(_) => self.hand.insert_card(sel, card),
            CardsPosition::Playing(_) => put_into_cards(&mut self.playing, sel, card),
            CardsPosition::Deck(_) => self.deck.insert_card(sel, card),
            CardsPosition::Enhancements(_) => put_into_cards(&mut self.enhancements, sel, card),
            CardsPosition::Played(_) => put_into_cards(&mut self.played_pile, sel, card),
            CardsPosition::Discards(_) => self.discard_pile.insert_card(sel, card),
        }
    }

    /// Takes an unseen card out of one of this player's piles.
    fn take_hidden(&mut self, pos: CardsPosition) -> (res: Result<(), InvalidGameViewUpdateError>)
        requires
            pile_take_hidden_defined(old(self)@.pile(pos)),
        ensures
            (res, final(self)@) == old(self)@.take_hidden(pos),
    {
        match pos {
            CardsPosition::Hand(_) => self.hand.take_hidden(),
            CardsPosition::Deck(_) => self.deck.take_hidden(),
            CardsPosition::Discards(_) => self.discard_pile.take_hidden(),
            _ => Err(InvalidGameViewUpdateError::VisibilityMismatch),
        }
    }
}

/// The board as one viewer sees it.
#[derive(Clone, Debug, PartialEq)]
pub struct StateView {
    pub turn: u32,
    pub turn_player: PlayerPos,
    pub phase: Phase,
    pub distance: Petals,
    pub dust: Petals,
    pub player_states: PlayersData<PlayerStateView>,
}

pub type PlayerStateViews = PlayersData<PlayerStateView>;

impl View for StateView {
    type V = BoardModel;

    open spec fn view(&self) -> BoardModel {
        BoardModel {
            turn: self.turn,
            turn_player: self.turn_player,
            phase: self.phase,
            distance: self.distance,
            dust: self.dust,
            player_states: self.player_states@,
        }
    }
}

impl StateView {
    /// Whether two boards look the same to the viewer.
    pub fn same_as(&self, other: &StateView) -> (res: bool)
        ensures
            res == (self@ == other@),
    {
        self.turn == other.turn && self.turn_player == other.turn_player && self.phase
            == other.phase && self.distance == other.distance && self.dust == other.dust
            && self.player_states.p1_data.same_as(&other.player_states.p1_data)
            && self.player_states.p2_data.same_as(&other.player_states.p2_data)
    }

    /// Returns the heap of petals at `petal_position`.
    pub fn petals(&self, petal_position: PetalsPosition) -> (res: &Petals)
        ensures
            *res == self@.petals(petal_position),
    {
        match petal_position {
            PetalsPosition::Distance => &self.distance,
            PetalsPosition::Dust => &self.dust,
            PetalsPosition::Aura(player) => &self.player_states.index(player).aura,
            PetalsPosition::Flare(player) => &self.player_states.index(player).flare,
            PetalsPosition::Life(player) => &self.player_states.index(player).life,
        }
    }

    /// Lends out the heap of petals at `petal_position`; nothing else on the
    /// board changes.
    fn petals_mut(&mut self, petal_position: PetalsPosition) -> (res: &mut Petals)
        ensures
            *res == old(self)@.petals(petal_position),
            final(self)@ == old(self)@.with_petals(petal_position, *final(res)),
    {
        match petal_position {
            PetalsPosition::Distance => &mut self.distance,
            PetalsPosition::Dust => &mut self.dust,
            PetalsPosition::Aura(player) => &mut self.player_states.index_mut(player).aura,
            PetalsPosition::Flare(player) => &mut self.player_states.index_mut(player).flare,
            PetalsPosition::Life(player) => &mut self.player_states.index_mut(player).life,
        }
    }

    /// A borrowed look at the pile at `cards_position`.
    pub fn cards_view(&self, cards_position: CardsPosition) -> (res: CardsViewRef<'_>)
        ensures
            res@ == self@.pile(cards_position),
    {
        match cards_position {
            CardsPosition::Hand(p) => self.player_states.index(p).hand.get_ref(),
            CardsPosition::Playing(p) => CardsViewRef::Open { cards: &self.player_states.index(p).playing },
            CardsPosition::Deck(p) => self.player_states.index(p).deck.get_ref(),
            CardsPosition::Enhancements(p) => CardsViewRef::Open {
                cards: &self.player_states.index(p).enhancements,
            },
            CardsPosition::Played(p) => CardsViewRef::Open { cards: &self.player_states.index(p).played_pile },
            CardsPosition::Discards(p) => self.player_states.index(p).discard_pile.get_ref(),
        }
    }

    /// Whether applying `update` is defined on this board (see
    /// `BoardModel::update_defined`).
    pub fn update_is_defined(&self, update: UpdateGameState) -> (res: bool)
        ensures
            res == self@.update_defined(update),
    {
        match update {
            UpdateGameState::TransferPetals { from, to, amount } => {
                let f = *self.petals(from);
                if f.count < amount {
                    return true;
                }
                let from_after = Petals { count: f.count - amount, max: f.max };
                let t = if from == to {
                    from_after
                } else {
                    *self.petals(to)
                };
                proof {
                    lemma_with_petals_petals(self@, from, to, from_after);
                }
                match t.max {
                    Some(_) => true,
                    None => t.count as u64 + amount as u64 <= u32::MAX as u64,
                }
            },
            UpdateGameState::AddToVigor { player, diff } => {
                self.player_states.index(player).vigor as i64 + diff as i64 <= i32::MAX as i64
            },
            UpdateGameState::TransferCard { from, to } => {
                let fp = from.cards_position();
                let tp = to.cards_position();
                match self.cards_view(fp) {
                    CardsViewRef::Hidden { .. } => true,
                    CardsViewRef::Open { cards } => {
                        let len = cards.len();
                        if matches!(from, CardSelector::Last(_)) && len == 0 {
                            return false;
                        }
                        let i = from.index(len);
                        if i >= len {
                            return true;
                        }
                        proof {
                            let m = PileModel::Open(cards@.remove(i as int));
                            lemma_with_pile_pile(self@, fp, m, tp);
                        }
                        let target_len: usize = if tp == fp {
                            len - 1
                        } else {
                            self.cards_view(tp).len()
                        };
                        let target_hidden = if tp == fp {
                            false
                        } else {
                            matches!(self.cards_view(tp), CardsViewRef::Hidden { .. })
                        };
                        !(matches!(to, CardSelector::Last(_)) && target_len == 0) && (!target_hidden || target_len
                            < usize::MAX)
                    },
                }
            },
            UpdateGameState::TransferCardFromHidden { from, to, card } => {
                let tp = to.cards_position();
                match self.cards_view(from) {
                    CardsViewRef::Open { .. } => true,
                    CardsViewRef::Hidden { length } => {
                        let n = *length;
                        if n == 0 {
                            return false;
                        }
                        proof {
                            let m = PileModel::Hidden((n - 1) as nat);
                            lemma_with_pile_pile(self@, from, m, tp);
                        }
                        let target_len: usize = if tp == from {
                            n - 1
                        } else {
                            self.cards_view(tp).len()
                        };
                        let target_hidden = if tp == from {
                            true
                        } else {
                            matches!(self.cards_view(tp), CardsViewRef::Hidden { .. })
                        };
                        !(matches!(to, CardSelector::Last(_)) && target_len == 0) && (!target_hidden || target_len
                            < usize::MAX)
                    },
                }
            },
            _ => true,
        }
    }

    /// Applies one board update as the viewer sees it; see
    /// `BoardModel::after_update` for what each update does and when it is
    /// refused.
    pub fn apply_update(&mut self, update: UpdateGameState) -> (res: Result<(), InvalidGameViewUpdateError>)
        requires
            old(self)@.update_defined(update),
        ensures
            (res, final(self)@) == old(self)@.after_update(update),
    {
        match update {
            UpdateGameState::TransferPetals { from, to, amount } => {
                let f = *self.petals(from);
                if f.count < amount {
                    return Err(InvalidGameViewUpdateError::InvalidPetalTransfer);
                }
                let from_after = Petals { count: f.count - amount, max: f.max };
                let t = if from == to {
                    from_after
                } else {
                    *self.petals(to)
                };
                proof {
                    lemma_with_petals_petals(self@, from, to, from_after);
                }
                if let Some(max) = t.max {
                    if t.count as u64 + amount as u64 > max as u64 {
                        return Err(InvalidGameViewUpdateError::InvalidPetalTransfer);
                    }
                }
                let from_petals = self.petals_mut(from);
                *from_petals = from_after;
                let to_petals = self.petals_mut(to);
                to_petals.count = t.count + amount;
            },
            UpdateGameState::AddToVigor { player, diff } => {
                let vigor = self.player_states.index(player).vigor;
                let next: i64 = vigor as i64 + diff as i64;
                if next < 0 {
                    return Err(InvalidGameViewUpdateError::NegativeVigor);
                }
                self.player_states.index_mut(player).vigor = next as i32;
            },
            UpdateGameState::SetTurn { turn, turn_player } => {
                self.turn = turn;
                self.turn_player = turn_player;
            },
            UpdateGameState::SetPhase(phase) => {
                self.phase = phase;
            },
            UpdateGameState::TransferCard { from, to } => {
                let owner = from.cards_position().get_player_pos();
                let taken = self.player_states.index_mut(owner).take_card(from)?;
                let to_owner = to.cards_position().get_player_pos();
                return self.player_states.index_mut(to_owner).insert_card(to, Some(taken));
            },
            UpdateGameState::TransferCardFromHidden { from, to, card } => {
                let owner = from.get_player_pos();
                self.player_states.index_mut(owner).take_hidden(from)?;
                let to_owner = to.cards_position().get_player_pos();
                return self.player_states.index_mut(to_owner).insert_card(to, card);
            },
        }
        Ok(())
    }
}

} // verus!
