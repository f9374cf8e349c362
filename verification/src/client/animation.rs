use vstd::prelude::*;

use crate::rules::cards::{Card, CardsPosition};
use crate::rules::PlayerPos;

verus! {

/// How a card moves on screen when it changes piles.
#[derive(Debug, Clone, Copy, PartialEq, Eq, Structural)]
pub enum CardMoveAnimation {
    /// The viewer draws a card: it is first shown up close, then goes to the
    /// hand.
    Draw,
    /// The card slides straight to its new place.
    Slide,
}

/// The viewer draws a card when it moves from the viewer's deck to the
/// viewer's hand.
pub open spec fn is_draw(from: CardsPosition, to: CardsPosition, me: PlayerPos) -> bool {
    from == CardsPosition::Deck(me) && to == CardsPosition::Hand(me)
}

/// How a card that moves from `from` to `to` is animated, for a viewer at
/// `me`.
pub fn card_move_animation(from: CardsPosition, to: CardsPosition, me: PlayerPos) -> (res: CardMoveAnimation)
    ensures
        res == (if is_draw(from, to, me) {
            CardMoveAnimation::Draw
        } else {
            CardMoveAnimation::Slide
        }),
{
    match (from, to) {
        (CardsPosition::Deck(p1), CardsPosition::Hand(p2)) => {
            if p1 == me && p2 == me {
                CardMoveAnimation::Draw
            } else {
                CardMoveAnimation::Slide
            }
        },
        _ => CardMoveAnimation::Slide,
    }
}

impl CardMoveAnimation {
    /// How long the client waits before handling the next event.
    pub fn wait_millis(self) -> (res: u64)
        ensures
            res == (if self == CardMoveAnimation::Draw {
                900u64
            } else {
                200u64
            }),
    {
        match self {
            CardMoveAnimation::Draw => 900,
            CardMoveAnimation::Slide => 200,
        }
    }

    /// The lengths of the animation's stages, in order.
    pub fn stage_millis(self) -> (res: Vec<u64>)
        ensures
            res@ == (if self == CardMoveAnimation::Draw {
                seq![600u64, 600u64]
            } else {
                seq![1000u64]
            }),
    {
        let mut stages: Vec<u64> = Vec::new();
        match self {
            CardMoveAnimation::Draw => {
                stages.push(600);
                stages.push(600);
                assert(stages@ =~= seq![600u64, 600u64]);
            },
            CardMoveAnimation::Slide => {
                stages.push(1000);
                assert(stages@ =~= seq![1000u64]);
            },
        }
        stages
    }
}

/// How long a card that arrives in a hand waits before the hand spreads
/// out again: longer after the viewer's own draw, which is shown up close
/// first.
pub fn spread_delay_millis(from: CardsPosition, me: PlayerPos) -> (res: u64)
    ensures
        res == (if from == CardsPosition::Deck(me) {
            800u64
        } else {
            250u64
        }),
{
    match from {
        CardsPosition::Deck(p) => {
            if p == me {
                800
            } else {
                250
            }
        },
        _ => 250,
    }
}

/// The picture of a card that the viewer may see (its face) or not (its
/// back).
pub fn card_texture(card: Option<Card>) -> (res: &'static str)
    ensures
        res@ == (if card is Some {
            "sprites/cardfront_empty.png"@
        } else {
            "sprites/cardback_normal.png"@
        }),
{
    match card {
        Some(_) => "sprites/cardfront_empty.png",
        None => "sprites/cardback_normal.png",
    }
}

/// The up-close draw animation is for one move only: a card going from
/// the viewer's own deck to the viewer's own hand. The opponent's draws,
/// and every other move, slide.
pub proof fn lemma_only_own_draw_is_shown_up_close(from: CardsPosition, to: CardsPosition, me: PlayerPos)
    ensures
        is_draw(from, to, me) ==> from is Deck && to is Hand && from.owner() == me && to.owner()
            == me,
        is_draw(CardsPosition::Deck(me), CardsPosition::Hand(me), me),
        !is_draw(CardsPosition::Deck(me.spec_other()), CardsPosition::Hand(me.spec_other()), me),
{
}

} // verus!
