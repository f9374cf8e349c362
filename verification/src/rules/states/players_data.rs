use vstd::prelude::*;

use crate::rules::PlayerPos;

verus! {

/// One value for each of the two players.
#[derive(Clone, Debug, PartialEq)]
pub struct PlayersData<TData> {
    pub p1_data: TData,
    pub p2_data: TData,
}

impl<T> PlayersData<T> {
    /// The value that belongs to the given player.
    pub open spec fn spec_index(self, index: PlayerPos) -> T {
        match index {
            PlayerPos::P1 => self.p1_data,
            PlayerPos::P2 => self.p2_data,
        }
    }

    /// The same values, with the given player's value replaced.
    pub open spec fn with(self, index: PlayerPos, value: T) -> PlayersData<T> {
        match index {
            PlayerPos::P1 => PlayersData { p1_data: value, p2_data: self.p2_data },
            PlayerPos::P2 => PlayersData { p1_data: self.p1_data, p2_data: value },
        }
    }

    pub fn new(p1_data: T, p2_data: T) -> (res: PlayersData<T>)
        ensures
            res.p1_data == p1_data,
            res.p2_data == p2_data,
    {
        PlayersData { p1_data, p2_data }
    }

    /// Returns the value that belongs to the given player.
    pub fn index(&self, index: PlayerPos) -> (res: &T)
        ensures
            *res == self[index],
    {
        match index {
            PlayerPos::P1 => &self.p1_data,
            PlayerPos::P2 => &self.p2_data,
        }
    }

    /// Lends out the value that belongs to the given player; the other
    /// player's value stays as it was.
    pub fn index_mut(&mut self, index: PlayerPos) -> (res: &mut T)
        ensures
            *res == old(self)[index],
            *final(self) == old(self).with(index, *final(res)),
    {
        match index {
            PlayerPos::P1 => &mut self.p1_data,
            PlayerPos::P2 => &mut self.p2_data,
        }
    }
}

impl<T: View> View for PlayersData<T> {
    type V = PlayersData<T::V>;

    open spec fn view(&self) -> PlayersData<T::V> {
        PlayersData { p1_data: self.p1_data@, p2_data: self.p2_data@ }
    }
}

/// Reading a player's value after replacing it gives the new value, and
/// the other player's value is untouched.
pub proof fn lemma_with_index<T>(data: PlayersData<T>, p: PlayerPos, q: PlayerPos, value: T)
    ensures
        data.with(p, value)[q] == (if p == q { value } else { data[q] }),
{
}

} // verus!
