use vstd::prelude::*;

use crate::key::Key;

verus! {

/// The deployment-wide record: who may settle matches, and which asset they
/// are staked in.
#[derive(Clone, Copy, Debug, PartialEq, Eq)]
pub struct Config {
    pub authority: Key,
    pub mint: Key,
    pub bump: u8,
}

/// Where a match stands in its lifecycle.
#[derive(Clone, Copy, Debug, PartialEq, Eq, Structural)]
pub enum MatchStatus {
    Open,
    Locked,
    Settled,
    Canceled,
}

/// One escrow between a creator and a joiner over a fixed stake.
///
/// `joiner` is `None` until the match is joined.
#[derive(Clone, Copy, Debug, PartialEq, Eq)]
pub struct MatchAccount {
    pub config: Key,
    pub creator: Key,
    pub joiner: Option<Key>,
    pub stake: u64,
    pub status: MatchStatus,
    pub bump: u8,
}

/// The reasons an operation on a match is refused.
#[derive(Clone, Copy, Debug, PartialEq, Eq, Structural)]
pub enum MoltFlipError {
    InvalidStake,
    MatchNotOpen,
    AlreadyJoined,
    CreatorCannotJoin,
    Unauthorized,
    MatchNotLocked,
    InvalidWinner,
    MathOverflow,
}

/// A movement of `amount` units of the configured asset from one token
/// account to another, signed by `authority`. The operations on a match hand
/// one back; the host carries it out together with the record's new state.
#[derive(Clone, Copy, Debug, PartialEq, Eq)]
pub struct Transfer {
    pub from: Key,
    pub to: Key,
    pub authority: Key,
    pub amount: u64,
}

impl MatchAccount {
    /// Whether `k` is one of the match's two participants.
    pub open spec fn is_participant(self, k: Key) -> bool {
        k == self.creator || self.joiner == Some(k)
    }

    /// How many units the match's custody account holds: one stake for each
    /// participant that has deposited and not yet been paid out.
    pub open spec fn custody_balance(self) -> int {
        match self.status {
            MatchStatus::Open => self.stake as int,
            MatchStatus::Locked => 2 * self.stake,
            MatchStatus::Settled => 0,
            MatchStatus::Canceled => 0,
        }
    }

    /// The record's own invariant, which holds between operations.
    pub open spec fn wf(self) -> bool {
        &&& (self.status is Open || self.status is Locked) ==> self.stake > 0
        &&& self.status is Open <==> self.joiner is None
        &&& self.joiner != Some(self.creator)
    }

    /// The seeds under which the match record signs for its custody account:
    /// the bytes of `match` in ASCII, the creator's bytes and the record's bump.
    pub fn signer_seeds(&self) -> (r: Vec<Vec<u8>>)
        ensures
            r@.len() == 3,
            r@[0]@ == seq![109u8, 97u8, 116u8, 99u8, 104u8],
            r@[1]@ == self.creator.bytes@,
            r@[2]@ == seq![self.bump],
    {
        let tag: Vec<u8> = vec![109u8, 97u8, 116u8, 99u8, 104u8];
        let mut creator: Vec<u8> = Vec::new();
        let mut i: usize = 0;
        while i < 32
            invariant
                0 <= i <= 32,
                creator@ == self.creator.bytes@.subrange(0, i as int),
            decreases 32 - i,
        {
            creator.push(self.creator.bytes[i]);
            i = i + 1;
        }
        assert(creator@ =~= self.creator.bytes@);
        let bump: Vec<u8> = vec![self.bump];
        let mut r: Vec<Vec<u8>> = Vec::new();
        r.push(tag);
        r.push(creator);
        r.push(bump);
        r
    }

    /// Whether `k` is one of the match's two participants.
    pub fn has_participant(&self, k: &Key) -> (r: bool)
        ensures
            r == self.is_participant(*k),
    {
        if k.same(&self.creator) {
            return true;
        }
        match &self.joiner {
            Some(j) => k.same(j),
            None => false,
        }
    }
}

} // verus!
