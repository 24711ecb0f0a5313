use vstd::prelude::*;

use crate::key::Key;
use crate::state::{Config, MatchAccount, MatchStatus, MoltFlipError, Transfer};

verus! {

/// What setting up the deployment's config reads and writes.
#[derive(Clone, Copy, Debug, PartialEq, Eq)]
pub struct InitConfig {
    /// The config record being filled in.
    pub config: Config,
    /// The asset that every match under this config is staked in.
    pub mint: Key,
    /// The bump seed of the config record's derived address.
    pub bump: u8,
}

/// What creating a match reads and writes.
#[derive(Clone, Copy, Debug, PartialEq, Eq)]
pub struct CreateMatch {
    /// The address of the governing config.
    pub config: Key,
    /// The freshly allocated match record.
    pub match_account: MatchAccount,
    /// The bump seed of the match record's derived address.
    pub bump: u8,
    /// The creator, who signs.
    pub creator: Key,
    /// The creator's token account for the configured asset.
    pub creator_ata: Key,
    /// The match's custody token account.
    pub vault_ata: Key,
}

/// What joining a match reads and writes.
#[derive(Clone, Copy, Debug, PartialEq, Eq)]
pub struct JoinMatch {
    pub match_account: MatchAccount,
    /// The joiner, who signs.
    pub joiner: Key,
    /// The joiner's token account for the configured asset.
    pub joiner_ata: Key,
    /// The match's custody token account.
    pub vault_ata: Key,
}

/// What settling a match reads and writes.
#[derive(Clone, Copy, Debug, PartialEq, Eq)]
pub struct SettleMatch {
    pub config: Config,
    pub match_account: MatchAccount,
    /// The address of the match record, which signs for its custody account.
    pub match_key: Key,
    /// The identity that signs the settlement.
    pub authority: Key,
    /// The match's custody token account.
    pub vault_ata: Key,
    /// The winner's token account for the configured asset.
    pub winner_ata: Key,
}

/// The error that creating a match with `stake` meets, if any.
pub open spec fn create_error(stake: u64) -> Option<MoltFlipError> {
    if stake == 0 {
        Some(MoltFlipError::InvalidStake)
    } else {
        None
    }
}

/// The record that a successful creation writes.
pub open spec fn opened(ctx: CreateMatch, stake: u64) -> MatchAccount {
    MatchAccount {
        config: ctx.config,
        creator: ctx.creator,
        joiner: None,
        stake: stake,
        status: MatchStatus::Open,
        bump: ctx.bump,
    }
}

/// The creator's deposit of `stake` into custody.
pub open spec fn creator_deposit(ctx: CreateMatch, stake: u64) -> Transfer {
    Transfer { from: ctx.creator_ata, to: ctx.vault_ata, authority: ctx.creator, amount: stake }
}

/// The error that `joiner` joining `m` meets, if any, in the order checked.
pub open spec fn join_error(m: MatchAccount, joiner: Key) -> Option<MoltFlipError> {
    if m.status != MatchStatus::Open {
        Some(MoltFlipError::MatchNotOpen)
    } else if m.joiner is Some {
        Some(MoltFlipError::AlreadyJoined)
    } else if m.creator == joiner {
        Some(MoltFlipError::CreatorCannotJoin)
    } else {
        None
    }
}

/// The record after `joiner` has joined `m`.
pub open spec fn locked(m: MatchAccount, joiner: Key) -> MatchAccount {
    MatchAccount { joiner: Some(joiner), status: MatchStatus::Locked, ..m }
}

/// The joiner's deposit of the match's stake into custody.
pub open spec fn joiner_deposit(ctx: JoinMatch) -> Transfer {
    Transfer {
        from: ctx.joiner_ata,
        to: ctx.vault_ata,
        authority: ctx.joiner,
        amount: ctx.match_account.stake,
    }
}

/// The error that settling `m` under `cfg`, signed by `signer` and naming
/// `winner`, meets, if any, in the order checked.
pub open spec fn settle_error(cfg: Config, m: MatchAccount, signer: Key, winner: Key) -> Option<
    MoltFlipError,
> {
    if signer != cfg.authority {
        Some(MoltFlipError::Unauthorized)
    } else if m.status != MatchStatus::Locked {
        Some(MoltFlipError::MatchNotLocked)
    } else if !m.is_participant(winner) {
        Some(MoltFlipError::InvalidWinner)
    } else if 2 * m.stake > u64::MAX {
        Some(MoltFlipError::MathOverflow)
    } else {
        None
    }
}

/// The record after `m` has been settled.
pub open spec fn settled(m: MatchAccount) -> MatchAccount {
    MatchAccount { status: MatchStatus::Settled, ..m }
}

/// The payout of both stakes from custody to the winner's account, signed by
/// the match record.
pub open spec fn payout(ctx: SettleMatch) -> Transfer {
    Transfer {
        from: ctx.vault_ata,
        to: ctx.winner_ata,
        authority: ctx.match_key,
        amount: (2 * ctx.match_account.stake) as u64,
    }
}

/// Fills in the deployment's config: `authority` settles matches, and the
/// context's mint is the asset they are staked in.
pub fn init_config(ctx: &mut InitConfig, authority: Key)
    ensures
        final(ctx).config == (Config { authority: authority, mint: old(ctx).mint, bump: old(ctx).bump }),
        final(ctx).mint == old(ctx).mint,
        final(ctx).bump == old(ctx).bump,
{
    ctx.config = Config { authority, mint: ctx.mint, bump: ctx.bump };
}

/// Opens a match with `stake`, and returns the creator's deposit of `stake`
/// into custody. Fails with `InvalidStake` when `stake` is zero, leaving the
/// context as it was.
pub fn create_match(ctx: &mut CreateMatch, stake: u64) -> (r: Result<Transfer, MoltFlipError>)
    ensures
        r is Ok <==> create_error(stake) is None,
        match r {
            Ok(t) => {
                &&& final(ctx).match_account == opened(*old(ctx), stake)
                &&& final(ctx).config == old(ctx).config
                &&& final(ctx).bump == old(ctx).bump
                &&& final(ctx).creator == old(ctx).creator
                &&& final(ctx).creator_ata == old(ctx).creator_ata
                &&& final(ctx).vault_ata == old(ctx).vault_ata
                &&& t == creator_deposit(*old(ctx), stake)
            },
            Err(e) => create_error(stake) == Some(e) && *final(ctx) == *old(ctx),
        },
{
    if stake == 0 {
        return Err(MoltFlipError::InvalidStake);
    }
    ctx.match_account = MatchAccount {
        config: ctx.config,
        creator: ctx.creator,
        joiner: None,
        stake,
        status: MatchStatus::Open,
        bump: ctx.bump,
    };
    Ok(Transfer { from: ctx.creator_ata, to: ctx.vault_ata, authority: ctx.creator, amount: stake })
}

/// Locks an open match with the context's joiner as second participant, and
/// returns the joiner's deposit of the stake into custody. Fails, leaving the
/// context as it was, with `MatchNotOpen`, `AlreadyJoined` or
/// `CreatorCannotJoin`, checked in that order.
pub fn join_match(ctx: &mut JoinMatch) -> (r: Result<Transfer, MoltFlipError>)
    ensures
        r is Ok <==> join_error(old(ctx).match_account, old(ctx).joiner) is None,
        match r {
            Ok(t) => {
                &&& final(ctx).match_account == locked(old(ctx).match_account, old(ctx).joiner)
                &&& final(ctx).joiner == old(ctx).joiner
                &&& final(ctx).joiner_ata == old(ctx).joiner_ata
                &&& final(ctx).vault_ata == old(ctx).vault_ata
                &&& t == joiner_deposit(*old(ctx))
            },
            Err(e) => {
                &&& join_error(old(ctx).match_account, old(ctx).joiner) == Some(e)
                &&& *final(ctx) == *old(ctx)
            },
        },
{
    if ctx.match_account.status != MatchStatus::Open {
        return Err(MoltFlipError::MatchNotOpen);
    }
    if ctx.match_account.joiner.is_some() {
        return Err(MoltFlipError::AlreadyJoined);
    }
    if ctx.match_account.creator.same(&ctx.joiner) {
        return Err(MoltFlipError::CreatorCannotJoin);
    }
    ctx.match_account.joiner = Some(ctx.joiner);
    ctx.match_account.status = MatchStatus::Locked;
    Ok(
        Transfer {
            from: ctx.joiner_ata,
            to: ctx.vault_ata,
            authority: ctx.joiner,
            amount: ctx.match_account.stake,
        },
    )
}

/// Settles a locked match in favour of `winner`, and returns the payout of
/// both stakes from custody to the winner's account, signed by the match
/// record. Fails, leaving the context as it was, with `Unauthorized`,
/// `MatchNotLocked`, `InvalidWinner` or `MathOverflow`, checked in that order.
pub fn settle_match(ctx: &mut SettleMatch, winner: Key) -> (r: Result<Transfer, MoltFlipError>)
    ensures
        r is Ok <==> settle_error(
            old(ctx).config,
            old(ctx).match_account,
            old(ctx).authority,
            winner,
        ) is None,
        match r {
            Ok(t) => {
                &&& final(ctx).match_account == settled(old(ctx).match_account)
                &&& final(ctx).config == old(ctx).config
                &&& final(ctx).match_key == old(ctx).match_key
                &&& final(ctx).authority == old(ctx).authority
                &&& final(ctx).vault_ata == old(ctx).vault_ata
                &&& final(ctx).winner_ata == old(ctx).winner_ata
                &&& t == payout(*old(ctx))
            },
            Err(e) => settle_error(
                old(ctx).config,
                old(ctx).match_account,
                old(ctx).authority,
                winner,
            ) == Some(e) && *final(ctx) == *old(ctx),
        },
{
    if !ctx.authority.same(&ctx.config.authority) {
        return Err(MoltFlipError::Unauthorized);
    }
    if ctx.match_account.status != MatchStatus::Locked {
        return Err(MoltFlipError::MatchNotLocked);
    }
    if !ctx.match_account.has_participant(&winner) {
        return Err(MoltFlipError::InvalidWinner);
    }
    let amount = match ctx.match_account.stake.checked_mul(2) {
        Some(a) => a,
        None => return Err(MoltFlipError::MathOverflow),
    };
    let payout = Transfer {
        from: ctx.vault_ata,
        to: ctx.winner_ata,
        authority: ctx.match_key,
        amount,
    };
    ctx.match_account.status = MatchStatus::Settled;
    Ok(payout)
}

} // verus!
