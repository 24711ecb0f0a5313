use vstd::prelude::*;

use crate::key::Key;
use crate::lifecycle::{
    creator_deposit, create_error, join_error, joiner_deposit, locked, opened, payout,
    settle_error, settled, CreateMatch, JoinMatch, SettleMatch,
};
use crate::state::{Config, MatchAccount, MatchStatus, MoltFlipError};

verus! {

/// Creating a match with a positive stake succeeds, deposits exactly that
/// stake into the match's custody account, and leaves custody holding the
/// stake.
pub proof fn create_funds_custody(ctx: CreateMatch, stake: u64)
    requires
        stake > 0,
    ensures
        create_error(stake) is None,
        creator_deposit(ctx, stake).to == ctx.vault_ata,
        creator_deposit(ctx, stake).amount == stake,
        opened(ctx, stake).custody_balance() == stake,
        opened(ctx, stake).wf(),
{
}

/// Joining a match that is not open fails with `MatchNotOpen`, whatever its
/// status and whoever joins.
pub proof fn join_needs_open_match(m: MatchAccount, joiner: Key)
    requires
        m.status != MatchStatus::Open,
    ensures
        join_error(m, joiner) == Some(MoltFlipError::MatchNotOpen),
{
}

/// A successful join deposits one more stake into custody, so that custody
/// then holds both stakes.
pub proof fn join_fills_custody(ctx: JoinMatch)
    requires
        ctx.match_account.wf(),
        join_error(ctx.match_account, ctx.joiner) is None,
    ensures
        joiner_deposit(ctx).to == ctx.vault_ata,
        locked(ctx.match_account, ctx.joiner).custody_balance() == ctx.match_account.custody_balance()
            + joiner_deposit(ctx).amount,
        locked(ctx.match_account, ctx.joiner).custody_balance() == 2 * ctx.match_account.stake,
{
}

/// A successful settlement pays out exactly twice the stake from custody,
/// which is all that custody held, and leaves custody empty.
pub proof fn settle_drains_custody(ctx: SettleMatch, winner: Key)
    requires
        settle_error(ctx.config, ctx.match_account, ctx.authority, winner) is None,
    ensures
        payout(ctx).amount == 2 * ctx.match_account.stake,
        payout(ctx).from == ctx.vault_ata,
        payout(ctx).amount == ctx.match_account.custody_balance(),
        settled(ctx.match_account).custody_balance() == 0,
{
}

/// Once a match is settled, every further settlement of it fails, with
/// `MatchNotLocked` when the authority signs, and so does every join.
pub proof fn settled_is_terminal(
    cfg: Config,
    m: MatchAccount,
    signer: Key,
    winner: Key,
    next_signer: Key,
    next_winner: Key,
    joiner: Key,
)
    requires
        settle_error(cfg, m, signer, winner) is None,
    ensures
        settle_error(cfg, settled(m), next_signer, next_winner) is Some,
        next_signer == cfg.authority ==> settle_error(cfg, settled(m), next_signer, next_winner)
            == Some(MoltFlipError::MatchNotLocked),
        join_error(settled(m), joiner) == Some(MoltFlipError::MatchNotOpen),
{
}

/// Only the config's authority can bring a match to `Settled`: creating and
/// joining never do, and a settlement succeeds only when the authority signs.
pub proof fn only_authority_settles(
    create: CreateMatch,
    stake: u64,
    m: MatchAccount,
    joiner: Key,
    cfg: Config,
    signer: Key,
    winner: Key,
)
    ensures
        opened(create, stake).status != MatchStatus::Settled,
        join_error(m, joiner) is None ==> locked(m, joiner).status != MatchStatus::Settled,
        settle_error(cfg, m, signer, winner) is None ==> signer == cfg.authority,
{
}

/// Every operation that succeeds on a well-formed record leaves it
/// well-formed, and a created record starts out well-formed.
pub proof fn operations_keep_record_well_formed(
    create: CreateMatch,
    stake: u64,
    m: MatchAccount,
    joiner: Key,
    cfg: Config,
    signer: Key,
    winner: Key,
)
    ensures
        create_error(stake) is None ==> opened(create, stake).wf(),
        m.wf() && join_error(m, joiner) is None ==> locked(m, joiner).wf(),
        m.wf() && settle_error(cfg, m, signer, winner) is None ==> settled(m).wf(),
{
}

} // verus!
