use vstd::prelude::*;
use crate::constants::{MAX_DESCRIPTION_LENGTH, MAX_TITLE_LENGTH, MIN_TIP_AMOUNT, RATE_DENOMINATOR};
use crate::errors::CreatorEconomyError;
use vstd::string::StrSliceExecFns;
use crate::state::{Content, CreatorProfile, Platform, Pubkey};
use crate::tip::{
    admission_keeps_cap, admit_early_supporter, first_payee_error, mismatched_payee_fails, payee_error, payout_count, plan_supporter_payouts, pool_of,
    share, split_fits, split_tip, supporter_transfers, supporters_after, tip_rejection,
    validate_tip, PayeeAccount, Recipient, Transfer,
};

verus! {

// ------------------------------------------------------------------ platform

/// The records that platform initialization works on.
#[derive(Debug, Clone, Copy, PartialEq, Eq)]
pub struct InitializePlatform {
    /// The platform's owner, who signs.
    pub authority: Pubkey,
    /// The platform record to fill.
    pub platform: Platform,
    /// The bump found for the platform record's address.
    pub platform_bump: u8,
}

/// Both rates and their sum stay below the denominator.
pub open spec fn rates_valid(early_supporter_rate: u16, platform_fee_rate: u16) -> bool {
    &&& (early_supporter_rate as int) < RATE_DENOMINATOR as int
    &&& (platform_fee_rate as int) < RATE_DENOMINATOR as int
    &&& (early_supporter_rate as int + platform_fee_rate as int) < RATE_DENOMINATOR as int
}

/// Fills the platform record; refuses rates that leave no creator share.
pub fn initialize_platform(
    ctx: &mut InitializePlatform,
    early_supporter_limit: u8,
    early_supporter_rate: u16,
    platform_fee_rate: u16,
) -> (r: Result<(), CreatorEconomyError>)
    ensures
        r is Ok <==> rates_valid(early_supporter_rate, platform_fee_rate),
        r is Err ==> r == Err::<(), CreatorEconomyError>(CreatorEconomyError::InvalidFeeRate)
            && *final(ctx) == *old(ctx),
        r is Ok ==> *final(ctx) == (InitializePlatform {
            platform: Platform {
                authority: old(ctx).authority,
                total_content_count: 0,
                early_supporter_limit,
                early_supporter_rate,
                platform_fee_rate,
                bump: old(ctx).platform_bump,
            },
            ..*old(ctx)
        }),
{
    if early_supporter_rate >= RATE_DENOMINATOR as u16 {
        return Err(CreatorEconomyError::InvalidFeeRate);
    }
    if platform_fee_rate >= RATE_DENOMINATOR as u16 {
        return Err(CreatorEconomyError::InvalidFeeRate);
    }
    if early_supporter_rate as u64 + platform_fee_rate as u64 >= RATE_DENOMINATOR {
        return Err(CreatorEconomyError::InvalidFeeRate);
    }
    ctx.platform = Platform {
        authority: ctx.authority,
        total_content_count: 0,
        early_supporter_limit,
        early_supporter_rate,
        platform_fee_rate,
        bump: ctx.platform_bump,
    };
    Ok(())
}

// ------------------------------------------------------------------- profile

/// The records that profile creation works on.
#[derive(Debug, Clone, Copy, PartialEq, Eq)]
pub struct CreateCreatorProfile {
    /// The creator, who signs.
    pub creator: Pubkey,
    /// The profile record to fill.
    pub creator_profile: CreatorProfile,
    /// The bump found for the profile's address.
    pub creator_profile_bump: u8,
}

/// Fills a fresh profile for the signing creator, created at unix time `now`.
pub fn create_creator_profile(ctx: &mut CreateCreatorProfile, now: i64)
    ensures
        *final(ctx) == (CreateCreatorProfile {
            creator_profile: CreatorProfile {
                creator: old(ctx).creator,
                content_count: 0,
                total_earnings: 0,
                created_at: now,
                bump: old(ctx).creator_profile_bump,
            },
            ..*old(ctx)
        }),
{
    ctx.creator_profile = CreatorProfile {
        creator: ctx.creator,
        content_count: 0,
        total_earnings: 0,
        created_at: now,
        bump: ctx.creator_profile_bump,
    };
}

// ------------------------------------------------------------------- publish

/// The records that publishing works on.
#[derive(Debug, Clone, PartialEq, Eq)]
pub struct PublishContent {
    /// The creator, who signs.
    pub creator: Pubkey,
    /// The creator's profile.
    pub creator_profile: CreatorProfile,
    /// The content record to fill.
    pub content: Content,
    /// The platform record.
    pub platform: Platform,
    /// The bump found for the content record's address.
    pub content_bump: u8,
}

/// Why publishing fails, if it does.
pub open spec fn publish_error(ctx: PublishContent, title: Seq<char>, description: Seq<char>) -> Option<
    CreatorEconomyError,
> {
    if title.len() > MAX_TITLE_LENGTH as int {
        Some(CreatorEconomyError::TitleTooLong)
    } else if description.len() > MAX_DESCRIPTION_LENGTH as int {
        Some(CreatorEconomyError::DescriptionTooLong)
    } else if ctx.platform.total_content_count == u64::MAX || ctx.creator_profile.content_count
        == u32::MAX {
        Some(CreatorEconomyError::ArithmeticOverflow)
    } else {
        None
    }
}

/// Publishes a content item with the next content id and counts it on the
/// platform and the creator's profile; created at unix time `now`.
pub fn publish_content(ctx: &mut PublishContent, title: String, description: String, now: i64) -> (r:
    Result<(), CreatorEconomyError>)
    ensures
        match r {
            Ok(_) => {
                &&& publish_error(*old(ctx), title@, description@) is None
                &&& final(ctx).creator == old(ctx).creator
                &&& final(ctx).content_bump == old(ctx).content_bump
                &&& final(ctx).platform == (Platform {
                    total_content_count: (old(ctx).platform.total_content_count + 1) as u64,
                    ..old(ctx).platform
                })
                &&& final(ctx).creator_profile == (CreatorProfile {
                    content_count: (old(ctx).creator_profile.content_count + 1) as u32,
                    ..old(ctx).creator_profile
                })
                &&& final(ctx).content.content_id == old(ctx).platform.total_content_count
                &&& final(ctx).content.creator == old(ctx).creator
                &&& final(ctx).content.title@ == title@
                &&& final(ctx).content.description@ == description@
                &&& final(ctx).content.total_tips == 0
                &&& final(ctx).content.tip_count == 0
                &&& final(ctx).content.early_supporters@ == Seq::<Pubkey>::empty()
                &&& final(ctx).content.created_at == now
                &&& final(ctx).content.bump == old(ctx).content_bump
            },
            Err(e) => {
                &&& publish_error(*old(ctx), title@, description@) == Some(e)
                &&& *final(ctx) == *old(ctx)
            },
        },
{
    if title.as_str().unicode_len() > MAX_TITLE_LENGTH {
        return Err(CreatorEconomyError::TitleTooLong);
    }
    if description.as_str().unicode_len() > MAX_DESCRIPTION_LENGTH {
        return Err(CreatorEconomyError::DescriptionTooLong);
    }
    let total_content_count = match ctx.platform.total_content_count.checked_add(1) {
        Some(c) => c,
        None => return Err(CreatorEconomyError::ArithmeticOverflow),
    };
    let content_count = match ctx.creator_profile.content_count.checked_add(1) {
        Some(c) => c,
        None => return Err(CreatorEconomyError::ArithmeticOverflow),
    };
    ctx.content = Content {
        content_id: ctx.platform.total_content_count,
        creator: ctx.creator,
        title,
        description,
        total_tips: 0,
        tip_count: 0,
        early_supporters: Vec::new(),
        created_at: now,
        bump: ctx.content_bump,
    };
    ctx.platform.total_content_count = total_content_count;
    ctx.creator_profile.content_count = content_count;
    Ok(())
}

// ----------------------------------------------------------------------- tip

/// The records that a tip works on.
#[derive(Debug, Clone, PartialEq, Eq)]
pub struct TipContent {
    /// The tipper, who signs and pays.
    pub tipper: Pubkey,
    /// The content's creator, who receives the creator share.
    pub creator: Pubkey,
    /// The tipped content.
    pub content: Content,
    /// The creator's profile.
    pub creator_profile: CreatorProfile,
    /// The platform record (read only).
    pub platform: Platform,
    /// The platform treasury, which receives the fee.
    pub platform_treasury: Pubkey,
}

/// The content's early supporters once this tip's tipper has been considered.
pub open spec fn tip_supporters(ctx: TipContent) -> Seq<Pubkey> {
    supporters_after(ctx.content.early_supporters@, ctx.platform.early_supporter_limit, ctx.tipper)
}

/// The tip can be split without overflow.
pub open spec fn tip_fits(ctx: TipContent, amount: u64) -> bool {
    split_fits(
        amount,
        ctx.platform.platform_fee_rate,
        ctx.platform.early_supporter_rate,
        tip_supporters(ctx).len() as int,
        ctx.platform.early_supporter_limit,
    )
}

/// The platform fee of a tip.
pub open spec fn tip_fee(ctx: TipContent, amount: u64) -> int {
    share(amount, ctx.platform.platform_fee_rate)
}

/// The supporter pool of a tip.
pub open spec fn tip_pool(ctx: TipContent, amount: u64) -> int {
    pool_of(
        amount,
        ctx.platform.early_supporter_rate,
        tip_supporters(ctx).len() as int,
        ctx.platform.early_supporter_limit,
    )
}

/// The creator's share of a tip: what fee and pool leave.
pub open spec fn tip_creator_amount(ctx: TipContent, amount: u64) -> int {
    amount - tip_fee(ctx, amount) - tip_pool(ctx, amount)
}

/// The first payee that does not match its early supporter, among those paid.
pub open spec fn tip_payee_error(ctx: TipContent, payees: Seq<PayeeAccount>, amount: u64) -> Option<
    CreatorEconomyError,
> {
    first_payee_error(
        tip_supporters(ctx),
        payees,
        payout_count(tip_pool(ctx, amount) as u64, tip_supporters(ctx), payees),
    )
}

/// The running totals can take this tip.
pub open spec fn tip_stats_fit(ctx: TipContent, amount: u64) -> bool {
    &&& ctx.content.total_tips + amount <= u64::MAX
    &&& ctx.content.tip_count + 1 <= u32::MAX
    &&& ctx.creator_profile.total_earnings + tip_creator_amount(ctx, amount) <= u64::MAX
}

/// Why a tip fails, if it does, checked in this order.
pub open spec fn tip_error(ctx: TipContent, payees: Seq<PayeeAccount>, amount: u64) -> Option<
    CreatorEconomyError,
> {
    if tip_rejection(ctx.tipper, ctx.creator, amount) is Some {
        tip_rejection(ctx.tipper, ctx.creator, amount)
    } else if !tip_fits(ctx, amount) {
        Some(CreatorEconomyError::ArithmeticOverflow)
    } else if tip_payee_error(ctx, payees, amount) is Some {
        tip_payee_error(ctx, payees, amount)
    } else if !tip_stats_fit(ctx, amount) {
        Some(CreatorEconomyError::ArithmeticOverflow)
    } else {
        None
    }
}

/// The transfers of a successful tip: the fee to the treasury if there is
/// one, the creator share (even when zero), then each paid supporter.
pub open spec fn tip_transfers(ctx: TipContent, payees: Seq<PayeeAccount>, amount: u64) -> Seq<
    Transfer,
> {
    let to_creator = Transfer {
        to: Recipient::Creator,
        lamports: tip_creator_amount(ctx, amount) as u64,
    };
    let head = if tip_fee(ctx, amount) > 0 {
        seq![Transfer { to: Recipient::Treasury, lamports: tip_fee(ctx, amount) as u64 }, to_creator]
    } else {
        seq![to_creator]
    };
    head + supporter_transfers(tip_pool(ctx, amount) as u64, tip_supporters(ctx), payees)
}

/// `after` is `before` with one tip of `amount` recorded: the supporter list
/// updated, the totals raised, everything else kept.
pub open spec fn tip_applied(before: TipContent, after: TipContent, amount: u64) -> bool {
    &&& after.tipper == before.tipper
    &&& after.creator == before.creator
    &&& after.platform == before.platform
    &&& after.platform_treasury == before.platform_treasury
    &&& after.content.content_id == before.content.content_id
    &&& after.content.creator == before.content.creator
    &&& after.content.title == before.content.title
    &&& after.content.description == before.content.description
    &&& after.content.created_at == before.content.created_at
    &&& after.content.bump == before.content.bump
    &&& after.content.early_supporters@ == tip_supporters(before)
    &&& after.content.total_tips == before.content.total_tips + amount
    &&& after.content.tip_count == before.content.tip_count + 1
    &&& after.creator_profile == (CreatorProfile {
        total_earnings: (before.creator_profile.total_earnings + tip_creator_amount(
            before,
            amount,
        )) as u64,
        ..before.creator_profile
    })
}

/// A creator cannot tip their own content: a tip of at least the minimum
/// with the creator as tipper fails with `CannotTipSelf`, whatever the
/// records and payees (a smaller tip fails first, with `TipTooSmall`).
pub proof fn self_tip_rejected(ctx: TipContent, payees: Seq<PayeeAccount>, amount: u64)
    requires
        amount >= MIN_TIP_AMOUNT,
        ctx.tipper == ctx.creator,
    ensures
        tip_error(ctx, payees, amount) == Some(CreatorEconomyError::CannotTipSelf),
{
}

/// A tip below the minimum always fails with `TipTooSmall`.
pub proof fn small_tip_rejected(ctx: TipContent, payees: Seq<PayeeAccount>, amount: u64)
    requires
        amount < MIN_TIP_AMOUNT,
    ensures
        tip_error(ctx, payees, amount) == Some(CreatorEconomyError::TipTooSmall),
{
}

/// A recorded tip keeps the early-supporter list within the platform's limit.
pub proof fn tip_keeps_cap(before: TipContent, after: TipContent, amount: u64)
    requires
        before.content.early_supporters@.len() <= before.platform.early_supporter_limit as int,
        tip_applied(before, after, amount),
    ensures
        after.content.early_supporters@.len() <= after.platform.early_supporter_limit as int,
{
    admission_keeps_cap(
        before.content.early_supporters@,
        before.platform.early_supporter_limit,
        before.tipper,
    );
}

/// A payee that is not the early supporter at its position fails the whole
/// tip with `InvalidSupporterAccount`, so no transfer is made and no record
/// changes. This holds for a tip that passes validation and splits without
/// overflow (else that error comes first), where no earlier payee is the
/// right account yet not writable (else `AccountNotWritable` comes first).
pub proof fn tip_mismatched_payee_fails(ctx: TipContent, payees: Seq<PayeeAccount>, amount: u64, i: int)
    requires
        tip_rejection(ctx.tipper, ctx.creator, amount) is None,
        tip_fits(ctx, amount),
        0 <= i < payout_count(tip_pool(ctx, amount) as u64, tip_supporters(ctx), payees),
        payees[i].key != tip_supporters(ctx)[i],
        forall|j: int|
            0 <= j < i ==> payee_error(payees[j], tip_supporters(ctx)[j]) != Some(
                CreatorEconomyError::AccountNotWritable,
            ),
    ensures
        tip_error(ctx, payees, amount) == Some(CreatorEconomyError::InvalidSupporterAccount),
{
    mismatched_payee_fails(tip_pool(ctx, amount) as u64, tip_supporters(ctx), payees, i);
}

/// Tips `amount` lamports on the content, paying out of the tipper's account
/// through `remaining_accounts`, the early supporters' accounts in list order.
/// On success the records hold the tip and the result lists the transfers the
/// ledger must make; on failure nothing changes.
pub fn tip_content(ctx: &mut TipContent, remaining_accounts: &Vec<PayeeAccount>, amount: u64) -> (r:
    Result<Vec<Transfer>, CreatorEconomyError>)
    ensures
        match r {
            Ok(t) => {
                &&& tip_error(*old(ctx), remaining_accounts@, amount) is None
                &&& tip_applied(*old(ctx), *final(ctx), amount)
                &&& t@ == tip_transfers(*old(ctx), remaining_accounts@, amount)
            },
            Err(e) => {
                &&& tip_error(*old(ctx), remaining_accounts@, amount) == Some(e)
                &&& *final(ctx) == *old(ctx)
            },
        },
{
    match validate_tip(&ctx.tipper, &ctx.creator, amount) {
        Ok(_) => {},
        Err(e) => return Err(e),
    }
    let limit = ctx.platform.early_supporter_limit;
    let current_len = ctx.content.early_supporters.len();
    let supporters_len: usize = if current_len < limit as usize {
        current_len + 1
    } else {
        current_len
    };
    let split = match split_tip(
        amount,
        ctx.platform.platform_fee_rate,
        ctx.platform.early_supporter_rate,
        supporters_len,
        limit,
    ) {
        Ok(s) => s,
        Err(e) => return Err(e),
    };
    let mut transfers: Vec<Transfer> = Vec::new();
    if split.platform_fee > 0 {
        transfers.push(Transfer { to: Recipient::Treasury, lamports: split.platform_fee });
    }
    transfers.push(Transfer { to: Recipient::Creator, lamports: split.creator_amount });
    // The pool is paid only when the list is past its limit, so no slot was
    // free and the list that the payees answer to is the current one.
    let mut payouts = match plan_supporter_payouts(
        split.supporter_pool,
        &ctx.content.early_supporters,
        remaining_accounts,
    ) {
        Ok(t) => t,
        Err(e) => return Err(e),
    };
    transfers.append(&mut payouts);
    let total_tips = match ctx.content.total_tips.checked_add(amount) {
        Some(v) => v,
        None => return Err(CreatorEconomyError::ArithmeticOverflow),
    };
    let tip_count = match ctx.content.tip_count.checked_add(1) {
        Some(v) => v,
        None => return Err(CreatorEconomyError::ArithmeticOverflow),
    };
    let total_earnings = match ctx.creator_profile.total_earnings.checked_add(split.creator_amount) {
        Some(v) => v,
        None => return Err(CreatorEconomyError::ArithmeticOverflow),
    };
    let tipper = ctx.tipper;
    admit_early_supporter(&mut ctx.content.early_supporters, limit, tipper);
    ctx.content.total_tips = total_tips;
    ctx.content.tip_count = tip_count;
    ctx.creator_profile.total_earnings = total_earnings;
    Ok(transfers)
}

} // verus!
