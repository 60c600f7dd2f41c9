use vstd::prelude::*;
use crate::constants::{MIN_TIP_AMOUNT, RATE_DENOMINATOR};
use crate::errors::CreatorEconomyError;
use crate::state::Pubkey;

verus! {

/// A payee account handed in with a tip, meant to be the early supporter at
/// the same position of the content's list.
#[derive(Debug, Clone, Copy, PartialEq, Eq)]
pub struct PayeeAccount {
    /// The account's address.
    pub key: Pubkey,
    /// Whether the account can receive value in this operation.
    pub is_writable: bool,
}

/// Where a transfer of a tip goes.
#[derive(Debug, Clone, Copy, PartialEq, Eq, Structural)]
pub enum Recipient {
    /// The platform treasury.
    Treasury,
    /// The content's creator.
    Creator,
    /// The payee account at this position of the list handed in.
    Supporter(usize),
}

/// One transfer from the tipper that a successful tip asks the ledger to make.
#[derive(Debug, Clone, Copy, PartialEq, Eq, Structural)]
pub struct Transfer {
    pub to: Recipient,
    pub lamports: u64,
}

/// How one tip is divided.
#[derive(Debug, Clone, Copy, PartialEq, Eq, Structural)]
pub struct FeeSplit {
    /// The platform treasury's share.
    pub platform_fee: u64,
    /// The share fanned out to the early supporters.
    pub supporter_pool: u64,
    /// The creator's share: what is left.
    pub creator_amount: u64,
}

// ---------------------------------------------------------------- validation

/// Why a tip request is malformed, before any record is read.
pub open spec fn tip_rejection(tipper: Pubkey, creator: Pubkey, amount: u64) -> Option<
    CreatorEconomyError,
> {
    if amount < MIN_TIP_AMOUNT {
        Some(CreatorEconomyError::TipTooSmall)
    } else if tipper == creator {
        Some(CreatorEconomyError::CannotTipSelf)
    } else {
        None
    }
}

/// Refuses a tip below the minimum, then a tip of one's own content.
pub fn validate_tip(tipper: &Pubkey, creator: &Pubkey, amount: u64) -> (r: Result<
    (),
    CreatorEconomyError,
>)
    ensures
        match r {
            Ok(_) => tip_rejection(*tipper, *creator, amount) is None,
            Err(e) => tip_rejection(*tipper, *creator, amount) == Some(e),
        },
{
    if amount < MIN_TIP_AMOUNT {
        return Err(CreatorEconomyError::TipTooSmall);
    }
    if tipper.eq(creator) {
        return Err(CreatorEconomyError::CannotTipSelf);
    }
    Ok(())
}

// ------------------------------------------------------------ early supporters

/// A tipper is admitted while the list is shorter than the limit.
pub open spec fn admits(supporters: Seq<Pubkey>, limit: u8) -> bool {
    supporters.len() < limit as int
}

/// The list after a tip by `tipper`: the tipper appended if admitted.
pub open spec fn supporters_after(supporters: Seq<Pubkey>, limit: u8, tipper: Pubkey) -> Seq<
    Pubkey,
> {
    if admits(supporters, limit) {
        supporters.push(tipper)
    } else {
        supporters
    }
}

/// Appends `tipper` to the early supporters if a slot is free; says whether it did.
pub fn admit_early_supporter(supporters: &mut Vec<Pubkey>, limit: u8, tipper: Pubkey) -> (admitted:
    bool)
    ensures
        admitted == admits(old(supporters)@, limit),
        final(supporters)@ == supporters_after(old(supporters)@, limit, tipper),
{
    if supporters.len() < limit as usize {
        supporters.push(tipper);
        true
    } else {
        false
    }
}

/// The list after a run of tips by `tippers`, in order.
pub open spec fn supporters_after_tips(supporters: Seq<Pubkey>, limit: u8, tippers: Seq<Pubkey>) -> Seq<
    Pubkey,
>
    decreases tippers.len(),
{
    if tippers.len() == 0 {
        supporters
    } else {
        supporters_after_tips(
            supporters_after(supporters, limit, tippers[0]),
            limit,
            tippers.subrange(1, tippers.len() as int),
        )
    }
}

/// A tip never takes the list past its limit.
pub proof fn admission_keeps_cap(supporters: Seq<Pubkey>, limit: u8, tipper: Pubkey)
    requires
        supporters.len() <= limit as int,
    ensures
        supporters_after(supporters, limit, tipper).len() <= limit as int,
{
}

/// No run of tips takes the list past its limit.
pub proof fn tips_keep_cap(supporters: Seq<Pubkey>, limit: u8, tippers: Seq<Pubkey>)
    requires
        supporters.len() <= limit as int,
    ensures
        supporters_after_tips(supporters, limit, tippers).len() <= limit as int,
    decreases tippers.len(),
{
    if tippers.len() > 0 {
        admission_keeps_cap(supporters, limit, tippers[0]);
        tips_keep_cap(
            supporters_after(supporters, limit, tippers[0]),
            limit,
            tippers.subrange(1, tippers.len() as int),
        );
    }
}

/// A full list is terminal: once every slot is taken, no tip changes the list.
pub proof fn full_list_stays(supporters: Seq<Pubkey>, limit: u8, tippers: Seq<Pubkey>)
    requires
        supporters.len() >= limit as int,
    ensures
        supporters_after_tips(supporters, limit, tippers) == supporters,
    decreases tippers.len(),
{
    if tippers.len() > 0 {
        full_list_stays(supporters, limit, tippers.subrange(1, tippers.len() as int));
    }
}

/// While the list respects its limit, the pool of the next tip is empty: the
/// pool is paid only past the limit, which admission never reaches.
pub proof fn supporter_pool_stays_empty(
    supporters: Seq<Pubkey>,
    limit: u8,
    tipper: Pubkey,
    amount: u64,
    early_supporter_rate: u16,
)
    requires
        supporters.len() <= limit as int,
    ensures
        pool_of(
            amount,
            early_supporter_rate,
            supporters_after(supporters, limit, tipper).len() as int,
            limit,
        ) == 0,
{
}

// --------------------------------------------------------------- fee splitting

/// `amount * rate / RATE_DENOMINATOR`, rounded down.
pub open spec fn share(amount: u64, rate: u16) -> int {
    (amount as int * rate as int) / (RATE_DENOMINATOR as int)
}

/// The supporter pool is paid only once the list is longer than the limit.
pub open spec fn pool_active(supporters_len: int, limit: u8) -> bool {
    supporters_len > limit as int
}

/// The supporter pool of a tip.
pub open spec fn pool_of(amount: u64, early_supporter_rate: u16, supporters_len: int, limit: u8) -> int {
    if pool_active(supporters_len, limit) {
        share(amount, early_supporter_rate)
    } else {
        0
    }
}

/// The split can be computed without overflow or underflow.
pub open spec fn split_fits(
    amount: u64,
    platform_fee_rate: u16,
    early_supporter_rate: u16,
    supporters_len: int,
    limit: u8,
) -> bool {
    &&& amount as int * platform_fee_rate as int <= u64::MAX
    &&& pool_active(supporters_len, limit) ==> amount as int * early_supporter_rate as int
        <= u64::MAX
    &&& share(amount, platform_fee_rate) + pool_of(
        amount,
        early_supporter_rate,
        supporters_len,
        limit,
    ) <= amount
}

/// `s` is the split of `amount`: fee and pool by their rates, the rest to the creator.
pub open spec fn is_split_of(
    s: FeeSplit,
    amount: u64,
    platform_fee_rate: u16,
    early_supporter_rate: u16,
    supporters_len: int,
    limit: u8,
) -> bool {
    &&& s.platform_fee == share(amount, platform_fee_rate)
    &&& s.supporter_pool == pool_of(amount, early_supporter_rate, supporters_len, limit)
    &&& s.creator_amount == amount - s.platform_fee - s.supporter_pool
}

/// Divides `amount` into platform fee, supporter pool and creator share, with
/// checked arithmetic; `supporters_len` is the list's length after admission.
pub fn split_tip(
    amount: u64,
    platform_fee_rate: u16,
    early_supporter_rate: u16,
    supporters_len: usize,
    early_supporter_limit: u8,
) -> (r: Result<FeeSplit, CreatorEconomyError>)
    ensures
        match r {
            Ok(s) => {
                &&& split_fits(
                    amount,
                    platform_fee_rate,
                    early_supporter_rate,
                    supporters_len as int,
                    early_supporter_limit,
                )
                &&& is_split_of(
                    s,
                    amount,
                    platform_fee_rate,
                    early_supporter_rate,
                    supporters_len as int,
                    early_supporter_limit,
                )
                &&& s.platform_fee + s.supporter_pool + s.creator_amount == amount
            },
            Err(e) => {
                &&& !split_fits(
                    amount,
                    platform_fee_rate,
                    early_supporter_rate,
                    supporters_len as int,
                    early_supporter_limit,
                )
                &&& e == CreatorEconomyError::ArithmeticOverflow
            },
        },
{
    let fee_product = match amount.checked_mul(platform_fee_rate as u64) {
        Some(p) => p,
        None => return Err(CreatorEconomyError::ArithmeticOverflow),
    };
    let platform_fee = fee_product / RATE_DENOMINATOR;
    let supporter_pool = if supporters_len > early_supporter_limit as usize {
        match amount.checked_mul(early_supporter_rate as u64) {
            Some(p) => p / RATE_DENOMINATOR,
            None => return Err(CreatorEconomyError::ArithmeticOverflow),
        }
    } else {
        0
    };
    let after_fee = match amount.checked_sub(platform_fee) {
        Some(a) => a,
        None => return Err(CreatorEconomyError::ArithmeticOverflow),
    };
    let creator_amount = match after_fee.checked_sub(supporter_pool) {
        Some(a) => a,
        None => return Err(CreatorEconomyError::ArithmeticOverflow),
    };
    Ok(FeeSplit { platform_fee, supporter_pool, creator_amount })
}

/// The split conserves value: when the platform's rates leave a creator share
/// and the products fit in 64 bits, the split succeeds and fee, pool and
/// creator share add up to the tip exactly.
pub proof fn split_conserves_amount(
    amount: u64,
    platform_fee_rate: u16,
    early_supporter_rate: u16,
    supporters_len: int,
    limit: u8,
)
    requires
        (platform_fee_rate as int + early_supporter_rate as int) < RATE_DENOMINATOR as int,
        amount as int * platform_fee_rate as int <= u64::MAX,
        amount as int * early_supporter_rate as int <= u64::MAX,
    ensures
        split_fits(amount, platform_fee_rate, early_supporter_rate, supporters_len, limit),
        share(amount, platform_fee_rate) + pool_of(
            amount,
            early_supporter_rate,
            supporters_len,
            limit,
        ) + (amount - share(amount, platform_fee_rate) - pool_of(
            amount,
            early_supporter_rate,
            supporters_len,
            limit,
        )) == amount,
{
    let a = amount as int;
    let f = platform_fee_rate as int;
    let e = early_supporter_rate as int;
    assert((a * f) / 10000 + (a * e) / 10000 <= a) by (nonlinear_arith)
        requires
            0 <= a,
            0 <= f,
            0 <= e,
            f + e < 10000,
    {
        assert((a * f) / 10000 * 10000 <= a * f);
        assert((a * e) / 10000 * 10000 <= a * e);
        assert(a * f + a * e <= a * 10000);
    }
    assert(0 <= (a * e) / 10000) by (nonlinear_arith)
        requires
            0 <= a,
            0 <= e,
    ;
}

// ------------------------------------------------------------- supporter payout

/// What is wrong with `payee` as the account of early supporter `expected`.
pub open spec fn payee_error(payee: PayeeAccount, expected: Pubkey) -> Option<CreatorEconomyError> {
    if payee.key != expected {
        Some(CreatorEconomyError::InvalidSupporterAccount)
    } else if !payee.is_writable {
        Some(CreatorEconomyError::AccountNotWritable)
    } else {
        None
    }
}

/// How many payees are paid: none without a pool or supporters, else one per
/// position that both lists have.
pub open spec fn payout_count(pool: u64, supporters: Seq<Pubkey>, payees: Seq<PayeeAccount>) -> int {
    if pool == 0 || supporters.len() == 0 {
        0
    } else if payees.len() < supporters.len() {
        payees.len() as int
    } else {
        supporters.len() as int
    }
}

/// The error of the first of the first `n` payees that is not its supporter's account.
pub open spec fn first_payee_error(supporters: Seq<Pubkey>, payees: Seq<PayeeAccount>, n: int) -> Option<
    CreatorEconomyError,
>
    decreases n,
{
    if n <= 0 {
        None
    } else {
        match first_payee_error(supporters, payees, n - 1) {
            Some(e) => Some(e),
            None => payee_error(payees[n - 1], supporters[n - 1]),
        }
    }
}

/// What each paid supporter receives: the pool divided evenly, remainder dropped.
pub open spec fn per_supporter(pool: u64, supporters: Seq<Pubkey>) -> int {
    pool as int / supporters.len() as int
}

/// The transfers to supporters: one per paid position, in order.
pub open spec fn supporter_transfers(
    pool: u64,
    supporters: Seq<Pubkey>,
    payees: Seq<PayeeAccount>,
) -> Seq<Transfer> {
    Seq::new(
        payout_count(pool, supporters, payees) as nat,
        |i: int| Transfer { to: Recipient::Supporter(i as usize), lamports: per_supporter(pool, supporters) as u64 },
    )
}

proof fn lemma_first_payee_error_stays(
    supporters: Seq<Pubkey>,
    payees: Seq<PayeeAccount>,
    k: int,
    m: int,
)
    requires
        0 <= k <= m,
        first_payee_error(supporters, payees, k) is Some,
    ensures
        first_payee_error(supporters, payees, m) == first_payee_error(supporters, payees, k),
    decreases m - k,
{
    if k < m {
        lemma_first_payee_error_stays(supporters, payees, k, m - 1);
    }
}


proof fn lemma_error_is_mismatch_or_none(
    supporters: Seq<Pubkey>,
    payees: Seq<PayeeAccount>,
    k: int,
)
    requires
        0 <= k <= supporters.len(),
        k <= payees.len(),
        forall|j: int|
            0 <= j < k ==> payee_error(payees[j], supporters[j]) != Some(
                CreatorEconomyError::AccountNotWritable,
            ),
    ensures
        first_payee_error(supporters, payees, k) is None || first_payee_error(
            supporters,
            payees,
            k,
        ) == Some(CreatorEconomyError::InvalidSupporterAccount),
    decreases k,
{
    if k > 0 {
        lemma_error_is_mismatch_or_none(supporters, payees, k - 1);
    }
}

/// A payee that is not the early supporter at its position fails the whole
/// payout with `InvalidSupporterAccount`, and no transfer is planned; this
/// holds where no earlier payee is the right account yet not writable, which
/// fails first with `AccountNotWritable`.
pub proof fn mismatched_payee_fails(
    supporter_pool: u64,
    supporters: Seq<Pubkey>,
    payees: Seq<PayeeAccount>,
    i: int,
)
    requires
        0 <= i < payout_count(supporter_pool, supporters, payees),
        payees[i].key != supporters[i],
        forall|j: int|
            0 <= j < i ==> payee_error(payees[j], supporters[j]) != Some(
                CreatorEconomyError::AccountNotWritable,
            ),
    ensures
        first_payee_error(supporters, payees, payout_count(supporter_pool, supporters, payees))
            == Some(CreatorEconomyError::InvalidSupporterAccount),
{
    lemma_error_is_mismatch_or_none(supporters, payees, i);
    lemma_first_payee_error_stays(
        supporters,
        payees,
        i + 1,
        payout_count(supporter_pool, supporters, payees),
    );
}

/// Checks each payee against the early supporter at its position and plans an
/// equal share of `supporter_pool` for each; fails on the first mismatch.
pub fn plan_supporter_payouts(
    supporter_pool: u64,
    supporters: &Vec<Pubkey>,
    payees: &Vec<PayeeAccount>,
) -> (r: Result<Vec<Transfer>, CreatorEconomyError>)
    ensures
        match r {
            Ok(t) => {
                &&& first_payee_error(
                    supporters@,
                    payees@,
                    payout_count(supporter_pool, supporters@, payees@),
                ) is None
                &&& t@ == supporter_transfers(supporter_pool, supporters@, payees@)
            },
            Err(e) => first_payee_error(
                supporters@,
                payees@,
                payout_count(supporter_pool, supporters@, payees@),
            ) == Some(e),
        },
{
    let mut out: Vec<Transfer> = Vec::new();
    if supporter_pool == 0 || supporters.len() == 0 {
        proof {
            assert(out@ =~= supporter_transfers(supporter_pool, supporters@, payees@));
        }
        return Ok(out);
    }
    let per = supporter_pool / (supporters.len() as u64);
    let n: usize = if payees.len() < supporters.len() {
        payees.len()
    } else {
        supporters.len()
    };
    let ghost expected = supporter_transfers(supporter_pool, supporters@, payees@);
    let mut i: usize = 0;
    while i < n
        invariant
            n == payout_count(supporter_pool, supporters@, payees@),
            n <= supporters.len(),
            n <= payees.len(),
            0 <= i <= n,
            supporters.len() > 0,
            per == per_supporter(supporter_pool, supporters@),
            expected == supporter_transfers(supporter_pool, supporters@, payees@),
            first_payee_error(supporters@, payees@, i as int) is None,
            out@ == expected.take(i as int),
        decreases n - i,
    {
        let payee = payees[i];
        if !payee.key.eq(&supporters[i]) {
            proof {
                lemma_first_payee_error_stays(supporters@, payees@, i + 1, n as int);
            }
            return Err(CreatorEconomyError::InvalidSupporterAccount);
        }
        if !payee.is_writable {
            proof {
                lemma_first_payee_error_stays(supporters@, payees@, i + 1, n as int);
            }
            return Err(CreatorEconomyError::AccountNotWritable);
        }
        out.push(Transfer { to: Recipient::Supporter(i), lamports: per });
        proof {
            assert(out@ =~= expected.take(i + 1));
        }
        i = i + 1;
    }
    proof {
        assert(out@ =~= expected);
    }
    Ok(out)
}

} // verus!
