//! Tipping a paper.
//!
//! A tip is money that moves from the tipper to the author address of a paper.
//! Moving it is not done here. [`tip_paper`] decides whether a tip may go ahead
//! and names the transfer to make; whoever makes the transfer reports how it
//! went to [`settle_tip`], which books the tip if the money has moved.

use vstd::prelude::*;
use crate::error::ErrorCode;
use crate::identity::Identity;
use crate::paper::{Paper, PaperView};

verus! {

/// The largest single tip.
pub const MAX_TIP: u64 = 1_000_000_000;

/// What a tip works on.
#[derive(Clone, Debug, PartialEq, Eq)]
pub struct TipPaper {
    /// The paper.
    pub paper: Paper,
    /// Who signed the request, and pays.
    pub tipper: Identity,
    /// The account offered to receive the tip.
    pub author_sol_account: Identity,
}

/// A transfer of money to be made: `amount` from `from` to `to`, all or nothing.
#[derive(Clone, Copy, Debug, PartialEq, Eq)]
pub struct Transfer {
    pub from: Identity,
    pub to: Identity,
    pub amount: u64,
}

/// How a transfer went.
#[derive(Clone, Copy, Debug, PartialEq, Eq, Structural)]
pub enum TransferOutcome {
    /// The money has moved.
    Completed,
    /// Nothing has moved.
    Failed,
}

/// The transfer that a tip of `amount` to `paper` calls for, or the reason for
/// which the tip is refused before any money moves. The amount is looked at
/// first, then the paper, then the account offered to receive the tip.
pub open spec fn tip_paper_spec(
    paper: PaperView,
    tipper: Identity,
    author_sol_account: Identity,
    amount: u64,
) -> Result<Transfer, ErrorCode> {
    if amount == 0 {
        Err(ErrorCode::InvalidAmount)
    } else if amount > MAX_TIP {
        Err(ErrorCode::AmountTooLarge)
    } else if paper.author_sol_address.is_unset() {
        Err(ErrorCode::AuthorAddressNotSet)
    } else if author_sol_account != paper.author_sol_address {
        Err(ErrorCode::InvalidAuthorAddress)
    } else {
        Ok(Transfer { from: tipper, to: author_sol_account, amount })
    }
}

/// The paper after a tip of `amount` whose transfer went as `outcome` says, or
/// the reason for which the tip comes to nothing.
pub open spec fn settle_tip_spec(
    paper: PaperView,
    tipper: Identity,
    author_sol_account: Identity,
    amount: u64,
    outcome: TransferOutcome,
) -> Result<PaperView, ErrorCode> {
    match tip_paper_spec(paper, tipper, author_sol_account, amount) {
        Err(e) => Err(e),
        Ok(_) => if outcome == TransferOutcome::Failed {
            Err(ErrorCode::TransferFailed)
        } else if paper.total_tips + amount > u64::MAX || paper.tip_count + 1 > u64::MAX {
            Err(ErrorCode::Overflow)
        } else {
            Ok(
                PaperView {
                    total_tips: paper.total_tips + amount as nat,
                    tip_count: paper.tip_count + 1,
                    ..paper
                },
            )
        },
    }
}

/// Decides whether a tip of `amount` may go ahead, and names the transfer to
/// make: `amount` from the tipper to the account offered, which is the paper's
/// author address.
///
/// The tip is refused, and no transfer is to be made, with
/// [`ErrorCode::InvalidAmount`] where `amount` is zero, else with
/// [`ErrorCode::AmountTooLarge`] where it is above [`MAX_TIP`], else with
/// [`ErrorCode::AuthorAddressNotSet`] where the paper has no author address yet,
/// else with [`ErrorCode::InvalidAuthorAddress`] where the account offered is not
/// the paper's author address. So a paper without an author address is never
/// tipped.
pub fn tip_paper(ctx: &TipPaper, amount: u64) -> (res: Result<Transfer, ErrorCode>)
    ensures
        res == tip_paper_spec(ctx.paper@, ctx.tipper, ctx.author_sol_account, amount),
        ctx.paper.author_sol_address.is_unset() ==> res is Err,
        ctx.paper.author_sol_address.is_unset() && 0 < amount <= MAX_TIP ==> res == Err::<
            Transfer,
            ErrorCode,
        >(ErrorCode::AuthorAddressNotSet),
        res matches Ok(transfer) ==> transfer.to == ctx.paper.author_sol_address,
{
    if amount == 0 {
        return Err(ErrorCode::InvalidAmount);
    }
    if amount > MAX_TIP {
        return Err(ErrorCode::AmountTooLarge);
    }
    if ctx.paper.author_sol_address.is_unset() {
        return Err(ErrorCode::AuthorAddressNotSet);
    }
    if ctx.author_sol_account != ctx.paper.author_sol_address {
        return Err(ErrorCode::InvalidAuthorAddress);
    }
    Ok(Transfer { from: ctx.tipper, to: ctx.author_sol_account, amount })
}

/// Books a tip of `amount`, given how the transfer that [`tip_paper`] named for
/// it went.
///
/// Where the money has moved, the sum of the paper's tips grows by `amount` and
/// their number by one, and nothing else changes. The tip is looked at once more
/// first, and whatever [`tip_paper`] refuses is refused here for the same reason.
/// After that the tip comes to nothing with [`ErrorCode::TransferFailed`] where
/// the money has not moved, else with [`ErrorCode::Overflow`] where the sum or
/// the number would no longer fit its counter. A tip that comes to nothing
/// changes nothing.
pub fn settle_tip(ctx: &mut TipPaper, amount: u64, outcome: TransferOutcome) -> (res: Result<
    (),
    ErrorCode,
>)
    ensures
        final(ctx).tipper == old(ctx).tipper,
        final(ctx).author_sol_account == old(ctx).author_sol_account,
        match settle_tip_spec(
            old(ctx).paper@,
            old(ctx).tipper,
            old(ctx).author_sol_account,
            amount,
            outcome,
        ) {
            Ok(paper) => res is Ok && final(ctx).paper@ == paper,
            Err(e) => res == Err::<(), ErrorCode>(e) && *final(ctx) == *old(ctx),
        },
        res is Ok ==> final(ctx).paper.total_tips == old(ctx).paper.total_tips + amount
            && final(ctx).paper.tip_count == old(ctx).paper.tip_count + 1,
        res is Err ==> final(ctx).paper.total_tips == old(ctx).paper.total_tips
            && final(ctx).paper.tip_count == old(ctx).paper.tip_count,
        old(ctx).paper.author_sol_address.is_unset() ==> res is Err,
        old(ctx).paper.author_sol_address.is_unset() && 0 < amount <= MAX_TIP ==> res == Err::<
            (),
            ErrorCode,
        >(ErrorCode::AuthorAddressNotSet),
        old(ctx).paper.wf() ==> final(ctx).paper.wf(),
{
    match tip_paper(ctx, amount) {
        Err(e) => {
            return Err(e);
        },
        Ok(_) => {},
    }
    match outcome {
        TransferOutcome::Failed => {
            return Err(ErrorCode::TransferFailed);
        },
        TransferOutcome::Completed => {},
    }
    let total_tips = match ctx.paper.total_tips.checked_add(amount) {
        Some(sum) => sum,
        None => {
            return Err(ErrorCode::Overflow);
        },
    };
    let tip_count = match ctx.paper.tip_count.checked_add(1) {
        Some(count) => count,
        None => {
            return Err(ErrorCode::Overflow);
        },
    };
    proof {
        lemma_booked_tip_counts_once(
            ctx.paper@,
            ctx.tipper,
            ctx.author_sol_account,
            amount,
            outcome,
        );
    }
    ctx.paper.total_tips = total_tips;
    ctx.paper.tip_count = tip_count;
    Ok(())
}

/// As long as a paper has no author address, no tip to it gets anywhere: not at
/// the first look, and not when it is settled, whatever the amount and however
/// the transfer is said to have gone. Where the amount itself is in order, the
/// reason given is [`ErrorCode::AuthorAddressNotSet`].
pub proof fn lemma_unbound_paper_takes_no_tip(
    paper: PaperView,
    tipper: Identity,
    author_sol_account: Identity,
    amount: u64,
    outcome: TransferOutcome,
)
    requires
        paper.author_sol_address.is_unset(),
    ensures
        tip_paper_spec(paper, tipper, author_sol_account, amount) is Err,
        settle_tip_spec(paper, tipper, author_sol_account, amount, outcome) is Err,
        0 < amount <= MAX_TIP ==> tip_paper_spec(paper, tipper, author_sol_account, amount)
            == Err::<Transfer, ErrorCode>(ErrorCode::AuthorAddressNotSet) && settle_tip_spec(
            paper,
            tipper,
            author_sol_account,
            amount,
            outcome,
        ) == Err::<PaperView, ErrorCode>(ErrorCode::AuthorAddressNotSet),
{
}

/// Every tip that is booked adds exactly its amount to the sum of the paper's
/// tips and exactly one to their number, and leaves the rest of the record as
/// it was.
pub proof fn lemma_booked_tip_counts_once(
    paper: PaperView,
    tipper: Identity,
    author_sol_account: Identity,
    amount: u64,
    outcome: TransferOutcome,
)
    ensures
        settle_tip_spec(paper, tipper, author_sol_account, amount, outcome) matches Ok(after) ==> {
            &&& after.total_tips == paper.total_tips + amount
            &&& after.tip_count == paper.tip_count + 1
            &&& 0 < amount <= MAX_TIP
            &&& outcome == TransferOutcome::Completed
            &&& after == (PaperView {
                total_tips: after.total_tips,
                tip_count: after.tip_count,
                ..paper
            })
            &&& paper.wf() ==> after.wf()
        },
{
    assert((paper.tip_count + 1) * MAX_TIP == paper.tip_count * MAX_TIP + MAX_TIP)
        by (nonlinear_arith);
}

} // verus!
