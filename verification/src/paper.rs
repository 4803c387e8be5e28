//! Papers: their registration, and the binding of a paper to the address that
//! receives its tips.
//!
//! A paper is registered once, under its DOI, by anybody. It starts without an
//! author address; an administrator binds one, and may bind another later. The
//! two counters of a paper change only when it is tipped.

use vstd::prelude::*;
use crate::admin::AdminConfig;
use crate::error::ErrorCode;
use crate::identity::Identity;
use crate::tip::MAX_TIP;

verus! {

/// The most bytes a DOI may take.
pub const MAX_DOI_LEN: usize = 200;

/// The most bytes a title may take.
pub const MAX_TITLE_LEN: usize = 500;

/// The record of a registered paper.
#[derive(Clone, Debug, PartialEq, Eq)]
pub struct Paper {
    /// The DOI under which the paper is registered. It never changes.
    pub doi: String,
    /// The title. It never changes.
    pub title: String,
    /// Where tips go: the unset address until an administrator binds one.
    pub author_sol_address: Identity,
    /// The address to which the registration is attributed.
    pub uploader_sol_address: Identity,
    /// The sum of all tips.
    pub total_tips: u64,
    /// The number of tips.
    pub tip_count: u64,
    /// Who signed the registration.
    pub uploader: Identity,
    /// The bump seed of the address under which the record is stored.
    pub bump: u8,
}

/// A paper as contracts speak of it: field by field what [`Paper`] holds, with
/// its texts as sequences of characters and its counters as natural numbers.
pub struct PaperView {
    pub doi: Seq<char>,
    pub title: Seq<char>,
    pub author_sol_address: Identity,
    pub uploader_sol_address: Identity,
    pub total_tips: nat,
    pub tip_count: nat,
    pub uploader: Identity,
    pub bump: u8,
}

impl View for Paper {
    type V = PaperView;

    open spec fn view(&self) -> PaperView {
        PaperView {
            doi: self.doi@,
            title: self.title@,
            author_sol_address: self.author_sol_address,
            uploader_sol_address: self.uploader_sol_address,
            total_tips: self.total_tips as nat,
            tip_count: self.tip_count as nat,
            uploader: self.uploader,
            bump: self.bump,
        }
    }
}

impl PaperView {
    /// What holds of every paper that was registered by [`register_paper`] and
    /// changed only by [`set_author_address`] and [`crate::tip::settle_tip`]: its
    /// DOI and its title are as a registration demands them, and its two
    /// counters go together, each tip having been of one unit at least and of
    /// [`MAX_TIP`] at most.
    pub open spec fn wf(self) -> bool {
        &&& text_fault(self.doi, self.title) is None
        &&& self.tip_count <= self.total_tips <= self.tip_count * MAX_TIP
    }
}

impl Paper {
    /// Whether the record is one that the operations of this crate can have
    /// produced.
    pub open spec fn wf(&self) -> bool {
        self@.wf()
    }
}

/// The number of bytes that a text takes when it is stored, which is as UTF-8.
pub open spec fn byte_len(text: Seq<char>) -> nat {
    vstd::utf8::encode_utf8(text).len()
}

/// The first fault found in the DOI and the title offered for a registration,
/// if there is one: the DOI is looked at before the title, and emptiness before
/// length.
pub open spec fn text_fault(doi: Seq<char>, title: Seq<char>) -> Option<ErrorCode> {
    if doi.len() == 0 {
        Some(ErrorCode::InvalidDoi)
    } else if byte_len(doi) > MAX_DOI_LEN {
        Some(ErrorCode::DoiTooLong)
    } else if title.len() == 0 {
        Some(ErrorCode::InvalidTitle)
    } else if byte_len(title) > MAX_TITLE_LEN {
        Some(ErrorCode::TitleTooLong)
    } else {
        None
    }
}

/// The record that a registration creates, or the reason for which it is
/// refused. `occupied` says whether a paper is registered under the DOI already.
pub open spec fn register_paper_spec(
    occupied: bool,
    uploader: Identity,
    doi: Seq<char>,
    title: Seq<char>,
    uploader_sol_address: Identity,
    bump: u8,
) -> Result<PaperView, ErrorCode> {
    if occupied {
        Err(ErrorCode::RecordAlreadyExists)
    } else if let Some(fault) = text_fault(doi, title) {
        Err(fault)
    } else {
        Ok(
            PaperView {
                doi,
                title,
                author_sol_address: Identity::unset(),
                uploader_sol_address,
                total_tips: 0,
                tip_count: 0,
                uploader,
                bump,
            },
        )
    }
}

/// The paper after `caller` has asked to bind it to `author_sol_address`, or the
/// reason for which the request is refused. `admins` are the administrators at
/// that time.
pub open spec fn set_author_address_spec(
    paper: PaperView,
    admins: Seq<Identity>,
    caller: Identity,
    author_sol_address: Identity,
) -> Result<PaperView, ErrorCode> {
    if !admins.contains(caller) {
        Err(ErrorCode::Unauthorized)
    } else if author_sol_address.is_unset() {
        Err(ErrorCode::InvalidAddress)
    } else {
        Ok(PaperView { author_sol_address, ..paper })
    }
}

/// What a registration works on.
#[derive(Clone, Debug, PartialEq, Eq)]
pub struct RegisterPaper {
    /// The place where the record of the DOI in question is stored: empty as long
    /// as no paper is registered under that DOI.
    pub paper: Option<Paper>,
    /// Who signed the request.
    pub uploader: Identity,
}

/// What the binding of an author address works on.
#[derive(Clone, Debug, PartialEq, Eq)]
pub struct SetAuthorAddress {
    /// The paper.
    pub paper: Paper,
    /// The registry.
    pub admin_config: AdminConfig,
    /// Who signed the request.
    pub admin: Identity,
}

/// Registers a paper under `doi`, for anybody who asks.
///
/// The new record has no author address and no tips. It is attributed to
/// `uploader_sol_address`, which need not be the signer, and it remembers the
/// signer as well. `bump` is the bump seed of the record's address.
///
/// The request is refused, and nothing changes, with
/// [`ErrorCode::RecordAlreadyExists`] where a paper is registered under the DOI
/// already, else with [`ErrorCode::InvalidDoi`] where the DOI is empty, else with
/// [`ErrorCode::DoiTooLong`] where it takes more than [`MAX_DOI_LEN`] bytes, else
/// with [`ErrorCode::InvalidTitle`] where the title is empty, else with
/// [`ErrorCode::TitleTooLong`] where it takes more than [`MAX_TITLE_LEN`] bytes.
pub fn register_paper(
    ctx: &mut RegisterPaper,
    doi: String,
    title: String,
    uploader_sol_address: Identity,
    bump: u8,
) -> (res: Result<(), ErrorCode>)
    ensures
        final(ctx).uploader == old(ctx).uploader,
        match register_paper_spec(
            old(ctx).paper is Some,
            old(ctx).uploader,
            doi@,
            title@,
            uploader_sol_address,
            bump,
        ) {
            Ok(paper) => res is Ok && final(ctx).paper is Some && final(ctx).paper->0@ == paper,
            Err(e) => res == Err::<(), ErrorCode>(e) && *final(ctx) == *old(ctx),
        },
        res is Ok ==> final(ctx).paper->0.wf(),
{
    if ctx.paper.is_some() {
        return Err(ErrorCode::RecordAlreadyExists);
    }
    if doi.as_str().is_empty() {
        return Err(ErrorCode::InvalidDoi);
    }
    if doi.as_str().as_bytes().len() > MAX_DOI_LEN {
        return Err(ErrorCode::DoiTooLong);
    }
    if title.as_str().is_empty() {
        return Err(ErrorCode::InvalidTitle);
    }
    if title.as_str().as_bytes().len() > MAX_TITLE_LEN {
        return Err(ErrorCode::TitleTooLong);
    }
    ctx.paper = Some(
        Paper {
            doi,
            title,
            author_sol_address: Identity::unset(),
            uploader_sol_address,
            total_tips: 0,
            tip_count: 0,
            uploader: ctx.uploader,
            bump,
        },
    );
    Ok(())
}

/// Binds the paper to `author_sol_address`, on the request of an administrator.
///
/// Whatever address was bound before is forgotten: the paper is bound to the
/// address of the last request that was granted. Nothing else in the record
/// changes, nor does the registry.
///
/// The request is refused, and nothing changes, with
/// [`ErrorCode::Unauthorized`] where the signer is no administrator, else with
/// [`ErrorCode::InvalidAddress`] where `author_sol_address` is the unset address.
pub fn set_author_address(ctx: &mut SetAuthorAddress, author_sol_address: Identity) -> (res:
    Result<(), ErrorCode>)
    ensures
        final(ctx).admin == old(ctx).admin,
        final(ctx).admin_config == old(ctx).admin_config,
        match set_author_address_spec(
            old(ctx).paper@,
            old(ctx).admin_config@,
            old(ctx).admin,
            author_sol_address,
        ) {
            Ok(paper) => res is Ok && final(ctx).paper@ == paper,
            Err(e) => res == Err::<(), ErrorCode>(e) && *final(ctx) == *old(ctx),
        },
        res is Ok ==> final(ctx).paper.author_sol_address == author_sol_address,
        final(ctx).paper.total_tips == old(ctx).paper.total_tips,
        final(ctx).paper.tip_count == old(ctx).paper.tip_count,
        old(ctx).paper.wf() ==> final(ctx).paper.wf(),
{
    if !ctx.admin_config.is_admin(ctx.admin) {
        return Err(ErrorCode::Unauthorized);
    }
    if author_sol_address.is_unset() {
        return Err(ErrorCode::InvalidAddress);
    }
    ctx.paper.author_sol_address = author_sol_address;
    Ok(())
}

/// A request to bind an author address, together with the administrators at the
/// time it is made.
pub struct Rebinding {
    pub admins: Seq<Identity>,
    pub caller: Identity,
    pub author_sol_address: Identity,
}

/// Whether a request to bind an author address is granted. That does not depend
/// on the paper.
pub open spec fn rebinding_granted(request: Rebinding) -> bool {
    request.admins.contains(request.caller) && !request.author_sol_address.is_unset()
}

/// The paper after one request to bind an author address: changed where the
/// request is granted, the same where it is refused.
pub open spec fn paper_after_rebinding(paper: PaperView, request: Rebinding) -> PaperView {
    match set_author_address_spec(
        paper,
        request.admins,
        request.caller,
        request.author_sol_address,
    ) {
        Ok(after) => after,
        Err(_) => paper,
    }
}

/// The paper after a run of requests to bind an author address, taken in order.
pub open spec fn paper_after_rebindings(paper: PaperView, requests: Seq<Rebinding>) -> PaperView
    decreases requests.len(),
{
    if requests.len() == 0 {
        paper
    } else {
        paper_after_rebinding(
            paper_after_rebindings(paper, requests.drop_last()),
            requests.last(),
        )
    }
}

/// The address of the last request in the run that is granted, if any is.
pub open spec fn last_granted_address(requests: Seq<Rebinding>) -> Option<Identity>
    decreases requests.len(),
{
    if requests.len() == 0 {
        None
    } else if rebinding_granted(requests.last()) {
        Some(requests.last().author_sol_address)
    } else {
        last_granted_address(requests.drop_last())
    }
}

/// An author address may be bound any number of times: after any run of
/// requests the paper is bound to the address of the last request that was
/// granted, or to what it was bound to before if none was, and nothing else in
/// the record has changed.
pub proof fn lemma_last_binding_wins(paper: PaperView, requests: Seq<Rebinding>)
    ensures
        paper_after_rebindings(paper, requests) == (PaperView {
            author_sol_address: match last_granted_address(requests) {
                Some(address) => address,
                None => paper.author_sol_address,
            },
            ..paper
        }),
        forall|i: int|
            0 <= i < requests.len() ==> (set_author_address_spec(
                paper_after_rebindings(paper, requests.take(i)),
                requests[i].admins,
                requests[i].caller,
                requests[i].author_sol_address,
            ) is Ok <==> rebinding_granted(#[trigger] requests[i])),
    decreases requests.len(),
{
    if requests.len() > 0 {
        lemma_last_binding_wins(paper, requests.drop_last());
    }
}

} // verus!
