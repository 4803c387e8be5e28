//! The registered papers taken together.
//!
//! Each paper is stored at a place of its own, which its DOI names. This module
//! says what a run of requests makes of such a store, and proves what holds of
//! every run: no paper is registered twice, no paper ever leaves, what a
//! registration wrote into a record stays, the author address of a record moves
//! only when an administrator binds it, and its counters move only when it is
//! tipped, and then upwards.

use vstd::prelude::*;
use crate::error::ErrorCode;
use crate::identity::Identity;
use crate::paper::{
    paper_after_rebinding, rebinding_granted, register_paper_spec, PaperView, Rebinding,
};
use crate::tip::{lemma_booked_tip_counts_once, settle_tip_spec, TransferOutcome};

verus! {

/// A request to register a paper.
pub struct Registration {
    pub uploader: Identity,
    pub doi: Seq<char>,
    pub title: Seq<char>,
    pub uploader_sol_address: Identity,
    pub bump: u8,
}

/// A request that concerns a paper.
pub enum PaperRequest {
    /// To register a paper.
    Register(Registration),
    /// To bind the paper registered under `doi` to an author address.
    SetAuthorAddress { doi: Seq<char>, request: Rebinding },
    /// To book a tip of `amount` to the paper registered under `doi`, the
    /// transfer having gone as `outcome` says.
    Tip {
        doi: Seq<char>,
        tipper: Identity,
        author_sol_account: Identity,
        amount: u64,
        outcome: TransferOutcome,
    },
}

/// The registered papers, each under its DOI, after a registration has been
/// granted, or the reason for which it is refused. The place of a DOI is
/// occupied exactly when a paper is registered under it.
pub open spec fn papers_after_registration(
    papers: Map<Seq<char>, PaperView>,
    request: Registration,
) -> Result<Map<Seq<char>, PaperView>, ErrorCode> {
    match register_paper_spec(
        papers.dom().contains(request.doi),
        request.uploader,
        request.doi,
        request.title,
        request.uploader_sol_address,
        request.bump,
    ) {
        Ok(paper) => Ok(papers.insert(request.doi, paper)),
        Err(e) => Err(e),
    }
}

/// Whether the request is a tip to the paper under `doi` that is booked.
pub open spec fn books_tip(
    papers: Map<Seq<char>, PaperView>,
    request: PaperRequest,
    doi: Seq<char>,
) -> bool {
    &&& papers.dom().contains(doi)
    &&& request matches PaperRequest::Tip {
        doi: tipped,
        tipper,
        author_sol_account,
        amount,
        outcome,
    }
    &&& tipped == doi
    &&& settle_tip_spec(papers[doi], tipper, author_sol_account, amount, outcome) is Ok
}

/// The registered papers after one request: changed where the request is
/// granted, the same where it is refused. A request that names a DOI under
/// which no paper is registered finds nothing to work on.
pub open spec fn papers_after(papers: Map<Seq<char>, PaperView>, request: PaperRequest) -> Map<
    Seq<char>,
    PaperView,
> {
    match request {
        PaperRequest::Register(registration) => match papers_after_registration(
            papers,
            registration,
        ) {
            Ok(after) => after,
            Err(_) => papers,
        },
        PaperRequest::SetAuthorAddress { doi, request } => if papers.dom().contains(doi) {
            papers.insert(doi, paper_after_rebinding(papers[doi], request))
        } else {
            papers
        },
        PaperRequest::Tip { doi, tipper, author_sol_account, amount, outcome } => {
            if papers.dom().contains(doi) {
                match settle_tip_spec(papers[doi], tipper, author_sol_account, amount, outcome) {
                    Ok(paper) => papers.insert(doi, paper),
                    Err(_) => papers,
                }
            } else {
                papers
            }
        },
    }
}

/// The registered papers after a run of requests, taken in order.
pub open spec fn papers_after_all(
    papers: Map<Seq<char>, PaperView>,
    requests: Seq<PaperRequest>,
) -> Map<Seq<char>, PaperView>
    decreases requests.len(),
{
    if requests.len() == 0 {
        papers
    } else {
        papers_after(papers_after_all(papers, requests.drop_last()), requests.last())
    }
}

/// What a record has in common with what it was at some earlier time: all that
/// its registration wrote, and counters that are no smaller.
pub open spec fn grown_from(later: PaperView, earlier: PaperView) -> bool {
    &&& later.doi == earlier.doi
    &&& later.title == earlier.title
    &&& later.uploader_sol_address == earlier.uploader_sol_address
    &&& later.uploader == earlier.uploader
    &&& later.bump == earlier.bump
    &&& later.total_tips >= earlier.total_tips
    &&& later.tip_count >= earlier.tip_count
}

/// Whether the request binds the paper under `doi` to an author address, and is
/// granted.
pub open spec fn binds_author(
    papers: Map<Seq<char>, PaperView>,
    request: PaperRequest,
    doi: Seq<char>,
) -> bool {
    &&& papers.dom().contains(doi)
    &&& request matches PaperRequest::SetAuthorAddress { doi: bound, request: rebinding }
    &&& bound == doi
    &&& rebinding_granted(rebinding)
}

/// The author address of a paper moves only when an administrator binds that
/// very paper, and then to the address that the administrator names, which is
/// not the unset address. Whatever else is asked, of this paper or another,
/// leaves it as it is.
pub proof fn lemma_only_bindings_move_author(
    papers: Map<Seq<char>, PaperView>,
    request: PaperRequest,
    doi: Seq<char>,
)
    requires
        papers.dom().contains(doi),
    ensures
        papers_after(papers, request).dom().contains(doi),
        binds_author(papers, request, doi) ==> {
            &&& papers_after(papers, request)[doi].author_sol_address
                == request->SetAuthorAddress_request.author_sol_address
            &&& !papers_after(papers, request)[doi].author_sol_address.is_unset()
            &&& request->SetAuthorAddress_request.admins.contains(
                request->SetAuthorAddress_request.caller,
            )
        },
        !binds_author(papers, request, doi) ==> papers_after(
            papers,
            request,
        )[doi].author_sol_address == papers[doi].author_sol_address,
{
}

/// The counters of a paper move only when a tip to that very paper is booked,
/// and then the sum grows by the amount of the tip and the number by one. Such
/// a tip has gone to the author address of the paper, to which the paper was
/// bound before. Whatever else is asked, of this paper or another, leaves the
/// counters as they are.
pub proof fn lemma_only_tips_move_counters(
    papers: Map<Seq<char>, PaperView>,
    request: PaperRequest,
    doi: Seq<char>,
)
    requires
        papers.dom().contains(doi),
    ensures
        papers_after(papers, request).dom().contains(doi),
        grown_from(papers_after(papers, request)[doi], papers[doi]),
        books_tip(papers, request, doi) ==> {
            &&& papers_after(papers, request)[doi].total_tips == papers[doi].total_tips
                + request->Tip_amount
            &&& papers_after(papers, request)[doi].tip_count == papers[doi].tip_count + 1
            &&& !papers[doi].author_sol_address.is_unset()
            &&& request->Tip_author_sol_account == papers[doi].author_sol_address
            &&& request->Tip_outcome == TransferOutcome::Completed
        },
        !books_tip(papers, request, doi) ==> {
            &&& papers_after(papers, request)[doi].total_tips == papers[doi].total_tips
            &&& papers_after(papers, request)[doi].tip_count == papers[doi].tip_count
        },
{
}

/// No paper ever leaves: after any run of requests every paper that was
/// registered still is, with all that its registration wrote, and with counters
/// that are no smaller than they were.
pub proof fn lemma_papers_stay(papers: Map<Seq<char>, PaperView>, requests: Seq<PaperRequest>)
    ensures
        forall|doi: Seq<char>| #[trigger]
            papers.dom().contains(doi) ==> papers_after_all(papers, requests).dom().contains(doi)
                && grown_from(papers_after_all(papers, requests)[doi], papers[doi]),
    decreases requests.len(),
{
    if requests.len() > 0 {
        lemma_papers_stay(papers, requests.drop_last());
        let before = papers_after_all(papers, requests.drop_last());
        let after = papers_after_all(papers, requests);
        assert forall|doi: Seq<char>| #[trigger]
            papers.dom().contains(doi) implies after.dom().contains(doi) && grown_from(
            after[doi],
            papers[doi],
        ) by {
            lemma_only_tips_move_counters(before, requests.last(), doi);
        }
    }
}

/// Whether every paper is stored under its own DOI and is as the operations
/// leave a paper.
pub open spec fn valid_papers(papers: Map<Seq<char>, PaperView>) -> bool {
    forall|doi: Seq<char>| #[trigger]
        papers.dom().contains(doi) ==> papers[doi].doi == doi && papers[doi].wf()
}

/// Whatever is asked, registered papers that are as they should be stay so.
pub proof fn lemma_papers_stay_valid(
    papers: Map<Seq<char>, PaperView>,
    requests: Seq<PaperRequest>,
)
    requires
        valid_papers(papers),
    ensures
        valid_papers(papers_after_all(papers, requests)),
    decreases requests.len(),
{
    if requests.len() > 0 {
        lemma_papers_stay_valid(papers, requests.drop_last());
        let before = papers_after_all(papers, requests.drop_last());
        let after = papers_after(before, requests.last());
        assert forall|doi: Seq<char>| #[trigger] after.dom().contains(doi) implies after[doi].doi
            == doi && after[doi].wf() by {
            if before.dom().contains(doi) {
                lemma_only_tips_move_counters(before, requests.last(), doi);
                if let PaperRequest::Tip { tipper, author_sol_account, amount, outcome, .. } =
                    requests.last() {
                    lemma_booked_tip_counts_once(
                        before[doi],
                        tipper,
                        author_sol_account,
                        amount,
                        outcome,
                    );
                }
            }
        }
    }
}

/// Every run of requests that starts with no paper registered leaves registered
/// papers that are as they should be.
pub proof fn lemma_every_run_leaves_valid_papers(requests: Seq<PaperRequest>)
    ensures
        valid_papers(papers_after_all(Map::empty(), requests)),
{
    lemma_papers_stay_valid(Map::empty(), requests);
}

/// Of two registrations under one DOI at most one is granted, whatever is asked
/// in between: once the first is granted, the second is refused with
/// [`ErrorCode::RecordAlreadyExists`].
pub proof fn lemma_registration_is_unique(
    papers: Map<Seq<char>, PaperView>,
    first: Registration,
    between: Seq<PaperRequest>,
    second: Registration,
)
    requires
        first.doi == second.doi,
    ensures
        papers_after_registration(papers, first) matches Ok(after) ==> papers_after_registration(
            papers_after_all(after, between),
            second,
        ) == Err::<Map<Seq<char>, PaperView>, ErrorCode>(ErrorCode::RecordAlreadyExists),
{
    if let Ok(after) = papers_after_registration(papers, first) {
        assert(after.dom().contains(first.doi));
        lemma_papers_stay(after, between);
    }
}

} // verus!
