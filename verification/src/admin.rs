//! The registry of administrators.
//!
//! The registry is created once, with whoever creates it as its only
//! administrator. From then on administrators add and remove one another. The
//! registry never becomes empty, never holds more than [`MAX_ADMINS`] identities
//! and never holds one twice.

use vstd::prelude::*;
use crate::error::ErrorCode;
use crate::identity::Identity;

verus! {

/// The most administrators a registry holds.
pub const MAX_ADMINS: usize = 10;

/// The registry: who may administer the ledger.
#[derive(Clone, Debug, PartialEq, Eq)]
pub struct AdminConfig {
    /// The administrators, in the order in which they were added.
    pub admins: Vec<Identity>,
    /// The bump seed of the address under which the registry is stored.
    pub bump: u8,
}

impl View for AdminConfig {
    type V = Seq<Identity>;

    /// A registry is modelled by the sequence of its administrators.
    open spec fn view(&self) -> Seq<Identity> {
        self.admins@
    }
}

/// What holds of the administrators of every registry that was created by
/// [`initialize_admin`] and changed only by [`add_admin`] and [`remove_admin`].
pub open spec fn valid_admins(admins: Seq<Identity>) -> bool {
    &&& 1 <= admins.len() <= MAX_ADMINS
    &&& admins.no_duplicates()
}

/// Holds of every identity but `target`.
pub open spec fn other_than(target: Identity) -> spec_fn(Identity) -> bool {
    |who: Identity| who != target
}

/// The administrators after `caller` has asked to add `new_admin`, or the reason
/// for which the request is refused.
pub open spec fn add_admin_spec(
    admins: Seq<Identity>,
    caller: Identity,
    new_admin: Identity,
) -> Result<Seq<Identity>, ErrorCode> {
    if !admins.contains(caller) {
        Err(ErrorCode::Unauthorized)
    } else if admins.contains(new_admin) {
        Err(ErrorCode::AdminAlreadyExists)
    } else if admins.len() >= MAX_ADMINS {
        Err(ErrorCode::TooManyAdmins)
    } else {
        Ok(admins.push(new_admin))
    }
}

/// The administrators after `caller` has asked to remove `target`, or the reason
/// for which the request is refused.
pub open spec fn remove_admin_spec(
    admins: Seq<Identity>,
    caller: Identity,
    target: Identity,
) -> Result<Seq<Identity>, ErrorCode> {
    if !admins.contains(caller) {
        Err(ErrorCode::Unauthorized)
    } else if !admins.contains(target) {
        Err(ErrorCode::AdminNotFound)
    } else if target == caller {
        Err(ErrorCode::CannotRemoveSelf)
    } else {
        Ok(admins.filter(other_than(target)))
    }
}

impl AdminConfig {
    /// Whether the registry is one that the operations of this module can have
    /// produced.
    pub open spec fn wf(&self) -> bool {
        valid_admins(self@)
    }

    /// Whether `who` is an administrator.
    pub fn is_admin(&self, who: Identity) -> (found: bool)
        ensures
            found == self@.contains(who),
    {
        let mut i: usize = 0;
        while i < self.admins.len()
            invariant
                i <= self.admins.len(),
                forall|j: int| 0 <= j < i ==> self.admins[j] != who,
            decreases self.admins.len() - i,
        {
            if self.admins[i] == who {
                return true;
            }
            i += 1;
        }
        false
    }
}

/// What the creation of the registry works on.
#[derive(Clone, Debug, PartialEq, Eq)]
pub struct InitializeAdmin {
    /// The place where the registry is stored: empty until it has been created.
    pub admin_config: Option<AdminConfig>,
    /// Who signed the request.
    pub admin: Identity,
}

/// What the addition of an administrator works on.
#[derive(Clone, Debug, PartialEq, Eq)]
pub struct AddAdmin {
    /// The registry.
    pub admin_config: AdminConfig,
    /// Who signed the request.
    pub admin: Identity,
}

/// What the removal of an administrator works on.
#[derive(Clone, Debug, PartialEq, Eq)]
pub struct RemoveAdmin {
    /// The registry.
    pub admin_config: AdminConfig,
    /// Who signed the request.
    pub admin: Identity,
}

/// What is to be announced after a change to the registry.
#[derive(Clone, Copy, Debug, PartialEq, Eq)]
pub enum AdminEvent {
    /// This identity was added.
    Added(Identity),
    /// This identity was removed.
    Removed(Identity),
}

/// Creates the registry, with the signer as its only administrator and `bump` as
/// the bump seed of its address.
///
/// This works once: where a registry exists already the request is refused with
/// [`ErrorCode::AlreadyInitialized`] and nothing changes.
pub fn initialize_admin(ctx: &mut InitializeAdmin, bump: u8) -> (res: Result<(), ErrorCode>)
    ensures
        final(ctx).admin == old(ctx).admin,
        match res {
            Ok(_) => {
                &&& old(ctx).admin_config is None
                &&& final(ctx).admin_config is Some
                &&& final(ctx).admin_config->0@ == seq![old(ctx).admin]
                &&& final(ctx).admin_config->0.bump == bump
                &&& final(ctx).admin_config->0.wf()
            },
            Err(e) => {
                &&& old(ctx).admin_config is Some
                &&& e == ErrorCode::AlreadyInitialized
                &&& *final(ctx) == *old(ctx)
            },
        },
{
    if ctx.admin_config.is_some() {
        return Err(ErrorCode::AlreadyInitialized);
    }
    let mut admins: Vec<Identity> = Vec::new();
    admins.push(ctx.admin);
    ctx.admin_config = Some(AdminConfig { admins, bump });
    Ok(())
}

/// Adds `new_admin` to the end of the registry, on the request of one who is an
/// administrator, and says what to announce: that `new_admin` was added.
///
/// The request is refused, and nothing changes, with
/// [`ErrorCode::Unauthorized`] where the signer is no administrator, else with
/// [`ErrorCode::AdminAlreadyExists`] where `new_admin` is one already, else with
/// [`ErrorCode::TooManyAdmins`] where the registry holds [`MAX_ADMINS`] or more.
pub fn add_admin(ctx: &mut AddAdmin, new_admin: Identity) -> (res: Result<
    AdminEvent,
    ErrorCode,
>)
    ensures
        final(ctx).admin == old(ctx).admin,
        final(ctx).admin_config.bump == old(ctx).admin_config.bump,
        match add_admin_spec(old(ctx).admin_config@, old(ctx).admin, new_admin) {
            Ok(admins) => {
                &&& res == Ok::<AdminEvent, ErrorCode>(AdminEvent::Added(new_admin))
                &&& final(ctx).admin_config@ == admins
            },
            Err(e) => res == Err::<AdminEvent, ErrorCode>(e) && *final(ctx) == *old(ctx),
        },
        old(ctx).admin_config.wf() ==> final(ctx).admin_config.wf(),
{
    if !ctx.admin_config.is_admin(ctx.admin) {
        return Err(ErrorCode::Unauthorized);
    }
    if ctx.admin_config.is_admin(new_admin) {
        return Err(ErrorCode::AdminAlreadyExists);
    }
    if ctx.admin_config.admins.len() >= MAX_ADMINS {
        return Err(ErrorCode::TooManyAdmins);
    }
    proof {
        if ctx.admin_config.wf() {
            lemma_add_admin_keeps_valid(ctx.admin_config@, ctx.admin, new_admin);
        }
    }
    ctx.admin_config.admins.push(new_admin);
    Ok(AdminEvent::Added(new_admin))
}

/// Removes `admin_to_remove` from the registry, wherever it occurs, on the
/// request of another administrator, and says what to announce: that
/// `admin_to_remove` was removed. The others keep their order.
///
/// The request is refused, and nothing changes, with
/// [`ErrorCode::Unauthorized`] where the signer is no administrator, else with
/// [`ErrorCode::AdminNotFound`] where `admin_to_remove` is none, else with
/// [`ErrorCode::CannotRemoveSelf`] where the signer asks to remove itself. So no
/// request of anybody to remove itself is ever granted.
pub fn remove_admin(ctx: &mut RemoveAdmin, admin_to_remove: Identity) -> (res: Result<
    AdminEvent,
    ErrorCode,
>)
    ensures
        final(ctx).admin == old(ctx).admin,
        final(ctx).admin_config.bump == old(ctx).admin_config.bump,
        match remove_admin_spec(old(ctx).admin_config@, old(ctx).admin, admin_to_remove) {
            Ok(admins) => {
                &&& res == Ok::<AdminEvent, ErrorCode>(AdminEvent::Removed(admin_to_remove))
                &&& final(ctx).admin_config@ == admins
            },
            Err(e) => res == Err::<AdminEvent, ErrorCode>(e) && *final(ctx) == *old(ctx),
        },
        admin_to_remove == old(ctx).admin ==> res is Err,
        res is Ok ==> final(ctx).admin_config@.contains(old(ctx).admin),
        res is Ok ==> !final(ctx).admin_config@.contains(admin_to_remove),
        old(ctx).admin_config.wf() ==> final(ctx).admin_config.wf(),
        old(ctx).admin_config.wf() && res is Ok ==> final(ctx).admin_config@.len()
            == old(ctx).admin_config@.len() - 1,
{
    if !ctx.admin_config.is_admin(ctx.admin) {
        return Err(ErrorCode::Unauthorized);
    }
    if !ctx.admin_config.is_admin(admin_to_remove) {
        return Err(ErrorCode::AdminNotFound);
    }
    if admin_to_remove == ctx.admin {
        return Err(ErrorCode::CannotRemoveSelf);
    }
    let ghost before = ctx.admin_config@;
    let mut kept: Vec<Identity> = Vec::new();
    let mut i: usize = 0;
    proof {
        reveal(Seq::filter);
        assert(before.take(0) =~= Seq::<Identity>::empty());
    }
    while i < ctx.admin_config.admins.len()
        invariant
            i <= before.len(),
            ctx.admin_config@ == before,
            kept@ == before.take(i as int).filter(other_than(admin_to_remove)),
        decreases before.len() - i,
    {
        let who = ctx.admin_config.admins[i];
        proof {
            assert(before.take(i as int + 1) =~= before.take(i as int).push(who));
            before.take(i as int).lemma_filter_push(who, other_than(admin_to_remove));
        }
        if who != admin_to_remove {
            kept.push(who);
        }
        i += 1;
    }
    proof {
        assert(before.take(i as int) =~= before);
        lemma_remove_admin_keeps_valid(before, ctx.admin, admin_to_remove);
    }
    ctx.admin_config.admins = kept;
    Ok(AdminEvent::Removed(admin_to_remove))
}

/// Keeping the identities other than `target` keeps every one of them, drops
/// `target`, and brings no identity in twice that was not there twice before.
pub proof fn lemma_others_kept(admins: Seq<Identity>, target: Identity)
    ensures
        forall|who: Identity|
            #![trigger admins.filter(other_than(target)).contains(who)]
            #![trigger admins.contains(who)]
            admins.filter(other_than(target)).contains(who) <==> (admins.contains(who) && who
                != target),
        admins.no_duplicates() ==> admins.filter(other_than(target)).no_duplicates(),
        admins.no_duplicates() && admins.contains(target) ==> admins.filter(
            other_than(target),
        ).len() == admins.len() - 1,
        !admins.contains(target) ==> admins.filter(other_than(target)) == admins,
    decreases admins.len(),
{
    let keep = other_than(target);
    let kept = admins.filter(keep);
    assert forall|who: Identity| kept.contains(who) <==> (admins.contains(who) && who
        != target) by {
        if kept.contains(who) {
            let k = choose|k: int| 0 <= k < kept.len() && kept[k] == who;
            admins.lemma_filter_pred(keep, k);
            admins.lemma_filter_contains_rev(keep, who);
        }
        if admins.contains(who) && who != target {
            let j = choose|j: int| 0 <= j < admins.len() && admins[j] == who;
            admins.lemma_filter_contains(keep, j);
        }
    }
    if admins.len() > 0 {
        let front = admins.drop_last();
        let last = admins.last();
        lemma_others_kept(front, target);
        assert(admins =~= front.push(last));
        front.lemma_filter_push(last, keep);
        assert(front.contains(last) <==> exists|j: int| 0 <= j < front.len() && admins[j] == last);
        assert(admins.contains(target) <==> (front.contains(target) || last == target));
    } else {
        reveal(Seq::filter);
    }
}

/// A granted addition leaves a registry that is as it should be, if it was
/// before.
pub proof fn lemma_add_admin_keeps_valid(
    admins: Seq<Identity>,
    caller: Identity,
    new_admin: Identity,
)
    requires
        valid_admins(admins),
    ensures
        add_admin_spec(admins, caller, new_admin) matches Ok(after) ==> valid_admins(after)
            && after.len() == admins.len() + 1,
{
    if add_admin_spec(admins, caller, new_admin) is Ok {
        let after = admins.push(new_admin);
        assert forall|i: int, j: int|
            0 <= i < after.len() && 0 <= j < after.len() && i != j implies after[i]
            != after[j] by {
            if i < admins.len() && j < admins.len() {
                assert(admins[i] != admins[j]);
            } else if i < admins.len() {
                assert(admins.contains(admins[i]));
            } else {
                assert(admins.contains(admins[j]));
            }
        }
    }
}

/// A granted removal leaves a registry that is as it should be, if it was
/// before: the one who asked is still in it.
pub proof fn lemma_remove_admin_keeps_valid(
    admins: Seq<Identity>,
    caller: Identity,
    target: Identity,
)
    ensures
        remove_admin_spec(admins, caller, target) matches Ok(after) ==> {
            &&& after.contains(caller)
            &&& !after.contains(target)
            &&& after.len() <= admins.len()
            &&& valid_admins(admins) ==> valid_admins(after) && after.len() == admins.len() - 1
        },
{
    if remove_admin_spec(admins, caller, target) is Ok {
        let after = admins.filter(other_than(target));
        lemma_others_kept(admins, target);
        admins.lemma_filter_len(other_than(target));
        assert(after.contains(caller));
    }
}

/// Whoever asks to remove itself is refused, whatever the registry holds.
pub proof fn lemma_nobody_removes_itself(admins: Seq<Identity>, caller: Identity)
    ensures
        remove_admin_spec(admins, caller, caller) is Err,
        admins.contains(caller) ==> remove_admin_spec(admins, caller, caller) == Err::<
            Seq<Identity>,
            ErrorCode,
        >(ErrorCode::CannotRemoveSelf),
{
}

/// A request to change the registry.
#[derive(Clone, Copy, Debug, PartialEq, Eq)]
pub enum AdminRequest {
    /// `caller` asks to add `new_admin`.
    Add { caller: Identity, new_admin: Identity },
    /// `caller` asks to remove `target`.
    Remove { caller: Identity, target: Identity },
}

/// The administrators after one request: changed where the request is granted,
/// the same where it is refused.
pub open spec fn admins_after(admins: Seq<Identity>, request: AdminRequest) -> Seq<Identity> {
    let outcome = match request {
        AdminRequest::Add { caller, new_admin } => add_admin_spec(admins, caller, new_admin),
        AdminRequest::Remove { caller, target } => remove_admin_spec(admins, caller, target),
    };
    match outcome {
        Ok(after) => after,
        Err(_) => admins,
    }
}

/// The administrators after a run of requests, taken in order.
pub open spec fn admins_after_all(admins: Seq<Identity>, requests: Seq<AdminRequest>) -> Seq<
    Identity,
>
    decreases requests.len(),
{
    if requests.len() == 0 {
        admins
    } else {
        admins_after(admins_after_all(admins, requests.drop_last()), requests.last())
    }
}

/// However many additions and removals are asked of a registry that `founder`
/// created, by whomever and in whatever order, it keeps at least one
/// administrator and at most [`MAX_ADMINS`], and none of them twice.
pub proof fn lemma_registry_stays_valid(founder: Identity, requests: Seq<AdminRequest>)
    ensures
        valid_admins(admins_after_all(seq![founder], requests)),
    decreases requests.len(),
{
    if requests.len() > 0 {
        lemma_registry_stays_valid(founder, requests.drop_last());
        let before = admins_after_all(seq![founder], requests.drop_last());
        match requests.last() {
            AdminRequest::Add { caller, new_admin } => {
                lemma_add_admin_keeps_valid(before, caller, new_admin);
            },
            AdminRequest::Remove { caller, target } => {
                lemma_remove_admin_keeps_valid(before, caller, target);
            },
        }
    }
}

} // verus!
