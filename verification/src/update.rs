//! Changing a user's fields: who may ask for which change, and the order in
//! which the store is written.
//!
//! A change is driven by a small state machine. [`begin_update`] decides
//! whether the change is allowed and names the first action; the caller
//! performs it against the store and reports the outcome to
//! [`resume_update`], which names the next action, until a `Reply` ends the
//! exchange. Every write names the row it applies to: the user whose login the
//! request targets.

use vstd::prelude::*;
use crate::access::Refusal;
use crate::jwt::Claims;

verus! {

/// The fields a request asks to change; absent fields stay as they are.
pub struct UpdateBuilder {
    /// Only the user itself or an administrator may change it.
    pub username: Option<String>,
    /// Only the user itself or an administrator may change it.
    pub login: Option<String>,
    /// Only the user itself or an administrator may change it.
    pub email: Option<String>,
    /// Only an administrator may change it.
    pub admin: Option<bool>,
}

/// Whether a change is refused, given whether the requester is the user being
/// changed and whether the requester is an administrator.
pub open spec fn update_denied(is_itself: bool, is_admin: bool, u: UpdateBuilder) -> bool {
    ||| u.username is Some && !is_itself && !is_admin
    ||| u.login is Some && !is_itself && !is_admin
    ||| u.email is Some && !is_itself && !is_admin
    ||| u.admin is Some && !is_admin
}

/// Whether `requester` may apply `update` to the user whose login is
/// `target_login`.
pub fn may_update(requester: &Claims, target_login: &str, update: &UpdateBuilder) -> (allowed: bool)
    ensures
        allowed == !update_denied(requester.login@ == target_login@, requester.admin, *update),
{
    let target = target_login.to_owned();
    let is_itself = requester.login == target;
    let is_admin = requester.admin;
    let deny = update.username.is_some() && !is_itself && !is_admin || update.login.is_some()
        && !is_itself && !is_admin || update.email.is_some() && !is_itself && !is_admin
        || update.admin.is_some() && !is_admin;
    !deny
}

/// Where a change stands: the next field to consider.
#[derive(PartialEq, Eq, Structural, Clone, Copy, Debug)]
pub enum UpdateStage {
    Username,
    LoginCheck,
    Login,
    Email,
    Admin,
    Finished,
}

/// What the caller is to do next. A write names the row it applies to by that
/// user's login; no action inserts or deletes a row.
#[derive(PartialEq, Eq, Debug)]
pub enum UpdateAction {
    /// Write the user name of the user whose login is `row`.
    SetUsername { row: String, value: String },
    /// Look up whether some user already has this login.
    CheckLogin(String),
    /// Write the login of the user whose login is `row`.
    SetLogin { row: String, value: String },
    /// Write the e-mail address of the user whose login is `row`.
    SetEmail { row: String, value: String },
    /// Write the administrator flag of the user whose login is `row`.
    SetAdmin { row: String, value: bool },
    /// Answer the request; the change is over.
    Reply(Result<(), Refusal>),
}

/// What came of the action the caller performed.
#[derive(PartialEq, Eq, Structural, Clone, Copy, Debug)]
pub enum UpdateEvent {
    /// The write went through.
    Done,
    /// The login lookup found a user (`true`) or none (`false`).
    LoginChecked(bool),
    /// The store failed.
    Failed,
}

pub open spec fn step_from_admin(u: UpdateBuilder, target: String) -> (UpdateStage, UpdateAction) {
    match u.admin {
        Some(a) => (UpdateStage::Finished, UpdateAction::SetAdmin { row: target, value: a }),
        None => (UpdateStage::Finished, UpdateAction::Reply(Ok(()))),
    }
}

pub open spec fn step_from_email(u: UpdateBuilder, target: String) -> (UpdateStage, UpdateAction) {
    match u.email {
        Some(e) => (UpdateStage::Admin, UpdateAction::SetEmail { row: target, value: e }),
        None => step_from_admin(u, target),
    }
}

pub open spec fn step_from_login(u: UpdateBuilder, target: String) -> (UpdateStage, UpdateAction) {
    match u.login {
        Some(l) => (UpdateStage::Email, UpdateAction::SetLogin { row: target, value: l }),
        None => step_from_email(u, target),
    }
}

pub open spec fn step_from_login_check(u: UpdateBuilder, target: String) -> (UpdateStage, UpdateAction) {
    match u.login {
        Some(l) => (UpdateStage::Login, UpdateAction::CheckLogin(l)),
        None => step_from_email(u, target),
    }
}

pub open spec fn step_from_username(u: UpdateBuilder, target: String) -> (UpdateStage, UpdateAction) {
    match u.username {
        Some(n) => (UpdateStage::LoginCheck, UpdateAction::SetUsername { row: target, value: n }),
        None => step_from_login_check(u, target),
    }
}

/// The next action of a change to the user whose login is `target`, standing
/// at `stage` after a successful step: the first requested field at or after
/// `stage`, in the order user name, login (looked up, then written), e-mail,
/// administrator flag; a successful reply once none is left.
pub open spec fn next_step(u: UpdateBuilder, target: String, stage: UpdateStage) -> (UpdateStage, UpdateAction) {
    match stage {
        UpdateStage::Username => step_from_username(u, target),
        UpdateStage::LoginCheck => step_from_login_check(u, target),
        UpdateStage::Login => step_from_login(u, target),
        UpdateStage::Email => step_from_email(u, target),
        UpdateStage::Admin => step_from_admin(u, target),
        UpdateStage::Finished => (UpdateStage::Finished, UpdateAction::Reply(Ok(()))),
    }
}

/// The first step of a change: a refusal when it is not allowed, else the
/// first action.
pub open spec fn start_step(is_itself: bool, is_admin: bool, u: UpdateBuilder, target: String) -> (UpdateStage, UpdateAction) {
    if update_denied(is_itself, is_admin, u) {
        (UpdateStage::Finished, UpdateAction::Reply(Err(Refusal::NotAllowed)))
    } else {
        next_step(u, target, UpdateStage::Username)
    }
}

/// The step after `event`: a failed store ends the change with an internal
/// error, a login already in use ends it with a conflict, and anything else
/// moves on to the next requested field.
pub open spec fn resume_step(u: UpdateBuilder, target: String, stage: UpdateStage, event: UpdateEvent) -> (UpdateStage, UpdateAction) {
    match event {
        UpdateEvent::Failed => (UpdateStage::Finished, UpdateAction::Reply(Err(Refusal::Internal))),
        UpdateEvent::LoginChecked(true) => (UpdateStage::Finished, UpdateAction::Reply(Err(Refusal::LoginTaken))),
        _ => next_step(u, target, stage),
    }
}

fn clone_text(s: &String) -> (t: String)
    ensures
        t == *s,
{
    s.clone()
}

fn step_admin(u: &UpdateBuilder, target: &String) -> (r: (UpdateStage, UpdateAction))
    ensures
        r == step_from_admin(*u, *target),
{
    match u.admin {
        Some(a) => (UpdateStage::Finished, UpdateAction::SetAdmin { row: clone_text(target), value: a }),
        None => (UpdateStage::Finished, UpdateAction::Reply(Ok(()))),
    }
}

fn step_email(u: &UpdateBuilder, target: &String) -> (r: (UpdateStage, UpdateAction))
    ensures
        r == step_from_email(*u, *target),
{
    match &u.email {
        Some(e) => (UpdateStage::Admin, UpdateAction::SetEmail { row: clone_text(target), value: clone_text(e) }),
        None => step_admin(u, target),
    }
}

fn step_login(u: &UpdateBuilder, target: &String) -> (r: (UpdateStage, UpdateAction))
    ensures
        r == step_from_login(*u, *target),
{
    match &u.login {
        Some(l) => (UpdateStage::Email, UpdateAction::SetLogin { row: clone_text(target), value: clone_text(l) }),
        None => step_email(u, target),
    }
}

fn step_login_check(u: &UpdateBuilder, target: &String) -> (r: (UpdateStage, UpdateAction))
    ensures
        r == step_from_login_check(*u, *target),
{
    match &u.login {
        Some(l) => (UpdateStage::Login, UpdateAction::CheckLogin(clone_text(l))),
        None => step_email(u, target),
    }
}

fn step_username(u: &UpdateBuilder, target: &String) -> (r: (UpdateStage, UpdateAction))
    ensures
        r == step_from_username(*u, *target),
{
    match &u.username {
        Some(n) => (UpdateStage::LoginCheck, UpdateAction::SetUsername { row: clone_text(target), value: clone_text(n) }),
        None => step_login_check(u, target),
    }
}

fn advance(u: &UpdateBuilder, target: &String, stage: UpdateStage) -> (r: (UpdateStage, UpdateAction))
    ensures
        r == next_step(*u, *target, stage),
{
    match stage {
        UpdateStage::Username => step_username(u, target),
        UpdateStage::LoginCheck => step_login_check(u, target),
        UpdateStage::Login => step_login(u, target),
        UpdateStage::Email => step_email(u, target),
        UpdateStage::Admin => step_admin(u, target),
        UpdateStage::Finished => (UpdateStage::Finished, UpdateAction::Reply(Ok(()))),
    }
}

/// Starts the change `update` that `requester` asks for on the user whose
/// login is `target_login`: refuses it when not allowed, else names the first
/// action and the stage to resume from.
pub fn begin_update(requester: &Claims, target_login: &String, update: &UpdateBuilder) -> (r: (UpdateStage, UpdateAction))
    ensures
        r == start_step(requester.login@ == target_login@, requester.admin, *update, *target_login),
{
    if !may_update(requester, target_login.as_str(), update) {
        (UpdateStage::Finished, UpdateAction::Reply(Err(Refusal::NotAllowed)))
    } else {
        advance(update, target_login, UpdateStage::Username)
    }
}

/// Continues the change `update` of the user whose login is `target_login`
/// from `stage`, with the outcome `event` of the last action.
pub fn resume_update(update: &UpdateBuilder, target_login: &String, stage: UpdateStage, event: UpdateEvent) -> (r: (UpdateStage, UpdateAction))
    ensures
        r == resume_step(*update, *target_login, stage, event),
{
    match event {
        UpdateEvent::Failed => (UpdateStage::Finished, UpdateAction::Reply(Err(Refusal::Internal))),
        UpdateEvent::LoginChecked(true) => (UpdateStage::Finished, UpdateAction::Reply(Err(Refusal::LoginTaken))),
        _ => advance(update, target_login, stage),
    }
}

/// An administrator may make any change, to any user.
pub proof fn admin_may_update_anything(is_itself: bool, u: UpdateBuilder)
    ensures
        !update_denied(is_itself, true, u),
{
}

/// Only an administrator may change the administrator flag, even of itself.
pub proof fn only_admin_sets_admin_flag(is_itself: bool, u: UpdateBuilder)
    requires
        u.admin is Some,
    ensures
        update_denied(is_itself, false, u),
{
}

/// A user may change its own user name, login and e-mail address.
pub proof fn owner_may_update_own_profile(is_admin: bool, u: UpdateBuilder)
    requires
        u.admin is None,
    ensures
        !update_denied(true, is_admin, u),
{
}

/// A user who is not an administrator may change nothing of another user.
pub proof fn stranger_may_change_nothing(u: UpdateBuilder)
    ensures
        update_denied(false, false, u) <==> (u.username is Some || u.login is Some || u.email is Some
            || u.admin is Some),
{
}

/// How many stages lie before `stage` is finished; every step that does not
/// reply moves to a lower rank.
pub open spec fn stage_rank(stage: UpdateStage) -> nat {
    match stage {
        UpdateStage::Username => 5,
        UpdateStage::LoginCheck => 4,
        UpdateStage::Login => 3,
        UpdateStage::Email => 2,
        UpdateStage::Admin => 1,
        UpdateStage::Finished => 0,
    }
}

pub open spec fn username_writes(u: UpdateBuilder, target: String) -> Seq<UpdateAction> {
    match u.username {
        Some(n) => seq![UpdateAction::SetUsername { row: target, value: n }],
        None => seq![],
    }
}

pub open spec fn login_writes(u: UpdateBuilder, target: String) -> Seq<UpdateAction> {
    match u.login {
        Some(l) => seq![UpdateAction::CheckLogin(l), UpdateAction::SetLogin { row: target, value: l }],
        None => seq![],
    }
}

pub open spec fn email_writes(u: UpdateBuilder, target: String) -> Seq<UpdateAction> {
    match u.email {
        Some(e) => seq![UpdateAction::SetEmail { row: target, value: e }],
        None => seq![],
    }
}

pub open spec fn admin_writes(u: UpdateBuilder, target: String) -> Seq<UpdateAction> {
    match u.admin {
        Some(a) => seq![UpdateAction::SetAdmin { row: target, value: a }],
        None => seq![],
    }
}

/// The store operations still due from `stage` on when every step succeeds.
pub open spec fn writes_from(u: UpdateBuilder, target: String, stage: UpdateStage) -> Seq<UpdateAction> {
    match stage {
        UpdateStage::Username => username_writes(u, target) + login_writes(u, target) + email_writes(u, target)
            + admin_writes(u, target),
        UpdateStage::LoginCheck => login_writes(u, target) + email_writes(u, target) + admin_writes(u, target),
        UpdateStage::Login => (match u.login {
            Some(l) => seq![UpdateAction::SetLogin { row: target, value: l }],
            None => seq![],
        }) + email_writes(u, target) + admin_writes(u, target),
        UpdateStage::Email => email_writes(u, target) + admin_writes(u, target),
        UpdateStage::Admin => admin_writes(u, target),
        UpdateStage::Finished => seq![],
    }
}

/// The store operations that `u` asks for on the user whose login is
/// `target`, in the order they are made.
pub open spec fn requested_writes(u: UpdateBuilder, target: String) -> Seq<UpdateAction> {
    writes_from(u, target, UpdateStage::Username)
}

/// Whether `action` is a reply, a lookup of the login that `u` asks for, or a
/// write to the row of `target` of a value that `u` asks for.
pub open spec fn requested_by(u: UpdateBuilder, target: String, action: UpdateAction) -> bool {
    match action {
        UpdateAction::SetUsername { row, value } => row == target && u.username == Some(value),
        UpdateAction::CheckLogin(l) => u.login == Some(l),
        UpdateAction::SetLogin { row, value } => row == target && u.login == Some(value),
        UpdateAction::SetEmail { row, value } => row == target && u.email == Some(value),
        UpdateAction::SetAdmin { row, value } => row == target && u.admin == Some(value),
        UpdateAction::Reply(_) => true,
    }
}

/// Whether `event` reports that the last operation went as hoped.
pub open spec fn successful(event: UpdateEvent) -> bool {
    event == UpdateEvent::Done || event == UpdateEvent::LoginChecked(false)
}

/// The actions named from `stage` on as the outcomes in `events` come in, up
/// to and including the reply that ends the change.
pub open spec fn run_update(u: UpdateBuilder, target: String, stage: UpdateStage, events: Seq<UpdateEvent>) -> Seq<UpdateAction>
    decreases events.len(),
{
    if events.len() == 0 {
        seq![]
    } else {
        let (next, action) = resume_step(u, target, stage, events[0]);
        if action is Reply {
            seq![action]
        } else {
            seq![action] + run_update(u, target, next, events.drop_first())
        }
    }
}

/// Every action of a change to the user whose login is `target`, from its
/// start, as the outcomes in `events` come in.
pub open spec fn update_exchange(
    is_itself: bool,
    is_admin: bool,
    u: UpdateBuilder,
    target: String,
    events: Seq<UpdateEvent>,
) -> Seq<UpdateAction> {
    let (stage, action) = start_step(is_itself, is_admin, u, target);
    if action is Reply {
        seq![action]
    } else {
        seq![action] + run_update(u, target, stage, events)
    }
}

/// The actions from `stage` on when every operation succeeds.
pub open spec fn pending_actions(u: UpdateBuilder, target: String, stage: UpdateStage) -> Seq<UpdateAction>
    decreases stage_rank(stage),
{
    let (next, action) = next_step(u, target, stage);
    if action is Reply {
        seq![action]
    } else {
        seq![action] + pending_actions(u, target, next)
    }
}

proof fn lemma_step_descends(u: UpdateBuilder, target: String, stage: UpdateStage)
    ensures
        requested_by(u, target, next_step(u, target, stage).1),
        !(next_step(u, target, stage).1 is Reply) ==> stage_rank(next_step(u, target, stage).0)
            < stage_rank(stage),
        next_step(u, target, stage).1 is Reply ==> next_step(u, target, stage).1 == UpdateAction::Reply(
            Ok(()),
        ),
{
}

proof fn lemma_pending_from(u: UpdateBuilder, target: String, stage: UpdateStage)
    ensures
        pending_actions(u, target, stage) == writes_from(u, target, stage).push(UpdateAction::Reply(Ok(()))),
    decreases stage_rank(stage),
{
    lemma_step_descends(u, target, stage);
    let (next, action) = next_step(u, target, stage);
    if !(action is Reply) {
        lemma_pending_from(u, target, next);
    }
    assert(pending_actions(u, target, stage) =~= writes_from(u, target, stage).push(
        UpdateAction::Reply(Ok(())),
    ));
}

proof fn lemma_run_follows_plan(u: UpdateBuilder, target: String, stage: UpdateStage, events: Seq<UpdateEvent>)
    ensures
        run_update(u, target, stage, events).len() <= pending_actions(u, target, stage).len(),
        events.len() > 0 ==> run_update(u, target, stage, events).len() > 0,
        run_update(u, target, stage, events).len() <= events.len(),
        forall|i: int|
            0 <= i < run_update(u, target, stage, events).len() - 1 ==> #[trigger] run_update(
                u,
                target,
                stage,
                events,
            )[i] == pending_actions(u, target, stage)[i],
        forall|i: int|
            0 <= i < run_update(u, target, stage, events).len() - 1 ==> successful(#[trigger] events[i]),
        run_update(u, target, stage, events).len() > 0 ==> {
            let run = run_update(u, target, stage, events);
            ||| run.last() == pending_actions(u, target, stage)[run.len() - 1]
            ||| run.last() == UpdateAction::Reply(Err(Refusal::Internal))
            ||| run.last() == UpdateAction::Reply(Err(Refusal::LoginTaken))
        },
        forall|i: int|
            0 <= i < run_update(u, target, stage, events).len() && !(#[trigger] run_update(
                u,
                target,
                stage,
                events,
            )[i] is Reply) ==> run_update(u, target, stage, events)[i] == pending_actions(u, target, stage)[i]
                && successful(events[i]),
    decreases events.len(),
{
    lemma_step_descends(u, target, stage);
    if events.len() > 0 {
        let (next, action) = resume_step(u, target, stage, events[0]);
        if !(action is Reply) {
            lemma_run_follows_plan(u, target, next, events.drop_first());
            let rest = run_update(u, target, next, events.drop_first());
            let run = run_update(u, target, stage, events);
            assert(run == seq![action] + rest);
            assert forall|i: int| 0 <= i < run.len() - 1 implies #[trigger] run[i]
                == pending_actions(u, target, stage)[i] by {
                if i > 0 {
                    assert(run[i] == rest[i - 1]);
                }
            }
            assert forall|i: int| 0 <= i < run.len() - 1 implies successful(#[trigger] events[i]) by {
                if i > 0 {
                    assert(events[i] == events.drop_first()[i - 1]);
                }
            }
            assert forall|i: int| 0 <= i < run.len() && !(#[trigger] run[i] is Reply) implies run[i]
                == pending_actions(u, target, stage)[i] && successful(events[i]) by {
                if i > 0 {
                    assert(run[i] == rest[i - 1]);
                    assert(events[i] == events.drop_first()[i - 1]);
                }
            }
        }
    }
}

/// Whatever the store answers, a permitted change performs the requested
/// operations in order, as a prefix of them, and ends with a single reply:
/// every action but the last is the one a fully successful change takes at that
/// point, every outcome before the last action reports success, and the last
/// action is that planned action or an error reply for a failed store or a
/// taken login.
pub proof fn update_follows_requested_order(
    is_itself: bool,
    is_admin: bool,
    u: UpdateBuilder,
    target: String,
    events: Seq<UpdateEvent>,
)
    requires
        !update_denied(is_itself, is_admin, u),
    ensures
        ({
            let plan = requested_writes(u, target).push(UpdateAction::Reply(Ok(())));
            let exchange = update_exchange(is_itself, is_admin, u, target, events);
            &&& 0 < exchange.len() <= plan.len()
            &&& forall|i: int| 0 <= i < exchange.len() - 1 ==> #[trigger] exchange[i] == plan[i]
            &&& forall|i: int| 0 < i < exchange.len() - 1 ==> successful(#[trigger] events[i - 1])
            &&& {
                ||| exchange.last() == plan[exchange.len() - 1]
                ||| exchange.last() == UpdateAction::Reply(Err(Refusal::Internal))
                ||| exchange.last() == UpdateAction::Reply(Err(Refusal::LoginTaken))
            }
        }),
{
    lemma_pending_from(u, target, UpdateStage::Username);
    lemma_step_descends(u, target, UpdateStage::Username);
    let plan = requested_writes(u, target).push(UpdateAction::Reply(Ok(())));
    let exchange = update_exchange(is_itself, is_admin, u, target, events);
    let (stage, action) = next_step(u, target, UpdateStage::Username);
    assert(plan == pending_actions(u, target, UpdateStage::Username));
    if !(action is Reply) {
        lemma_run_follows_plan(u, target, stage, events);
        let run = run_update(u, target, stage, events);
        assert(plan == seq![action] + pending_actions(u, target, stage));
        assert(exchange == seq![action] + run);
        assert forall|i: int| 0 <= i < exchange.len() - 1 implies #[trigger] exchange[i] == plan[i] by {
            if i > 0 {
                assert(exchange[i] == run[i - 1]);
            }
        }
        assert forall|i: int| 0 < i < exchange.len() - 1 implies successful(#[trigger] events[i - 1]) by {
            assert(exchange[i] == run[i - 1]);
        }
        if run.len() > 0 {
            assert(exchange.last() == run.last());
        }
    }
}

proof fn lemma_writes_requested(u: UpdateBuilder, target: String, k: int)
    requires
        0 <= k < requested_writes(u, target).len(),
    ensures
        requested_by(u, target, requested_writes(u, target)[k]),
        !(requested_writes(u, target)[k] is Reply),
        requested_writes(u, target)[k] is SetLogin ==> k >= 1 && requested_writes(u, target)[k - 1]
            == UpdateAction::CheckLogin(requested_writes(u, target)[k]->SetLogin_value),
{
    let w = requested_writes(u, target);
    let a = username_writes(u, target);
    let b = login_writes(u, target);
    let c = email_writes(u, target);
    let d = admin_writes(u, target);
    assert(w == a + b + c + d);
    if k < a.len() {
        assert(w[k] == a[k]);
    } else if k < a.len() + b.len() {
        assert(w[k] == b[k - a.len()]);
        if k - a.len() == 1 {
            assert(w[k - 1] == (a + b)[k - 1]);
        }
    } else if k < a.len() + b.len() + c.len() {
        assert(w[k] == c[k - a.len() - b.len()]);
    } else {
        assert(w[k] == d[k - a.len() - b.len() - c.len()]);
    }
}

/// Every action of a change is a write to the row of the targeted user of a
/// value that the request asks for, a lookup of the requested login, or the
/// reply: no other row is written, and nothing is inserted or deleted.
pub proof fn writes_touch_only_the_target(
    is_itself: bool,
    is_admin: bool,
    u: UpdateBuilder,
    target: String,
    events: Seq<UpdateEvent>,
)
    ensures
        forall|i: int|
            0 <= i < update_exchange(is_itself, is_admin, u, target, events).len() ==> match #[trigger] update_exchange(
                is_itself,
                is_admin,
                u,
                target,
                events,
            )[i] {
                UpdateAction::SetUsername { row, value } => row == target && u.username == Some(value),
                UpdateAction::CheckLogin(l) => u.login == Some(l),
                UpdateAction::SetLogin { row, value } => row == target && u.login == Some(value),
                UpdateAction::SetEmail { row, value } => row == target && u.email == Some(value),
                UpdateAction::SetAdmin { row, value } => row == target && u.admin == Some(value),
                UpdateAction::Reply(_) => true,
            },
{
    let exchange = update_exchange(is_itself, is_admin, u, target, events);
    if !update_denied(is_itself, is_admin, u) {
        update_follows_requested_order(is_itself, is_admin, u, target, events);
        let plan = requested_writes(u, target).push(UpdateAction::Reply(Ok(())));
        assert forall|i: int| 0 <= i < exchange.len() implies requested_by(u, target, #[trigger] exchange[i]) by {
            if i < exchange.len() - 1 || exchange[i] == plan[i] {
                assert(exchange[i] == plan[i]);
                if i < requested_writes(u, target).len() {
                    lemma_writes_requested(u, target, i);
                }
            }
        }
    }
}

/// The login is written only right after the lookup of the new login, and
/// only when that lookup went through without finding a user.
pub proof fn login_written_only_when_free(
    is_itself: bool,
    is_admin: bool,
    u: UpdateBuilder,
    target: String,
    events: Seq<UpdateEvent>,
    i: int,
)
    requires
        0 <= i < update_exchange(is_itself, is_admin, u, target, events).len(),
        update_exchange(is_itself, is_admin, u, target, events)[i] is SetLogin,
    ensures
        i >= 1,
        update_exchange(is_itself, is_admin, u, target, events)[i - 1] == UpdateAction::CheckLogin(
            update_exchange(is_itself, is_admin, u, target, events)[i]->SetLogin_value,
        ),
        successful(events[i - 1]),
{
    let exchange = update_exchange(is_itself, is_admin, u, target, events);
    let plan = requested_writes(u, target).push(UpdateAction::Reply(Ok(())));
    lemma_pending_from(u, target, UpdateStage::Username);
    lemma_step_descends(u, target, UpdateStage::Username);
    let (stage, action) = next_step(u, target, UpdateStage::Username);
    assert(!update_denied(is_itself, is_admin, u));
    assert(!(action is Reply));
    lemma_run_follows_plan(u, target, stage, events);
    let run = run_update(u, target, stage, events);
    assert(exchange == seq![action] + run);
    assert(plan == seq![action] + pending_actions(u, target, stage));
    assert(i >= 1);
    assert(exchange[i] == run[i - 1]);
    assert(!(run[i - 1] is Reply));
    assert(exchange[i] == plan[i]);
    assert(exchange.len() == run.len() + 1);
    assert(plan.len() == pending_actions(u, target, stage).len() + 1);
    assert(i < plan.len());
    assert(plan.len() == requested_writes(u, target).len() + 1);
    assert(plan[i] is SetLogin);
    if i == requested_writes(u, target).len() {
        assert(plan[i] == UpdateAction::Reply(Ok(())));
    }
    assert(i < requested_writes(u, target).len());
    assert(plan[i] == requested_writes(u, target)[i]);
    lemma_writes_requested(u, target, i);
    assert(plan[i - 1] == requested_writes(u, target)[i - 1]);
    if i >= 2 {
        assert(exchange[i - 1] == run[i - 2]);
        assert(run[i - 2] == pending_actions(u, target, stage)[i - 2]);
    }
    assert(exchange[i - 1] == plan[i - 1]);
}

/// A permitted change whose every operation succeeds performs exactly the
/// requested operations (user name; login lookup, then login; e-mail;
/// administrator flag; each only where asked for, each write on the targeted
/// user's row) and then replies success.
pub proof fn update_succeeds_with_requested_writes(
    is_itself: bool,
    is_admin: bool,
    u: UpdateBuilder,
    target: String,
    events: Seq<UpdateEvent>,
)
    requires
        !update_denied(is_itself, is_admin, u),
        forall|i: int| 0 <= i < events.len() ==> successful(#[trigger] events[i]),
        events.len() >= requested_writes(u, target).len(),
    ensures
        update_exchange(is_itself, is_admin, u, target, events) == requested_writes(u, target).push(
            UpdateAction::Reply(Ok(())),
        ),
{
    lemma_pending_from(u, target, UpdateStage::Username);
    lemma_step_descends(u, target, UpdateStage::Username);
    let (stage, action) = next_step(u, target, UpdateStage::Username);
    if !(action is Reply) {
        assert(pending_actions(u, target, UpdateStage::Username) == seq![action] + pending_actions(
            u,
            target,
            stage,
        ));
        assert(pending_actions(u, target, stage).len() == requested_writes(u, target).len());
        lemma_run_success(u, target, stage, events);
    }
}

proof fn lemma_run_success(u: UpdateBuilder, target: String, stage: UpdateStage, events: Seq<UpdateEvent>)
    requires
        forall|i: int| 0 <= i < events.len() ==> successful(#[trigger] events[i]),
        events.len() >= pending_actions(u, target, stage).len(),
    ensures
        run_update(u, target, stage, events) == pending_actions(u, target, stage),
    decreases events.len(),
{
    lemma_step_descends(u, target, stage);
    let (next, action) = next_step(u, target, stage);
    assert(successful(events[0]));
    assert(resume_step(u, target, stage, events[0]) == next_step(u, target, stage));
    if !(action is Reply) {
        let rest = events.drop_first();
        assert forall|i: int| 0 <= i < rest.len() implies successful(#[trigger] rest[i]) by {
            assert(rest[i] == events[i + 1]);
        }
        lemma_run_success(u, target, next, rest);
    }
}

/// A failed store ends the change, whatever stage it stands at, with an
/// internal-error reply.
pub proof fn store_failure_answers_internal_error(u: UpdateBuilder, target: String, stage: UpdateStage)
    ensures
        resume_step(u, target, stage, UpdateEvent::Failed) == (
            UpdateStage::Finished,
            UpdateAction::Reply(Err(Refusal::Internal)),
        ),
{
}

proof fn lemma_run_reacts_to_outcomes(u: UpdateBuilder, target: String, stage: UpdateStage, events: Seq<UpdateEvent>)
    ensures
        forall|i: int|
            0 <= i < run_update(u, target, stage, events).len() ==> {
                &&& events[i] == UpdateEvent::Failed ==> #[trigger] run_update(u, target, stage, events)[i]
                    == UpdateAction::Reply(Err(Refusal::Internal))
                &&& events[i] == UpdateEvent::LoginChecked(true) ==> run_update(u, target, stage, events)[i]
                    == UpdateAction::Reply(Err(Refusal::LoginTaken))
            },
    decreases events.len(),
{
    if events.len() > 0 {
        let (next, action) = resume_step(u, target, stage, events[0]);
        if !(action is Reply) {
            lemma_run_reacts_to_outcomes(u, target, next, events.drop_first());
            lemma_run_follows_plan(u, target, stage, events);
            let rest = run_update(u, target, next, events.drop_first());
            let run = run_update(u, target, stage, events);
            assert(run == seq![action] + rest);
            assert forall|i: int| 0 <= i < run.len() implies {
                &&& events[i] == UpdateEvent::Failed ==> #[trigger] run[i] == UpdateAction::Reply(
                    Err(Refusal::Internal),
                )
                &&& events[i] == UpdateEvent::LoginChecked(true) ==> run[i] == UpdateAction::Reply(
                    Err(Refusal::LoginTaken),
                )
            } by {
                if i > 0 {
                    assert(run[i] == rest[i - 1]);
                    assert(events[i] == events.drop_first()[i - 1]);
                }
            }
        }
    }
}

/// In every exchange, the action that answers a failed store is an
/// internal-error reply and the one that answers a taken login is a conflict
/// reply; so a success reply only ever follows a successful outcome.
pub proof fn success_reply_only_after_success(
    is_itself: bool,
    is_admin: bool,
    u: UpdateBuilder,
    target: String,
    events: Seq<UpdateEvent>,
)
    ensures
        forall|i: int|
            1 <= i < update_exchange(is_itself, is_admin, u, target, events).len() ==> {
                &&& events[i - 1] == UpdateEvent::Failed ==> #[trigger] update_exchange(
                    is_itself,
                    is_admin,
                    u,
                    target,
                    events,
                )[i] == UpdateAction::Reply(Err(Refusal::Internal))
                &&& events[i - 1] == UpdateEvent::LoginChecked(true) ==> update_exchange(
                    is_itself,
                    is_admin,
                    u,
                    target,
                    events,
                )[i] == UpdateAction::Reply(Err(Refusal::LoginTaken))
                &&& update_exchange(is_itself, is_admin, u, target, events)[i] == UpdateAction::Reply(
                    Ok(()),
                ) ==> successful(events[i - 1])
            },
{
    let exchange = update_exchange(is_itself, is_admin, u, target, events);
    let (stage, action) = start_step(is_itself, is_admin, u, target);
    if !(action is Reply) {
        lemma_run_reacts_to_outcomes(u, target, stage, events);
        lemma_run_follows_plan(u, target, stage, events);
        let run = run_update(u, target, stage, events);
        assert(exchange == seq![action] + run);
        assert forall|i: int| 1 <= i < exchange.len() implies {
            &&& events[i - 1] == UpdateEvent::Failed ==> #[trigger] exchange[i] == UpdateAction::Reply(
                Err(Refusal::Internal),
            )
            &&& events[i - 1] == UpdateEvent::LoginChecked(true) ==> exchange[i] == UpdateAction::Reply(
                Err(Refusal::LoginTaken),
            )
            &&& exchange[i] == UpdateAction::Reply(Ok(())) ==> successful(events[i - 1])
        } by {
            assert(exchange[i] == run[i - 1]);
        }
    }
}

/// A permitted change of every field, whose every step succeeds, writes the
/// user name, looks the new login up, writes the login, the e-mail and the
/// administrator flag, all on the targeted row, and then replies success.
pub proof fn full_update_writes_every_field(
    is_itself: bool,
    is_admin: bool,
    name: String,
    login: String,
    email: String,
    admin: bool,
    target: String,
    events: Seq<UpdateEvent>,
)
    requires
        !update_denied(
            is_itself,
            is_admin,
            UpdateBuilder { username: Some(name), login: Some(login), email: Some(email), admin: Some(admin) },
        ),
        forall|i: int| 0 <= i < events.len() ==> successful(#[trigger] events[i]),
        events.len() >= 5,
    ensures
        update_exchange(
            is_itself,
            is_admin,
            UpdateBuilder { username: Some(name), login: Some(login), email: Some(email), admin: Some(admin) },
            target,
            events,
        ) == seq![
            UpdateAction::SetUsername { row: target, value: name },
            UpdateAction::CheckLogin(login),
            UpdateAction::SetLogin { row: target, value: login },
            UpdateAction::SetEmail { row: target, value: email },
            UpdateAction::SetAdmin { row: target, value: admin },
            UpdateAction::Reply(Ok(())),
        ],
{
    let u = UpdateBuilder { username: Some(name), login: Some(login), email: Some(email), admin: Some(admin) };
    assert(requested_writes(u, target).len() == 5);
    update_succeeds_with_requested_writes(is_itself, is_admin, u, target, events);
    assert(requested_writes(u, target).push(UpdateAction::Reply(Ok(()))) =~= seq![
        UpdateAction::SetUsername { row: target, value: name },
        UpdateAction::CheckLogin(login),
        UpdateAction::SetLogin { row: target, value: login },
        UpdateAction::SetEmail { row: target, value: email },
        UpdateAction::SetAdmin { row: target, value: admin },
        UpdateAction::Reply(Ok(())),
    ]);
}

/// A change that asks for nothing is answered with success at once, by
/// anyone, with no operation on the store.
pub proof fn empty_update_replies_at_once(
    is_itself: bool,
    is_admin: bool,
    target: String,
    events: Seq<UpdateEvent>,
)
    ensures
        update_exchange(
            is_itself,
            is_admin,
            UpdateBuilder { username: None, login: None, email: None, admin: None },
            target,
            events,
        ) == seq![UpdateAction::Reply(Ok(()))],
{
}

/// A change that is not allowed is refused at once, before any operation on
/// the store.
pub proof fn denied_update_touches_nothing(
    is_itself: bool,
    is_admin: bool,
    u: UpdateBuilder,
    target: String,
    events: Seq<UpdateEvent>,
)
    requires
        update_denied(is_itself, is_admin, u),
    ensures
        update_exchange(is_itself, is_admin, u, target, events) == seq![
            UpdateAction::Reply(Err(Refusal::NotAllowed)),
        ],
{
}

} // verus!
