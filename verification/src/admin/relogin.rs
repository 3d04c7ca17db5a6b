//! The end of a login: a new credential, or new tokens for one that is there.

use vstd::prelude::*;

use crate::admin::error::{AdminServiceError, ErrorView};
use crate::admin::types::PollIdcLoginResponse;
use crate::clock::{rfc3339, Timestamp};
use crate::kiro::model::credentials::KiroCredentials;
use crate::kiro::token_manager::ManagerCall;

verus! {

/// How far the replacement of a refresh token has come: what it waits for.
#[derive(Debug, Clone, Copy, PartialEq, Eq, Structural)]
pub enum ReloginPhase {
    /// The credential being put out of use.
    Disabling,
    /// The token being replaced.
    Replacing,
    /// The credential being put into use again.
    Enabling,
}

/// The replacement of the refresh token of a credential after a login. Only a
/// credential that is out of use takes a new token, so it is put out of use
/// first and into use again last.
#[derive(Debug)]
pub struct ReloginUpdate {
    /// The credential.
    pub target_id: u64,
    /// The new refresh token.
    pub refresh_token: String,
    /// How far it has come.
    pub phase: ReloginPhase,
}

/// What follows in the replacement of a refresh token.
#[derive(Debug)]
pub enum ReloginStep {
    /// It goes on.
    Continue(ReloginUpdate),
    /// It has succeeded.
    Done(PollIdcLoginResponse),
    /// It has failed.
    Failed(AdminServiceError),
}

/// What follows once a login has been granted.
#[derive(Debug)]
pub enum LoginStep {
    /// The answer is known.
    Answer(PollIdcLoginResponse),
    /// The refresh token of a credential is replaced.
    Relogin(ReloginUpdate),
    /// A credential is added.
    Add(KiroCredentials),
}

/// Starts to replace the refresh token of a credential.
pub fn do_relogin_update(target_id: u64, refresh_token: String) -> (r: ReloginUpdate)
    ensures
        r == starting_relogin(target_id, refresh_token),
{
    ReloginUpdate { target_id, refresh_token, phase: ReloginPhase::Disabling }
}

/// The start of the replacement of a refresh token.
pub open spec fn starting_relogin(target_id: u64, refresh_token: String) -> ReloginUpdate {
    ReloginUpdate { target_id, refresh_token, phase: ReloginPhase::Disabling }
}

impl ReloginUpdate {
    /// What the keeper of the credentials is asked to do. The access token and
    /// its end are cleared with the refresh token.
    pub open spec fn call(self) -> ManagerCall {
        match self.phase {
            ReloginPhase::Disabling => ManagerCall::SetDisabled {
                id: self.target_id,
                disabled: true,
            },
            ReloginPhase::Replacing => ManagerCall::UpdateRefreshToken {
                id: self.target_id,
                refresh_token: self.refresh_token,
                access_token: None,
                expires_at: None,
            },
            ReloginPhase::Enabling => ManagerCall::ResetAndEnable { id: self.target_id },
        }
    }

    /// What the keeper of the credentials is asked to do.
    pub fn next_call(&self) -> (r: ManagerCall)
        ensures
            r == self.call(),
    {
        match self.phase {
            ReloginPhase::Disabling => ManagerCall::SetDisabled {
                id: self.target_id,
                disabled: true,
            },
            ReloginPhase::Replacing => ManagerCall::UpdateRefreshToken {
                id: self.target_id,
                refresh_token: self.refresh_token.clone(),
                access_token: None,
                expires_at: None,
            },
            ReloginPhase::Enabling => ManagerCall::ResetAndEnable { id: self.target_id },
        }
    }

    /// What follows when the keeper has done what it was asked for.
    pub open spec fn after_success(self) -> ReloginStep {
        match self.phase {
            ReloginPhase::Disabling => ReloginStep::Continue(
                ReloginUpdate { phase: ReloginPhase::Replacing, ..self },
            ),
            ReloginPhase::Replacing => ReloginStep::Continue(
                ReloginUpdate { phase: ReloginPhase::Enabling, ..self },
            ),
            ReloginPhase::Enabling => ReloginStep::Done(
                PollIdcLoginResponse::Success { credential_id: self.target_id },
            ),
        }
    }

    /// Goes on with what came of the last call. A failure ends it at once.
    pub fn resume(self, outcome: Result<(), String>) -> (r: ReloginStep)
        ensures
            match outcome {
                Ok(_) => r == self.after_success(),
                Err(e) => r matches ReloginStep::Failed(f) && f@ == ErrorView::Internal(e@),
            },
    {
        match outcome {
            Ok(_) => match self.phase {
                ReloginPhase::Disabling => ReloginStep::Continue(
                    ReloginUpdate { phase: ReloginPhase::Replacing, ..self },
                ),
                ReloginPhase::Replacing => ReloginStep::Continue(
                    ReloginUpdate { phase: ReloginPhase::Enabling, ..self },
                ),
                ReloginPhase::Enabling => ReloginStep::Done(
                    PollIdcLoginResponse::Success { credential_id: self.target_id },
                ),
            },
            Err(e) => ReloginStep::Failed(AdminServiceError::InternalError(e)),
        }
    }
}

/// What the answer means when a credential was to be added after a login.
pub fn login_added(outcome: Result<u64, String>) -> (r: Result<
    PollIdcLoginResponse,
    AdminServiceError,
>)
    ensures
        match outcome {
            Ok(id) => r == Ok::<PollIdcLoginResponse, AdminServiceError>(
                PollIdcLoginResponse::Success { credential_id: id },
            ),
            Err(e) => r matches Err(f) && f@ == ErrorView::Internal(e@),
        },
{
    match outcome {
        Ok(id) => Ok(PollIdcLoginResponse::Success { credential_id: id }),
        Err(e) => Err(AdminServiceError::InternalError(e)),
    }
}

/// When something that lasts some seconds from now on ends.
pub open spec fn end_text(now: Timestamp, seconds: i64) -> Seq<char> {
    now.later(seconds).unwrap().text()
}

/// When something that lasts some seconds from now on ends.
pub fn ends_at(now: &Timestamp, seconds: i64) -> (r: String)
    requires
        now.wf(),
        now.later(seconds) is Some,
    ensures
        r@ == end_text(*now, seconds),
{
    match now.plus_seconds(seconds) {
        Some(t) => t.to_rfc3339(),
        None => {
            assert(false);
            String::new()
        },
    }
}

/// The replacement of a refresh token that meets no failure makes three calls:
/// the credential is put out of use, its token is replaced, and it is put into
/// use again. Then it is done.
pub proof fn relogin_disables_replaces_and_enables(target_id: u64, refresh_token: String)
    ensures
        ({
            let first = starting_relogin(target_id, refresh_token);
            let second = first.after_success()->Continue_0;
            let third = second.after_success()->Continue_0;
            &&& first.call() == (ManagerCall::SetDisabled { id: target_id, disabled: true })
            &&& first.after_success() is Continue
            &&& second.call() == (ManagerCall::UpdateRefreshToken {
                id: target_id,
                refresh_token,
                access_token: None,
                expires_at: None,
            })
            &&& second.after_success() is Continue
            &&& third.call() == (ManagerCall::ResetAndEnable { id: target_id })
            &&& third.after_success() == ReloginStep::Done(
                PollIdcLoginResponse::Success { credential_id: target_id },
            )
        }),
{
}

/// The replacement of a refresh token, call by call: each call is about the credential
/// that it was started for, the new token is the one that was granted, and the answer
/// names that credential. A failure of any call ends it with what the keeper said.
pub proof fn a_replacement_is_about_its_credential(
    target_id: u64,
    refresh_token: String,
    first: ReloginUpdate,
    disabled: ReloginStep,
    replaced: ReloginStep,
    calls: Seq<ManagerCall>,
    done: ReloginStep,
    message: String,
    failed: Seq<ReloginStep>,
)
    requires
        calls.len() == 3 && failed.len() == 3,
        call_ensures(do_relogin_update, (target_id, refresh_token), first),
        call_ensures(ReloginUpdate::next_call, (&first,), calls[0]),
        call_ensures(ReloginUpdate::resume, (first, Ok(())), disabled),
        call_ensures(ReloginUpdate::next_call, (&disabled->Continue_0,), calls[1]),
        call_ensures(ReloginUpdate::resume, (disabled->Continue_0, Ok(())), replaced),
        call_ensures(ReloginUpdate::next_call, (&replaced->Continue_0,), calls[2]),
        call_ensures(ReloginUpdate::resume, (replaced->Continue_0, Ok(())), done),
        call_ensures(ReloginUpdate::resume, (first, Err(message)), failed[0]),
        call_ensures(ReloginUpdate::resume, (disabled->Continue_0, Err(message)), failed[1]),
        call_ensures(ReloginUpdate::resume, (replaced->Continue_0, Err(message)), failed[2]),
    ensures
        disabled is Continue && replaced is Continue,
        calls[0] == (ManagerCall::SetDisabled { id: target_id, disabled: true }),
        calls[1] matches ManagerCall::UpdateRefreshToken {
            id,
            refresh_token: t,
            access_token,
            expires_at,
        } && id == target_id && t == refresh_token && access_token is None && expires_at is None,
        calls[2] == (ManagerCall::ResetAndEnable { id: target_id }),
        done == ReloginStep::Done(PollIdcLoginResponse::Success { credential_id: target_id }),
        failed[0] matches ReloginStep::Failed(e) && e@ == ErrorView::Internal(message@),
        failed[1] matches ReloginStep::Failed(e) && e@ == ErrorView::Internal(message@),
        failed[2] matches ReloginStep::Failed(e) && e@ == ErrorView::Internal(message@),
{
}

/// A login that has added a credential is answered with its number, and one that could
/// not add it with what the keeper said.
pub proof fn an_added_credential_ends_the_login(
    id: u64,
    message: String,
    r: Result<PollIdcLoginResponse, AdminServiceError>,
    error: Result<PollIdcLoginResponse, AdminServiceError>,
)
    requires
        call_ensures(login_added, (Ok(id),), r),
        call_ensures(login_added, (Err(message),), error),
    ensures
        r == Ok::<PollIdcLoginResponse, AdminServiceError>(
            PollIdcLoginResponse::Success { credential_id: id },
        ),
        error matches Err(e) && e@ == ErrorView::Internal(message@),
{
}

/// What lasts some seconds ends that many seconds from now.
pub proof fn an_end_lies_its_seconds_ahead(now: Timestamp, seconds: i64, r: String)
    requires
        now.wf(),
        now.later(seconds) is Some,
        call_ensures(ends_at, (&now, seconds), r),
    ensures
        r@ == rfc3339((now.seconds + seconds) as i64, now.nanos),
{
}

} // verus!
