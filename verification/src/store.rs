//! The conversation between a flow and the store behind it.
//!
//! A flow never reaches the store. It hands out a `StoreRequest`; whoever
//! drives it performs the request and hands back a `StoreReply`.

use crate::errors::AuthError;
use crate::models::password_reset::{
    NewResetToken,
    NewResetTokenView,
    PasswordResetToken,
    PasswordResetTokenView,
};
use crate::models::user::{User, UserView};
use crate::view::{option_view, result_view};
use vstd::prelude::*;

verus! {

/// One operation on the user store or on the reset-token store.
#[derive(Debug, PartialEq, Eq)]
pub enum StoreRequest {
    /// Look a user up by the exact email.
    FindUserByEmail { email: String },
    /// Look a user up by id.
    FindUserById { id: String },
    /// Insert a user; the store enforces that emails are unique.
    InsertUser { email: String, password_hash: String },
    /// Replace a user's password hash.
    UpdatePassword { user_id: String, password_hash: String },
    /// Insert a reset token, unused.
    InsertResetToken { fresh: NewResetToken },
    /// Look a reset token up by its exact text.
    FindResetToken { token: String },
    /// Set a reset token's `used` flag.
    MarkResetTokenUsed { token: String },
}

/// What a `StoreRequest` holds, as the contracts read it.
pub enum StoreRequestView {
    FindUserByEmail { email: Seq<char> },
    FindUserById { id: Seq<char> },
    InsertUser { email: Seq<char>, password_hash: Seq<char> },
    UpdatePassword { user_id: Seq<char>, password_hash: Seq<char> },
    InsertResetToken { fresh: NewResetTokenView },
    FindResetToken { token: Seq<char> },
    MarkResetTokenUsed { token: Seq<char> },
}

impl View for StoreRequest {
    type V = StoreRequestView;

    open spec fn view(&self) -> StoreRequestView {
        match *self {
            StoreRequest::FindUserByEmail { email } => StoreRequestView::FindUserByEmail {
                email: email@,
            },
            StoreRequest::FindUserById { id } => StoreRequestView::FindUserById { id: id@ },
            StoreRequest::InsertUser { email, password_hash } => StoreRequestView::InsertUser {
                email: email@,
                password_hash: password_hash@,
            },
            StoreRequest::UpdatePassword { user_id, password_hash } =>
                StoreRequestView::UpdatePassword {
                    user_id: user_id@,
                    password_hash: password_hash@,
                },
            StoreRequest::InsertResetToken { fresh } => StoreRequestView::InsertResetToken {
                fresh: fresh@,
            },
            StoreRequest::FindResetToken { token } => StoreRequestView::FindResetToken {
                token: token@,
            },
            StoreRequest::MarkResetTokenUsed { token } => StoreRequestView::MarkResetTokenUsed {
                token: token@,
            },
        }
    }
}

/// What the store answered.
#[derive(Debug, PartialEq, Eq)]
pub enum StoreReply {
    /// The outcome of a user lookup.
    User { found: Option<User> },
    /// The user that an insert created.
    UserInserted { user: User },
    /// An insert hit the uniqueness constraint on emails.
    Duplicate,
    /// The outcome of a reset-token lookup.
    ResetToken { found_token: Option<PasswordResetToken> },
    /// A write without a result succeeded.
    Done,
    /// The store failed.
    Failed,
}

/// What a `StoreReply` holds, as the contracts read it.
pub enum StoreReplyView {
    User { found: Option<UserView> },
    UserInserted { user: UserView },
    Duplicate,
    ResetToken { found_token: Option<PasswordResetTokenView> },
    Done,
    Failed,
}

impl View for StoreReply {
    type V = StoreReplyView;

    open spec fn view(&self) -> StoreReplyView {
        match *self {
            StoreReply::User { found } => StoreReplyView::User { found: option_view(found) },
            StoreReply::UserInserted { user } => StoreReplyView::UserInserted { user: user@ },
            StoreReply::Duplicate => StoreReplyView::Duplicate,
            StoreReply::ResetToken { found_token } => StoreReplyView::ResetToken {
                found_token: option_view(found_token),
            },
            StoreReply::Done => StoreReplyView::Done,
            StoreReply::Failed => StoreReplyView::Failed,
        }
    }
}

/// What a flow wants next: an answer from the store, or to end.
#[derive(Debug, PartialEq, Eq)]
pub enum Step<T> {
    /// Perform this request and call the flow again with the reply.
    Ask { request: StoreRequest },
    /// The flow is over with this outcome.
    Finish { outcome: Result<T, AuthError> },
}

/// What a `Step` holds, as the contracts read it.
pub enum StepView<V> {
    Ask { request: StoreRequestView },
    Finish { outcome: Result<V, AuthError> },
}

impl<T: View> View for Step<T> {
    type V = StepView<T::V>;

    open spec fn view(&self) -> StepView<T::V> {
        match *self {
            Step::Ask { request } => StepView::Ask { request: request@ },
            Step::Finish { outcome: Ok(value) } => StepView::Finish { outcome: Ok(value@) },
            Step::Finish { outcome: Err(error) } => StepView::Finish { outcome: Err(error) },
        }
    }
}

impl<V> StepView<V> {
    /// The step that asks the store.
    pub open spec fn ask(request: StoreRequestView) -> StepView<V> {
        StepView::Ask { request }
    }

    /// The step that ends the flow in success.
    pub open spec fn done(value: V) -> StepView<V> {
        StepView::Finish { outcome: Ok(value) }
    }

    /// The step that ends the flow in failure.
    pub open spec fn fail(error: AuthError) -> StepView<V> {
        StepView::Finish { outcome: Err(error) }
    }
}

impl<T: View> Step<T> {
    /// The step that asks the store.
    pub fn ask(request: StoreRequest) -> (step: Step<T>)
        ensures
            step@ == StepView::<T::V>::ask(request@),
    {
        Step::Ask { request }
    }

    /// The step that ends the flow in success.
    pub fn done(value: T) -> (step: Step<T>)
        ensures
            step@ == StepView::<T::V>::done(value@),
    {
        Step::Finish { outcome: Ok(value) }
    }

    /// The step that ends the flow in failure.
    pub fn fail(error: AuthError) -> (step: Step<T>)
        ensures
            step@ == StepView::<T::V>::fail(error),
    {
        Step::Finish { outcome: Err(error) }
    }

    /// The step that ends the flow with `outcome`.
    pub fn finish(outcome: Result<T, AuthError>) -> (step: Step<T>)
        ensures
            step@ == (StepView::<T::V>::Finish { outcome: result_view(outcome) }),
    {
        Step::Finish { outcome }
    }
}

} // verus!
