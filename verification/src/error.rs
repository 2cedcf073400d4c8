//! The ways in which a command can fail.

use crate::credentials::Service;
use crate::http::{status_line, status_text};
use vstd::prelude::*;
use vstd::string::*;

verus! {

/// Why a command failed.
#[derive(Clone, Debug, PartialEq, Eq)]
pub enum ApiError {
    /// No token for the service is kept in the secret store.
    CredentialMissing { service: Service },
    /// The secret store could not be reached.
    StoreUnavailable { reason: String },
    /// A request could not be sent, or the answer could not be read to its end.
    Transport { reason: String },
    /// The service answered with a status outside the success class.
    Http { service: Service, status: u16 },
    /// The answer is not the JSON that was asked for.
    Decode,
}

/// The mathematical value of an [`ApiError`].
pub enum ApiErrorView {
    CredentialMissing { service: Service },
    StoreUnavailable { reason: Seq<char> },
    Transport { reason: Seq<char> },
    Http { service: Service, status: u16 },
    Decode,
}

impl View for ApiError {
    type V = ApiErrorView;

    open spec fn view(&self) -> ApiErrorView {
        match self {
            ApiError::CredentialMissing { service } => ApiErrorView::CredentialMissing {
                service: *service,
            },
            ApiError::StoreUnavailable { reason } => ApiErrorView::StoreUnavailable {
                reason: reason@,
            },
            ApiError::Transport { reason } => ApiErrorView::Transport { reason: reason@ },
            ApiError::Http { service, status } => ApiErrorView::Http {
                service: *service,
                status: *status,
            },
            ApiError::Decode => ApiErrorView::Decode,
        }
    }
}

/// The text that tells a reader of the failure.
pub open spec fn message_of(error: ApiErrorView) -> Seq<char> {
    match error {
        ApiErrorView::CredentialMissing { service } => service.label()
            + " API Key not found. Please set it in Settings."@,
        ApiErrorView::StoreUnavailable { reason } => reason,
        ApiErrorView::Transport { reason } => reason,
        ApiErrorView::Http { service, status } => service.label() + " API error: "@ + status_text(
            status,
        ),
        ApiErrorView::Decode => "error decoding response body"@,
    }
}

impl ApiError {
    /// The text that tells a reader of the failure.
    pub fn message(&self) -> (text: String)
        ensures
            text@ == message_of(self@),
    {
        match self {
            ApiError::CredentialMissing { service } => String::from_str(
                service.label_text(),
            ).concat(" API Key not found. Please set it in Settings."),
            ApiError::StoreUnavailable { reason } => reason.clone(),
            ApiError::Transport { reason } => reason.clone(),
            ApiError::Http { service, status } => {
                let line = status_line(*status);
                String::from_str(service.label_text()).concat(" API error: ").concat(
                    line.as_str(),
                )
            },
            ApiError::Decode => String::from_str("error decoding response body"),
        }
    }
}

} // verus!
