//! The translation of one status code, as a dialogue with the runtime.
//!
//! A [`Translation`] never touches the runtime. It says which query comes next,
//! takes the answer, and is settled once nothing is left to ask. Whoever owns
//! the runtime makes the queries; which of them are made, in which order and
//! how often, is decided here.

use vstd::prelude::*;
use crate::message::text_view;
use crate::result::{kind_of, Error, ErrorKind, ErrorView};
use crate::sys::{RawValue, Status};

verus! {

/// One of the three things that the runtime can be asked.
#[derive(Clone, Copy, Debug, PartialEq, Eq, Structural)]
pub enum Query {
    /// The message that the runtime recorded for the failed call. Asking
    /// changes nothing in the runtime.
    LastErrorInfo,
    /// Whether an exception is waiting. Asking changes nothing either.
    IsExceptionPending,
    /// The exception that is waiting. Asking takes it out of the runtime:
    /// afterwards none is waiting.
    GetAndClearLastException,
}

/// The exception to report for the handle that the runtime gave: none for the
/// null handle, whatever the runtime said before about one waiting.
pub open spec fn captured(value: RawValue) -> Option<RawValue> {
    if value.is_null() {
        None
    } else {
        Some(value)
    }
}

/// How far a translation has come.
pub enum TranslationView {
    /// Nothing is left to ask: this is the result.
    Settled(Result<(), ErrorView>),
    /// The call failed, and the message has to be asked for.
    AwaitingLastErrorInfo { status: Status },
    /// The message is in; whether an exception is waiting has to be asked.
    AwaitingExceptionPending { status: Status, message: Option<Seq<char>> },
    /// An exception is waiting, and has to be taken out of the runtime.
    AwaitingLastException { status: Status, message: Option<Seq<char>> },
}

impl TranslationView {
    /// Where the translation of `status` starts.
    pub open spec fn begin(status: Status) -> TranslationView {
        if status.is_ok() {
            TranslationView::Settled(Ok(()))
        } else {
            TranslationView::AwaitingLastErrorInfo { status }
        }
    }

    /// The query that has to be made next, if any.
    pub open spec fn query(self) -> Option<Query> {
        match self {
            TranslationView::Settled(_) => None,
            TranslationView::AwaitingLastErrorInfo { .. } => Some(Query::LastErrorInfo),
            TranslationView::AwaitingExceptionPending { .. } => Some(Query::IsExceptionPending),
            TranslationView::AwaitingLastException { .. } => Some(
                Query::GetAndClearLastException,
            ),
        }
    }

    /// The state after the runtime's message came in. The status that itself
    /// says "an exception is waiting" leads straight to taking the exception.
    pub open spec fn last_error_info(self, message: Option<Seq<char>>) -> TranslationView {
        match self {
            TranslationView::AwaitingLastErrorInfo { status } => if status.is_pending_exception() {
                TranslationView::AwaitingLastException { status, message }
            } else {
                TranslationView::AwaitingExceptionPending { status, message }
            },
            _ => self,
        }
    }

    /// The state after the runtime said whether an exception is waiting.
    pub open spec fn exception_pending(self, pending: bool) -> TranslationView {
        match self {
            TranslationView::AwaitingExceptionPending { status, message } => if pending {
                TranslationView::AwaitingLastException { status, message }
            } else {
                TranslationView::Settled(
                    Err(ErrorView { kind: kind_of(status.code), message, exception: None }),
                )
            },
            _ => self,
        }
    }

    /// The state after the runtime handed over the exception.
    pub open spec fn last_exception(self, value: RawValue) -> TranslationView {
        match self {
            TranslationView::AwaitingLastException { status, message } => TranslationView::Settled(
                Err(ErrorView { kind: kind_of(status.code), message, exception: captured(value) }),
            ),
            _ => self,
        }
    }

    /// What holds of every translation that was begun and fed answers: it asks
    /// only about a call that failed, and it asks whether an exception is
    /// waiting only where the status has not said so already.
    pub open spec fn well_formed(self) -> bool {
        match self {
            TranslationView::Settled(_) => true,
            TranslationView::AwaitingLastErrorInfo { status } => !status.is_ok(),
            TranslationView::AwaitingExceptionPending { status, .. } => !status.is_ok()
                && !status.is_pending_exception(),
            TranslationView::AwaitingLastException { status, .. } => !status.is_ok(),
        }
    }
}

/// A result with the error's message as a sequence of characters.
pub open spec fn outcome_view(outcome: Result<(), Error>) -> Result<(), ErrorView> {
    match outcome {
        Ok(_) => Ok(()),
        Err(error) => Err(error@),
    }
}

enum Stage {
    Settled(Result<(), Error>),
    AwaitingLastErrorInfo { status: Status },
    AwaitingExceptionPending { status: Status, message: Option<String> },
    AwaitingLastException { status: Status, message: Option<String> },
}

/// The translation of one status code, under way or settled.
///
/// Begin it with the status of the call that just returned, make the query it
/// names, hand it the answer, and go on until it names none; then take the
/// outcome. An answer that it did not ask for leaves it as it was.
pub struct Translation {
    stage: Stage,
}

impl View for Translation {
    type V = TranslationView;

    closed spec fn view(&self) -> TranslationView {
        match self.stage {
            Stage::Settled(outcome) => TranslationView::Settled(outcome_view(outcome)),
            Stage::AwaitingLastErrorInfo { status } => TranslationView::AwaitingLastErrorInfo {
                status,
            },
            Stage::AwaitingExceptionPending {
                status,
                message,
            } => TranslationView::AwaitingExceptionPending { status, message: text_view(message) },
            Stage::AwaitingLastException {
                status,
                message,
            } => TranslationView::AwaitingLastException { status, message: text_view(message) },
        }
    }
}

impl Translation {
    #[verifier::type_invariant]
    spec fn inv(self) -> bool {
        self@.well_formed()
    }

    /// Begins the translation of `status`. For the status of success it is
    /// settled at once, with nothing to ask.
    pub fn begin(status: Status) -> (translation: Translation)
        ensures
            translation@ == TranslationView::begin(status),
    {
        if status.is_ok() {
            Translation { stage: Stage::Settled(Ok(())) }
        } else {
            Translation { stage: Stage::AwaitingLastErrorInfo { status } }
        }
    }

    /// The query to make next; none once the translation is settled.
    pub fn query(&self) -> (query: Option<Query>)
        ensures
            query == self@.query(),
            self@.well_formed(),
    {
        proof {
            use_type_invariant(self);
        }
        match &self.stage {
            Stage::Settled(_) => None,
            Stage::AwaitingLastErrorInfo { .. } => Some(Query::LastErrorInfo),
            Stage::AwaitingExceptionPending { .. } => Some(Query::IsExceptionPending),
            Stage::AwaitingLastException { .. } => Some(Query::GetAndClearLastException),
        }
    }

    /// Takes the answer to [`Query::LastErrorInfo`]: the runtime's message,
    /// copied, or none where the runtime had none.
    pub fn last_error_info(self, message: Option<String>) -> (next: Translation)
        ensures
            next@ == self@.last_error_info(text_view(message)),
    {
        proof {
            use_type_invariant(&self);
        }
        match self.stage {
            Stage::AwaitingLastErrorInfo { status } => {
                if status.is_pending_exception() {
                    Translation { stage: Stage::AwaitingLastException { status, message } }
                } else {
                    Translation { stage: Stage::AwaitingExceptionPending { status, message } }
                }
            },
            stage => Translation { stage },
        }
    }

    /// Takes the answer to [`Query::IsExceptionPending`].
    pub fn exception_pending(self, pending: bool) -> (next: Translation)
        ensures
            next@ == self@.exception_pending(pending),
    {
        proof {
            use_type_invariant(&self);
        }
        match self.stage {
            Stage::AwaitingExceptionPending { status, message } => {
                if pending {
                    Translation { stage: Stage::AwaitingLastException { status, message } }
                } else {
                    let kind = ErrorKind::from_napi_status(status);
                    Translation {
                        stage: Stage::Settled(Err(Error { kind, message, exception: None })),
                    }
                }
            },
            stage => Translation { stage },
        }
    }

    /// Takes the answer to [`Query::GetAndClearLastException`]: the handle
    /// that the runtime gave, which may be null.
    pub fn last_exception(self, value: RawValue) -> (next: Translation)
        ensures
            next@ == self@.last_exception(value),
    {
        proof {
            use_type_invariant(&self);
        }
        match self.stage {
            Stage::AwaitingLastException { status, message } => {
                let kind = ErrorKind::from_napi_status(status);
                let exception = if value.is_null() {
                    None
                } else {
                    Some(value)
                };
                Translation { stage: Stage::Settled(Err(Error { kind, message, exception })) }
            },
            stage => Translation { stage },
        }
    }

    /// The result, once the translation is settled; none while it still has a
    /// query to make.
    pub fn outcome(self) -> (outcome: Option<Result<(), Error>>)
        ensures
            match self@ {
                TranslationView::Settled(result) => outcome matches Some(o) && outcome_view(o)
                    == result,
                _ => outcome is None,
            },
    {
        match self.stage {
            Stage::Settled(outcome) => Some(outcome),
            _ => None,
        }
    }
}

} // verus!
