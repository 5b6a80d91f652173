//! A model of the runtime, and what a translation does when it runs against it.
//!
//! The model holds what the three queries can bring to light and says how each
//! query changes it. Nothing here is executable: the model exists to state, and
//! to prove, what a translation asks and what comes of it.

use vstd::prelude::*;
use crate::message::{copied, lemma_ascii_is_verbatim, lemma_text_len, text_bytes, text_len};
use crate::result::{kind_of, ErrorView};
use crate::sys::{RawValue, Status};
use crate::translation::{captured, Query, TranslationView};

verus! {

/// The part of a runtime's state that a translation can come to see.
pub struct Runtime {
    /// What the runtime's message pointer leads to: nothing where it is null.
    pub message: Option<Seq<u8>>,
    /// Whether the runtime says that an exception is waiting.
    pub pending: bool,
    /// The handle that the runtime gives when the exception is taken. It may be
    /// null even where `pending` holds.
    pub exception: RawValue,
}

impl Runtime {
    /// The runtime after it was asked whether an exception is waiting. Its
    /// message is good only until the next call that is not for the message, so
    /// the model forgets it.
    pub open spec fn probed(self) -> Runtime {
        Runtime { message: None, pending: self.pending, exception: self.exception }
    }

    /// The runtime after the exception was taken out of it: none is waiting,
    /// and the message is forgotten.
    pub open spec fn drained(self) -> Runtime {
        Runtime { message: None, pending: false, exception: RawValue { addr: 0 } }
    }
}

/// A translation under way against a runtime: how far it has come, the state
/// that the runtime is in, and the queries made so far, in order.
pub struct Run {
    pub translation: TranslationView,
    pub runtime: Runtime,
    pub asked: Seq<Query>,
}

impl Run {
    /// The run before anything was asked.
    pub open spec fn begin(status: Status, runtime: Runtime) -> Run {
        Run { translation: TranslationView::begin(status), runtime, asked: Seq::empty() }
    }

    /// The run after the query that the translation names was made and
    /// answered by the runtime; the run itself where the translation is
    /// settled.
    pub open spec fn step(self) -> Run {
        match self.translation.query() {
            None => self,
            Some(Query::LastErrorInfo) => Run {
                translation: self.translation.last_error_info(copied(self.runtime.message)),
                runtime: self.runtime,
                asked: self.asked.push(Query::LastErrorInfo),
            },
            Some(Query::IsExceptionPending) => Run {
                translation: self.translation.exception_pending(self.runtime.pending),
                runtime: self.runtime.probed(),
                asked: self.asked.push(Query::IsExceptionPending),
            },
            Some(Query::GetAndClearLastException) => Run {
                translation: self.translation.last_exception(self.runtime.exception),
                runtime: self.runtime.drained(),
                asked: self.asked.push(Query::GetAndClearLastException),
            },
        }
    }
}

/// The translation of `status` run to its end against `runtime`. Three steps
/// are enough for every status and every runtime, as [`lemma_run`] shows.
pub open spec fn run(status: Status, runtime: Runtime) -> Run {
    Run::begin(status, runtime).step().step().step()
}

/// What the translation of `status` comes to when the runtime is in state
/// `runtime`: success for the status of success; else the error with the
/// status's kind, the runtime's message, and the exception, if the status or
/// the runtime says that one is waiting and the handle for it is not null.
pub open spec fn translated(status: Status, runtime: Runtime) -> Result<(), ErrorView> {
    if status.is_ok() {
        Ok(())
    } else {
        Err(
            ErrorView {
                kind: kind_of(status.code),
                message: copied(runtime.message),
                exception: if status.is_pending_exception() || runtime.pending {
                    captured(runtime.exception)
                } else {
                    None
                },
            },
        )
    }
}

/// The queries that the translation of `status` makes, in order.
pub open spec fn queries(status: Status, runtime: Runtime) -> Seq<Query> {
    if status.is_ok() {
        Seq::empty()
    } else if status.is_pending_exception() {
        seq![Query::LastErrorInfo, Query::GetAndClearLastException]
    } else if runtime.pending {
        seq![Query::LastErrorInfo, Query::IsExceptionPending, Query::GetAndClearLastException]
    } else {
        seq![Query::LastErrorInfo, Query::IsExceptionPending]
    }
}

/// The state that the translation of `status` leaves the runtime in.
pub open spec fn left_behind(status: Status, runtime: Runtime) -> Runtime {
    if status.is_ok() {
        runtime
    } else if status.is_pending_exception() || runtime.pending {
        runtime.drained()
    } else {
        runtime.probed()
    }
}

/// Every run settles within three steps: on the result that [`translated`]
/// gives, after exactly the queries that [`queries`] lists, with the runtime
/// left as [`left_behind`] says.
pub proof fn lemma_run(status: Status, runtime: Runtime)
    ensures
        run(status, runtime).translation == TranslationView::Settled(translated(status, runtime)),
        run(status, runtime).asked == queries(status, runtime),
        run(status, runtime).runtime == left_behind(status, runtime),
        run(status, runtime).step() == run(status, runtime),
{
    let end = run(status, runtime);
    assert(end.asked =~= queries(status, runtime));
}

/// Every step keeps a translation well formed, and a translation is well
/// formed when it begins.
pub proof fn lemma_steps_keep_well_formed(status: Status, run: Run)
    ensures
        TranslationView::begin(status).well_formed(),
        run.translation.well_formed() ==> run.step().translation.well_formed(),
{
}

/// A translation asks whether an exception is waiting only for a status that
/// has not said so itself, whatever was asked and answered before.
pub proof fn lemma_question_only_without_pending_status(translation: TranslationView)
    requires
        translation.well_formed(),
        translation.query() == Some(Query::IsExceptionPending),
    ensures
        translation matches TranslationView::AwaitingExceptionPending { status, .. }
            && !status.is_ok() && !status.is_pending_exception(),
{
}

/// The status of success translates to success, and the runtime is asked
/// nothing: it is left exactly as it was.
pub proof fn lemma_success_asks_nothing(status: Status, runtime: Runtime)
    requires
        status.is_ok(),
    ensures
        run(status, runtime).translation == TranslationView::Settled(Ok(())),
        run(status, runtime).asked.len() == 0,
        run(status, runtime).runtime == runtime,
        TranslationView::begin(status).query() is None,
{
    lemma_run(status, runtime);
}

/// Every other status translates to an error, whose kind is the one kind that
/// the status maps to. No status and no runtime makes the translation itself
/// fail.
pub proof fn lemma_failure_has_the_mapped_kind(status: Status, runtime: Runtime)
    requires
        !status.is_ok(),
    ensures
        run(status, runtime).translation matches TranslationView::Settled(Err(error))
            && error.kind == kind_of(status.code),
{
    lemma_run(status, runtime);
}

/// The error carries the runtime's message as it stood when the translation
/// began, whatever becomes of the runtime's own record of it by the end; and
/// none where the runtime had none.
pub proof fn lemma_message_is_copied(status: Status, runtime: Runtime)
    requires
        !status.is_ok(),
    ensures
        run(status, runtime).translation matches TranslationView::Settled(Err(error))
            && error.message == copied(runtime.message) && (error.message is Some
            <==> runtime.message is Some),
{
    lemma_run(status, runtime);
}

/// A message whose text is made of bytes below 128 reaches the error
/// character for character, up to the zero byte that ends it.
pub proof fn lemma_ascii_message_is_verbatim(status: Status, runtime: Runtime, bytes: Seq<u8>)
    requires
        !status.is_ok(),
        runtime.message == Some(bytes),
        forall|i: int| 0 <= i < text_len(bytes) ==> bytes[i] < 128,
    ensures
        text_len(bytes) <= bytes.len(),
        run(status, runtime).translation matches TranslationView::Settled(Err(error))
            && error.message == Some(
            Seq::new(text_len(bytes), |i: int| bytes[i] as char),
        ),
{
    lemma_run(status, runtime);
    lemma_text_len(bytes);
    let text = text_bytes(bytes);
    lemma_ascii_is_verbatim(text);
    assert(Seq::new(text.len(), |i: int| text[i] as char) =~= Seq::new(
        text_len(bytes),
        |i: int| bytes[i] as char,
    ));
}

/// Where the runtime is asked and says that no exception is waiting, the
/// error carries none, and none is taken out of the runtime.
pub proof fn lemma_no_exception_unless_pending(status: Status, runtime: Runtime)
    requires
        !status.is_ok(),
        !status.is_pending_exception(),
        !runtime.pending,
    ensures
        run(status, runtime).translation matches TranslationView::Settled(Err(error))
            && error.exception is None,
        !run(status, runtime).asked.contains(Query::GetAndClearLastException),
{
    lemma_run(status, runtime);
    let asked = queries(status, runtime);
    assert(asked[0] == Query::LastErrorInfo && asked[1] == Query::IsExceptionPending);
}

/// Where an exception is waiting and its handle is not null, the error
/// carries that handle, and afterwards the runtime has no exception waiting:
/// asked again, it would say so.
pub proof fn lemma_pending_exception_is_captured(status: Status, runtime: Runtime)
    requires
        !status.is_ok(),
        runtime.pending,
        !runtime.exception.is_null(),
    ensures
        run(status, runtime).translation matches TranslationView::Settled(Err(error))
            && error.exception == Some(runtime.exception),
        !run(status, runtime).runtime.pending,
{
    lemma_run(status, runtime);
}

/// A null handle is reported as no exception, even where one was said to be
/// waiting.
pub proof fn lemma_null_exception_is_none(status: Status, runtime: Runtime)
    requires
        !status.is_ok(),
        runtime.exception.is_null(),
    ensures
        run(status, runtime).translation matches TranslationView::Settled(Err(error))
            && error.exception is None,
{
    lemma_run(status, runtime);
}

/// For the status that itself says "an exception is waiting", the runtime is
/// not asked whether one is: after the message, the exception is taken at once.
pub proof fn lemma_pending_status_is_not_questioned(status: Status, runtime: Runtime)
    requires
        status.is_pending_exception(),
    ensures
        !run(status, runtime).asked.contains(Query::IsExceptionPending),
        run(status, runtime).asked == seq![
            Query::LastErrorInfo,
            Query::GetAndClearLastException,
        ],
        run(status, runtime).translation matches TranslationView::Settled(Err(error))
            && error.exception == captured(runtime.exception),
{
    lemma_run(status, runtime);
    let asked = queries(status, runtime);
    assert(asked[0] == Query::LastErrorInfo && asked[1] == Query::GetAndClearLastException);
}

/// No query is made twice in one translation. So the exception is taken out
/// of the runtime at most once, and the message is asked for before anything
/// that could make the runtime forget it.
pub proof fn lemma_each_query_at_most_once(status: Status, runtime: Runtime)
    ensures
        run(status, runtime).asked.no_duplicates(),
        run(status, runtime).asked.len() <= 3,
        run(status, runtime).asked.len() > 0 ==> run(status, runtime).asked[0]
            == Query::LastErrorInfo,
{
    lemma_run(status, runtime);
}

} // verus!
