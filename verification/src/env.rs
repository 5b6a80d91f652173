//! The invocation context, and the translation of a status code through it.

use vstd::prelude::*;
use crate::message::{bytes_view, copy_message};
use crate::result::Error;
use crate::runtime::{translated, Runtime};
use crate::sys::{RawEnv, RawValue, Status};
use crate::translation::{outcome_view, Query, Translation};

verus! {

/// The context of the invocation that is under way: the runtime's handle, and
/// nothing else. Copying it copies the handle, not what the runtime keeps
/// behind it, and it must not be kept beyond the invocation it came with.
#[derive(Clone, Copy, Debug)]
pub struct Env {
    env: RawEnv,
}

impl From<RawEnv> for Env {
    fn from(env: RawEnv) -> (context: Self)
        ensures
            context.as_sys_env() == env,
    {
        Self { env }
    }
}

impl vstd::std_specs::convert::FromSpecImpl<RawEnv> for Env {
    open spec fn obeys_from_spec() -> bool {
        true
    }

    closed spec fn from_spec(env: RawEnv) -> Self {
        Env { env }
    }
}

impl Env {
    pub closed spec fn spec_as_sys_env(self) -> RawEnv {
        self.env
    }

    /// The runtime's handle, for handing back to the runtime.
    #[verifier::when_used_as_spec(spec_as_sys_env)]
    pub fn as_sys_env(self) -> (env: RawEnv)
        ensures
            env == self.spec_as_sys_env(),
    {
        self.env
    }

    /// A context is its handle and nothing more: two contexts with one handle
    /// are one context, and the context made from a handle gives it back.
    pub proof fn lemma_context_is_its_handle(a: Env, b: Env, env: RawEnv)
        ensures
            a.as_sys_env() == b.as_sys_env() ==> a == b,
            <Env as vstd::std_specs::convert::FromSpec<RawEnv>>::from_spec(env).as_sys_env()
                == env,
    {
    }

    /// Whether the three queries, made on `env` for a call that returned
    /// `status`, can have found the runtime in state `runtime`: each query
    /// that the translation of `status` makes can have given the answer that
    /// `runtime` holds. `message` is the message as the first query gave it.
    pub open spec fn found<L, P, X>(
        env: RawEnv,
        status: Status,
        last_error_info: L,
        is_exception_pending: P,
        get_and_clear_last_exception: X,
        message: Option<Vec<u8>>,
        runtime: Runtime,
    ) -> bool where
        L: FnOnce(RawEnv) -> Option<Vec<u8>>,
        P: FnOnce(RawEnv) -> bool,
        X: FnOnce(RawEnv) -> RawValue,
     {
        &&& runtime.message == bytes_view(message)
        &&& !status.is_ok() ==> last_error_info.ensures((env,), message)
        &&& !status.is_ok() && !status.is_pending_exception() ==> is_exception_pending.ensures(
            (env,),
            runtime.pending,
        )
        &&& !status.is_ok() && (status.is_pending_exception() || runtime.pending)
            ==> get_and_clear_last_exception.ensures((env,), runtime.exception)
    }

    /// Translates the status of the call that was just made through this
    /// context. The three functions are the runtime's three queries; each is
    /// handed this context's handle, and each is called at most once:
    ///
    /// - for the status of success none of them is called, and the result is
    ///   `Ok`;
    /// - for every other status the message is asked for first, and copied;
    /// - whether an exception is waiting is asked unless the status says so
    ///   itself;
    /// - the exception is taken only where one is waiting.
    ///
    /// A query has to be callable only where it is made: a function that must
    /// not be called at all is accepted for a status that does not lead to it.
    /// The result is what [`translated`] gives for the state that the queries
    /// found the runtime in.
    pub fn handle_status<L, P, X>(
        self,
        status: Status,
        last_error_info: L,
        is_exception_pending: P,
        get_and_clear_last_exception: X,
    ) -> (result: Result<(), Error>) where
        L: FnOnce(RawEnv) -> Option<Vec<u8>>,
        P: FnOnce(RawEnv) -> bool,
        X: FnOnce(RawEnv) -> RawValue,

        requires
            !status.is_ok() ==> last_error_info.requires((self.as_sys_env(),)),
            !status.is_ok() && !status.is_pending_exception() ==> is_exception_pending.requires(
                (self.as_sys_env(),),
            ),
            !status.is_ok() && (status.is_pending_exception() || is_exception_pending.ensures(
                (self.as_sys_env(),),
                true,
            )) ==> get_and_clear_last_exception.requires((self.as_sys_env(),)),
        ensures
            status.is_ok() <==> result is Ok,
            exists|message: Option<Vec<u8>>, runtime: Runtime|
                #[trigger] Self::found(
                    self.as_sys_env(),
                    status,
                    last_error_info,
                    is_exception_pending,
                    get_and_clear_last_exception,
                    message,
                    runtime,
                ) && outcome_view(result) == translated(status, runtime),
    {
        let env = self.as_sys_env();
        let ghost mut message: Option<Vec<u8>> = None;
        let ghost mut pending: bool = false;
        let ghost mut exception: RawValue = RawValue { addr: 0 };
        let mut translation = Translation::begin(status);
        if let Some(Query::LastErrorInfo) = translation.query() {
            let raw = last_error_info(env);
            proof {
                message = raw;
            }
            translation = translation.last_error_info(copy_message(raw));
        }
        if let Some(Query::IsExceptionPending) = translation.query() {
            let answer = is_exception_pending(env);
            proof {
                pending = answer;
            }
            translation = translation.exception_pending(answer);
        }
        if let Some(Query::GetAndClearLastException) = translation.query() {
            let value = get_and_clear_last_exception(env);
            proof {
                exception = value;
            }
            translation = translation.last_exception(value);
        }
        let result = translation.outcome().unwrap();
        proof {
            let runtime = Runtime { message: bytes_view(message), pending, exception };
            assert(Self::found(
                env,
                status,
                last_error_info,
                is_exception_pending,
                get_and_clear_last_exception,
                message,
                runtime,
            ));
            assert(outcome_view(result) == translated(status, runtime));
        }
        result
    }
}

} // verus!
