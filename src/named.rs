//! Provides [`NamedError`], a distinctly named error type that behaves as
//! [`StackError`] does.
//!
//! A crate that wants an error type of its own names it with a marker type:
//!
//! ```ignore
//! pub struct Lib;
//! pub type LibError = NamedError<Lib>;
//! ```
//!
//! `LibError` is then a type apart from `StackError` and from every other
//! `NamedError<_>`, and each of its operations delegates to the `StackError`
//! it wraps.

use crate::chain::{ChainView, Op};
use crate::codes::{io_code_for, ErrorCode};
use crate::error::{steps_to, ErrorStacks, StackError};
use core::marker::PhantomData;
use std::io::ErrorKind;
use vstd::prelude::*;
use vstd::std_specs::convert::FromSpecImpl;
use vstd::string::to_string_from_display_ensures;

verus! {

/// A [`StackError`] under a name of the caller's choosing, `M`.
pub struct NamedError<M>(pub StackError, pub PhantomData<M>);

impl<M> View for NamedError<M> {
    type V = ChainView<ErrorCode>;

    open spec fn view(&self) -> ChainView<ErrorCode> {
        self.0@
    }
}

impl<M> NamedError<M> {
    /// Every named error holds at least its own node.
    pub proof fn lemma_view_wf(&self)
        ensures
            self@.wf(),
    {
        self.0.lemma_view_wf();
    }

    /// Wraps an error under this name.
    pub fn wrap(inner: StackError) -> (r: Self)
        ensures
            r == NamedError::<M>(inner, PhantomData),
    {
        NamedError(inner, PhantomData)
    }

    /// The wrapped error.
    pub fn inner(&self) -> (r: &StackError)
        ensures
            r == self.0,
    {
        &self.0
    }

    /// Unwraps the wrapped error.
    pub fn into_inner(self) -> (r: StackError)
        ensures
            r == self.0,
    {
        self.0
    }

    /// Creates a new empty error.
    pub fn new() -> (r: Self)
        ensures
            r@ == ChainView::<ErrorCode>::root(Seq::empty()),
    {
        NamedError(StackError::new(), PhantomData)
    }

    /// Creates a new error from an error message.
    pub fn from_msg(message: &str) -> (r: Self)
        ensures
            r@ == ChainView::<ErrorCode>::root(message@),
    {
        NamedError(StackError::from_msg(message), PhantomData)
    }

    /// The text of the newest message alone, without its causes.
    pub fn to_string(&self) -> (r: String)
        ensures
            r@ == self@.top().text,
    {
        self.0.to_string()
    }

    /// The whole chain as text: one message per line, the oldest first.
    pub fn render(&self) -> (r: String)
        ensures
            r@ == self@.rendered(),
    {
        self.0.render()
    }

    /// The error that this one was stacked on, if any.
    pub fn source(&self) -> (r: Option<&StackError>)
        ensures
            r is Some <==> self@.nodes.len() > 1,
            r matches Some(s) ==> s@ == self@.cause(),
    {
        self.0.source()
    }
}

impl<M> ErrorStacks<ErrorCode> for NamedError<M> {
    open spec fn chain(&self) -> Option<ChainView<ErrorCode>> {
        Some(self@)
    }

    fn err_code(&self) -> (r: Option<&ErrorCode>) {
        self.0.err_code()
    }

    fn with_err_code(self, code: ErrorCode) -> (r: Self) {
        NamedError(self.0.with_err_code(code), PhantomData)
    }

    fn with_no_err_code(self) -> (r: Self) {
        NamedError(self.0.with_no_err_code(), PhantomData)
    }

    fn err_uri(&self) -> (r: Option<&str>) {
        self.0.err_uri()
    }

    fn with_err_uri(self, uri: String) -> (r: Self) {
        NamedError(self.0.with_err_uri(uri), PhantomData)
    }

    fn with_no_err_uri(self) -> (r: Self) {
        NamedError(self.0.with_no_err_uri(), PhantomData)
    }

    fn with_err_msg(self, message: &str) -> (r: Self) {
        NamedError(self.0.with_err_msg(message), PhantomData)
    }

    fn with_no_err_msg(self) -> (r: Self) {
        NamedError(self.0.with_no_err_msg(), PhantomData)
    }

    fn stack_err(self) -> (r: Self) {
        NamedError(self.0.stack_err(), PhantomData)
    }

    fn stack_err_msg(self, message: &str) -> (r: Self) {
        NamedError(self.0.stack_err_msg(message), PhantomData)
    }
}

impl<M> From<StackError> for NamedError<M> {
    fn from(inner: StackError) -> Self {
        NamedError::wrap(inner)
    }
}

impl<M> FromSpecImpl<StackError> for NamedError<M> {
    open spec fn obeys_from_spec() -> bool {
        true
    }

    open spec fn from_spec(v: StackError) -> Self {
        NamedError(v, PhantomData)
    }
}

impl<M> From<std::io::Error> for NamedError<M> {
    fn from(error: std::io::Error) -> (r: Self)
        ensures
            exists|k: ErrorKind, t: String|
                to_string_from_display_ensures::<std::io::Error>(&error, t) && r@
                    == ChainView::<ErrorCode>::root_with_code(t@, io_code_for(k)),
    {
        NamedError::wrap(StackError::from(error))
    }
}

impl<M> FromSpecImpl<std::io::Error> for NamedError<M> {
    open spec fn obeys_from_spec() -> bool {
        false
    }

    open spec fn from_spec(v: std::io::Error) -> Self {
        arbitrary()
    }
}

/// `errs` is a trace of `ops`: each value comes from the one before it by the
/// operation at that place, as the operations of [`ErrorStacks`] state it.
pub open spec fn is_trace<C, E: ErrorStacks<C>>(errs: Seq<E>, ops: Seq<Op<C>>) -> bool where
    C: Send + Sync + 'static + Eq + PartialEq + Clone,
 {
    &&& errs.len() == ops.len() + 1
    &&& forall|i: int|
        0 <= i < ops.len() ==> steps_to(#[trigger] errs[i].chain(), errs[i + 1].chain(), ops[i])
}

/// A named error and a plain error that start alike stay alike under any
/// sequence of operations: at every step the same chain (every node's text,
/// code and URI), so the same rendering, code, URI and cause.
pub proof fn lemma_named_error_equivalence<M>(
    plain: Seq<StackError>,
    named: Seq<NamedError<M>>,
    ops: Seq<Op<ErrorCode>>,
)
    requires
        is_trace(plain, ops),
        is_trace(named, ops),
        named[0]@ == plain[0]@,
    ensures
        forall|i: int| 0 <= i < named.len() ==> #[trigger] named[i]@ == plain[i]@,
        forall|i: int|
            0 <= i < named.len() ==> #[trigger] named[i]@.rendered() == plain[i]@.rendered(),
        forall|i: int| 0 <= i < named.len() ==> #[trigger] named[i]@.code() == plain[i]@.code(),
        forall|i: int| 0 <= i < named.len() ==> #[trigger] named[i]@.uri() == plain[i]@.uri(),
        forall|i: int| 0 <= i < named.len() ==> #[trigger] named[i]@.cause() == plain[i]@.cause(),
{
    assert forall|i: int| 0 <= i < named.len() implies #[trigger] named[i]@ == plain[i]@ by {
        lemma_traces_agree_up_to(plain, named, ops, i);
    }
}

proof fn lemma_traces_agree_up_to<M>(
    plain: Seq<StackError>,
    named: Seq<NamedError<M>>,
    ops: Seq<Op<ErrorCode>>,
    n: int,
)
    requires
        is_trace(plain, ops),
        is_trace(named, ops),
        named[0]@ == plain[0]@,
        0 <= n < named.len(),
    ensures
        named[n]@ == plain[n]@,
    decreases n,
{
    if n > 0 {
        lemma_traces_agree_up_to(plain, named, ops, n - 1);
        assert(steps_to(plain[n - 1].chain(), plain[n].chain(), ops[n - 1]));
        assert(steps_to(named[n - 1].chain(), named[n].chain(), ops[n - 1]));
    }
}

} // verus!
