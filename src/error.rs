//! Provides the [`StackError`] struct which implements the [`ErrorStacks`]
//! trait.

use crate::chain::{ChainView, NodeView, Op};
use crate::codes::ErrorCode;
use vstd::prelude::*;
use vstd::string::StringExecFns;

verus! {

/// The code of a chain, or none where there is no chain.
pub open spec fn code_of<C>(chain: Option<ChainView<C>>) -> Option<C> {
    match chain {
        Some(v) => v.code(),
        None => None,
    }
}

/// The URI of a chain, or none where there is no chain.
pub open spec fn uri_of<C>(chain: Option<ChainView<C>>) -> Option<Seq<char>> {
    match chain {
        Some(v) => v.uri(),
        None => None,
    }
}

/// `after` is the chain `before` with `op` applied; where there is no chain
/// before, the operation owes nothing of the chain after.
pub open spec fn steps_to<C>(before: Option<ChainView<C>>, after: Option<ChainView<C>>, op: Op<C>) -> bool {
    match before {
        Some(v) => after == Some(v.step(op)),
        None => true,
    }
}

/// Trait for stacking errors: errors that stack and provide an optional error
/// code and resource URI for runtime error handling.
pub trait ErrorStacks<C>: Sized where C: Send + Sync + 'static + Eq + PartialEq + Clone {
    /// The error chain that this value holds, if it holds one.
    spec fn chain(&self) -> Option<ChainView<C>>;

    /// Get the error code if one is set.
    fn err_code(&self) -> (r: Option<&C>)
        ensures
            r is Some <==> code_of(self.chain()) is Some,
            r matches Some(c) ==> code_of(self.chain()) == Some(*c),
    ;

    /// Set the error code.
    fn with_err_code(self, code: C) -> (r: Self)
        ensures
            steps_to(self.chain(), r.chain(), Op::SetCode(code)),
            self.chain() is None ==> r == self,
    ;

    /// Remove the error code.
    fn with_no_err_code(self) -> (r: Self)
        ensures
            steps_to(self.chain(), r.chain(), Op::ClearCode),
            self.chain() is None ==> r == self,
    ;

    /// Get the error URI if one is set.
    fn err_uri(&self) -> (r: Option<&str>)
        ensures
            r is Some <==> uri_of(self.chain()) is Some,
            r matches Some(u) ==> uri_of(self.chain()) == Some(u@),
    ;

    /// Set the error URI.
    fn with_err_uri(self, uri: String) -> (r: Self)
        ensures
            steps_to(self.chain(), r.chain(), Op::SetUri(uri@)),
            self.chain() is None ==> r == self,
    ;

    /// Remove the error URI.
    fn with_no_err_uri(self) -> (r: Self)
        ensures
            steps_to(self.chain(), r.chain(), Op::ClearUri),
            self.chain() is None ==> r == self,
    ;

    /// Set the error message.
    fn with_err_msg(self, message: &str) -> (r: Self)
        ensures
            steps_to(self.chain(), r.chain(), Op::SetMessage(message@)),
            self.chain() is None ==> r == self,
    ;

    /// Remove the error message.
    fn with_no_err_msg(self) -> (r: Self)
        ensures
            steps_to(self.chain(), r.chain(), Op::ClearMessage),
            self.chain() is None ==> r == self,
    ;

    /// Stack a new error on the current one.
    fn stack_err(self) -> (r: Self)
        ensures
            steps_to(self.chain(), r.chain(), Op::Stack(Seq::empty())),
            self.chain() is None ==> r == self,
    ;

    /// Stack a new error on the current one with a given message.
    fn stack_err_msg(self, message: &str) -> (r: Self)
        ensures
            steps_to(self.chain(), r.chain(), Op::Stack(message@)),
            self.chain() is None ==> r == self,
    ;
}

/// Implementation for [`Result`] allows adding error codes on results.
impl<T, E, C> ErrorStacks<C> for Result<T, E> where
    C: Send + Sync + 'static + Eq + PartialEq + Clone,
    E: ErrorStacks<C>,
 {
    open spec fn chain(&self) -> Option<ChainView<C>> {
        match self {
            Ok(_) => None,
            Err(e) => e.chain(),
        }
    }

    fn err_code(&self) -> (r: Option<&C>) {
        match self {
            Ok(_) => None,
            Err(e) => e.err_code(),
        }
    }

    fn with_err_code(self, code: C) -> (r: Self) {
        match self {
            Ok(v) => Ok(v),
            Err(e) => Err(e.with_err_code(code)),
        }
    }

    fn with_no_err_code(self) -> (r: Self) {
        match self {
            Ok(v) => Ok(v),
            Err(e) => Err(e.with_no_err_code()),
        }
    }

    fn err_uri(&self) -> (r: Option<&str>) {
        match self {
            Ok(_) => None,
            Err(e) => e.err_uri(),
        }
    }

    fn with_err_uri(self, uri: String) -> (r: Self) {
        match self {
            Ok(v) => Ok(v),
            Err(e) => Err(e.with_err_uri(uri)),
        }
    }

    fn with_no_err_uri(self) -> (r: Self) {
        match self {
            Ok(v) => Ok(v),
            Err(e) => Err(e.with_no_err_uri()),
        }
    }

    fn with_err_msg(self, message: &str) -> (r: Self) {
        match self {
            Ok(v) => Ok(v),
            Err(e) => Err(e.with_err_msg(message)),
        }
    }

    fn with_no_err_msg(self) -> (r: Self) {
        match self {
            Ok(v) => Ok(v),
            Err(e) => Err(e.with_no_err_msg()),
        }
    }

    fn stack_err(self) -> (r: Self) {
        match self {
            Ok(v) => Ok(v),
            Err(e) => Err(e.stack_err()),
        }
    }

    fn stack_err_msg(self, message: &str) -> (r: Self) {
        match self {
            Ok(v) => Ok(v),
            Err(e) => Err(e.stack_err_msg(message)),
        }
    }
}

/// A result whose failure is a [`StackError`].
pub type StackResult<T> = Result<T, StackError>;

/// A simple error type that implements the [`ErrorStacks`] trait.
pub struct StackError {
    message: Option<String>,
    source: Option<Box<StackError>>,
    code: Option<ErrorCode>,
    uri: Option<String>,
}

impl StackError {
    /// The text of this node alone; a node without a message shows nothing.
    closed spec fn text(&self) -> Seq<char> {
        match self.message {
            Some(m) => m@,
            None => Seq::empty(),
        }
    }

    /// This node alone: its text, code and URI.
    closed spec fn node(&self) -> NodeView<ErrorCode> {
        NodeView {
            text: self.text(),
            code: self.code,
            uri: match self.uri {
                Some(u) => Some(u@),
                None => None,
            },
        }
    }

    /// The nodes of the chain that ends at this node, oldest first.
    closed spec fn nodes(&self) -> Seq<NodeView<ErrorCode>>
        decreases self,
    {
        match self.source {
            Some(s) => s.nodes().push(self.node()),
            None => seq![self.node()],
        }
    }

    proof fn lemma_nodes_split(&self)
        ensures
            self.nodes().len() >= 1,
            self.nodes().last() == self.node(),
            self.nodes().drop_last() == match self.source {
                Some(s) => s.nodes(),
                None => Seq::<NodeView<ErrorCode>>::empty(),
            },
        decreases self,
    {
        match self.source {
            Some(s) => {
                s.lemma_nodes_split();
                assert(self.nodes().drop_last() =~= s.nodes());
            },
            None => {
                assert(self.nodes().drop_last() =~= Seq::<NodeView<ErrorCode>>::empty());
            },
        }
    }

    /// Every error holds at least its own node.
    pub proof fn lemma_view_wf(&self)
        ensures
            self@.wf(),
    {
        self.lemma_nodes_split();
    }

    /// A node whose cause is `self`'s cause has the chain of `self` with its
    /// newest node replaced.
    proof fn lemma_same_cause(&self, r: &StackError)
        requires
            r.source == self.source,
        ensures
            r@ == self@.with_top(r.node()),
            self@.top() == self.node(),
    {
        self.lemma_nodes_split();
        r.lemma_nodes_split();
        assert(r.nodes() =~= self.nodes().drop_last().push(r.node()));
    }

    /// Creates a new empty StackError.
    pub fn new() -> (r: Self)
        ensures
            r@ == ChainView::<ErrorCode>::root(Seq::empty()),
    {
        StackError { message: None, source: None, code: None, uri: None }
    }

    /// Creates a new StackError from an error message.
    pub fn from_msg(message: &str) -> (r: Self)
        ensures
            r@ == ChainView::<ErrorCode>::root(message@),
    {
        StackError { message: Some(String::from_str(message)), source: None, code: None, uri: None }
    }

    fn copy_uri(&self) -> (r: Option<String>)
        ensures
            r == self.uri,
    {
        match &self.uri {
            Some(u) => Some(u.clone()),
            None => None,
        }
    }

    fn append_text(&self, out: &mut String)
        ensures
            final(out)@ == old(out)@ + self.text(),
    {
        match &self.message {
            Some(m) => out.append(m.as_str()),
            None => {
                assert(old(out)@ + self.text() =~= old(out)@);
            },
        }
    }

    /// The text of this node alone, without its causes.
    pub fn to_string(&self) -> (r: String)
        ensures
            r@ == self@.top().text,
    {
        proof {
            self.lemma_nodes_split();
        }
        let mut out = String::new();
        self.append_text(&mut out);
        assert(out@ =~= self.text());
        out
    }

    fn render_into(&self, out: &mut String)
        ensures
            final(out)@ == old(out)@ + self@.rendered(),
        decreases self,
    {
        proof {
            self.lemma_nodes_split();
        }
        match &self.source {
            Some(s) => {
                proof {
                    s.lemma_nodes_split();
                    reveal_strlit("\n");
                    assert(self.nodes() =~= s.nodes().push(self.node()));
                    assert(self@.messages() =~= s@.messages().push(self.text()));
                    assert(self@.messages().drop_last() =~= s@.messages());
                }
                s.render_into(out);
                out.append("\n");
                self.append_text(out);
                assert(final(out)@ =~= old(out)@ + self@.rendered());
            },
            None => {
                self.append_text(out);
                assert(self@.messages() =~= seq![self.text()]);
            },
        }
    }

    /// The whole chain as text: one message per line, the oldest first.
    pub fn render(&self) -> (r: String)
        ensures
            r@ == self@.rendered(),
    {
        let mut out = String::new();
        self.render_into(&mut out);
        assert(out@ =~= self@.rendered());
        out
    }

    /// The error that this one was stacked on, if any.
    pub fn source(&self) -> (r: Option<&StackError>)
        ensures
            r is Some <==> self@.nodes.len() > 1,
            r matches Some(s) ==> s@ == self@.cause(),
    {
        proof {
            self.lemma_nodes_split();
        }
        match &self.source {
            Some(s) => {
                proof {
                    s.lemma_nodes_split();
                }
                Some(&**s)
            },
            None => None,
        }
    }
}

impl Default for StackError {
    /// An empty error: one node, no message, no code, no URI.
    fn default() -> (r: Self)
        ensures
            r@ == ChainView::<ErrorCode>::root(Seq::empty()),
    {
        StackError::new()
    }
}

impl View for StackError {
    type V = ChainView<ErrorCode>;

    closed spec fn view(&self) -> ChainView<ErrorCode> {
        ChainView { nodes: self.nodes() }
    }
}

impl ErrorStacks<ErrorCode> for StackError {
    open spec fn chain(&self) -> Option<ChainView<ErrorCode>> {
        Some(self@)
    }

    fn err_code(&self) -> (r: Option<&ErrorCode>) {
        self.code.as_ref()
    }

    fn with_err_code(self, code: ErrorCode) -> (r: Self) {
        let r = StackError { code: Some(code), ..self };
        proof {
            self.lemma_same_cause(&r);
        }
        assert(r@ =~= self@.step(Op::SetCode(code)));
        r
    }

    fn with_no_err_code(self) -> (r: Self) {
        let r = StackError { code: None, ..self };
        proof {
            self.lemma_same_cause(&r);
        }
        assert(r@ =~= self@.step(Op::ClearCode));
        r
    }

    fn err_uri(&self) -> (r: Option<&str>) {
        match &self.uri {
            Some(u) => Some(u.as_str()),
            None => None,
        }
    }

    fn with_err_uri(self, uri: String) -> (r: Self) {
        let ghost u = uri@;
        let r = StackError { uri: Some(uri), ..self };
        proof {
            self.lemma_same_cause(&r);
        }
        assert(r@ =~= self@.step(Op::SetUri(u)));
        r
    }

    fn with_no_err_uri(self) -> (r: Self) {
        let r = StackError { uri: None, ..self };
        proof {
            self.lemma_same_cause(&r);
        }
        assert(r@ =~= self@.step(Op::ClearUri));
        r
    }

    fn with_err_msg(self, message: &str) -> (r: Self) {
        let r = StackError { message: Some(String::from_str(message)), ..self };
        proof {
            self.lemma_same_cause(&r);
        }
        assert(r@ =~= self@.step(Op::SetMessage(message@)));
        r
    }

    fn with_no_err_msg(self) -> (r: Self) {
        let r = StackError { message: None, ..self };
        proof {
            self.lemma_same_cause(&r);
        }
        assert(r@ =~= self@.step(Op::ClearMessage));
        r
    }

    fn stack_err(self) -> (r: Self) {
        let code = self.code;
        let uri = self.copy_uri();
        proof {
            self.lemma_nodes_split();
        }
        let r = StackError { message: None, source: Some(Box::new(self)), code, uri };
        assert(r@ =~= self@.step(Op::Stack(Seq::empty())));
        r
    }

    fn stack_err_msg(self, message: &str) -> (r: Self) {
        let code = self.code;
        let uri = self.copy_uri();
        proof {
            self.lemma_nodes_split();
        }
        let r = StackError {
            message: Some(String::from_str(message)),
            source: Some(Box::new(self)),
            code,
            uri,
        };
        assert(r@ =~= self@.step(Op::Stack(message@)));
        r
    }
}

} // verus!
