//! The mathematical model of an error chain, and of the operations that
//! build one.

use vstd::prelude::*;

verus! {

/// One node of an error chain: its text, code and URI.
pub struct NodeView<C> {
    pub text: Seq<char>,
    pub code: Option<C>,
    pub uri: Option<Seq<char>>,
}

/// An error chain: its nodes, oldest (the root) first, the newest last.
pub struct ChainView<C> {
    pub nodes: Seq<NodeView<C>>,
}

/// One operation of the stacking contract, as it acts on a chain.
pub enum Op<C> {
    SetCode(C),
    ClearCode,
    SetUri(Seq<char>),
    ClearUri,
    SetMessage(Seq<char>),
    ClearMessage,
    /// A new node with this text on top; code and URI carry over.
    Stack(Seq<char>),
}

/// The lines joined with a newline between each two, and none before the first.
pub open spec fn join_lines(lines: Seq<Seq<char>>) -> Seq<char>
    decreases lines.len(),
{
    if lines.len() == 0 {
        Seq::empty()
    } else if lines.len() == 1 {
        lines[0]
    } else {
        join_lines(lines.drop_last()) + seq!['\n'] + lines.last()
    }
}

/// The texts of the nodes, in their order.
pub open spec fn texts<C>(nodes: Seq<NodeView<C>>) -> Seq<Seq<char>> {
    nodes.map_values(|n: NodeView<C>| n.text)
}

impl<C> ChainView<C> {
    /// Every chain has a node: the root.
    pub open spec fn wf(self) -> bool {
        self.nodes.len() >= 1
    }

    /// A single node with this text, the given code and no URI.
    pub open spec fn root_with_code(text: Seq<char>, code: Option<C>) -> Self {
        ChainView { nodes: seq![NodeView { text, code, uri: None }] }
    }

    /// A single node with this text, no code and no URI.
    pub open spec fn root(text: Seq<char>) -> Self {
        Self::root_with_code(text, None)
    }

    /// The newest node.
    pub open spec fn top(self) -> NodeView<C> {
        self.nodes.last()
    }

    /// The chain below the newest node: the cause.
    pub open spec fn cause(self) -> Self {
        ChainView { nodes: self.nodes.drop_last() }
    }

    /// The code of the newest node.
    pub open spec fn code(self) -> Option<C> {
        self.top().code
    }

    /// The URI of the newest node.
    pub open spec fn uri(self) -> Option<Seq<char>> {
        self.top().uri
    }

    /// The texts of all nodes, oldest first.
    pub open spec fn messages(self) -> Seq<Seq<char>> {
        texts(self.nodes)
    }

    /// The chain with its newest node replaced by `n`; the cause is kept.
    pub open spec fn with_top(self, n: NodeView<C>) -> Self {
        ChainView { nodes: self.nodes.drop_last().push(n) }
    }

    /// The chain after `op`.
    pub open spec fn step(self, op: Op<C>) -> Self {
        let t = self.top();
        match op {
            Op::SetCode(c) => self.with_top(NodeView { code: Some(c), ..t }),
            Op::ClearCode => self.with_top(NodeView { code: None, ..t }),
            Op::SetUri(u) => self.with_top(NodeView { uri: Some(u), ..t }),
            Op::ClearUri => self.with_top(NodeView { uri: None, ..t }),
            Op::SetMessage(m) => self.with_top(NodeView { text: m, ..t }),
            Op::ClearMessage => self.with_top(NodeView { text: Seq::empty(), ..t }),
            Op::Stack(m) => ChainView {
                nodes: self.nodes.push(NodeView { text: m, code: t.code, uri: t.uri }),
            },
        }
    }

    /// The whole chain as text: one node per line, oldest first.
    pub open spec fn rendered(self) -> Seq<char> {
        join_lines(self.messages())
    }
}

/// Stacking keeps the whole chain below the new node, and the rendering is
/// the old rendering, a newline, and the new text.
pub proof fn lemma_stacked_chain<C>(v: ChainView<C>, m: Seq<char>)
    requires
        v.wf(),
    ensures
        v.step(Op::Stack(m)).wf(),
        v.step(Op::Stack(m)).cause() == v,
        v.step(Op::Stack(m)).top().text == m,
        v.step(Op::Stack(m)).messages() == v.messages().push(m),
        v.step(Op::Stack(m)).rendered() == v.rendered() + seq!['\n'] + m,
{
    let w = v.step(Op::Stack(m));
    assert(w.nodes.drop_last() =~= v.nodes);
    assert(w.messages() =~= v.messages().push(m));
    assert(w.messages().drop_last() =~= v.messages());
}

/// A root renders as its own text.
pub proof fn lemma_root_rendering<C>(v: ChainView<C>)
    requires
        v.nodes.len() == 1,
    ensures
        v.messages() == seq![v.top().text],
        v.rendered() == v.top().text,
{
    assert(v.messages() =~= seq![v.top().text]);
}

/// The chain after stacking each of `msgs` on `v`, in order.
pub open spec fn stack_all<C>(v: ChainView<C>, msgs: Seq<Seq<char>>) -> ChainView<C>
    decreases msgs.len(),
{
    if msgs.len() == 0 {
        v
    } else {
        stack_all(v, msgs.drop_last()).step(Op::Stack(msgs.last()))
    }
}

/// How many newline characters `s` holds.
pub open spec fn newline_count(s: Seq<char>) -> nat
    decreases s.len(),
{
    if s.len() == 0 {
        0
    } else {
        newline_count(s.drop_last()) + if s.last() == '\n' {
            1nat
        } else {
            0nat
        }
    }
}

/// How many lines the text `s` shows.
pub open spec fn line_count(s: Seq<char>) -> nat {
    newline_count(s) + 1
}

proof fn lemma_newline_count_concat(a: Seq<char>, b: Seq<char>)
    ensures
        newline_count(a + b) == newline_count(a) + newline_count(b),
    decreases b.len(),
{
    if b.len() == 0 {
        assert(a + b =~= a);
    } else {
        lemma_newline_count_concat(a, b.drop_last());
        assert((a + b).drop_last() =~= a + b.drop_last());
        assert((a + b).last() == b.last());
    }
}

proof fn lemma_join_lines_newlines(lines: Seq<Seq<char>>)
    requires
        lines.len() >= 1,
        forall|i: int| 0 <= i < lines.len() ==> newline_count(#[trigger] lines[i]) == 0,
    ensures
        newline_count(join_lines(lines)) == lines.len() - 1,
    decreases lines.len(),
{
    if lines.len() > 1 {
        let init = lines.drop_last();
        assert forall|i: int| 0 <= i < init.len() implies newline_count(#[trigger] init[i]) == 0 by {
            assert(init[i] == lines[i]);
        }
        lemma_join_lines_newlines(init);
        lemma_newline_count_concat(join_lines(init) + seq!['\n'], lines.last());
        lemma_newline_count_concat(join_lines(init), seq!['\n']);
        assert(seq!['\n'].drop_last() =~= Seq::<char>::empty());
        assert(newline_count(Seq::<char>::empty()) == 0);
        assert(seq!['\n'].last() == '\n');
        assert(newline_count(seq!['\n']) == 1);
        assert(newline_count(lines.last()) == 0);
        assert(join_lines(lines) == join_lines(init) + seq!['\n'] + lines.last());
    }
}

proof fn lemma_stack_all_shape<C>(v: ChainView<C>, msgs: Seq<Seq<char>>)
    requires
        v.wf(),
    ensures
        stack_all(v, msgs).wf(),
        stack_all(v, msgs).messages() == v.messages() + msgs,
        stack_all(v, msgs).code() == v.code(),
        stack_all(v, msgs).uri() == v.uri(),
    decreases msgs.len(),
{
    if msgs.len() == 0 {
        assert(v.messages() + msgs =~= v.messages());
    } else {
        lemma_stack_all_shape(v, msgs.drop_last());
        lemma_stacked_chain(stack_all(v, msgs.drop_last()), msgs.last());
        assert((v.messages() + msgs.drop_last()).push(msgs.last()) =~= v.messages() + msgs);
    }
}

/// Stacking `n` messages on a root gives a chain of `n + 1` messages, the
/// root's first and the stacked ones after it in the order they came; where
/// no message holds a newline, its rendering shows exactly `n + 1` lines.
pub proof fn lemma_stacking_count_and_order<C>(v: ChainView<C>, msgs: Seq<Seq<char>>)
    requires
        v.nodes.len() == 1,
    ensures
        stack_all(v, msgs).messages() == seq![v.top().text] + msgs,
        stack_all(v, msgs).rendered() == join_lines(seq![v.top().text] + msgs),
        newline_count(v.top().text) == 0 && (forall|i: int|
            0 <= i < msgs.len() ==> newline_count(#[trigger] msgs[i]) == 0) ==> line_count(
            stack_all(v, msgs).rendered(),
        ) == msgs.len() + 1,
{
    lemma_stack_all_shape(v, msgs);
    lemma_root_rendering(v);
    let all = seq![v.top().text] + msgs;
    if newline_count(v.top().text) == 0 && (forall|i: int|
        0 <= i < msgs.len() ==> newline_count(#[trigger] msgs[i]) == 0) {
        assert forall|i: int| 0 <= i < all.len() implies newline_count(#[trigger] all[i]) == 0 by {
            if i > 0 {
                assert(all[i] == msgs[i - 1]);
            }
        }
        lemma_join_lines_newlines(all);
    }
}

/// Stacking any number of messages leaves the code and URI as they were.
pub proof fn lemma_stacking_keeps_metadata<C>(v: ChainView<C>, msgs: Seq<Seq<char>>)
    requires
        v.wf(),
    ensures
        stack_all(v, msgs).code() == v.code(),
        stack_all(v, msgs).uri() == v.uri(),
{
    lemma_stack_all_shape(v, msgs);
}

/// Once the code is cleared, stacking any number of messages keeps it clear.
pub proof fn lemma_cleared_code_stays_clear<C>(v: ChainView<C>, msgs: Seq<Seq<char>>)
    requires
        v.wf(),
    ensures
        stack_all(v.step(Op::ClearCode), msgs).code() is None,
{
    assert(v.step(Op::ClearCode).nodes.len() == v.nodes.len());
    lemma_stack_all_shape(v.step(Op::ClearCode), msgs);
}

} // verus!
