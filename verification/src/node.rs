//! The expression tree that the parser builds.

use boa_interner::Sym;
use vstd::prelude::*;

verus! {

/// A call: what is called, and with which arguments.
#[derive(Debug, PartialEq, Eq)]
pub struct Call {
    pub function: Box<Node>,
    pub args: Vec<Node>,
}

/// The key of a property of `super`.
#[derive(Debug, PartialEq, Eq)]
pub enum GetSuperField {
    /// `super.name`
    Const(Sym),
    /// `super[key]`
    Expr(Box<Node>),
}

/// An expression.
#[derive(Debug, PartialEq, Eq)]
#[allow(inconsistent_fields)]
pub enum Node {
    /// A name.
    Identifier(Sym),
    /// `this`
    This,
    /// `true` or `false`
    Boolean(bool),
    /// `null`
    Null,
    /// `function(args)`
    Call(Call),
    /// `new function(args)`
    New(Call),
    /// `obj.field`
    GetConstField { obj: Box<Node>, field: Sym },
    /// `obj.#field`
    GetPrivateField { obj: Box<Node>, field: Sym },
    /// `obj[field]`
    GetField { obj: Box<Node>, field: Box<Node> },
    /// A property of `super`.
    GetSuperField(GetSuperField),
    /// A template literal behind a tag: the pieces as written, the pieces
    /// with their escapes read, and the substitutions between them.
    TaggedTemplate { tag: Box<Node>, raws: Vec<Sym>, cookeds: Vec<Option<Sym>>, exprs: Vec<Node> },
}

/// A call, as contracts speak of it.
pub struct CallView {
    pub function: Box<NodeView>,
    pub args: Seq<NodeView>,
}

/// The key of a property of `super`, as contracts speak of it.
pub enum GetSuperFieldView {
    Const(Sym),
    Expr(Box<NodeView>),
}

/// An expression, as contracts speak of it: the tree itself, with sequences
/// where the tree has vectors.
#[allow(inconsistent_fields)]
pub enum NodeView {
    Identifier(Sym),
    This,
    Boolean(bool),
    Null,
    Call(CallView),
    New(CallView),
    GetConstField { obj: Box<NodeView>, field: Sym },
    GetPrivateField { obj: Box<NodeView>, field: Sym },
    GetField { obj: Box<NodeView>, field: Box<NodeView> },
    GetSuperField(GetSuperFieldView),
    TaggedTemplate { tag: Box<NodeView>, raws: Seq<Sym>, cookeds: Seq<Option<Sym>>, exprs: Seq<NodeView> },
}

/// The trees of a sequence of nodes, one by one.
pub open spec fn nodes_view(nodes: Seq<Node>) -> Seq<NodeView>
    decreases nodes,
{
    Seq::new(
        nodes.len(),
        |i: int|
            if 0 <= i < nodes.len() {
                nodes[i].model()
            } else {
                NodeView::Null
            },
    )
}

impl Node {
    /// The tree of a node.
    pub open spec fn model(self) -> NodeView
        decreases self,
    {
        match self {
            Node::Identifier(name) => NodeView::Identifier(name),
            Node::This => NodeView::This,
            Node::Boolean(value) => NodeView::Boolean(value),
            Node::Null => NodeView::Null,
            Node::Call(call) => NodeView::Call(
                CallView { function: Box::new(call.function.model()), args: nodes_view(call.args@) },
            ),
            Node::New(call) => NodeView::New(
                CallView { function: Box::new(call.function.model()), args: nodes_view(call.args@) },
            ),
            Node::GetConstField { obj, field } => NodeView::GetConstField {
                obj: Box::new(obj.model()),
                field,
            },
            Node::GetPrivateField { obj, field } => NodeView::GetPrivateField {
                obj: Box::new(obj.model()),
                field,
            },
            Node::GetField { obj, field } => NodeView::GetField {
                obj: Box::new(obj.model()),
                field: Box::new(field.model()),
            },
            Node::GetSuperField(GetSuperField::Const(name)) => NodeView::GetSuperField(
                GetSuperFieldView::Const(name),
            ),
            Node::GetSuperField(GetSuperField::Expr(key)) => NodeView::GetSuperField(
                GetSuperFieldView::Expr(Box::new(key.model())),
            ),
            Node::TaggedTemplate { tag, raws, cookeds, exprs } => NodeView::TaggedTemplate {
                tag: Box::new(tag.model()),
                raws: raws@,
                cookeds: cookeds@,
                exprs: nodes_view(exprs@),
            },
        }
    }
}

impl View for Node {
    type V = NodeView;

    open spec fn view(&self) -> NodeView {
        self.model()
    }
}

} // verus!
