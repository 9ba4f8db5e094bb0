use vstd::prelude::*;

use crate::spec_ast::ExprV;
use crate::spec_ast::CondCaseV;

verus! {

/// Binary arithmetic operators over numbers.
#[derive(Debug, Clone, Copy, PartialEq, Eq, Structural)]
pub enum BinaryNumOp {
    Add,
    Sub,
    Mul,
    Div,
    Mod,
}

/// Binary boolean connectives; both short-circuit.
#[derive(Debug, Clone, Copy, PartialEq, Eq, Structural)]
pub enum BinaryBoolOp {
    And,
    Or,
}

/// Unary boolean operators.
#[derive(Debug, Clone, Copy, PartialEq, Eq, Structural)]
pub enum UnaryBoolOp {
    Not,
}

/// Numeric comparison operators.
#[derive(Debug, Clone, Copy, PartialEq, Eq, Structural)]
pub enum CmpBoolOp {
    Lt,
    Eq,
    Gt,
}

/// A variable reference by name.
#[derive(Debug, PartialEq, Eq)]
pub struct VariableExpr {
    pub name: String,
}

/// One parsed expression: a closed set of tagged variants, one per
/// syntactic form. Each composite variant owns its sub-expressions
/// exclusively, so a program is a strict tree.
#[derive(Debug, PartialEq, Eq)]
pub enum Expr {
    BoolExpr(BoolExpr),
    NumExpr(NumExpr),
    CondExpr(CondExpr),
    FunctionExpr(FunctionExpr),
    VariableExpr(VariableExpr),
    FunctionCallExpr(FunctionCallExpr),
    ListExpr(ListExpr),
    EmptyExpr(ListExpr),
    CarExpr(CarExpr),
}

/// The expression forms that can produce a boolean value.
#[derive(Debug, PartialEq, Eq)]
pub enum BoolExpr {
    LiteralBoolExpr(bool),
    VariableExpr(VariableExpr),
    BinaryBoolExpr(Box<BinaryBoolExpr>),
    UnaryBoolExpr(Box<UnaryBoolExpr>),
    CmpExpr(Box<CmpBoolExpr>),
    FunctionCallExpr(FunctionCallExpr),
    EmptyHuhExpr(EmptyHuhExpr),
    ListHuhExpr(ListHuhExpr),
    CarExpr(CarExpr),
}

/// The expression forms that can produce a numeric value.
#[derive(Debug, PartialEq, Eq)]
pub enum NumExpr {
    LiteralNumExpr(i32),
    VariableExpr(VariableExpr),
    BinaryNumExpr(Box<BinaryNumExpr>),
    FunctionCallExpr(FunctionCallExpr),
    CarExpr(CarExpr),
}

/// The expression forms that can produce a list value.
#[derive(Debug, PartialEq, Eq)]
pub enum ListExpr {
    ListLiteralExpr(ListLiteralExpr),
    CdrExpr(CdrExpr),
    VariableExpr(VariableExpr),
    CarExpr(CarExpr),
    FunctionCallExpr(FunctionCallExpr),
}

/// A list written out in the source: empty, or a head element followed by
/// the rest of the literal. `(list a b c)` desugars into nested nodes at
/// parse time.
#[derive(Debug, PartialEq, Eq)]
pub enum ListLiteralExpr {
    Empty,
    Node(Node),
}

/// One cons node of a list literal.
#[derive(Debug, PartialEq, Eq)]
pub struct Node {
    pub data: Box<Expr>,
    pub next: Box<ListExpr>,
}

/// `(& l r)` or `(| l r)`.
#[derive(Debug, PartialEq, Eq)]
pub struct BinaryBoolExpr {
    pub op: BinaryBoolOp,
    pub left: BoolExpr,
    pub right: BoolExpr,
}

/// `(! v)`.
#[derive(Debug, PartialEq, Eq)]
pub struct UnaryBoolExpr {
    pub op: UnaryBoolOp,
    pub value: BoolExpr,
}

/// `(< l r)`, `(= l r)` or `(> l r)` over numeric operands.
#[derive(Debug, PartialEq, Eq)]
pub struct CmpBoolExpr {
    pub op: CmpBoolOp,
    pub left: NumExpr,
    pub right: NumExpr,
}

/// `(op l r)` for an arithmetic operator.
#[derive(Debug, PartialEq, Eq)]
pub struct BinaryNumExpr {
    pub op: BinaryNumOp,
    pub left: NumExpr,
    pub right: NumExpr,
}

/// `(empty? l)` over a syntactically list-shaped argument.
#[derive(Debug, PartialEq, Eq)]
pub struct EmptyHuhExpr {
    pub list: Box<ListExpr>,
}

/// `(list? e)` over an arbitrary sub-expression.
#[derive(Debug, PartialEq, Eq)]
pub struct ListHuhExpr {
    pub expr: Box<Expr>,
}

/// `(car l)`.
#[derive(Debug, PartialEq, Eq)]
pub struct CarExpr {
    pub list: Box<ListExpr>,
}

/// `(cdr l)`.
#[derive(Debug, PartialEq, Eq)]
pub struct CdrExpr {
    pub list: Box<ListExpr>,
}

/// `(cond (guard result) ...)`: the cases in source order. Order is a
/// load-bearing contract: the first true guard wins.
#[derive(Debug, PartialEq, Eq)]
pub struct CondExpr {
    pub cases: Vec<CondCase>,
}

/// One guarded case of a `cond`.
#[derive(Debug, PartialEq, Eq)]
pub struct CondCase {
    pub condition: BoolExpr,
    pub result: Expr,
}

/// `(define (name param ...) body)`: a top-level function definition.
#[derive(Debug, PartialEq, Eq)]
pub struct FunctionExpr {
    pub name: String,
    pub parameters: Vec<String>,
    pub body: Box<Expr>,
}

/// `(name arg ...)`: a call of a registered function.
#[derive(Debug, PartialEq, Eq)]
pub struct FunctionCallExpr {
    pub name: String,
    pub arguments: Vec<Expr>,
}

impl View for VariableExpr {
    type V = ExprV;

    open spec fn view(&self) -> ExprV {
        ExprV::Var { name: self.name@ }
    }
}

impl View for Expr {
    type V = ExprV;

    open spec fn view(&self) -> ExprV
        decreases self, 1nat,
    {
        match self {
            Expr::BoolExpr(x) => x@,
            Expr::NumExpr(x) => x@,
            Expr::CondExpr(x) => x@,
            Expr::FunctionExpr(x) => x@,
            Expr::VariableExpr(x) => x@,
            Expr::FunctionCallExpr(x) => x@,
            Expr::ListExpr(x) => x@,
            Expr::EmptyExpr(x) => x@,
            Expr::CarExpr(x) => x@,
        }
    }
}

impl View for BoolExpr {
    type V = ExprV;

    open spec fn view(&self) -> ExprV
        decreases self, 1nat,
    {
        ExprV::BoolPos { expr: Box::new(self.raw_view()) }
    }
}

impl BoolExpr {
    /// The view of the expression itself, before the boolean-position
    /// check that surrounds it.
    pub open spec fn raw_view(&self) -> ExprV
        decreases self, 0nat,
    {
        match self {
            BoolExpr::LiteralBoolExpr(b) => ExprV::BoolLit { value: *b },
            BoolExpr::VariableExpr(x) => x@,
            BoolExpr::BinaryBoolExpr(x) => ExprV::BinaryBool {
                op: x.op,
                left: Box::new(x.left@),
                right: Box::new(x.right@),
            },
            BoolExpr::UnaryBoolExpr(x) => ExprV::Not { value: Box::new(x.value@) },
            BoolExpr::CmpExpr(x) => ExprV::Cmp {
                op: x.op,
                left: Box::new(x.left@),
                right: Box::new(x.right@),
            },
            BoolExpr::FunctionCallExpr(x) => x@,
            BoolExpr::EmptyHuhExpr(x) => x@,
            BoolExpr::ListHuhExpr(x) => x@,
            BoolExpr::CarExpr(x) => x@,
        }
    }
}

impl View for NumExpr {
    type V = ExprV;

    open spec fn view(&self) -> ExprV
        decreases self, 1nat,
    {
        ExprV::NumPos { expr: Box::new(self.raw_view()) }
    }
}

impl NumExpr {
    /// The view of the expression itself, before the numeric-position
    /// check that surrounds it.
    pub open spec fn raw_view(&self) -> ExprV
        decreases self, 0nat,
    {
        match self {
            NumExpr::LiteralNumExpr(n) => ExprV::NumLit { value: *n },
            NumExpr::VariableExpr(x) => x@,
            NumExpr::BinaryNumExpr(x) => ExprV::BinaryNum {
                op: x.op,
                left: Box::new(x.left@),
                right: Box::new(x.right@),
            },
            NumExpr::FunctionCallExpr(x) => x@,
            NumExpr::CarExpr(x) => x@,
        }
    }
}

impl View for ListExpr {
    type V = ExprV;

    open spec fn view(&self) -> ExprV
        decreases self, 1nat,
    {
        ExprV::ListPos { expr: Box::new(self.raw_view()) }
    }
}

impl ListExpr {
    /// The view of the expression itself, before the list-position check
    /// that surrounds it.
    pub open spec fn raw_view(&self) -> ExprV
        decreases self, 0nat,
    {
        match self {
            ListExpr::ListLiteralExpr(x) => x@,
            ListExpr::CdrExpr(x) => x@,
            ListExpr::VariableExpr(x) => x@,
            ListExpr::CarExpr(x) => x@,
            ListExpr::FunctionCallExpr(x) => x@,
        }
    }
}

impl View for ListLiteralExpr {
    type V = ExprV;

    open spec fn view(&self) -> ExprV
        decreases self, 1nat,
    {
        match self {
            ListLiteralExpr::Empty => ExprV::ListEmpty,
            ListLiteralExpr::Node(n) => ExprV::ListNode {
                data: Box::new((*n.data)@),
                next: Box::new((*n.next)@),
            },
        }
    }
}

impl View for EmptyHuhExpr {
    type V = ExprV;

    open spec fn view(&self) -> ExprV
        decreases self, 1nat,
    {
        ExprV::EmptyHuh { list: Box::new((*self.list)@) }
    }
}

impl View for ListHuhExpr {
    type V = ExprV;

    open spec fn view(&self) -> ExprV
        decreases self, 1nat,
    {
        ExprV::ListHuh { expr: Box::new((*self.expr)@) }
    }
}

impl View for CarExpr {
    type V = ExprV;

    open spec fn view(&self) -> ExprV
        decreases self, 1nat,
    {
        ExprV::Car { list: Box::new((*self.list)@) }
    }
}

impl View for CdrExpr {
    type V = ExprV;

    open spec fn view(&self) -> ExprV
        decreases self, 1nat,
    {
        ExprV::Cdr { list: Box::new((*self.list)@) }
    }
}

impl View for CondCase {
    type V = CondCaseV;

    open spec fn view(&self) -> CondCaseV
        decreases self, 1nat,
    {
        CondCaseV { condition: self.condition@, result: self.result@ }
    }
}

impl View for CondExpr {
    type V = ExprV;

    open spec fn view(&self) -> ExprV
        decreases self, 1nat,
    {
        ExprV::Cond { cases: view_cases(self.cases@) }
    }
}

impl View for FunctionExpr {
    type V = ExprV;

    open spec fn view(&self) -> ExprV
        decreases self, 1nat,
    {
        ExprV::Define {
            name: self.name@,
            parameters: view_names(self.parameters@),
            body: Box::new((*self.body)@),
        }
    }
}

impl View for FunctionCallExpr {
    type V = ExprV;

    open spec fn view(&self) -> ExprV
        decreases self, 1nat,
    {
        ExprV::Call {
            name: self.name@,
            arguments: view_exprs(self.arguments@),
        }
    }
}


/// The views of a sequence of cond cases, in order.
pub open spec fn view_cases(cases: Seq<CondCase>) -> Seq<CondCaseV>
    decreases cases,
{
    if cases.len() == 0 {
        Seq::empty()
    } else {
        view_cases(cases.drop_last()).push(cases.last()@)
    }
}

/// The views of a sequence of expressions, in order.
pub open spec fn view_exprs(es: Seq<Expr>) -> Seq<ExprV>
    decreases es,
{
    if es.len() == 0 {
        Seq::empty()
    } else {
        view_exprs(es.drop_last()).push(es.last()@)
    }
}

/// The views of a sequence of names, in order.
pub open spec fn view_names(ns: Seq<String>) -> Seq<Seq<char>> {
    Seq::new(ns.len(), |i: int| ns[i]@)
}

/// Viewing a case sequence keeps its length.
pub broadcast proof fn lemma_view_cases_len(cases: Seq<CondCase>)
    ensures
        (#[trigger] view_cases(cases)).len() == cases.len(),
{
    lemma_view_cases(cases);
}

/// Viewing a case sequence views each case.
pub broadcast proof fn lemma_view_cases_index(cases: Seq<CondCase>, i: int)
    requires
        0 <= i < cases.len(),
    ensures
        #[trigger] view_cases(cases)[i] == cases[i]@,
{
    lemma_view_cases(cases);
}

/// Viewing an expression sequence keeps its length.
pub broadcast proof fn lemma_view_exprs_len(es: Seq<Expr>)
    ensures
        (#[trigger] view_exprs(es)).len() == es.len(),
{
    lemma_view_exprs(es);
}

/// Viewing an expression sequence views each expression.
pub broadcast proof fn lemma_view_exprs_index(es: Seq<Expr>, i: int)
    requires
        0 <= i < es.len(),
    ensures
        #[trigger] view_exprs(es)[i] == es[i]@,
{
    lemma_view_exprs(es);
}

/// A parsed expression views to a definition exactly when it is one, and
/// then the definition's parts view across.
pub broadcast proof fn lemma_expr_view_define(e: Expr)
    ensures
        ((#[trigger] e@) is Define <==> e is FunctionExpr),
        (e matches Expr::FunctionExpr(f) ==> e@ == ExprV::Define {
            name: f.name@,
            parameters: view_names(f.parameters@),
            body: Box::new((*f.body)@),
        }),
{
    match e {
        Expr::BoolExpr(x) => {
            assert(e@ == x@);
            assert(x@ is BoolPos);
        },
        Expr::NumExpr(x) => {
            assert(e@ == x@);
            assert(x@ is NumPos);
        },
        Expr::CondExpr(x) => {
            assert(e@ == x@);
            assert(x@ is Cond);
        },
        Expr::FunctionExpr(x) => {
            assert(e@ == x@);
            assert(x@ is Define);
        },
        Expr::VariableExpr(x) => {
            assert(e@ == x@);
            assert(x@ is Var);
        },
        Expr::FunctionCallExpr(x) => {
            assert(e@ == x@);
            assert(x@ is Call);
        },
        Expr::ListExpr(x) => {
            assert(e@ == x@);
            assert(x@ is ListPos);
        },
        Expr::EmptyExpr(x) => {
            assert(e@ == x@);
            assert(x@ is ListPos);
        },
        Expr::CarExpr(x) => {
            assert(e@ == x@);
            assert(x@ is Car);
        },
    }
}

/// `view_cases` is the pointwise view.
pub proof fn lemma_view_cases(cases: Seq<CondCase>)
    ensures
        view_cases(cases).len() == cases.len(),
        forall|i: int| 0 <= i < cases.len() ==> view_cases(cases)[i] == #[trigger] cases[i]@,
    decreases cases,
{
    if cases.len() > 0 {
        lemma_view_cases(cases.drop_last());
        assert(view_cases(cases) == view_cases(cases.drop_last()).push(cases.last()@));
        assert forall|i: int| 0 <= i < cases.len() implies view_cases(cases)[i] == #[trigger] cases[i]@ by {
            if i < cases.len() - 1 {
                assert(cases.drop_last()[i] == cases[i]);
            } else {
                assert(cases[i] == cases.last());
            }
        }
    } else {
        assert(view_cases(cases) == Seq::<CondCaseV>::empty());
    }
}

/// `view_exprs` is the pointwise view.
pub proof fn lemma_view_exprs(es: Seq<Expr>)
    ensures
        view_exprs(es).len() == es.len(),
        forall|i: int| 0 <= i < es.len() ==> view_exprs(es)[i] == #[trigger] es[i]@,
    decreases es,
{
    if es.len() > 0 {
        lemma_view_exprs(es.drop_last());
        assert(view_exprs(es) == view_exprs(es.drop_last()).push(es.last()@));
        assert forall|i: int| 0 <= i < es.len() implies view_exprs(es)[i] == #[trigger] es[i]@ by {
            if i < es.len() - 1 {
                assert(es.drop_last()[i] == es[i]);
            } else {
                assert(es[i] == es.last());
            }
        }
    } else {
        assert(view_exprs(es) == Seq::<ExprV>::empty());
    }
}

} // verus!
