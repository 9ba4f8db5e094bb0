use vstd::prelude::*;

use crate::ast::BinaryBoolOp;
use crate::ast::BinaryNumOp;
use crate::ast::CmpBoolOp;

verus! {

/// The mathematical form of a parsed expression: names are character
/// sequences and expression lists are mathematical sequences. Every
/// syntactic category of the executable tree views into this one type;
/// the semantics and the parser are specified over it.
///
/// The executable tree keeps boolean, numeric and list sub-expressions in
/// syntactically distinct categories, and evaluating a category checks the
/// shape of the value it produces. The `NumPos`, `BoolPos` and `ListPos`
/// variants record those positions, so that the checks are part of the
/// mathematical form.
#[allow(inconsistent_fields)]
pub ghost enum ExprV {
    NumLit { value: i32 },
    BoolLit { value: bool },
    Var { name: Seq<char> },
    BinaryNum { op: BinaryNumOp, left: Box<ExprV>, right: Box<ExprV> },
    BinaryBool { op: BinaryBoolOp, left: Box<ExprV>, right: Box<ExprV> },
    Not { value: Box<ExprV> },
    Cmp { op: CmpBoolOp, left: Box<ExprV>, right: Box<ExprV> },
    Cond { cases: Seq<CondCaseV> },
    Call { name: Seq<char>, arguments: Seq<ExprV> },
    ListEmpty,
    ListNode { data: Box<ExprV>, next: Box<ExprV> },
    Car { list: Box<ExprV> },
    Cdr { list: Box<ExprV> },
    EmptyHuh { list: Box<ExprV> },
    ListHuh { expr: Box<ExprV> },
    Define { name: Seq<char>, parameters: Seq<Seq<char>>, body: Box<ExprV> },
    NumPos { expr: Box<ExprV> },
    BoolPos { expr: Box<ExprV> },
    ListPos { expr: Box<ExprV> },
}

/// One guarded case of a `cond`, in mathematical form.
pub ghost struct CondCaseV {
    pub condition: ExprV,
    pub result: ExprV,
}

} // verus!
