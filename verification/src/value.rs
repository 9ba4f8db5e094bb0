use vstd::prelude::*;

use vstd::string::StrSliceExecFns;
use vstd::string::StringExecFns;

verus! {

/// The three-way runtime union: a signed 32-bit number, a boolean, or an
/// immutable cons list. Values are produced only by evaluation and are
/// compared structurally.
#[derive(Debug, PartialEq, Eq)]
pub enum Value {
    NumValue(i32),
    BoolValue(bool),
    ListValue(ValueList),
}

/// A singly-linked, immutable, persistent cons structure: empty, or one
/// owned element followed by an owned tail.
#[derive(Debug, PartialEq, Eq)]
pub enum ValueList {
    Empty,
    Node(ValueNode),
}

/// One cons cell: the element it holds and the remainder of the list.
#[derive(Debug, PartialEq, Eq)]
pub struct ValueNode {
    pub data: Box<Value>,
    pub next: Box<ValueList>,
}

/// The decimal digits of a number, most significant first.
pub open spec fn dec_digits(n: nat) -> Seq<char>
    decreases n,
{
    if n < 10 {
        seq![digit_char(n)]
    } else {
        dec_digits(n / 10).push(digit_char(n % 10))
    }
}

/// The character of one decimal digit.
pub open spec fn digit_char(d: nat) -> char {
    "0123456789"@[d as int]
}

/// The textual form of a number: its decimal digits, with a leading minus
/// sign when negative.
pub open spec fn spec_render_num(n: i32) -> Seq<char> {
    if n < 0 {
        seq!['-'] + dec_digits((-n) as nat)
    } else {
        dec_digits(n as nat)
    }
}

/// The textual form of a value: the integer literal for a number,
/// `true`/`false` for a boolean, and a parenthesized chain for a list.
pub open spec fn spec_render_value(v: Value) -> Seq<char>
    decreases v,
{
    match v {
        Value::NumValue(n) => spec_render_num(n),
        Value::BoolValue(b) => if b {
            "true"@
        } else {
            "false"@
        },
        Value::ListValue(l) => spec_render_list(l),
    }
}

/// The textual form of a cons list: `empty`, or the head and the rendered
/// tail joined by an arrow inside parentheses.
pub open spec fn spec_render_list(l: ValueList) -> Seq<char>
    decreases l,
{
    match l {
        ValueList::Empty => "empty"@,
        ValueList::Node(node) => seq!['('] + spec_render_value(*node.data) + " -> "@
            + spec_render_list(*node.next) + seq![')'],
    }
}

fn dec_str(n: u32) -> (r: String)
    ensures
        r@ == dec_digits(n as nat),
    decreases n,
{
    let table = "0123456789";
    proof {
        reveal_strlit("0123456789");
    }
    if n < 10 {
        let digit = table.substring_char(n as usize, n as usize + 1);
        proof {
            assert(digit@ =~= seq![digit_char(n as nat)]);
        }
        digit.to_owned()
    } else {
        let mut s = dec_str(n / 10);
        let d = n % 10;
        let digit = table.substring_char(d as usize, d as usize + 1);
        proof {
            assert(digit@ =~= seq![digit_char(d as nat)]);
            assert(s@ + digit@ =~= dec_digits((n / 10) as nat).push(digit_char((n % 10) as nat)));
        }
        s.append(digit);
        s
    }
}

impl Value {
    /// The textual form of this value: the integer literal for a number,
    /// `true`/`false` for a boolean, and a parenthesized chain for a list.
    pub fn render(&self) -> (r: String)
        ensures
            r@ == spec_render_value(*self),
        decreases *self,
    {
        match self {
            Value::NumValue(n) => {
                if *n < 0 {
                    let magnitude: u32 = if *n == i32::MIN {
                        0x8000_0000u32
                    } else {
                        (0 - *n) as u32
                    };
                    let mut s = "-".to_owned();
                    let digits = dec_str(magnitude);
                    proof {
                        reveal_strlit("-");
                        assert(s@ + digits@ =~= spec_render_num(*n));
                    }
                    s.append(digits.as_str());
                    s
                } else {
                    dec_str(*n as u32)
                }
            },
            Value::BoolValue(b) => if *b {
                "true".to_owned()
            } else {
                "false".to_owned()
            },
            Value::ListValue(l) => render_value_list(l),
        }
    }
}

/// The textual form of a cons list.
pub fn render_value_list(l: &ValueList) -> (r: String)
    ensures
        r@ == spec_render_list(*l),
    decreases *l,
{
    match l {
        ValueList::Empty => "empty".to_owned(),
        ValueList::Node(node) => {
            let mut s = "(".to_owned();
            let head = (*node.data).render();
            let tail = render_value_list(&node.next);
            proof {
                reveal_strlit("(");
                reveal_strlit(")");
                assert(s@ + head@ + " -> "@ + tail@ + ")"@ =~= spec_render_list(*l));
            }
            s.append(head.as_str());
            s.append(" -> ");
            s.append(tail.as_str());
            s.append(")");
            s
        },
    }
}

/// Structural copy of a value, exact by construction.
pub fn clone_value(v: &Value) -> (r: Value)
    ensures
        r == *v,
    decreases *v,
{
    match v {
        Value::NumValue(n) => Value::NumValue(*n),
        Value::BoolValue(b) => Value::BoolValue(*b),
        Value::ListValue(l) => Value::ListValue(clone_value_list(l)),
    }
}

/// Structural copy of a cons list, exact by construction.
pub fn clone_value_list(l: &ValueList) -> (r: ValueList)
    ensures
        r == *l,
    decreases *l,
{
    match l {
        ValueList::Empty => ValueList::Empty,
        ValueList::Node(node) => ValueList::Node(
            ValueNode {
                data: Box::new(clone_value(&*node.data)),
                next: Box::new(clone_value_list(&*node.next)),
            },
        ),
    }
}

} // verus!
