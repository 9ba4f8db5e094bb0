use vstd::prelude::*;

verus! {

/// Every way a program can fail, from tokenizing through evaluation.
///
/// All conditions are fatal: once raised, an error propagates to the
/// caller of the entry point with no recovery along the way.
#[derive(Debug, Clone, Copy, PartialEq, Eq, Structural)]
pub enum Error {
    /// An unrecognized character was seen while tokenizing.
    LexError,
    /// An unexpected token, a missing parenthesis, an incomplete form,
    /// tokens left over after a complete parse, a malformed `car`/`cdr`/
    /// `empty?` argument, an empty `cond`, or a numeric literal outside
    /// the 32-bit range.
    ParseError,
    /// A variable reference found no live binding for the name.
    UndefinedVariable,
    /// A call named a function that is not registered, or handed it more
    /// arguments than it declares parameters.
    UndefinedFunction,
    /// A consumer expected a number, boolean or list and the value had
    /// another shape.
    TypeMismatch,
    /// Division with a zero right operand.
    DivisionByZero,
    /// Modulo with a zero right operand.
    ModuloByZero,
    /// `car` or `cdr` applied to the empty list.
    EmptyListError,
    /// Every guard of a `cond` evaluated to false.
    NoMatchingCase,
    /// An `(include ...)` form named a module outside the fixed allow-list.
    UnknownModule,
    /// A function definition stood where a value was expected; definitions
    /// are only valid at top level.
    MisplacedDefinition,
    /// The call depth budget ran out: a resource failure, not a language
    /// error.
    StackExhaustion,
}

} // verus!
