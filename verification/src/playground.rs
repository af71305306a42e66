//! The program that is sent to a code-execution service for one expression.

use vstd::prelude::*;
use vstd::string::StringExecFns;

verus! {

/// What stands before the expression: the head of `main` and the start of a
/// statement that prints, in debug form, the value of a block.
pub const OPENING: &'static str = "fn main() {\n    println!(\"{:?}\", { ";

/// What stands after the expression: the end of the block, of the statement
/// and of `main`.
pub const CLOSING: &'static str = " });\n}\n";

/// The program that evaluates `code` and prints its value.
pub open spec fn program_text(code: Seq<char>) -> Seq<char> {
    OPENING@ + code + CLOSING@
}

/// Builds the program that evaluates the expression `code` and prints its
/// value. The expression is put in as it is.
pub fn program(code: &str) -> (source: String)
    ensures
        source@ == program_text(code@),
{
    let mut source = String::from_str(OPENING);
    source.append(code);
    source.append(CLOSING);
    source
}

} // verus!
