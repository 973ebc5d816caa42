//! Turning raw script bytes into an operation sequence: exactly the eight
//! recognized characters become operations, every other byte is discarded,
//! which is how comments and whitespace are supported.

use vstd::prelude::*;

use crate::machine::Operation;

verus! {

/// The operation one script byte stands for, if any.
pub open spec fn classify_spec(b: u8) -> Option<Operation> {
    if b == 43 {  // '+'
        Some(Operation::Add)
    } else if b == 45 {  // '-'
        Some(Operation::Subtract)
    } else if b == 44 {  // ','
        Some(Operation::Read)
    } else if b == 46 {  // '.'
        Some(Operation::Write)
    } else if b == 60 {  // '<'
        Some(Operation::Left)
    } else if b == 62 {  // '>'
        Some(Operation::Right)
    } else if b == 91 {  // '['
        Some(Operation::Start)
    } else if b == 93 {  // ']'
        Some(Operation::End)
    } else {
        None
    }
}

/// The operation sequence a script denotes: recognized bytes in order,
/// everything else dropped.
pub open spec fn parse_spec(src: Seq<u8>) -> Seq<Operation>
    decreases src.len(),
{
    if src.len() == 0 {
        Seq::empty()
    } else {
        parse_spec(src.drop_last()) + match classify_spec(src.last()) {
            Some(op) => seq![op],
            None => Seq::empty(),
        }
    }
}

/// Classify one script byte.
pub fn classify(b: u8) -> (r: Option<Operation>)
    ensures
        r == classify_spec(b),
{
    if b == 43 {
        Some(Operation::Add)
    } else if b == 45 {
        Some(Operation::Subtract)
    } else if b == 44 {
        Some(Operation::Read)
    } else if b == 46 {
        Some(Operation::Write)
    } else if b == 60 {
        Some(Operation::Left)
    } else if b == 62 {
        Some(Operation::Right)
    } else if b == 91 {
        Some(Operation::Start)
    } else if b == 93 {
        Some(Operation::End)
    } else {
        None
    }
}

/// Translate a whole script into its operation sequence.
pub fn parse_program(src: &[u8]) -> (ops: Vec<Operation>)
    ensures
        ops@ == parse_spec(src@),
{
    let mut ops: Vec<Operation> = Vec::new();
    let mut i: usize = 0;
    while i < src.len()
        invariant
            i <= src@.len(),
            ops@ == parse_spec(src@.take(i as int)),
        decreases src@.len() - i,
    {
        proof {
            assert(src@.take(i + 1).drop_last() =~= src@.take(i as int));
            assert(src@.take(i + 1).last() == src@[i as int]);
        }
        match classify(src[i]) {
            Some(op) => {
                ops.push(op);
                proof {
                    assert(ops@ =~= parse_spec(src@.take(i + 1)));
                }
            },
            None => {},
        }
        i = i + 1;
    }
    proof {
        assert(src@.take(src@.len() as int) =~= src@);
    }
    ops
}

} // verus!
