//! The structured instruction tree that the analysis reads.
use vstd::prelude::*;

verus! {

/// A step count of a pointer move.
pub type Count = usize;

/// A leaf instruction of the language.
#[derive(Clone, Copy, Debug, PartialEq, Eq)]
pub enum Instruction {
    /// Moves the pointer to the right by the given count.
    Right(Count),
    /// Moves the pointer to the left by the given count.
    Left(Count),
    /// Adds the given value to the byte under the pointer.
    Add(u8),
    /// Reads one byte of input into the cell under the pointer.
    In,
    /// Writes the byte under the pointer to the output.
    Out,
    /// Jumps forward to the given target if the byte under the pointer is zero.
    JumpZero(usize),
    /// Jumps back to the given target if the byte under the pointer is not zero.
    JumpNotZero(usize),
    /// Sets the byte under the pointer to zero.
    SetZero,
    /// Adds the byte under the pointer to the cell at the given distance to the right,
    /// scaled by the given factor.
    OffsetAddRight(Count, u8),
    /// Adds the byte under the pointer to the cell at the given distance to the left,
    /// scaled by the given factor.
    OffsetAddLeft(Count, u8),
    /// Moves right in steps of the given count until a zero byte is under the pointer.
    FindZeroRight(Count),
    /// Moves left in steps of the given count until a zero byte is under the pointer.
    FindZeroLeft(Count),
}

/// A node of the structured program: a leaf instruction or a loop.
///
/// Every loop carries an identifier, stamped on it when the tree is built, by which
/// the analysis finds the loop again later.
#[derive(Debug)]
pub enum Statement {
    Instr(Instruction),
    Loop { id: usize, body: Vec<Statement> },
}

/// A whole structured program.
pub type Program = Vec<Statement>;

impl Instruction {
    /// Whether this is one of the raw jumps that structuring replaces by loops.
    pub open spec fn spec_is_jump(self) -> bool {
        self is JumpZero || self is JumpNotZero
    }
}

/// A statement contains no raw jump anywhere in it.
pub open spec fn structured_stmt(s: Statement) -> bool
    decreases s,
{
    match s {
        Statement::Instr(i) => !i.spec_is_jump(),
        Statement::Loop { id, body } => structured_stmt_seq(body@),
    }
}

/// No statement of the sequence contains a raw jump.
pub open spec fn structured_stmt_seq(stmts: Seq<Statement>) -> bool
    decreases stmts,
{
    if stmts.len() == 0 {
        true
    } else {
        structured_stmt_seq(stmts.drop_last()) && structured_stmt(stmts.last())
    }
}

} // verus!

verus! {

/// Every statement of a structured sequence is structured.
pub proof fn lemma_structured_elements(stmts: Seq<Statement>)
    requires
        structured_stmt_seq(stmts),
    ensures
        forall|i: int| 0 <= i < stmts.len() ==> structured_stmt(#[trigger] stmts[i]),
    decreases stmts.len(),
{
    if stmts.len() > 0 {
        lemma_structured_elements(stmts.drop_last());
        assert forall|i: int| 0 <= i < stmts.len() implies structured_stmt(#[trigger] stmts[i]) by {
            if i < stmts.len() - 1 {
                assert(stmts[i] == stmts.drop_last()[i]);
            }
        }
    }
}

/// Whether no statement of the sequence contains a raw jump, at any depth.
pub fn is_structured(stmts: &Vec<Statement>) -> (r: bool)
    ensures
        r == structured_stmt_seq(stmts@),
    decreases stmts@,
{
    let mut i: usize = 0;
    while i < stmts.len()
        invariant
            i <= stmts@.len(),
            structured_stmt_seq(stmts@.subrange(0, i as int)),
        decreases stmts@.len() - i,
    {
        let ghost next = stmts@.subrange(0, i + 1);
        assert(next.drop_last() =~= stmts@.subrange(0, i as int));
        let ok = match &stmts[i] {
            Statement::Instr(instr) => match instr {
                Instruction::JumpZero(_) => false,
                Instruction::JumpNotZero(_) => false,
                _ => true,
            },
            Statement::Loop { id, body } => {
                assert(decreases_to!(stmts@ => body@)) by {
                    assert(decreases_to!(stmts@ => stmts@[i as int]));
                }
                is_structured(body)
            },
        };
        assert(ok == structured_stmt(stmts@[i as int]));
        if !ok {
            proof {
                lemma_structured_elements_rev(stmts@, i as int);
            }
            return false;
        }
        assert(next.last() == stmts@[i as int]);
        assert(structured_stmt_seq(next));
        i = i + 1;
    }
    assert(stmts@.subrange(0, stmts@.len() as int) =~= stmts@);
    true
}

/// A structured sequence has only structured statements.
proof fn lemma_structured_elements_rev(stmts: Seq<Statement>, i: int)
    requires
        0 <= i < stmts.len(),
        !structured_stmt(stmts[i]),
    ensures
        !structured_stmt_seq(stmts),
{
    if structured_stmt_seq(stmts) {
        lemma_structured_elements(stmts);
    }
}

} // verus!
