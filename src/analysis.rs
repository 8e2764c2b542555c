//! Bounds-check elimination: loop displacement summaries and the bound tracker.
use crate::ir::{Instruction, Program, Statement, structured_stmt, structured_stmt_seq};
use std::collections::HashMap;
use vstd::prelude::*;

verus! {

broadcast use vstd::std_specs::hash::group_hash_axioms;

/// Interface for bounds checking analysis.
///
/// The marks are the distances that are provably safe to move from the current
/// position towards each end of memory.
pub trait BoundsAnalysis {
    /// The proven safe distance towards the low edge of memory.
    spec fn low_mark(&self) -> usize;

    /// The proven safe distance towards the high edge of memory.
    spec fn high_mark(&self) -> usize;

    /// The number of loops entered and not yet left.
    spec fn depth(&self) -> nat;

    /// Moves the pointer the given distance to the left.
    ///
    /// Returns whether we can prove that this move will not underflow.
    fn move_left(&mut self, count: usize) -> (r: bool)
        requires
            old(self).high_mark() + count <= usize::MAX,
        ensures
            r == (count <= old(self).low_mark()),
            final(self).low_mark() == (if r { old(self).low_mark() - count } else { 0 }),
            final(self).high_mark() == old(self).high_mark() + count,
            final(self).depth() == old(self).depth(),
    ;

    /// Moves the pointer the given distance to the right.
    ///
    /// Returns whether we can prove that this move will not overflow.
    fn move_right(&mut self, count: usize) -> (r: bool)
        requires
            old(self).low_mark() + count <= usize::MAX,
        ensures
            r == (count <= old(self).high_mark()),
            final(self).high_mark() == (if r { old(self).high_mark() - count } else { 0 }),
            final(self).low_mark() == old(self).low_mark() + count,
            final(self).depth() == old(self).depth(),
    ;

    /// Resets the left mark.
    ///
    /// This is used when we may move an arbitrary distance to the left.
    fn reset_left(&mut self)
        ensures
            final(self).low_mark() == 0,
            final(self).high_mark() == old(self).high_mark(),
            final(self).depth() == old(self).depth(),
    ;

    /// Resets the right mark.
    ///
    /// This is used when we may move an arbitrary distance to the right.
    fn reset_right(&mut self)
        ensures
            final(self).high_mark() == 0,
            final(self).low_mark() == old(self).low_mark(),
            final(self).depth() == old(self).depth(),
    ;

    /// Updates the marks upon entering the loop with the given identifier.
    ///
    /// A mark may weaken on entry, never strengthen.
    fn enter_loop(&mut self, id: usize)
        ensures
            final(self).low_mark() <= old(self).low_mark(),
            final(self).high_mark() <= old(self).high_mark(),
            final(self).depth() == old(self).depth() + 1,
    ;

    /// Updates the marks upon leaving a loop.
    fn leave_loop(&mut self)
        requires
            old(self).depth() > 0,
        ensures
            final(self).depth() == old(self).depth() - 1,
    ;
}

/// The net movement of one iteration of a loop body.
#[derive(Clone, Copy, Debug, PartialEq, Eq, Structural)]
pub enum LoopBalance {
    /// The exact movement of one iteration.
    Exact(i64),
    /// May move right but not left.
    RightOnly,
    /// May move left but not right.
    LeftOnly,
    /// Net movement may be either direction.
    Unknown,
}

impl LoopBalance {
    pub open spec fn balanced(self) -> bool {
        self == LoopBalance::Exact(0)
    }

    pub open spec fn right_only(self) -> bool {
        match self {
            LoopBalance::Exact(disp) => disp >= 0,
            LoopBalance::RightOnly => true,
            _ => false,
        }
    }

    pub open spec fn left_only(self) -> bool {
        match self {
            LoopBalance::Exact(disp) => disp <= 0,
            LoopBalance::LeftOnly => true,
            _ => false,
        }
    }

    /// Is the movement known exactly?
    fn is_exact(self) -> (r: bool)
        ensures
            r == (self is Exact),
    {
        match self {
            LoopBalance::Exact(_) => true,
            _ => false,
        }
    }

    /// Is the loop body exactly balanced between right and left?
    pub fn is_balanced(self) -> (r: bool)
        ensures
            r == self.balanced(),
    {
        match self {
            LoopBalance::Exact(disp) => disp == 0,
            _ => false,
        }
    }

    /// Does the loop move net right (if at all)?
    pub fn is_right_only(self) -> (r: bool)
        ensures
            r == self.right_only(),
    {
        match self {
            LoopBalance::Exact(disp) => disp >= 0,
            LoopBalance::RightOnly => true,
            LoopBalance::LeftOnly => false,
            LoopBalance::Unknown => false,
        }
    }

    /// Does the loop move net left (if at all)?
    pub fn is_left_only(self) -> (r: bool)
        ensures
            r == self.left_only(),
    {
        match self {
            LoopBalance::Exact(disp) => disp <= 0,
            LoopBalance::RightOnly => false,
            LoopBalance::LeftOnly => true,
            LoopBalance::Unknown => false,
        }
    }
}

/// The balance after a further move of `n` to the right.
///
/// An exact displacement that no longer fits in an `i64` is given up as unknown.
pub open spec fn after_right(net: LoopBalance, n: int) -> LoopBalance {
    match net {
        LoopBalance::Exact(disp) => if disp + n <= i64::MAX {
            LoopBalance::Exact((disp + n) as i64)
        } else {
            LoopBalance::Unknown
        },
        LoopBalance::RightOnly => LoopBalance::RightOnly,
        _ => LoopBalance::Unknown,
    }
}

/// The balance after a further move of `n` to the left.
pub open spec fn after_left(net: LoopBalance, n: int) -> LoopBalance {
    match net {
        LoopBalance::Exact(disp) => if disp - n >= i64::MIN {
            LoopBalance::Exact((disp - n) as i64)
        } else {
            LoopBalance::Unknown
        },
        LoopBalance::LeftOnly => LoopBalance::LeftOnly,
        _ => LoopBalance::Unknown,
    }
}

/// The balance after one leaf instruction.
pub open spec fn after_instr(net: LoopBalance, i: Instruction) -> LoopBalance {
    match i {
        Instruction::Right(n) => after_right(net, n as int),
        Instruction::Left(n) => after_left(net, n as int),
        Instruction::FindZeroRight(_) => if net.right_only() {
            LoopBalance::RightOnly
        } else {
            LoopBalance::Unknown
        },
        Instruction::FindZeroLeft(_) => if net.left_only() {
            LoopBalance::LeftOnly
        } else {
            LoopBalance::Unknown
        },
        _ => net,
    }
}

/// The balance after a nested loop whose body has balance `body`.
pub open spec fn after_loop(net: LoopBalance, body: LoopBalance) -> LoopBalance {
    if net is Exact && body.balanced() {
        net
    } else if net.right_only() && body.right_only() {
        LoopBalance::RightOnly
    } else if net.left_only() && body.left_only() {
        LoopBalance::LeftOnly
    } else {
        LoopBalance::Unknown
    }
}

/// The balance after one statement.
pub open spec fn after_stmt(net: LoopBalance, s: Statement) -> LoopBalance
    decreases s,
{
    match s {
        Statement::Instr(i) => after_instr(net, i),
        Statement::Loop { id, body } => after_loop(net, after_stmts(LoopBalance::Exact(0), body@)),
    }
}

/// The balance after a sequence of statements, starting from `net`.
pub open spec fn after_stmts(net: LoopBalance, stmts: Seq<Statement>) -> LoopBalance
    decreases stmts,
{
    if stmts.len() == 0 {
        net
    } else {
        after_stmt(after_stmts(net, stmts.drop_last()), stmts.last())
    }
}

/// The net movement of one pass through a loop body.
pub open spec fn balance_of(body: Seq<Statement>) -> LoopBalance {
    after_stmts(LoopBalance::Exact(0), body)
}

/// The summaries after recording every loop of a statement into `m`, nested loops first.
pub open spec fn record_stmt(m: Map<usize, LoopBalance>, s: Statement) -> Map<usize, LoopBalance>
    decreases s,
{
    match s {
        Statement::Instr(_) => m,
        Statement::Loop { id, body } => record_stmts(m, body@).insert(id, balance_of(body@)),
    }
}

/// The summaries after recording every loop of a sequence of statements into `m`, in order.
pub open spec fn record_stmts(m: Map<usize, LoopBalance>, stmts: Seq<Statement>) -> Map<
    usize,
    LoopBalance,
>
    decreases stmts,
{
    if stmts.len() == 0 {
        m
    } else {
        record_stmt(record_stmts(m, stmts.drop_last()), stmts.last())
    }
}

/// The marks that hold at the start of a loop body, given the marks before the loop
/// and the summary of the loop, if there is one.
pub open spec fn entry_marks(left: usize, right: usize, summary: Option<LoopBalance>) -> (
    usize,
    usize,
) {
    match summary {
        Some(b) => if b.balanced() {
            (left, right)
        } else if b.right_only() {
            (left, 0)
        } else if b.left_only() {
            (0, right)
        } else {
            (0, 0)
        },
        None => (0, 0),
    }
}

/// The abstract interpreter tracks an abstraction of the pointer position.
///
/// In particular, it tracks the minimum distances from each end of memory. This can be used to
/// prove some bounds checks unnecessary.
#[derive(Debug)]
pub struct AbstractInterpreter {
    /// The minimum distance from the bottom of memory.
    left_mark: usize,
    /// The minimum distance from the top of memory.
    right_mark: usize,
    /// The marks to restore when leaving a loop.
    loop_stack: Vec<(usize, usize)>,
    /// The computed net movement for each loop, by loop identifier.
    loop_balances: HashMap<usize, LoopBalance>,
}

impl AbstractInterpreter {
    /// How far the cursor is provably from the low edge of memory.
    pub closed spec fn left(&self) -> usize {
        self.left_mark
    }

    /// How far the cursor is provably from the high edge of memory.
    pub closed spec fn right(&self) -> usize {
        self.right_mark
    }

    /// The marks saved on entry to each enclosing loop, innermost last.
    pub closed spec fn stack(&self) -> Seq<(usize, usize)> {
        self.loop_stack@
    }

    /// The loop summaries, by loop identifier.
    pub closed spec fn summaries(&self) -> Map<usize, LoopBalance> {
        self.loop_balances@
    }

    /// Initialize the interpreter with the body of the program.
    ///
    /// The interpreter initially analyzes the program for loop balances, but only if we're doing
    /// bounds checking in the first place. (There's no point in doing the analysis if we're not
    /// going to use it.)
    pub fn new(program: &Program, checked: bool) -> (r: Self)
        requires
            checked ==> structured_stmt_seq(program@),
        ensures
            r.left() == 0,
            r.right() == 0,
            r.stack() == Seq::<(usize, usize)>::empty(),
            r.summaries() == (if checked {
                record_stmts(Map::empty(), program@)
            } else {
                Map::empty()
            }),
    {
        let mut result = AbstractInterpreter {
            left_mark: 0,
            right_mark: 0,
            loop_stack: Vec::new(),
            loop_balances: HashMap::new(),
        };
        if checked {
            result.analyze_program(program);
        }
        result
    }

    /// Records the balance of every loop of the program, nested loops included.
    pub fn analyze_program(&mut self, program: &Program)
        requires
            structured_stmt_seq(program@),
        ensures
            final(self).summaries() == record_stmts(old(self).summaries(), program@),
            final(self).left() == old(self).left(),
            final(self).right() == old(self).right(),
            final(self).stack() == old(self).stack(),
    {
        let _ = self.analyze(program);
    }

    /// Computes the balance of a sequence of statements, recording the balance of each loop
    /// in it on the way.
    fn analyze(&mut self, statements: &Vec<Statement>) -> (r: LoopBalance)
        requires
            structured_stmt_seq(statements@),
        ensures
            r == balance_of(statements@),
            final(self).summaries() == record_stmts(old(self).summaries(), statements@),
            final(self).left() == old(self).left(),
            final(self).right() == old(self).right(),
            final(self).stack() == old(self).stack(),
        decreases statements@,
    {
        proof {
            crate::ir::lemma_structured_elements(statements@);
        }
        let mut net = LoopBalance::Exact(0);
        let mut i: usize = 0;
        while i < statements.len()
            invariant
                i <= statements@.len(),
                structured_stmt_seq(statements@),
                forall|j: int| 0 <= j < statements@.len() ==> structured_stmt(#[trigger] statements@[j]),
                net == after_stmts(LoopBalance::Exact(0), statements@.subrange(0, i as int)),
                self.summaries() == record_stmts(
                    old(self).summaries(),
                    statements@.subrange(0, i as int),
                ),
                self.left() == old(self).left(),
                self.right() == old(self).right(),
                self.stack() == old(self).stack(),
            decreases statements@.len() - i,
        {
            let ghost done = statements@.subrange(0, i as int);
            let ghost next = statements@.subrange(0, i + 1);
            assert(next.drop_last() =~= done);
            assert(next.last() == statements@[i as int]);
            assert(after_stmts(LoopBalance::Exact(0), next) == after_stmt(
                after_stmts(LoopBalance::Exact(0), done),
                statements@[i as int],
            ));
            assert(record_stmts(old(self).summaries(), next) == record_stmt(
                record_stmts(old(self).summaries(), done),
                statements@[i as int],
            ));
            match &statements[i] {
                Statement::Instr(instr) => {
                    net = match *instr {
                        Instruction::Right(count) => shift_right(net, count),
                        Instruction::Left(count) => shift_left(net, count),
                        Instruction::FindZeroRight(_) => if net.is_right_only() {
                            LoopBalance::RightOnly
                        } else {
                            LoopBalance::Unknown
                        },
                        Instruction::FindZeroLeft(_) => if net.is_left_only() {
                            LoopBalance::LeftOnly
                        } else {
                            LoopBalance::Unknown
                        },
                        _ => net,
                    };
                },
                Statement::Loop { id, body } => {
                    assert(decreases_to!(statements@ => body@)) by {
                        assert(decreases_to!(statements@ => statements@[i as int]));
                    }
                    let inner = self.analyze(body);
                    self.loop_balances.insert(*id, inner);
                    net = if net.is_exact() && inner.is_balanced() {
                        net
                    } else if net.is_right_only() && inner.is_right_only() {
                        LoopBalance::RightOnly
                    } else if net.is_left_only() && inner.is_left_only() {
                        LoopBalance::LeftOnly
                    } else {
                        LoopBalance::Unknown
                    };
                },
            }
            i = i + 1;
        }
        assert(statements@.subrange(0, statements@.len() as int) =~= statements@);
        net
    }

    /// Resets both marks.
    pub fn reset(&mut self)
        ensures
            final(self).left() == 0,
            final(self).right() == 0,
            final(self).stack() == old(self).stack(),
            final(self).summaries() == old(self).summaries(),
    {
        self.reset_left();
        self.reset_right();
    }

    /// Moves the pointer the given distance to the left.
    ///
    /// Returns whether we can prove that this move will not underflow.
    pub fn move_left(&mut self, count: usize) -> (r: bool)
        requires
            old(self).right() + count <= usize::MAX,
        ensures
            r == (count <= old(self).left()),
            final(self).left() == (if r { old(self).left() - count } else { 0 }),
            final(self).right() == old(self).right() + count,
            final(self).stack() == old(self).stack(),
            final(self).summaries() == old(self).summaries(),
    {
        self.right_mark = self.right_mark + count;
        if count <= self.left_mark {
            self.left_mark = self.left_mark - count;
            true
        } else {
            self.left_mark = 0;
            false
        }
    }

    /// Moves the pointer the given distance to the right.
    ///
    /// Returns whether we can prove that this move will not overflow.
    pub fn move_right(&mut self, count: usize) -> (r: bool)
        requires
            old(self).left() + count <= usize::MAX,
        ensures
            r == (count <= old(self).right()),
            final(self).right() == (if r { old(self).right() - count } else { 0 }),
            final(self).left() == old(self).left() + count,
            final(self).stack() == old(self).stack(),
            final(self).summaries() == old(self).summaries(),
    {
        self.left_mark = self.left_mark + count;
        if count <= self.right_mark {
            self.right_mark = self.right_mark - count;
            true
        } else {
            self.right_mark = 0;
            false
        }
    }

    /// Resets the left mark.
    ///
    /// This is used when we may move an arbitrary distance to the left.
    pub fn reset_left(&mut self)
        ensures
            final(self).left() == 0,
            final(self).right() == old(self).right(),
            final(self).stack() == old(self).stack(),
            final(self).summaries() == old(self).summaries(),
    {
        self.left_mark = 0;
    }

    /// Resets the right mark.
    ///
    /// This is used when we may move an arbitrary distance to the right.
    pub fn reset_right(&mut self)
        ensures
            final(self).right() == 0,
            final(self).left() == old(self).left(),
            final(self).stack() == old(self).stack(),
            final(self).summaries() == old(self).summaries(),
    {
        self.right_mark = 0;
    }

    /// Updates the marks upon entering the loop with the given identifier, and saves them
    /// to be restored when the loop is left.
    pub fn enter_loop(&mut self, id: usize)
        ensures
            ({
                let (l, r) = entry_marks(
                    old(self).left(),
                    old(self).right(),
                    if old(self).summaries().contains_key(id) {
                        Some(old(self).summaries()[id])
                    } else {
                        None
                    },
                );
                &&& final(self).left() == l
                &&& final(self).right() == r
                &&& final(self).stack() == old(self).stack().push((l, r))
            }),
            final(self).summaries() == old(self).summaries(),
    {
        match self.loop_balances.get(&id) {
            Some(balance) => {
                let balance = *balance;
                if balance.is_balanced() {
                    // The loop leaves the pointer where it found it.
                } else if balance.is_right_only() {
                    self.reset_right();
                } else if balance.is_left_only() {
                    self.reset_left();
                } else {
                    self.reset();
                }
            },
            None => self.reset(),
        }
        self.loop_stack.push((self.left_mark, self.right_mark));
    }

    /// Updates the marks upon leaving a loop: the marks saved by the matching
    /// `enter_loop` come back.
    pub fn leave_loop(&mut self)
        requires
            old(self).stack().len() > 0,
        ensures
            final(self).left() == old(self).stack().last().0,
            final(self).right() == old(self).stack().last().1,
            final(self).stack() == old(self).stack().drop_last(),
            final(self).summaries() == old(self).summaries(),
    {
        let (left_mark, right_mark) = self.loop_stack.pop().unwrap();
        self.left_mark = left_mark;
        self.right_mark = right_mark;
    }

    /// How far the cursor is provably from the low edge of memory.
    pub fn left_mark(&self) -> (r: usize)
        ensures
            r == self.left(),
    {
        self.left_mark
    }

    /// How far the cursor is provably from the high edge of memory.
    pub fn right_mark(&self) -> (r: usize)
        ensures
            r == self.right(),
    {
        self.right_mark
    }

    /// The number of loops entered and not yet left.
    pub fn loop_depth(&self) -> (r: usize)
        ensures
            r == self.stack().len(),
    {
        self.loop_stack.len()
    }

    /// The number of loops that have a summary.
    pub fn summary_count(&self) -> (r: usize)
        ensures
            r == self.summaries().len(),
    {
        self.loop_balances.len()
    }

    /// The summary of the loop with the given identifier, if it has one.
    pub fn summary(&self, id: usize) -> (r: Option<LoopBalance>)
        ensures
            r == (if self.summaries().contains_key(id) {
                Some(self.summaries()[id])
            } else {
                None
            }),
    {
        match self.loop_balances.get(&id) {
            Some(b) => Some(*b),
            None => None,
        }
    }
}

impl BoundsAnalysis for AbstractInterpreter {
    open spec fn low_mark(&self) -> usize {
        self.left()
    }

    open spec fn high_mark(&self) -> usize {
        self.right()
    }

    open spec fn depth(&self) -> nat {
        self.stack().len()
    }

    fn move_left(&mut self, count: usize) -> (r: bool) {
        AbstractInterpreter::move_left(self, count)
    }

    fn move_right(&mut self, count: usize) -> (r: bool) {
        AbstractInterpreter::move_right(self, count)
    }

    fn reset_left(&mut self) {
        AbstractInterpreter::reset_left(self)
    }

    fn reset_right(&mut self) {
        AbstractInterpreter::reset_right(self)
    }

    fn enter_loop(&mut self, id: usize) {
        proof {
            lemma_entry_marks_never_grow(
                self.left(),
                self.right(),
                if self.summaries().contains_key(id) {
                    Some(self.summaries()[id])
                } else {
                    None
                },
            );
        }
        AbstractInterpreter::enter_loop(self, id)
    }

    fn leave_loop(&mut self) {
        AbstractInterpreter::leave_loop(self)
    }
}

/// Recording a statement into `m` lays the summaries of that statement alone over `m`.
proof fn lemma_record_stmt_overlays(m: Map<usize, LoopBalance>, s: Statement)
    ensures
        record_stmt(m, s) == m.union_prefer_right(record_stmt(Map::empty(), s)),
    decreases s,
{
    match s {
        Statement::Instr(_) => {
            assert(m.union_prefer_right(Map::empty()) =~= m);
        },
        Statement::Loop { id, body } => {
            lemma_record_stmts_overlays(m, body@);
            lemma_record_stmts_overlays(Map::empty(), body@);
            assert(Map::<usize, LoopBalance>::empty().union_prefer_right(
                record_stmts(Map::empty(), body@),
            ) =~= record_stmts(Map::empty(), body@));
            assert(record_stmt(m, s) =~= m.union_prefer_right(record_stmt(Map::empty(), s)));
        },
    }
}

/// Recording statements into `m` lays the summaries of those statements alone over `m`.
proof fn lemma_record_stmts_overlays(m: Map<usize, LoopBalance>, stmts: Seq<Statement>)
    ensures
        record_stmts(m, stmts) == m.union_prefer_right(record_stmts(Map::empty(), stmts)),
    decreases stmts,
{
    if stmts.len() == 0 {
        assert(m.union_prefer_right(Map::empty()) =~= m);
    } else {
        let front = stmts.drop_last();
        let w = record_stmts(Map::empty(), front);
        lemma_record_stmts_overlays(m, front);
        lemma_record_stmt_overlays(m.union_prefer_right(w), stmts.last());
        lemma_record_stmt_overlays(w, stmts.last());
        let ws = record_stmt(Map::empty(), stmts.last());
        assert(m.union_prefer_right(w).union_prefer_right(ws) =~= m.union_prefer_right(
            w.union_prefer_right(ws),
        ));
    }
}

/// Summarizing a program is idempotent: recording its loops a second time into summaries
/// that already hold them changes nothing.
pub proof fn lemma_summaries_idempotent(m: Map<usize, LoopBalance>, program: Seq<Statement>)
    ensures
        record_stmts(record_stmts(m, program), program) == record_stmts(m, program),
{
    let w = record_stmts(Map::empty(), program);
    lemma_record_stmts_overlays(m, program);
    lemma_record_stmts_overlays(record_stmts(m, program), program);
    assert(m.union_prefer_right(w).union_prefer_right(w) =~= m.union_prefer_right(w));
}

/// With no summary for a loop, as when the analysis is disabled, entering it leaves
/// nothing proved on either side.
pub proof fn lemma_unsummarized_loop_resets(left: usize, right: usize)
    ensures
        entry_marks(left, right, None) == (0usize, 0usize),
{
}

/// Entering a loop never strengthens a mark.
pub proof fn lemma_entry_marks_never_grow(left: usize, right: usize, summary: Option<LoopBalance>)
    ensures
        entry_marks(left, right, summary).0 <= left,
        entry_marks(left, right, summary).1 <= right,
{
}

/// Adds a move of `count` to the right to a running balance.
fn shift_right(net: LoopBalance, count: usize) -> (r: LoopBalance)
    ensures
        r == after_right(net, count as int),
{
    match net {
        LoopBalance::Exact(disp) => {
            let sum: i128 = disp as i128 + count as i128;
            if sum <= i64::MAX as i128 {
                LoopBalance::Exact(sum as i64)
            } else {
                LoopBalance::Unknown
            }
        },
        LoopBalance::RightOnly => LoopBalance::RightOnly,
        _ => LoopBalance::Unknown,
    }
}

/// Adds a move of `count` to the left to a running balance.
fn shift_left(net: LoopBalance, count: usize) -> (r: LoopBalance)
    ensures
        r == after_left(net, count as int),
{
    match net {
        LoopBalance::Exact(disp) => {
            let diff: i128 = disp as i128 - count as i128;
            if diff >= i64::MIN as i128 {
                LoopBalance::Exact(diff as i64)
            } else {
                LoopBalance::Unknown
            }
        },
        LoopBalance::LeftOnly => LoopBalance::LeftOnly,
        _ => LoopBalance::Unknown,
    }
}

} // verus!
