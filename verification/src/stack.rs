//! The operand stack: a fixed number of signed 32-bit cells and a top index.
//!
//! The stack grows downward. A push writes the cell at the top index and then
//! lowers the index; a pop raises the index and then reads the cell there.
//! The index is a 32-bit register and moves modulo 2^32, so after the cell
//! at index 0 is written it stands at the largest 32-bit value, outside
//! the cells, and the next push finds no room.
use vstd::prelude::*;
use crate::word::wrap_u32;

verus! {

/// The stack as a mathematical value.
#[verifier::ext_equal]
pub struct StackView {
    /// The cells, by absolute index.
    pub cells: Seq<i32>,
    /// The top index: where the next push writes.
    pub top: u32,
}

impl StackView {
    /// A new stack of `capacity` cells: every cell holds zero and the top
    /// index is the highest one.
    pub open spec fn fresh(capacity: nat) -> StackView {
        StackView { cells: Seq::new(capacity, |i: int| 0i32), top: wrap_u32(capacity - 1) }
    }

    /// Whether `index` names a cell.
    pub open spec fn in_bounds(self, index: int) -> bool {
        0 <= index < self.cells.len()
    }

    /// Whether a push finds room.
    pub open spec fn can_push(self) -> bool {
        self.in_bounds(self.top as int)
    }

    /// The stack after a push of `val`.
    pub open spec fn push(self, val: i32) -> StackView {
        StackView { cells: self.cells.update(self.top as int, val), top: wrap_u32(self.top - 1) }
    }

    /// Whether a pop finds a cell.
    pub open spec fn can_pop(self) -> bool {
        self.in_bounds(wrap_u32(self.top + 1) as int)
    }

    /// The value that a pop returns.
    pub open spec fn peek(self) -> i32 {
        self.cells[wrap_u32(self.top + 1) as int]
    }

    /// The stack after a pop.
    pub open spec fn pop(self) -> StackView {
        StackView { top: wrap_u32(self.top + 1), ..self }
    }

    /// The stack with `val` in the cell at `index`.
    pub open spec fn store(self, index: int, val: i32) -> StackView {
        StackView { cells: self.cells.update(index, val), ..self }
    }

    /// The stack with another top index.
    pub open spec fn with_top(self, top: u32) -> StackView {
        StackView { top, ..self }
    }

    /// How many pushes find room before one overflows.
    pub open spec fn room(self) -> nat {
        if self.can_push() {
            (self.top + 1) as nat
        } else {
            0
        }
    }

    /// The stack after pushing `vals` in order, first to last.
    pub open spec fn push_all(self, vals: Seq<i32>) -> StackView
        decreases vals.len(),
    {
        if vals.len() == 0 {
            self
        } else {
            self.push_all(vals.drop_last()).push(vals.last())
        }
    }

    /// Whether `count` pops in a row each find a cell.
    pub open spec fn can_pop_n(self, count: nat) -> bool
        decreases count,
    {
        count == 0 || (self.can_pop() && self.pop().can_pop_n((count - 1) as nat))
    }

    /// The values that `count` pops in a row return, in the order in which
    /// they come.
    pub open spec fn popped(self, count: nat) -> Seq<i32>
        decreases count,
    {
        if count == 0 {
            Seq::<i32>::empty()
        } else {
            seq![self.peek()] + self.pop().popped((count - 1) as nat)
        }
    }

    /// The stack after `count` pops in a row.
    pub open spec fn pop_n(self, count: nat) -> StackView
        decreases count,
    {
        if count == 0 {
            self
        } else {
            self.pop().pop_n((count - 1) as nat)
        }
    }
}

/// What a run of pushes leaves behind: with room for all of `vals`, the
/// values lie below the old top index in the order pushed, every other cell
/// is as it was, and the top index has moved down by their number.
pub proof fn push_all_layout(s: StackView, vals: Seq<i32>)
    requires
        vals.len() <= s.room(),
    ensures
        s.push_all(vals).cells.len() == s.cells.len(),
        s.push_all(vals).top == wrap_u32(s.top - vals.len()),
        forall|i: int|
            0 <= i < vals.len() ==> #[trigger] s.push_all(vals).cells[s.top - i] == vals[i],
        forall|j: int|
            0 <= j < s.cells.len() && !(s.top - vals.len() < j <= s.top) ==> s.push_all(
                vals,
            ).cells[j] == s.cells[j],
        forall|k: int|
            0 <= k < vals.len() ==> #[trigger] s.push_all(vals.take(k)).can_push(),
    decreases vals.len(),
{
    if vals.len() > 0 {
        let front = vals.drop_last();
        push_all_layout(s, front);
        let before = s.push_all(front);
        assert(before.top == s.top - front.len());
        assert forall|i: int| 0 <= i < vals.len() implies #[trigger] s.push_all(vals).cells[s.top
            - i] == vals[i] by {
            if i < front.len() {
                assert(before.cells[s.top - i] == front[i]);
            }
        }
        assert forall|k: int| 0 <= k < vals.len() implies #[trigger] s.push_all(
            vals.take(k),
        ).can_push() by {
            if k < front.len() {
                assert(front.take(k) =~= vals.take(k));
            } else {
                assert(vals.take(k) =~= front);
            }
        }
    }
}

/// What a run of pops returns: the cells above the top index, nearest first.
pub proof fn popped_reads_upward(s: StackView, count: nat)
    requires
        s.top + count < s.cells.len() || (s.top == u32::MAX && count <= s.cells.len()),
    ensures
        s.can_pop_n(count),
        s.popped(count).len() == count,
        s.pop_n(count).top == wrap_u32(s.top + count),
        s.pop_n(count).cells == s.cells,
        forall|i: int|
            0 <= i < count ==> #[trigger] s.popped(count)[i] == s.cells[wrap_u32(s.top + 1 + i)
                as int],
    decreases count,
{
    if count > 0 {
        popped_reads_upward(s.pop(), (count - 1) as nat);
        let rest = s.pop().popped((count - 1) as nat);
        assert forall|i: int| 0 <= i < count implies #[trigger] s.popped(count)[i]
            == s.cells[wrap_u32(s.top + 1 + i) as int] by {
            if i > 0 {
                assert(s.popped(count)[i] == rest[i - 1]);
            }
        }
    }
}

/// Push and pop are inverse, last in first out: after pushing any values
/// that the stack has room for, popping as many returns them in reverse
/// order, finds a cell each time, and puts the top index back where it was.
pub proof fn pops_return_pushes_in_reverse(s: StackView, vals: Seq<i32>)
    requires
        vals.len() <= s.room(),
    ensures
        s.push_all(vals).can_pop_n(vals.len()),
        s.push_all(vals).popped(vals.len()) == vals.reverse(),
        s.push_all(vals).pop_n(vals.len()).top == s.top,
{
    let n = vals.len();
    let full = s.push_all(vals);
    push_all_layout(s, vals);
    if n > 0 {
        popped_reads_upward(full, n);
        assert forall|i: int| 0 <= i < n implies full.popped(n)[i] == vals.reverse()[i] by {
            assert(full.cells[s.top - (n - 1 - i)] == vals[n - 1 - i]);
        }
        assert(full.popped(n) =~= vals.reverse());
    } else {
        assert(full.popped(n) =~= vals.reverse());
    }
}

/// A new stack takes exactly as many values as it has cells: each of them
/// finds room, and the push after the last finds none.
pub proof fn fresh_stack_holds_its_capacity(capacity: nat, vals: Seq<i32>)
    requires
        capacity <= u32::MAX,
        vals.len() == capacity,
    ensures
        forall|k: int|
            0 <= k < capacity ==> #[trigger] StackView::fresh(capacity).push_all(
                vals.take(k),
            ).can_push(),
        !StackView::fresh(capacity).push_all(vals).can_push(),
{
    push_all_layout(StackView::fresh(capacity), vals);
}

/// The operand stack.
pub struct Stack {
    cells: Vec<i32>,
    top: u32,
}

impl View for Stack {
    type V = StackView;

    closed spec fn view(&self) -> StackView {
        StackView { cells: self.cells@, top: self.top }
    }
}

impl Stack {
    /// A stack of `size` cells, all zero, with the top index at the highest
    /// cell.
    pub fn new(size: usize) -> (r: Stack)
        requires
            size <= u32::MAX,
        ensures
            r@ == StackView::fresh(size as nat),
    {
        let cells: Vec<i32> = vec![0i32; size];
        let top: u32 = (size as u32).wrapping_sub(1);
        let r = Stack { cells, top };
        assert(r@ =~= StackView::fresh(size as nat));
        r
    }

    /// The number of cells.
    pub fn capacity(&self) -> (r: usize)
        ensures
            r == self@.cells.len(),
    {
        self.cells.len()
    }

    /// The top index.
    pub fn top(&self) -> (r: u32)
        ensures
            r == self@.top,
    {
        self.top
    }

    /// Moves the top index.
    pub fn set_top(&mut self, top: u32)
        ensures
            final(self)@ == old(self)@.with_top(top),
    {
        self.top = top;
    }

    /// Says whether `index` names a cell.
    pub fn in_bounds(&self, index: usize) -> (r: bool)
        ensures
            r == self@.in_bounds(index as int),
    {
        index < self.cells.len()
    }

    /// The cell at `index`.
    pub fn get(&self, index: usize) -> (r: i32)
        requires
            self@.in_bounds(index as int),
        ensures
            r == self@.cells[index as int],
    {
        self.cells[index]
    }

    /// Writes `val` into the cell at `index`.
    pub fn set(&mut self, index: usize, val: i32)
        requires
            old(self)@.in_bounds(index as int),
        ensures
            final(self)@ == old(self)@.store(index as int, val),
    {
        self.cells[index] = val;
    }

    /// Says whether a push finds room.
    pub fn can_push(&self) -> (r: bool)
        ensures
            r == self@.can_push(),
    {
        (self.top as usize) < self.cells.len()
    }

    /// Says whether a pop finds a cell.
    pub fn can_pop(&self) -> (r: bool)
        ensures
            r == self@.can_pop(),
    {
        (self.top.wrapping_add(1) as usize) < self.cells.len()
    }

    /// Writes `val` at the top index, then lowers the index.
    pub fn push(&mut self, val: i32)
        requires
            old(self)@.can_push(),
        ensures
            final(self)@ == old(self)@.push(val),
    {
        self.cells[self.top as usize] = val;
        self.top = self.top.wrapping_sub(1);
    }

    /// Raises the top index, then reads the cell there.
    pub fn pop(&mut self) -> (r: i32)
        requires
            old(self)@.can_pop(),
        ensures
            final(self)@ == old(self)@.pop(),
            r == old(self)@.peek(),
    {
        self.top = self.top.wrapping_add(1);
        self.cells[self.top as usize]
    }
}

} // verus!
