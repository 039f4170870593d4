//! Properties of the builder and of the lowering that involve several calls or
//! hold for every input.
use vstd::prelude::*;
use crate::block::{block_lines, ops_lines, BlockModel};
use crate::instruction::{dividend_moved, divide_lines, exit_lines, mov_line, op_lines, Op};
use crate::location::{loc_text, ValueRef};
use crate::register::{initial_free_regs, reg_name, Register, REGISTER_COUNT};
use crate::text::{int_text, lines_text};

verus! {

/// The block `b` after one successful constant builder call for each of
/// `values`, in order.
pub open spec fn with_constants(b: BlockModel, values: Seq<i64>) -> BlockModel
    decreases values.len(),
{
    if values.len() == 0 {
        b
    } else {
        with_constants(b, values.drop_last()).with_constant(values.last())
    }
}

/// The register that the `i`-th constant of a new block goes into.
pub open spec fn constant_reg(i: int) -> Register {
    initial_free_regs()[REGISTER_COUNT - 1 - i]
}

/// The line that puts `value` into the register `r`.
pub open spec fn load_line(r: Register, value: i64) -> Seq<char> {
    mov_line(reg_name(r), int_text(value as int))
}

/// The lines that load `values`, in order, into the registers that a new
/// block hands out.
pub open spec fn load_lines(values: Seq<i64>) -> Seq<Seq<char>> {
    Seq::new(values.len(), |i: int| load_line(constant_reg(i), values[i]))
}

/// A new allocator's free list holds each register once.
pub proof fn lemma_initial_free_regs_distinct()
    ensures
        initial_free_regs().len() == REGISTER_COUNT,
        initial_free_regs().no_duplicates(),
{
    let s = initial_free_regs();
    assert(s[0] == Register::Rdi);
    assert(s[1] == Register::Rsi);
    assert(s[2] == Register::Rdx);
    assert(s[3] == Register::Rcx);
    assert(s[4] == Register::Rbx);
    assert(s[5] == Register::Rax);
    assert(s[6] == Register::R8);
    assert(s[7] == Register::R9);
    assert(s[8] == Register::R10);
    assert(s[9] == Register::R11);
    assert(s[10] == Register::R12);
    assert(s[11] == Register::R13);
    assert(s[12] == Register::R14);
    assert(s[13] == Register::R15);
}

/// Loading `n` constants, `n` at most the number of registers, into a new
/// block succeeds at every step and yields exactly `n` instructions, each a
/// move of its constant into a register, the `n` registers pairwise distinct;
/// the block's code is its label followed by exactly those `n` moves.
pub proof fn lemma_constants_in_distinct_registers(
    name: Seq<char>,
    values: Seq<i64>,
    in_frame: bool,
)
    requires
        values.len() <= REGISTER_COUNT,
    ensures
        ({
            let b = with_constants(BlockModel::fresh(name), values);
            let n = values.len() as int;
            &&& b.name == name
            &&& b.free_regs == initial_free_regs().take(REGISTER_COUNT - n)
            &&& b.ops.len() == n
            &&& forall|i: int|
                0 <= i < n ==> b.ops[i] == (Op::Constant {
                    storage: ValueRef::Register(constant_reg(i)),
                    value: values[i],
                })
            &&& forall|i: int, j: int|
                0 <= i < n && 0 <= j < n && i != j ==> constant_reg(i) != constant_reg(j)
            &&& ops_lines(b.ops, in_frame) == load_lines(values)
            &&& block_lines(b, in_frame) == seq![name + ":"@] + load_lines(values)
        }),
    decreases values.len(),
{
    lemma_initial_free_regs_distinct();
    let n = values.len() as int;
    let b = with_constants(BlockModel::fresh(name), values);
    if n == 0 {
        assert(initial_free_regs().take(REGISTER_COUNT as int) =~= initial_free_regs());
        assert(b.ops =~= Seq::<Op>::empty());
        assert(ops_lines(b.ops, in_frame) =~= Seq::<Seq<char>>::empty());
        assert(ops_lines(b.ops, in_frame) =~= load_lines(values));
        assert(block_lines(b, in_frame) =~= seq![name + ":"@] + load_lines(values));
    } else {
        let prev_values = values.drop_last();
        lemma_constants_in_distinct_registers(name, prev_values, in_frame);
        let prev = with_constants(BlockModel::fresh(name), prev_values);
        let free = initial_free_regs().take(REGISTER_COUNT - (n - 1));
        assert(prev.free_regs == free);
        assert(prev.next_reg() == constant_reg(n - 1));
        assert(b.free_regs =~= initial_free_regs().take(REGISTER_COUNT - n));
        assert(b.ops.len() == n);
        assert forall|i: int|
            0 <= i < n implies b.ops[i] == (Op::Constant {
                storage: ValueRef::Register(constant_reg(i)),
                value: values[i],
            }) by {
            if i < n - 1 {
                assert(prev_values[i] == values[i]);
            }
        }
        assert forall|i: int, j: int|
            0 <= i < n && 0 <= j < n && i != j implies constant_reg(i) != constant_reg(j) by {
            let s = initial_free_regs();
            assert(s[REGISTER_COUNT - 1 - i] != s[REGISTER_COUNT - 1 - j]);
        }
        assert(b.ops.drop_last() =~= prev.ops);
        assert(op_lines(b.ops.last(), in_frame) =~= seq![
            load_line(constant_reg(n - 1), values[n - 1]),
        ]);
        let before = load_lines(prev_values);
        let after = load_lines(values);
        assert(after =~= before.push(load_line(constant_reg(n - 1), values[n - 1])));
        assert(ops_lines(prev.ops, in_frame) =~= before);
        assert(ops_lines(b.ops, in_frame) == ops_lines(b.ops.drop_last(), in_frame) + op_lines(
            b.ops.last(),
            in_frame,
        ));
        assert(ops_lines(b.ops, in_frame) =~= after);
        assert(block_lines(b, in_frame) =~= seq![name + ":"@] + after);
    }
}

/// When as many constants as there are registers have been loaded into a new
/// block, no register is left: the next constant's builder call fails rather
/// than hand out a register that is in use.
pub proof fn lemma_registers_exhausted(name: Seq<char>, values: Seq<i64>)
    requires
        values.len() == REGISTER_COUNT,
    ensures
        with_constants(BlockModel::fresh(name), values).free_regs.len() == 0,
{
    lemma_constants_in_distinct_registers(name, values, false);
}

/// Whether `op` is one of the destructive arithmetic operations on `left` and
/// `right`.
pub open spec fn is_arithmetic(op: Op, left: ValueRef, right: ValueRef) -> bool {
    op == (Op::Add { left, right }) || op == (Op::Subtract { left, right }) || op == (
    Op::Multiply { left, right }) || op == (Op::Divide { left, right })
}

/// An arithmetic operation whose right operand is in register `r` gives `r`
/// back, so that it is the very next register handed out.
pub proof fn lemma_arithmetic_releases_right(
    b: BlockModel,
    op: Op,
    left: ValueRef,
    r: Register,
    value: i64,
)
    requires
        is_arithmetic(op, left, ValueRef::Register(r)),
    ensures
        ({
            let after = b.with_op_releasing(op, ValueRef::Register(r));
            &&& after.free_regs.len() > 0
            &&& after.next_reg() == r
            &&& after.with_constant(value).ops.last() == (Op::Constant {
                storage: ValueRef::Register(r),
                value,
            })
        }),
{
}

/// Addition, subtraction and multiplication lower to one destructive
/// instruction whose destination is the left operand's location.
pub proof fn lemma_arithmetic_writes_left(left: ValueRef, right: ValueRef, in_frame: bool)
    ensures
        op_lines(Op::Add { left, right }, in_frame) == seq![
            "\t"@ + "add"@ + " "@ + loc_text(left) + ", "@ + loc_text(right),
        ],
        op_lines(Op::Subtract { left, right }, in_frame) == seq![
            "\t"@ + "sub"@ + " "@ + loc_text(left) + ", "@ + loc_text(right),
        ],
        op_lines(Op::Multiply { left, right }, in_frame) == seq![
            "\t"@ + "imul"@ + " "@ + loc_text(left) + ", "@ + loc_text(right),
        ],
{
}

/// The lowering of a division saves rdx first and restores it last; when the
/// dividend has to be moved into rax, rax is saved right after rdx and
/// restored right before it, once the quotient has been moved back to the
/// dividend's location; otherwise rax is not touched but by the division.
pub proof fn lemma_divide_restores(left: ValueRef, right: ValueRef)
    ensures
        ({
            let lines = divide_lines(left, right);
            &&& lines[0] == "\tpush rdx"@
            &&& lines[1] == "\tmov rdx, 0"@
            &&& lines.last() == "\tpop rdx"@
            &&& dividend_moved(left) ==> {
                &&& lines.len() == 8
                &&& lines[2] == "\tpush rax"@
                &&& lines[3] == "\tmov rax, "@ + loc_text(left)
                &&& lines[4] == "\tidiv "@ + loc_text(right)
                &&& lines[5] == "\tmov "@ + loc_text(left) + ", rax"@
                &&& lines[6] == "\tpop rax"@
            }
            &&& !dividend_moved(left) ==> {
                &&& lines.len() == 4
                &&& lines[2] == "\tidiv "@ + loc_text(right)
            }
        }),
{
    if dividend_moved(left) {
        assert(divide_lines(left, right) =~= seq![
            "\tpush rdx"@,
            "\tmov rdx, 0"@,
            "\tpush rax"@,
            "\tmov rax, "@ + loc_text(left),
            "\tidiv "@ + loc_text(right),
            "\tmov "@ + loc_text(left) + ", rax"@,
            "\tpop rax"@,
            "\tpop rdx"@,
        ]);
    } else {
        assert(divide_lines(left, right) =~= seq![
            "\tpush rdx"@,
            "\tmov rdx, 0"@,
            "\tidiv "@ + loc_text(right),
            "\tpop rdx"@,
        ]);
    }
}

/// The lowering of an exit always puts the exit system call's number into rax
/// first and ends with the system call; the status is moved into rdi if and
/// only if it is not there already.
pub proof fn lemma_exit_lines(exit_code: ValueRef)
    ensures
        ({
            let lines = exit_lines(exit_code);
            &&& lines[0] == "\tmov rax, 60"@
            &&& lines.last() == "\tsyscall"@
            &&& exit_code == ValueRef::Register(Register::Rdi) ==> lines.len() == 2
            &&& exit_code != ValueRef::Register(Register::Rdi) ==> {
                &&& lines.len() == 3
                &&& lines[1] == "\tmov rdi, "@ + loc_text(exit_code)
            }
        }),
{
    if exit_code == ValueRef::Register(Register::Rdi) {
        assert(exit_lines(exit_code) =~= seq!["\tmov rax, 60"@, "\tsyscall"@]);
    } else {
        assert(exit_lines(exit_code) =~= seq![
            "\tmov rax, 60"@,
            "\tmov rdi, "@ + loc_text(exit_code),
            "\tsyscall"@,
        ]);
    }
}

/// A block's assembly is a function of its name and its instructions alone:
/// two blocks built with the same name by the same builder calls have the
/// same text, whatever their allocators hold.
pub proof fn lemma_text_deterministic(b1: BlockModel, b2: BlockModel, in_frame: bool)
    requires
        b1.name == b2.name,
        b1.ops == b2.ops,
    ensures
        lines_text(block_lines(b1, in_frame)) == lines_text(block_lines(b2, in_frame)),
{
}

} // verus!
