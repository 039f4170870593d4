//! Blocks: named runs of instructions, with the builder that appends to them
//! and their lowering.
use vstd::prelude::*;
use crate::instruction::{op_lines, op_names, Instruction, NameUse, Op};
use crate::location::ValueRef;
use crate::register::{initial_free_regs, Register, RegisterAlloc};
use crate::stack::StackAlloc;
use crate::text::{append_lines, lines_text, push_line, strs};

verus! {

/// Why a builder call could not append its instruction.
#[derive(Debug, Clone, Copy, PartialEq, Eq, Structural)]
pub enum BuildError {
    /// Every register holds a live value: there is no spilling to memory.
    NoFreeRegister,
}

/// A block as a mathematical value.
pub struct BlockModel {
    /// The block's label.
    pub name: Seq<char>,
    /// Its instructions, in execution order.
    pub ops: Seq<Op>,
    /// Its register allocator's free list; the last register is handed out next.
    pub free_regs: Seq<Register>,
    /// The bytes of stack its instructions have reserved.
    pub stack_size: nat,
}

/// `free` after the register of `loc`, if it is one, has been given back.
pub open spec fn released(free: Seq<Register>, loc: ValueRef) -> Seq<Register> {
    match loc {
        ValueRef::Register(r) => free.push(r),
        ValueRef::Memory(_) => free,
    }
}

impl BlockModel {
    /// A new block named `name`: no instructions, every register free.
    pub open spec fn fresh(name: Seq<char>) -> BlockModel {
        BlockModel { name, ops: Seq::empty(), free_regs: initial_free_regs(), stack_size: 0 }
    }

    /// `op` appended, nothing else changed.
    pub open spec fn with_op(self, op: Op) -> BlockModel {
        BlockModel { ops: self.ops.push(op), ..self }
    }

    /// `op` appended, and the register of `loc`, if it is one, given back.
    pub open spec fn with_op_releasing(self, op: Op, loc: ValueRef) -> BlockModel {
        BlockModel { ops: self.ops.push(op), free_regs: released(self.free_regs, loc), ..self }
    }

    /// The register that the next constant goes into.
    pub open spec fn next_reg(self) -> Register {
        self.free_regs.last()
    }

    /// A constant appended: it goes into the register at the end of the free
    /// list, which is taken off the list.
    pub open spec fn with_constant(self, value: i64) -> BlockModel {
        BlockModel {
            ops: self.ops.push(Op::Constant { storage: ValueRef::Register(self.next_reg()), value }),
            free_regs: self.free_regs.drop_last(),
            ..self
        }
    }

    /// A stack reservation of `size` bytes appended.
    pub open spec fn with_alloc(self, size: usize) -> BlockModel {
        BlockModel {
            ops: self.ops.push(Op::Alloc { size }),
            stack_size: self.stack_size + size as nat,
            ..self
        }
    }
}

/// The lines of a run of instructions.
pub open spec fn ops_lines(ops: Seq<Op>, in_frame: bool) -> Seq<Seq<char>>
    decreases ops.len(),
{
    if ops.len() == 0 {
        Seq::empty()
    } else {
        ops_lines(ops.drop_last(), in_frame) + op_lines(ops.last(), in_frame)
    }
}

/// The lines of a block: its label, then its instructions' lines.
pub open spec fn block_lines(b: BlockModel, in_frame: bool) -> Seq<Seq<char>> {
    seq![b.name + ":"@] + ops_lines(b.ops, in_frame)
}

/// The names of kind `kind` that a run of instructions refers to, in order,
/// once per use.
pub open spec fn ops_names(ops: Seq<Op>, kind: NameUse) -> Seq<Seq<char>>
    decreases ops.len(),
{
    if ops.len() == 0 {
        Seq::empty()
    } else {
        ops_names(ops.drop_last(), kind) + op_names(ops.last(), kind)
    }
}

/// A named run of instructions, with the register and stack allocators that
/// its builder calls use. The name is the block's label in the assembly.
#[derive(Debug)]
pub struct Block {
    /// The block's label.
    pub name: String,
    instructions: Vec<Instruction>,
    registers: RegisterAlloc,
    stack: StackAlloc,
}

impl View for Block {
    type V = BlockModel;

    closed spec fn view(&self) -> BlockModel {
        BlockModel {
            name: self.name@,
            ops: self.instructions@.map_values(|i: Instruction| i@),
            free_regs: self.registers@,
            stack_size: self.stack@,
        }
    }
}

impl Block {
    /// A new, empty block named `name`.
    pub fn new(name: String) -> (r: Self)
        ensures
            r@ == BlockModel::fresh(name@),
    {
        let r = Block {
            name,
            instructions: Vec::new(),
            registers: RegisterAlloc::new(),
            stack: StackAlloc::new(),
        };
        assert(r@.ops =~= Seq::<Op>::empty());
        r
    }

    /// The block's label.
    pub fn label(&self) -> (r: &String)
        ensures
            r@ == self@.name,
    {
        &self.name
    }

    /// The bytes of stack this block's instructions have reserved.
    pub fn stack_size(&self) -> (r: usize)
        ensures
            r == self@.stack_size,
    {
        self.stack.size()
    }

    /// The number of registers still free.
    pub fn free_register_count(&self) -> (r: usize)
        ensures
            r == self@.free_regs.len(),
    {
        self.registers.free_count()
    }

    fn push_instruction(&mut self, instruction: Instruction)
        ensures
            final(self)@ == old(self)@.with_op(instruction@),
    {
        self.instructions.push(instruction);
        assert(self@.ops =~= old(self)@.ops.push(instruction@));
    }

    fn release(&mut self, loc: ValueRef)
        ensures
            final(self)@ == (BlockModel { free_regs: released(old(self)@.free_regs, loc), ..old(self)@ }),
    {
        if let ValueRef::Register(reg) = loc {
            self.registers.free(reg);
        }
    }

    /// Appends a constant, put into a newly allocated register, and returns
    /// that register's location. Fails, changing nothing, when no register is
    /// free.
    pub fn build_constant(&mut self, value: i64) -> (r: Result<ValueRef, BuildError>)
        ensures
            r is Ok <==> old(self)@.free_regs.len() > 0,
            r is Ok ==> r == Ok::<ValueRef, BuildError>(ValueRef::Register(old(self)@.next_reg()))
                && final(self)@ == old(self)@.with_constant(value),
            r is Err ==> r == Err::<ValueRef, BuildError>(BuildError::NoFreeRegister) && final(self)@
                == old(self)@,
    {
        match self.registers.allocate() {
            Some(reg) => {
                let storage = ValueRef::Register(reg);
                self.push_instruction(Instruction::Constant { storage, value });
                Ok(storage)
            },
            None => Err(BuildError::NoFreeRegister),
        }
    }

    /// Appends a reservation of `size` bytes of stack and returns the location
    /// of the reserved space.
    pub fn build_alloc(&mut self, size: usize) -> (r: ValueRef)
        requires
            old(self)@.stack_size + size <= usize::MAX,
        ensures
            r == ValueRef::Memory((old(self)@.stack_size + size) as usize),
            final(self)@ == old(self)@.with_alloc(size),
    {
        self.push_instruction(Instruction::Alloc { size });
        ValueRef::Memory(self.stack.allocate(size))
    }

    /// Appends a store of `value` into `storage`; the register of `value`, if
    /// it is one, is given back.
    pub fn build_store(&mut self, value: ValueRef, storage: ValueRef)
        ensures
            final(self)@ == old(self)@.with_op_releasing(Op::Store { value, storage }, value),
    {
        self.push_instruction(Instruction::Store { value, storage });
        self.release(value);
    }

    /// Appends `left += right`; the register of `right`, if it is one, is given
    /// back. The result is in `left`.
    pub fn build_add(&mut self, left: ValueRef, right: ValueRef) -> (r: ValueRef)
        ensures
            r == left,
            final(self)@ == old(self)@.with_op_releasing(Op::Add { left, right }, right),
    {
        self.push_instruction(Instruction::Add { left, right });
        self.release(right);
        left
    }

    /// Appends `left -= right`; the register of `right`, if it is one, is given
    /// back. The result is in `left`.
    pub fn build_subtract(&mut self, left: ValueRef, right: ValueRef) -> (r: ValueRef)
        ensures
            r == left,
            final(self)@ == old(self)@.with_op_releasing(Op::Subtract { left, right }, right),
    {
        self.push_instruction(Instruction::Subtract { left, right });
        self.release(right);
        left
    }

    /// Appends `left *= right`; the register of `right`, if it is one, is given
    /// back. The result is in `left`.
    pub fn build_multiply(&mut self, left: ValueRef, right: ValueRef) -> (r: ValueRef)
        ensures
            r == left,
            final(self)@ == old(self)@.with_op_releasing(Op::Multiply { left, right }, right),
    {
        self.push_instruction(Instruction::Multiply { left, right });
        self.release(right);
        left
    }

    /// Appends `left /= right`; the register of `right`, if it is one, is given
    /// back. The result is in `left`.
    pub fn build_divide(&mut self, left: ValueRef, right: ValueRef) -> (r: ValueRef)
        ensures
            r == left,
            final(self)@ == old(self)@.with_op_releasing(Op::Divide { left, right }, right),
    {
        self.push_instruction(Instruction::Divide { left, right });
        self.release(right);
        left
    }

    /// Appends a jump to the block labelled `dest`.
    pub fn build_jump(&mut self, dest: String)
        ensures
            final(self)@ == old(self)@.with_op(Op::Jump { dest: dest@ }),
    {
        self.push_instruction(Instruction::Jump { dest });
    }

    /// Appends a jump to the block labelled `dest`, taken when `value` is
    /// zero; the register of `value`, if it is one, is given back.
    pub fn build_jump_if_zero(&mut self, value: ValueRef, dest: String)
        ensures
            final(self)@ == old(self)@.with_op_releasing(
                Op::JumpIfZero { value, dest: dest@ },
                value,
            ),
    {
        self.push_instruction(Instruction::JumpIfZero { value, dest });
        self.release(value);
    }

    /// Appends a call of `func`, with `arg` as its argument if there is one.
    pub fn build_call(&mut self, func: String, arg: Option<ValueRef>)
        ensures
            final(self)@ == old(self)@.with_op(Op::Call { func: func@, arg }),
    {
        self.push_instruction(Instruction::Call { func, arg });
    }

    /// Appends the end of the process, with `exit_code` as its status.
    pub fn build_exit(&mut self, exit_code: ValueRef)
        ensures
            final(self)@ == old(self)@.with_op(Op::Exit { exit_code }),
    {
        self.push_instruction(Instruction::Exit { exit_code });
    }

    /// Adds this block's lines to `lines`: its label, then the lines of each
    /// instruction in order.
    pub fn lower(&self, in_frame: bool, lines: &mut Vec<String>)
        ensures
            strs(final(lines)@) == strs(old(lines)@) + block_lines(self@, in_frame),
    {
        let mut label = self.name.clone();
        label.append(":");
        push_line(lines, label);
        let ghost ops = self@.ops;
        let ghost start = strs(lines@);
        let mut i: usize = 0;
        while i < self.instructions.len()
            invariant
                i <= self.instructions.len(),
                ops == self@.ops,
                ops.len() == self.instructions.len(),
                strs(lines@) == start + ops_lines(ops.take(i as int), in_frame),
            decreases self.instructions.len() - i,
        {
            self.instructions[i].lower(in_frame, lines);
            proof {
                assert(ops.take(i + 1).drop_last() =~= ops.take(i as int));
                assert(ops[i as int] == self.instructions@[i as int]@);
            }
            assert(strs(lines@) =~= start + ops_lines(ops.take(i + 1), in_frame));
            i = i + 1;
        }
        assert(ops.take(i as int) =~= ops);
        assert(strs(lines@) =~= strs(old(lines)@) + block_lines(self@, in_frame));
    }

    /// Adds the names of kind `kind` that this block's instructions refer to
    /// to `names`, in order, once per use.
    pub fn collect_names(&self, kind: NameUse, names: &mut Vec<String>)
        ensures
            strs(final(names)@) == strs(old(names)@) + ops_names(self@.ops, kind),
    {
        let ghost ops = self@.ops;
        let ghost start = strs(names@);
        let mut i: usize = 0;
        while i < self.instructions.len()
            invariant
                i <= self.instructions.len(),
                ops == self@.ops,
                ops.len() == self.instructions.len(),
                strs(names@) == start + ops_names(ops.take(i as int), kind),
            decreases self.instructions.len() - i,
        {
            self.instructions[i].collect_names(kind, names);
            proof {
                assert(ops.take(i + 1).drop_last() =~= ops.take(i as int));
                assert(ops[i as int] == self.instructions@[i as int]@);
            }
            assert(strs(names@) =~= start + ops_names(ops.take(i + 1), kind));
            i = i + 1;
        }
        assert(ops.take(i as int) =~= ops);
    }

    /// Appends this block's assembly to `out`, as a bare block: each stack
    /// reservation moves the stack pointer itself.
    pub fn generate_code(&self, out: &mut String)
        ensures
            final(out)@ == old(out)@ + lines_text(block_lines(self@, false)),
    {
        let mut lines: Vec<String> = Vec::new();
        self.lower(false, &mut lines);
        assert(strs(Seq::<String>::empty()) =~= Seq::<Seq<char>>::empty());
        assert(strs(lines@) =~= block_lines(self@, false));
        append_lines(out, &lines);
    }
}

} // verus!
