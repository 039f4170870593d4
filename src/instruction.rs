//! The instructions of the intermediate representation and how each one is
//! lowered to assembly lines.
use vstd::prelude::*;
use crate::location::{loc_text, ValueRef};
use crate::register::Register;
use crate::text::{append_int, append_nat, int_text, nat_text, push_line, strs};

verus! {

/// An instruction of the intermediate representation.
#[derive(Debug)]
pub enum Instruction {
    /// Puts a constant into `storage`.
    Constant { storage: ValueRef, value: i64 },
    /// Reserves `size` bytes of stack.
    Alloc { size: usize },
    /// Copies `value` into `storage`.
    Store { value: ValueRef, storage: ValueRef },
    /// `left` becomes `left + right`.
    Add { left: ValueRef, right: ValueRef },
    /// `left` becomes `left - right`.
    Subtract { left: ValueRef, right: ValueRef },
    /// `left` becomes `left * right`.
    Multiply { left: ValueRef, right: ValueRef },
    /// `left` becomes `left / right`, truncated.
    Divide { left: ValueRef, right: ValueRef },
    /// Jumps to the block labelled `dest`.
    Jump { dest: String },
    /// Jumps to the block labelled `dest` when `value` is zero.
    JumpIfZero { value: ValueRef, dest: String },
    /// Calls `func`, with at most one argument.
    Call { func: String, arg: Option<ValueRef> },
    /// Ends the process with `exit_code` as its status.
    Exit { exit_code: ValueRef },
}

/// An instruction as a mathematical value: labels and names are texts.
pub enum Op {
    Constant { storage: ValueRef, value: i64 },
    Alloc { size: usize },
    Store { value: ValueRef, storage: ValueRef },
    Add { left: ValueRef, right: ValueRef },
    Subtract { left: ValueRef, right: ValueRef },
    Multiply { left: ValueRef, right: ValueRef },
    Divide { left: ValueRef, right: ValueRef },
    Jump { dest: Seq<char> },
    JumpIfZero { value: ValueRef, dest: Seq<char> },
    Call { func: Seq<char>, arg: Option<ValueRef> },
    Exit { exit_code: ValueRef },
}

impl View for Instruction {
    type V = Op;

    open spec fn view(&self) -> Op {
        match self {
            Instruction::Constant { storage, value } => Op::Constant {
                storage: *storage,
                value: *value,
            },
            Instruction::Alloc { size } => Op::Alloc { size: *size },
            Instruction::Store { value, storage } => Op::Store { value: *value, storage: *storage },
            Instruction::Add { left, right } => Op::Add { left: *left, right: *right },
            Instruction::Subtract { left, right } => Op::Subtract { left: *left, right: *right },
            Instruction::Multiply { left, right } => Op::Multiply { left: *left, right: *right },
            Instruction::Divide { left, right } => Op::Divide { left: *left, right: *right },
            Instruction::Jump { dest } => Op::Jump { dest: dest@ },
            Instruction::JumpIfZero { value, dest } => Op::JumpIfZero { value: *value, dest: dest@ },
            Instruction::Call { func, arg } => Op::Call { func: func@, arg: *arg },
            Instruction::Exit { exit_code } => Op::Exit { exit_code: *exit_code },
        }
    }
}

/// The destructive two-operand line `<mnemonic> left, right`.
pub open spec fn binary_line(mnemonic: Seq<char>, left: ValueRef, right: ValueRef) -> Seq<char> {
    "\t"@ + mnemonic + " "@ + loc_text(left) + ", "@ + loc_text(right)
}

/// A move of `src` into `dest`.
pub open spec fn mov_line(dest: Seq<char>, src: Seq<char>) -> Seq<char> {
    "\tmov "@ + dest + ", "@ + src
}

/// Whether the dividend has to be moved into rax, and the quotient back.
pub open spec fn dividend_moved(left: ValueRef) -> bool {
    left != ValueRef::Register(Register::Rax)
}

/// The lowering of a division: rdx is saved and zeroed; unless the dividend is
/// in rax already, rax is saved and the dividend moved there; `idiv` follows;
/// the quotient is moved back and rax restored if it was saved; rdx is restored
/// last.
pub open spec fn divide_lines(left: ValueRef, right: ValueRef) -> Seq<Seq<char>> {
    let moved = dividend_moved(left);
    seq!["\tpush rdx"@, "\tmov rdx, 0"@] + (if moved {
        seq!["\tpush rax"@, "\tmov rax, "@ + loc_text(left)]
    } else {
        Seq::empty()
    }) + seq!["\tidiv "@ + loc_text(right)] + (if moved {
        seq!["\tmov "@ + loc_text(left) + ", rax"@, "\tpop rax"@]
    } else {
        Seq::empty()
    }) + seq!["\tpop rdx"@]
}

/// The lowering of a call: the argument, if any, is moved into rdi unless it
/// is there already, then `func` is called.
pub open spec fn call_lines(func: Seq<char>, arg: Option<ValueRef>) -> Seq<Seq<char>> {
    match arg {
        Some(a) => if a != ValueRef::Register(Register::Rdi) {
            seq!["\tmov rdi, "@ + loc_text(a), "\tcall "@ + func]
        } else {
            seq!["\tcall "@ + func]
        },
        None => seq!["\tcall "@ + func],
    }
}

/// The lowering of an exit: the exit system call's number goes into rax, the
/// status into rdi unless it is there already, then the system call.
pub open spec fn exit_lines(exit_code: ValueRef) -> Seq<Seq<char>> {
    seq!["\tmov rax, 60"@] + (if exit_code != ValueRef::Register(Register::Rdi) {
        seq!["\tmov rdi, "@ + loc_text(exit_code)]
    } else {
        Seq::empty()
    }) + seq!["\tsyscall"@]
}

/// The assembly lines of one instruction. Inside a function (`in_frame`) a
/// stack reservation emits nothing, since the function reserves its whole
/// frame on entry; in a bare block it moves the stack pointer itself.
pub open spec fn op_lines(op: Op, in_frame: bool) -> Seq<Seq<char>> {
    match op {
        Op::Constant { storage, value } => seq![mov_line(loc_text(storage), int_text(value as int))],
        Op::Alloc { size } => if in_frame {
            Seq::empty()
        } else {
            seq!["\tsub rsp, "@ + nat_text(size as nat)]
        },
        Op::Store { value, storage } => seq![mov_line(loc_text(storage), loc_text(value))],
        Op::Add { left, right } => seq![binary_line("add"@, left, right)],
        Op::Subtract { left, right } => seq![binary_line("sub"@, left, right)],
        Op::Multiply { left, right } => seq![binary_line("imul"@, left, right)],
        Op::Divide { left, right } => divide_lines(left, right),
        Op::Jump { dest } => seq!["\tjmp "@ + dest],
        Op::JumpIfZero { value, dest } => seq![
            "\tcmp QWORD "@ + loc_text(value) + ", 0"@,
            "\tje "@ + dest,
        ],
        Op::Call { func, arg } => call_lines(func, arg),
        Op::Exit { exit_code } => exit_lines(exit_code),
    }
}

/// The two kinds of name that instructions refer to.
#[derive(Debug, Clone, Copy, PartialEq, Eq, Structural)]
pub enum NameUse {
    /// The name of a called function.
    Callee,
    /// The label of a block jumped to.
    JumpTarget,
}

/// The names of kind `kind` that `op` refers to.
pub open spec fn op_names(op: Op, kind: NameUse) -> Seq<Seq<char>> {
    match op {
        Op::Call { func, arg: _ } => if kind == NameUse::Callee {
            seq![func]
        } else {
            Seq::empty()
        },
        Op::Jump { dest } => if kind == NameUse::JumpTarget {
            seq![dest]
        } else {
            Seq::empty()
        },
        Op::JumpIfZero { value: _, dest } => if kind == NameUse::JumpTarget {
            seq![dest]
        } else {
            Seq::empty()
        },
        _ => Seq::empty(),
    }
}

/// A line that is `text` alone.
fn fixed_line(text: &str) -> (r: String)
    ensures
        r@ == text@,
{
    String::from_str(text)
}

/// The line `\tmov <dest>, <src>` for two locations.
fn mov_loc_line(dest: ValueRef, src: ValueRef) -> (r: String)
    ensures
        r@ == mov_line(loc_text(dest), loc_text(src)),
{
    let mut s = String::from_str("\tmov ");
    dest.append_code(&mut s);
    s.append(", ");
    src.append_code(&mut s);
    s
}

/// The line `\t<mnemonic> <left>, <right>`.
fn binary_code(mnemonic: &str, left: ValueRef, right: ValueRef) -> (r: String)
    ensures
        r@ == binary_line(mnemonic@, left, right),
{
    let mut s = String::from_str("\t");
    s.append(mnemonic);
    s.append(" ");
    left.append_code(&mut s);
    s.append(", ");
    right.append_code(&mut s);
    s
}

/// A line that is `prefix` followed by a location.
fn prefixed_loc_line(prefix: &str, loc: ValueRef) -> (r: String)
    ensures
        r@ == prefix@ + loc_text(loc),
{
    let mut s = String::from_str(prefix);
    loc.append_code(&mut s);
    s
}

/// A line that is `prefix` followed by a label or name.
fn prefixed_name_line(prefix: &str, name: &String) -> (r: String)
    ensures
        r@ == prefix@ + name@,
{
    let mut s = String::from_str(prefix);
    s.append(name.as_str());
    s
}

impl Instruction {
    /// Adds the names of kind `kind` that this instruction refers to to `names`.
    pub fn collect_names(&self, kind: NameUse, names: &mut Vec<String>)
        ensures
            strs(final(names)@) == strs(old(names)@) + op_names(self@, kind),
    {
        let ghost start = strs(names@);
        match self {
            Instruction::Call { func, arg: _ } => {
                if kind == NameUse::Callee {
                    push_line(names, func.clone());
                }
            },
            Instruction::Jump { dest } => {
                if kind == NameUse::JumpTarget {
                    push_line(names, dest.clone());
                }
            },
            Instruction::JumpIfZero { value: _, dest } => {
                if kind == NameUse::JumpTarget {
                    push_line(names, dest.clone());
                }
            },
            _ => {},
        }
        assert(strs(names@) =~= start + op_names(self@, kind));
    }

    /// Adds the assembly lines of this instruction to `lines`.
    pub fn lower(&self, in_frame: bool, lines: &mut Vec<String>)
        ensures
            strs(final(lines)@) == strs(old(lines)@) + op_lines(self@, in_frame),
    {
        let ghost start = strs(lines@);
        match self {
            Instruction::Constant { storage, value } => {
                let mut s = String::from_str("\tmov ");
                storage.append_code(&mut s);
                s.append(", ");
                append_int(&mut s, *value);
                push_line(lines, s);
            },
            Instruction::Alloc { size } => {
                if !in_frame {
                    let mut s = String::from_str("\tsub rsp, ");
                    append_nat(&mut s, *size as u64);
                    push_line(lines, s);
                }
            },
            Instruction::Store { value, storage } => {
                push_line(lines, mov_loc_line(*storage, *value));
            },
            Instruction::Add { left, right } => {
                push_line(lines, binary_code("add", *left, *right));
            },
            Instruction::Subtract { left, right } => {
                push_line(lines, binary_code("sub", *left, *right));
            },
            Instruction::Multiply { left, right } => {
                push_line(lines, binary_code("imul", *left, *right));
            },
            Instruction::Divide { left, right } => {
                let moved = *left != ValueRef::Register(Register::Rax);
                push_line(lines, fixed_line("\tpush rdx"));
                push_line(lines, fixed_line("\tmov rdx, 0"));
                if moved {
                    push_line(lines, fixed_line("\tpush rax"));
                    push_line(lines, prefixed_loc_line("\tmov rax, ", *left));
                }
                push_line(lines, prefixed_loc_line("\tidiv ", *right));
                if moved {
                    let mut s = String::from_str("\tmov ");
                    left.append_code(&mut s);
                    s.append(", rax");
                    push_line(lines, s);
                    push_line(lines, fixed_line("\tpop rax"));
                }
                push_line(lines, fixed_line("\tpop rdx"));
                assert(strs(lines@) =~= start + divide_lines(*left, *right));
            },
            Instruction::Jump { dest } => {
                push_line(lines, prefixed_name_line("\tjmp ", dest));
            },
            Instruction::JumpIfZero { value, dest } => {
                let mut s = String::from_str("\tcmp QWORD ");
                value.append_code(&mut s);
                s.append(", 0");
                push_line(lines, s);
                push_line(lines, prefixed_name_line("\tje ", dest));
            },
            Instruction::Call { func, arg } => {
                match arg {
                    Some(a) => {
                        if *a != ValueRef::Register(Register::Rdi) {
                            push_line(lines, prefixed_loc_line("\tmov rdi, ", *a));
                        }
                    },
                    None => {},
                }
                push_line(lines, prefixed_name_line("\tcall ", func));
                assert(strs(lines@) =~= start + call_lines(func@, *arg));
            },
            Instruction::Exit { exit_code } => {
                push_line(lines, fixed_line("\tmov rax, 60"));
                if *exit_code != ValueRef::Register(Register::Rdi) {
                    push_line(lines, prefixed_loc_line("\tmov rdi, ", *exit_code));
                }
                push_line(lines, fixed_line("\tsyscall"));
                assert(strs(lines@) =~= start + exit_lines(*exit_code));
            },
        }
        assert(strs(lines@) =~= start + op_lines(self@, in_frame));
    }
}

} // verus!
