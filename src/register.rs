//! General-purpose registers and the allocator that hands them out.
use vstd::prelude::*;

verus! {

/// The general-purpose registers that values may live in; the frame base
/// and stack pointer are not among them.
#[derive(Debug, Clone, Copy, PartialEq, Eq, Structural)]
pub enum Register {
    Rax,
    Rbx,
    Rcx,
    Rdx,
    Rsi,
    Rdi,
    R8,
    R9,
    R10,
    R11,
    R12,
    R13,
    R14,
    R15,
}

/// The assembly name of a register.
pub open spec fn reg_name(r: Register) -> Seq<char> {
    match r {
        Register::Rax => "rax"@,
        Register::Rbx => "rbx"@,
        Register::Rcx => "rcx"@,
        Register::Rdx => "rdx"@,
        Register::Rsi => "rsi"@,
        Register::Rdi => "rdi"@,
        Register::R8 => "r8"@,
        Register::R9 => "r9"@,
        Register::R10 => "r10"@,
        Register::R11 => "r11"@,
        Register::R12 => "r12"@,
        Register::R13 => "r13"@,
        Register::R14 => "r14"@,
        Register::R15 => "r15"@,
    }
}

impl Register {
    /// The assembly name of this register.
    pub fn name(self) -> (r: &'static str)
        ensures
            r@ == reg_name(self),
    {
        match self {
            Register::Rax => "rax",
            Register::Rbx => "rbx",
            Register::Rcx => "rcx",
            Register::Rdx => "rdx",
            Register::Rsi => "rsi",
            Register::Rdi => "rdi",
            Register::R8 => "r8",
            Register::R9 => "r9",
            Register::R10 => "r10",
            Register::R11 => "r11",
            Register::R12 => "r12",
            Register::R13 => "r13",
            Register::R14 => "r14",
            Register::R15 => "r15",
        }
    }
}

/// The number of registers that values may live in.
pub const REGISTER_COUNT: usize = 14;

/// The free list of a new allocator. Registers are taken from its end, so
/// they are handed out in the order r15, r14, ..., r8, rax, rbx, rcx, rdx,
/// rsi, rdi.
pub open spec fn initial_free_regs() -> Seq<Register> {
    seq![
        Register::Rdi,
        Register::Rsi,
        Register::Rdx,
        Register::Rcx,
        Register::Rbx,
        Register::Rax,
        Register::R8,
        Register::R9,
        Register::R10,
        Register::R11,
        Register::R12,
        Register::R13,
        Register::R14,
        Register::R15,
    ]
}

/// A register allocator: a last-in, first-out free list, so that the register
/// freed last is the next one handed out. It never spills: when the list is
/// empty, allocation fails.
#[derive(Debug)]
pub struct RegisterAlloc {
    free_regs: Vec<Register>,
}

impl View for RegisterAlloc {
    /// The free list; its last element is handed out next.
    type V = Seq<Register>;

    closed spec fn view(&self) -> Seq<Register> {
        self.free_regs@
    }
}

impl RegisterAlloc {
    /// A new allocator whose free list holds every register once.
    pub fn new() -> (r: Self)
        ensures
            r@ == initial_free_regs(),
    {
        let mut free_regs: Vec<Register> = Vec::new();
        free_regs.push(Register::Rdi);
        free_regs.push(Register::Rsi);
        free_regs.push(Register::Rdx);
        free_regs.push(Register::Rcx);
        free_regs.push(Register::Rbx);
        free_regs.push(Register::Rax);
        free_regs.push(Register::R8);
        free_regs.push(Register::R9);
        free_regs.push(Register::R10);
        free_regs.push(Register::R11);
        free_regs.push(Register::R12);
        free_regs.push(Register::R13);
        free_regs.push(Register::R14);
        free_regs.push(Register::R15);
        let r = RegisterAlloc { free_regs };
        assert(r@ =~= initial_free_regs());
        r
    }

    /// The number of free registers.
    pub fn free_count(&self) -> (r: usize)
        ensures
            r == self@.len(),
    {
        self.free_regs.len()
    }

    /// Takes the register at the end of the free list; `None` when no register
    /// is free.
    pub fn allocate(&mut self) -> (r: Option<Register>)
        ensures
            old(self)@.len() == 0 ==> r is None && final(self)@ == old(self)@,
            old(self)@.len() > 0 ==> r == Some(old(self)@.last()) && final(self)@ == old(
                self,
            )@.drop_last(),
    {
        self.free_regs.pop()
    }

    /// Gives `reg` back: it is the next register handed out.
    pub fn free(&mut self, reg: Register)
        ensures
            final(self)@ == old(self)@.push(reg),
    {
        self.free_regs.push(reg);
    }
}

} // verus!
