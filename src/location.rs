//! Where a value lives: a register or a slot in the stack frame.
use vstd::prelude::*;
use std::borrow::Cow;
use crate::register::{reg_name, Register};
use crate::text::{append_nat, nat_text};

verus! {

/// The location of a value made by an instruction.
#[derive(Debug, Clone, Copy, PartialEq, Eq, Structural)]
pub enum ValueRef {
    /// The value is in a register.
    Register(Register),
    /// The value is in the frame, this many bytes below the frame base.
    Memory(usize),
}

/// A location as an assembly operand: the register's name, or `[rbp-<offset>]`.
pub open spec fn loc_text(v: ValueRef) -> Seq<char> {
    match v {
        ValueRef::Register(r) => reg_name(r),
        ValueRef::Memory(off) => "[rbp-"@ + nat_text(off as nat) + "]"@,
    }
}

impl ValueRef {
    /// This location as an assembly operand.
    pub fn code(self) -> (r: Cow<'static, str>)
        ensures
            r@ == loc_text(self),
    {
        match self {
            ValueRef::Register(reg) => Cow::Borrowed(reg.name()),
            ValueRef::Memory(_) => {
                let mut s = String::new();
                self.append_code(&mut s);
                assert(s@ =~= loc_text(self));
                Cow::Owned(s)
            },
        }
    }

    /// Appends this location, as an assembly operand, to `out`.
    pub fn append_code(self, out: &mut String)
        ensures
            final(out)@ == old(out)@ + loc_text(self),
    {
        match self {
            ValueRef::Register(reg) => {
                out.append(reg.name());
            },
            ValueRef::Memory(off) => {
                out.append("[rbp-");
                append_nat(out, off as u64);
                out.append("]");
            },
        }
        assert(out@ =~= old(out)@ + loc_text(self));
    }
}

} // verus!
