use fig::{Block, BuildError, Register, RegisterAlloc, StackAlloc, ValueRef};

#[test]
fn registers_come_in_documented_order() {
    let mut regs = RegisterAlloc::new();
    let expected = [
        Register::R15,
        Register::R14,
        Register::R13,
        Register::R12,
        Register::R11,
        Register::R10,
        Register::R9,
        Register::R8,
        Register::Rax,
        Register::Rbx,
        Register::Rcx,
        Register::Rdx,
        Register::Rsi,
        Register::Rdi,
    ];
    for reg in expected {
        assert_eq!(regs.allocate(), Some(reg));
    }
    assert_eq!(regs.allocate(), None);
}

#[test]
fn freed_register_is_next_allocated() {
    let mut regs = RegisterAlloc::new();
    let a = regs.allocate().unwrap();
    let b = regs.allocate().unwrap();
    regs.free(a);
    assert_eq!(regs.allocate(), Some(a));
    regs.free(b);
    regs.free(a);
    assert_eq!(regs.allocate(), Some(a));
    assert_eq!(regs.allocate(), Some(b));
    assert_eq!(regs.free_count(), 12);
}

#[test]
fn stack_offsets_only_grow() {
    let mut stack = StackAlloc::new();
    assert_eq!(stack.size(), 0);
    assert_eq!(stack.allocate(8), 8);
    assert_eq!(stack.allocate(16), 24);
    assert_eq!(stack.allocate(0), 24);
    assert_eq!(stack.allocate(4), 28);
    assert_eq!(stack.size(), 28);
}

#[test]
fn fourteen_constants_use_distinct_registers() {
    let mut block = Block::new("b".to_string());
    let mut seen: Vec<ValueRef> = Vec::new();
    for v in 0..14 {
        let loc = block.build_constant(v).unwrap();
        assert!(matches!(loc, ValueRef::Register(_)));
        assert!(!seen.contains(&loc));
        seen.push(loc);
    }
    assert_eq!(block.free_register_count(), 0);
    let mut out = String::new();
    block.generate_code(&mut out);
    let moves = out.lines().filter(|l| l.starts_with("\tmov ")).count();
    assert_eq!(moves, 14);
}

#[test]
fn fifteenth_live_constant_is_refused() {
    let mut block = Block::new("b".to_string());
    for v in 0..14 {
        assert!(block.build_constant(v).is_ok());
    }
    assert_eq!(block.build_constant(99), Err(BuildError::NoFreeRegister));
    let mut out = String::new();
    block.generate_code(&mut out);
    assert!(!out.contains("99"));
    assert_eq!(out.lines().count(), 15);
}

#[test]
fn arithmetic_returns_left_and_frees_right() {
    let mut block = Block::new("b".to_string());
    let a = block.build_constant(1).unwrap();
    let b = block.build_constant(2).unwrap();
    assert_eq!(block.build_add(a, b), a);
    assert_eq!(block.build_constant(3).unwrap(), b);
    let c = block.build_constant(4).unwrap();
    assert_eq!(block.build_subtract(a, c), a);
    assert_eq!(block.build_constant(5).unwrap(), c);
    let d = block.build_constant(6).unwrap();
    assert_eq!(block.build_multiply(a, d), a);
    assert_eq!(block.build_constant(7).unwrap(), d);
    let e = block.build_constant(8).unwrap();
    assert_eq!(block.build_divide(a, e), a);
    assert_eq!(block.build_constant(9).unwrap(), e);
}

#[test]
fn memory_right_operand_frees_nothing() {
    let mut block = Block::new("b".to_string());
    let slot = block.build_alloc(8);
    let a = block.build_constant(1).unwrap();
    let before = block.free_register_count();
    assert_eq!(block.build_add(a, slot), a);
    assert_eq!(block.free_register_count(), before);
}

#[test]
fn store_and_jump_if_zero_free_their_value() {
    let mut block = Block::new("b".to_string());
    let slot = block.build_alloc(8);
    let a = block.build_constant(1).unwrap();
    block.build_store(a, slot);
    assert_eq!(block.build_constant(2).unwrap(), a);
    block.build_jump_if_zero(a, "elsewhere".to_string());
    assert_eq!(block.build_constant(3).unwrap(), a);
}

#[test]
fn alloc_returns_growing_offsets() {
    let mut block = Block::new("b".to_string());
    assert_eq!(block.build_alloc(8), ValueRef::Memory(8));
    assert_eq!(block.build_alloc(16), ValueRef::Memory(24));
    assert_eq!(block.stack_size(), 24);
}
