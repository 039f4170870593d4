use fig::{Block, Function, Module, Register, ValueRef};

fn block_text(block: &Block) -> String {
    let mut out = String::new();
    block.generate_code(&mut out);
    out
}

#[test]
fn location_operands() {
    assert_eq!(ValueRef::Register(Register::Rax).code(), "rax");
    assert_eq!(ValueRef::Register(Register::R10).code(), "r10");
    assert_eq!(ValueRef::Memory(8).code(), "[rbp-8]");
    assert_eq!(ValueRef::Memory(1024).code(), "[rbp-1024]");
    assert_eq!(ValueRef::Memory(0).code(), "[rbp-0]");
}

#[test]
fn register_names() {
    assert_eq!(Register::Rdi.name(), "rdi");
    assert_eq!(Register::R15.name(), "r15");
}

#[test]
fn constants_print_in_decimal() {
    let mut block = Block::new("c".to_string());
    block.build_constant(0).unwrap();
    block.build_constant(-42).unwrap();
    block.build_constant(i64::MAX).unwrap();
    block.build_constant(i64::MIN).unwrap();
    assert_eq!(
        block_text(&block),
        "c:\n\tmov r15, 0\n\tmov r14, -42\n\tmov r13, 9223372036854775807\n\tmov r12, -9223372036854775808\n"
    );
}

#[test]
fn binary_operations_are_destructive() {
    let mut block = Block::new("ops".to_string());
    let a = block.build_constant(1).unwrap();
    let b = block.build_constant(2).unwrap();
    block.build_add(a, b);
    let c = block.build_constant(3).unwrap();
    block.build_subtract(a, c);
    let d = block.build_constant(4).unwrap();
    block.build_multiply(a, d);
    assert_eq!(
        block_text(&block),
        "ops:\n\tmov r15, 1\n\tmov r14, 2\n\tadd r15, r14\n\tmov r14, 3\n\tsub r15, r14\n\tmov r14, 4\n\timul r15, r14\n"
    );
}

#[test]
fn divide_moves_dividend_through_rax() {
    let mut block = Block::new("d".to_string());
    let a = block.build_constant(9).unwrap();
    let b = block.build_constant(3).unwrap();
    assert_eq!(block.build_divide(a, b), a);
    assert_eq!(
        block_text(&block),
        "d:\n\tmov r15, 9\n\tmov r14, 3\n\tpush rdx\n\tmov rdx, 0\n\tpush rax\n\tmov rax, r15\n\tidiv r14\n\tmov r15, rax\n\tpop rax\n\tpop rdx\n"
    );
}

#[test]
fn divide_with_dividend_in_rax() {
    let mut block = Block::new("d".to_string());
    let a = ValueRef::Register(Register::Rax);
    let b = block.build_constant(3).unwrap();
    block.build_divide(a, b);
    assert_eq!(
        block_text(&block),
        "d:\n\tmov r15, 3\n\tpush rdx\n\tmov rdx, 0\n\tidiv r15\n\tpop rdx\n"
    );
}

#[test]
fn exit_moves_status_unless_in_rdi() {
    let mut block = Block::new("e".to_string());
    let a = block.build_constant(4).unwrap();
    block.build_exit(a);
    block.build_exit(ValueRef::Register(Register::Rdi));
    assert_eq!(
        block_text(&block),
        "e:\n\tmov r15, 4\n\tmov rax, 60\n\tmov rdi, r15\n\tsyscall\n\tmov rax, 60\n\tsyscall\n"
    );
}

#[test]
fn call_moves_argument_unless_in_rdi() {
    let mut block = Block::new("k".to_string());
    block.build_call("put_int".to_string(), Some(ValueRef::Memory(8)));
    block.build_call("put_int".to_string(), Some(ValueRef::Register(Register::Rdi)));
    block.build_call("flush".to_string(), None);
    assert_eq!(
        block_text(&block),
        "k:\n\tmov rdi, [rbp-8]\n\tcall put_int\n\tcall put_int\n\tcall flush\n"
    );
}

#[test]
fn jumps_and_stores() {
    let mut block = Block::new(".loop".to_string());
    let slot = block.build_alloc(8);
    let v = block.build_constant(10).unwrap();
    block.build_store(v, slot);
    block.build_jump_if_zero(slot, ".end".to_string());
    block.build_jump(".loop".to_string());
    assert_eq!(
        block_text(&block),
        ".loop:\n\tsub rsp, 8\n\tmov r15, 10\n\tmov [rbp-8], r15\n\tcmp QWORD [rbp-8], 0\n\tje .end\n\tjmp .loop\n"
    );
}

#[test]
fn function_reserves_its_frame_once() {
    let mut first = Block::new(".a".to_string());
    let x = first.build_alloc(8);
    let one = first.build_constant(1).unwrap();
    first.build_store(one, x);
    let mut second = Block::new(".b".to_string());
    second.build_alloc(8);
    second.build_alloc(8);
    let mut func = Function::new("f".to_string());
    func.append_block(&first);
    func.append_block(&second);
    assert_eq!(func.frame_size(), 16);
    let mut out = String::new();
    func.generate_code(&mut out);
    assert_eq!(
        out,
        "global f\nf:\n\tpush rbp\n\tmov rbp, rsp\n\tsub rsp, 16\n.a:\n\tmov r15, 1\n\tmov [rbp-8], r15\n.b:\n\tleave\n"
    );
}

#[test]
fn function_without_stack_reserves_nothing() {
    let mut only = Block::new(".only".to_string());
    let v = only.build_constant(3).unwrap();
    only.build_exit(v);
    let mut func = Function::new("g".to_string());
    func.append_block(&only);
    assert_eq!(func.frame_size(), 0);
    let mut out = String::new();
    func.generate_code(&mut out);
    assert_eq!(
        out,
        "global g\ng:\n\tpush rbp\n\tmov rbp, rsp\n.only:\n\tmov r15, 3\n\tmov rax, 60\n\tmov rdi, r15\n\tsyscall\n\tleave\n"
    );
}

#[test]
fn module_declares_each_outside_callee_once() {
    let mut a = Block::new(".a".to_string());
    a.build_call("put_int".to_string(), None);
    a.build_call("helper".to_string(), None);
    a.build_call("put_int".to_string(), None);
    let mut b = Block::new(".b".to_string());
    b.build_call("flush".to_string(), None);
    b.build_call("helper".to_string(), None);
    let mut helper_block = Block::new(".h".to_string());
    helper_block.build_call("flush".to_string(), None);
    let mut main = Function::new("main".to_string());
    main.append_block(&a);
    main.append_block(&b);
    let mut helper = Function::new("helper".to_string());
    helper.append_block(&helper_block);
    let mut module = Module::new();
    module.append_func(&main);
    module.append_func(&helper);
    let mut out = String::new();
    module.generate_code(&mut out);
    let header: Vec<&str> = out.lines().take(3).collect();
    assert_eq!(header, vec!["segment .text", "extern put_int", "extern flush"]);
    assert_eq!(out.matches("extern").count(), 2);
}

#[test]
fn empty_module_has_only_the_segment() {
    let module = Module::default();
    let mut out = String::new();
    module.generate_code(&mut out);
    assert_eq!(out, "segment .text\n");
}

#[test]
fn generate_code_appends() {
    let block = Block::new("x".to_string());
    let mut out = String::from("; head\n");
    block.generate_code(&mut out);
    assert_eq!(out, "; head\nx:\n");
}

#[test]
fn same_build_gives_same_text() {
    fn build() -> String {
        let mut block = Block::new("same".to_string());
        let slot = block.build_alloc(8);
        let a = block.build_constant(7).unwrap();
        let b = block.build_constant(-2).unwrap();
        let q = block.build_divide(a, b);
        block.build_store(q, slot);
        block.build_call("put_int".to_string(), Some(slot));
        block.build_exit(slot);
        let mut func = Function::new("_start".to_string());
        func.append_block(&block);
        let mut module = Module::new();
        module.append_func(&func);
        let mut out = String::new();
        module.generate_code(&mut out);
        out
    }
    let first = build();
    let second = build();
    assert!(!first.is_empty());
    assert_eq!(first, second);
}

#[test]
fn jump_targets_are_checked_against_labels() {
    let mut entry = Block::new("_start".to_string());
    let z = entry.build_constant(0).unwrap();
    entry.build_jump_if_zero(z, ".done".to_string());
    entry.build_jump(".missing".to_string());
    entry.build_jump(".other".to_string());
    let mut done = Block::new(".done".to_string());
    let code = done.build_constant(0).unwrap();
    done.build_exit(code);
    let mut module = Module::new();
    module.append_block(&entry);
    assert_eq!(module.undefined_label(), Some(".done".to_string()));
    module.append_block(&done);
    assert_eq!(module.undefined_label(), Some(".missing".to_string()));
}

#[test]
fn jumps_to_function_labels_resolve() {
    let mut body = Block::new(".body".to_string());
    body.build_jump(".body".to_string());
    body.build_jump("f".to_string());
    let mut func = Function::new("f".to_string());
    func.append_block(&body);
    let mut module = Module::new();
    assert_eq!(module.undefined_label(), None);
    module.append_func(&func);
    assert_eq!(module.undefined_label(), None);
}

#[test]
fn divide_and_exit_with_memory_operands() {
    let mut block = Block::new("m".to_string());
    let slot = block.build_alloc(8);
    let d = block.build_constant(2).unwrap();
    assert_eq!(block.build_divide(slot, d), slot);
    block.build_exit(slot);
    assert_eq!(
        block_text(&block),
        "m:\n\tsub rsp, 8\n\tmov r15, 2\n\tpush rdx\n\tmov rdx, 0\n\tpush rax\n\tmov rax, [rbp-8]\n\tidiv r15\n\tmov [rbp-8], rax\n\tpop rax\n\tpop rdx\n\tmov rax, 60\n\tmov rdi, [rbp-8]\n\tsyscall\n"
    );
}
