use fig::{Block, Function, Module};

fn module_text(module: &Module) -> String {
    let mut out = String::new();
    module.generate_code(&mut out);
    out
}

#[test]
fn add_then_exit_with_sum() {
    let mut entry = Block::new("_start".to_string());
    let a = entry.build_constant(15).unwrap();
    let b = entry.build_constant(5).unwrap();
    let sum = entry.build_add(a, b);
    entry.build_exit(sum);
    let mut module = Module::new();
    module.append_block(&entry);
    assert_eq!(
        module_text(&module),
        "segment .text\n_start:\n\tmov r15, 15\n\tmov r14, 5\n\tadd r15, r14\n\tmov rax, 60\n\tmov rdi, r15\n\tsyscall\n"
    );
}

#[test]
fn arithmetic_chain_then_exit() {
    let mut entry = Block::new("_start".to_string());
    let a = entry.build_constant(3).unwrap();
    let b = entry.build_constant(5).unwrap();
    let m = entry.build_multiply(a, b);
    let c = entry.build_constant(10).unwrap();
    let s = entry.build_add(m, c);
    let d = entry.build_constant(4).unwrap();
    let t = entry.build_subtract(s, d);
    let e = entry.build_constant(3).unwrap();
    let q = entry.build_divide(t, e);
    entry.build_exit(q);
    assert_eq!(((3 * 5 + 10 - 4) / 3) % 256, 7);
    let mut module = Module::new();
    module.append_block(&entry);
    assert_eq!(
        module_text(&module),
        "segment .text\n_start:\n\tmov r15, 3\n\tmov r14, 5\n\timul r15, r14\n\tmov r14, 10\n\tadd r15, r14\n\tmov r14, 4\n\tsub r15, r14\n\tmov r14, 3\n\tpush rdx\n\tmov rdx, 0\n\tpush rax\n\tmov rax, r15\n\tidiv r14\n\tmov r15, rax\n\tpop rax\n\tpop rdx\n\tmov rax, 60\n\tmov rdi, r15\n\tsyscall\n"
    );
}

#[test]
fn jump_if_zero_takes_the_branch() {
    let mut entry = Block::new("_start".to_string());
    let zero = entry.build_constant(0).unwrap();
    entry.build_jump_if_zero(zero, ".taken".to_string());
    let one = entry.build_constant(1).unwrap();
    entry.build_exit(one);
    let mut taken = Block::new(".taken".to_string());
    let ten = taken.build_constant(10).unwrap();
    taken.build_exit(ten);
    let mut module = Module::new();
    module.append_block(&entry);
    module.append_block(&taken);
    assert_eq!(
        module_text(&module),
        "segment .text\n_start:\n\tmov r15, 0\n\tcmp QWORD r15, 0\n\tje .taken\n\tmov r15, 1\n\tmov rax, 60\n\tmov rdi, r15\n\tsyscall\n.taken:\n\tmov r15, 10\n\tmov rax, 60\n\tmov rdi, r15\n\tsyscall\n"
    );
}

#[test]
fn countdown_program() {
    let mut entry = Block::new(".entry".to_string());
    let mut end = Block::new(".end".to_string());
    let exit_code = end.build_constant(0).unwrap();
    end.build_exit(exit_code);
    let var = entry.build_alloc(8);
    let val = entry.build_constant(10).unwrap();
    entry.build_store(val, var);
    let mut body = Block::new(".loop".to_string());
    body.build_call("put_int".to_string(), Some(var));
    let one = body.build_constant(1).unwrap();
    body.build_subtract(var, one);
    body.build_jump_if_zero(var, end.name.clone());
    body.build_jump(body.name.clone());
    let mut func = Function::new("_start".to_string());
    func.append_block(&entry);
    func.append_block(&body);
    func.append_block(&end);
    let mut module = Module::default();
    module.append_func(&func);
    assert_eq!(
        module_text(&module),
        "segment .text\nextern put_int\nglobal _start\n_start:\n\tpush rbp\n\tmov rbp, rsp\n\tsub rsp, 8\n.entry:\n\tmov r15, 10\n\tmov [rbp-8], r15\n.loop:\n\tmov rdi, [rbp-8]\n\tcall put_int\n\tmov r15, 1\n\tsub [rbp-8], r15\n\tcmp QWORD [rbp-8], 0\n\tje .end\n\tjmp .loop\n.end:\n\tmov r15, 0\n\tmov rax, 60\n\tmov rdi, r15\n\tsyscall\n\tleave\n"
    );
}
