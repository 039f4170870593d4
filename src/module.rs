//! Modules: the top level of an assembly file.
use vstd::prelude::*;
use crate::block::{Block, BlockModel};
use crate::function::{
    block_names, blocks_lines, blocks_names, collect_block_names, function_labels, function_lines,
    Function, FunctionModel,
};
use crate::instruction::NameUse;
use crate::text::{append_lines, lines_text, push_line, strs};

verus! {

/// A module as a mathematical value.
pub struct ModuleModel {
    /// Bare blocks, laid out without a frame.
    pub blocks: Seq<BlockModel>,
    /// Functions, each in its own frame.
    pub funcs: Seq<FunctionModel>,
}

/// The names of kind `kind` that a run of functions refers to, in order, once
/// per use.
pub open spec fn funcs_names(funcs: Seq<FunctionModel>, kind: NameUse) -> Seq<Seq<char>>
    decreases funcs.len(),
{
    if funcs.len() == 0 {
        Seq::empty()
    } else {
        funcs_names(funcs.drop_last(), kind) + blocks_names(funcs.last().blocks, kind)
    }
}

/// The lines of a run of functions.
pub open spec fn funcs_lines(funcs: Seq<FunctionModel>) -> Seq<Seq<char>>
    decreases funcs.len(),
{
    if funcs.len() == 0 {
        Seq::empty()
    } else {
        funcs_lines(funcs.drop_last()) + function_lines(funcs.last())
    }
}

/// The names of a run of functions.
pub open spec fn func_names(funcs: Seq<FunctionModel>) -> Seq<Seq<char>> {
    funcs.map_values(|f: FunctionModel| f.name)
}

/// The names of kind `kind` that a module refers to, in order, once per use.
pub open spec fn module_names(m: ModuleModel, kind: NameUse) -> Seq<Seq<char>> {
    blocks_names(m.blocks, kind) + funcs_names(m.funcs, kind)
}

/// The names among `called` that are not in `defined`, each once, in the
/// order of their first appearance.
pub open spec fn extern_names(called: Seq<Seq<char>>, defined: Seq<Seq<char>>) -> Seq<Seq<char>>
    decreases called.len(),
{
    if called.len() == 0 {
        Seq::empty()
    } else {
        let before = extern_names(called.drop_last(), defined);
        let name = called.last();
        if before.contains(name) || defined.contains(name) {
            before
        } else {
            before.push(name)
        }
    }
}

/// One `extern` declaration for each name.
pub open spec fn extern_lines(names: Seq<Seq<char>>) -> Seq<Seq<char>> {
    names.map_values(|n: Seq<char>| "extern "@ + n)
}

/// The lines of a module: the text segment's directive, an `extern`
/// declaration for each function called but not defined here, then the bare
/// blocks and the functions.
pub open spec fn module_lines(m: ModuleModel) -> Seq<Seq<char>> {
    seq!["segment .text"@] + extern_lines(extern_names(module_names(m, NameUse::Callee), func_names(m.funcs)))
        + blocks_lines(m.blocks, false) + funcs_lines(m.funcs)
}

/// The labels that a run of functions defines.
pub open spec fn funcs_labels(funcs: Seq<FunctionModel>) -> Seq<Seq<char>>
    decreases funcs.len(),
{
    if funcs.len() == 0 {
        Seq::empty()
    } else {
        funcs_labels(funcs.drop_last()) + function_labels(funcs.last())
    }
}

/// The labels that a module defines: those of its bare blocks, of its
/// functions and of their blocks.
pub open spec fn module_labels(m: ModuleModel) -> Seq<Seq<char>> {
    block_names(m.blocks) + funcs_labels(m.funcs)
}

/// Whether every jump of the module goes to a label that the module defines.
pub open spec fn labels_resolved(m: ModuleModel) -> bool {
    forall|i: int|
        0 <= i < module_names(m, NameUse::JumpTarget).len() ==> module_labels(m).contains(
            #[trigger] module_names(m, NameUse::JumpTarget)[i],
        )
}

/// Whether `v` holds `s`.
fn holds(v: &Vec<String>, s: &String) -> (r: bool)
    ensures
        r == strs(v@).contains(s@),
{
    let mut i: usize = 0;
    while i < v.len()
        invariant
            i <= v.len(),
            forall|j: int| 0 <= j < i ==> strs(v@)[j] != s@,
        decreases v.len() - i,
    {
        if v[i] == *s {
            assert(strs(v@)[i as int] == s@);
            return true;
        }
        i = i + 1;
    }
    false
}

/// The names among `called` that are not in `defined`, each once, in the
/// order of their first appearance.
fn collect_externs(called: &Vec<String>, defined: &Vec<String>) -> (r: Vec<String>)
    ensures
        strs(r@) == extern_names(strs(called@), strs(defined@)),
{
    let ghost c = strs(called@);
    let mut kept: Vec<String> = Vec::new();
    assert(strs(kept@) =~= extern_names(c.take(0), strs(defined@)));
    let mut i: usize = 0;
    while i < called.len()
        invariant
            i <= called.len(),
            c == strs(called@),
            strs(kept@) == extern_names(c.take(i as int), strs(defined@)),
        decreases called.len() - i,
    {
        proof {
            assert(c.take(i + 1).drop_last() =~= c.take(i as int));
            assert(c.take(i + 1).last() == called@[i as int]@);
        }
        if !holds(&kept, &called[i]) && !holds(defined, &called[i]) {
            push_line(&mut kept, called[i].clone());
        }
        i = i + 1;
    }
    assert(c.take(i as int) =~= c);
    kept
}

/// A module: either bare blocks, for a program whose entry point is a block,
/// or functions, each framed. It refers to them and does not own them. A
/// module that holds both lays out its bare blocks first.
#[derive(Debug, Default)]
pub struct Module<'a> {
    blocks: Vec<&'a Block>,
    funcs: Vec<&'a Function<'a>>,
}

impl<'a> View for Module<'a> {
    type V = ModuleModel;

    closed spec fn view(&self) -> ModuleModel {
        ModuleModel {
            blocks: self.blocks@.map_values(|b: &Block| b@),
            funcs: self.funcs@.map_values(|f: &Function| f@),
        }
    }
}

impl<'a> Module<'a> {
    /// An empty module.
    pub fn new() -> (r: Self)
        ensures
            r@ == (ModuleModel { blocks: Seq::empty(), funcs: Seq::empty() }),
    {
        let r = Module { blocks: Vec::new(), funcs: Vec::new() };
        assert(r@.blocks =~= Seq::<BlockModel>::empty());
        assert(r@.funcs =~= Seq::<FunctionModel>::empty());
        r
    }

    /// Appends the function `func`.
    pub fn append_func(&mut self, func: &'a Function<'a>)
        ensures
            final(self)@ == (ModuleModel { funcs: old(self)@.funcs.push(func@), ..old(self)@ }),
    {
        self.funcs.push(func);
        assert(self@.funcs =~= old(self)@.funcs.push(func@));
        assert(self@.blocks =~= old(self)@.blocks);
    }

    /// Appends the bare block `block`.
    pub fn append_block(&mut self, block: &'a Block)
        ensures
            final(self)@ == (ModuleModel { blocks: old(self)@.blocks.push(block@), ..old(self)@ }),
    {
        self.blocks.push(block);
        assert(self@.blocks =~= old(self)@.blocks.push(block@));
        assert(self@.funcs =~= old(self)@.funcs);
    }

    /// The names of kind `kind` that this module refers to, in order, once per
    /// use.
    fn names(&self, kind: NameUse) -> (r: Vec<String>)
        ensures
            strs(r@) == module_names(self@, kind),
    {
        let ghost blocks = self@.blocks;
        let ghost funcs = self@.funcs;
        let mut names: Vec<String> = Vec::new();
        assert(strs(names@) =~= blocks_names(blocks.take(0), kind));
        let mut i: usize = 0;
        while i < self.blocks.len()
            invariant
                i <= self.blocks.len(),
                blocks == self@.blocks,
                blocks.len() == self.blocks.len(),
                strs(names@) == blocks_names(blocks.take(i as int), kind),
            decreases self.blocks.len() - i,
        {
            self.blocks[i].collect_names(kind, &mut names);
            proof {
                assert(blocks.take(i + 1).drop_last() =~= blocks.take(i as int));
                assert(blocks[i as int] == self.blocks@[i as int]@);
            }
            i = i + 1;
        }
        assert(blocks.take(i as int) =~= blocks);
        let ghost mid = strs(names@);
        assert(mid =~= mid + funcs_names(funcs.take(0), kind));
        let mut k: usize = 0;
        while k < self.funcs.len()
            invariant
                k <= self.funcs.len(),
                funcs == self@.funcs,
                funcs.len() == self.funcs.len(),
                strs(names@) == mid + funcs_names(funcs.take(k as int), kind),
            decreases self.funcs.len() - k,
        {
            self.funcs[k].collect_names(kind, &mut names);
            proof {
                assert(funcs.take(k + 1).drop_last() =~= funcs.take(k as int));
                assert(funcs[k as int] == self.funcs@[k as int]@);
            }
            assert(strs(names@) =~= mid + funcs_names(funcs.take(k + 1), kind));
            k = k + 1;
        }
        assert(funcs.take(k as int) =~= funcs);
        names
    }

    /// The names of this module's functions.
    fn defined(&self) -> (r: Vec<String>)
        ensures
            strs(r@) == func_names(self@.funcs),
    {
        let ghost funcs = self@.funcs;
        let mut names: Vec<String> = Vec::new();
        let mut k: usize = 0;
        while k < self.funcs.len()
            invariant
                k <= self.funcs.len(),
                funcs == self@.funcs,
                funcs.len() == self.funcs.len(),
                strs(names@) == func_names(funcs.take(k as int)),
            decreases self.funcs.len() - k,
        {
            push_line(&mut names, self.funcs[k].name().clone());
            proof {
                assert(funcs[k as int] == self.funcs@[k as int]@);
            }
            assert(strs(names@) =~= func_names(funcs.take(k + 1)));
            k = k + 1;
        }
        assert(funcs.take(k as int) =~= funcs);
        names
    }

    /// The labels this module defines.
    fn labels(&self) -> (r: Vec<String>)
        ensures
            strs(r@) == module_labels(self@),
    {
        let ghost funcs = self@.funcs;
        let mut names: Vec<String> = Vec::new();
        collect_block_names(&self.blocks, &mut names);
        assert(strs(Seq::<String>::empty()) =~= Seq::<Seq<char>>::empty());
        let ghost mid = strs(names@);
        assert(mid =~= mid + funcs_labels(funcs.take(0)));
        let mut k: usize = 0;
        while k < self.funcs.len()
            invariant
                k <= self.funcs.len(),
                funcs == self@.funcs,
                funcs.len() == self.funcs.len(),
                strs(names@) == mid + funcs_labels(funcs.take(k as int)),
            decreases self.funcs.len() - k,
        {
            self.funcs[k].collect_labels(&mut names);
            proof {
                assert(funcs.take(k + 1).drop_last() =~= funcs.take(k as int));
                assert(funcs[k as int] == self.funcs@[k as int]@);
            }
            assert(strs(names@) =~= mid + funcs_labels(funcs.take(k + 1)));
            k = k + 1;
        }
        assert(funcs.take(k as int) =~= funcs);
        names
    }

    /// The first jump target, in the order of the assembly, that is not a
    /// label of this module; `None` when every jump goes to a label the module
    /// defines. The assembly itself is written whatever this returns.
    pub fn undefined_label(&self) -> (r: Option<String>)
        ensures
            r is None <==> labels_resolved(self@),
            r matches Some(l) ==> exists|i: int|
                0 <= i < module_names(self@, NameUse::JumpTarget).len()
                    && #[trigger] module_names(self@, NameUse::JumpTarget)[i] == l@
                    && !module_labels(self@).contains(l@) && forall|j: int|
                    0 <= j < i ==> module_labels(self@).contains(
                        #[trigger] module_names(self@, NameUse::JumpTarget)[j],
                    ),
    {
        let targets = self.names(NameUse::JumpTarget);
        let labels = self.labels();
        let ghost t = module_names(self@, NameUse::JumpTarget);
        let mut i: usize = 0;
        while i < targets.len()
            invariant
                i <= targets.len(),
                strs(targets@) == t,
                t == module_names(self@, NameUse::JumpTarget),
                strs(labels@) == module_labels(self@),
                forall|j: int| 0 <= j < i ==> module_labels(self@).contains(#[trigger] t[j]),
            decreases targets.len() - i,
        {
            if !holds(&labels, &targets[i]) {
                assert(t[i as int] == targets@[i as int]@);
                return Some(targets[i].clone());
            }
            i = i + 1;
        }
        None
    }

    /// Adds this module's lines to `lines`.
    pub fn lower(&self, lines: &mut Vec<String>)
        ensures
            strs(final(lines)@) == strs(old(lines)@) + module_lines(self@),
    {
        let ghost start = strs(lines@);
        let ghost blocks = self@.blocks;
        let ghost funcs = self@.funcs;
        push_line(lines, String::from_str("segment .text"));
        let externs = collect_externs(&self.names(NameUse::Callee), &self.defined());
        let ghost ext = strs(externs@);
        let ghost head = strs(lines@);
        let mut e: usize = 0;
        while e < externs.len()
            invariant
                e <= externs.len(),
                ext == strs(externs@),
                strs(lines@) == head + extern_lines(ext.take(e as int)),
            decreases externs.len() - e,
        {
            let mut decl = String::from_str("extern ");
            decl.append(externs[e].as_str());
            push_line(lines, decl);
            assert(extern_lines(ext.take(e + 1)) =~= extern_lines(ext.take(e as int)).push(
                "extern "@ + ext[e as int],
            ));
            e = e + 1;
        }
        assert(ext.take(e as int) =~= ext);
        let ghost mid = strs(lines@);
        assert(mid =~= mid + blocks_lines(blocks.take(0), false));
        let mut i: usize = 0;
        while i < self.blocks.len()
            invariant
                i <= self.blocks.len(),
                blocks == self@.blocks,
                blocks.len() == self.blocks.len(),
                strs(lines@) == mid + blocks_lines(blocks.take(i as int), false),
            decreases self.blocks.len() - i,
        {
            self.blocks[i].lower(false, lines);
            proof {
                assert(blocks.take(i + 1).drop_last() =~= blocks.take(i as int));
                assert(blocks[i as int] == self.blocks@[i as int]@);
            }
            assert(strs(lines@) =~= mid + blocks_lines(blocks.take(i + 1), false));
            i = i + 1;
        }
        assert(blocks.take(i as int) =~= blocks);
        let ghost tail = strs(lines@);
        assert(tail =~= tail + funcs_lines(funcs.take(0)));
        let mut k: usize = 0;
        while k < self.funcs.len()
            invariant
                k <= self.funcs.len(),
                funcs == self@.funcs,
                funcs.len() == self.funcs.len(),
                strs(lines@) == tail + funcs_lines(funcs.take(k as int)),
            decreases self.funcs.len() - k,
        {
            self.funcs[k].lower(lines);
            proof {
                assert(funcs.take(k + 1).drop_last() =~= funcs.take(k as int));
                assert(funcs[k as int] == self.funcs@[k as int]@);
            }
            assert(strs(lines@) =~= tail + funcs_lines(funcs.take(k + 1)));
            k = k + 1;
        }
        assert(funcs.take(k as int) =~= funcs);
        assert(strs(lines@) =~= start + module_lines(self@));
    }

    /// Appends this module's assembly to `out`.
    pub fn generate_code(&self, out: &mut String)
        ensures
            final(out)@ == old(out)@ + lines_text(module_lines(self@)),
    {
        let mut lines: Vec<String> = Vec::new();
        self.lower(&mut lines);
        assert(strs(Seq::<String>::empty()) =~= Seq::<Seq<char>>::empty());
        assert(strs(lines@) =~= module_lines(self@));
        append_lines(out, &lines);
    }
}

} // verus!
