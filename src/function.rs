//! Functions, which frame a run of blocks, and modules, which put blocks or
//! functions in one assembly file.
use vstd::prelude::*;
use crate::block::{block_lines, ops_names, Block, BlockModel};
use crate::instruction::NameUse;
use crate::text::{append_lines, append_nat, lines_text, nat_text, push_line, strs};

verus! {

/// A function as a mathematical value.
pub struct FunctionModel {
    /// The function's exported name and label.
    pub name: Seq<char>,
    /// Its blocks, in the order they are laid out.
    pub blocks: Seq<BlockModel>,
}

/// The lines of a run of blocks.
pub open spec fn blocks_lines(blocks: Seq<BlockModel>, in_frame: bool) -> Seq<Seq<char>>
    decreases blocks.len(),
{
    if blocks.len() == 0 {
        Seq::empty()
    } else {
        blocks_lines(blocks.drop_last(), in_frame) + block_lines(blocks.last(), in_frame)
    }
}

/// The frame that a run of blocks needs: every block counts its slots from the
/// frame base, so the frame is as deep as the deepest block's reservations.
pub open spec fn frame_size(blocks: Seq<BlockModel>) -> nat
    decreases blocks.len(),
{
    if blocks.len() == 0 {
        0
    } else {
        let rest = frame_size(blocks.drop_last());
        if blocks.last().stack_size > rest {
            blocks.last().stack_size
        } else {
            rest
        }
    }
}

/// The lines that open a function's frame: its name is exported and labelled,
/// the frame base is saved and set, and the whole frame is reserved at once.
pub open spec fn prologue_lines(name: Seq<char>, frame: nat) -> Seq<Seq<char>> {
    seq!["global "@ + name, name + ":"@, "\tpush rbp"@, "\tmov rbp, rsp"@] + (if frame > 0 {
        seq!["\tsub rsp, "@ + nat_text(frame)]
    } else {
        Seq::empty()
    })
}

/// The lines of a function: its prologue, its blocks inside the frame, and the
/// frame's teardown. No return is added.
pub open spec fn function_lines(f: FunctionModel) -> Seq<Seq<char>> {
    prologue_lines(f.name, frame_size(f.blocks)) + blocks_lines(f.blocks, true) + seq![
        "\tleave"@,
    ]
}

/// The names of kind `kind` that a run of blocks refers to, in order, once
/// per use.
pub open spec fn blocks_names(blocks: Seq<BlockModel>, kind: NameUse) -> Seq<Seq<char>>
    decreases blocks.len(),
{
    if blocks.len() == 0 {
        Seq::empty()
    } else {
        blocks_names(blocks.drop_last(), kind) + ops_names(blocks.last().ops, kind)
    }
}

/// The labels of a run of blocks.
pub open spec fn block_names(blocks: Seq<BlockModel>) -> Seq<Seq<char>> {
    blocks.map_values(|b: BlockModel| b.name)
}

/// The labels that a function defines: its own name, then its blocks' labels.
pub open spec fn function_labels(f: FunctionModel) -> Seq<Seq<char>> {
    seq![f.name] + block_names(f.blocks)
}

/// Adds the label of each of `blocks` to `names`.
pub fn collect_block_names(blocks: &Vec<&Block>, names: &mut Vec<String>)
    ensures
        strs(final(names)@) == strs(old(names)@) + block_names(blocks@.map_values(|b: &Block| b@)),
{
    let ghost models = blocks@.map_values(|b: &Block| b@);
    let ghost start = strs(names@);
    let mut i: usize = 0;
    while i < blocks.len()
        invariant
            i <= blocks.len(),
            models == blocks@.map_values(|b: &Block| b@),
            strs(names@) == start + block_names(models.take(i as int)),
        decreases blocks.len() - i,
    {
        push_line(names, blocks[i].label().clone());
        proof {
            assert(models[i as int] == blocks@[i as int]@);
        }
        assert(strs(names@) =~= start + block_names(models.take(i + 1)));
        i = i + 1;
    }
    assert(models.take(i as int) =~= models);
}

/// A function: a run of blocks that share one stack frame. It refers to its
/// blocks, which it does not own.
#[derive(Debug)]
pub struct Function<'a> {
    name: String,
    blocks: Vec<&'a Block>,
}

impl<'a> View for Function<'a> {
    type V = FunctionModel;

    closed spec fn view(&self) -> FunctionModel {
        FunctionModel { name: self.name@, blocks: self.blocks@.map_values(|b: &Block| b@) }
    }
}

impl<'a> Function<'a> {
    /// A new function named `name`, with no blocks.
    pub fn new(name: String) -> (r: Self)
        ensures
            r@ == (FunctionModel { name: name@, blocks: Seq::empty() }),
    {
        let r = Function { name, blocks: Vec::new() };
        assert(r@.blocks =~= Seq::<BlockModel>::empty());
        r
    }

    /// Appends `block` at the end of this function.
    pub fn append_block(&mut self, block: &'a Block)
        ensures
            final(self)@ == (FunctionModel { blocks: old(self)@.blocks.push(block@), ..old(self)@ }),
    {
        self.blocks.push(block);
        assert(self@.blocks =~= old(self)@.blocks.push(block@));
    }

    /// The depth of the frame this function reserves on entry.
    pub fn frame_size(&self) -> (r: usize)
        ensures
            r == frame_size(self@.blocks),
    {
        let ghost blocks = self@.blocks;
        let mut size: usize = 0;
        let mut i: usize = 0;
        while i < self.blocks.len()
            invariant
                i <= self.blocks.len(),
                blocks == self@.blocks,
                blocks.len() == self.blocks.len(),
                size == frame_size(blocks.take(i as int)),
            decreases self.blocks.len() - i,
        {
            let s = self.blocks[i].stack_size();
            proof {
                assert(blocks.take(i + 1).drop_last() =~= blocks.take(i as int));
                assert(blocks[i as int] == self.blocks@[i as int]@);
            }
            if s > size {
                size = s;
            }
            i = i + 1;
        }
        assert(blocks.take(i as int) =~= blocks);
        size
    }

    /// The function's name.
    pub fn name(&self) -> (r: &String)
        ensures
            r@ == self@.name,
    {
        &self.name
    }

    /// Adds the names of kind `kind` that this function's blocks refer to to
    /// `names`, in order, once per use.
    pub fn collect_names(&self, kind: NameUse, names: &mut Vec<String>)
        ensures
            strs(final(names)@) == strs(old(names)@) + blocks_names(self@.blocks, kind),
    {
        let ghost blocks = self@.blocks;
        let ghost start = strs(names@);
        let mut i: usize = 0;
        while i < self.blocks.len()
            invariant
                i <= self.blocks.len(),
                blocks == self@.blocks,
                blocks.len() == self.blocks.len(),
                strs(names@) == start + blocks_names(blocks.take(i as int), kind),
            decreases self.blocks.len() - i,
        {
            self.blocks[i].collect_names(kind, names);
            proof {
                assert(blocks.take(i + 1).drop_last() =~= blocks.take(i as int));
                assert(blocks[i as int] == self.blocks@[i as int]@);
            }
            assert(strs(names@) =~= start + blocks_names(blocks.take(i + 1), kind));
            i = i + 1;
        }
        assert(blocks.take(i as int) =~= blocks);
    }

    /// Adds the labels this function defines to `names`: its own name, then
    /// its blocks' labels.
    pub fn collect_labels(&self, names: &mut Vec<String>)
        ensures
            strs(final(names)@) == strs(old(names)@) + function_labels(self@),
    {
        let ghost start = strs(names@);
        push_line(names, self.name.clone());
        collect_block_names(&self.blocks, names);
        assert(strs(names@) =~= start + function_labels(self@));
    }

    /// Adds this function's lines to `lines`.
    pub fn lower(&self, lines: &mut Vec<String>)
        ensures
            strs(final(lines)@) == strs(old(lines)@) + function_lines(self@),
    {
        let ghost start = strs(lines@);
        let ghost blocks = self@.blocks;
        let frame = self.frame_size();
        let mut global = String::from_str("global ");
        global.append(self.name.as_str());
        push_line(lines, global);
        let mut label = self.name.clone();
        label.append(":");
        push_line(lines, label);
        push_line(lines, String::from_str("\tpush rbp"));
        push_line(lines, String::from_str("\tmov rbp, rsp"));
        if frame > 0 {
            let mut reserve = String::from_str("\tsub rsp, ");
            append_nat(&mut reserve, frame as u64);
            push_line(lines, reserve);
        }
        assert(strs(lines@) =~= start + prologue_lines(self@.name, frame as nat));
        let ghost mid = strs(lines@);
        let mut i: usize = 0;
        while i < self.blocks.len()
            invariant
                i <= self.blocks.len(),
                blocks == self@.blocks,
                blocks.len() == self.blocks.len(),
                strs(lines@) == mid + blocks_lines(blocks.take(i as int), true),
            decreases self.blocks.len() - i,
        {
            self.blocks[i].lower(true, lines);
            proof {
                assert(blocks.take(i + 1).drop_last() =~= blocks.take(i as int));
                assert(blocks[i as int] == self.blocks@[i as int]@);
            }
            assert(strs(lines@) =~= mid + blocks_lines(blocks.take(i + 1), true));
            i = i + 1;
        }
        assert(blocks.take(i as int) =~= blocks);
        push_line(lines, String::from_str("\tleave"));
        assert(strs(lines@) =~= start + function_lines(self@));
    }

    /// Appends this function's assembly to `out`.
    pub fn generate_code(&self, out: &mut String)
        ensures
            final(out)@ == old(out)@ + lines_text(function_lines(self@)),
    {
        let mut lines: Vec<String> = Vec::new();
        self.lower(&mut lines);
        assert(strs(Seq::<String>::empty()) =~= Seq::<Seq<char>>::empty());
        assert(strs(lines@) =~= function_lines(self@));
        append_lines(out, &lines);
    }
}

} // verus!
