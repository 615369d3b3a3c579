//! A control-flow graph of basic blocks: the intermediate form that
//! functions are brought to before code is generated from the graph.

use crate::ast::{BinOp, UnOp};
use vstd::prelude::*;

verus! {

/// Index of a variable of a function.
#[derive(Clone, Copy, PartialEq, Eq, Structural, Debug)]
pub struct VarId(pub usize);

/// A variable.
#[derive(Debug)]
pub struct Var {
    pub id: VarId,
    pub name: String,
}

/// Index of a block in its function.
#[derive(Clone, Copy, PartialEq, Eq, Structural, Debug)]
pub struct BlockId(pub usize);

/// An operand of an instruction.
#[derive(Clone, Copy, PartialEq, Eq, Structural, Debug)]
pub enum Opnd {
    /// A virtual register.
    OpndReg(u32),
    /// A variable in this version of it.
    OpndVar(VarId, u32),
    OpndInt(i32),
    OpndBool(bool),
}

/// An instruction.
#[derive(Debug)]
pub enum Instr {
    InstrRet(Option<Opnd>),
    InstrTest(Opnd),
    InstrBin(Opnd, Opnd, BinOp, Opnd),
    InstrUn(Opnd, UnOp, Opnd),
    InstrAssign(Opnd, Opnd),
    InstrPhi(VarId, u32, Vec<u32>),
    InstrCall(String, Opnd, Vec<Opnd>),
    InstrStr(Opnd, String),
    InstrGoto(BlockId),
}

/// A basic block: instructions that run in sequence, and the edges of the
/// graph at the block.
#[derive(Debug)]
pub struct Block {
    pub id: BlockId,
    pub instructions: Vec<Instr>,
    pub successors: Vec<BlockId>,
    pub predecessors: Vec<BlockId>,
}

impl Block {
    /// The empty block `id`.
    pub fn new(id: BlockId) -> (b: Block)
        ensures
            b.id == id,
            b.instructions@ == Seq::<Instr>::empty(),
            b.successors@ == Seq::<BlockId>::empty(),
            b.predecessors@ == Seq::<BlockId>::empty(),
    {
        Block {
            id: id,
            instructions: Vec::new(),
            successors: Vec::new(),
            predecessors: Vec::new(),
        }
    }

    /// Appends an instruction.
    pub fn add_instr(&mut self, instr: Instr)
        ensures
            final(self).id == old(self).id,
            final(self).instructions@ == old(self).instructions@.push(instr),
            final(self).successors@ == old(self).successors@,
            final(self).predecessors@ == old(self).predecessors@,
    {
        self.instructions.push(instr);
    }

    /// Records an edge from block `id` to this block.
    pub fn add_predecessor(&mut self, id: BlockId)
        ensures
            final(self).id == old(self).id,
            final(self).instructions@ == old(self).instructions@,
            final(self).successors@ == old(self).successors@,
            final(self).predecessors@ == old(self).predecessors@.push(id),
    {
        self.predecessors.push(id);
    }

    /// Records an edge from this block to block `id`.
    pub fn add_successor(&mut self, id: BlockId)
        ensures
            final(self).id == old(self).id,
            final(self).instructions@ == old(self).instructions@,
            final(self).successors@ == old(self).successors@.push(id),
            final(self).predecessors@ == old(self).predecessors@,
    {
        self.successors.push(id);
    }
}

/// A function as a graph of blocks.
#[derive(Debug)]
pub struct Fct {
    pub blocks: Vec<Block>,
    pub start_id: BlockId,
    pub end_ids: Vec<BlockId>,
    pub vars: Vec<Var>,
    pub params: Vec<Var>,
}

impl Fct {
    /// The invariant: every block is found under its own id.
    pub open spec fn wf(&self) -> bool {
        forall|i: int| 0 <= i < self.blocks@.len() ==> (#[trigger] self.blocks@[i]).id == BlockId(i as usize)
    }

    /// A function without blocks and variables. Its start is block 0, the
    /// first block that is added.
    pub fn new() -> (f: Fct)
        ensures
            f.wf(),
            f.blocks@.len() == 0,
            f.start_id == BlockId(0),
            f.end_ids@.len() == 0,
            f.vars@.len() == 0,
            f.params@.len() == 0,
    {
        Fct {
            blocks: Vec::new(),
            start_id: BlockId(0),
            end_ids: Vec::new(),
            vars: Vec::new(),
            params: Vec::new(),
        }
    }

    /// Block `id`, to be changed in place.
    pub fn block_mut(&mut self, id: BlockId) -> (b: &mut Block)
        requires
            id.0 < old(self).blocks@.len(),
        ensures
            *b == old(self).blocks@[id.0 as int],
            final(self).blocks@ == old(self).blocks@.update(id.0 as int, *final(b)),
            final(self).start_id == old(self).start_id,
            final(self).end_ids == old(self).end_ids,
            final(self).vars == old(self).vars,
            final(self).params == old(self).params,
    {
        &mut self.blocks[id.0]
    }

    /// Block `id`.
    pub fn block(&self, id: BlockId) -> (b: &Block)
        requires
            id.0 < self.blocks@.len(),
        ensures
            *b == self.blocks@[id.0 as int],
    {
        &self.blocks[id.0]
    }

    /// Adds an empty block and returns its id, which is the number of
    /// blocks there were.
    pub fn add_block(&mut self) -> (id: BlockId)
        requires
            old(self).wf(),
        ensures
            final(self).wf(),
            id == BlockId(old(self).blocks@.len() as usize),
            final(self).blocks@.len() == old(self).blocks@.len() + 1,
            forall|i: int|
                0 <= i < old(self).blocks@.len() ==> final(self).blocks@[i] == old(self).blocks@[i],
            final(self).blocks@[id.0 as int].id == id,
            final(self).blocks@[id.0 as int].instructions@ == Seq::<Instr>::empty(),
            final(self).blocks@[id.0 as int].successors@ == Seq::<BlockId>::empty(),
            final(self).blocks@[id.0 as int].predecessors@ == Seq::<BlockId>::empty(),
            final(self).start_id == old(self).start_id,
            final(self).end_ids == old(self).end_ids,
            final(self).vars == old(self).vars,
            final(self).params == old(self).params,
    {
        let id = BlockId(self.blocks.len());
        self.blocks.push(Block::new(id));
        id
    }
}

} // verus!
