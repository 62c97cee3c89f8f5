//! Control frames of structured WebAssembly control flow and their stack.

use crate::isa::LabelIdx;
use crate::resources::BlockType;
use vstd::prelude::*;

verus! {

/// The kind of a structured control region.
#[derive(Debug, Copy, Clone, PartialEq, Eq, Structural)]
pub enum ControlFrameKind {
    Block,
    Loop,
    If,
}

/// A structured control region under translation.
#[derive(Debug, Copy, Clone, PartialEq, Eq, Structural)]
pub enum ControlFrame {
    /// A `block`; branches to it go to its end.
    Block { block_type: BlockType, end_label: LabelIdx, stack_height: u32 },
    /// A `loop`; branches to it go back to its header.
    Loop { block_type: BlockType, header: LabelIdx, stack_height: u32 },
    /// An `if`, with the label of its `else` arm.
    If { block_type: BlockType, end_label: LabelIdx, else_label: LabelIdx, stack_height: u32 },
    /// A region entered in unreachable code, of the given kind.
    Unreachable { kind: ControlFrameKind, block_type: BlockType, stack_height: u32 },
}

impl ControlFrame {
    /// The kind of the region.
    pub open spec fn kind_spec(self) -> ControlFrameKind {
        match self {
            ControlFrame::Block { .. } => ControlFrameKind::Block,
            ControlFrame::Loop { .. } => ControlFrameKind::Loop,
            ControlFrame::If { .. } => ControlFrameKind::If,
            ControlFrame::Unreachable { kind, .. } => kind,
        }
    }

    /// The block type of the region.
    pub open spec fn block_type_spec(self) -> BlockType {
        match self {
            ControlFrame::Block { block_type, .. } => block_type,
            ControlFrame::Loop { block_type, .. } => block_type,
            ControlFrame::If { block_type, .. } => block_type,
            ControlFrame::Unreachable { block_type, .. } => block_type,
        }
    }

    /// The height of the value stack when the region was entered.
    pub open spec fn stack_height_spec(self) -> u32 {
        match self {
            ControlFrame::Block { stack_height, .. } => stack_height,
            ControlFrame::Loop { stack_height, .. } => stack_height,
            ControlFrame::If { stack_height, .. } => stack_height,
            ControlFrame::Unreachable { stack_height, .. } => stack_height,
        }
    }

    /// The label that branches to the region go to.
    pub open spec fn branch_destination_spec(self) -> LabelIdx {
        match self {
            ControlFrame::Block { end_label, .. } => end_label,
            ControlFrame::Loop { header, .. } => header,
            ControlFrame::If { end_label, .. } => end_label,
            ControlFrame::Unreachable { .. } => LabelIdx(0),
        }
    }

    /// The kind of the region.
    pub fn kind(&self) -> (r: ControlFrameKind)
        ensures
            r == self.kind_spec(),
    {
        match self {
            ControlFrame::Block { .. } => ControlFrameKind::Block,
            ControlFrame::Loop { .. } => ControlFrameKind::Loop,
            ControlFrame::If { .. } => ControlFrameKind::If,
            ControlFrame::Unreachable { kind, .. } => *kind,
        }
    }

    /// The block type of the region.
    pub fn block_type(&self) -> (r: BlockType)
        ensures
            r == self.block_type_spec(),
    {
        match self {
            ControlFrame::Block { block_type, .. } => *block_type,
            ControlFrame::Loop { block_type, .. } => *block_type,
            ControlFrame::If { block_type, .. } => *block_type,
            ControlFrame::Unreachable { block_type, .. } => *block_type,
        }
    }

    /// The height of the value stack when the region was entered.
    pub fn stack_height(&self) -> (r: u32)
        ensures
            r == self.stack_height_spec(),
    {
        match self {
            ControlFrame::Block { stack_height, .. } => *stack_height,
            ControlFrame::Loop { stack_height, .. } => *stack_height,
            ControlFrame::If { stack_height, .. } => *stack_height,
            ControlFrame::Unreachable { stack_height, .. } => *stack_height,
        }
    }

    /// Whether the region was entered in reachable code.
    pub fn is_reachable(&self) -> (r: bool)
        ensures
            r == !(*self is Unreachable),
    {
        !matches!(self, ControlFrame::Unreachable { .. })
    }

    /// The label that branches to the region go to.
    pub fn branch_destination(&self) -> (r: LabelIdx)
        requires
            !(*self is Unreachable),
        ensures
            r == self.branch_destination_spec(),
    {
        match self {
            ControlFrame::Block { end_label, .. } => *end_label,
            ControlFrame::Loop { header, .. } => *header,
            ControlFrame::If { end_label, .. } => *end_label,
            ControlFrame::Unreachable { .. } => LabelIdx(0),
        }
    }
}

/// The stack of control regions that enclose the translated code.
#[derive(Debug)]
pub struct ControlFlowStack {
    frames: Vec<ControlFrame>,
}

impl View for ControlFlowStack {
    type V = Seq<ControlFrame>;

    closed spec fn view(&self) -> Seq<ControlFrame> {
        self.frames@
    }
}

impl ControlFlowStack {
    /// Creates an empty stack.
    pub fn new() -> (r: Self)
        ensures
            r@.len() == 0,
    {
        ControlFlowStack { frames: Vec::new() }
    }

    /// Pushes a frame.
    pub fn push_frame(&mut self, frame: ControlFrame)
        ensures
            final(self)@ == old(self)@.push(frame),
    {
        self.frames.push(frame);
    }

    /// Pops the innermost frame.
    pub fn pop_frame(&mut self) -> (r: ControlFrame)
        requires
            old(self)@.len() > 0,
        ensures
            r == old(self)@.last(),
            final(self)@ == old(self)@.drop_last(),
    {
        match self.frames.pop() {
            Some(frame) => frame,
            None => ControlFrame::Unreachable {
                kind: ControlFrameKind::Block,
                block_type: BlockType::Empty,
                stack_height: 0,
            },
        }
    }

    /// The frame `depth` levels out from the innermost one.
    pub fn nth_back(&self, depth: u32) -> (r: &ControlFrame)
        requires
            depth < self@.len(),
        ensures
            *r == self@[self@.len() - 1 - depth],
    {
        &self.frames[self.frames.len() - 1 - depth as usize]
    }

    /// The innermost frame.
    pub fn last(&self) -> (r: &ControlFrame)
        requires
            self@.len() > 0,
        ensures
            *r == self@.last(),
    {
        &self.frames[self.frames.len() - 1]
    }

    /// Whether the stack is empty.
    pub fn is_empty(&self) -> (r: bool)
        ensures
            r == (self@.len() == 0),
    {
        self.frames.len() == 0
    }

    /// The number of frames.
    pub fn len(&self) -> (r: usize)
        ensures
            r == self@.len(),
    {
        self.frames.len()
    }
}

} // verus!
