use vstd::prelude::*;

use crate::input::{is_backward_key, is_forward_key, Key};
use crate::util::{cycle_next, cycle_prev, next_in_cycle, prev_in_cycle};

verus! {

/// The kinds of block that can be created empty.
#[derive(Debug)]
pub enum BlockType {
    InputBlock,
    ParagraphBlock,
    Button,
    ContainerBlock,
}

/// What a block holds: one of three leaf kinds, or an ordered list of child
/// blocks with an optional hovered and an optional selected child.
#[derive(Debug)]
pub enum BlockContent {
    InputBlock { input_text: String },
    ParagraphBlock { text: String },
    Button,
    ContainerBlock {
        inner_blocks: Vec<Block>,
        selected_block: Option<usize>,
        hovered_block: Option<usize>,
    },
}

#[derive(Debug)]
pub enum BlockBorder {
    NoBorder,
    Border { is_selected: bool, is_highlighted: bool },
}

#[derive(Debug)]
pub enum BlockTitle {
    NoTitle,
    Title(String),
}

/// A node of the block tree of a page.
#[derive(Debug)]
pub struct Block {
    pub title: BlockTitle,
    pub border: BlockBorder,
    pub content: BlockContent,
}

/// The hover cursor after one step over `n` children, forwards or backwards;
/// no cursor stays no cursor.
pub open spec fn stepped_hover(h: Option<usize>, n: nat, forward: bool) -> Option<usize> {
    match h {
        Some(i) => Some(
            (if forward {
                next_in_cycle(i as int, n as int)
            } else {
                prev_in_cycle(i as int, n as int)
            }) as usize,
        ),
        None => None,
    }
}

impl Block {
    pub open spec fn is_container(&self) -> bool {
        self.content is ContainerBlock
    }

    /// The children of a container; a leaf has none.
    pub open spec fn children(&self) -> Seq<Block> {
        match &self.content {
            BlockContent::ContainerBlock { inner_blocks, .. } => inner_blocks@,
            _ => Seq::empty(),
        }
    }

    pub open spec fn hovered(&self) -> Option<usize> {
        match &self.content {
            BlockContent::ContainerBlock { hovered_block, .. } => *hovered_block,
            _ => None,
        }
    }

    pub open spec fn selected(&self) -> Option<usize> {
        match &self.content {
            BlockContent::ContainerBlock { selected_block, .. } => *selected_block,
            _ => None,
        }
    }

    /// Every hovered and selected cursor in the tree is a valid child index.
    pub open spec fn wf(&self) -> bool
        decreases self,
    {
        match &self.content {
            BlockContent::ContainerBlock { inner_blocks, selected_block, hovered_block } => {
                &&& (selected_block matches Some(i) ==> i < inner_blocks.len())
                &&& (hovered_block matches Some(i) ==> i < inner_blocks.len())
                &&& forall|j: int| 0 <= j < inner_blocks.len() ==> (#[trigger] inner_blocks@[j]).wf()
            },
            _ => true,
        }
    }

    /// No node of the tree has a selected child.
    pub open spec fn unselected(&self) -> bool
        decreases self,
    {
        match &self.content {
            BlockContent::ContainerBlock { inner_blocks, selected_block, .. } => {
                &&& selected_block is None
                &&& forall|j: int|
                    0 <= j < inner_blocks.len() ==> (#[trigger] inner_blocks@[j]).unselected()
            },
            _ => true,
        }
    }

    /// No node of the tree has a selected or a hovered child.
    pub open spec fn cleared(&self) -> bool
        decreases self,
    {
        match &self.content {
            BlockContent::ContainerBlock { inner_blocks, selected_block, hovered_block } => {
                &&& selected_block is None
                &&& hovered_block is None
                &&& forall|j: int| 0 <= j < inner_blocks.len() ==> (#[trigger] inner_blocks@[j]).cleared()
            },
            _ => true,
        }
    }

    /// Selections form one chain from this node down: only the selected
    /// child may hold selections below it, every other child holds none.
    pub open spec fn single_chain(&self) -> bool
        decreases self,
    {
        match &self.content {
            BlockContent::ContainerBlock { inner_blocks, selected_block, .. } => {
                forall|j: int|
                    0 <= j < inner_blocks.len() ==> if selected_block == Some(j as usize) {
                        (#[trigger] inner_blocks@[j]).single_chain()
                    } else {
                        inner_blocks@[j].unselected()
                    }
            },
            _ => true,
        }
    }

    /// The child indices followed from this node through selected children.
    pub open spec fn focus_path(&self) -> Seq<int>
        decreases self,
    {
        match &self.content {
            BlockContent::ContainerBlock { inner_blocks, selected_block, .. } => {
                match selected_block {
                    Some(i) => if (*i as int) < inner_blocks.len() {
                        seq![*i as int] + inner_blocks@[*i as int].focus_path()
                    } else {
                        Seq::empty()
                    },
                    None => Seq::empty(),
                }
            },
            _ => Seq::empty(),
        }
    }

    /// The node reached by following `path` through child indices.
    pub open spec fn subtree(&self, path: Seq<int>) -> Block
        decreases path.len(),
    {
        if path.len() > 0 && 0 <= path[0] < self.children().len() {
            self.children()[path[0]].subtree(path.drop_first())
        } else {
            *self
        }
    }

    /// `path` leads through child indices, and this node and every node the
    /// path reaches has a selected child.
    pub open spec fn selected_along(&self, path: Seq<int>) -> bool
        decreases path.len(),
    {
        &&& self.selected() is Some
        &&& (path.len() > 0 ==> {
            &&& 0 <= path[0] < self.children().len()
            &&& self.children()[path[0]].selected_along(path.drop_first())
        })
    }

    /// This block with its hover cursor replaced; a leaf is returned as it is.
    pub open spec fn with_hovered(self, h: Option<usize>) -> Block {
        match self.content {
            BlockContent::ContainerBlock { inner_blocks, selected_block, .. } => Block {
                title: self.title,
                border: self.border,
                content: BlockContent::ContainerBlock { inner_blocks, selected_block, hovered_block: h },
            },
            _ => self,
        }
    }

    /// This block with its first child hovered, if it has one.
    pub open spec fn hovered_first(self) -> Block {
        if self.children().len() > 0 {
            self.with_hovered(Some(0))
        } else {
            self
        }
    }

    /// `new` is `old` with its title and border kept, the same number of
    /// children, and the given cursors.
    pub open spec fn same_frame(new: Block, old: Block, hovered: Option<usize>, selected: Option<usize>) -> bool {
        &&& new.title == old.title
        &&& new.border == old.border
        &&& new.is_container()
        &&& new.children().len() == old.children().len()
        &&& new.hovered() == hovered
        &&& new.selected() == selected
    }

    /// `new` is `old` with every selection and hover cursor of the tree
    /// cleared, and nothing else changed.
    pub open spec fn deselection_of(new: Block, old: Block) -> bool
        decreases old,
    {
        &&& new.title == old.title
        &&& new.border == old.border
        &&& match &old.content {
            BlockContent::ContainerBlock { inner_blocks, .. } => {
                &&& Block::same_frame(new, old, None, None)
                &&& forall|j: int|
                    0 <= j < inner_blocks.len() ==> Block::deselection_of(
                        new.children()[j],
                        #[trigger] inner_blocks@[j],
                    )
            },
            _ => new.content == old.content,
        }
    }

    /// Enter on a container with no selection: the hovered child (the first
    /// one when none is hovered) becomes selected and starts with its own
    /// first child hovered. An empty container does not change.
    pub open spec fn commit_step(old: Block, new: Block) -> bool {
        let target = match old.hovered() {
            Some(h) => Some(h),
            None => if old.children().len() > 0 {
                Some(0usize)
            } else {
                None
            },
        };
        match target {
            Some(t) => {
                &&& Block::same_frame(new, old, Some(t), Some(t))
                &&& new.children() == old.children().update(
                    t as int,
                    old.children()[t as int].hovered_first(),
                )
            },
            None => new == old,
        }
    }

    /// How one key press changes a tree: leaves ignore keys; a container with
    /// no selection moves its hover cursor or commits it; a container with a
    /// selected child hands the key down, except that Esc when that child has
    /// no selection of its own clears the child and gives focus back here.
    pub open spec fn input_step(old: Block, new: Block, key: Key) -> bool
        decreases old,
    {
        match &old.content {
            BlockContent::ContainerBlock { inner_blocks, selected_block, hovered_block } => {
                let n = inner_blocks@.len();
                match selected_block {
                    None => if is_forward_key(key) {
                        new == old.with_hovered(stepped_hover(*hovered_block, n, true))
                    } else if is_backward_key(key) {
                        new == old.with_hovered(stepped_hover(*hovered_block, n, false))
                    } else if key is Enter {
                        Block::commit_step(old, new)
                    } else {
                        new == old
                    },
                    Some(i) => {
                        let i = *i as int;
                        if 0 <= i < n {
                            let child = inner_blocks@[i];
                            &&& new.children() == inner_blocks@.update(i, new.children()[i])
                            &&& if key is Esc && child.selected() is None {
                                &&& Block::same_frame(new, old, *hovered_block, None)
                                &&& Block::deselection_of(new.children()[i], child)
                            } else {
                                &&& Block::same_frame(new, old, *hovered_block, *selected_block)
                                &&& Block::input_step(child, new.children()[i], key)
                            }
                        } else {
                            new == old
                        }
                    },
                }
            },
            _ => new == old,
        }
    }
}

/// `c` is the empty content of a block of kind `t`.
pub open spec fn is_empty_content(c: BlockContent, t: BlockType) -> bool {
    match t {
        BlockType::InputBlock => c matches BlockContent::InputBlock { input_text } && input_text@.len() == 0,
        BlockType::ParagraphBlock => c matches BlockContent::ParagraphBlock { text } && text@.len() == 0,
        BlockType::Button => c is Button,
        BlockType::ContainerBlock => c matches BlockContent::ContainerBlock {
            inner_blocks,
            selected_block: None,
            hovered_block: None,
        } && inner_blocks@.len() == 0,
    }
}

/// The text of a title; no title reads as the empty text.
pub open spec fn title_text(t: BlockTitle) -> Seq<char> {
    match t {
        BlockTitle::NoTitle => Seq::empty(),
        BlockTitle::Title(s) => s@,
    }
}

impl Block {
    /// An empty block of the given kind, with no title and no border.
    pub fn default_raw(block_type: BlockType) -> (r: Block)
        ensures
            r.title is NoTitle,
            r.border is NoBorder,
            is_empty_content(r.content, block_type),
            r.wf(),
            r.cleared(),
    {
        Block {
            title: BlockTitle::NoTitle,
            border: BlockBorder::NoBorder,
            content: match block_type {
                BlockType::InputBlock => BlockContent::InputBlock { input_text: String::new() },
                BlockType::ParagraphBlock => BlockContent::ParagraphBlock { text: String::new() },
                BlockType::Button => BlockContent::Button,
                BlockType::ContainerBlock => BlockContent::ContainerBlock {
                    inner_blocks: Vec::new(),
                    selected_block: None,
                    hovered_block: None,
                },
            },
        }
    }

    /// An empty block of the given kind with a title and a plain border.
    pub fn default(title: String, block_type: BlockType) -> (r: Block)
        ensures
            r.title == BlockTitle::Title(title),
            r.border == (BlockBorder::Border { is_selected: false, is_highlighted: false }),
            is_empty_content(r.content, block_type),
            r.wf(),
            r.cleared(),
    {
        let mut block = Block::default_raw(block_type);
        block.add_title(title);
        block.add_border();
        block
    }

    pub fn add_title(&mut self, title: String)
        ensures
            final(self).title == BlockTitle::Title(title),
            final(self).border == old(self).border,
            final(self).content == old(self).content,
    {
        self.title = BlockTitle::Title(title);
    }

    /// The title's text; empty when the block has none.
    pub fn title(&self) -> (r: String)
        ensures
            r@ == title_text(self.title),
    {
        match &self.title {
            BlockTitle::NoTitle => String::new(),
            BlockTitle::Title(title) => title.clone(),
        }
    }

    /// Gives the block a plain border, neither selected nor highlighted.
    pub fn add_border(&mut self)
        ensures
            final(self).title == old(self).title,
            final(self).border == (BlockBorder::Border { is_selected: false, is_highlighted: false }),
            final(self).content == old(self).content,
    {
        self.border = BlockBorder::Border { is_selected: false, is_highlighted: false };
    }

    /// Marks an existing border as selected; a block without a border keeps none.
    pub fn select_border(&mut self)
        ensures
            final(self).title == old(self).title,
            final(self).content == old(self).content,
            final(self).border == match old(self).border {
                BlockBorder::NoBorder => BlockBorder::NoBorder,
                BlockBorder::Border { is_highlighted, .. } => BlockBorder::Border {
                    is_selected: true,
                    is_highlighted,
                },
            },
    {
        if let BlockBorder::Border { is_selected, .. } = &mut self.border {
            *is_selected = true;
        }
    }

    /// Marks an existing border as highlighted; a block without a border keeps none.
    pub fn highlight_border(&mut self)
        ensures
            final(self).title == old(self).title,
            final(self).content == old(self).content,
            final(self).border == match old(self).border {
                BlockBorder::NoBorder => BlockBorder::NoBorder,
                BlockBorder::Border { is_selected, .. } => BlockBorder::Border {
                    is_selected,
                    is_highlighted: true,
                },
            },
    {
        if let BlockBorder::Border { is_highlighted, .. } = &mut self.border {
            *is_highlighted = true;
        }
    }

    /// Appends a child to a container; any other block is refused unchanged.
    pub fn append_inner_block(&mut self, block: Block) -> (r: Result<(), &str>)
        ensures
            r is Ok <==> old(self).is_container(),
            r is Ok ==> {
                &&& final(self).title == old(self).title
                &&& final(self).border == old(self).border
                &&& final(self).is_container()
                &&& final(self).hovered() == old(self).hovered()
                &&& final(self).selected() == old(self).selected()
                &&& final(self).children() == old(self).children().push(block)
            },
            r matches Err(e) ==> {
                &&& *final(self) == *old(self)
                &&& e@ == "Can only append blocks to container blocks."@
            },
            old(self).wf() && block.wf() ==> final(self).wf(),
            old(self).cleared() && block.cleared() ==> final(self).cleared(),
    {
        match &mut self.content {
            BlockContent::ContainerBlock { inner_blocks, .. } => {
                inner_blocks.push(block);
                Ok(())
            },
            _ => Err("Can only append blocks to container blocks."),
        }
    }

    /// The children of a container, for reading.
    pub fn get_inner_blocks(&self) -> (r: Result<&Vec<Block>, &str>)
        ensures
            r is Ok <==> self.is_container(),
            r matches Ok(v) ==> v@ == self.children(),
            r matches Err(e) ==> e@ == "Can only get inner blocks from container blocks."@,
    {
        match &self.content {
            BlockContent::ContainerBlock { inner_blocks, .. } => Ok(inner_blocks),
            _ => Err("Can only get inner blocks from container blocks."),
        }
    }

    /// Hovers the first child of a non-empty container; otherwise no change.
    pub fn hover_first_block(&mut self)
        ensures
            *final(self) == old(self).hovered_first(),
    {
        if let BlockContent::ContainerBlock { inner_blocks, hovered_block, .. } = &mut self.content {
            if inner_blocks.len() != 0 {
                *hovered_block = Some(0);
            }
        }
    }

    /// Moves the hover cursor to the next child, wrapping to the first.
    pub fn hover_block_right(&mut self)
        requires
            old(self).wf(),
        ensures
            *final(self) == old(self).with_hovered(
                stepped_hover(old(self).hovered(), old(self).children().len(), true),
            ),
    {
        if let BlockContent::ContainerBlock { inner_blocks, hovered_block, .. } = &mut self.content {
            if let Some(index) = *hovered_block {
                *hovered_block = Some(cycle_next(index, inner_blocks.len()));
            }
        }
    }

    /// Moves the hover cursor to the previous child, wrapping to the last.
    pub fn hover_block_left(&mut self)
        requires
            old(self).wf(),
        ensures
            *final(self) == old(self).with_hovered(
                stepped_hover(old(self).hovered(), old(self).children().len(), false),
            ),
    {
        if let BlockContent::ContainerBlock { inner_blocks, hovered_block, .. } = &mut self.content {
            if let Some(index) = *hovered_block {
                *hovered_block = Some(cycle_prev(index, inner_blocks.len()));
            }
        }
    }

    /// Clears every selection and hover cursor in this block and below it.
    pub fn deselect(&mut self)
        requires
            old(self).wf(),
        ensures
            Block::deselection_of(*final(self), *old(self)),
            final(self).cleared(),
            final(self).wf(),
        decreases *old(self),
    {
        match &mut self.content {
            BlockContent::ContainerBlock { inner_blocks, selected_block, hovered_block } => {
                *selected_block = None;
                *hovered_block = None;
                let ghost before = inner_blocks@;
                let n = inner_blocks.len();
                let mut i: usize = 0;
                while i < n
                    invariant
                        n == inner_blocks.len(),
                        0 <= i <= n,
                        before.len() == n,
                        old(self).children() == before,
                        forall|j: int| 0 <= j < n ==> (#[trigger] before[j]).wf(),
                        forall|j: int|
                            0 <= j < i ==> Block::deselection_of(inner_blocks@[j], #[trigger] before[j]),
                        forall|j: int| i <= j < n ==> #[trigger] inner_blocks@[j] == before[j],
                    decreases n - i,
                {
                    proof {
                        assert(decreases_to!(*old(self) => before[i as int])) by {
                            broadcast use vstd::std_specs::vec::axiom_vec_index_decreases;
                        }
                    }
                    inner_blocks[i].deselect();
                    i += 1;
                }
            },
            _ => {},
        }
        proof {
            lemma_deselection_clears(*self, *old(self));
        }
    }

    /// The children of a container, for changing them in place.
    pub fn get_inner_blocks_mut(&mut self) -> (r: Result<&mut Vec<Block>, &str>)
        ensures
            r is Ok <==> old(self).is_container(),
            r matches Ok(v) ==> {
                &&& v@ == old(self).children()
                &&& final(self).title == old(self).title
                &&& final(self).border == old(self).border
                &&& final(self).is_container()
                &&& final(self).hovered() == old(self).hovered()
                &&& final(self).selected() == old(self).selected()
                &&& final(self).children() == final(v)@
            },
            r matches Err(e) ==> {
                &&& *final(self) == *old(self)
                &&& e@ == "Can only get inner blocks from container blocks."@
            },
    {
        match &mut self.content {
            BlockContent::ContainerBlock { inner_blocks, .. } => Ok(inner_blocks),
            _ => Err("Can only get inner blocks from container blocks."),
        }
    }

    /// Routes one key press into the tree: see `input_step`.
    pub fn handle_input(&mut self, key: Key)
        requires
            old(self).wf(),
        ensures
            Block::input_step(*old(self), *final(self), key),
            final(self).wf(),
            old(self).single_chain() ==> final(self).single_chain(),
        decreases *old(self),
    {
        match &mut self.content {
            BlockContent::ContainerBlock { inner_blocks, selected_block, hovered_block } => {
                match *selected_block {
                    None => {
                        if key.is_forward() {
                            if let Some(index) = *hovered_block {
                                *hovered_block = Some(cycle_next(index, inner_blocks.len()));
                            }
                        } else if key.is_backward() {
                            if let Some(index) = *hovered_block {
                                *hovered_block = Some(cycle_prev(index, inner_blocks.len()));
                            }
                        } else if key == Key::Enter {
                            if hovered_block.is_none() && inner_blocks.len() > 0 {
                                *hovered_block = Some(0);
                            }
                            if let Some(index) = *hovered_block {
                                *selected_block = Some(index);
                                proof {
                                    if old(self).single_chain() {
                                        assert(inner_blocks@[index as int].unselected());
                                    }
                                }
                                inner_blocks[index].hover_first_block();
                                proof {
                                    lemma_hovered_first_keeps(old(self).children()[index as int]);
                                    if old(self).single_chain() {
                                        lemma_unselected_single_chain(inner_blocks@[index as int]);
                                    }
                                }
                            }
                        }
                    },
                    Some(index) => {
                        proof {
                            assert(decreases_to!(*old(self) => old(self).children()[index as int])) by {
                                broadcast use vstd::std_specs::vec::axiom_vec_index_decreases;
                            }
                        }
                        if key == Key::Esc && !inner_blocks[index].has_selected_child() {
                            inner_blocks[index].deselect();
                            *selected_block = None;
                            proof {
                                lemma_deselection_clears(inner_blocks@[index as int], old(self).children()[index as int]);
                            }
                        } else {
                            inner_blocks[index].handle_input(key);
                        }
                    },
                }
            },
            _ => {},
        }
    }

    /// Whether this block has a committed selection of a child.
    pub fn has_selected_child(&self) -> (r: bool)
        ensures
            r == self.selected() is Some,
    {
        if let BlockContent::ContainerBlock { selected_block, .. } = &self.content {
            return selected_block.is_some();
        }
        false
    }
}

/// A tree with no selection satisfies the single-chain property.
pub proof fn lemma_unselected_single_chain(b: Block)
    requires
        b.unselected(),
    ensures
        b.single_chain(),
    decreases b,
{
    if let BlockContent::ContainerBlock { inner_blocks, .. } = &b.content {
        assert forall|j: int| 0 <= j < inner_blocks.len() implies (#[trigger] inner_blocks@[j]).single_chain() by {
            lemma_unselected_single_chain(inner_blocks@[j]);
        }
    }
}

/// Hovering the first child keeps the cursors valid and adds no selection.
pub proof fn lemma_hovered_first_keeps(b: Block)
    ensures
        b.wf() ==> b.hovered_first().wf(),
        b.unselected() ==> b.hovered_first().unselected(),
        b.hovered_first().children() == b.children(),
        b.hovered_first().selected() == b.selected(),
{
    let h = b.hovered_first();
    if let BlockContent::ContainerBlock { inner_blocks, .. } = &b.content {
        assert(h.children() == inner_blocks@);
        if b.wf() {
            assert forall|j: int| 0 <= j < inner_blocks.len() implies (#[trigger] h.children()[j]).wf() by {
                assert(inner_blocks@[j].wf());
            }
        }
        if b.unselected() {
            assert forall|j: int| 0 <= j < inner_blocks.len() implies (#[trigger] h.children()[j]).unselected() by {
                assert(inner_blocks@[j].unselected());
            }
        }
    }
}

/// A cleared tree has no selection.
pub proof fn lemma_cleared_unselected(b: Block)
    requires
        b.cleared(),
    ensures
        b.unselected(),
    decreases b,
{
    if let BlockContent::ContainerBlock { inner_blocks, .. } = &b.content {
        assert forall|j: int| 0 <= j < inner_blocks.len() implies (#[trigger] inner_blocks@[j]).unselected() by {
            lemma_cleared_unselected(inner_blocks@[j]);
        }
    }
}

/// Deselecting a tree clears every cursor beneath it and keeps the cursors valid.
pub proof fn lemma_deselection_clears(new: Block, old: Block)
    requires
        Block::deselection_of(new, old),
    ensures
        new.cleared(),
        new.unselected(),
        new.single_chain(),
        new.wf(),
        new.focus_path().len() == 0,
    decreases old,
{
    if let BlockContent::ContainerBlock { inner_blocks, .. } = &old.content {
        assert forall|j: int| 0 <= j < inner_blocks.len() implies {
            &&& (#[trigger] new.children()[j]).cleared()
            &&& new.children()[j].wf()
        } by {
            lemma_deselection_clears(new.children()[j], inner_blocks@[j]);
        }
    }
    lemma_cleared_unselected(new);
    lemma_unselected_single_chain(new);
}

/// There is only one chain of selections: every path along which each node
/// has a selected child is a prefix of the focus path, and shorter than it.
pub proof fn lemma_single_focus_chain(b: Block, path: Seq<int>)
    requires
        b.wf(),
        b.single_chain(),
        b.selected_along(path),
    ensures
        path.len() < b.focus_path().len(),
        path == b.focus_path().subrange(0, path.len() as int),
    decreases path.len(),
{
    let i = b.selected().unwrap() as int;
    let child = b.children()[i];
    assert(b.focus_path() == seq![i] + child.focus_path());
    if path.len() == 0 {
        assert(path =~= b.focus_path().subrange(0, 0));
    } else {
        let k = path[0];
        let next = b.children()[k];
        assert(next.selected_along(path.drop_first()));
        assert(next.selected() is Some);
        if k != i {
            assert(next.unselected());
        }
        assert(child.single_chain());
        lemma_single_focus_chain(child, path.drop_first());
        assert(path =~= seq![i] + path.drop_first());
        assert(b.focus_path().subrange(0, path.len() as int) =~= seq![i] + child.focus_path().subrange(
            0,
            path.len() - 1,
        ));
    }
}

/// One Esc at the end of the focus path moves focus exactly one level up:
/// the path loses its last step, and the node that held that step has no
/// selection afterwards and keeps its hover cursor.
pub proof fn lemma_esc_unwinds_one_level(before: Block, after: Block)
    requires
        before.wf(),
        Block::input_step(before, after, Key::Esc),
        before.focus_path().len() > 0,
    ensures
        after.focus_path() == before.focus_path().drop_last(),
        after.subtree(before.focus_path().drop_last()).selected() is None,
        after.subtree(before.focus_path().drop_last()).hovered() == before.subtree(
            before.focus_path().drop_last(),
        ).hovered(),
    decreases before,
{
    let i = before.selected().unwrap() as int;
    let child = before.children()[i];
    let next = after.children()[i];
    let parent = before.focus_path().drop_last();
    assert(before.focus_path() == seq![i] + child.focus_path());
    if child.selected() is None {
        assert(child.focus_path().len() == 0);
        assert(parent =~= Seq::<int>::empty());
        assert(after.focus_path() =~= Seq::<int>::empty());
    } else {
        assert(child.wf());
        assert(child.focus_path().len() > 0);
        lemma_esc_unwinds_one_level(child, next);
        assert(after.focus_path() == seq![i] + next.focus_path());
        assert(parent =~= seq![i] + child.focus_path().drop_last());
        assert(after.focus_path() =~= parent);
        assert(parent.drop_first() =~= child.focus_path().drop_last());
    }
}

} // verus!
