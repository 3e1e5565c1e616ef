use vstd::prelude::*;
use vstd::string::StringExecFns;

use crate::block::{is_empty_content, lemma_cleared_unselected, Block, BlockBorder, BlockTitle, BlockType};

verus! {

/// The page used to try out nested blocks.
pub struct DebugPage {}

/// `b` has the given title and a plain border.
pub open spec fn plainly_titled(b: Block, title: Seq<char>) -> bool {
    &&& b.title matches BlockTitle::Title(t) && t@ == title
    &&& b.border == (BlockBorder::Border { is_selected: false, is_highlighted: false })
}

/// `b` is an empty paragraph with the given title and a plain border.
pub open spec fn seeded_paragraph(b: Block, title: Seq<char>) -> bool {
    plainly_titled(b, title) && is_empty_content(b.content, BlockType::ParagraphBlock)
}

/// `b` is a container with the given title, a plain border, `n` children
/// and no cursor.
pub open spec fn seeded_container(b: Block, title: Seq<char>, n: nat) -> bool {
    &&& plainly_titled(b, title)
    &&& b.is_container()
    &&& b.selected() is None
    &&& b.hovered() is None
    &&& b.children().len() == n
}

/// The blocks the debug page seeds: a "Notifications" container holding
/// "Temp 3" (paragraphs "Temp 5" and "Temp 6") and "Temp 4" (paragraph
/// "Temp 7"), followed by the paragraph "Temp Block".
pub open spec fn debug_seeds(s: Seq<Block>) -> bool {
    &&& s.len() == 2
    &&& seeded_container(s[0], "Notifications"@, 2)
    &&& seeded_container(s[0].children()[0], "Temp 3"@, 2)
    &&& seeded_paragraph(s[0].children()[0].children()[0], "Temp 5"@)
    &&& seeded_paragraph(s[0].children()[0].children()[1], "Temp 6"@)
    &&& seeded_container(s[0].children()[1], "Temp 4"@, 1)
    &&& seeded_paragraph(s[0].children()[1].children()[0], "Temp 7"@)
    &&& seeded_paragraph(s[1], "Temp Block"@)
}

impl DebugPage {
    /// Appends the debug page's seeded blocks to the container `block`.
    pub fn fill_inner_blocks(block: &mut Block)
        requires
            old(block).is_container(),
        ensures
            final(block).title == old(block).title,
            final(block).border == old(block).border,
            final(block).is_container(),
            final(block).hovered() == old(block).hovered(),
            final(block).selected() == old(block).selected(),
            final(block).children().len() == old(block).children().len() + 2,
            final(block).children().subrange(0, old(block).children().len() as int) == old(block).children(),
            debug_seeds(
                final(block).children().subrange(
                    old(block).children().len() as int,
                    final(block).children().len() as int,
                ),
            ),
            forall|j: int|
                old(block).children().len() <= j < final(block).children().len() ==> {
                    &&& (#[trigger] final(block).children()[j]).wf()
                    &&& final(block).children()[j].cleared()
                },
            old(block).wf() ==> final(block).wf(),
            old(block).unselected() ==> final(block).unselected(),
    {
        let mut temp1 = Block::default(String::from_str("Notifications"), BlockType::ContainerBlock);
        let mut temp3 = Block::default(String::from_str("Temp 3"), BlockType::ContainerBlock);
        let mut temp4 = Block::default(String::from_str("Temp 4"), BlockType::ContainerBlock);

        let temp5 = Block::default(String::from_str("Temp 5"), BlockType::ParagraphBlock);
        let temp6 = Block::default(String::from_str("Temp 6"), BlockType::ParagraphBlock);
        let temp7 = Block::default(String::from_str("Temp 7"), BlockType::ParagraphBlock);

        temp3.append_inner_block(temp5).unwrap();
        temp3.append_inner_block(temp6).unwrap();
        temp4.append_inner_block(temp7).unwrap();

        temp1.append_inner_block(temp3).unwrap();
        temp1.append_inner_block(temp4).unwrap();

        let ghost before = *block;
        let ghost t1 = temp1;
        block.append_inner_block(temp1).unwrap();

        let temp2 = Block::default(String::from_str("Temp Block"), BlockType::ParagraphBlock);
        let ghost t2 = temp2;
        block.append_inner_block(temp2).unwrap();
        proof {
            let n = before.children().len();
            let added = block.children().subrange(n as int, (n + 2) as int);
            assert(added =~= seq![t1, t2]);
            assert(block.children().subrange(0, n as int) =~= before.children());
            if before.unselected() {
                assert forall|j: int| 0 <= j < block.children().len() implies (#[trigger] block.children()[j]).unselected() by {
                    if j < n {
                        assert(before.children()[j].unselected());
                    } else if j == n {
                        lemma_cleared_unselected(t1);
                    } else {
                        lemma_cleared_unselected(t2);
                    }
                }
            }
        }
    }
}

} // verus!
