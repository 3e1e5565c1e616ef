use vtop_cli::block::{Block, BlockBorder, BlockContent, BlockTitle, BlockType};
use vtop_cli::debug::DebugPage;
use vtop_cli::input::Key;
use vtop_cli::pages::{Page, PageBlock, PAGE_COUNT};
use vtop_cli::util::{cycle_next, cycle_prev};

fn cursors(b: &Block) -> (Option<usize>, Option<usize>) {
    match &b.content {
        BlockContent::ContainerBlock { selected_block, hovered_block, .. } => (*selected_block, *hovered_block),
        _ => (None, None),
    }
}

fn child(b: &Block, i: usize) -> &Block {
    &b.get_inner_blocks().unwrap()[i]
}

/// Every cursor in the tree points at an existing child.
fn cursors_valid(b: &Block) -> bool {
    match &b.content {
        BlockContent::ContainerBlock { inner_blocks, selected_block, hovered_block } => {
            selected_block.map_or(true, |i| i < inner_blocks.len())
                && hovered_block.map_or(true, |i| i < inner_blocks.len())
                && inner_blocks.iter().all(cursors_valid)
        }
        _ => true,
    }
}

/// Number of nodes in the tree with a selected child.
fn selected_count(b: &Block) -> usize {
    match &b.content {
        BlockContent::ContainerBlock { inner_blocks, selected_block, .. } => {
            let own = if selected_block.is_some() { 1 } else { 0 };
            own + inner_blocks.iter().map(selected_count).sum::<usize>()
        }
        _ => 0,
    }
}

/// No node of the tree has a selected or hovered child.
fn all_cleared(b: &Block) -> bool {
    match &b.content {
        BlockContent::ContainerBlock { inner_blocks, selected_block, hovered_block } => {
            selected_block.is_none() && hovered_block.is_none() && inner_blocks.iter().all(all_cleared)
        }
        _ => true,
    }
}

fn container_with(n: usize) -> Block {
    let mut b = Block::default("root".to_string(), BlockType::ContainerBlock);
    for i in 0..n {
        b.append_inner_block(Block::default(format!("leaf {}", i), BlockType::ParagraphBlock))
            .unwrap();
    }
    b
}

fn debug_tree() -> Block {
    PageBlock::new(Page::Debug).block
}

#[test]
fn default_raw_builds_empty_blocks() {
    let b = Block::default_raw(BlockType::ContainerBlock);
    assert!(matches!(b.title, BlockTitle::NoTitle));
    assert!(matches!(b.border, BlockBorder::NoBorder));
    assert_eq!(b.get_inner_blocks().unwrap().len(), 0);
    assert_eq!(cursors(&b), (None, None));
    let p = Block::default_raw(BlockType::ParagraphBlock);
    assert!(matches!(&p.content, BlockContent::ParagraphBlock { text } if text.is_empty()));
    let i = Block::default_raw(BlockType::InputBlock);
    assert!(matches!(&i.content, BlockContent::InputBlock { input_text } if input_text.is_empty()));
    let button = Block::default_raw(BlockType::Button);
    assert!(matches!(button.content, BlockContent::Button));
}

#[test]
fn default_sets_title_and_plain_border() {
    let b = Block::default("Temp".to_string(), BlockType::Button);
    assert_eq!(b.title(), "Temp");
    assert!(matches!(b.border, BlockBorder::Border { is_selected: false, is_highlighted: false }));
    assert_eq!(Block::default_raw(BlockType::Button).title(), "");
}

#[test]
fn borders_are_marked_only_when_present() {
    let mut b = Block::default("x".to_string(), BlockType::Button);
    b.select_border();
    assert!(matches!(b.border, BlockBorder::Border { is_selected: true, is_highlighted: false }));
    b.highlight_border();
    assert!(matches!(b.border, BlockBorder::Border { is_selected: true, is_highlighted: true }));
    let mut plain = Block::default_raw(BlockType::Button);
    plain.select_border();
    plain.highlight_border();
    assert!(matches!(plain.border, BlockBorder::NoBorder));
    plain.add_border();
    assert!(matches!(plain.border, BlockBorder::Border { is_selected: false, is_highlighted: false }));
}

#[test]
fn append_to_leaf_is_refused() {
    let mut leaf = Block::default_raw(BlockType::ParagraphBlock);
    let r = leaf.append_inner_block(Block::default_raw(BlockType::Button));
    assert_eq!(r, Err("Can only append blocks to container blocks."));
    assert_eq!(leaf.get_inner_blocks().unwrap_err(), "Can only get inner blocks from container blocks.");
    assert!(leaf.get_inner_blocks_mut().is_err());
}

#[test]
fn inner_blocks_can_be_changed_in_place() {
    let mut b = container_with(2);
    b.get_inner_blocks_mut().unwrap().push(Block::default_raw(BlockType::Button));
    assert_eq!(b.get_inner_blocks().unwrap().len(), 3);
}

#[test]
fn hover_moves_cyclically() {
    let mut b = container_with(3);
    b.hover_block_right();
    assert_eq!(cursors(&b), (None, None));
    b.hover_first_block();
    assert_eq!(cursors(&b).1, Some(0));
    b.hover_block_left();
    assert_eq!(cursors(&b).1, Some(2));
    b.hover_block_right();
    assert_eq!(cursors(&b).1, Some(0));
    b.hover_block_right();
    assert_eq!(cursors(&b).1, Some(1));
}

#[test]
fn hover_first_on_empty_container_does_nothing() {
    let mut b = container_with(0);
    b.hover_first_block();
    assert_eq!(cursors(&b), (None, None));
}

#[test]
fn enter_on_empty_container_does_nothing() {
    let mut b = container_with(0);
    b.handle_input(Key::Enter);
    assert_eq!(cursors(&b), (None, None));
    assert!(!b.has_selected_child());
}

#[test]
fn enter_without_hover_selects_first_child() {
    let mut b = container_with(2);
    b.handle_input(Key::Enter);
    assert_eq!(cursors(&b), (Some(0), Some(0)));
    assert!(b.has_selected_child());
}

#[test]
fn keys_on_a_leaf_do_nothing() {
    let mut leaf = Block::default_raw(BlockType::Button);
    leaf.handle_input(Key::Enter);
    leaf.handle_input(Key::Right);
    assert!(matches!(leaf.content, BlockContent::Button));
}

#[test]
fn directional_keys_without_hover_do_nothing() {
    let mut b = container_with(3);
    b.handle_input(Key::Down);
    b.handle_input(Key::ShiftTab);
    assert_eq!(cursors(&b), (None, None));
}

#[test]
fn directional_keys_rotate_hover() {
    let mut b = container_with(3);
    b.hover_first_block();
    b.handle_input(Key::Tab);
    assert_eq!(cursors(&b).1, Some(1));
    b.handle_input(Key::Down);
    b.handle_input(Key::Right);
    assert_eq!(cursors(&b).1, Some(0));
    b.handle_input(Key::Up);
    assert_eq!(cursors(&b).1, Some(2));
    b.handle_input(Key::Left);
    b.handle_input(Key::ShiftTab);
    assert_eq!(cursors(&b).1, Some(0));
}

#[test]
fn enter_drills_down_and_hovers_first_child() {
    let mut b = debug_tree();
    assert_eq!(cursors(&b), (None, Some(0)));
    b.handle_input(Key::Enter);
    assert_eq!(cursors(&b), (Some(0), Some(0)));
    assert_eq!(cursors(child(&b, 0)), (None, Some(0)));
    b.handle_input(Key::Down);
    assert_eq!(cursors(child(&b, 0)), (None, Some(1)));
    assert_eq!(cursors(&b), (Some(0), Some(0)));
}

#[test]
fn only_one_chain_is_selected() {
    let mut b = debug_tree();
    b.handle_input(Key::Enter);
    b.handle_input(Key::Enter);
    b.handle_input(Key::Enter);
    assert_eq!(selected_count(&b), 3);
    assert_eq!(cursors(&b).0, Some(0));
    assert_eq!(cursors(child(&b, 0)).0, Some(0));
    assert_eq!(cursors(child(child(&b, 0), 0)).0, Some(0));
    assert_eq!(cursors(child(&b, 1)), (None, None));
    assert_eq!(cursors(child(child(&b, 0), 1)), (None, None));
    assert!(cursors_valid(&b));
}

#[test]
fn deselect_clears_the_whole_subtree() {
    let mut b = debug_tree();
    b.handle_input(Key::Enter);
    b.handle_input(Key::Enter);
    b.handle_input(Key::Right);
    b.deselect();
    assert!(all_cleared(&b));
    assert_eq!(b.get_inner_blocks().unwrap().len(), 2);
    assert_eq!(child(&b, 0).title(), "Notifications");
}

#[test]
fn esc_unwinds_exactly_one_level() {
    let mut b = debug_tree();
    b.handle_input(Key::Enter);
    b.handle_input(Key::Right);
    b.handle_input(Key::Enter);
    // Path: root -> Notifications -> Temp 4, hovering Temp 7.
    assert_eq!(cursors(child(&b, 0)), (Some(1), Some(1)));
    b.handle_input(Key::Esc);
    assert_eq!(cursors(child(&b, 0)), (None, Some(1)));
    assert_eq!(cursors(&b), (Some(0), Some(0)));
    assert!(all_cleared(child(child(&b, 0), 1)));
    b.handle_input(Key::Esc);
    assert_eq!(cursors(&b), (None, Some(0)));
    assert!(all_cleared(child(&b, 0)));
    b.handle_input(Key::Esc);
    assert_eq!(cursors(&b), (None, Some(0)));
}

#[test]
fn esc_with_selection_below_is_forwarded() {
    let mut b = debug_tree();
    b.handle_input(Key::Enter);
    b.handle_input(Key::Enter);
    b.handle_input(Key::Esc);
    assert_eq!(cursors(&b), (Some(0), Some(0)));
    assert_eq!(cursors(child(&b, 0)), (None, Some(0)));
}

#[test]
fn debug_page_seeds_nested_blocks() {
    let mut b = Block::default("Debug Page".to_string(), BlockType::ContainerBlock);
    DebugPage::fill_inner_blocks(&mut b);
    let kids = b.get_inner_blocks().unwrap();
    assert_eq!(kids.len(), 2);
    assert_eq!(kids[0].title(), "Notifications");
    assert_eq!(kids[1].title(), "Temp Block");
    let notes = kids[0].get_inner_blocks().unwrap();
    assert_eq!(notes[0].title(), "Temp 3");
    assert_eq!(notes[1].title(), "Temp 4");
    let t3 = notes[0].get_inner_blocks().unwrap();
    assert_eq!(t3[0].title(), "Temp 5");
    assert_eq!(t3[1].title(), "Temp 6");
    assert_eq!(notes[1].get_inner_blocks().unwrap()[0].title(), "Temp 7");
    assert!(all_cleared(&b));
}

#[test]
fn fresh_page_blocks() {
    let home = PageBlock::new(Page::Home);
    assert_eq!(home.page, Page::Home);
    assert_eq!(home.block.title(), "Home");
    assert_eq!(home.block.get_inner_blocks().unwrap().len(), 0);
    assert_eq!(cursors(&home.block), (None, None));
    assert!(matches!(home.block.border, BlockBorder::Border { is_selected: true, is_highlighted: false }));
    let debug = PageBlock::new(Page::Debug);
    assert_eq!(debug.block.title(), "Debug Page");
    assert_eq!(debug.block.get_inner_blocks().unwrap().len(), 2);
    assert_eq!(cursors(&debug.block), (None, Some(0)));
}

#[test]
fn init_page_selects_border_and_hovers_first() {
    let pb = PageBlock { page: Page::Marks, block: container_with(2) }.init_page();
    assert_eq!(cursors(&pb.block), (None, Some(0)));
    assert!(matches!(pb.block.border, BlockBorder::Border { is_selected: true, .. }));
    assert_eq!(pb.block.get_inner_blocks().unwrap().len(), 2);
}

#[test]
fn catalogue_order_and_names() {
    let pages = Page::iterator();
    assert_eq!(pages.len(), PAGE_COUNT);
    assert_eq!(pages[0], Page::Home);
    assert_eq!(pages[11], Page::Debug);
    assert_eq!(Page::nth(2), Page::FacultyInfo);
    assert_eq!(Page::Debug.index(), 11);
    assert_eq!(Page::GradeHistory.index(), 9);
    assert_eq!(Page::FacultyInfo.title(), "Faculty Info");
    assert_eq!(Page::Debug.title(), "Debug Page");
    for (i, p) in pages.iter().enumerate() {
        assert_eq!(p.index(), i);
        assert_eq!(Page::nth(i), *p);
    }
}

#[test]
fn cyclic_steps_wrap_at_both_ends() {
    for n in [1usize, 2, 5, 12] {
        assert_eq!(cycle_next(n - 1, n), 0);
        assert_eq!(cycle_prev(0, n), n - 1);
        for i in 0..n {
            assert_eq!(cycle_prev(cycle_next(i, n), n), i);
        }
    }
    assert_eq!(cycle_next(3, 12), 4);
    assert_eq!(cycle_prev(3, 12), 2);
}

#[test]
fn key_labels() {
    assert_eq!(Key::Char('x').label(), "x");
    assert_eq!(Key::Ctrl('t').label(), "<Ctrl+t>");
    assert_eq!(Key::Alt('q').label(), "<Alt+q>");
    assert_eq!(Key::Enter.label(), "<Enter>");
    assert_eq!(Key::Left.label(), "<Left Arrow Key>");
    assert!(Key::Tab.is_forward());
    assert!(Key::Up.is_backward());
    assert!(!Key::Enter.is_forward());
}
