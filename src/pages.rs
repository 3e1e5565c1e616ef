use vstd::prelude::*;
use vstd::string::StringExecFns;

pub use crate::block::{Block, BlockBorder, BlockContent, BlockTitle, BlockType};
pub use crate::debug::DebugPage;

use crate::block::{lemma_hovered_first_keeps, lemma_cleared_unselected, lemma_unselected_single_chain};
use crate::debug::debug_seeds;

verus! {

/// The pages a tab can show, in sidebar order.
#[derive(Clone, Copy, PartialEq, Eq, Structural, Debug)]
pub enum Page {
    Home,
    Spotlight,
    FacultyInfo,
    ClassMessages,
    TimeTable,
    ClassAttendance,
    CoursePage,
    Marks,
    Grades,
    GradeHistory,
    RoomInformation,
    Debug,
}

/// The number of pages in the catalogue.
pub const PAGE_COUNT: usize = 12;

/// The catalogue of pages, in the order the sidebar lists them.
pub open spec fn page_catalogue() -> Seq<Page> {
    seq![
        Page::Home,
        Page::Spotlight,
        Page::FacultyInfo,
        Page::ClassMessages,
        Page::TimeTable,
        Page::ClassAttendance,
        Page::CoursePage,
        Page::Marks,
        Page::Grades,
        Page::GradeHistory,
        Page::RoomInformation,
        Page::Debug,
    ]
}

/// Where a page stands in the catalogue.
pub open spec fn page_index(p: Page) -> int {
    match p {
        Page::Home => 0,
        Page::Spotlight => 1,
        Page::FacultyInfo => 2,
        Page::ClassMessages => 3,
        Page::TimeTable => 4,
        Page::ClassAttendance => 5,
        Page::CoursePage => 6,
        Page::Marks => 7,
        Page::Grades => 8,
        Page::GradeHistory => 9,
        Page::RoomInformation => 10,
        Page::Debug => 11,
    }
}

/// The name a page is shown under.
pub open spec fn page_title(p: Page) -> Seq<char> {
    match p {
        Page::Home => "Home"@,
        Page::Spotlight => "Spotlight"@,
        Page::FacultyInfo => "Faculty Info"@,
        Page::ClassMessages => "Class Messages"@,
        Page::TimeTable => "Time Table"@,
        Page::ClassAttendance => "Class Attendance"@,
        Page::CoursePage => "Course Page"@,
        Page::Marks => "Marks"@,
        Page::Grades => "Grades"@,
        Page::GradeHistory => "Grade History"@,
        Page::RoomInformation => "Room Information"@,
        Page::Debug => "Debug Page"@,
    }
}

/// The catalogue lists every page exactly once, at its index.
pub proof fn lemma_catalogue_index(p: Page)
    ensures
        page_catalogue().len() == PAGE_COUNT,
        0 <= page_index(p) < PAGE_COUNT,
        page_catalogue()[page_index(p)] == p,
        forall|i: int| 0 <= i < PAGE_COUNT ==> page_index(#[trigger] page_catalogue()[i]) == i,
{
}

impl Page {
    /// Every page, in catalogue order.
    pub fn iterator() -> (r: Vec<Page>)
        ensures
            r@ == page_catalogue(),
    {
        let r = vec![
            Page::Home,
            Page::Spotlight,
            Page::FacultyInfo,
            Page::ClassMessages,
            Page::TimeTable,
            Page::ClassAttendance,
            Page::CoursePage,
            Page::Marks,
            Page::Grades,
            Page::GradeHistory,
            Page::RoomInformation,
            Page::Debug,
        ];
        assert(r@ =~= page_catalogue());
        r
    }

    /// The page at position `i` of the catalogue.
    pub fn nth(i: usize) -> (r: Page)
        requires
            i < PAGE_COUNT,
        ensures
            r == page_catalogue()[i as int],
            page_index(r) == i,
    {
        match i {
            0 => Page::Home,
            1 => Page::Spotlight,
            2 => Page::FacultyInfo,
            3 => Page::ClassMessages,
            4 => Page::TimeTable,
            5 => Page::ClassAttendance,
            6 => Page::CoursePage,
            7 => Page::Marks,
            8 => Page::Grades,
            9 => Page::GradeHistory,
            10 => Page::RoomInformation,
            _ => Page::Debug,
        }
    }

    /// This page's position in the catalogue.
    pub fn index(&self) -> (r: usize)
        ensures
            r == page_index(*self),
            r < PAGE_COUNT,
            page_catalogue()[r as int] == *self,
    {
        match self {
            Page::Home => 0,
            Page::Spotlight => 1,
            Page::FacultyInfo => 2,
            Page::ClassMessages => 3,
            Page::TimeTable => 4,
            Page::ClassAttendance => 5,
            Page::CoursePage => 6,
            Page::Marks => 7,
            Page::Grades => 8,
            Page::GradeHistory => 9,
            Page::RoomInformation => 10,
            Page::Debug => 11,
        }
    }

    /// The name the page is shown under.
    pub fn title(&self) -> (r: String)
        ensures
            r@ == page_title(*self),
    {
        match self {
            Page::Home => String::from_str("Home"),
            Page::Spotlight => String::from_str("Spotlight"),
            Page::FacultyInfo => String::from_str("Faculty Info"),
            Page::ClassMessages => String::from_str("Class Messages"),
            Page::TimeTable => String::from_str("Time Table"),
            Page::ClassAttendance => String::from_str("Class Attendance"),
            Page::CoursePage => String::from_str("Course Page"),
            Page::Marks => String::from_str("Marks"),
            Page::Grades => String::from_str("Grades"),
            Page::GradeHistory => String::from_str("Grade History"),
            Page::RoomInformation => String::from_str("Room Information"),
            Page::Debug => String::from_str("Debug Page"),
        }
    }
}

/// A page together with the block tree it shows.
pub struct PageBlock {
    pub page: Page,
    pub block: Block,
}

/// The border after it is marked selected.
pub open spec fn selected_border(b: BlockBorder) -> BlockBorder {
    match b {
        BlockBorder::NoBorder => BlockBorder::NoBorder,
        BlockBorder::Border { is_highlighted, .. } => BlockBorder::Border { is_selected: true, is_highlighted },
    }
}

impl PageBlock {
    /// The tree is the one a page starts with: a titled container with a
    /// selected border, the page's seeded children, its first child hovered,
    /// and no other cursor set anywhere.
    pub open spec fn is_fresh(&self) -> bool {
        let root = self.block;
        let kids = root.children();
        &&& root.title matches BlockTitle::Title(t) && t@ == page_title(self.page)
        &&& root.border == (BlockBorder::Border { is_selected: true, is_highlighted: false })
        &&& root.is_container()
        &&& (if self.page is Debug {
            debug_seeds(kids)
        } else {
            kids.len() == 0
        })
        &&& root.selected() is None
        &&& root.hovered() == (if kids.len() > 0 {
            Some(0usize)
        } else {
            None
        })
        &&& forall|j: int| 0 <= j < kids.len() ==> (#[trigger] kids[j]).cleared()
        &&& root.wf()
        &&& root.unselected()
        &&& root.single_chain()
    }

    /// A fresh page block for `page`.
    pub fn new(page: Page) -> (r: PageBlock)
        ensures
            r.page == page,
            r.is_fresh(),
    {
        let block = Block::default(page.title(), BlockType::ContainerBlock);
        proof {
            lemma_cleared_unselected(block);
        }
        let r = PageBlock { page, block }.init_page();
        proof {
            lemma_unselected_single_chain(r.block);
        }
        r
    }

    /// Fills the page's own blocks into the tree, marks the root's border
    /// selected and hovers its first child.
    pub fn init_page(self) -> (r: Self)
        requires
            self.page is Debug ==> self.block.is_container(),
        ensures
            r.page == self.page,
            r.block.title == self.block.title,
            r.block.border == selected_border(self.block.border),
            r.block.selected() == self.block.selected(),
            self.block.is_container() ==> {
                &&& r.block.is_container()
                &&& (if self.page is Debug {
                    &&& r.block.children().len() == self.block.children().len() + 2
                    &&& r.block.children().subrange(0, self.block.children().len() as int)
                        == self.block.children()
                    &&& debug_seeds(r.block.children().subrange(self.block.children().len() as int, r.block.children().len() as int))
                } else {
                    r.block.children() == self.block.children()
                })
                &&& r.block.hovered() == (if r.block.children().len() > 0 {
                    Some(0usize)
                } else {
                    self.block.hovered()
                })
            },
            !self.block.is_container() ==> r.block.content == self.block.content,
            self.block.wf() ==> r.block.wf(),
            self.block.cleared() ==> forall|j: int|
                0 <= j < r.block.children().len() ==> (#[trigger] r.block.children()[j]).cleared(),
            self.block.unselected() ==> r.block.unselected(),
    {
        let mut this = self;
        match this.page {
            Page::Debug => DebugPage::fill_inner_blocks(&mut this.block),
            _ => {},
        }
        let ghost filled = this.block;
        this.block.select_border();
        let ghost bordered = this.block;
        this.block.hover_first_block();
        proof {
            lemma_hovered_first_keeps(bordered);
            assert(bordered.children() == filled.children());
            if filled.wf() {
                assert forall|j: int| 0 <= j < bordered.children().len() implies (#[trigger] bordered.children()[j]).wf() by {
                    assert(filled.children()[j].wf());
                }
            }
            if filled.unselected() {
                assert forall|j: int| 0 <= j < bordered.children().len() implies (#[trigger] bordered.children()[j]).unselected() by {
                    assert(filled.children()[j].unselected());
                }
            }
            if self.block.cleared() {
                assert forall|j: int| 0 <= j < filled.children().len() implies (#[trigger] filled.children()[j]).cleared() by {
                    if j < self.block.children().len() {
                        assert(self.block.children()[j].cleared());
                    }
                }
            }
        }
        this
    }
}

} // verus!
