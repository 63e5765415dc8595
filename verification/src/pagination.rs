//! The pagination controller: the window of page buttons and the page that
//! each navigation button leads to.

use vstd::prelude::*;
use crate::record::{page_count, total_pages};

verus! {

/// Number of page buttons shown at once.
pub const VISIBLE_PAGES: u32 = 5;

/// Number of buttons kept on either side of the current page.
pub open spec fn half_window() -> int {
    VISIBLE_PAGES as int / 2
}

/// First page of the window. Near the first page the window starts at 0;
/// near the last page it ends at the last page; in between it is centered
/// on the current page.
pub open spec fn window_first(current: int, total_pages: int) -> int {
    if current <= half_window() {
        0
    } else if current + half_window() >= total_pages {
        if total_pages >= VISIBLE_PAGES {
            total_pages - VISIBLE_PAGES
        } else {
            0
        }
    } else {
        current - half_window()
    }
}

/// The page after the last page of the window.
pub open spec fn window_limit(current: int, total_pages: int) -> int {
    if window_first(current, total_pages) + VISIBLE_PAGES <= total_pages {
        window_first(current, total_pages) + VISIBLE_PAGES
    } else {
        total_pages
    }
}

/// The pages of the window, in ascending order.
pub open spec fn window_pages(current: int, total_pages: int) -> Seq<int> {
    Seq::new(
        (window_limit(current, total_pages) - window_first(current, total_pages)) as nat,
        |i: int| window_first(current, total_pages) + i,
    )
}

/// The window lies inside `[0, total_pages)`, holds `min(VISIBLE_PAGES,
/// total_pages)` pages, holds the current page whenever that is a page of
/// the list, and has it in the middle when it is more than `half_window()`
/// away from both ends.
pub proof fn lemma_window_shape(current: nat, total_pages: nat)
    ensures
        0 <= window_first(current as int, total_pages as int) <= window_limit(
            current as int,
            total_pages as int,
        ) <= total_pages,
        window_pages(current as int, total_pages as int).len() == if total_pages
            < VISIBLE_PAGES {
            total_pages
        } else {
            VISIBLE_PAGES as nat
        },
        current < total_pages ==> window_first(current as int, total_pages as int) <= current
            < window_limit(current as int, total_pages as int),
        current > half_window() && current + half_window() < total_pages ==> {
            &&& window_first(current as int, total_pages as int) == current - half_window()
            &&& window_limit(current as int, total_pages as int) == current + half_window() + 1
        },
{
}

/// First page of the window of page buttons.
pub fn window_start(current: u32, total_pages: u32) -> (start: u32)
    ensures
        start == window_first(current as int, total_pages as int),
{
    let half: u32 = VISIBLE_PAGES / 2;
    if current <= half {
        0
    } else if total_pages < half || total_pages - half <= current {
        if total_pages >= VISIBLE_PAGES {
            total_pages - VISIBLE_PAGES
        } else {
            0
        }
    } else {
        current - half
    }
}

/// The page after the last page of the window of page buttons.
pub fn window_end(current: u32, total_pages: u32) -> (end: u32)
    ensures
        end == window_limit(current as int, total_pages as int),
{
    let start: u32 = window_start(current, total_pages);
    if total_pages >= VISIBLE_PAGES && start <= total_pages - VISIBLE_PAGES {
        start + VISIBLE_PAGES
    } else {
        total_pages
    }
}

/// The pages that get a button, in ascending order.
pub fn visible_pages(current: u32, total_pages: u32) -> (pages: Vec<u32>)
    ensures
        pages@.map_values(|p: u32| p as int) == window_pages(current as int, total_pages as int),
{
    let start: u32 = window_start(current, total_pages);
    let end: u32 = window_end(current, total_pages);
    proof {
        lemma_window_shape(current as nat, total_pages as nat);
    }
    let mut pages: Vec<u32> = Vec::new();
    let mut page: u32 = start;
    while page < end
        invariant
            start <= page <= end,
            pages@.len() == page - start,
            forall|i: int| 0 <= i < pages@.len() ==> pages@[i] == start + i,
        decreases end - page,
    {
        pages.push(page);
        page = page + 1;
    }
    assert(pages@.map_values(|p: u32| p as int) =~= window_pages(
        current as int,
        total_pages as int,
    ));
    pages
}

/// Whether an ellipsis stands before the buttons: the first button is not
/// page 0.
pub open spec fn start_ellipsis_of(pages: Seq<int>) -> bool {
    pages.len() > 0 && pages[0] > 0
}

/// Whether an ellipsis stands after the buttons: the last button is not the
/// last page. Without buttons, page 0 stands for the last button.
pub open spec fn end_ellipsis_of(pages: Seq<int>, total_pages: int) -> bool {
    if pages.len() > 0 {
        pages.last() < total_pages - 1
    } else {
        0 < total_pages - 1
    }
}

/// Whether an ellipsis stands before the page buttons.
pub fn show_start_ellipsis(pages: &Vec<u32>) -> (show: bool)
    ensures
        show == start_ellipsis_of(pages@.map_values(|p: u32| p as int)),
{
    pages.len() > 0 && pages[0] > 0
}

/// Whether an ellipsis stands after the page buttons.
pub fn show_end_ellipsis(pages: &Vec<u32>, total_pages: u32) -> (show: bool)
    ensures
        show == end_ellipsis_of(pages@.map_values(|p: u32| p as int), total_pages as int),
{
    let last: u32 = if pages.len() > 0 {
        pages[pages.len() - 1]
    } else {
        0
    };
    total_pages > 0 && last < total_pages - 1
}

/// A press on one of the navigation buttons.
#[derive(Clone, Copy, Debug, PartialEq, Eq, Structural)]
pub enum Navigation {
    First,
    Previous,
    Next,
    Last,
    Jump(u32),
}

/// The last page of the list; page 0 when the list has no page.
pub open spec fn last_page_of(total_pages: int) -> int {
    if total_pages > 0 {
        total_pages - 1
    } else {
        0
    }
}

/// The page that a navigation leads to. Previous stops at page 0 and Next
/// at the last page; a jump goes where it says.
pub open spec fn target_page(current: int, total_pages: int, nav: Navigation) -> int {
    match nav {
        Navigation::First => 0,
        Navigation::Previous => if current > 0 {
            current - 1
        } else {
            0
        },
        Navigation::Next => if current + 1 <= last_page_of(total_pages) {
            current + 1
        } else {
            last_page_of(total_pages)
        },
        Navigation::Last => last_page_of(total_pages),
        Navigation::Jump(page) => page as int,
    }
}

/// Whether the button is disabled: First and Previous on page 0, Next and
/// Last where no page follows the current one. Page buttons never are.
pub open spec fn disabled_spec(current: int, total_pages: int, nav: Navigation) -> bool {
    match nav {
        Navigation::First | Navigation::Previous => current == 0,
        Navigation::Next | Navigation::Last => current + 1 >= total_pages,
        Navigation::Jump(_) => false,
    }
}

/// From a page of the list, or from page 0 of an empty list, the four
/// navigation buttons lead to a page of the list (to page 0 when it is
/// empty), and a disabled button leads nowhere else.
pub proof fn lemma_navigation_stays_in_range(current: nat, total_pages: nat, nav: Navigation)
    requires
        current < total_pages || (current == 0 && total_pages == 0),
        !(nav is Jump),
    ensures
        0 <= target_page(current as int, total_pages as int, nav) <= last_page_of(
            total_pages as int,
        ),
        disabled_spec(current as int, total_pages as int, nav) ==> target_page(
            current as int,
            total_pages as int,
            nav,
        ) == current,
{
}

/// The last page of the list; page 0 when the list has no page.
pub fn last_page(total_pages: u32) -> (page: u32)
    ensures
        page == last_page_of(total_pages as int),
{
    if total_pages > 0 {
        total_pages - 1
    } else {
        0
    }
}

/// The page that a navigation leads to.
pub fn navigate(current: u32, total_pages: u32, nav: Navigation) -> (page: u32)
    ensures
        page == target_page(current as int, total_pages as int, nav),
{
    match nav {
        Navigation::First => 0,
        Navigation::Previous => if current > 0 {
            current - 1
        } else {
            0
        },
        Navigation::Next => {
            let last: u32 = last_page(total_pages);
            if current < last {
                current + 1
            } else {
                last
            }
        },
        Navigation::Last => last_page(total_pages),
        Navigation::Jump(page) => page,
    }
}

/// Whether the navigation button is disabled.
pub fn is_disabled(current: u32, total_pages: u32, nav: Navigation) -> (disabled: bool)
    ensures
        disabled == disabled_spec(current as int, total_pages as int, nav),
{
    match nav {
        Navigation::First | Navigation::Previous => current == 0,
        Navigation::Next | Navigation::Last => total_pages == 0 || current >= total_pages - 1,
        Navigation::Jump(_) => false,
    }
}

/// All that the pagination bar shows for one page of the list.
#[derive(Clone, Debug, PartialEq)]
pub struct PaginationControls {
    pub current_page: u32,
    pub total_pages: u32,
    pub visible_pages: Vec<u32>,
    pub start_ellipsis: bool,
    pub end_ellipsis: bool,
    pub backward_disabled: bool,
    pub forward_disabled: bool,
}

impl PaginationControls {
    /// The bar is the one for page `current_page` of a list of `total`
    /// records.
    pub open spec fn is_for(&self, current_page: u32, total: u32) -> bool {
        let pages = page_count(total as nat) as int;
        let window = window_pages(current_page as int, pages);
        &&& self.current_page == current_page
        &&& self.total_pages == pages
        &&& self.visible_pages@.map_values(|p: u32| p as int) == window
        &&& self.start_ellipsis == start_ellipsis_of(window)
        &&& self.end_ellipsis == end_ellipsis_of(window, pages)
        &&& self.backward_disabled == (current_page == 0)
        &&& self.forward_disabled == (current_page + 1 >= pages)
    }

    /// Lays out the bar for page `current_page` of a list of `total`
    /// records.
    pub fn new(current_page: u32, total: u32) -> (controls: PaginationControls)
        ensures
            controls.is_for(current_page, total),
    {
        let pages: u32 = total_pages(total);
        let visible: Vec<u32> = visible_pages(current_page, pages);
        let start_ellipsis = show_start_ellipsis(&visible);
        let end_ellipsis = show_end_ellipsis(&visible, pages);
        PaginationControls {
            current_page,
            total_pages: pages,
            visible_pages: visible,
            start_ellipsis,
            end_ellipsis,
            backward_disabled: is_disabled(current_page, pages, Navigation::Previous),
            forward_disabled: is_disabled(current_page, pages, Navigation::Next),
        }
    }
}

} // verus!
