//! Records of the to-do list and the page arithmetic of a list query.

use vstd::prelude::*;

verus! {

/// Number of records on one page of the list.
pub const PAGE_SIZE: u32 = 10;

/// One to-do entry as the list shows it.
#[derive(Clone, Debug, PartialEq)]
pub struct Todo {
    pub id: i32,
    pub title: String,
    pub description: String,
    pub completed: bool,
    pub created: Option<String>,
    pub due_date: String,
}

/// What a `Todo` holds, as mathematical values.
pub struct TodoView {
    pub id: int,
    pub title: Seq<char>,
    pub description: Seq<char>,
    pub completed: bool,
    pub created: Option<Seq<char>>,
    pub due_date: Seq<char>,
}

impl View for Todo {
    type V = TodoView;

    open spec fn view(&self) -> TodoView {
        TodoView {
            id: self.id as int,
            title: self.title@,
            description: self.description@,
            completed: self.completed,
            created: match self.created {
                Some(s) => Some(s@),
                None => None,
            },
            due_date: self.due_date@,
        }
    }
}

/// The views of a vector of records, in order.
pub open spec fn todo_views(items: Seq<Todo>) -> Seq<TodoView> {
    Seq::new(items.len(), |i: int| items[i]@)
}

impl Todo {
    /// A record as a list or search query returns it: such a query selects
    /// only records that are not completed and does not read the creation
    /// time.
    pub fn from_row(id: i32, title: String, description: String, due_date: String) -> (todo: Todo)
        ensures
            todo.id == id,
            todo.title == title,
            todo.description == description,
            todo.due_date == due_date,
            !todo.completed,
            todo.created is None,
    {
        Todo { id, title, description, completed: false, created: None, due_date }
    }
}

/// One page of the list, with the counts that the pagination needs.
#[derive(Clone, Debug, PartialEq)]
pub struct PaginatedTodos {
    pub items: Vec<Todo>,
    pub total: u32,
    pub page: u32,
    pub total_pages: u32,
}

/// What a `PaginatedTodos` holds, as mathematical values.
pub struct PageView {
    pub items: Seq<TodoView>,
    pub total: nat,
    pub page: nat,
    pub total_pages: nat,
}

impl View for PaginatedTodos {
    type V = PageView;

    open spec fn view(&self) -> PageView {
        PageView {
            items: todo_views(self.items@),
            total: self.total as nat,
            page: self.page as nat,
            total_pages: self.total_pages as nat,
        }
    }
}

/// The number of pages that `total` records fill: the least `p` with
/// `p * PAGE_SIZE >= total`.
pub open spec fn page_count(total: nat) -> nat {
    (total + PAGE_SIZE - 1) as nat / (PAGE_SIZE as nat)
}

/// `page_count(total)` is the ceiling of `total / PAGE_SIZE`: the pages hold
/// every record, one page fewer would not, and there is no page exactly when
/// there is no record.
pub proof fn lemma_page_count_is_ceiling(total: nat)
    ensures
        page_count(total) * PAGE_SIZE >= total,
        total > 0 ==> (page_count(total) - 1) * PAGE_SIZE < total,
        page_count(total) == 0 <==> total == 0,
{
}

/// Number of pages for `total` records.
pub fn total_pages(total: u32) -> (pages: u32)
    ensures
        pages == page_count(total as nat),
        pages * PAGE_SIZE >= total,
        total > 0 ==> (pages - 1) * PAGE_SIZE < total,
        pages == 0 <==> total == 0,
{
    proof {
        lemma_page_count_is_ceiling(total as nat);
    }
    if total % PAGE_SIZE == 0 {
        total / PAGE_SIZE
    } else {
        total / PAGE_SIZE + 1
    }
}

/// Number of records that come before page `page` in the list.
pub fn page_offset(page: u32) -> (offset: i64)
    ensures
        offset == page * PAGE_SIZE,
{
    let page_wide: i64 = page as i64;
    let size_wide: i64 = PAGE_SIZE as i64;
    page_wide * size_wide
}

impl PaginatedTodos {
    /// The page count agrees with the record count.
    pub open spec fn wf(&self) -> bool {
        self.total_pages == page_count(self.total as nat)
    }

    /// Assembles the answer to a list query for page `page`, given the
    /// records of that page and the count of all listed records.
    pub fn new(items: Vec<Todo>, total: u32, page: u32) -> (result: PaginatedTodos)
        ensures
            result.items == items,
            result.total == total,
            result.page == page,
            result.total_pages == page_count(total as nat),
            result.wf(),
    {
        PaginatedTodos { items, total, page, total_pages: total_pages(total) }
    }
}

} // verus!
