use leptos_todo_new::record::{page_offset, total_pages, PaginatedTodos, Todo, PAGE_SIZE};

fn row(id: i32) -> Todo {
    Todo::from_row(id, format!("title {id}"), format!("about {id}"), "2024-05-01".to_string())
}

#[test]
fn page_size_is_ten() {
    assert_eq!(PAGE_SIZE, 10);
}

#[test]
fn total_pages_is_the_ceiling_of_a_tenth() {
    assert_eq!(total_pages(0), 0);
    assert_eq!(total_pages(1), 1);
    assert_eq!(total_pages(9), 1);
    assert_eq!(total_pages(10), 1);
    assert_eq!(total_pages(11), 2);
    assert_eq!(total_pages(20), 2);
    assert_eq!(total_pages(23), 3);
    assert_eq!(total_pages(100), 10);
    assert_eq!(total_pages(101), 11);
}

#[test]
fn total_pages_is_zero_only_without_records() {
    for total in 0u32..500 {
        let pages = total_pages(total);
        assert_eq!(pages == 0, total == 0);
        assert!(pages as u64 * 10 >= total as u64);
        if total > 0 {
            assert!((pages as u64 - 1) * 10 < total as u64);
        }
    }
}

#[test]
fn total_pages_of_the_largest_counts() {
    assert_eq!(total_pages(u32::MAX), 429_496_730);
    assert_eq!(total_pages(u32::MAX - 5), 429_496_729);
    assert_eq!(total_pages(u32::MAX - 6), 429_496_729);
    assert_eq!(total_pages(4_294_967_290), 429_496_729);
    assert_eq!(total_pages(4_294_967_291), 429_496_730);
}

#[test]
fn page_offset_counts_the_records_before_the_page() {
    assert_eq!(page_offset(0), 0);
    assert_eq!(page_offset(1), 10);
    assert_eq!(page_offset(3), 30);
    assert_eq!(page_offset(u32::MAX), 42_949_672_950);
}

#[test]
fn a_row_is_an_open_record_without_creation_time() {
    let todo = Todo::from_row(
        7,
        "buy milk".to_string(),
        "two litres".to_string(),
        "2024-03-09".to_string(),
    );
    assert_eq!(
        todo,
        Todo {
            id: 7,
            title: "buy milk".to_string(),
            description: "two litres".to_string(),
            completed: false,
            created: None,
            due_date: "2024-03-09".to_string(),
        }
    );
}

#[test]
fn a_page_carries_its_counts() {
    let page = PaginatedTodos::new(vec![row(23), row(22), row(21)], 23, 2);
    assert_eq!(page.items, vec![row(23), row(22), row(21)]);
    assert_eq!(page.total, 23);
    assert_eq!(page.page, 2);
    assert_eq!(page.total_pages, 3);
}

#[test]
fn an_empty_list_has_no_page() {
    let page = PaginatedTodos::new(Vec::new(), 0, 0);
    assert!(page.items.is_empty());
    assert_eq!(page.total_pages, 0);
}

#[test]
fn a_page_out_of_range_is_kept_as_asked() {
    let page = PaginatedTodos::new(Vec::new(), 5, 9);
    assert_eq!(page.page, 9);
    assert_eq!(page.total_pages, 1);
}
