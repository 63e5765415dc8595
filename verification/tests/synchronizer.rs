use leptos_todo_new::mutation::{Mutation, MutationKind, ValidationError};
use leptos_todo_new::notification::{NotificationState, NotificationType};
use leptos_todo_new::pagination::Navigation;
use leptos_todo_new::record::{PaginatedTodos, Todo};
use leptos_todo_new::sync::{
    FetchRequest, ListPanel, MutationVersions, Rejection, Settlement, ViewSynchronizer,
};

fn row(id: i32) -> Todo {
    Todo::from_row(id, format!("title {id}"), String::new(), "2024-05-01".to_string())
}

/// The answer of a store that holds the open records with these ids, newest first.
fn list(ids: &[i32], page: u32) -> Result<PaginatedTodos, String> {
    let items = ids.iter().skip(page as usize * 10).take(10).map(|id| row(*id)).collect();
    Ok(PaginatedTodos::new(items, ids.len() as u32, page))
}

fn ids(count: i32) -> Vec<i32> {
    (1..=count).rev().collect()
}

fn add(title: &str, due_date: &str) -> Mutation {
    Mutation::Add {
        title: title.to_string(),
        description: String::new(),
        due_date: due_date.to_string(),
    }
}

fn loaded(count: i32) -> ViewSynchronizer {
    let (mut sync, first) = ViewSynchronizer::new();
    assert!(sync.fetch_resolved(first.ticket, list(&ids(count), first.page)));
    sync
}

#[test]
fn a_new_synchronizer_asks_for_the_first_page() {
    let (sync, first) = ViewSynchronizer::new();
    assert_eq!(first, FetchRequest { ticket: 1, page: 0 });
    assert_eq!(sync.current_page(), 0);
    assert_eq!(sync.issued(), 1);
    assert!(sync.is_awaiting());
    assert_eq!(sync.versions(), MutationVersions { add: 0, complete: 0, update: 0, delete: 0 });
    assert_eq!(sync.displayed(), &None);
    assert_eq!(sync.list_panel(), ListPanel::Loading);
    assert_eq!(sync.pagination(), None);
    assert_eq!(sync.notification(), &NotificationState { visible: false, kind: None });
    for kind in [MutationKind::Add, MutationKind::Complete, MutationKind::Update, MutationKind::Delete]
    {
        assert!(!sync.is_pending(kind));
    }
}

#[test]
fn the_first_answer_is_shown() {
    let sync = loaded(23);
    assert!(!sync.is_awaiting());
    assert_eq!(sync.list_panel(), ListPanel::Items);
    assert_eq!(sync.displayed(), &Some(list(&ids(23), 0)));
    assert_eq!(sync.total_pages(), 3);
}

#[test]
fn an_empty_page_and_an_error_have_panels_of_their_own() {
    let sync = loaded(0);
    assert_eq!(sync.list_panel(), ListPanel::AllDone);
    assert_eq!(sync.total_pages(), 0);

    let (mut sync, first) = ViewSynchronizer::new();
    assert!(sync.fetch_resolved(first.ticket, Err("connection refused".to_string())));
    assert_eq!(sync.list_panel(), ListPanel::Failed);
    assert_eq!(sync.displayed(), &Some(Err("connection refused".to_string())));
    assert_eq!(sync.pagination(), None);
    assert_eq!(sync.total_pages(), 0);
    assert_eq!(sync.current_page(), 0);
}

#[test]
fn twenty_three_records_from_first_to_last_page() {
    let mut sync = loaded(23);
    let bar = sync.pagination().unwrap();
    assert_eq!(bar.total_pages, 3);
    assert_eq!(bar.visible_pages, vec![0, 1, 2]);
    assert!(bar.backward_disabled);
    assert!(!bar.forward_disabled);

    let request = sync.navigate(Navigation::Last).unwrap();
    assert_eq!(request, FetchRequest { ticket: 2, page: 2 });
    assert_eq!(sync.current_page(), 2);
    assert!(sync.fetch_resolved(request.ticket, list(&ids(23), request.page)));
    let bar = sync.pagination().unwrap();
    assert_eq!(bar.current_page, 2);
    assert_eq!(bar.visible_pages, vec![0, 1, 2]);
    assert!(bar.forward_disabled);
    assert!(!bar.backward_disabled);
    assert_eq!(sync.displayed().clone().unwrap().unwrap().items, vec![row(3), row(2), row(1)]);

    let mut other = loaded(23);
    assert_eq!(other.navigate(Navigation::Jump(2)), Some(FetchRequest { ticket: 2, page: 2 }));
    assert_eq!(other.current_page(), 2);
}

#[test]
fn navigation_that_stays_on_the_page_asks_for_nothing() {
    let mut sync = loaded(23);
    assert_eq!(sync.navigate(Navigation::First), None);
    assert_eq!(sync.navigate(Navigation::Previous), None);
    assert_eq!(sync.navigate(Navigation::Jump(0)), None);
    assert_eq!(sync.issued(), 1);
    assert!(!sync.is_awaiting());
    assert_eq!(sync.navigate(Navigation::Next), Some(FetchRequest { ticket: 2, page: 1 }));
    assert!(sync.is_awaiting());
    assert_eq!(sync.navigate(Navigation::Next), Some(FetchRequest { ticket: 3, page: 2 }));
    assert_eq!(sync.navigate(Navigation::Next), None);
    assert_eq!(sync.navigate(Navigation::Last), None);
    assert_eq!(sync.navigate(Navigation::Previous), Some(FetchRequest { ticket: 4, page: 1 }));
    assert_eq!(sync.navigate(Navigation::First), Some(FetchRequest { ticket: 5, page: 0 }));
}

#[test]
fn the_old_page_stays_while_the_new_one_loads() {
    let mut sync = loaded(23);
    let request = sync.navigate(Navigation::Next).unwrap();
    assert!(sync.is_awaiting());
    assert_eq!(sync.list_panel(), ListPanel::Items);
    assert_eq!(sync.displayed(), &Some(list(&ids(23), 0)));
    assert!(sync.fetch_resolved(request.ticket, list(&ids(23), 1)));
    assert_eq!(sync.displayed(), &Some(list(&ids(23), 1)));
}

#[test]
fn navigation_on_an_empty_list_goes_nowhere() {
    let mut sync = loaded(0);
    for nav in [Navigation::First, Navigation::Previous, Navigation::Next, Navigation::Last] {
        assert_eq!(sync.navigate(nav), None);
        assert_eq!(sync.current_page(), 0);
    }
    assert_eq!(sync.pagination().unwrap().visible_pages, Vec::<u32>::new());
}

#[test]
fn an_add_without_title_is_rejected_locally() {
    let mut sync = loaded(3);
    let result = sync.dispatch(&add("", "2024-01-01"));
    assert_eq!(
        result,
        Err(Rejection { error: ValidationError::EmptyTitle, dismiss_after_ms: 1000 })
    );
    assert_eq!(sync.versions(), MutationVersions { add: 0, complete: 0, update: 0, delete: 0 });
    assert!(!sync.is_pending(MutationKind::Add));
    assert_eq!(sync.issued(), 1);
    assert!(!sync.is_awaiting());
    assert_eq!(sync.displayed(), &Some(list(&ids(3), 0)));
    assert_eq!(
        sync.notification(),
        &NotificationState {
            visible: true,
            kind: Some(NotificationType::Error("title cannot be empty".to_string())),
        }
    );
}

#[test]
fn an_update_without_due_date_is_rejected_locally() {
    let mut sync = loaded(3);
    let update = Mutation::Update {
        id: 2,
        title: "milk".to_string(),
        description: String::new(),
        due_date: String::new(),
    };
    assert_eq!(
        sync.dispatch(&update),
        Err(Rejection { error: ValidationError::EmptyDueDate, dismiss_after_ms: 1000 })
    );
    assert!(!sync.is_pending(MutationKind::Update));
    assert_eq!(sync.versions().update, 0);
    assert_eq!(sync.notification().message(), "due_date cannot be empty");
}

#[test]
fn a_valid_mutation_is_pending_until_it_settles() {
    let mut sync = loaded(3);
    assert_eq!(sync.dispatch(&add("milk", "2024-01-01")), Ok(MutationKind::Add));
    assert!(sync.is_pending(MutationKind::Add));
    assert!(!sync.is_pending(MutationKind::Update));
    assert_eq!(sync.versions().add, 0);
    assert_eq!(sync.issued(), 1);
    assert_eq!(sync.notification(), &NotificationState { visible: false, kind: None });

    assert_eq!(sync.dispatch(&add("eggs", "2024-01-02")), Ok(MutationKind::Add));
    sync.settle(MutationKind::Add, Ok(()));
    assert!(sync.is_pending(MutationKind::Add));
    sync.settle(MutationKind::Add, Ok(()));
    assert!(!sync.is_pending(MutationKind::Add));
    assert_eq!(sync.versions().add, 2);
}

#[test]
fn a_settled_add_resets_the_form_and_asks_for_the_page() {
    let mut sync = loaded(3);
    sync.dispatch(&add("milk", "2024-01-01")).unwrap();
    let effects = sync.settle(MutationKind::Add, Ok(()));
    assert_eq!(
        effects,
        Settlement {
            request: FetchRequest { ticket: 2, page: 0 },
            reset_form: true,
            dismiss_after_ms: Some(1000),
        }
    );
    assert_eq!(sync.versions(), MutationVersions { add: 1, complete: 0, update: 0, delete: 0 });
    assert!(sync.is_awaiting());
    assert_eq!(
        sync.notification(),
        &NotificationState { visible: true, kind: Some(NotificationType::SuccessAdd) }
    );
}

#[test]
fn every_kind_has_its_notification() {
    let mut sync = loaded(3);
    let effects = sync.settle(MutationKind::Update, Ok(()));
    assert!(!effects.reset_form);
    assert_eq!(effects.dismiss_after_ms, Some(1000));
    assert_eq!(sync.notification().kind, Some(NotificationType::SuccessUpdate));

    let effects = sync.settle(MutationKind::Delete, Ok(()));
    assert!(!effects.reset_form);
    assert_eq!(effects.dismiss_after_ms, Some(1000));
    assert_eq!(sync.notification().kind, Some(NotificationType::SuccessDelete));

    let effects = sync.settle(MutationKind::Complete, Ok(()));
    assert!(!effects.reset_form);
    assert_eq!(effects.dismiss_after_ms, None);
    assert_eq!(sync.notification().kind, Some(NotificationType::SuccessDelete));
    assert_eq!(sync.versions(), MutationVersions { add: 0, complete: 1, update: 1, delete: 1 });
    assert_eq!(effects.request, FetchRequest { ticket: 4, page: 0 });
}

#[test]
fn a_failed_mutation_counts_and_notifies() {
    for kind in [MutationKind::Add, MutationKind::Complete, MutationKind::Update, MutationKind::Delete]
    {
        let mut sync = loaded(3);
        let effects = sync.settle(kind, Err("store is down".to_string()));
        assert_eq!(
            effects,
            Settlement {
                request: FetchRequest { ticket: 2, page: 0 },
                reset_form: false,
                dismiss_after_ms: Some(1000),
            }
        );
        assert_eq!(sync.versions().get(kind), 1);
        assert_eq!(
            sync.notification(),
            &NotificationState {
                visible: true,
                kind: Some(NotificationType::Error("store is down".to_string())),
            }
        );
        assert_eq!(sync.notification().message(), "store is down");
    }
}

#[test]
fn a_settlement_without_a_dispatch_leaves_nothing_pending() {
    let mut sync = loaded(3);
    sync.settle(MutationKind::Delete, Ok(()));
    assert!(!sync.is_pending(MutationKind::Delete));
    assert_eq!(sync.versions().delete, 1);
}

#[test]
fn the_timer_of_an_earlier_notification_hides_a_later_one() {
    let mut sync = loaded(3);
    sync.settle(MutationKind::Add, Ok(()));
    sync.settle(MutationKind::Delete, Ok(()));
    assert_eq!(sync.notification().kind, Some(NotificationType::SuccessDelete));
    sync.dismiss_notification();
    assert_eq!(sync.notification(), &NotificationState { visible: false, kind: None });
    assert_eq!(sync.notification().message(), "");
    sync.dismiss_notification();
    assert_eq!(sync.notification(), &NotificationState { visible: false, kind: None });
    assert_eq!(sync.versions(), MutationVersions { add: 1, complete: 0, update: 0, delete: 1 });
}

#[test]
fn a_stale_answer_is_dropped() {
    let mut sync = loaded(12);
    let first = sync.settle(MutationKind::Add, Ok(())).request;
    let second = sync.settle(MutationKind::Delete, Ok(())).request;
    assert_eq!((first.ticket, second.ticket), (2, 3));

    assert!(!sync.fetch_resolved(first.ticket, list(&ids(13), 0)));
    assert_eq!(sync.displayed(), &Some(list(&ids(12), 0)));
    assert!(sync.is_awaiting());

    assert!(sync.fetch_resolved(second.ticket, list(&ids(12), 0)));
    assert!(!sync.is_awaiting());
    assert_eq!(sync.displayed(), &Some(list(&ids(12), 0)));
}

#[test]
fn answers_in_any_order_leave_the_last_one_shown() {
    let fresh = list(&[9, 7, 5, 4], 0);
    let stale_one = list(&[8, 7, 6, 5, 4], 0);
    let stale_two = list(&[9, 8, 7, 5, 4], 0);
    let orders: [[usize; 3]; 6] =
        [[0, 1, 2], [0, 2, 1], [1, 0, 2], [1, 2, 0], [2, 0, 1], [2, 1, 0]];
    for order in orders {
        let mut sync = loaded(5);
        let requests = [
            sync.settle(MutationKind::Add, Ok(())).request,
            sync.settle(MutationKind::Complete, Err("timeout".to_string())).request,
            sync.settle(MutationKind::Delete, Ok(())).request,
        ];
        let answers = [stale_one.clone(), stale_two.clone(), fresh.clone()];
        for index in order {
            let applied = sync.fetch_resolved(requests[index].ticket, answers[index].clone());
            assert_eq!(applied, index == 2);
        }
        assert!(!sync.is_awaiting());
        assert_eq!(sync.displayed(), &Some(fresh.clone()));
        let items = sync.displayed().clone().unwrap().unwrap().items;
        let shown: Vec<i32> = items.iter().map(|todo| todo.id).collect();
        assert_eq!(shown, vec![9, 7, 5, 4]);
        assert_eq!(sync.versions(), MutationVersions { add: 1, complete: 1, update: 0, delete: 1 });
    }
}

#[test]
fn an_answer_that_comes_twice_is_dropped_the_second_time() {
    let mut sync = loaded(5);
    let request = sync.settle(MutationKind::Update, Ok(())).request;
    assert!(sync.fetch_resolved(request.ticket, list(&ids(5), 0)));
    assert!(!sync.fetch_resolved(request.ticket, list(&ids(99), 0)));
    assert_eq!(sync.displayed(), &Some(list(&ids(5), 0)));
}

#[test]
fn an_answer_to_a_request_never_made_is_dropped() {
    let mut sync = loaded(5);
    assert!(!sync.fetch_resolved(40, list(&ids(1), 0)));
    assert!(!sync.fetch_resolved(0, list(&ids(1), 0)));
    assert_eq!(sync.displayed(), &Some(list(&ids(5), 0)));
}

#[test]
fn a_request_after_navigation_asks_for_the_new_page() {
    let mut sync = loaded(35);
    let moved = sync.navigate(Navigation::Jump(3)).unwrap();
    let settled = sync.settle(MutationKind::Complete, Ok(())).request;
    assert_eq!(moved, FetchRequest { ticket: 2, page: 3 });
    assert_eq!(settled, FetchRequest { ticket: 3, page: 3 });
    assert!(!sync.fetch_resolved(moved.ticket, list(&ids(35), 3)));
    assert!(sync.fetch_resolved(settled.ticket, list(&ids(34), 3)));
    assert_eq!(sync.displayed(), &Some(list(&ids(34), 3)));
    assert_eq!(sync.current_page(), 3);
}

#[test]
fn completing_or_deleting_twice_is_no_error_and_changes_no_count() {
    let after = [5, 4, 2, 1];
    let mut sync = loaded(5);
    for _ in 0..2 {
        assert_eq!(sync.dispatch(&Mutation::Complete { id: 3 }), Ok(MutationKind::Complete));
        let effects = sync.settle(MutationKind::Complete, Ok(()));
        assert!(sync.fetch_resolved(effects.request.ticket, list(&after, 0)));
        assert_eq!(sync.displayed().clone().unwrap().unwrap().total, 4);
    }
    for _ in 0..2 {
        assert_eq!(sync.dispatch(&Mutation::Delete { id: 3 }), Ok(MutationKind::Delete));
        let effects = sync.settle(MutationKind::Delete, Ok(()));
        assert!(sync.fetch_resolved(effects.request.ticket, list(&after, 0)));
        assert_eq!(sync.displayed().clone().unwrap().unwrap().total, 4);
    }
    assert_eq!(sync.versions(), MutationVersions { add: 0, complete: 2, update: 0, delete: 2 });
}

#[test]
fn an_update_of_a_deleted_record_still_reports_success() {
    let mut sync = loaded(5);
    let update = Mutation::Update {
        id: 3,
        title: "milk".to_string(),
        description: String::new(),
        due_date: "2024-01-01".to_string(),
    };
    assert_eq!(sync.dispatch(&Mutation::Delete { id: 3 }), Ok(MutationKind::Delete));
    assert_eq!(sync.dispatch(&update), Ok(MutationKind::Update));
    let deleted = sync.settle(MutationKind::Delete, Ok(()));
    let updated = sync.settle(MutationKind::Update, Ok(()));
    assert_eq!(sync.notification().kind, Some(NotificationType::SuccessUpdate));
    assert_eq!(sync.notification().message(), "Todo item updated successfully!");

    let store = [5, 4, 2, 1];
    assert!(!sync.fetch_resolved(deleted.request.ticket, list(&store, 0)));
    assert!(sync.fetch_resolved(updated.request.ticket, list(&store, 0)));
    assert_eq!(sync.displayed(), &Some(list(&store, 0)));
    assert_eq!(sync.list_panel(), ListPanel::Items);
    assert_eq!(sync.versions(), MutationVersions { add: 0, complete: 0, update: 1, delete: 1 });
    assert!(!sync.is_pending(MutationKind::Update));
    assert!(!sync.is_pending(MutationKind::Delete));
}

#[test]
fn a_failed_fetch_stays_in_the_list_panel() {
    let mut sync = loaded(23);
    let moved = sync.navigate(Navigation::Next).unwrap();
    assert!(sync.fetch_resolved(moved.ticket, Err("timeout".to_string())));
    assert_eq!(sync.list_panel(), ListPanel::Failed);
    assert_eq!(sync.pagination(), None);
    assert_eq!(sync.current_page(), 1);
    assert_eq!(sync.notification(), &NotificationState { visible: false, kind: None });
    let retry = sync.settle(MutationKind::Complete, Ok(())).request;
    assert_eq!(retry, FetchRequest { ticket: 3, page: 1 });
    assert!(sync.fetch_resolved(retry.ticket, list(&ids(22), 1)));
    assert_eq!(sync.list_panel(), ListPanel::Items);
}

#[test]
fn version_counters_move_one_at_a_time() {
    let mut versions = MutationVersions::new();
    assert_eq!(versions, MutationVersions { add: 0, complete: 0, update: 0, delete: 0 });
    versions.raise(MutationKind::Update);
    versions.raise(MutationKind::Update);
    versions.raise(MutationKind::Delete);
    assert_eq!(versions, MutationVersions { add: 0, complete: 0, update: 2, delete: 1 });
    assert_eq!(versions.get(MutationKind::Update), 2);
    versions.lower(MutationKind::Update);
    versions.lower(MutationKind::Add);
    assert_eq!(versions, MutationVersions { add: 0, complete: 0, update: 1, delete: 1 });
}
