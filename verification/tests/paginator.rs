use drone_metrics::paginator::PAGE_SIZE;
use drone_metrics::{
    DroneBuildAuthorData, DroneBuildList, DroneBuildListItem, DroneBuildTimestamps,
    DroneBuildsPaginator, DroneEvent, DroneGitMetadata, DroneStatus, PaginatorAction,
};
use std::collections::VecDeque;

fn item(number: u32) -> DroneBuildListItem {
    DroneBuildListItem {
        id: number,
        repo_id: 2,
        trigger: "@hook".to_string(),
        number,
        status: DroneStatus::Success,
        event: DroneEvent::PullRequest,
        action: "sync".to_string(),
        link: "https://github.com/BitGo/bitgo-microservices/pull/7".to_string(),
        timestamp: 0,
        message: "message".to_string(),
        git_metadata: DroneGitMetadata {
            prev_git_sha: "000".to_string(),
            git_sha: "abc123".to_string(),
            git_ref: "refs/pull/7/head".to_string(),
        },
        source_repo: String::new(),
        source: "feature".to_string(),
        target: "develop".to_string(),
        author_data: DroneBuildAuthorData {
            author_login: "login".to_string(),
            author_name: "name".to_string(),
            author_email: "name@example.com".to_string(),
            author_avatar: "https://example.com/avatar.png".to_string(),
        },
        sender: "sender".to_string(),
        timestamps: DroneBuildTimestamps { started: 1, finished: 2, created: 0, updated: 2 },
        version: 1,
    }
}

fn page(numbers: &[u32]) -> DroneBuildList {
    DroneBuildList(numbers.iter().map(|number| item(*number)).collect::<VecDeque<_>>())
}

#[test]
fn new_list_is_empty() {
    assert_eq!(DroneBuildList::new().0.len(), 0);
    assert_eq!(DroneBuildList::with_capacity(50).0.len(), 0);
}

#[test]
fn page_size_is_fifty() {
    assert_eq!(PAGE_SIZE, 50);
}

#[test]
fn new_cursor_asks_for_the_first_page() {
    let paginator = DroneBuildsPaginator::new();
    assert_eq!(paginator.page(), 1);
    assert_eq!(paginator.buffered(), 0);
    assert_eq!(paginator.next_action(), PaginatorAction::FetchPage(1));
}

#[test]
fn entries_come_out_in_the_order_of_the_page() {
    let mut paginator = DroneBuildsPaginator::new();
    paginator.receive_page(page(&[30, 29, 28]));
    assert_eq!(paginator.page(), 2);
    assert_eq!(paginator.buffered(), 3);
    assert_eq!(paginator.next_action(), PaginatorAction::TakeBuffered);
    assert_eq!(paginator.take_buffered().map(|item| item.number), Some(30));
    assert_eq!(paginator.next_action(), PaginatorAction::TakeBuffered);
    assert_eq!(paginator.take_buffered().map(|item| item.number), Some(29));
    assert_eq!(paginator.take_buffered().map(|item| item.number), Some(28));
    assert_eq!(paginator.buffered(), 0);
}

#[test]
fn next_page_is_asked_for_only_when_the_buffer_is_empty() {
    let mut paginator = DroneBuildsPaginator::new();
    paginator.receive_page(page(&[30, 29]));
    assert_eq!(paginator.next_action(), PaginatorAction::TakeBuffered);
    let _ = paginator.take_buffered();
    assert_eq!(paginator.next_action(), PaginatorAction::TakeBuffered);
    let _ = paginator.take_buffered();
    assert_eq!(paginator.next_action(), PaginatorAction::FetchPage(2));
    paginator.receive_page(page(&[28]));
    assert_eq!(paginator.page(), 3);
    assert_eq!(paginator.take_buffered().map(|item| item.number), Some(28));
    assert_eq!(paginator.next_action(), PaginatorAction::FetchPage(3));
}

#[test]
fn taking_from_an_empty_buffer_gives_nothing_and_keeps_the_page() {
    let mut paginator = DroneBuildsPaginator::new();
    assert!(paginator.take_buffered().is_none());
    assert_eq!(paginator.page(), 1);
}

#[test]
fn an_empty_page_moves_the_cursor_on() {
    let mut paginator = DroneBuildsPaginator::new();
    paginator.receive_page(DroneBuildList::new());
    assert_eq!(paginator.page(), 2);
    assert!(paginator.take_buffered().is_none());
    assert_eq!(paginator.next_action(), PaginatorAction::FetchPage(2));
}

#[test]
fn skip_pages_moves_the_cursor_and_drops_the_buffer() {
    let mut paginator = DroneBuildsPaginator::new();
    paginator.receive_page(page(&[30, 29]));
    let paginator = paginator.skip_pages(3);
    assert_eq!(paginator.page(), 5);
    assert_eq!(paginator.buffered(), 0);
    assert_eq!(paginator.next_action(), PaginatorAction::FetchPage(5));
}

#[test]
fn skip_of_no_pages_changes_nothing() {
    let mut paginator = DroneBuildsPaginator::new();
    paginator.receive_page(page(&[30, 29]));
    let mut paginator = paginator.skip_pages(0);
    assert_eq!(paginator.page(), 2);
    assert_eq!(paginator.buffered(), 2);
    assert_eq!(paginator.take_buffered().map(|item| item.number), Some(30));
}

#[test]
fn skip_pages_mut_can_be_chained() {
    let mut paginator = DroneBuildsPaginator::new();
    paginator.receive_page(page(&[30]));
    let page = paginator.skip_pages_mut(2).skip_pages_mut(0).skip_pages_mut(4).page();
    assert_eq!(page, 8);
    assert_eq!(paginator.page(), 8);
    assert_eq!(paginator.buffered(), 0);
}

#[test]
fn a_page_received_behind_buffered_entries_goes_to_the_end() {
    let mut paginator = DroneBuildsPaginator::new();
    paginator.receive_page(page(&[30, 29]));
    paginator.receive_page(page(&[28]));
    assert_eq!(paginator.page(), 3);
    assert_eq!(paginator.take_buffered().map(|item| item.number), Some(30));
    assert_eq!(paginator.take_buffered().map(|item| item.number), Some(29));
    assert_eq!(paginator.take_buffered().map(|item| item.number), Some(28));
}
