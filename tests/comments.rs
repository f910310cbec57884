use content_platform::comment::{
    CommentFilters, CommentStatus, CreateCommentRequest, ListScope, ModerateAction,
    ModerateCommentRequest, MockCommentService, UpdateCommentRequest, MAX_NESTING_LEVEL,
};
use content_platform::error::CommentError;

const POST: u128 = 0x10;
const AUTHOR: u128 = 0xa1;
const OTHER: u128 = 0xb2;
const MODERATOR: u128 = 0xc3;

fn request(parent_id: Option<u128>, content: &str) -> CreateCommentRequest {
    CreateCommentRequest { post_id: POST, parent_id, content: content.to_string() }
}

fn approve(svc: &mut MockCommentService, id: u128, now: i64) {
    let req = ModerateCommentRequest { action: ModerateAction::Approve, reason: None };
    svc.moderate_comment_at(id, MODERATOR, req, now).unwrap();
}

/// Three approved comments, each replying to the one before.
fn approved_chain(svc: &mut MockCommentService) {
    svc.create_comment_at(Some(AUTHOR), request(None, "top"), 1, 10).unwrap();
    approve(svc, 1, 11);
    svc.create_comment_at(Some(AUTHOR), request(Some(1), "second"), 2, 12).unwrap();
    approve(svc, 2, 13);
    svc.create_comment_at(Some(AUTHOR), request(Some(2), "third"), 3, 14).unwrap();
    approve(svc, 3, 15);
}

#[test]
fn top_level_comment_starts_pending() {
    let mut svc = MockCommentService::new();
    let c = svc.create_comment_at(Some(AUTHOR), request(None, "hello"), 7, 100).unwrap();
    assert_eq!(c.status, CommentStatus::Pending);
    assert_eq!(c.parent_id, None);
    assert_eq!(c.post_id, POST);
    assert_eq!(c.author_id, Some(AUTHOR));
    assert_eq!(c.content, "hello");
    assert_eq!(c.depth, 1);
    assert_eq!(c.created_at, 100);
    assert_eq!(svc.len(), 1);
}

#[test]
fn top_level_comment_with_fresh_id_and_clock() {
    let mut svc = MockCommentService::new();
    let c = svc.create_comment(None, request(None, "hello")).unwrap();
    assert_eq!(c.status, CommentStatus::Pending);
    assert_eq!(c.parent_id, None);
    let d = svc.create_comment(None, request(None, "again")).unwrap();
    assert_ne!(c.id, d.id);
    assert!(c.created_at > 1_600_000_000);
}

#[test]
fn reply_under_full_chain_hits_nesting_limit() {
    let mut svc = MockCommentService::new();
    approved_chain(&mut svc);
    let r = svc.create_comment_at(Some(AUTHOR), request(Some(3), "too deep"), 4, 20);
    assert!(matches!(r, Err(CommentError::MaxNestingLevel)));
    assert_eq!(svc.len(), 3);
    assert_eq!(MAX_NESTING_LEVEL, 3);
}

#[test]
fn reply_within_limit_records_depth() {
    let mut svc = MockCommentService::new();
    approved_chain(&mut svc);
    let c = svc.create_comment_at(Some(AUTHOR), request(Some(2), "sibling"), 4, 20).unwrap();
    assert_eq!(c.depth, 3);
    assert_eq!(c.parent_id, Some(2));
    assert_eq!(c.status, CommentStatus::Pending);
}

#[test]
fn reply_to_pending_parent_is_refused() {
    let mut svc = MockCommentService::new();
    svc.create_comment_at(Some(AUTHOR), request(None, "top"), 1, 10).unwrap();
    let r = svc.create_comment_at(Some(AUTHOR), request(Some(1), "reply"), 2, 11);
    assert!(matches!(r, Err(CommentError::ParentNotApproved)));
}

#[test]
fn reply_to_rejected_parent_is_refused() {
    let mut svc = MockCommentService::new();
    svc.create_comment_at(Some(AUTHOR), request(None, "top"), 1, 10).unwrap();
    let req = ModerateCommentRequest { action: ModerateAction::Reject, reason: None };
    svc.moderate_comment_at(1, MODERATOR, req, 11).unwrap();
    let r = svc.create_comment_at(Some(AUTHOR), request(Some(1), "reply"), 2, 12);
    assert!(matches!(r, Err(CommentError::ParentNotApproved)));
}

#[test]
fn reply_to_missing_parent_is_refused() {
    let mut svc = MockCommentService::new();
    let r = svc.create_comment_at(Some(AUTHOR), request(Some(99), "reply"), 2, 11);
    assert!(matches!(r, Err(CommentError::ParentNotFound)));
}

#[test]
fn reply_to_deleted_parent_is_refused() {
    let mut svc = MockCommentService::new();
    svc.create_comment_at(Some(AUTHOR), request(None, "top"), 1, 10).unwrap();
    approve(&mut svc, 1, 11);
    svc.delete_comment_at(1, Some(AUTHOR), 12).unwrap();
    let r = svc.create_comment_at(Some(AUTHOR), request(Some(1), "reply"), 2, 13);
    assert!(matches!(r, Err(CommentError::ParentNotFound)));
}

#[test]
fn content_length_is_checked_first() {
    let mut svc = MockCommentService::new();
    let r = svc.create_comment_at(Some(AUTHOR), request(Some(99), ""), 1, 10);
    assert!(matches!(r, Err(CommentError::Validation(_))));
    let long = "x".repeat(1001);
    let r = svc.create_comment_at(Some(AUTHOR), request(None, &long), 1, 10);
    assert!(matches!(r, Err(CommentError::Validation(_))));
    let full = "é".repeat(1000);
    assert!(svc.create_comment_at(Some(AUTHOR), request(None, &full), 1, 10).is_ok());
    assert_eq!(svc.len(), 1);
}

#[test]
fn duplicate_id_is_refused() {
    let mut svc = MockCommentService::new();
    svc.create_comment_at(Some(AUTHOR), request(None, "one"), 1, 10).unwrap();
    let r = svc.create_comment_at(Some(AUTHOR), request(None, "two"), 1, 11);
    assert!(matches!(r, Err(CommentError::Database(_))));
    assert_eq!(svc.len(), 1);
}

#[test]
fn owner_updates_and_other_user_is_forbidden() {
    let mut svc = MockCommentService::new();
    svc.create_comment_at(Some(AUTHOR), request(None, "old"), 1, 10).unwrap();
    let c = svc
        .update_comment_at(1, Some(AUTHOR), UpdateCommentRequest { content: "new".to_string() }, 20)
        .unwrap();
    assert_eq!(c.content, "new");
    assert_eq!(c.updated_at, 20);
    assert_eq!(c.created_at, 10);
    assert_eq!(c.status, CommentStatus::Pending);
    let r = svc.update_comment_at(1, Some(OTHER), UpdateCommentRequest { content: "mine".to_string() }, 21);
    assert!(matches!(r, Err(CommentError::Forbidden)));
    assert_eq!(svc.get_comment(1).unwrap().content, "new");
}

#[test]
fn anonymous_actor_and_anonymous_comment_cannot_be_mutated() {
    let mut svc = MockCommentService::new();
    svc.create_comment_at(Some(AUTHOR), request(None, "owned"), 1, 10).unwrap();
    svc.create_comment_at(None, request(None, "anonymous"), 2, 10).unwrap();
    let r = svc.update_comment_at(1, None, UpdateCommentRequest { content: "x".to_string() }, 11);
    assert!(matches!(r, Err(CommentError::Forbidden)));
    let r = svc.update_comment_at(2, Some(AUTHOR), UpdateCommentRequest { content: "x".to_string() }, 11);
    assert!(matches!(r, Err(CommentError::Forbidden)));
    assert!(matches!(svc.delete_comment_at(2, Some(AUTHOR), 12), Err(CommentError::Forbidden)));
}

#[test]
fn update_with_clock_keeps_status() {
    let mut svc = MockCommentService::new();
    svc.create_comment_at(Some(AUTHOR), request(None, "old"), 1, 10).unwrap();
    approve(&mut svc, 1, 11);
    let c = svc.update_comment(1, Some(AUTHOR), UpdateCommentRequest { content: "new".to_string() }).unwrap();
    assert_eq!(c.status, CommentStatus::Approved);
    assert_eq!(c.content, "new");
}

#[test]
fn update_of_missing_comment_is_not_found() {
    let mut svc = MockCommentService::new();
    let r = svc.update_comment_at(5, Some(AUTHOR), UpdateCommentRequest { content: "x".to_string() }, 1);
    assert!(matches!(r, Err(CommentError::CommentNotFound)));
}

#[test]
fn soft_delete_keeps_record_and_replies() {
    let mut svc = MockCommentService::new();
    svc.create_comment_at(Some(AUTHOR), request(None, "top"), 1, 10).unwrap();
    approve(&mut svc, 1, 11);
    svc.create_comment_at(Some(OTHER), request(Some(1), "reply"), 2, 12).unwrap();
    assert!(matches!(svc.delete_comment_at(1, Some(OTHER), 13), Err(CommentError::Forbidden)));
    svc.delete_comment(1, Some(AUTHOR)).unwrap();
    assert!(matches!(svc.get_comment(1), Err(CommentError::CommentDeleted)));
    assert!(matches!(svc.get_comment(3), Err(CommentError::CommentNotFound)));
    assert!(matches!(svc.delete_comment_at(1, Some(AUTHOR), 14), Err(CommentError::CommentDeleted)));
    assert_eq!(svc.len(), 2);
    let replies = svc.list_replies(1, 1, 20);
    assert_eq!(replies.total, 1);
    assert_eq!(replies.comments[0].id, 2);
    let all = svc.list_comments(POST, 1, 20, None);
    assert_eq!(all.total, 1);
    assert_eq!(svc.replies_count(1), 1);
}

#[test]
fn approve_then_read_gives_approved_and_one_audit_record() {
    let mut svc = MockCommentService::new();
    svc.create_comment_at(Some(AUTHOR), request(None, "top"), 1, 10).unwrap();
    let before = svc.log_len();
    let called_at = chrono::Utc::now().timestamp();
    let req = ModerateCommentRequest { action: ModerateAction::Approve, reason: Some("fine".to_string()) };
    let m = svc.moderate_comment(1, MODERATOR, req).unwrap();
    assert_eq!(m.status, CommentStatus::Approved);
    assert_eq!(svc.get_comment(1).unwrap().status, CommentStatus::Approved);
    assert_eq!(svc.log_len(), before + 1);
    let entry = svc.log_entry(before);
    assert_eq!(entry.moderator_id, MODERATOR);
    assert_eq!(entry.comment_id, 1);
    assert_eq!(entry.action, ModerateAction::Approve);
    assert_eq!(entry.reason.as_deref(), Some("fine"));
    assert!(entry.created_at >= called_at);
}

#[test]
fn moderation_maps_each_action() {
    let mut svc = MockCommentService::new();
    for (id, action, status) in [
        (1u128, ModerateAction::Approve, CommentStatus::Approved),
        (2, ModerateAction::Reject, CommentStatus::Rejected),
        (3, ModerateAction::MarkAsSpam, CommentStatus::Spam),
    ] {
        svc.create_comment_at(Some(AUTHOR), request(None, "c"), id, 10).unwrap();
        let m = svc.moderate_comment_at(id, MODERATOR, ModerateCommentRequest { action, reason: None }, 20).unwrap();
        assert_eq!(m.status, status);
        assert_eq!(m.updated_at, 20);
        assert_eq!(action.target_status(), status);
    }
    assert_eq!(svc.log_len(), 3);
}

#[test]
fn second_moderation_is_refused() {
    let mut svc = MockCommentService::new();
    svc.create_comment_at(Some(AUTHOR), request(None, "c"), 1, 10).unwrap();
    approve(&mut svc, 1, 11);
    let req = ModerateCommentRequest { action: ModerateAction::MarkAsSpam, reason: None };
    let r = svc.moderate_comment_at(1, MODERATOR, req, 12);
    assert!(matches!(r, Err(CommentError::AlreadyModerated)));
    assert_eq!(svc.get_comment(1).unwrap().status, CommentStatus::Approved);
    assert_eq!(svc.log_len(), 1);
    let req = ModerateCommentRequest { action: ModerateAction::Approve, reason: None };
    assert!(matches!(svc.moderate_comment_at(9, MODERATOR, req, 12), Err(CommentError::CommentNotFound)));
}

#[test]
fn page_past_the_end_is_empty_with_totals() {
    let mut svc = MockCommentService::new();
    for id in 1..=5u128 {
        svc.create_comment_at(Some(AUTHOR), request(None, "c"), id, id as i64).unwrap();
    }
    let first = svc.list_comments(POST, 1, 2, None);
    assert_eq!(first.comments.len(), 2);
    assert_eq!(first.comments[0].id, 1);
    assert_eq!(first.total, 5);
    assert_eq!(first.total_pages, 3);
    let last = svc.list_comments(POST, 3, 2, None);
    assert_eq!(last.comments.len(), 1);
    assert_eq!(last.comments[0].id, 5);
    let past = svc.list_comments(POST, 4, 2, None);
    assert!(past.comments.is_empty());
    assert_eq!(past.total, 5);
    assert_eq!(past.total_pages, 3);
    assert_eq!(past.page, 4);
    let far = svc.list_comments(POST, u32::MAX, 2, None);
    assert!(far.comments.is_empty());
    assert_eq!(far.total, 5);
}

#[test]
fn listing_applies_filters() {
    let mut svc = MockCommentService::new();
    svc.create_comment_at(Some(AUTHOR), request(None, "a"), 1, 1).unwrap();
    svc.create_comment_at(Some(OTHER), request(None, "b"), 2, 2).unwrap();
    svc.create_comment_at(Some(AUTHOR), CreateCommentRequest { post_id: 99, parent_id: None, content: "c".to_string() }, 3, 3).unwrap();
    approve(&mut svc, 2, 4);
    let by_author = svc.list_comments(POST, 1, 20, Some(CommentFilters { status: None, author_id: Some(AUTHOR) }));
    assert_eq!(by_author.total, 1);
    assert_eq!(by_author.comments[0].id, 1);
    let approved = svc.list_comments(POST, 1, 20, Some(CommentFilters { status: Some(CommentStatus::Approved), author_id: None }));
    assert_eq!(approved.total, 1);
    assert_eq!(approved.comments[0].id, 2);
    let scoped = svc.list(ListScope::Post { post_id: 99, filters: CommentFilters { status: None, author_id: None } }, 1, 20);
    assert_eq!(scoped.total, 1);
    let empty = svc.list_replies(1, 1, 20);
    assert_eq!(empty.total, 0);
    assert_eq!(empty.total_pages, 0);
}

#[test]
fn comment_error_codes_and_messages() {
    assert_eq!(CommentError::CommentNotFound.status_code(), 404);
    assert_eq!(CommentError::ParentNotFound.status_code(), 404);
    assert_eq!(CommentError::Forbidden.status_code(), 403);
    assert_eq!(CommentError::MaxNestingLevel.status_code(), 400);
    assert_eq!(CommentError::ParentNotApproved.status_code(), 400);
    assert_eq!(CommentError::Validation("v".to_string()).status_code(), 400);
    assert_eq!(CommentError::AlreadyModerated.status_code(), 409);
    assert_eq!(CommentError::CommentDeleted.status_code(), 410);
    assert_eq!(CommentError::Database("d".to_string()).status_code(), 500);
    assert_eq!(CommentError::Database("secret detail".to_string()).client_message(), "Internal server error");
    assert_eq!(CommentError::Validation("too long".to_string()).client_message(), "too long");
    assert_eq!(CommentError::ParentNotApproved.client_message(), "Cannot reply to unapproved comment");
}

#[test]
fn non_owner_is_forbidden_even_with_invalid_content() {
    let mut svc = MockCommentService::new();
    svc.create_comment_at(Some(AUTHOR), request(None, "old"), 1, 10).unwrap();
    let empty = UpdateCommentRequest { content: String::new() };
    assert!(matches!(svc.update_comment_at(1, Some(OTHER), empty, 11), Err(CommentError::Forbidden)));
    let long = UpdateCommentRequest { content: "x".repeat(1001) };
    assert!(matches!(svc.update_comment_at(1, None, long, 11), Err(CommentError::Forbidden)));
    let own_empty = UpdateCommentRequest { content: String::new() };
    assert!(matches!(svc.update_comment_at(1, Some(AUTHOR), own_empty, 11), Err(CommentError::Validation(_))));
    let missing = UpdateCommentRequest { content: String::new() };
    assert!(matches!(svc.update_comment_at(9, Some(AUTHOR), missing, 11), Err(CommentError::CommentNotFound)));
    assert_eq!(svc.get_comment(1).unwrap().content, "old");
}

#[test]
fn first_comment_in_empty_store_is_created() {
    let mut svc = MockCommentService::new();
    let c = svc
        .create_comment(None, CreateCommentRequest { post_id: POST, parent_id: None, content: "hello".to_string() })
        .unwrap();
    assert_eq!(c.status, CommentStatus::Pending);
    assert_eq!(c.parent_id, None);
    assert_eq!(c.post_id, POST);
    assert_eq!(c.content, "hello");
}
