use content_platform::blog::{CreatePostRequest, MockBlogService, PostStatus, UpdatePostRequest};
use content_platform::error::{BlogError, UserError};
use content_platform::users::{MockUserService, SocialLinks, UpdateProfileRequest, UserPreferences};
use content_platform::blog::PostFilters;

fn create_request(title: &str, status: PostStatus) -> CreatePostRequest {
    CreatePostRequest {
        title: title.to_string(),
        content: "body".to_string(),
        excerpt: None,
        status,
        category_ids: vec![],
        tag_ids: vec![],
    }
}

#[test]
fn created_post_gets_slug_and_publish_time() {
    let blog = MockBlogService;
    let p = blog.create_post_at(5, create_request("Hello World, Again!", PostStatus::Published), 9, 100);
    assert_eq!(p.slug, "hello-world-again");
    assert_eq!(p.title, "Hello World, Again!");
    assert_eq!(p.published_at, Some(100));
    assert_eq!(p.author_id, 5);
    assert_eq!(p.id, 9);
    let d = blog.create_post_at(5, create_request("Draft", PostStatus::Draft), 10, 100);
    assert_eq!(d.published_at, None);
    assert_eq!(d.slug, "draft");
}

#[test]
fn created_post_with_clock() {
    let blog = MockBlogService;
    let p = blog.create_post(5, create_request("Rust Tips", PostStatus::Published)).unwrap();
    assert_eq!(p.slug, "rust-tips");
    assert_eq!(p.published_at, Some(p.created_at));
}

#[test]
fn updated_post_fills_missing_fields() {
    let blog = MockBlogService;
    let empty = UpdatePostRequest {
        title: None,
        content: None,
        excerpt: None,
        status: None,
        category_ids: None,
        tag_ids: None,
    };
    let p = blog.update_post_at(3, 4, empty, 50);
    assert_eq!(p.title, "Sample Post");
    assert_eq!(p.slug, "sample-post");
    assert_eq!(p.content, "Sample content");
    assert_eq!(p.status, PostStatus::Draft);
    assert_eq!(p.published_at, Some(50));
    let titled = UpdatePostRequest {
        title: Some("New Title".to_string()),
        content: Some("c".to_string()),
        excerpt: Some("e".to_string()),
        status: Some(PostStatus::Published),
        category_ids: None,
        tag_ids: None,
    };
    let q = blog.update_post(3, 4, titled).unwrap();
    assert_eq!(q.slug, "new-title");
    assert_eq!(q.excerpt.as_deref(), Some("e"));
    assert_eq!(q.status, PostStatus::Published);
}

fn profile(display_name: Option<&str>, bio: Option<String>, website: Option<&str>) -> UpdateProfileRequest {
    UpdateProfileRequest {
        display_name: display_name.map(|s| s.to_string()),
        bio,
        website: website.map(|s| s.to_string()),
        location: None,
        avatar_url: None,
        social_links: Some(SocialLinks { twitter: None, github: Some("gh".to_string()), linkedin: None, facebook: None, instagram: None }),
        preferences: Some(UserPreferences {
            email_notifications: true,
            newsletter_subscription: false,
            theme: "dark".to_string(),
            language: "en".to_string(),
        }),
    }
}

#[test]
fn profile_edit_is_validated() {
    assert!(profile(None, None, None).validate().is_ok());
    assert!(profile(Some("Ann"), Some("x".repeat(500)), Some("https://example.com")).validate().is_ok());
    assert!(matches!(profile(Some(""), None, None).validate(), Err(UserError::Validation(_))));
    assert!(matches!(profile(Some(&"n".repeat(101)), None, None).validate(), Err(UserError::Validation(_))));
    assert!(matches!(profile(None, Some("x".repeat(501)), None).validate(), Err(UserError::Validation(_))));
    assert!(matches!(profile(None, None, Some("not a url")).validate(), Err(UserError::Validation(_))));
}

#[test]
fn following_oneself_is_refused() {
    let users = MockUserService;
    assert!(matches!(users.follow_user(1, "self"), Err(UserError::SelfFollow)));
    assert!(users.follow_user(1, "alice").is_ok());
    assert!(users.follow_user(1, "selfie").is_ok());
    assert!(matches!(users.unfollow_user(1, "self"), Err(UserError::SelfFollow)));
    assert!(users.unfollow_user(1, "bob").is_ok());
}

#[test]
fn blog_and_user_error_codes() {
    assert_eq!(BlogError::PostNotFound.status_code(), 404);
    assert_eq!(BlogError::SlugExists.status_code(), 409);
    assert_eq!(BlogError::Forbidden.status_code(), 403);
    assert_eq!(BlogError::Database("x".to_string()).client_message(), "Internal server error");
    assert_eq!(BlogError::SlugExists.client_message(), "A post with this slug already exists");
    assert_eq!(UserError::SelfFollow.status_code(), 400);
    assert_eq!(UserError::AlreadyFollowing.status_code(), 409);
    assert_eq!(UserError::UsernameExists.client_message(), "Username is already taken");
    assert_eq!(UserError::Internal("boom".to_string()).client_message(), "Internal server error");
}

#[test]
fn blog_sample_reads() {
    let blog = MockBlogService;
    let filters = PostFilters { status: Some(PostStatus::Published), author_id: None, category_id: None, tag_id: None };
    let page = blog.list_posts(2, 10, Some(filters)).unwrap();
    assert_eq!(page.items.len(), 1);
    assert_eq!(page.total, 1);
    assert_eq!(page.page, 2);
    assert_eq!(page.per_page, 10);
    assert_eq!(page.total_pages, 1);
    assert_eq!(page.items[0].slug, "sample-post");
    let p = blog.get_post(42).unwrap();
    assert_eq!(p.title, "Sample Post");
    assert_eq!(p.excerpt.as_deref(), Some("Sample excerpt"));
    assert_eq!(p.published_at, Some(p.created_at));
    let q = blog.get_post_by_slug("anything").unwrap();
    assert_eq!(q.content, "This is a sample post content.");
    assert!(blog.delete_post(1, 2).is_ok());
    let cats = blog.list_categories().unwrap();
    assert_eq!(cats.len(), 1);
    assert_eq!(cats[0].slug, "sample-category");
    assert_eq!(cats[0].description.as_deref(), Some("Sample description"));
    let tags = blog.list_tags().unwrap();
    assert_eq!(tags[0].name, "Sample Tag");
}

#[test]
fn user_sample_reads() {
    let users = MockUserService;
    let u = users.get_user_by_username("carol", None).unwrap();
    assert_eq!(u.username, "carol");
    assert_eq!(u.display_name.as_deref(), Some("Mock User"));
    assert_eq!(u.followers_count, 0);
    assert!(!u.is_following);
    let p = users.get_profile(77).unwrap();
    assert_eq!(p.user_id, 77);
    assert_eq!(p.location.as_deref(), Some("Mock Location"));
    let e = users.update_profile(77, profile(Some("Ann"), None, None)).unwrap();
    assert_eq!(e.location.as_deref(), Some("Updated Location"));
    let f = users.get_followers("carol", 3, 15, Some(1)).unwrap();
    assert!(f.users.is_empty());
    assert_eq!((f.total, f.page, f.per_page, f.total_pages), (0, 3, 15, 0));
    let g = users.get_following("carol", 1, 20, None).unwrap();
    assert!(g.users.is_empty());
    assert_eq!(g.page, 1);
}
