use vstd::prelude::*;
use crate::error::BlogError;
use crate::has_text;
use crate::pagination::{page_count, PaginatedResponse};
use crate::platform::{new_id, now_seconds};

verus! {

/// Publication state of a post.
#[derive(Clone, Copy, Debug, PartialEq, Eq, Structural)]
pub enum PostStatus {
    Draft,
    Published,
}

/// Body of a request that creates a post.
pub struct CreatePostRequest {
    pub title: String,
    pub content: String,
    pub excerpt: Option<String>,
    pub status: PostStatus,
    pub category_ids: Vec<u128>,
    pub tag_ids: Vec<u128>,
}

/// Body of a request that edits a post; absent fields are not given.
pub struct UpdatePostRequest {
    pub title: Option<String>,
    pub content: Option<String>,
    pub excerpt: Option<String>,
    pub status: Option<PostStatus>,
    pub category_ids: Option<Vec<u128>>,
    pub tag_ids: Option<Vec<u128>>,
}

/// A post as the blog service returns it. Times are seconds since the Unix
/// epoch.
#[derive(Debug)]
pub struct PostResponse {
    pub id: u128,
    pub author_id: u128,
    pub title: String,
    pub slug: String,
    pub content: String,
    pub excerpt: Option<String>,
    pub status: PostStatus,
    pub published_at: Option<i64>,
    pub created_at: i64,
    pub updated_at: i64,
}

/// A post category.
#[derive(Debug)]
pub struct Category {
    pub id: u128,
    pub name: String,
    pub slug: String,
    pub description: Option<String>,
    pub parent_id: Option<u128>,
    pub created_at: i64,
}

/// A post tag.
#[derive(Debug)]
pub struct Tag {
    pub id: u128,
    pub name: String,
    pub slug: String,
    pub created_at: i64,
}

/// Optional narrowing of a post listing.
#[derive(Clone, Copy, Debug)]
pub struct PostFilters {
    pub status: Option<PostStatus>,
    pub author_id: Option<u128>,
    pub category_id: Option<u128>,
    pub tag_id: Option<u128>,
}

/// The sample post the storage-less service hands out.
pub open spec fn is_sample_post(p: PostResponse) -> bool {
    &&& p.title@ == "Sample Post"@
    &&& p.slug@ == "sample-post"@
    &&& p.content@ == "This is a sample post content."@
    &&& has_text(p.excerpt, "Sample excerpt"@)
    &&& p.status == PostStatus::Published
    &&& p.published_at == Some(p.created_at)
    &&& p.updated_at == p.created_at
}

fn sample_post(id: u128, author_id: u128, now: i64) -> (r: PostResponse)
    ensures
        is_sample_post(r),
        r.id == id,
        r.author_id == author_id,
        r.created_at == now,
{
    PostResponse {
        id,
        author_id,
        title: String::from_str("Sample Post"),
        slug: String::from_str("sample-post"),
        content: String::from_str("This is a sample post content."),
        excerpt: Some(String::from_str("Sample excerpt")),
        status: PostStatus::Published,
        published_at: Some(now),
        created_at: now,
        updated_at: now,
    }
}

/// The URL slug of a text.
pub uninterp spec fn slug_of(text: Seq<char>) -> Seq<char>;

/// Relies on slug::slugify, a function of the text alone.
#[verifier::external_body]
fn slugify(text: &str) -> (r: String)
    ensures
        r@ == slug_of(text@),
{
    slug::slugify(text)
}

/// Blog service without storage: it shapes posts from requests.
pub struct MockBlogService;

impl MockBlogService {
    /// One page holding the sample post, out of a total of one.
    pub fn list_posts(&self, page: u32, per_page: u32, filters: Option<PostFilters>) -> (r: Result<
        PaginatedResponse<PostResponse>,
        BlogError,
    >)
        ensures
            r matches Ok(l) && l.items@.len() == 1 && is_sample_post(l.items@[0]) && l.total == 1
                && l.page == page && l.per_page == per_page && l.total_pages as nat == page_count(
                1,
                per_page as nat,
            ),
    {
        let post = sample_post(new_id(), new_id(), now_seconds());
        let mut items: Vec<PostResponse> = Vec::new();
        items.push(post);
        Ok(PaginatedResponse::new(items, 1, page, per_page))
    }

    /// The sample post, whatever the id.
    pub fn get_post(&self, id: u128) -> (r: Result<PostResponse, BlogError>)
        ensures
            r matches Ok(p) && is_sample_post(p),
    {
        Ok(sample_post(new_id(), new_id(), now_seconds()))
    }

    /// The sample post, whatever the slug.
    pub fn get_post_by_slug(&self, slug: &str) -> (r: Result<PostResponse, BlogError>)
        ensures
            r matches Ok(p) && is_sample_post(p),
    {
        Ok(sample_post(new_id(), new_id(), now_seconds()))
    }

    /// Deleting needs no storage here: it always succeeds.
    pub fn delete_post(&self, id: u128, author_id: u128) -> (r: Result<(), BlogError>)
        ensures
            r is Ok,
    {
        Ok(())
    }

    /// The one sample category.
    pub fn list_categories(&self) -> (r: Result<Vec<Category>, BlogError>)
        ensures
            r matches Ok(v) && v@.len() == 1 && v@[0].name@ == "Sample Category"@ && v@[0].slug@
                == "sample-category"@ && v@[0].parent_id is None && has_text(v@[0].description, "Sample description"@),
    {
        let mut v: Vec<Category> = Vec::new();
        v.push(
            Category {
                id: new_id(),
                name: String::from_str("Sample Category"),
                slug: String::from_str("sample-category"),
                description: Some(String::from_str("Sample description")),
                parent_id: None,
                created_at: now_seconds(),
            },
        );
        Ok(v)
    }

    /// The one sample tag.
    pub fn list_tags(&self) -> (r: Result<Vec<Tag>, BlogError>)
        ensures
            r matches Ok(v) && v@.len() == 1 && v@[0].name@ == "Sample Tag"@ && v@[0].slug@
                == "sample-tag"@,
    {
        let mut v: Vec<Tag> = Vec::new();
        v.push(
            Tag {
                id: new_id(),
                name: String::from_str("Sample Tag"),
                slug: String::from_str("sample-tag"),
                created_at: now_seconds(),
            },
        );
        Ok(v)
    }

    /// The post a creation request describes, written at `now` with the given
    /// id. Its slug comes from the title; a published post is published at
    /// `now`.
    pub fn create_post_at(&self, author_id: u128, req: CreatePostRequest, id: u128, now: i64) -> (r:
        PostResponse)
        ensures
            r.id == id,
            r.author_id == author_id,
            r.title == req.title,
            r.slug@ == slug_of(req.title@),
            r.content == req.content,
            r.excerpt == req.excerpt,
            r.status == req.status,
            r.published_at == (if req.status == PostStatus::Published {
                Some(now)
            } else {
                None
            }),
            r.created_at == now,
            r.updated_at == now,
    {
        let slug = slugify(req.title.as_str());
        let published_at = if req.status == PostStatus::Published {
            Some(now)
        } else {
            None
        };
        PostResponse {
            id,
            author_id,
            title: req.title,
            slug,
            content: req.content,
            excerpt: req.excerpt,
            status: req.status,
            published_at,
            created_at: now,
            updated_at: now,
        }
    }

    /// Creates a post with a fresh id at the current time.
    pub fn create_post(&self, author_id: u128, req: CreatePostRequest) -> (r: Result<
        PostResponse,
        BlogError,
    >)
        ensures
            r matches Ok(p) && p.author_id == author_id && p.title == req.title && p.slug@ == slug_of(
                req.title@,
            ) && p.content == req.content && p.status == req.status && p.created_at == p.updated_at
                && p.published_at == (if req.status == PostStatus::Published {
                Some(p.created_at)
            } else {
                None
            }),
    {
        let id = new_id();
        let now = now_seconds();
        Ok(self.create_post_at(author_id, req, id, now))
    }

    /// The post an edit request describes, edited at `now`: given fields
    /// replace the sample values, and a given title also gives the slug.
    pub fn update_post_at(&self, id: u128, author_id: u128, req: UpdatePostRequest, now: i64) -> (r:
        PostResponse)
        ensures
            r.id == id,
            r.author_id == author_id,
            match req.title {
                Some(t) => r.title == t && r.slug@ == slug_of(t@),
                None => r.title@ == "Sample Post"@ && r.slug@ == "sample-post"@,
            },
            match req.content {
                Some(c) => r.content == c,
                None => r.content@ == "Sample content"@,
            },
            r.excerpt == req.excerpt,
            r.status == match req.status {
                Some(s) => s,
                None => PostStatus::Draft,
            },
            r.published_at == Some(now),
            r.created_at == now,
            r.updated_at == now,
    {
        let (title, slug) = match req.title {
            Some(t) => {
                let s = slugify(t.as_str());
                (t, s)
            },
            None => (String::from_str("Sample Post"), String::from_str("sample-post")),
        };
        let content = match req.content {
            Some(c) => c,
            None => String::from_str("Sample content"),
        };
        let status = match req.status {
            Some(s) => s,
            None => PostStatus::Draft,
        };
        PostResponse {
            id,
            author_id,
            title,
            slug,
            content,
            excerpt: req.excerpt,
            status,
            published_at: Some(now),
            created_at: now,
            updated_at: now,
        }
    }

    /// Edits a post at the current time.
    pub fn update_post(&self, id: u128, author_id: u128, req: UpdatePostRequest) -> (r: Result<
        PostResponse,
        BlogError,
    >)
        ensures
            r matches Ok(p) && p.id == id && p.author_id == author_id && p.excerpt == req.excerpt
                && match req.title {
                Some(t) => p.title == t && p.slug@ == slug_of(t@),
                None => p.title@ == "Sample Post"@ && p.slug@ == "sample-post"@,
            },
    {
        let now = now_seconds();
        Ok(self.update_post_at(id, author_id, req, now))
    }
}

} // verus!
