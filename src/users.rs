use vstd::prelude::*;
use crate::error::UserError;
use crate::has_text;
use crate::platform::{new_id, now_seconds};

verus! {

/// Links to a user's accounts elsewhere.
#[derive(Debug)]
pub struct SocialLinks {
    pub twitter: Option<String>,
    pub github: Option<String>,
    pub linkedin: Option<String>,
    pub facebook: Option<String>,
    pub instagram: Option<String>,
}

/// A user's settings.
#[derive(Debug)]
pub struct UserPreferences {
    pub email_notifications: bool,
    pub newsletter_subscription: bool,
    pub theme: String,
    pub language: String,
}

/// Body of a profile edit; absent fields are not given.
pub struct UpdateProfileRequest {
    pub display_name: Option<String>,
    pub bio: Option<String>,
    pub website: Option<String>,
    pub location: Option<String>,
    pub avatar_url: Option<String>,
    pub social_links: Option<SocialLinks>,
    pub preferences: Option<UserPreferences>,
}

/// A user's profile details. Times are seconds since the Unix epoch.
#[derive(Debug)]
pub struct Profile {
    pub user_id: u128,
    pub website: Option<String>,
    pub location: Option<String>,
    pub social_links: Option<SocialLinks>,
    pub preferences: Option<UserPreferences>,
    pub created_at: i64,
    pub updated_at: i64,
}

/// A user as others see them.
#[derive(Debug)]
pub struct UserResponse {
    pub id: u128,
    pub username: String,
    pub display_name: Option<String>,
    pub bio: Option<String>,
    pub avatar_url: Option<String>,
    pub website: Option<String>,
    pub location: Option<String>,
    pub social_links: Option<SocialLinks>,
    pub created_at: i64,
    pub followers_count: i64,
    pub following_count: i64,
    pub is_following: bool,
}

/// One page of a user listing with the totals of the whole listing.
pub struct UserListResponse {
    pub users: Vec<UserResponse>,
    pub total: i64,
    pub page: i32,
    pub per_page: i32,
    pub total_pages: i32,
}

/// Largest number of characters in a display name.
pub const MAX_DISPLAY_NAME_CHARS: usize = 100;

/// Largest number of characters in a bio.
pub const MAX_BIO_CHARS: usize = 500;

/// Whether a text parses as an absolute URL.
pub uninterp spec fn url_accepted(text: Seq<char>) -> bool;

/// Relies on validator::validate_url, a function of the text alone.
#[verifier::external_body]
fn is_url(text: &str) -> (r: bool)
    ensures
        r == url_accepted(text@),
{
    validator::validate_url(text)
}

pub open spec fn display_name_ok(name: Option<String>) -> bool {
    match name {
        Some(n) => 1 <= n@.len() <= MAX_DISPLAY_NAME_CHARS,
        None => true,
    }
}

pub open spec fn bio_ok(bio: Option<String>) -> bool {
    match bio {
        Some(b) => b@.len() <= MAX_BIO_CHARS,
        None => true,
    }
}

pub open spec fn website_ok(website: Option<String>) -> bool {
    match website {
        Some(w) => url_accepted(w@),
        None => true,
    }
}

impl UpdateProfileRequest {
    /// Checks the fields that are given: a display name of 1 to 100
    /// characters, a bio of at most 500, a website that is a URL.
    pub fn validate(&self) -> (r: Result<(), UserError>)
        ensures
            r is Ok <==> (display_name_ok(self.display_name) && bio_ok(self.bio) && website_ok(
                self.website,
            )),
            r is Err ==> r matches Err(UserError::Validation(_)),
    {
        if let Some(n) = &self.display_name {
            let len = n.as_str().unicode_len();
            if len < 1 || len > MAX_DISPLAY_NAME_CHARS {
                return Err(
                    UserError::Validation(
                        String::from_str("Display name must be between 1 and 100 characters"),
                    ),
                );
            }
        }
        if let Some(b) = &self.bio {
            if b.as_str().unicode_len() > MAX_BIO_CHARS {
                return Err(UserError::Validation(String::from_str("Bio must not exceed 500 characters")));
            }
        }
        if let Some(w) = &self.website {
            if !is_url(w.as_str()) {
                return Err(UserError::Validation(String::from_str("Website must be a valid URL")));
            }
        }
        Ok(())
    }
}

/// The user name that stands for the caller.
pub open spec fn self_name() -> Seq<char> {
    seq!['s', 'e', 'l', 'f']
}

fn names_self(username: &str) -> (r: bool)
    ensures
        r == (username@ == self_name()),
{
    let word = "self";
    proof {
        reveal_strlit("self");
        assert(word@ =~= self_name());
    }
    if username.unicode_len() != 4 {
        return false;
    }
    let mut i: usize = 0;
    while i < 4
        invariant
            i <= 4,
            username@.len() == 4,
            word@ == self_name(),
            forall|k: int| 0 <= k < i ==> username@[k] == self_name()[k],
        decreases 4 - i,
    {
        if username.get_char(i) != word.get_char(i) {
            return false;
        }
        i += 1;
    }
    proof {
        assert(username@ =~= self_name());
    }
    true
}

/// User service without storage of follows: it checks follow requests.
pub struct MockUserService;

impl MockUserService {
    /// The sample user under the given name.
    pub fn get_user_by_username(&self, username: &str, current_user_id: Option<u128>) -> (r: Result<
        UserResponse,
        UserError,
    >)
        ensures
            r matches Ok(u) && u.username@ == username@ && has_text(u.display_name, "Mock User"@)
                && has_text(u.bio, "This is a mock user bio"@) && has_text(u.location, "Mock Location"@)
                && u.followers_count == 0 && u.following_count == 0 && !u.is_following,
    {
        Ok(
            UserResponse {
                id: new_id(),
                username: String::from_str(username),
                display_name: Some(String::from_str("Mock User")),
                bio: Some(String::from_str("This is a mock user bio")),
                avatar_url: None,
                website: None,
                location: Some(String::from_str("Mock Location")),
                social_links: None,
                created_at: now_seconds(),
                followers_count: 0,
                following_count: 0,
                is_following: false,
            },
        )
    }

    /// The sample profile of the user.
    pub fn get_profile(&self, user_id: u128) -> (r: Result<Profile, UserError>)
        ensures
            r matches Ok(p) && p.user_id == user_id && has_text(p.location, "Mock Location"@)
                && p.website is None && p.social_links is None && p.preferences is None,
    {
        let now = now_seconds();
        Ok(
            Profile {
                user_id,
                website: None,
                location: Some(String::from_str("Mock Location")),
                social_links: None,
                preferences: None,
                created_at: now,
                updated_at: now,
            },
        )
    }

    /// The sample profile after an edit.
    pub fn update_profile(&self, user_id: u128, req: UpdateProfileRequest) -> (r: Result<
        Profile,
        UserError,
    >)
        ensures
            r matches Ok(p) && p.user_id == user_id && has_text(p.location, "Updated Location"@)
                && p.website is None && p.social_links is None && p.preferences is None,
    {
        let now = now_seconds();
        Ok(
            Profile {
                user_id,
                website: None,
                location: Some(String::from_str("Updated Location")),
                social_links: None,
                preferences: None,
                created_at: now,
                updated_at: now,
            },
        )
    }

    /// No follows are stored: an empty page.
    pub fn get_followers(
        &self,
        username: &str,
        page: i32,
        per_page: i32,
        current_user_id: Option<u128>,
    ) -> (r: Result<UserListResponse, UserError>)
        ensures
            r matches Ok(l) && l.users@.len() == 0 && l.total == 0 && l.page == page && l.per_page
                == per_page && l.total_pages == 0,
    {
        Ok(UserListResponse { users: Vec::new(), total: 0, page, per_page, total_pages: 0 })
    }

    /// No follows are stored: an empty page.
    pub fn get_following(
        &self,
        username: &str,
        page: i32,
        per_page: i32,
        current_user_id: Option<u128>,
    ) -> (r: Result<UserListResponse, UserError>)
        ensures
            r matches Ok(l) && l.users@.len() == 0 && l.total == 0 && l.page == page && l.per_page
                == per_page && l.total_pages == 0,
    {
        Ok(UserListResponse { users: Vec::new(), total: 0, page, per_page, total_pages: 0 })
    }

    /// Follows a user; following oneself is refused.
    pub fn follow_user(&self, follower_id: u128, username: &str) -> (r: Result<(), UserError>)
        ensures
            username@ == self_name() ==> r matches Err(UserError::SelfFollow),
            username@ != self_name() ==> r is Ok,
    {
        if names_self(username) {
            Err(UserError::SelfFollow)
        } else {
            Ok(())
        }
    }

    /// Unfollows a user; unfollowing oneself is refused.
    pub fn unfollow_user(&self, follower_id: u128, username: &str) -> (r: Result<(), UserError>)
        ensures
            username@ == self_name() ==> r matches Err(UserError::SelfFollow),
            username@ != self_name() ==> r is Ok,
    {
        if names_self(username) {
            Err(UserError::SelfFollow)
        } else {
            Ok(())
        }
    }
}

} // verus!
