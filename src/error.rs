use vstd::prelude::*;

verus! {

/// Failures of the comment subsystem.
#[derive(Debug)]
pub enum CommentError {
    CommentNotFound,
    PostNotFound,
    Forbidden,
    BadRequest(String),
    Database(String),
    Internal(String),
    Validation(String),
    AlreadyModerated,
    InvalidModeration,
    MaxNestingLevel,
    CommentDeleted,
    ParentNotFound,
    ParentNotApproved,
}

/// HTTP status code of each comment failure.
pub open spec fn comment_error_code(e: CommentError) -> u16 {
    match e {
        CommentError::CommentNotFound => 404,
        CommentError::PostNotFound => 404,
        CommentError::ParentNotFound => 404,
        CommentError::Forbidden => 403,
        CommentError::BadRequest(_) => 400,
        CommentError::Validation(_) => 400,
        CommentError::InvalidModeration => 400,
        CommentError::MaxNestingLevel => 400,
        CommentError::ParentNotApproved => 400,
        CommentError::AlreadyModerated => 409,
        CommentError::CommentDeleted => 410,
        CommentError::Database(_) => 500,
        CommentError::Internal(_) => 500,
    }
}

impl CommentError {
    pub fn status_code(&self) -> (r: u16)
        ensures
            r == comment_error_code(*self),
    {
        match self {
            CommentError::CommentNotFound => 404,
            CommentError::PostNotFound => 404,
            CommentError::ParentNotFound => 404,
            CommentError::Forbidden => 403,
            CommentError::BadRequest(_) => 400,
            CommentError::Validation(_) => 400,
            CommentError::InvalidModeration => 400,
            CommentError::MaxNestingLevel => 400,
            CommentError::ParentNotApproved => 400,
            CommentError::AlreadyModerated => 409,
            CommentError::CommentDeleted => 410,
            CommentError::Database(_) => 500,
            CommentError::Internal(_) => 500,
        }
    }

    /// The message a client sees. Storage and internal failures are reduced
    /// to a generic text; their detail stays on the server.
    pub fn client_message(&self) -> (r: String)
        ensures
            match *self {
                CommentError::BadRequest(m) => r@ == m@,
                CommentError::Validation(m) => r@ == m@,
                CommentError::Database(_) => r@ == "Internal server error"@,
                CommentError::Internal(_) => r@ == "Internal server error"@,
                CommentError::CommentNotFound => r@ == "Comment not found"@,
                CommentError::PostNotFound => r@ == "Post not found"@,
                CommentError::Forbidden => r@ == "Permission denied"@,
                CommentError::AlreadyModerated => r@ == "This comment has already been moderated"@,
                CommentError::InvalidModeration => r@ == "Invalid moderation action"@,
                CommentError::MaxNestingLevel => r@ == "Maximum comment nesting level reached"@,
                CommentError::CommentDeleted => r@ == "This comment has been deleted"@,
                CommentError::ParentNotFound => r@ == "Parent comment not found"@,
                CommentError::ParentNotApproved => r@ == "Cannot reply to unapproved comment"@,
            },
    {
        match self {
            CommentError::BadRequest(m) => m.clone(),
            CommentError::Validation(m) => m.clone(),
            CommentError::Database(_) => String::from_str("Internal server error"),
            CommentError::Internal(_) => String::from_str("Internal server error"),
            CommentError::CommentNotFound => String::from_str("Comment not found"),
            CommentError::PostNotFound => String::from_str("Post not found"),
            CommentError::Forbidden => String::from_str("Permission denied"),
            CommentError::AlreadyModerated => String::from_str(
                "This comment has already been moderated",
            ),
            CommentError::InvalidModeration => String::from_str("Invalid moderation action"),
            CommentError::MaxNestingLevel => String::from_str(
                "Maximum comment nesting level reached",
            ),
            CommentError::CommentDeleted => String::from_str("This comment has been deleted"),
            CommentError::ParentNotFound => String::from_str("Parent comment not found"),
            CommentError::ParentNotApproved => String::from_str(
                "Cannot reply to unapproved comment",
            ),
        }
    }
}

/// Failures at the gateway: authentication, authorization and forwarding.
#[derive(Debug)]
pub enum ApiError {
    Unauthorized,
    Forbidden,
    NotFound,
    BadRequest(String),
    Internal(String),
    ServiceError(String),
    RateLimitExceeded,
}

impl ApiError {
    pub fn status_code(&self) -> (r: u16)
        ensures
            r == match *self {
                ApiError::Unauthorized => 401u16,
                ApiError::Forbidden => 403u16,
                ApiError::NotFound => 404u16,
                ApiError::BadRequest(_) => 400u16,
                ApiError::Internal(_) => 500u16,
                ApiError::ServiceError(_) => 502u16,
                ApiError::RateLimitExceeded => 429u16,
            },
    {
        match self {
            ApiError::Unauthorized => 401,
            ApiError::Forbidden => 403,
            ApiError::NotFound => 404,
            ApiError::BadRequest(_) => 400,
            ApiError::Internal(_) => 500,
            ApiError::ServiceError(_) => 502,
            ApiError::RateLimitExceeded => 429,
        }
    }

    /// The message a client sees; internal detail is not passed on.
    pub fn client_message(&self) -> (r: String)
        ensures
            match *self {
                ApiError::Unauthorized => r@ == "Authentication required"@,
                ApiError::Forbidden => r@ == "Permission denied"@,
                ApiError::NotFound => r@ == "Resource not found"@,
                ApiError::BadRequest(m) => r@ == m@,
                ApiError::Internal(_) => r@ == "Internal server error"@,
                ApiError::ServiceError(m) => r@ == m@,
                ApiError::RateLimitExceeded => r@ == "Rate limit exceeded"@,
            },
    {
        match self {
            ApiError::Unauthorized => String::from_str("Authentication required"),
            ApiError::Forbidden => String::from_str("Permission denied"),
            ApiError::NotFound => String::from_str("Resource not found"),
            ApiError::BadRequest(m) => m.clone(),
            ApiError::Internal(_) => String::from_str("Internal server error"),
            ApiError::ServiceError(m) => m.clone(),
            ApiError::RateLimitExceeded => String::from_str("Rate limit exceeded"),
        }
    }
}

/// Failures of token issuance, credential checks and token verification.
#[derive(Debug)]
pub enum AuthError {
    InvalidCredentials,
    UserExists,
    InvalidToken,
    TokenExpired,
    BadRequest(String),
    Database(String),
    Internal(String),
}

impl AuthError {
    pub fn status_code(&self) -> (r: u16)
        ensures
            r == match *self {
                AuthError::InvalidCredentials => 401u16,
                AuthError::UserExists => 409u16,
                AuthError::InvalidToken => 401u16,
                AuthError::TokenExpired => 401u16,
                AuthError::BadRequest(_) => 400u16,
                AuthError::Database(_) => 500u16,
                AuthError::Internal(_) => 500u16,
            },
    {
        match self {
            AuthError::InvalidCredentials => 401,
            AuthError::UserExists => 409,
            AuthError::InvalidToken => 401,
            AuthError::TokenExpired => 401,
            AuthError::BadRequest(_) => 400,
            AuthError::Database(_) => 500,
            AuthError::Internal(_) => 500,
        }
    }

    /// The message a client sees; internal detail is not passed on.
    pub fn client_message(&self) -> (r: String)
        ensures
            match *self {
                AuthError::InvalidCredentials => r@ == "Invalid credentials"@,
                AuthError::UserExists => r@ == "User already exists"@,
                AuthError::InvalidToken => r@ == "Invalid token"@,
                AuthError::TokenExpired => r@ == "Token expired"@,
                AuthError::BadRequest(m) => r@ == m@,
                AuthError::Database(_) => r@ == "Internal server error"@,
                AuthError::Internal(_) => r@ == "Internal server error"@,
            },
    {
        match self {
            AuthError::InvalidCredentials => String::from_str("Invalid credentials"),
            AuthError::UserExists => String::from_str("User already exists"),
            AuthError::InvalidToken => String::from_str("Invalid token"),
            AuthError::TokenExpired => String::from_str("Token expired"),
            AuthError::BadRequest(m) => m.clone(),
            AuthError::Database(_) => String::from_str("Internal server error"),
            AuthError::Internal(_) => String::from_str("Internal server error"),
        }
    }
}

/// Failures of the blog service.
#[derive(Debug)]
pub enum BlogError {
    PostNotFound,
    CategoryNotFound,
    TagNotFound,
    Forbidden,
    BadRequest(String),
    Database(String),
    Internal(String),
    Validation(String),
    SlugExists,
}

impl BlogError {
    pub fn status_code(&self) -> (r: u16)
        ensures
            r == match *self {
                BlogError::PostNotFound => 404u16,
                BlogError::CategoryNotFound => 404u16,
                BlogError::TagNotFound => 404u16,
                BlogError::Forbidden => 403u16,
                BlogError::BadRequest(_) => 400u16,
                BlogError::Database(_) => 500u16,
                BlogError::Internal(_) => 500u16,
                BlogError::Validation(_) => 400u16,
                BlogError::SlugExists => 409u16,
            },
    {
        match self {
            BlogError::PostNotFound => 404,
            BlogError::CategoryNotFound => 404,
            BlogError::TagNotFound => 404,
            BlogError::Forbidden => 403,
            BlogError::BadRequest(_) => 400,
            BlogError::Database(_) => 500,
            BlogError::Internal(_) => 500,
            BlogError::Validation(_) => 400,
            BlogError::SlugExists => 409,
        }
    }

    /// The message a client sees; internal detail is not passed on.
    pub fn client_message(&self) -> (r: String)
        ensures
            match *self {
                BlogError::PostNotFound => r@ == "Post not found"@,
                BlogError::CategoryNotFound => r@ == "Category not found"@,
                BlogError::TagNotFound => r@ == "Tag not found"@,
                BlogError::Forbidden => r@ == "Permission denied"@,
                BlogError::BadRequest(m) => r@ == m@,
                BlogError::Database(_) => r@ == "Internal server error"@,
                BlogError::Internal(_) => r@ == "Internal server error"@,
                BlogError::Validation(m) => r@ == m@,
                BlogError::SlugExists => r@ == "A post with this slug already exists"@,
            },
    {
        match self {
            BlogError::PostNotFound => String::from_str("Post not found"),
            BlogError::CategoryNotFound => String::from_str("Category not found"),
            BlogError::TagNotFound => String::from_str("Tag not found"),
            BlogError::Forbidden => String::from_str("Permission denied"),
            BlogError::BadRequest(m) => m.clone(),
            BlogError::Database(_) => String::from_str("Internal server error"),
            BlogError::Internal(_) => String::from_str("Internal server error"),
            BlogError::Validation(m) => m.clone(),
            BlogError::SlugExists => String::from_str("A post with this slug already exists"),
        }
    }
}

/// Failures of the user service.
#[derive(Debug)]
pub enum UserError {
    UserNotFound,
    ProfileNotFound,
    Forbidden,
    BadRequest(String),
    Database(String),
    Internal(String),
    Validation(String),
    UsernameExists,
    SelfFollow,
    AlreadyFollowing,
    NotFollowing,
}

impl UserError {
    pub fn status_code(&self) -> (r: u16)
        ensures
            r == match *self {
                UserError::UserNotFound => 404u16,
                UserError::ProfileNotFound => 404u16,
                UserError::Forbidden => 403u16,
                UserError::BadRequest(_) => 400u16,
                UserError::Database(_) => 500u16,
                UserError::Internal(_) => 500u16,
                UserError::Validation(_) => 400u16,
                UserError::UsernameExists => 409u16,
                UserError::SelfFollow => 400u16,
                UserError::AlreadyFollowing => 409u16,
                UserError::NotFollowing => 400u16,
            },
    {
        match self {
            UserError::UserNotFound => 404,
            UserError::ProfileNotFound => 404,
            UserError::Forbidden => 403,
            UserError::BadRequest(_) => 400,
            UserError::Database(_) => 500,
            UserError::Internal(_) => 500,
            UserError::Validation(_) => 400,
            UserError::UsernameExists => 409,
            UserError::SelfFollow => 400,
            UserError::AlreadyFollowing => 409,
            UserError::NotFollowing => 400,
        }
    }

    /// The message a client sees; internal detail is not passed on.
    pub fn client_message(&self) -> (r: String)
        ensures
            match *self {
                UserError::UserNotFound => r@ == "User not found"@,
                UserError::ProfileNotFound => r@ == "Profile not found"@,
                UserError::Forbidden => r@ == "Permission denied"@,
                UserError::BadRequest(m) => r@ == m@,
                UserError::Database(_) => r@ == "Internal server error"@,
                UserError::Internal(_) => r@ == "Internal server error"@,
                UserError::Validation(m) => r@ == m@,
                UserError::UsernameExists => r@ == "Username is already taken"@,
                UserError::SelfFollow => r@ == "You cannot follow yourself"@,
                UserError::AlreadyFollowing => r@ == "You are already following this user"@,
                UserError::NotFollowing => r@ == "You are not following this user"@,
            },
    {
        match self {
            UserError::UserNotFound => String::from_str("User not found"),
            UserError::ProfileNotFound => String::from_str("Profile not found"),
            UserError::Forbidden => String::from_str("Permission denied"),
            UserError::BadRequest(m) => m.clone(),
            UserError::Database(_) => String::from_str("Internal server error"),
            UserError::Internal(_) => String::from_str("Internal server error"),
            UserError::Validation(m) => m.clone(),
            UserError::UsernameExists => String::from_str("Username is already taken"),
            UserError::SelfFollow => String::from_str("You cannot follow yourself"),
            UserError::AlreadyFollowing => String::from_str("You are already following this user"),
            UserError::NotFollowing => String::from_str("You are not following this user"),
        }
    }
}

} // verus!
