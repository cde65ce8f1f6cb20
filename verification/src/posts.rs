//! Posts, the resource that the service keeps: its records, what a
//! handler makes of what the store hands back, and how its failures are
//! shown.

use vstd::prelude::*;
use vstd::string::StringExecFns;

use crate::errors::InfraError;
use crate::errors::STATUS_INTERNAL_SERVER_ERROR;
use crate::errors::STATUS_NOT_FOUND;
use crate::errors::ErrorResponse;
use crate::errors::ErrorResponseView;
use crate::identifiers::identifier_text;
use crate::identifiers::uuid_text;

verus! {

/// A post: its identifier, its text, and whether it is published.
pub struct PostView {
    pub id: uuid::Uuid,
    pub title: Seq<char>,
    pub body: Seq<char>,
    pub published: bool,
}

/// A post that has not been stored yet.
pub struct NewPostView {
    pub title: Seq<char>,
    pub body: Seq<char>,
    pub published: bool,
}

#[derive(Clone, Debug, PartialEq)]
pub struct PostModel {
    pub id: uuid::Uuid,
    pub title: String,
    pub body: String,
    pub published: bool,
}

impl View for PostModel {
    type V = PostView;

    open spec fn view(&self) -> PostView {
        PostView { id: self.id, title: self.title@, body: self.body@, published: self.published }
    }
}

/// A post as a response shows it.
#[derive(Clone, Debug, PartialEq)]
pub struct PostResponse {
    pub id: uuid::Uuid,
    pub title: String,
    pub body: String,
    pub published: bool,
}

impl View for PostResponse {
    type V = PostView;

    open spec fn view(&self) -> PostView {
        PostView { id: self.id, title: self.title@, body: self.body@, published: self.published }
    }
}

/// The body of a request to create a post.
#[derive(Clone, Debug, PartialEq)]
pub struct CreatePostRequest {
    pub title: String,
    pub body: String,
}

/// The body of a request to change a post: what is absent stays as it is.
#[derive(Clone, Debug, PartialEq)]
pub struct UpdatePostRequest {
    pub title: Option<String>,
    pub body: Option<String>,
    pub published: Option<bool>,
}

/// The posts that a listing answers with.
#[derive(Clone, Debug, PartialEq)]
pub struct ListPostsResponse {
    pub posts: Vec<PostResponse>,
}

/// A stored post.
#[derive(Clone, Debug, PartialEq)]
pub struct PostDb {
    pub id: uuid::Uuid,
    pub title: String,
    pub body: String,
    pub published: bool,
}

impl View for PostDb {
    type V = PostView;

    open spec fn view(&self) -> PostView {
        PostView { id: self.id, title: self.title@, body: self.body@, published: self.published }
    }
}

/// A post to store.
#[derive(Clone, Debug, PartialEq)]
pub struct NewPostDb {
    pub title: String,
    pub body: String,
    pub published: bool,
}

impl View for NewPostDb {
    type V = NewPostView;

    open spec fn view(&self) -> NewPostView {
        NewPostView { title: self.title@, body: self.body@, published: self.published }
    }
}

/// Which posts a listing asks for: all of them where nothing is set.
#[derive(Clone, Debug, PartialEq)]
pub struct PostsFilter {
    pub published: Option<bool>,
    pub title_contains: Option<String>,
}

/// Why a request about posts failed.
#[derive(Debug, Clone, Copy, PartialEq)]
pub enum PostError {
    InternalServerError,
    NotFound(uuid::Uuid),
    InfraError(InfraError),
}

/// The name under which failures about posts are reported.
pub open spec fn post_resource() -> Seq<char> {
    "PostModel"@
}

impl PostError {
    /// The status of the response: 404 for a post that does not exist,
    /// 500 for everything else.
    pub open spec fn status_of(self) -> u16 {
        match self {
            PostError::NotFound(_) => STATUS_NOT_FOUND,
            _ => STATUS_INTERNAL_SERVER_ERROR,
        }
    }

    pub fn status_code(&self) -> (r: u16)
        ensures
            r == self.status_of(),
    {
        match self {
            PostError::NotFound(_) => STATUS_NOT_FOUND,
            PostError::InfraError(_) => STATUS_INTERNAL_SERVER_ERROR,
            PostError::InternalServerError => STATUS_INTERNAL_SERVER_ERROR,
        }
    }

    /// The human-readable message of the response.
    pub open spec fn message_of(self) -> Seq<char> {
        match self {
            PostError::NotFound(id) => "PostModel with id "@ + uuid_text(id)
                + " has not been found"@,
            PostError::InfraError(e) => "Internal server error: "@ + e.text(),
            PostError::InternalServerError => "Internal server error"@,
        }
    }

    pub fn message(&self) -> (r: String)
        ensures
            r@ == self.message_of(),
    {
        match self {
            PostError::NotFound(id) => {
                let text = identifier_text(id);
                "PostModel with id ".to_owned().concat(text.as_str()).concat(
                    " has not been found",
                )
            },
            PostError::InfraError(e) => {
                let detail = e.to_string();
                "Internal server error: ".to_owned().concat(detail.as_str())
            },
            PostError::InternalServerError => "Internal server error".to_owned(),
        }
    }

    pub fn into_response(self) -> (r: ErrorResponse)
        ensures
            r@ == (ErrorResponseView {
                status: self.status_of(),
                resource: post_resource(),
                message: self.message_of(),
            }),
    {
        ErrorResponse {
            status: self.status_code(),
            resource: "PostModel".to_owned(),
            message: self.message(),
        }
    }
}

/// A failure about posts is answered with 404 exactly where the post
/// does not exist, and with 500 otherwise.
pub proof fn law_not_found_is_the_only_404(error: PostError)
    ensures
        error.status_of() == 404 <==> error is NotFound,
        error !is NotFound ==> error.status_of() == 500,
{
}

/// The row that a request to create a post asks for: the post starts
/// unpublished.
pub open spec fn new_post(request: CreatePostRequest) -> NewPostView {
    NewPostView { title: request.title@, body: request.body@, published: false }
}

pub fn new_post_row(request: CreatePostRequest) -> (row: NewPostDb)
    ensures
        row@ == new_post(request),
{
    NewPostDb { title: request.title, body: request.body, published: false }
}

/// What the lookup of post `id` reports when the store fails: that the
/// post does not exist, where the store found no row.
pub open spec fn lookup_failure(e: InfraError, id: uuid::Uuid) -> PostError {
    match e {
        InfraError::InternalServerError => PostError::InternalServerError,
        InfraError::NotFound => PostError::NotFound(id),
    }
}

pub fn post_lookup_error(e: InfraError, id: uuid::Uuid) -> (r: PostError)
    ensures
        r == lookup_failure(e, id),
{
    match e {
        InfraError::InternalServerError => PostError::InternalServerError,
        InfraError::NotFound => PostError::NotFound(id),
    }
}

/// The pattern that matches the titles which contain `fragment`.
pub open spec fn title_pattern_of(fragment: Seq<char>) -> Seq<char> {
    seq!['%'] + fragment + seq!['%']
}

pub fn title_pattern(fragment: &str) -> (pattern: String)
    ensures
        pattern@ == title_pattern_of(fragment@),
{
    proof {
        reveal_strlit("%");
    }
    let pattern = "%".to_owned().concat(fragment).concat("%");
    assert(pattern@ =~= title_pattern_of(fragment@));
    pattern
}

/// Turns a stored post into the post that the service works with.
pub fn adapt_post_db_to_post(post_db: PostDb) -> (post: PostModel)
    ensures
        post@ == post_db@,
{
    PostModel {
        id: post_db.id,
        title: post_db.title,
        body: post_db.body,
        published: post_db.published,
    }
}

/// Turns a post into what a response shows of it.
pub fn adapt_post_to_post_response(post: PostModel) -> (response: PostResponse)
    ensures
        response@ == post@,
{
    PostResponse { id: post.id, title: post.title, body: post.body, published: post.published }
}

/// Turns the posts of a listing into the response that shows them, in
/// the same order.
pub fn adapt_posts_to_list_posts_response(posts: Vec<PostModel>) -> (response: ListPostsResponse)
    ensures
        response.posts@.len() == posts@.len(),
        forall|i: int| 0 <= i < posts@.len() ==> (#[trigger] response.posts@[i])@ == posts@[i]@,
{
    let mut shown: Vec<PostResponse> = Vec::new();
    for post in it: posts
        invariant
            it.seq() == posts@,
            shown@.len() == it.index(),
            forall|i: int| 0 <= i < shown@.len() ==> (#[trigger] shown@[i])@ == posts@[i]@,
    {
        shown.push(adapt_post_to_post_response(post));
    }
    ListPostsResponse { posts: shown }
}

} // verus!
