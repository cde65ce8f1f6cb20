use session_auth::errors::InfraError;
use session_auth::posts::{
    adapt_post_db_to_post, adapt_post_to_post_response, adapt_posts_to_list_posts_response,
    new_post_row, post_lookup_error, title_pattern, CreatePostRequest, ListPostsResponse,
    NewPostDb, PostDb, PostError, PostModel, PostResponse,
};
use uuid::Uuid;

fn post(n: u128, title: &str) -> PostModel {
    PostModel {
        id: Uuid::from_u128(n),
        title: title.to_string(),
        body: format!("body of {}", title),
        published: n % 2 == 0,
    }
}

fn shown(n: u128, title: &str) -> PostResponse {
    PostResponse {
        id: Uuid::from_u128(n),
        title: title.to_string(),
        body: format!("body of {}", title),
        published: n % 2 == 0,
    }
}

#[test]
fn missing_post_is_status_404() {
    let error = PostError::NotFound(Uuid::from_u128(0x0123456789abcdef0123456789abcdef));
    assert_eq!(error.status_code(), 404);
    assert_eq!(
        error.message(),
        "PostModel with id 01234567-89ab-cdef-0123-456789abcdef has not been found"
    );
    let response = error.into_response();
    assert_eq!(response.status, 404);
    assert_eq!(response.resource, "PostModel");
    assert_eq!(
        response.message,
        "PostModel with id 01234567-89ab-cdef-0123-456789abcdef has not been found"
    );
}

#[test]
fn other_post_errors_are_status_500() {
    assert_eq!(PostError::InternalServerError.status_code(), 500);
    assert_eq!(PostError::InternalServerError.message(), "Internal server error");
    let error = PostError::InfraError(InfraError::NotFound);
    assert_eq!(error.status_code(), 500);
    assert_eq!(error.message(), "Internal server error: Not found");
    let error = PostError::InfraError(InfraError::InternalServerError);
    assert_eq!(error.status_code(), 500);
    assert_eq!(error.message(), "Internal server error: Internal server error");
    assert_eq!(error.into_response().resource, "PostModel");
}

#[test]
fn new_post_starts_unpublished() {
    let request = CreatePostRequest { title: "Title".to_string(), body: "Body".to_string() };
    assert_eq!(
        new_post_row(request),
        NewPostDb { title: "Title".to_string(), body: "Body".to_string(), published: false }
    );
}

#[test]
fn failed_lookup_of_a_post() {
    let id = Uuid::from_u128(5);
    assert_eq!(post_lookup_error(InfraError::NotFound, id), PostError::NotFound(id));
    assert_eq!(
        post_lookup_error(InfraError::InternalServerError, id),
        PostError::InternalServerError
    );
}

#[test]
fn title_pattern_matches_anywhere() {
    assert_eq!(title_pattern("rust"), "%rust%");
    assert_eq!(title_pattern(""), "%%");
    assert_eq!(title_pattern("50%"), "%50%%");
}

#[test]
fn stored_post_becomes_a_post() {
    let row = PostDb {
        id: Uuid::from_u128(1),
        title: "t".to_string(),
        body: "b".to_string(),
        published: true,
    };
    assert_eq!(
        adapt_post_db_to_post(row),
        PostModel {
            id: Uuid::from_u128(1),
            title: "t".to_string(),
            body: "b".to_string(),
            published: true
        }
    );
}

#[test]
fn post_becomes_a_response() {
    assert_eq!(adapt_post_to_post_response(post(1, "one")), shown(1, "one"));
    assert_eq!(adapt_post_to_post_response(post(2, "two")), shown(2, "two"));
}

#[test]
fn posts_are_listed_in_order() {
    assert_eq!(
        adapt_posts_to_list_posts_response(vec![post(3, "c"), post(1, "a"), post(2, "b")]),
        ListPostsResponse { posts: vec![shown(3, "c"), shown(1, "a"), shown(2, "b")] }
    );
    assert_eq!(
        adapt_posts_to_list_posts_response(Vec::new()),
        ListPostsResponse { posts: Vec::new() }
    );
}
