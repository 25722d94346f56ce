use thesis_backend::error::{str_contains, ApiError};

#[test]
fn each_error_has_its_status() {
    assert_eq!(ApiError::Unauthorized.status_code(), 401);
    assert_eq!(ApiError::Forbidden.status_code(), 403);
    assert_eq!(ApiError::NotFound.status_code(), 404);
    assert_eq!(ApiError::BadRequest("x".to_string()).status_code(), 400);
    assert_eq!(ApiError::Conflict("x".to_string()).status_code(), 409);
    assert_eq!(ApiError::InternalServerError.status_code(), 500);
}

#[test]
fn each_error_has_its_text() {
    assert_eq!(ApiError::Unauthorized.to_string(), "未登录");
    assert_eq!(ApiError::Forbidden.to_string(), "权限不足");
    assert_eq!(ApiError::NotFound.to_string(), "资源未找到");
    assert_eq!(ApiError::InternalServerError.to_string(), "服务器内部错误");
}

#[test]
fn bad_request_and_conflict_append_their_message() {
    assert_eq!(
        ApiError::BadRequest("Already logged in".to_string()).to_string(),
        "请求格式错误: Already logged in"
    );
    assert_eq!(ApiError::Conflict("Topic is full".to_string()).to_string(), "资源冲突: Topic is full");
    assert_eq!(ApiError::Conflict(String::new()).to_string(), "资源冲突: ");
}

#[test]
fn constructors_keep_the_message() {
    assert!(matches!(ApiError::bad_request("a b"), ApiError::BadRequest(m) if m == "a b"));
    assert!(matches!(ApiError::conflict("c"), ApiError::Conflict(m) if m == "c"));
}

#[test]
fn error_response_pairs_status_and_text() {
    let (status, body) = ApiError::Conflict("Topic is full".to_string()).error_response();
    assert_eq!(status, 409);
    assert_eq!(body.message, "资源冲突: Topic is full");
    let (status, body) = ApiError::Unauthorized.error_response();
    assert_eq!(status, 401);
    assert_eq!(body.message, "未登录");
}

#[test]
fn text_contains_its_parts_and_nothing_else() {
    assert!(str_contains("duplicate key value", "duplicate key"));
    assert!(str_contains("a duplicate key", "duplicate key"));
    assert!(str_contains("duplicate key", "duplicate key"));
    assert!(!str_contains("duplicate  key", "duplicate key"));
    assert!(!str_contains("duplicate ke", "duplicate key"));
    assert!(!str_contains("", "duplicate key"));
    assert!(str_contains("abc", ""));
    assert!(str_contains("", ""));
    assert!(str_contains("abcabd", "abd"));
    assert!(!str_contains("abcabd", "abe"));
    assert!(str_contains("aab", "ab"));
    assert!(str_contains("资源冲突: x", "冲突"));
    assert!(!str_contains("资源冲突: x", "冲资"));
    assert!(str_contains("xyz", "z"));
    assert!(str_contains("xyz", "x"));
}
