use auth_errors::Status;
use warp::http::StatusCode;

const ALL: [Status; 6] = [
    Status::BadRequest,
    Status::Unauthorized,
    Status::Forbidden,
    Status::NotFound,
    Status::MethodNotAllowed,
    Status::InternalServerError,
];

#[test]
fn each_status_has_its_number() {
    assert_eq!(Status::BadRequest.code(), 400);
    assert_eq!(Status::Unauthorized.code(), 401);
    assert_eq!(Status::Forbidden.code(), 403);
    assert_eq!(Status::NotFound.code(), 404);
    assert_eq!(Status::MethodNotAllowed.code(), 405);
    assert_eq!(Status::InternalServerError.code(), 500);
}

#[test]
fn each_status_has_its_line() {
    assert_eq!(Status::BadRequest.to_string(), "400 Bad Request");
    assert_eq!(Status::Unauthorized.to_string(), "401 Unauthorized");
    assert_eq!(Status::Forbidden.to_string(), "403 Forbidden");
    assert_eq!(Status::NotFound.to_string(), "404 Not Found");
    assert_eq!(Status::MethodNotAllowed.to_string(), "405 Method Not Allowed");
    assert_eq!(Status::InternalServerError.to_string(), "500 Internal Server Error");
}

#[test]
fn numbers_and_lines_are_those_of_the_http_crate() {
    let theirs = [
        StatusCode::BAD_REQUEST,
        StatusCode::UNAUTHORIZED,
        StatusCode::FORBIDDEN,
        StatusCode::NOT_FOUND,
        StatusCode::METHOD_NOT_ALLOWED,
        StatusCode::INTERNAL_SERVER_ERROR,
    ];
    for (ours, theirs) in ALL.iter().zip(theirs.iter()) {
        assert_eq!(ours.code(), theirs.as_u16());
        assert_eq!(ours.to_string(), theirs.to_string());
        assert_eq!(StatusCode::from_u16(ours.code()).unwrap(), *theirs);
    }
}

#[test]
fn a_line_starts_with_the_number() {
    for status in ALL {
        let line = status.to_string();
        assert_eq!(line[..3], format!("{}", status.code()));
        assert_eq!(&line[3..4], " ");
        assert!(line.len() > 4);
    }
}
