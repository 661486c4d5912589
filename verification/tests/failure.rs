use axum_static::failure::io_error_reply;
use axum_static::failure::ErrorReply;
use axum_static::failure::INTERNAL_SERVER_ERROR;

#[test]
fn plain_reply() {
    let reply = io_error_reply("disk on fire", false);
    assert_eq!(
        reply,
        ErrorReply { status: 500, body: String::from("static router IO error: disk on fire") }
    );
    assert_eq!(INTERNAL_SERVER_ERROR, 500);
}

#[test]
fn labelled_reply() {
    let reply = io_error_reply("disk on fire", true);
    assert_eq!(reply.status, 500);
    assert_eq!(reply.body, "static router IO error (500 Internal Server Error): disk on fire");
}

#[test]
fn reply_to_an_empty_description() {
    assert_eq!(io_error_reply("", false).body, "static router IO error: ");
    assert_eq!(
        io_error_reply("", true).body,
        "static router IO error (500 Internal Server Error): "
    );
}

#[test]
fn permission_denied_is_reported_with_its_description() {
    let failure = std::io::Error::new(std::io::ErrorKind::PermissionDenied, "permission denied");
    let detail = format!("{:?}", failure);
    for with_label in [false, true] {
        let reply = io_error_reply(&detail, with_label);
        assert_eq!(reply.status, 500);
        assert!(reply.body.starts_with("static router IO error"));
        assert!(reply.body.ends_with(&detail));
        assert!(reply.body.contains("PermissionDenied"));
        assert!(reply.body.contains("permission denied"));
    }
}
