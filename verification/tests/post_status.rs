use std::str::FromStr;

use wp_query_rs::{PostStatus, SqlValue};

#[test]
fn can_get_text_from_post_status() {
    assert_eq!(&PostStatus::Publish.to_string(), "publish");
    assert_eq!(&PostStatus::AutoDraft.to_string(), "auto-draft");
}

#[test]
fn post_status_can_convert_from_str() {
    assert_eq!(
        PostStatus::from_str("publish").unwrap(),
        PostStatus::Publish
    );
    assert_eq!(PostStatus::from_str("future").unwrap(), PostStatus::Future);
}

#[test]
fn can_format() {
    assert_eq!(&format!("{}", PostStatus::Pending.to_string()), "pending");
    assert_eq!(&format!("{}", PostStatus::Private.to_string()), "private");
}

#[test]
fn post_status_can_convert_from_mysql_value() {
    let value = String::from("publish");

    let status = PostStatus::from(value);
    assert_eq!(PostStatus::Publish, status);
}

#[test]
fn every_status_is_read_back_from_its_text() {
    let all = [
        PostStatus::Publish,
        PostStatus::Pending,
        PostStatus::Draft,
        PostStatus::AutoDraft,
        PostStatus::Future,
        PostStatus::Private,
        PostStatus::Inherit,
        PostStatus::Trash,
        PostStatus::Any,
    ];
    for status in all {
        assert_eq!(PostStatus::from_str(status.val()), Ok(status));
        assert_eq!("x".parse::<PostStatus>(), Ok(PostStatus::Any));
        assert_eq!(status.to_value(), SqlValue::Bytes(status.val().as_bytes().to_vec()));
    }
}
