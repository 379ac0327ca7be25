use wp_query_rs::sql::cast_type::CastType;
use wp_query_rs::sql::SqlCompareOperator;
use wp_query_rs::wp_comment::arg_builder::fields::Fields;
use wp_query_rs::wp_comment::arg_builder::hierarchical::Hierarchy;
use wp_query_rs::wp_comment::arg_builder::orderby::Orderby;
use wp_query_rs::wp_comment::arg_builder::WpCommentArgBuilder;
use wp_query_rs::wp_comment::comment_approved::CommentApproved;
use wp_query_rs::wp_comment::comment_type::CommentType;
use wp_query_rs::wp_comment::WpComment;
use wp_query_rs::SqlOrder;

#[test]
fn arg_builder_can_create() {
    WpCommentArgBuilder::new();
}

#[test]
fn can_add_author_email() {
    WpCommentArgBuilder::new();
}

#[test]
fn can_add_author_url() {
    WpCommentArgBuilder::new();
}

#[test]
fn arg_builder_can_add_author_in() {
    WpCommentArgBuilder::new();
}

#[test]
fn arg_builder_can_add_author_not_in() {
    WpCommentArgBuilder::new();
}

#[test]
fn can_add_comment_in() {
    WpCommentArgBuilder::new();
}

#[test]
fn can_add_comment_not_in() {
    WpCommentArgBuilder::new();
}

#[test]
fn can_add_count() {
    WpCommentArgBuilder::new();
}

#[test]
fn can_add_date_query() {
    WpCommentArgBuilder::new();
}

#[test]
fn can_add_fields() {
    WpCommentArgBuilder::new();
}

#[test]
fn can_add_include_unapproved() {
    WpCommentArgBuilder::new();
}

#[test]
fn can_add_karma() {
    WpCommentArgBuilder::new();
}

#[test]
fn can_add_meta_key() {
    WpCommentArgBuilder::new();
}

#[test]
fn can_add_meta_value() {
    WpCommentArgBuilder::new();
}

#[test]
fn can_add_meta_compare() {
    WpCommentArgBuilder::new();
}

#[test]
fn can_add_meta_compare_key() {
    WpCommentArgBuilder::new();
}

#[test]
fn can_add_author_meta_type() {
    WpCommentArgBuilder::new();
}

#[test]
fn can_add_meta_type_key() {
    WpCommentArgBuilder::new();
}

#[test]
fn can_add_meta_query() {
    WpCommentArgBuilder::new();
}

#[test]
fn can_add_number() {
    WpCommentArgBuilder::new();
}

#[test]
fn can_add_paged() {
    WpCommentArgBuilder::new();
}

#[test]
fn can_add_offset() {
    WpCommentArgBuilder::new();
}

#[test]
fn can_add_orderby() {
    WpCommentArgBuilder::new();
}

#[test]
fn can_add_order() {
    WpCommentArgBuilder::new();
}

#[test]
fn can_add_parent() {
    WpCommentArgBuilder::new();
}

#[test]
fn can_add_parent_in() {
    WpCommentArgBuilder::new();
}

#[test]
fn can_add_parent_not_in() {
    WpCommentArgBuilder::new();
}

#[test]
fn can_add_post_author_in() {
    WpCommentArgBuilder::new();
}

#[test]
fn can_add_post_author_not_in() {
    WpCommentArgBuilder::new();
}

#[test]
fn can_add_post_id() {
    WpCommentArgBuilder::new();
}

#[test]
fn arg_builder_can_add_post_in() {
    WpCommentArgBuilder::new();
}

#[test]
fn arg_builder_can_add_post_not_in() {
    WpCommentArgBuilder::new();
}

#[test]
fn can_add_post_author() {
    WpCommentArgBuilder::new();
}

#[test]
fn can_add_post_status() {
    WpCommentArgBuilder::new();
}

#[test]
fn arg_builder_can_add_post_type() {
    WpCommentArgBuilder::new();
}

#[test]
fn can_add_post_name() {
    WpCommentArgBuilder::new();
}

#[test]
fn can_add_post_parent() {
    WpCommentArgBuilder::new();
}

#[test]
fn can_add_search() {
    WpCommentArgBuilder::new();
}

#[test]
fn can_add_status() {
    WpCommentArgBuilder::new();
}

#[test]
fn can_add_type() {
    WpCommentArgBuilder::new();
}

#[test]
fn can_add_type_in() {
    WpCommentArgBuilder::new();
}

#[test]
fn can_add_type_not_in() {
    WpCommentArgBuilder::new();
}

#[test]
fn can_add_user_id() {
    WpCommentArgBuilder::new();
}

#[test]
fn can_add_hierarchical() {
    WpCommentArgBuilder::new();
}

#[test]
fn new_builder_holds_the_defaults() {
    let builder = WpCommentArgBuilder::new();
    assert!(!builder.count);
    assert_eq!(builder.fields, Fields::All);
    assert_eq!(builder.meta_compare, SqlCompareOperator::Equals);
    assert_eq!(builder.meta_type, CastType::Char);
    assert_eq!(builder.orderby, Orderby::DateGmt);
    assert_eq!(builder.order, SqlOrder::Desc);
    assert!(builder.author_email.is_none());
    assert!(builder.meta_query.is_none());
    assert!(builder.args.hierarchical.is_none());
    assert_ne!(Some(Hierarchy::Flat), builder.hierarchical);
}

#[test]
fn can_to_string() {
    assert_eq!(
        Orderby::DateGmt.to_string(),
        String::from("comment_date_gmt")
    )
}

#[test]
fn comment_orderings_have_names() {
    assert_eq!(Orderby::Agent.to_string(), "comment_agent");
    assert_eq!(Orderby::AuthorIp.to_string(), "comment_author_IP");
    assert_eq!(Orderby::Id.to_string(), "comment_ID");
    assert_eq!(Orderby::PostId.to_string(), "comment_post_ID");
    assert_eq!(Orderby::UserId.to_string(), "user_id");
    assert_eq!(Orderby::MetaKey(String::from("rating")).to_string(), "rating");
    assert_eq!(Orderby::MetaValue(String::from("stars")).to_string(), "stars");
    assert_eq!(Orderby::NoOrder.to_string(), "");
}

#[test]
fn comment_approved_can_create() {
    let c_type = CommentApproved::Custom(String::from("Hello World"));

    match c_type {
        CommentApproved::Custom(s) => assert_eq!(&s, "Hello World"),
        _ => panic!("Did not match!"),
    }
}

#[test]
fn comment_type_can_create() {
    let c_type = CommentType::Custom(String::from("Hello World"));

    match c_type {
        CommentType::Custom(s) => assert_eq!(&s, "Hello World"),
        _ => panic!("Did not match!"),
    }
}

#[test]
fn wp_comment_can_create() {
    let comment = WpComment::new(1);

    assert_eq!(comment.user_id, 1);
    assert_eq!(comment.comment_approved, CommentApproved::Approved);
    assert_eq!(comment.comment_type, CommentType::Comment);
    assert_eq!(comment.comment_author_IP, [0, 0, 0, 0]);
    assert!(comment.children.is_none());
}

#[test]
fn builder_gives_way_to_its_description() {
    let mut builder = WpCommentArgBuilder::new();
    builder.karma = Some(3);
    builder.count = true;
    assert_eq!(builder.args.karma, Some(3));
    assert!(builder.args.count);
}
