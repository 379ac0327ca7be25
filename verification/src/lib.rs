//! Builds parameterised `SELECT` statements over a WordPress database from a
//! description of the posts wanted.

pub mod params;
pub mod query_builder;
pub mod sql;
pub mod strings;
pub mod text;
pub mod value;
pub mod wp_comment;
pub mod wp_post;
pub mod wp_query;
pub mod wp_rewrite;
pub mod wp_user;

pub use params::date_query::DateColumn;
pub use params::date_query::DateQuery;
pub use params::date_query::DateQueryAfterBefore;
pub use params::meta_query::MetaQuery;
pub use params::meta_query::MetaQueryMap;
pub use params::meta_query::MetaRelation;
pub use params::orderby::WpOrderBy;
pub use params::param_builder::ParamBuilder;
pub use params::post_type::PostType;
pub use params::tax_query::TaxField;
pub use params::tax_query::TaxQuery;
pub use params::tax_query::TaxQueryMap;
pub use params::tax_query::TaxRelation;
pub use params::traits::MetaQueryable;
pub use params::traits::PostQueryable;
pub use params::Params;
pub use query_builder::QueryAndValues;
pub use query_builder::QueryBuilder;
pub use sql::SqlOrder;
pub use sql::SqlSearchOperators;
pub use value::SqlValue;
pub use wp_post::post_status::PostStatus;
pub use wp_post::WpPost;
pub use wp_query::WpQuery;
pub use wp_query::WP_Post;
pub use wp_query::WP_Query;
pub use wp_user::WpUser;
