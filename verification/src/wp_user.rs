//! Users as the `wp_users` table holds them.

use vstd::prelude::*;

use crate::sql::date::SqlDateTime;

verus! {

/// One row of the users table.
#[derive(Debug)]
pub struct WpUser {
    pub id: u64,
    pub user_login: String,
    pub user_pass: String,
    pub user_nicename: String,
    pub user_email: String,
    pub user_url: String,
    pub user_registered: SqlDateTime,
    pub user_activation_key: String,
    pub user_status: i64,
    pub display_name: String,
}

} // verus!
