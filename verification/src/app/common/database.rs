//! Where the application keeps its database.

use vstd::prelude::*;

use crate::app::common::utils::images::{APP_ID, join_path, join_spec};

verus! {

/// The directory of the database: `<data dir>/<app id>/database`.
pub open spec fn database_dir_spec(data_dir: Seq<char>) -> Seq<char> {
    join_spec(join_spec(data_dir, APP_ID@), "database"@)
}

/// The directory of the database, under the given data directory.
pub fn database_dir(data_dir: &str) -> (p: String)
    ensures
        p@ == database_dir_spec(data_dir@),
{
    let app = join_path(data_dir, APP_ID);
    join_path(app.as_str(), "database")
}

/// The database file, in the database directory.
pub fn database_file(data_dir: &str) -> (p: String)
    ensures
        p@ == join_spec(database_dir_spec(data_dir@), "oboete_v2.db"@),
{
    let dir = database_dir(data_dir);
    join_path(dir.as_str(), "oboete_v2.db")
}

/// The old database file (`oboete.db`), whose data is imported and
/// which is then removed.
pub fn old_database_file(data_dir: &str) -> (p: String)
    ensures
        p@ == join_spec(database_dir_spec(data_dir@), "oboete.db"@),
{
    let dir = database_dir(data_dir);
    join_path(dir.as_str(), "oboete.db")
}

} // verus!
