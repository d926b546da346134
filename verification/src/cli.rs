//! The command line options of each command, as plain values.

use vstd::prelude::*;

verus! {

/// `luogu fetch`: fetch a problem and scaffold its directory.
pub struct FetchArgs {
    /// Problem ID, such as P1000.
    pub pid: String,
    /// Root folder to store problems.
    pub base_dir: String,
    /// Overwrite existing problem directory files.
    pub force: bool,
}

/// `luogu catalog`: the problem index or the judge history.
pub struct CatalogArgs {
    pub pid: Option<String>,
    pub history: bool,
    pub limit: usize,
}

/// `luogu serve`: the local catalog web server.
pub struct ServeArgs {
    pub host: String,
    pub port: u16,
    pub history_limit: usize,
}

/// `luogu search`: search problems.
pub struct SearchArgs {
    pub keyword: Option<String>,
    pub difficulty: Option<i64>,
    pub ptype: Option<String>,
    pub tag: Option<String>,
    pub page: i64,
    pub order_by: Option<String>,
    pub order: Option<String>,
    pub limit: usize,
}

/// `luogu training`: list training sets or import one.
pub struct TrainingArgs {
    pub id: Option<i64>,
    pub base_dir: String,
    pub force: bool,
    pub list: bool,
    pub page: i64,
    pub keyword: Option<String>,
}

/// `luogu contest`: list contests or import one.
pub struct ContestArgs {
    pub id: Option<i64>,
    pub base_dir: String,
    pub force: bool,
    pub list: bool,
    pub page: i64,
    pub name: Option<String>,
    pub method: Option<i64>,
    pub public: Option<i64>,
}

/// `luogu user`: look a user up or search users.
pub struct UserArgs {
    pub uid_or_name: Option<String>,
    pub search: Option<String>,
    pub practice: bool,
}

/// `luogu solution`: list, show or save solutions.
pub struct SolutionArgs {
    pub pid: String,
    pub page: i64,
    pub save: bool,
    pub base_dir: String,
    pub full: bool,
    pub index: Option<usize>,
}

/// `luogu submit`: submit a source file.
pub struct SubmitArgs {
    pub pid: String,
    pub source: Option<String>,
    pub base_dir: String,
    pub lang: i64,
    pub no_o2: bool,
    pub csrf: Option<String>,
}

/// `luogu record`: list records or show one.
pub struct RecordArgs {
    pub id: Option<i64>,
    pub pid: Option<String>,
    pub user: Option<String>,
    pub status: Option<i64>,
    pub page: i64,
    pub source: bool,
}

/// `luogu rank`: a ranking table.
pub struct RankArgs {
    pub rtype: String,
    pub page: i64,
    pub limit: usize,
}

} // verus!
