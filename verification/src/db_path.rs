//! Resolution of the database file location: the host-supplied per-user
//! application data directory with a fixed file name appended.

use vstd::prelude::*;
use vstd::string::StrSliceExecFns;
use vstd::string::StringExecFns;

verus! {

/// Name of the database file kept under the application data directory.
pub open spec fn db_file_name() -> Seq<char> {
    "stock_opname.db"@
}

/// The database path for a given application data directory: the directory
/// with the fixed file name appended, a separator between the two unless
/// the directory already ends in one. An empty directory yields the bare
/// file name, as a path join does.
pub open spec fn db_path_spec(dir: Seq<char>) -> Seq<char> {
    if dir.len() == 0 {
        db_file_name()
    } else if dir.last() == '/' {
        dir + db_file_name()
    } else {
        dir + "/"@ + db_file_name()
    }
}

/// Appends the fixed database file name to the host-supplied application
/// data directory. The result is a function of the directory alone, so
/// repeated calls under one host environment agree.
pub fn get_db_path(app_data_dir: &str) -> (r: String)
    ensures
        r@ == db_path_spec(app_data_dir@),
{
    let n = app_data_dir.unicode_len();
    let mut out: String = app_data_dir.to_owned();
    if n == 0 {
        out.append("stock_opname.db");
        proof {
            assert(out@ =~= db_path_spec(app_data_dir@));
        }
    } else if app_data_dir.get_char(n - 1) == '/' {
        out.append("stock_opname.db");
    } else {
        out.append("/");
        out.append("stock_opname.db");
    }
    out
}

} // verus!
