use vstd::prelude::*;

verus! {

/// Whether a bundled resource is copied into the configuration directory: a
/// regular file with the `db` extension, copied only when the destination does
/// not exist yet, so that user data is never overwritten.
pub fn should_copy_database(is_file: bool, extension: Option<&str>, dest_exists: bool) -> (r: bool)
    ensures
        r == (is_file && (extension matches Some(e) && e@ == "db"@) && !dest_exists),
{
    let is_db = match extension {
        Some(e) => {
            let e = String::from_str(e);
            let db = String::from_str("db");
            e == db
        },
        None => false,
    };
    is_file && is_db && !dest_exists
}

} // verus!
