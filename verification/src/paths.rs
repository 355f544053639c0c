//! Resolution of the working-directory path: an explicit override wins;
//! otherwise a fixed subdirectory of the user's home directory is used.

use vstd::prelude::*;

use crate::errors::ConfigError;

verus! {

/// Looks up the platform home directory.
///
/// Relies on `dirs::home_dir`; the result depends on the environment, so
/// nothing is promised of its value. A home path that is not valid Unicode
/// counts as absent.
#[verifier::external_body]
fn home_dir_string() -> (r: Option<String>) {
    match dirs::home_dir() {
        Some(p) => match p.into_os_string().into_string() {
            Ok(s) => Some(s),
            Err(_) => None,
        },
        None => None,
    }
}

/// The default working directory under a given home directory: the home
/// path joined with the fixed subdirectory.
pub fn join_silius_dir(home: String) -> (r: String)
    ensures
        r@ == home@ + "/.silius"@,
{
    home.concat("/.silius")
}

/// Returns the explicit path when one was supplied; otherwise the fixed
/// subdirectory of the home directory, or an error when the environment
/// names no home directory.
pub fn unwrap_path_or_home(path: Option<String>) -> (r: Result<String, ConfigError>)
    ensures
        path is Some ==> r is Ok,
        path matches Some(p) ==> (r matches Ok(q) && q@ == p@),
        path is None && r is Err ==> r == Result::<String, ConfigError>::Err(
            ConfigError::NoHomeDirectory,
        ),
        path is None && r is Ok ==> (r matches Ok(q) && exists|h: Seq<char>|
            q@ == h + "/.silius"@),
{
    match path {
        Some(p) => Ok(p),
        None => match home_dir_string() {
            Some(h) => {
                let ghost hv = h@;
                let joined = join_silius_dir(h);
                proof {
                    assert(joined@ == hv + "/.silius"@);
                }
                Ok(joined)
            },
            None => Err(ConfigError::NoHomeDirectory),
        },
    }
}

} // verus!
