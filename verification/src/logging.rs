use vstd::prelude::*;
use vstd::string::*;

verus! {

/// The filter that the log is set up with where `RUST_LOG` is not set:
/// informational for the database client and for everything else, and more
/// than that for the tracing of requests.
pub const DEFAULT_DIRECTIVES: &'static str = "sqlx=info,tower_http=debug,info";

/// The filter directives that the log is set up with: `rust_log`, which is
/// what the variable `RUST_LOG` holds, or [`DEFAULT_DIRECTIVES`] where it is
/// not set.
pub fn init_tracing(rust_log: Option<String>) -> (directives: String)
    ensures
        directives@ == (match rust_log {
            Some(given) => given@,
            None => DEFAULT_DIRECTIVES@,
        }),
{
    match rust_log {
        Some(given) => given,
        None => String::from_str(DEFAULT_DIRECTIVES),
    }
}

} // verus!
