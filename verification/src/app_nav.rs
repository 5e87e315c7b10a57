//! App navigation: what asking the OS to bring an app to the front runs, and how it can fail.
//!
//! Both directions speak bundle identifiers (`com.google.Chrome`), which are the stable name for an
//! app.

use vstd::prelude::*;

verus! {

/// Foregrounding an app failed.
#[derive(Debug)]
pub enum NavError {
    /// `open` could not be spawned at all.
    Spawn(std::io::Error),
    /// `open` ran but reported failure (the app is missing, or activation was refused).
    Failed,
}

impl NavError {
    /// What the error says to a person.
    pub fn message(&self) -> (s: String)
        ensures
            match self {
                NavError::Spawn(_) => s@.take("could not run `open`: "@.len() as int) == "could not run `open`: "@,
                NavError::Failed => s@ == "`open` reported failure (app missing or activation refused)"@,
            },
    {
        match self {
            NavError::Spawn(e) => {
                let detail = crate::single_instance::io_error_text(e);
                let head = String::from_str("could not run `open`: ");
                let ghost h = head@;
                let r = head.concat(detail.as_str());
                assert(r@.take(h.len() as int) == h);
                r
            },
            NavError::Failed => String::from_str("`open` reported failure (app missing or activation refused)"),
        }
    }
}

/// The `open` arguments that foreground `bundle_id`: `open -b <bundle_id>`, which launches the app
/// if needed and brings it to the front.
pub fn open_args(bundle_id: &str) -> (r: [&str; 2])
    ensures
        r[0]@ == "-b"@,
        r[1]@ == bundle_id@,
{
    ["-b", bundle_id]
}

/// Whether `open`'s exit says the app came forward: success is `Ok`, anything else is
/// [`NavError::Failed`].
pub fn foreground_outcome(succeeded: bool) -> (r: Result<(), NavError>)
    ensures
        succeeded <==> r is Ok,
        !succeeded ==> r matches Err(NavError::Failed),
{
    if succeeded {
        Ok(())
    } else {
        Err(NavError::Failed)
    }
}

} // verus!
