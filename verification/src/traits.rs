//! Free-standing validation hooks, one trait per mutation, each
//! defaulting to success.  An entity type that needs no validation of a
//! kind simply keeps the default.

use vstd::prelude::*;

verus! {

/// A unit result whose error carries a message value.
pub type ResultErr<T> = Result<(), T>;

/// The create-validation hook; the default accepts every candidate.
pub trait Creator {
    fn validate_create(&mut self) -> ResultErr<String> {
        Ok(())
    }
}

/// The update-validation hook; the default accepts every candidate,
/// whatever was stored before.
pub trait Updater<T> {
    fn validate_update(&mut self, old_value: T) -> ResultErr<String> {
        let _ = old_value;
        Ok(())
    }
}

/// The delete-validation hook; the default accepts every deletion.
pub trait Deleter {
    fn validate_delete(&self) -> ResultErr<String> {
        Ok(())
    }
}

} // verus!
