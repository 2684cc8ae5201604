use vstd::prelude::*;

verus! {

/// Failure taxonomy of the import pipeline.
///
/// `Io` covers files or directories that cannot be opened or created,
/// `Archive` a missing or corrupt dictionary archive, `Schema` malformed
/// JSON or a violated structural constraint (carrying the offending file
/// name), and `Store` a failure of the persistence layer.
#[derive(Debug)]
pub enum DictError {
    Io(String),
    Archive(String),
    Schema { file: String, message: String },
    Store(String),
}

impl DictError {
    /// True exactly of the `Schema` variant.
    pub fn is_schema(&self) -> (r: bool)
        ensures
            r == (self is Schema),
    {
        match self {
            DictError::Schema { .. } => true,
            _ => false,
        }
    }
}

} // verus!
