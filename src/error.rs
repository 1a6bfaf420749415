use vstd::prelude::*;

verus! {

/// Why an operation failed. Messages of outside errors (HTTP client, file system, task
/// join) are carried as text.
#[derive(Debug)]
pub enum AppError {
    HttpClient(String),
    ImageProcessing(String),
    InvalidContentType(String),
    ServerError { status: u16, message: String },
    NoImage,
    FileSystem(String),
    TaskJoin(String),
    Stream(String),
}

} // verus!
