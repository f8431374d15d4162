//! Verified core of a small file-sharing pipeline: a local file is uploaded
//! to a hosting service, the returned download URL is passed to a shortening
//! service, and the short link is reported. The modules here hold every
//! decision the pipeline makes — input validation, response parsing, request
//! construction, error taxonomy and the stage sequencing — each with a proved
//! contract. The surrounding binary only performs the file read and the two
//! HTTP requests and feeds the outcomes back in as plain values.

pub mod errors;
pub mod http;
pub mod input;
pub mod json;
pub mod pipeline;
pub mod shorten;
pub mod text;
pub mod upload;
