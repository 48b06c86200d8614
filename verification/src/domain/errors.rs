//! Domain-specific errors.

use vstd::prelude::*;

verus! {

/// Domain-specific errors.
#[derive(Debug, Clone)]
pub enum DomainError {
    /// Playlist not found
    PlaylistNotFound(String),
    /// Invalid playlist ID
    InvalidPlaylistId(String),
    /// Job not found
    JobNotFound(String),
    /// Invalid job ID
    InvalidJobId(String),
    /// PDF generation failed
    PdfGenerationFailed(String),
    /// PDF not found
    PdfNotFound(String),
    /// Invalid PDF side
    InvalidPdfSide(String),
    /// Spotify API error
    SpotifyError(String),
    /// Validation error
    ValidationError(String),
    /// Business rule violation
    BusinessRuleViolation(String),
}

/// Result type for domain operations.
pub type DomainResult<T> = Result<T, DomainError>;

/// The message of each error, as its `Display` form writes it.
pub open spec fn domain_error_message(e: DomainError) -> Seq<char> {
    match e {
        DomainError::PlaylistNotFound(s) => "Playlist not found: "@ + s@,
        DomainError::InvalidPlaylistId(s) => "Invalid playlist ID: "@ + s@,
        DomainError::JobNotFound(s) => "Job not found: "@ + s@,
        DomainError::InvalidJobId(s) => "Invalid job ID: "@ + s@,
        DomainError::PdfGenerationFailed(s) => "PDF generation failed: "@ + s@,
        DomainError::PdfNotFound(s) => "PDF not found: "@ + s@,
        DomainError::InvalidPdfSide(s) => "Invalid PDF side: "@ + s@,
        DomainError::SpotifyError(s) => "Spotify API error: "@ + s@,
        DomainError::ValidationError(s) => "Validation error: "@ + s@,
        DomainError::BusinessRuleViolation(s) => "Business rule violation: "@ + s@,
    }
}

/// `prefix` followed by `detail`.
fn labelled(prefix: &str, detail: &String) -> (r: String)
    ensures
        r@ == prefix@ + detail@,
{
    let mut s = String::from_str(prefix);
    s.append(detail.as_str());
    s
}

impl DomainError {
    /// The error's message.
    pub fn to_string(&self) -> (r: String)
        ensures
            r@ == domain_error_message(*self),
    {
        match self {
            DomainError::PlaylistNotFound(s) => labelled("Playlist not found: ", s),
            DomainError::InvalidPlaylistId(s) => labelled("Invalid playlist ID: ", s),
            DomainError::JobNotFound(s) => labelled("Job not found: ", s),
            DomainError::InvalidJobId(s) => labelled("Invalid job ID: ", s),
            DomainError::PdfGenerationFailed(s) => labelled("PDF generation failed: ", s),
            DomainError::PdfNotFound(s) => labelled("PDF not found: ", s),
            DomainError::InvalidPdfSide(s) => labelled("Invalid PDF side: ", s),
            DomainError::SpotifyError(s) => labelled("Spotify API error: ", s),
            DomainError::ValidationError(s) => labelled("Validation error: ", s),
            DomainError::BusinessRuleViolation(s) => labelled("Business rule violation: ", s),
        }
    }

    /// The domain error for a failure known only by its message: a validation error.
    pub fn from_error_message(message: String) -> (r: DomainError)
        ensures
            r == DomainError::ValidationError(message),
    {
        DomainError::ValidationError(message)
    }
}

} // verus!
