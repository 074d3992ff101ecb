//! Error type of the alert core. Each variant carries its description as
//! plain text; `message` renders the conventional display form.

use vstd::prelude::*;

verus! {

/// Application error.
#[derive(Debug)]
pub enum AppError {
    NetworkError(String),
    ParseError(String),
    GpuError(String),
    ConfigError(String),
    IoError(String),
    SerdeError(String),
    AsyncError(String),
}

impl AppError {
    /// The display text of the error: its category, a colon, the detail.
    pub open spec fn spec_message(&self) -> Seq<char> {
        match self {
            AppError::NetworkError(d) => "Network error: "@ + d@,
            AppError::ParseError(d) => "JSON parsing error: "@ + d@,
            AppError::GpuError(d) => "GPU error: "@ + d@,
            AppError::ConfigError(d) => "Configuration error: "@ + d@,
            AppError::IoError(d) => "IO error: "@ + d@,
            AppError::SerdeError(d) => "Serialization error: "@ + d@,
            AppError::AsyncError(d) => "Async error: "@ + d@,
        }
    }

    /// The display text of the error: its category, a colon, the detail.
    pub fn message(&self) -> (r: String)
        ensures
            r@ == self.spec_message(),
    {
        let mut r = match self {
            AppError::NetworkError(_) => "Network error: ".to_owned(),
            AppError::ParseError(_) => "JSON parsing error: ".to_owned(),
            AppError::GpuError(_) => "GPU error: ".to_owned(),
            AppError::ConfigError(_) => "Configuration error: ".to_owned(),
            AppError::IoError(_) => "IO error: ".to_owned(),
            AppError::SerdeError(_) => "Serialization error: ".to_owned(),
            AppError::AsyncError(_) => "Async error: ".to_owned(),
        };
        let detail = match self {
            AppError::NetworkError(d) => d,
            AppError::ParseError(d) => d,
            AppError::GpuError(d) => d,
            AppError::ConfigError(d) => d,
            AppError::IoError(d) => d,
            AppError::SerdeError(d) => d,
            AppError::AsyncError(d) => d,
        };
        r.append(detail.as_str());
        r
    }
}

} // verus!
