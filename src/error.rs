use vstd::prelude::*;

verus! {

/// The stable numeric code attached to each kind of failure.
#[derive(Debug, Clone, Copy, PartialEq, Eq)]
pub enum ErrorCodes {
    ConfigMissing,
    SerializationError,
    IoError,
    OtherError,
}

impl ErrorCodes {
    pub open spec fn spec_code(self) -> u16 {
        match self {
            ErrorCodes::ConfigMissing => 1001,
            ErrorCodes::SerializationError => 1002,
            ErrorCodes::IoError => 1003,
            ErrorCodes::OtherError => 1004,
        }
    }

    /// The number that clients see in a response's `code` field.
    pub fn code(&self) -> (r: u16)
        ensures
            r == self.spec_code(),
    {
        match self {
            ErrorCodes::ConfigMissing => 1001,
            ErrorCodes::SerializationError => 1002,
            ErrorCodes::IoError => 1003,
            ErrorCodes::OtherError => 1004,
        }
    }
}

/// A failure, classified into the closed set of kinds, with its detail.
#[derive(Debug, Clone)]
pub enum ZKMLError {
    /// The configuration path does not resolve; holds the path.
    ConfigMissing(String),
    /// The configuration text could not be decoded; holds the decoder's message.
    SerializationError(String),
    /// A filesystem or transport failure; holds its description.
    IoError(String),
    /// Any other failure, with a free-form message.
    OtherError(String),
}

pub open spec fn config_missing_prefix() -> Seq<char> {
    "No operator config found at this path: "@
}

pub open spec fn serialization_prefix() -> Seq<char> {
    "Config deserialization error: "@
}

pub open spec fn io_prefix() -> Seq<char> {
    "Error while performing IO for the Operator: "@
}

pub open spec fn other_prefix() -> Seq<char> {
    "Other Error for the Operator: "@
}

impl ZKMLError {
    pub open spec fn kind(&self) -> ErrorCodes {
        match self {
            ZKMLError::ConfigMissing(_) => ErrorCodes::ConfigMissing,
            ZKMLError::SerializationError(_) => ErrorCodes::SerializationError,
            ZKMLError::IoError(_) => ErrorCodes::IoError,
            ZKMLError::OtherError(_) => ErrorCodes::OtherError,
        }
    }

    /// The detail that the error carries.
    pub open spec fn detail(&self) -> Seq<char> {
        match self {
            ZKMLError::ConfigMissing(s) => s@,
            ZKMLError::SerializationError(s) => s@,
            ZKMLError::IoError(s) => s@,
            ZKMLError::OtherError(s) => s@,
        }
    }

    /// The human-readable text of the error: a fixed phrase for its kind,
    /// followed by its detail.
    pub open spec fn message(&self) -> Seq<char> {
        let prefix = match self {
            ZKMLError::ConfigMissing(_) => config_missing_prefix(),
            ZKMLError::SerializationError(_) => serialization_prefix(),
            ZKMLError::IoError(_) => io_prefix(),
            ZKMLError::OtherError(_) => other_prefix(),
        };
        prefix + self.detail()
    }

    pub open spec fn spec_error_code(&self) -> u16 {
        self.kind().spec_code()
    }

    pub fn error_code(&self) -> (r: u16)
        ensures
            r == self.spec_error_code(),
    {
        let kind = match self {
            ZKMLError::ConfigMissing(_) => ErrorCodes::ConfigMissing,
            ZKMLError::SerializationError(_) => ErrorCodes::SerializationError,
            ZKMLError::IoError(_) => ErrorCodes::IoError,
            ZKMLError::OtherError(_) => ErrorCodes::OtherError,
        };
        kind.code()
    }

    /// The detail that the error carries, without the phrase of its kind.
    pub fn into_detail(self) -> (r: String)
        ensures
            r@ == self.detail(),
    {
        match self {
            ZKMLError::ConfigMissing(s) => s,
            ZKMLError::SerializationError(s) => s,
            ZKMLError::IoError(s) => s,
            ZKMLError::OtherError(s) => s,
        }
    }

    pub fn error_message(&self) -> (r: String)
        ensures
            r@ == self.message(),
    {
        match self {
            ZKMLError::ConfigMissing(s) => {
                String::from_str("No operator config found at this path: ").concat(s.as_str())
            },
            ZKMLError::SerializationError(s) => {
                String::from_str("Config deserialization error: ").concat(s.as_str())
            },
            ZKMLError::IoError(s) => {
                String::from_str("Error while performing IO for the Operator: ").concat(s.as_str())
            },
            ZKMLError::OtherError(s) => {
                String::from_str("Other Error for the Operator: ").concat(s.as_str())
            },
        }
    }
}

} // verus!
