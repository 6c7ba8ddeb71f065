use crate::metadata::MetadataError;
use vstd::prelude::*;

verus! {

/// Every way a command can fail, each kept apart, with the message of its cause.
#[derive(Clone, Debug)]
pub enum Error {
    /// The player rejected or failed a call.
    ZbusError(String),
    /// The player's service name is no valid bus name.
    ZbusNamesError(String),
    /// The player's metadata could not be read.
    MetadataError(MetadataError),
    /// A search or an artwork download failed.
    ReqwestError(String),
    /// The notification could not be shown.
    NotificationError(String),
    /// Reading input or writing a file failed.
    IoError(String),
    /// The text given to pick a track is no number.
    InputError(String),
}

impl Error {
    /// The message that reports this error.
    pub fn message(&self) -> (r: String)
        ensures
            r@ == match self {
                Error::ZbusError(e) => "DBus error: "@ + e@,
                Error::ZbusNamesError(e) => "DBus names error: "@ + e@,
                Error::MetadataError(MetadataError::MissingKey(k)) => "Metadata error: "@
                    + "Missing metadata key: "@ + k@,
                Error::MetadataError(MetadataError::InvalidValueType(k)) => "Metadata error: "@
                    + "Invalid value type for key: "@ + k@,
                Error::ReqwestError(e) => "HTTP request error: "@ + e@,
                Error::NotificationError(e) => "Notification error: "@ + e@,
                Error::IoError(e) => "I/O error: "@ + e@,
                Error::InputError(e) => "Invalid input: "@ + e@,
            },
    {
        match self {
            Error::ZbusError(e) => String::from_str("DBus error: ").concat(e.as_str()),
            Error::ZbusNamesError(e) => String::from_str("DBus names error: ").concat(e.as_str()),
            Error::MetadataError(e) => {
                let inner = e.message();
                String::from_str("Metadata error: ").concat(inner.as_str())
            },
            Error::ReqwestError(e) => String::from_str("HTTP request error: ").concat(e.as_str()),
            Error::NotificationError(e) => String::from_str("Notification error: ").concat(
                e.as_str(),
            ),
            Error::IoError(e) => String::from_str("I/O error: ").concat(e.as_str()),
            Error::InputError(e) => String::from_str("Invalid input: ").concat(e.as_str()),
        }
    }
}

impl From<MetadataError> for Error {
    fn from(err: MetadataError) -> (r: Error)
        ensures
            r == Error::MetadataError(err),
    {
        Error::MetadataError(err)
    }
}

impl vstd::std_specs::convert::FromSpecImpl<MetadataError> for Error {
    open spec fn obeys_from_spec() -> bool {
        true
    }

    open spec fn from_spec(err: MetadataError) -> Error {
        Error::MetadataError(err)
    }
}

} // verus!
