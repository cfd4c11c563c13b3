//! The operations of the client and the ways in which one of them fails.

use vstd::prelude::*;
use vstd::string::StringExecFns;

verus! {

/// One call of the provider's interface.
#[derive(Clone, Copy, Debug, PartialEq, Eq, Structural)]
pub enum Operation {
    AuthorizeAccount,
    GetUploadUrl,
    UploadFile,
    ListFileNames,
    DownloadFile,
}

/// Why an operation did not complete.
#[derive(Clone, Copy, Debug, PartialEq, Eq, Structural)]
pub enum ApiError {
    /// The credential was rejected, or the authorization reply was unusable.
    Authentication { operation: Operation },
    /// The request was not carried out, was answered with a failure status,
    /// or was answered with something that does not have the expected shape.
    Request { operation: Operation },
    /// A local file could not be read or written.
    LocalIo { operation: Operation },
}

impl Operation {
    /// The provider's name of the call.
    pub open spec fn spec_name(self) -> Seq<char> {
        match self {
            Operation::AuthorizeAccount => "b2_authorize_account"@,
            Operation::GetUploadUrl => "b2_get_upload_url"@,
            Operation::UploadFile => "b2_upload_file"@,
            Operation::ListFileNames => "b2_list_file_names"@,
            Operation::DownloadFile => "b2_download_file_by_name"@,
        }
    }

    /// The provider's name of the call.
    pub fn name(self) -> (text: &'static str)
        ensures
            text@ == self.spec_name(),
    {
        match self {
            Operation::AuthorizeAccount => "b2_authorize_account",
            Operation::GetUploadUrl => "b2_get_upload_url",
            Operation::UploadFile => "b2_upload_file",
            Operation::ListFileNames => "b2_list_file_names",
            Operation::DownloadFile => "b2_download_file_by_name",
        }
    }
}

impl ApiError {
    /// The operation that failed.
    pub open spec fn spec_operation(self) -> Operation {
        match self {
            ApiError::Authentication { operation } => operation,
            ApiError::Request { operation } => operation,
            ApiError::LocalIo { operation } => operation,
        }
    }

    /// The operation that failed.
    pub fn operation(self) -> (op: Operation)
        ensures
            op == self.spec_operation(),
    {
        match self {
            ApiError::Authentication { operation } => operation,
            ApiError::Request { operation } => operation,
            ApiError::LocalIo { operation } => operation,
        }
    }

    /// What kind of failure this is, in words.
    pub open spec fn spec_kind(self) -> Seq<char> {
        match self {
            ApiError::Authentication { .. } => "authentication failed"@,
            ApiError::Request { .. } => "request failed"@,
            ApiError::LocalIo { .. } => "local file access failed"@,
        }
    }

    /// The diagnostic: the kind of failure, then the operation it struck.
    pub open spec fn spec_message(self) -> Seq<char> {
        self.spec_kind() + " in "@ + self.spec_operation().spec_name()
    }

    /// The diagnostic for the user. It is made of fixed words only, so no
    /// credential can appear in it.
    pub fn message(self) -> (text: String)
        ensures
            text@ == self.spec_message(),
    {
        let kind = match self {
            ApiError::Authentication { .. } => "authentication failed",
            ApiError::Request { .. } => "request failed",
            ApiError::LocalIo { .. } => "local file access failed",
        };
        let mut text = String::from_str(kind);
        text.append(" in ");
        text.append(self.operation().name());
        text
    }
}

} // verus!
