//! Typed errors of the file-handling edge. The reads and writes themselves
//! are performed by the surrounding application; the library only assembles
//! content and reports these errors.

use vstd::prelude::*;
use vstd::string::StringExecFns;

use crate::app_error::{AppError, DEFAULT_ERROR_CODE};

verus! {

#[derive(Clone, Debug, PartialEq, Eq)]
pub enum FileError {
    FailedToOpenFile { path: String },
    FailedToReadFile { path: String },
    FailedToWriteFile { path: String },
}

/// Rewraps a file-handling error into the application error record, naming
/// the failing path in the message.
pub fn map_file_error_to_app_error(error: FileError) -> (r: AppError)
    ensures
        r.status == DEFAULT_ERROR_CODE,
        match error {
            FileError::FailedToOpenFile { path } =>
                r.message@ == "Falha ao abrir localizado em: "@ + path@,
            FileError::FailedToReadFile { path } =>
                r.message@ == "Falha ao ler conteúdo arquivo localizado em: "@ + path@,
            FileError::FailedToWriteFile { path } =>
                r.message@ == "Falha ao escrever em arquivo localizado em: "@ + path@,
        },
{
    match error {
        FileError::FailedToOpenFile { path } => {
            let mut message = String::from_str("Falha ao abrir localizado em: ");
            message.append(path.as_str());
            AppError::new(DEFAULT_ERROR_CODE, message.as_str())
        },
        FileError::FailedToReadFile { path } => {
            let mut message = String::from_str("Falha ao ler conteúdo arquivo localizado em: ");
            message.append(path.as_str());
            AppError::new(DEFAULT_ERROR_CODE, message.as_str())
        },
        FileError::FailedToWriteFile { path } => {
            let mut message = String::from_str("Falha ao escrever em arquivo localizado em: ");
            message.append(path.as_str());
            AppError::new(DEFAULT_ERROR_CODE, message.as_str())
        },
    }
}

} // verus!
