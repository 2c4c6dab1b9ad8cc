//! The envelope in which the server answers.
//!
//! Every answer of the server says whether the request succeeded. A
//! failure carries a code and a message, a success may carry a result.

use vstd::prelude::*;

use crate::error::SdkError;

verus! {

/// An answer of the server.
#[derive(Debug, Clone, PartialEq, Eq)]
pub struct ServerOutput<T> {
    pub status: bool,
    pub err_msg: Option<String>,
    pub err_code: Option<u32>,
    pub result: Option<T>,
}

/// What an answer of the server amounts to: its result, the server's
/// error, or `JsonParse` where the answer lacks what its status promises.
pub open spec fn server_response<T>(output: ServerOutput<T>) -> Result<T, SdkError> {
    if !output.status {
        match (output.err_code, output.err_msg) {
            (Some(code), Some(message)) => Err(SdkError::ServerErr(code, message)),
            _ => Err(SdkError::JsonParse),
        }
    } else {
        match output.result {
            Some(result) => Ok(result),
            None => Err(SdkError::JsonParse),
        }
    }
}

/// What an answer of the server without a result amounts to.
pub open spec fn general_server_response<T>(output: ServerOutput<T>) -> Result<(), SdkError> {
    if !output.status {
        match (output.err_code, output.err_msg) {
            (Some(code), Some(message)) => Err(SdkError::ServerErr(code, message)),
            _ => Err(SdkError::JsonParse),
        }
    } else {
        Ok(())
    }
}

/// Takes the result out of an answer of the server.
///
/// Fails with the server's error where the request failed, and with
/// `JsonParse` where the answer lacks its error or its result.
pub fn handle_server_response<T>(output: ServerOutput<T>) -> (res: Result<T, SdkError>)
    ensures
        res == server_response(output),
{
    if !output.status {
        let code = match output.err_code {
            Some(code) => code,
            None => { return Err(SdkError::JsonParse); },
        };
        let message = match output.err_msg {
            Some(message) => message,
            None => { return Err(SdkError::JsonParse); },
        };
        return Err(SdkError::ServerErr(code, message));
    }
    match output.result {
        Some(result) => Ok(result),
        None => Err(SdkError::JsonParse),
    }
}

/// Checks an answer of the server of which only the status matters.
///
/// Fails with the server's error where the request failed, and with
/// `JsonParse` where the answer lacks its error.
pub fn handle_general_server_response<T>(output: ServerOutput<T>) -> (res: Result<(), SdkError>)
    ensures
        res == general_server_response(output),
{
    if !output.status {
        let code = match output.err_code {
            Some(code) => code,
            None => { return Err(SdkError::JsonParse); },
        };
        let message = match output.err_msg {
            Some(message) => message,
            None => { return Err(SdkError::JsonParse); },
        };
        return Err(SdkError::ServerErr(code, message));
    }
    Ok(())
}

} // verus!
