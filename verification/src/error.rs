use vstd::prelude::*;
use vstd::string::*;

verus! {

/// Why an invocation was aborted.
#[derive(Debug)]
pub enum ContractError {
    /// No counter is stored for the owner that was asked for.
    NotFound,
    /// Any other failure, with the text that describes it.
    Generic(String),
}

/// The text of an error, as a sequence of characters.
pub open spec fn error_text(e: ContractError) -> Seq<char> {
    match e {
        ContractError::NotFound => "not found"@,
        ContractError::Generic(text) => text@,
    }
}

impl ContractError {
    /// The text that describes this error.
    pub fn message(&self) -> (text: String)
        ensures
            text@ == error_text(*self),
    {
        match self {
            ContractError::NotFound => String::from_str("not found"),
            ContractError::Generic(text) => text.clone(),
        }
    }

    /// The same failure as a generic error that carries this error's text.
    pub fn into_generic(self) -> (e: ContractError)
        ensures
            e matches ContractError::Generic(text) && text@ == error_text(self),
    {
        let text = self.message();
        ContractError::Generic(text)
    }
}

} // verus!
