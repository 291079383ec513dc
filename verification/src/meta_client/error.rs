//! Why an answer of the meta service could not be read.

use vstd::prelude::*;

verus! {

/// Why an answer of the meta service could not be read.
#[derive(Debug)]
pub enum Error {
    /// A shard is spoken of without its info.
    MissingShardInfo { msg: String },

    /// A table is spoken of without its info.
    MissingTableInfo { msg: String },
}

/// An [`Error`] with its message as a sequence.
pub enum ErrorView {
    MissingShardInfo { msg: Seq<char> },
    MissingTableInfo { msg: Seq<char> },
}

impl View for Error {
    type V = ErrorView;

    open spec fn view(&self) -> ErrorView {
        match self {
            Error::MissingShardInfo { msg } => ErrorView::MissingShardInfo { msg: msg@ },
            Error::MissingTableInfo { msg } => ErrorView::MissingTableInfo { msg: msg@ },
        }
    }
}

pub type Result<T> = std::result::Result<T, Error>;

/// `result` by the views of what it holds.
pub open spec fn result_view<T: View>(result: Result<T>) -> std::result::Result<T::V, ErrorView> {
    match result {
        Ok(value) => Ok(value@),
        Err(error) => Err(error@),
    }
}

} // verus!
