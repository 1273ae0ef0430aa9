//! What can end the pipeline. Every error is fatal where it is found.

use vstd::prelude::*;

verus! {

/// Why setting the pipeline up failed.
#[derive(Clone, Debug, PartialEq, Eq)]
pub enum RenderError {
    /// The host could not open a window with the context asked for.
    WindowCreation,
    /// The driver's compiler rejected a shader; `log` is its diagnostic text.
    ShaderCompile { log: String },
    /// The driver's linker rejected a program; `log` is its diagnostic text.
    ProgramLink { log: String },
    /// The texture image could not be decoded.
    TextureDecode,
    /// The host answered a call with a reply of the wrong kind.
    UnexpectedReply,
}

/// What a [`RenderError`] is, with its text as a sequence.
pub ghost enum ErrorView {
    WindowCreation,
    ShaderCompile { log: Seq<char> },
    ProgramLink { log: Seq<char> },
    TextureDecode,
    UnexpectedReply,
}

impl View for RenderError {
    type V = ErrorView;

    open spec fn view(&self) -> ErrorView {
        match *self {
            RenderError::WindowCreation => ErrorView::WindowCreation,
            RenderError::ShaderCompile { log } => ErrorView::ShaderCompile { log: log@ },
            RenderError::ProgramLink { log } => ErrorView::ProgramLink { log: log@ },
            RenderError::TextureDecode => ErrorView::TextureDecode,
            RenderError::UnexpectedReply => ErrorView::UnexpectedReply,
        }
    }
}

impl RenderError {
    /// The driver's diagnostic text, for the errors that carry one.
    pub fn diagnostic(&self) -> (r: Option<&String>)
        ensures
            match *self {
                RenderError::ShaderCompile { log } => r == Some(&log),
                RenderError::ProgramLink { log } => r == Some(&log),
                _ => r is None,
            },
    {
        match self {
            RenderError::ShaderCompile { log } => Some(log),
            RenderError::ProgramLink { log } => Some(log),
            _ => None,
        }
    }
}

/// The result an operation ended with, if it has ended, with its error by view.
pub open spec fn result_view<T>(result: Option<Result<T, RenderError>>) -> Option<
    Result<T, ErrorView>,
> {
    match result {
        None => None,
        Some(Ok(value)) => Some(Ok(value)),
        Some(Err(error)) => Some(Err(error@)),
    }
}

} // verus!
