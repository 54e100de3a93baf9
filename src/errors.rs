use vstd::prelude::*;

verus! {

/// What can go wrong in a call, with the context needed to diagnose it.
#[derive(Debug)]
pub enum ProviderError {
    /// The connection failed before a status was known.
    Transport(String),
    /// The vendor answered with a status outside 2xx.
    Http { status: u16, body: String },
    /// A body that could not be decoded, or another fatal request failure.
    RequestFailed(String),
    /// A stream frame that could not be decoded, or an error event in the stream.
    StreamDecode(String),
    /// The stream ended before its terminal event.
    IncompleteStream,
    /// A required setting is missing.
    Configuration(String),
}

pub enum ProviderErrorView {
    Transport(Seq<char>),
    Http { status: u16, body: Seq<char> },
    RequestFailed(Seq<char>),
    StreamDecode(Seq<char>),
    IncompleteStream,
    Configuration(Seq<char>),
}

impl View for ProviderError {
    type V = ProviderErrorView;

    open spec fn view(&self) -> ProviderErrorView {
        match self {
            ProviderError::Transport(m) => ProviderErrorView::Transport(m@),
            ProviderError::Http { status, body } => ProviderErrorView::Http { status: *status, body: body@ },
            ProviderError::RequestFailed(m) => ProviderErrorView::RequestFailed(m@),
            ProviderError::StreamDecode(m) => ProviderErrorView::StreamDecode(m@),
            ProviderError::IncompleteStream => ProviderErrorView::IncompleteStream,
            ProviderError::Configuration(m) => ProviderErrorView::Configuration(m@),
        }
    }
}

/// The name of an error's kind.
pub open spec fn kind_name(e: ProviderErrorView) -> Seq<char> {
    match e {
        ProviderErrorView::Transport(_) => "transport failure"@,
        ProviderErrorView::Http { .. } => "request failed"@,
        ProviderErrorView::RequestFailed(_) => "request failed"@,
        ProviderErrorView::StreamDecode(_) => "stream decode error"@,
        ProviderErrorView::IncompleteStream => "incomplete stream"@,
        ProviderErrorView::Configuration(_) => "configuration error"@,
    }
}

impl ProviderError {
    /// A short description of the error kind.
    pub fn kind(&self) -> (r: &'static str)
        ensures
            r@ == kind_name(self@),
    {
        match self {
            ProviderError::Transport(_) => "transport failure",
            ProviderError::Http { .. } => "request failed",
            ProviderError::RequestFailed(_) => "request failed",
            ProviderError::StreamDecode(_) => "stream decode error",
            ProviderError::IncompleteStream => "incomplete stream",
            ProviderError::Configuration(_) => "configuration error",
        }
    }
}

} // verus!
