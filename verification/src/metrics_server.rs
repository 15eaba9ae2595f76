//! The error of the server that carries the metrics snapshot.

use vstd::prelude::*;
use crate::text::concat2;

verus! {

/// The address on which the snapshot is served.
pub const METRICS_HOST: &'static str = "127.0.0.1";

/// The port on which the snapshot is served.
pub const METRICS_PORT: u16 = 7878;

/// The path under which the snapshot is served.
pub const METRICS_ROUTE: &'static str = "/metrics";

/// Why the server stopped.
#[derive(Debug, Clone, PartialEq, Eq)]
pub enum ServerError {
    /// The address could not be bound, or serving failed.
    BindError(String),
}

/// A `ServerError` with its text as a sequence.
pub enum ServerErrorView {
    BindError(Seq<char>),
}

impl View for ServerError {
    type V = ServerErrorView;

    open spec fn view(&self) -> ServerErrorView {
        match self {
            ServerError::BindError(text) => ServerErrorView::BindError(text@),
        }
    }
}

impl ServerError {
    /// The message of the error.
    pub fn message(&self) -> (r: String)
        ensures
            self@ matches ServerErrorView::BindError(text) && r@ == "Failed to bind to address: "@
                + text,
    {
        match self {
            ServerError::BindError(text) => concat2("Failed to bind to address: ", text.as_str()),
        }
    }
}

} // verus!
