//! Verified core of a telemetry pipeline: events published on a message
//! broker are normalised and handed to one or more sinks.
//!
//! Nothing here touches a socket, a clock other than through one named
//! call, or a task scheduler. Every operation that has to wait is described
//! as a step: the caller performs it and reports what came of it, and the
//! library says what to do next.

use crate::text::join;
use vstd::prelude::*;

pub mod api;
pub mod client;
pub mod clock;
pub mod conf;
pub mod executor;
pub mod logging;
pub mod services;
pub mod text;
pub mod text_map;
pub mod types;
pub mod utils;

pub use crate::executor::Executor;
pub use crate::services::event_source::{
    MqttConnectionParameters, MqttEventSource, SubscriptionHandler,
};
pub use crate::services::sink::influx::{
    InfluxDbConnectionParameters, InfluxDbCredentials, InfluxDbSink,
};
pub use crate::services::sink::log::LogSink;
pub use crate::services::sink::tee::SinkTee;
pub use crate::types::{Event, RawMqttEvent, Subscription};

verus! {

/// The failures that the pipeline itself names.
#[derive(Debug, PartialEq, Eq)]
pub enum AppError {
    /// The broker refused a request or the connection to it was lost.
    Mqtt(String),
    /// A collaborator on the serving side failed.
    Server(String),
    /// Anything else.
    Unknown(String),
}

/// The mathematical value of an [`AppError`].
pub enum AppErrorView {
    Mqtt(Seq<char>),
    Server(Seq<char>),
    Unknown(Seq<char>),
}

impl View for AppError {
    type V = AppErrorView;

    open spec fn view(&self) -> AppErrorView {
        match self {
            AppError::Mqtt(detail) => AppErrorView::Mqtt(detail@),
            AppError::Server(detail) => AppErrorView::Server(detail@),
            AppError::Unknown(detail) => AppErrorView::Unknown(detail@),
        }
    }
}

impl Clone for AppError {
    fn clone(&self) -> (copy: Self)
        ensures
            copy == *self,
    {
        match self {
            AppError::Mqtt(detail) => AppError::Mqtt(detail.clone()),
            AppError::Server(detail) => AppError::Server(detail.clone()),
            AppError::Unknown(detail) => AppError::Unknown(detail.clone()),
        }
    }
}

impl AppError {
    /// The line that describes an error: its kind, then its detail.
    pub open spec fn described(error: AppErrorView) -> Seq<char> {
        match error {
            AppErrorView::Mqtt(detail) => "Mqtt error: "@ + detail,
            AppErrorView::Server(detail) => "Server error: "@ + detail,
            AppErrorView::Unknown(detail) => "Unknown error: "@ + detail,
        }
    }

    /// The error as a line of text.
    pub fn message(&self) -> (line: String)
        ensures
            line@ == AppError::described(self@),
    {
        match self {
            AppError::Mqtt(detail) => join("Mqtt error: ", detail.as_str()),
            AppError::Server(detail) => join("Server error: ", detail.as_str()),
            AppError::Unknown(detail) => join("Unknown error: ", detail.as_str()),
        }
    }
}

} // verus!
