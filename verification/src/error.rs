//! The library's error type.

use vstd::prelude::*;

use crate::event::{EventKind, Instrument, InstrumentView};

verus! {

#[derive(Debug, PartialEq, Eq)]
pub enum Error {
    /// The controller has shut down.
    SessionClosed,
    /// A stream has been taken and is still outstanding.
    EventsAlreadyTaken,
    /// The options need a cache or tap log that is not configured.
    PersistenceRequired,
    /// A client subscription asked for something other than a pure live scope.
    UnsupportedClientScope,
    /// No registered provider serves the pair.
    UnsupportedEventKind { kind: EventKind, instrument: Instrument },
    DuplicateSubscription { instrument: Instrument, kind: EventKind },
    NotSubscribed { instrument: Instrument, kind: EventKind },
    UnknownProvider(String),
    Config(String),
    Provider { provider: String, message: String },
    Storage(String),
}

/// The value of an [`Error`].
pub enum ErrorView {
    SessionClosed,
    EventsAlreadyTaken,
    PersistenceRequired,
    UnsupportedClientScope,
    UnsupportedEventKind { kind: EventKind, instrument: InstrumentView },
    DuplicateSubscription { instrument: InstrumentView, kind: EventKind },
    NotSubscribed { instrument: InstrumentView, kind: EventKind },
    UnknownProvider(Seq<char>),
    Config(Seq<char>),
    Provider { provider: Seq<char>, message: Seq<char> },
    Storage(Seq<char>),
}

impl View for Error {
    type V = ErrorView;

    open spec fn view(&self) -> ErrorView {
        match *self {
            Error::SessionClosed => ErrorView::SessionClosed,
            Error::EventsAlreadyTaken => ErrorView::EventsAlreadyTaken,
            Error::PersistenceRequired => ErrorView::PersistenceRequired,
            Error::UnsupportedClientScope => ErrorView::UnsupportedClientScope,
            Error::UnsupportedEventKind { kind, instrument } => ErrorView::UnsupportedEventKind {
                kind,
                instrument: instrument@,
            },
            Error::DuplicateSubscription { instrument, kind } => ErrorView::DuplicateSubscription {
                instrument: instrument@,
                kind,
            },
            Error::NotSubscribed { instrument, kind } => ErrorView::NotSubscribed {
                instrument: instrument@,
                kind,
            },
            Error::UnknownProvider(id) => ErrorView::UnknownProvider(id@),
            Error::Config(message) => ErrorView::Config(message@),
            Error::Provider { provider, message } => ErrorView::Provider {
                provider: provider@,
                message: message@,
            },
            Error::Storage(message) => ErrorView::Storage(message@),
        }
    }
}

/// Provider-local message for an in-band `ProviderError` control. The control
/// names the provider itself, so a provider error gives its inner message;
/// any other error gives its full rendering.
pub fn provider_error_message(e: &Error, rendered: &str) -> (r: String)
    ensures
        r@ == match e@ {
            ErrorView::Provider { provider, message } => message,
            _ => rendered@,
        },
{
    match e {
        Error::Provider { provider: _, message } => message.clone(),
        _ => rendered.to_owned(),
    }
}

/// An error keeps what it says under its own names.
pub proof fn law_errors_keep_their_names(e: Error)
    ensures
        e matches Error::Provider { provider, message } ==> e@ is Provider
            && e@->Provider_provider == provider@ && e@->Provider_message == message@,
        e matches Error::UnsupportedEventKind { kind, instrument } ==> e@ is UnsupportedEventKind
            && e@->UnsupportedEventKind_kind == kind && e@->UnsupportedEventKind_instrument
            == instrument@,
        e matches Error::DuplicateSubscription { instrument, kind } ==> e@
            is DuplicateSubscription && e@->DuplicateSubscription_kind == kind
            && e@->DuplicateSubscription_instrument == instrument@,
        e matches Error::NotSubscribed { instrument, kind } ==> e@ is NotSubscribed
            && e@->NotSubscribed_kind == kind && e@->NotSubscribed_instrument == instrument@,
        e matches Error::UnknownProvider(id) ==> e@ == ErrorView::UnknownProvider(id@),
        e matches Error::Config(message) ==> e@ == ErrorView::Config(message@),
        e matches Error::Storage(message) ==> e@ == ErrorView::Storage(message@),
        e is PersistenceRequired <==> e@ is PersistenceRequired,
        e is EventsAlreadyTaken <==> e@ is EventsAlreadyTaken,
        e is SessionClosed <==> e@ is SessionClosed,
        e is UnsupportedClientScope <==> e@ is UnsupportedClientScope,
{
}

} // verus!
