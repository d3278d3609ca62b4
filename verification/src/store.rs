//! What the filters that talk to the skill store share.

use crate::filter::FilterError;
use vstd::prelude::*;

verus! {

/// Why a request to the store got no answer.
pub enum TransportFailure {
    /// The time for the request ran out.
    TimedOut,
    /// No connection to the store came about.
    Unreachable,
    /// Any other reason, as a message.
    Other(String),
}

/// What a [`TransportFailure`] says.
pub enum TransportFailureView {
    TimedOut,
    Unreachable,
    Other(Seq<char>),
}

impl View for TransportFailure {
    type V = TransportFailureView;

    open spec fn view(&self) -> TransportFailureView {
        match self {
            TransportFailure::TimedOut => TransportFailureView::TimedOut,
            TransportFailure::Unreachable => TransportFailureView::Unreachable,
            TransportFailure::Other(cause) => TransportFailureView::Other(cause@),
        }
    }
}

impl TransportFailure {
    /// The failure of a request whose client says whether its time ran out, whether it could
    /// not connect, and what went wrong. That the time ran out comes first.
    pub fn classify(timed_out: bool, not_connected: bool, cause: String) -> (failure: Self)
        ensures
            failure@ == if timed_out {
                TransportFailureView::TimedOut
            } else if not_connected {
                TransportFailureView::Unreachable
            } else {
                TransportFailureView::Other(cause@)
            },
    {
        if timed_out {
            TransportFailure::TimedOut
        } else if not_connected {
            TransportFailure::Unreachable
        } else {
            TransportFailure::Other(cause)
        }
    }
}

/// What the outcome of sending a request says.
pub open spec fn answer_of(answer: Result<http::StatusCode, TransportFailure>) -> Result<
    http::StatusCode,
    TransportFailureView,
> {
    match answer {
        Ok(status) => Ok(status),
        Err(failure) => Err(failure@),
    }
}

/// The message for a request that got no answer; `what` says what it was for.
pub open spec fn transport_message(what: Seq<char>, failure: TransportFailureView) -> Seq<char> {
    match failure {
        TransportFailureView::TimedOut => what + " timed out"@,
        TransportFailureView::Unreachable => "skillberry-store is unreachable"@,
        TransportFailureView::Other(cause) => what + " failed: "@ + cause,
    }
}

/// The error for a request that got no answer.
pub(crate) fn transport_error(what: &str, failure: TransportFailure) -> (error: FilterError)
    ensures
        error@ == transport_message(what@, failure@),
{
    FilterError::new(
        match failure {
            TransportFailure::TimedOut => what.to_owned().concat(" timed out"),
            TransportFailure::Unreachable => "skillberry-store is unreachable".to_owned(),
            TransportFailure::Other(cause) => what.to_owned().concat(" failed: ").concat(
                cause.as_str(),
            ),
        },
    )
}

/// The message with which the settings of `filter` are refused, where they are: the store's
/// address must not be empty, and there has to be a client to reach it with.
pub open spec fn setup_message(
    filter: Seq<char>,
    store_base_url: Seq<char>,
    client: Result<(), Seq<char>>,
) -> Option<Seq<char>> {
    if store_base_url.len() == 0 {
        Some(filter + ": 'store_base_url' must not be empty"@)
    } else {
        match client {
            Ok(_) => None,
            Err(cause) => Some(filter + ": failed to create HTTP client: "@ + cause),
        }
    }
}

/// What the outcome of making a client says.
pub open spec fn outcome_of(client: Result<(), String>) -> Result<(), Seq<char>> {
    match client {
        Ok(_) => Ok(()),
        Err(cause) => Err(cause@),
    }
}

/// Checks what a filter needs to reach the store.
pub(crate) fn check_setup(
    filter: &str,
    store_base_url: &String,
    client: Result<(), String>,
) -> (r: Result<(), FilterError>)
    ensures
        match (r, setup_message(filter@, store_base_url@, outcome_of(client))) {
            (Ok(_), None) => true,
            (Err(error), Some(message)) => error@ == message,
            _ => false,
        },
{
    if store_base_url.as_str().is_empty() {
        return Err(
            FilterError::new(filter.to_owned().concat(": 'store_base_url' must not be empty")),
        );
    }
    match client {
        Ok(_) => Ok(()),
        Err(cause) => Err(
            FilterError::new(
                filter.to_owned().concat(": failed to create HTTP client: ").concat(
                    cause.as_str(),
                ),
            ),
        ),
    }
}

// ---- What holds of the store's filters ----

/// Settings are refused exactly where the address is empty or there is no client. The address is
/// looked at first.
pub proof fn setup_needs_address_and_client(
    filter: Seq<char>,
    store_base_url: Seq<char>,
    client: Result<(), Seq<char>>,
)
    ensures
        setup_message(filter, store_base_url, client) is None <==> store_base_url.len() > 0
            && client is Ok,
        store_base_url.len() == 0 ==> setup_message(filter, store_base_url, client) == Some(
            filter + ": 'store_base_url' must not be empty"@,
        ),
        store_base_url.len() > 0 && client is Err ==> setup_message(filter, store_base_url, client)
            == Some(filter + ": failed to create HTTP client: "@ + client->Err_0),
{
}

/// A request that got no answer is reported by what it was for, but for a store that cannot be
/// reached.
pub proof fn transport_failures_are_reported(what: Seq<char>, cause: Seq<char>)
    ensures
        transport_message(what, TransportFailureView::TimedOut) == what + " timed out"@,
        transport_message(what, TransportFailureView::Unreachable)
            == "skillberry-store is unreachable"@,
        transport_message(what, TransportFailureView::Other(cause)) == what + " failed: "@ + cause,
{
}

/// Each failure says what it is, with the cause it was made with.
pub proof fn failures_say_what_they_are(cause: String)
    ensures
        TransportFailure::TimedOut@ == TransportFailureView::TimedOut,
        TransportFailure::Unreachable@ == TransportFailureView::Unreachable,
        TransportFailure::Other(cause)@ == TransportFailureView::Other(cause@),
{
}

/// The outcome of sending says the status that came, or the failure; that of making a client says
/// whether there is one, or the cause.
pub proof fn outcomes_say_what_came(
    answer: Result<http::StatusCode, TransportFailure>,
    client: Result<(), String>,
)
    ensures
        answer matches Ok(status) ==> answer_of(answer) == Ok::<_, TransportFailureView>(status),
        answer matches Err(failure) ==> answer_of(answer) == Err::<http::StatusCode, _>(failure@),
        client is Ok ==> outcome_of(client) is Ok,
        client matches Err(cause) ==> outcome_of(client) == Err::<(), _>(cause@),
{
}

} // verus!
