//! What the `cups-pk-helper` mechanism is asked, and what its replies mean.

use vstd::prelude::*;
use std::time::Duration;
use zbus::Error as BusError;
use crate::clock::{in_nanos, SECOND};
use crate::device::{decode_devices, devices_of, entries_of, Device};
use crate::lists::viewed;
use crate::text::{contains, has_substring};

verus! {

/// The mechanism's well-known bus name.
///
/// The `org.opensuse` prefix is historical - the project began at openSUSE and
/// is now hosted on freedesktop.org.
pub const MECHANISM_BUS_NAME: &'static str = "org.opensuse.CupsPkHelper.Mechanism";

/// Errors from the `cups-pk-helper` mechanism.
#[derive(Debug)]
pub enum CupsPkError {
    /// The caller is not permitted, or dismissed the polkit prompt.
    ///
    /// This is deliberately not a [`CupsPkError::Mechanism`]: a user closing an
    /// authentication dialog has not hit a failure, and a UI must be able to
    /// tell the two apart.
    AuthorizationFailed,
    /// The mechanism reported a failure, in its own words.
    Mechanism(String),
    /// The mechanism could not be reached.
    Transport(String),
}

/// A [`CupsPkError`], with its text as characters.
pub enum CupsPkErrorView {
    AuthorizationFailed,
    Mechanism(Seq<char>),
    Transport(Seq<char>),
}

impl CupsPkErrorView {
    /// How the error reads.
    pub open spec fn text(self) -> Seq<char> {
        match self {
            CupsPkErrorView::AuthorizationFailed => "not authorized"@,
            CupsPkErrorView::Mechanism(message) => message,
            CupsPkErrorView::Transport(message) => "cannot reach cups-pk-helper: "@ + message,
        }
    }
}

impl View for CupsPkError {
    type V = CupsPkErrorView;

    open spec fn view(&self) -> CupsPkErrorView {
        match self {
            CupsPkError::AuthorizationFailed => CupsPkErrorView::AuthorizationFailed,
            CupsPkError::Mechanism(message) => CupsPkErrorView::Mechanism(message@),
            CupsPkError::Transport(message) => CupsPkErrorView::Transport(message@),
        }
    }
}

impl CupsPkError {
    /// How the error reads.
    pub fn to_string(&self) -> (r: String)
        ensures
            r@ == self@.text(),
    {
        match self {
            CupsPkError::AuthorizationFailed => "not authorized".to_string(),
            CupsPkError::Mechanism(message) => message.clone(),
            CupsPkError::Transport(message) => {
                let mut out = "cannot reach cups-pk-helper: ".to_string();
                out.append(message);
                out
            },
        }
    }
}

/// What a reply's error string means: nothing went wrong where it is empty,
/// and else what it says did.
pub open spec fn verdict(error: Seq<char>) -> Option<CupsPkErrorView> {
    if error.len() == 0 {
        None
    } else {
        Some(CupsPkErrorView::Mechanism(error))
    }
}

/// Translates the mechanism's error convention.
///
/// `cups-pk-helper` raises no D-Bus errors. Every method returns an `error`
/// out-parameter which is empty on success and a human-readable message
/// otherwise. Ignoring it reports success for every failure, so every call
/// goes through here.
pub fn translate(error: String) -> (r: Result<(), CupsPkError>)
    ensures
        match r {
            Ok(_) => verdict(error@) is None,
            Err(e) => verdict(error@) == Some(e@),
        },
{
    if error.as_str().is_empty() {
        Ok(())
    } else {
        Err(CupsPkError::Mechanism(error))
    }
}

/// The wording of a D-Bus failure shows that polkit refused the caller: the
/// mechanism's own `NotPrivileged` error, or the bus's generic denial.
pub open spec fn is_refusal(text: Seq<char>) -> bool {
    ||| has_substring(text, "NotPrivileged"@)
    ||| has_substring(text, "AccessDenied"@)
    ||| has_substring(text, "not authorized"@)
}

/// What a D-Bus failure with this wording means.
pub open spec fn bus_failure(text: Seq<char>) -> CupsPkErrorView {
    if is_refusal(text) {
        CupsPkErrorView::AuthorizationFailed
    } else {
        CupsPkErrorView::Transport(text)
    }
}

/// `zbus::Error`, opaque here.
#[verifier::external_type_specification]
#[verifier::external_body]
pub struct ExBusError(BusError);

/// What `Display` prints for a `zbus::Error`.
pub uninterp spec fn bus_error_message(error: BusError) -> Seq<char>;

/// The wording of a D-Bus failure, by `zbus::Error::to_string`.
#[verifier::external_body]
fn bus_error_text(error: &BusError) -> (r: String)
    ensures
        r@ == bus_error_message(*error),
{
    error.to_string()
}

/// What a call came to: a failure of the bus, or else what the mechanism's
/// error string says.
pub open spec fn call_verdict(reply: Result<String, BusError>) -> Option<CupsPkErrorView> {
    match reply {
        Ok(error) => verdict(error@),
        Err(failure) => Some(bus_failure(bus_error_message(failure))),
    }
}

/// Only an empty error string is success, and any other is reported in the
/// mechanism's own words.
pub proof fn only_an_empty_error_is_success(error: Seq<char>)
    ensures
        verdict(error) is None <==> error.len() == 0,
        verdict(error) matches Some(e) ==> e is Mechanism && e.text() == error,
{
}

/// A refusal by polkit is never taken for a failure: the bus's failures are
/// either one or of transport, and the mechanism's own are never a refusal.
pub proof fn a_refusal_is_told_apart_from_a_failure(text: Seq<char>, error: Seq<char>)
    ensures
        bus_failure(text) is AuthorizationFailed <==> is_refusal(text),
        bus_failure(text) is Transport <==> !is_refusal(text),
        !(verdict(error) matches Some(e) && e is AuthorizationFailed),
{
}

/// The mechanism, as it is addressed on a bus.
#[derive(Debug)]
pub struct CupsPk {
    bus_name: String,
}

impl View for CupsPk {
    type V = Seq<char>;

    closed spec fn view(&self) -> Seq<char> {
        self.bus_name@
    }
}

impl CupsPk {
    /// The mechanism itself, under its well-known name.
    pub fn mechanism() -> (r: CupsPk)
        ensures
            r@ == MECHANISM_BUS_NAME@,
    {
        CupsPk { bus_name: MECHANISM_BUS_NAME.to_string() }
    }

    /// A service of another name that serves the same interface.
    ///
    /// This exists so callers can test against a fake. It is not how to talk
    /// to the real mechanism - use [`CupsPk::mechanism`] for that.
    pub fn named(bus_name: &str) -> (r: CupsPk)
        ensures
            r@ == bus_name@,
    {
        CupsPk { bus_name: bus_name.to_string() }
    }

    /// The bus name to call.
    pub fn bus_name(&self) -> (r: &str)
        ensures
            r@ == self@,
    {
        self.bus_name.as_str()
    }

    /// Classifies the wording of a D-Bus-level failure.
    ///
    /// polkit refusals arrive as a D-Bus error rather than through the
    /// mechanism's own error string, so they are caught here and turned into
    /// [`CupsPkError::AuthorizationFailed`].
    pub fn classify(text: String) -> (r: CupsPkError)
        ensures
            r@ == bus_failure(text@),
    {
        if contains(text.as_str(), "NotPrivileged") || contains(text.as_str(), "AccessDenied")
            || contains(text.as_str(), "not authorized") {
            CupsPkError::AuthorizationFailed
        } else {
            CupsPkError::Transport(text)
        }
    }

    /// Classifies a D-Bus-level failure.
    pub fn call_failed(e: BusError) -> (r: CupsPkError)
        ensures
            r@ == bus_failure(bus_error_message(e)),
    {
        CupsPk::classify(bus_error_text(&e))
    }

    /// What a call that only reports an error string came to.
    pub fn completed(reply: Result<String, BusError>) -> (r: Result<(), CupsPkError>)
        ensures
            match r {
                Ok(_) => call_verdict(reply) is None,
                Err(e) => call_verdict(reply) == Some(e@),
            },
    {
        match reply {
            Ok(error) => translate(error),
            Err(e) => Err(CupsPk::call_failed(e)),
        }
    }

    /// The two numbers `DevicesGet` takes: how many seconds to scan for, and
    /// how many devices to report.
    pub fn scan_bounds(timeout: Duration, limit: u32) -> (r: (i32, i32))
        ensures
            r.0 == (in_nanos(timeout) / SECOND as nat) as u64 as i32,
            r.1 == limit as i32,
    {
        (#[verifier::truncate] (timeout.as_secs() as i32), #[verifier::truncate] (limit as i32))
    }

    /// The devices a `DevicesGet` call found.
    pub fn discovered(reply: Result<(String, Vec<(String, String)>), BusError>) -> (r: Result<
        Vec<Device>,
        CupsPkError,
    >)
        ensures
            match reply {
                Ok((error, raw)) => match r {
                    Ok(devices) => verdict(error@) is None && viewed(devices@)
                        == devices_of(entries_of(raw@)),
                    Err(e) => verdict(error@) == Some(e@),
                },
                Err(failure) => r matches Err(e) && e@ == bus_failure(bus_error_message(failure)),
            },
    {
        match reply {
            Ok((error, raw)) => match translate(error) {
                Ok(_) => Ok(decode_devices(raw)),
                Err(e) => Err(e),
            },
            Err(e) => Err(CupsPk::call_failed(e)),
        }
    }
}

/// What a printer to be added is.
#[derive(Debug)]
pub struct PrinterSpec {
    /// The queue's name.
    pub name: String,
    /// The device to print through.
    pub uri: String,
    /// The driver, as CUPS names it.
    pub ppd: String,
    /// A description.
    pub info: String,
    /// Where it is.
    pub location: String,
}

impl PrinterSpec {
    /// A printer that needs no driver of its own.
    pub fn driverless(name: &str, uri: &str) -> (r: PrinterSpec)
        ensures
            r.name@ == name@,
            r.uri@ == uri@,
            r.ppd@ == "everywhere"@,
            r.info@ == Seq::<char>::empty(),
            r.location@ == Seq::<char>::empty(),
    {
        PrinterSpec {
            name: name.to_string(),
            uri: uri.to_string(),
            ppd: "everywhere".to_string(),
            info: String::new(),
            location: String::new(),
        }
    }
}

} // verus!
