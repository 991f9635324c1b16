//! What can go wrong when talking to a print service.

use vstd::prelude::*;
use ipp::parser::IppParseError;
use crate::text::{contains, has_substring};
use crate::wire::{parse_error_message, parse_error_text};

verus! {

/// One failure underneath an [`Error`], and what caused it in turn.
#[derive(Debug)]
pub struct Cause {
    /// What the failure says of itself.
    pub message: String,
    /// The failure underneath it, where there was one.
    pub source: Option<Box<Cause>>,
}

impl Cause {
    /// The wording of this failure and of each one underneath it, outermost first.
    pub open spec fn chain(&self) -> Seq<Seq<char>>
        decreases self,
    {
        match self.source {
            Some(inner) => seq![self.message@] + inner.chain(),
            None => seq![self.message@],
        }
    }

    /// A failure with nothing underneath it.
    pub fn new(message: String) -> (r: Cause)
        ensures
            r.message == message,
            r.chain() == seq![message@],
    {
        Cause { message, source: None }
    }
}

/// Errors returned by the client.
#[derive(Debug)]
#[non_exhaustive]
pub enum Error {
    /// The daemon or printer could not be reached.
    ///
    /// Keeps the underlying cause rather than flattening it to a string: a
    /// caller that needs to tell a refused connection from a rejected
    /// certificate has to be able to look.
    Transport {
        /// What went wrong, as reported by the transport.
        message: String,
        /// The underlying cause, where there was one.
        source: Option<Cause>,
    },
    /// The peer answered with a non-success IPP status code.
    Ipp {
        /// The operation that was refused, by its IPP name.
        operation: String,
        /// The status the peer answered with.
        status: String,
    },
    /// An IPP attribute could not be decoded into a domain type.
    Decode {
        /// The IPP attribute that could not be read.
        attribute: String,
        /// Why not.
        detail: String,
    },
    /// Reading a document from disk failed.
    Io(Cause),
}

/// An [`Error`], with every string as its characters and every cause as the
/// wordings of its chain.
pub enum ErrorView {
    Transport { message: Seq<char>, source: Seq<Seq<char>> },
    Ipp { operation: Seq<char>, status: Seq<char> },
    Decode { attribute: Seq<char>, detail: Seq<char> },
    Io(Seq<Seq<char>>),
}

impl ErrorView {
    /// How the error reads.
    pub open spec fn text(self) -> Seq<char> {
        match self {
            ErrorView::Transport { message, .. } => "cannot reach the print service: "@ + message,
            ErrorView::Ipp { operation, status } => "CUPS returned "@ + status + " for "@
                + operation,
            ErrorView::Decode { attribute, detail } => "cannot decode attribute "@ + attribute
                + ": "@ + detail,
            ErrorView::Io(chain) => "io error: "@ + chain[0],
        }
    }

    /// How the error reads, followed by each cause underneath it.
    pub open spec fn wordings(self) -> Seq<Seq<char>> {
        match self {
            ErrorView::Transport { source, .. } => seq![self.text()] + source,
            ErrorView::Io(chain) => seq![self.text()] + chain,
            _ => seq![self.text()],
        }
    }

    /// Some wording speaks of a certificate.
    pub open spec fn speaks_of_certificate(self) -> bool {
        exists|i: int|
            0 <= i < self.wordings().len() && mentions_certificate(#[trigger] self.wordings()[i])
    }
}

/// `text` speaks of a certificate.
pub open spec fn mentions_certificate(text: Seq<char>) -> bool {
    has_substring(text, "certificate"@) || has_substring(text, "CertificateError"@)
}

/// A decoding failure.
pub open spec fn decode_failure(attribute: Seq<char>, detail: Seq<char>) -> ErrorView {
    ErrorView::Decode { attribute, detail }
}

/// A transport failure with nothing underneath it.
pub open spec fn transport_failure(message: Seq<char>) -> ErrorView {
    ErrorView::Transport { message, source: Seq::empty() }
}

/// A transport failure with one cause, which it words the same way.
pub open spec fn transport_caused(message: Seq<char>) -> ErrorView {
    ErrorView::Transport { message, source: seq![message] }
}

/// What came of an operation, with the value and the error as they are viewed.
pub open spec fn outcome<T: View>(r: Result<T, Error>) -> Result<T::V, ErrorView> {
    match r {
        Ok(value) => Ok(value@),
        Err(error) => Err(error@),
    }
}

/// An operation failed, and with this error.
pub open spec fn fails_with<T>(r: Result<T, Error>, error: ErrorView) -> bool {
    r matches Err(e) && e@ == error
}

impl View for Error {
    type V = ErrorView;

    open spec fn view(&self) -> ErrorView {
        match self {
            Error::Transport { message, source } => ErrorView::Transport {
                message: message@,
                source: match source {
                    Some(cause) => cause.chain(),
                    None => Seq::empty(),
                },
            },
            Error::Ipp { operation, status } => ErrorView::Ipp {
                operation: operation@,
                status: status@,
            },
            Error::Decode { attribute, detail } => ErrorView::Decode {
                attribute: attribute@,
                detail: detail@,
            },
            Error::Io(cause) => ErrorView::Io(cause.chain()),
        }
    }
}

impl Error {
    /// A value that could not be read.
    pub fn decode(attribute: &str, detail: &str) -> (r: Error)
        ensures
            r@ == decode_failure(attribute@, detail@),
    {
        Error::Decode { attribute: attribute.to_string(), detail: detail.to_string() }
    }

    /// A transport failure that keeps its cause.
    pub fn transport(source: Cause) -> (r: Error)
        ensures
            r@ == (ErrorView::Transport { message: source.message@, source: source.chain() }),
    {
        let message = source.message.clone();
        Error::Transport { message, source: Some(source) }
    }

    /// A transport failure with nothing underneath it, such as a malformed URI
    /// rejected before any connection was attempted.
    pub fn transport_msg(message: String) -> (r: Error)
        ensures
            r@ == transport_failure(message@),
    {
        Error::Transport { message, source: None }
    }

    /// A transport failure caused by a message that could not be put together.
    pub(crate) fn unbuildable(error: IppParseError) -> (r: Error)
        ensures
            r@ == transport_caused(parse_error_message(error)),
    {
        Error::transport(Cause::new(parse_error_text(&error)))
    }

    /// How the error reads.
    pub fn to_string(&self) -> (r: String)
        ensures
            r@ == self@.text(),
    {
        match self {
            Error::Transport { message, .. } => {
                let mut out = "cannot reach the print service: ".to_string();
                out.append(message);
                out
            },
            Error::Ipp { operation, status } => {
                let mut out = "CUPS returned ".to_string();
                out.append(status);
                out.append(" for ");
                out.append(operation);
                out
            },
            Error::Decode { attribute, detail } => {
                let mut out = "cannot decode attribute ".to_string();
                out.append(attribute);
                out.append(": ");
                out.append(detail);
                out
            },
            Error::Io(cause) => {
                let mut out = "io error: ".to_string();
                out.append(&cause.message);
                out
            },
        }
    }

    /// Whether this failed because the peer's TLS certificate was not accepted.
    ///
    /// Printers overwhelmingly ship self-signed certificates, so this is the
    /// error a caller is most likely to want to act on - by pinning the
    /// certificate with [`crate::IppClientBuilder::ca_cert`], or by telling
    /// the user why the printer cannot be reached.
    pub fn is_certificate_error(&self) -> (r: bool)
        ensures
            r == self@.speaks_of_certificate(),
    {
        let own = self.to_string();
        assert(self@.wordings()[0] == self@.text());
        if speaks_of_certificate(&own) {
            return true;
        }
        let source = match self {
            Error::Transport { source: Some(cause), .. } => cause,
            Error::Io(cause) => cause,
            _ => {
                return false;
            },
        };
        let ghost whole = self@.wordings();
        assert(whole =~= seq![self@.text()] + source.chain());
        let mut current: &Cause = source;
        let ghost mut passed: int = 1;
        loop
            invariant
                whole == self@.wordings(),
                1 <= passed < whole.len(),
                whole.skip(passed) == current.chain(),
                forall|i: int| 0 <= i < passed ==> !mentions_certificate(#[trigger] whole[i]),
            decreases current,
        {
            assert(whole[passed] == whole.skip(passed)[0]);
            if speaks_of_certificate(&current.message) {
                return true;
            }
            match &current.source {
                Some(inner) => {
                    proof {
                        assert(whole.skip(passed + 1) =~= whole.skip(passed).skip(1));
                        assert(current.chain().skip(1) =~= inner.chain());
                        passed = passed + 1;
                        assert(inner.chain().len() > 0);
                    }
                    current = inner;
                },
                None => {
                    assert(whole.len() == passed + 1);
                    return false;
                },
            }
        }
    }
}

/// Whether `text` speaks of a certificate.
fn speaks_of_certificate(text: &str) -> (r: bool)
    ensures
        r == mentions_certificate(text@),
{
    contains(text, "certificate") || contains(text, "CertificateError")
}

} // verus!
