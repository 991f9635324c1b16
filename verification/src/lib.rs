//! An IPP client: what it asks of printers and print servers, and what it
//! makes of their answers.
//!
//! IPP is the protocol printers and print servers speak. CUPS is one server
//! that speaks it, so this is for CUPS, for a driverless network printer, and
//! for anything else implementing the standard. Beside it stands the logic of
//! a client for the `cups-pk-helper` mechanism, which administers CUPS on a
//! desktop's behalf.
//!
//! Sending a request, waiting and reading files are left to the caller: the
//! library builds each request, decodes each reply and decides what comes next.

pub mod agreement;
pub mod answering;
pub mod asking;
pub mod attrs;
pub mod client;
pub mod clock;
pub mod default_printer;
pub mod device;
pub mod discovering;
pub mod error;
pub mod events;
pub mod handle;
pub mod job;
pub mod lists;
pub mod locating;
pub mod lpoptions;
pub mod mechanism;
pub mod media;
pub mod operations;
pub mod options;
pub mod poll;
pub mod printer;
pub mod reading;
pub mod registry;
pub mod replay;
pub mod replies;
pub mod requests;
pub mod showing;
pub mod state;
pub mod submission;
pub mod subscription;
pub mod supply;
pub mod telling;
pub mod text;
pub mod transport;
pub mod wire;
pub mod wording;

pub use client::{
    Client, ClientBuilder, CupsClient, CupsClientBuilder, IppClient, IppClientBuilder,
};
pub use device::Device;
pub use error::{Cause, Error};
pub use events::PrinterEvent;
pub use handle::{IppJob, IppPrinter};
pub use job::{printer_name_from_uri, Job, JobId, JobProgress};
pub use lpoptions::default_printer_from;
pub use mechanism::{CupsPk, CupsPkError, PrinterSpec, MECHANISM_BUS_NAME};
pub use media::MediaSize;
pub use operations::Operation;
pub use options::{OptionValues, PrintQuality, PrinterOptions};
pub use printer::{Class, Ppd, Printer};
pub use requests::{IdentifyAction, PpdFilter, WhichJobs};
pub use state::{JobState, PrinterState, Severity, StateReason};
pub use subscription::{Notification, Notifications, NotifyEvent, Subscription};
pub use supply::{Supply, SupplyLevel};
