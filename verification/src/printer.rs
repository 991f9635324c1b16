//! Printers, classes and drivers, read from IPP attribute groups.

use vstd::prelude::*;
use ipp::attribute::IppAttributeGroup;
use crate::attrs::{bool_at, ints_at, required_int, required_text, text_at, texts_at, Attrs};
use crate::error::{outcome, Error, ErrorView};
use crate::lists::viewed;
use crate::options::{options_of, PrinterOptions, PrinterOptionsView};
use crate::state::{
    printer_state_of, reasons_of, same_reasons, PrinterState, Severity, StateReason,
    StateReasonView,
};
use crate::supply::{same_supplies, supplies_of, Supply, SupplyView};
use crate::text::{same_optional, view_of};
use crate::wire::{group_attributes, Attribute};

verus! {

/// A printer, as it describes itself.
///
/// Whether this is a CUPS queue or a printer reached directly makes no
/// difference to the shape: both answer `Get-Printer-Attributes`.
#[derive(Debug, PartialEq, Eq)]
pub struct Printer {
    /// The queue or printer name.
    pub name: String,
    /// The printer's own address, from `printer-uri-supported`. This is what
    /// [`crate::IppClient::at`] takes to address it directly.
    pub uri: String,
    /// The backend URI CUPS prints through, e.g.
    /// `ipps://HP%20OfficeJet._ipps._tcp.local/`. Distinct from `uri`, which is
    /// the queue's own address on this machine. Empty when CUPS does not say.
    pub device_uri: String,
    /// The human description, as set by whoever configured it.
    pub info: Option<String>,
    /// Where it physically is, as set by whoever configured it.
    pub location: Option<String>,
    /// What it is doing now.
    pub state: PrinterState,
    /// Why it is in that state. Empty when there is nothing to say.
    pub reasons: Vec<StateReason>,
    /// Whether new jobs are being taken. A printer can be stopped and still
    /// accepting, which is how work queues up while paper is replaced.
    pub accepting_jobs: bool,
    /// Consumable levels, where reported. CUPS caches these only after a job
    /// has run, so a freshly added queue reports none.
    pub supplies: Vec<Supply>,
    /// Whether this is the daemon's default destination.
    pub is_default: bool,
    /// Job option defaults the queue advertises.
    pub options: PrinterOptions,
}

/// A [`Printer`], with its texts as characters and its lists as sequences.
pub struct PrinterView {
    pub name: Seq<char>,
    pub uri: Seq<char>,
    pub device_uri: Seq<char>,
    pub info: Option<Seq<char>>,
    pub location: Option<Seq<char>>,
    pub state: PrinterState,
    pub reasons: Seq<StateReasonView>,
    pub accepting_jobs: bool,
    pub supplies: Seq<SupplyView>,
    pub is_default: bool,
    pub options: PrinterOptionsView,
}

impl View for Printer {
    type V = PrinterView;

    open spec fn view(&self) -> PrinterView {
        PrinterView {
            name: self.name@,
            uri: self.uri@,
            device_uri: self.device_uri@,
            info: view_of(self.info),
            location: view_of(self.location),
            state: self.state,
            reasons: viewed(self.reasons@),
            accepting_jobs: self.accepting_jobs,
            supplies: viewed(self.supplies@),
            is_default: self.is_default,
            options: self.options@,
        }
    }
}

impl Clone for Printer {
    fn clone(&self) -> (r: Printer)
        ensures
            r@ == self@,
    {
        let reasons = self.reasons.clone();
        let supplies = self.supplies.clone();
        assert(viewed(reasons@) =~= viewed(self.reasons@));
        assert(viewed(supplies@) =~= viewed(self.supplies@));
        Printer {
            name: self.name.clone(),
            uri: self.uri.clone(),
            device_uri: self.device_uri.clone(),
            info: self.info.clone(),
            location: self.location.clone(),
            state: self.state,
            reasons,
            accepting_jobs: self.accepting_jobs,
            supplies,
            is_default: self.is_default,
            options: self.options.clone(),
        }
    }
}

/// A text, empty where there is none.
pub open spec fn or_empty(text: Option<Seq<char>>) -> Seq<char> {
    match text {
        Some(t) => t,
        None => Seq::empty(),
    }
}

/// The first text of a list, empty where there is none.
pub open spec fn first_or_empty(texts: Seq<Seq<char>>) -> Seq<char> {
    if texts.len() > 0 {
        texts[0]
    } else {
        Seq::empty()
    }
}

/// The printer a group describes in `state`, its name being `name`.
pub open spec fn described(
    a: Seq<Attribute>,
    name: Seq<char>,
    state: PrinterState,
) -> PrinterView {
    PrinterView {
        name,
        uri: first_or_empty(texts_at(a, "printer-uri-supported"@)),
        device_uri: or_empty(text_at(a, "device-uri"@)),
        info: text_at(a, "printer-info"@),
        location: text_at(a, "printer-location"@),
        state,
        reasons: reasons_of(texts_at(a, "printer-state-reasons"@)),
        accepting_jobs: match bool_at(a, "printer-is-accepting-jobs"@) {
            Some(accepting) => accepting,
            None => true,
        },
        supplies: supplies_of(
            texts_at(a, "marker-names"@),
            ints_at(a, "marker-levels"@),
            texts_at(a, "marker-types"@),
            texts_at(a, "marker-colors"@),
            ints_at(a, "marker-low-levels"@),
        ),
        is_default: false,
        options: options_of(a),
    }
}

/// The printer a group describes. A name and a known state have to be there.
pub open spec fn printer_of(a: Seq<Attribute>) -> Result<PrinterView, ErrorView> {
    match required_text(a, "printer-name"@) {
        Err(e) => Err(e),
        Ok(name) => match required_int(a, "printer-state"@) {
            Err(e) => Err(e),
            Ok(value) => match printer_state_of(value) {
                Err(e) => Err(e),
                Ok(state) => Ok(described(a, name, state)),
            },
        },
    }
}

/// A severity that occurs among `reasons` and that none of them exceeds.
pub open spec fn is_worst(reasons: Seq<StateReasonView>, severity: Severity) -> bool {
    &&& exists|i: int| 0 <= i < reasons.len() && (#[trigger] reasons[i]).severity == severity
    &&& forall|i: int|
        0 <= i < reasons.len() ==> (#[trigger] reasons[i]).severity.gravity()
            <= severity.gravity()
}

/// A string, empty where there is none.
pub(crate) fn unwrap_or_empty(text: Option<String>) -> (r: String)
    ensures
        r@ == or_empty(view_of(text)),
{
    match text {
        Some(t) => t,
        None => String::new(),
    }
}

impl Printer {
    /// Reads a printer from an IPP printer-attributes group.
    pub fn decode(group: &IppAttributeGroup) -> (r: Result<Printer, Error>)
        ensures
            outcome(r) == printer_of(group_attributes(*group)),
    {
        let a = Attrs::new(group);
        let name = match a.require_text("printer-name") {
            Ok(name) => name,
            Err(e) => {
                return Err(e);
            },
        };
        // A printer that advertises several URIs, ipp and ipps say, sends a
        // list, of which the first counts.
        let uris = a.texts("printer-uri-supported");
        let uri = if uris.len() > 0 {
            uris[0].clone()
        } else {
            String::new()
        };
        let value: i32 = match a.require_int("printer-state") {
            Ok(value) => value,
            Err(e) => {
                return Err(e);
            },
        };
        let state = match PrinterState::from_ipp(value) {
            Ok(state) => state,
            Err(e) => {
                return Err(e);
            },
        };
        let reasons = a.texts("printer-state-reasons");
        let names = a.texts("marker-names");
        let levels = a.ints("marker-levels");
        let types = a.texts("marker-types");
        let colours = a.texts("marker-colors");
        let low = a.ints("marker-low-levels");
        Ok(
            Printer {
                name,
                uri,
                device_uri: unwrap_or_empty(a.text("device-uri")),
                info: a.text("printer-info"),
                location: a.text("printer-location"),
                state,
                reasons: StateReason::parse_list(&reasons),
                accepting_jobs: match a.bool("printer-is-accepting-jobs") {
                    Some(accepting) => accepting,
                    None => true,
                },
                supplies: Supply::decode_list(&names, &levels, &types, &colours, &low),
                is_default: false,
                options: PrinterOptions::decode(&a),
            },
        )
    }

    /// The worst severity among the current state reasons, if any.
    pub fn highest_severity(&self) -> (r: Option<Severity>)
        ensures
            r is None <==> self.reasons@.len() == 0,
            r matches Some(worst) ==> is_worst(viewed(self.reasons@), worst),
    {
        let ghost all = viewed(self.reasons@);
        if self.reasons.len() == 0 {
            return None;
        }
        let mut worst = self.reasons[0].severity;
        assert(all[0].severity == worst);
        let mut i: usize = 1;
        while i < self.reasons.len()
            invariant
                1 <= i <= self.reasons.len(),
                all == viewed(self.reasons@),
                exists|j: int| 0 <= j < i && (#[trigger] all[j]).severity == worst,
                forall|j: int|
                    0 <= j < i ==> (#[trigger] all[j]).severity.gravity() <= worst.gravity(),
            decreases self.reasons.len() - i,
        {
            let severity = self.reasons[i].severity;
            assert(all[i as int].severity == severity);
            if severity.rank() > worst.rank() {
                worst = severity;
            }
            i += 1;
        }
        Some(worst)
    }

    /// Whether two descriptions of a printer are the same.
    pub fn same(&self, other: &Printer) -> (r: bool)
        ensures
            r == (self@ == other@),
    {
        self.name == other.name && self.uri == other.uri && self.device_uri == other.device_uri
            && same_optional(&self.info, &other.info) && same_optional(
            &self.location,
            &other.location,
        ) && self.state == other.state && same_reasons(&self.reasons, &other.reasons)
            && self.accepting_jobs == other.accepting_jobs && same_supplies(
            &self.supplies,
            &other.supplies,
        ) && self.is_default == other.is_default && self.options.same(&other.options)
    }
}

/// A printer class: several queues addressed as one.
///
/// CUPS serves classes from the same URI space as printers, so a class
/// responds to `Get-Printer-Attributes` like any queue. What is particular to
/// a class is which queues belong to it.
#[derive(Debug, PartialEq, Eq)]
pub struct Class {
    /// The class name, which is addressed exactly like a printer name.
    pub name: String,
    /// The queues in this class, in the order CUPS lists them.
    pub members: Vec<String>,
}

/// A [`Class`], with its texts as characters.
pub struct ClassView {
    pub name: Seq<char>,
    pub members: Seq<Seq<char>>,
}

impl View for Class {
    type V = ClassView;

    open spec fn view(&self) -> ClassView {
        ClassView { name: self.name@, members: viewed(self.members@) }
    }
}

impl Clone for Class {
    fn clone(&self) -> (r: Class)
        ensures
            r@ == self@,
    {
        let members = self.members.clone();
        assert(viewed(members@) =~= viewed(self.members@));
        Class { name: self.name.clone(), members }
    }
}

/// The class a group describes. A name has to be there.
pub open spec fn class_of(a: Seq<Attribute>) -> Result<ClassView, ErrorView> {
    match required_text(a, "printer-name"@) {
        Err(e) => Err(e),
        Ok(name) => Ok(ClassView { name, members: texts_at(a, "member-names"@) }),
    }
}

impl Class {
    /// Reads a class from an IPP printer-attributes group.
    pub fn decode(group: &IppAttributeGroup) -> (r: Result<Class, Error>)
        ensures
            outcome(r) == class_of(group_attributes(*group)),
    {
        let a = Attrs::new(group);
        match a.require_text("printer-name") {
            Ok(name) => Ok(Class { name, members: a.texts("member-names") }),
            Err(e) => Err(e),
        }
    }
}

/// A driver CUPS offers, as returned by `CUPS-Get-PPDs`.
#[derive(Debug, PartialEq, Eq)]
pub struct Ppd {
    /// The `ppd-name`, which is what a printer-add operation wants.
    pub name: String,
    /// CUPS' own description, e.g. `HP OfficeJet Pro 8210 Postscript`.
    pub make_and_model: String,
    /// The IEEE-1284 device id this driver claims to drive, if it says.
    pub device_id: String,
}

/// A [`Ppd`], with its texts as characters.
pub struct PpdView {
    pub name: Seq<char>,
    pub make_and_model: Seq<char>,
    pub device_id: Seq<char>,
}

impl View for Ppd {
    type V = PpdView;

    open spec fn view(&self) -> PpdView {
        PpdView {
            name: self.name@,
            make_and_model: self.make_and_model@,
            device_id: self.device_id@,
        }
    }
}

impl Clone for Ppd {
    fn clone(&self) -> (r: Ppd)
        ensures
            r@ == self@,
    {
        Ppd {
            name: self.name.clone(),
            make_and_model: self.make_and_model.clone(),
            device_id: self.device_id.clone(),
        }
    }
}

/// The driver a group describes. A name has to be there.
pub open spec fn ppd_of(a: Seq<Attribute>) -> Result<PpdView, ErrorView> {
    match required_text(a, "ppd-name"@) {
        Err(e) => Err(e),
        Ok(name) => Ok(
            PpdView {
                name,
                make_and_model: or_empty(text_at(a, "ppd-make-and-model"@)),
                device_id: or_empty(text_at(a, "ppd-device-id"@)),
            },
        ),
    }
}

impl Ppd {
    /// Reads a driver from an IPP printer-attributes group.
    pub fn decode(group: &IppAttributeGroup) -> (r: Result<Ppd, Error>)
        ensures
            outcome(r) == ppd_of(group_attributes(*group)),
    {
        let a = Attrs::new(group);
        match a.require_text("ppd-name") {
            Ok(name) => Ok(
                Ppd {
                    name,
                    make_and_model: unwrap_or_empty(a.text("ppd-make-and-model")),
                    device_id: unwrap_or_empty(a.text("ppd-device-id")),
                },
            ),
            Err(e) => Err(e),
        }
    }
}

/// There is one worst severity, not two.
pub proof fn the_worst_severity_is_one(reasons: Seq<StateReasonView>, a: Severity, b: Severity)
    requires
        is_worst(reasons, a),
        is_worst(reasons, b),
    ensures
        a == b,
{
    let i = choose|i: int| 0 <= i < reasons.len() && (#[trigger] reasons[i]).severity == a;
    let j = choose|j: int| 0 <= j < reasons.len() && (#[trigger] reasons[j]).severity == b;
    assert(reasons[i].severity.gravity() <= b.gravity());
    assert(reasons[j].severity.gravity() <= a.gravity());
}

} // verus!
