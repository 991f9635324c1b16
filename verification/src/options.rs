//! The job options a queue offers.

use vstd::prelude::*;
use vstd::pervasive::cloned;
use crate::attrs::{int_at, ints_at, text_at, texts_at, Attrs};
use crate::lists::viewed;
use crate::text::{same_optional, same_texts, view_of};
use crate::wire::Attribute;

verus! {

/// Print quality, from the IPP `print-quality` enum.
#[derive(Debug, Clone, Copy, PartialEq, Eq, Structural)]
pub enum PrintQuality {
    /// Fastest, lowest quality.
    Draft,
    /// The printer's usual quality.
    Normal,
    /// Slowest, best quality.
    High,
}

/// The quality an enum value stands for.
pub open spec fn quality_of(value: i32) -> Option<PrintQuality> {
    if value == 3 {
        Some(PrintQuality::Draft)
    } else if value == 4 {
        Some(PrintQuality::Normal)
    } else if value == 5 {
        Some(PrintQuality::High)
    } else {
        None
    }
}

impl PrintQuality {
    /// The enum value of this quality.
    pub open spec fn value(self) -> i32 {
        match self {
            PrintQuality::Draft => 3,
            PrintQuality::Normal => 4,
            PrintQuality::High => 5,
        }
    }

    /// `None` outside the registered set, so an unexpected value is dropped
    /// rather than silently reported as some other quality.
    pub fn from_ipp(value: i32) -> (r: Option<PrintQuality>)
        ensures
            r == quality_of(value),
    {
        match value {
            3 => Some(PrintQuality::Draft),
            4 => Some(PrintQuality::Normal),
            5 => Some(PrintQuality::High),
            _ => None,
        }
    }

    /// The IPP enum value to send back.
    pub fn to_ipp(self) -> (r: i32)
        ensures
            r == self.value(),
    {
        match self {
            PrintQuality::Draft => 3,
            PrintQuality::Normal => 4,
            PrintQuality::High => 5,
        }
    }
}

/// The qualities among several enum values, in order.
pub open spec fn qualities_of(values: Seq<i32>) -> Seq<PrintQuality>
    decreases values.len(),
{
    if values.len() == 0 {
        Seq::empty()
    } else {
        match quality_of(values.last()) {
            Some(q) => qualities_of(values.drop_last()).push(q),
            None => qualities_of(values.drop_last()),
        }
    }
}

/// What a queue advertises for one option, and the value currently set.
///
/// An option the queue says nothing about is empty rather than an error: not
/// every printer offers every option.
#[derive(Debug, PartialEq, Eq)]
pub struct OptionValues<T> {
    /// Every value the queue says it accepts, in the order it listed them.
    pub supported: Vec<T>,
    /// The value currently in effect for new jobs.
    pub default: Option<T>,
}

/// What is offered for one option.
pub struct Offered<T> {
    pub supported: Seq<T>,
    pub default: Option<T>,
}

impl<T: Clone> Clone for OptionValues<T> {
    fn clone(&self) -> (r: OptionValues<T>)
        ensures
            r.supported@.len() == self.supported@.len(),
            forall|i: int|
                0 <= i < self.supported@.len() ==> cloned::<T>(
                    #[trigger] self.supported@[i],
                    r.supported@[i],
                ),
            cloned::<Option<T>>(self.default, r.default),
    {
        OptionValues { supported: self.supported.clone(), default: self.default.clone() }
    }
}

impl<T> Default for OptionValues<T> {
    fn default() -> (r: OptionValues<T>)
        ensures
            r.supported@ == Seq::<T>::empty(),
            r.default is None,
    {
        OptionValues { supported: Vec::new(), default: None }
    }
}

impl<T> OptionValues<T> {
    /// Whether this is worth offering. One value is not a choice, and a
    /// control that can only be set to what it already says is noise.
    pub fn is_choice(&self) -> (r: bool)
        ensures
            r == (self.supported@.len() >= 2),
    {
        self.supported.len() >= 2
    }
}

/// What is offered for an option whose values are texts.
pub open spec fn offered_texts(option: OptionValues<String>) -> Offered<Seq<char>> {
    Offered { supported: viewed(option.supported@), default: view_of(option.default) }
}

/// What is offered for an option whose values are qualities.
pub open spec fn offered_qualities(option: OptionValues<PrintQuality>) -> Offered<PrintQuality> {
    Offered { supported: option.supported@, default: option.default }
}

/// The job options a queue advertises defaults for.
///
/// Deliberately five of them rather than everything a PPD can express:
/// rendering an arbitrary option tree well is its own project.
#[derive(Debug, PartialEq, Eq)]
pub struct PrinterOptions {
    /// Page sizes, as PWG self-describing names. See [`MediaSize`].
    pub media: OptionValues<String>,
    /// One- or two-sided, as `one-sided`, `two-sided-long-edge`,
    /// `two-sided-short-edge`.
    pub sides: OptionValues<String>,
    /// Colour or monochrome, as `color` and `monochrome`.
    pub color_mode: OptionValues<String>,
    /// Print quality.
    pub quality: OptionValues<PrintQuality>,
    /// Output tray, as `face-up`, `face-down` and vendor-specific names.
    pub output_bin: OptionValues<String>,
}

/// [`PrinterOptions`], as what is offered for each.
pub struct PrinterOptionsView {
    pub media: Offered<Seq<char>>,
    pub sides: Offered<Seq<char>>,
    pub color_mode: Offered<Seq<char>>,
    pub quality: Offered<PrintQuality>,
    pub output_bin: Offered<Seq<char>>,
}

impl View for PrinterOptions {
    type V = PrinterOptionsView;

    open spec fn view(&self) -> PrinterOptionsView {
        PrinterOptionsView {
            media: offered_texts(self.media),
            sides: offered_texts(self.sides),
            color_mode: offered_texts(self.color_mode),
            quality: offered_qualities(self.quality),
            output_bin: offered_texts(self.output_bin),
        }
    }
}

impl Default for PrinterOptions {
    fn default() -> (r: PrinterOptions)
        ensures
            r@ == nothing_offered(),
    {
        let r = PrinterOptions {
            media: OptionValues { supported: Vec::new(), default: None },
            sides: OptionValues { supported: Vec::new(), default: None },
            color_mode: OptionValues { supported: Vec::new(), default: None },
            quality: OptionValues { supported: Vec::new(), default: None },
            output_bin: OptionValues { supported: Vec::new(), default: None },
        };
        assert(viewed(Seq::<String>::empty()) =~= Seq::empty());
        assert(r.media.supported@ =~= Seq::empty());
        assert(r.sides.supported@ =~= Seq::empty());
        assert(r.color_mode.supported@ =~= Seq::empty());
        assert(r.output_bin.supported@ =~= Seq::empty());
        r
    }
}

/// A queue that says nothing about any option.
pub open spec fn nothing_offered() -> PrinterOptionsView {
    let none = Offered { supported: Seq::<Seq<char>>::empty(), default: None };
    PrinterOptionsView {
        media: none,
        sides: none,
        color_mode: none,
        quality: Offered { supported: Seq::empty(), default: None },
        output_bin: none,
    }
}

/// A copy of an option whose values are texts.
fn copy_texts(option: &OptionValues<String>) -> (r: OptionValues<String>)
    ensures
        offered_texts(r) == offered_texts(*option),
{
    let r = OptionValues {
        supported: option.supported.clone(),
        default: option.default.clone(),
    };
    assert(viewed(r.supported@) =~= viewed(option.supported@));
    r
}

/// Whether the same texts are offered.
fn same_offer(a: &OptionValues<String>, b: &OptionValues<String>) -> (r: bool)
    ensures
        r == (offered_texts(*a) == offered_texts(*b)),
{
    same_texts(&a.supported, &b.supported) && same_optional(&a.default, &b.default)
}

/// Whether the same qualities are offered.
fn same_quality_offer(a: &OptionValues<PrintQuality>, b: &OptionValues<PrintQuality>) -> (r: bool)
    ensures
        r == (offered_qualities(*a) == offered_qualities(*b)),
{
    let same_default = match (a.default, b.default) {
        (Some(x), Some(y)) => x == y,
        (None, None) => true,
        _ => false,
    };
    if !same_default || a.supported.len() != b.supported.len() {
        return false;
    }
    let mut i: usize = 0;
    while i < a.supported.len()
        invariant
            i <= a.supported.len(),
            a.supported.len() == b.supported.len(),
            forall|j: int| 0 <= j < i ==> a.supported@[j] == b.supported@[j],
        decreases a.supported.len() - i,
    {
        if a.supported[i] != b.supported[i] {
            return false;
        }
        i += 1;
    }
    assert(a.supported@ =~= b.supported@);
    true
}

impl Clone for PrinterOptions {
    fn clone(&self) -> (r: PrinterOptions)
        ensures
            r@ == self@,
    {
        let quality = OptionValues {
            supported: self.quality.supported.clone(),
            default: self.quality.default,
        };
        assert(quality.supported@ =~= self.quality.supported@);
        PrinterOptions {
            media: copy_texts(&self.media),
            sides: copy_texts(&self.sides),
            color_mode: copy_texts(&self.color_mode),
            quality,
            output_bin: copy_texts(&self.output_bin),
        }
    }
}

/// What a group offers for an option whose values are texts.
pub open spec fn texts_offered(
    a: Seq<Attribute>,
    supported: Seq<char>,
    default: Seq<char>,
) -> Offered<Seq<char>> {
    Offered { supported: texts_at(a, supported), default: text_at(a, default) }
}

/// The options a group advertises.
pub open spec fn options_of(a: Seq<Attribute>) -> PrinterOptionsView {
    PrinterOptionsView {
        media: texts_offered(a, "media-supported"@, "media-default"@),
        sides: texts_offered(a, "sides-supported"@, "sides-default"@),
        color_mode: texts_offered(
            a,
            "print-color-mode-supported"@,
            "print-color-mode-default"@,
        ),
        quality: Offered {
            supported: qualities_of(ints_at(a, "print-quality-supported"@)),
            default: match int_at(a, "print-quality-default"@) {
                Some(value) => quality_of(value),
                None => None,
            },
        },
        output_bin: texts_offered(a, "output-bin-supported"@, "output-bin-default"@),
    }
}

/// The qualities among several enum values, dropping those outside the
/// registered set.
fn known_qualities(values: Vec<i32>) -> (r: Vec<PrintQuality>)
    ensures
        r@ == qualities_of(values@),
{
    let mut out: Vec<PrintQuality> = Vec::new();
    let mut i: usize = 0;
    assert(values@.take(0) =~= Seq::empty());
    while i < values.len()
        invariant
            i <= values.len(),
            out@ == qualities_of(values@.take(i as int)),
        decreases values.len() - i,
    {
        proof {
            assert(values@.take(i + 1).drop_last() =~= values@.take(i as int));
        }
        if let Some(quality) = PrintQuality::from_ipp(values[i]) {
            out.push(quality);
        }
        i += 1;
    }
    assert(values@.take(i as int) =~= values@);
    out
}

impl PrinterOptions {
    /// Reads the options a group advertises.
    pub fn decode(a: &Attrs) -> (r: PrinterOptions)
        ensures
            r@ == options_of(a@),
    {
        PrinterOptions {
            media: OptionValues {
                supported: a.texts("media-supported"),
                default: a.text("media-default"),
            },
            sides: OptionValues {
                supported: a.texts("sides-supported"),
                default: a.text("sides-default"),
            },
            color_mode: OptionValues {
                supported: a.texts("print-color-mode-supported"),
                default: a.text("print-color-mode-default"),
            },
            quality: OptionValues {
                supported: known_qualities(a.ints("print-quality-supported")),
                default: match a.integer("print-quality-default") {
                    Some(value) => PrintQuality::from_ipp(value),
                    None => None,
                },
            },
            output_bin: OptionValues {
                supported: a.texts("output-bin-supported"),
                default: a.text("output-bin-default"),
            },
        }
    }

    /// Whether the same options are offered.
    pub fn same(&self, other: &PrinterOptions) -> (r: bool)
        ensures
            r == (self@ == other@),
    {
        same_offer(&self.media, &other.media) && same_offer(&self.sides, &other.sides)
            && same_offer(&self.color_mode, &other.color_mode) && same_quality_offer(
            &self.quality,
            &other.quality,
        ) && same_offer(&self.output_bin, &other.output_bin)
    }
}

/// A quality is read back from the value it is sent as, and a value that is
/// read as a quality is the one it is sent as.
pub proof fn a_quality_is_read_back(quality: PrintQuality, value: i32)
    ensures
        quality_of(quality.value()) == Some(quality),
        quality_of(value) == Some(quality) ==> quality.value() == value,
{
}

} // verus!
