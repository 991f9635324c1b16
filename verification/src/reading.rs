//! What decoding a group of attributes comes to, field by field: which
//! attribute each field is read from, and what it is where that attribute holds
//! a value, holds one of another kind, or is not there.

use vstd::prelude::*;
use crate::attrs::{
    bool_at, int_at, int_of, ints_at, ints_of, text_at, text_of, texts_at, texts_of,
};
use crate::error::ErrorView;
use crate::job::{brief_job_of, completion_of, job_of, queue_of, JobProgress, JobView};
use crate::options::{options_of, qualities_of, quality_of, Offered, PrintQuality};
use crate::printer::{class_of, ppd_of, printer_of, PrinterView};
use crate::requests::keywords;
use crate::state::{
    job_state_of, printer_state_of, reasons_of, JobState, PrinterState,
};
use crate::subscription::{
    event_of, events_of, notification_of, subscription_of, NotifyEventView,
};
use crate::supply::{level_of, supplies_of};
use crate::text::last_position;
use crate::wire::{lookup, Attribute, Content};

verus! {

/// Of the attributes called `name`, the first holds `value`.
pub open spec fn holds(a: Seq<Attribute>, name: Seq<char>, value: Content) -> bool {
    exists|i: int|
        #![trigger a[i]]
        {
            &&& 0 <= i < a.len()
            &&& a[i].name == name
            &&& a[i].value == value
            &&& forall|j: int| 0 <= j < i ==> (#[trigger] a[j]).name != name
        }
}

/// No attribute is called `name`.
pub open spec fn lacks(a: Seq<Attribute>, name: Seq<char>) -> bool {
    forall|i: int| 0 <= i < a.len() ==> (#[trigger] a[i]).name != name
}

/// `name` holds the text `t`, as a text, a name, a keyword, a URI or a MIME type.
pub open spec fn holds_text(a: Seq<Attribute>, name: Seq<char>, t: Seq<char>) -> bool {
    ||| holds(a, name, Content::TextWithoutLanguage(t))
    ||| holds(a, name, Content::TextWithLanguage(t))
    ||| holds(a, name, Content::NameWithoutLanguage(t))
    ||| holds(a, name, Content::NameWithLanguage(t))
    ||| holds(a, name, Content::Keyword(t))
    ||| holds(a, name, Content::Uri(t))
    ||| holds(a, name, Content::MimeMediaType(t))
}

/// `name` holds the number `n`, as an integer or an enum.
pub open spec fn holds_number(a: Seq<Attribute>, name: Seq<char>, n: i32) -> bool {
    holds(a, name, Content::Integer(n)) || holds(a, name, Content::Enum(n))
}

/// `field` is the text that `name` holds: that text where it holds one, and
/// nothing where it does not.
pub open spec fn is_text(a: Seq<Attribute>, name: Seq<char>, field: Option<Seq<char>>) -> bool {
    forall|t: Seq<char>| field == Some(t) <==> #[trigger] holds_text(a, name, t)
}

/// `field` is the number that `name` holds: that number where it holds one, and
/// nothing where it does not.
pub open spec fn is_number(a: Seq<Attribute>, name: Seq<char>, field: Option<i32>) -> bool {
    forall|n: i32| field == Some(n) <==> #[trigger] holds_number(a, name, n)
}

/// `field` is the list of the texts that `name` holds: those of its array in
/// order, its one text, or none.
pub open spec fn is_texts(a: Seq<Attribute>, name: Seq<char>, field: Seq<Seq<char>>) -> bool {
    &&& forall|items: Seq<Content>|
        #[trigger] holds(a, name, Content::Array(items)) ==> field == texts_of(items)
    &&& forall|t: Seq<char>| #[trigger] holds_text(a, name, t) ==> field == seq![t]
    &&& (forall|items: Seq<Content>| !#[trigger] holds(a, name, Content::Array(items))) && (forall|
        t: Seq<char>,
    | !#[trigger] holds_text(a, name, t)) ==> field.len() == 0
}

/// `field` is the list of the numbers that `name` holds: those of its array in
/// order, its one number, or none.
pub open spec fn is_numbers(a: Seq<Attribute>, name: Seq<char>, field: Seq<i32>) -> bool {
    &&& forall|items: Seq<Content>|
        #[trigger] holds(a, name, Content::Array(items)) ==> field == ints_of(items)
    &&& forall|n: i32| #[trigger] holds_number(a, name, n) ==> field == seq![n]
    &&& (forall|items: Seq<Content>| !#[trigger] holds(a, name, Content::Array(items))) && (forall|
        n: i32,
    | !#[trigger] holds_number(a, name, n)) ==> field.len() == 0
}

/// What is looked up under a name is what its first attribute holds.
pub proof fn a_lookup_finds_the_first(a: Seq<Attribute>, name: Seq<char>, value: Content)
    ensures
        lookup(a, name) == Some(value) <==> holds(a, name, value),
        lookup(a, name) is None <==> lacks(a, name),
    decreases a.len(),
{
    if a.len() > 0 {
        let rest = a.drop_first();
        a_lookup_finds_the_first(rest, name, value);
        assert forall|i: int| 0 <= i < rest.len() implies #[trigger] rest[i] == a[i + 1] by {}
        if a[0].name == name {
            assert(!lacks(a, name));
            if lookup(a, name) == Some(value) {
                assert(holds(a, name, value));
            }
        } else {
            if holds(rest, name, value) {
                let i = choose|i: int|
                    #![trigger rest[i]]
                    {
                        &&& 0 <= i < rest.len()
                        &&& rest[i].name == name
                        &&& rest[i].value == value
                        &&& forall|j: int| 0 <= j < i ==> (#[trigger] rest[j]).name != name
                    };
                assert(a[i + 1].name == name && a[i + 1].value == value);
                assert forall|j: int| 0 <= j < i + 1 implies (#[trigger] a[j]).name != name by {
                    if j > 0 {
                        assert(rest[j - 1] == a[j]);
                    }
                }
            }
            if holds(a, name, value) {
                let i = choose|i: int|
                    #![trigger a[i]]
                    {
                        &&& 0 <= i < a.len()
                        &&& a[i].name == name
                        &&& a[i].value == value
                        &&& forall|j: int| 0 <= j < i ==> (#[trigger] a[j]).name != name
                    };
                assert(rest[i - 1] == a[i]);
                assert forall|j: int| 0 <= j < i - 1 implies (#[trigger] rest[j]).name != name by {
                    assert(rest[j] == a[j + 1]);
                }
            }
            if lacks(rest, name) {
                assert forall|i: int| 0 <= i < a.len() implies (#[trigger] a[i]).name != name by {
                    if i > 0 {
                        assert(rest[i - 1] == a[i]);
                    }
                }
            }
            if lacks(a, name) {
                assert forall|i: int| 0 <= i < rest.len() implies (#[trigger] rest[i]).name
                    != name by {
                    assert(rest[i] == a[i + 1]);
                }
            }
        }
    }
}

/// The kinds of value that are read as text are texts, names, keywords, URIs and
/// MIME types; no other is.
pub proof fn texts_names_and_keywords_are_read_as_text(value: Content, t: Seq<char>)
    ensures
        text_of(value) == Some(t) <==> {
            ||| value == Content::TextWithoutLanguage(t)
            ||| value == Content::TextWithLanguage(t)
            ||| value == Content::NameWithoutLanguage(t)
            ||| value == Content::NameWithLanguage(t)
            ||| value == Content::Keyword(t)
            ||| value == Content::Uri(t)
            ||| value == Content::MimeMediaType(t)
        },
{
}

/// The kinds of value that are read as a number are integers and enums; no
/// other is.
pub proof fn integers_and_enums_are_read_as_numbers(value: Content, n: i32)
    ensures
        int_of(value) == Some(n) <==> value == Content::Integer(n) || value == Content::Enum(n),
{
}

/// Texts are read in order: those of two lists of values, one behind the other,
/// are those of the first and then those of the second, and one value is read as
/// its text or left out.
pub proof fn texts_are_read_in_order(before: Seq<Content>, after: Seq<Content>, value: Content)
    ensures
        texts_of(before + after) == texts_of(before) + texts_of(after),
        text_of(value) matches Some(t) ==> texts_of(seq![value]) == seq![t],
        text_of(value) is None ==> texts_of(seq![value]) == Seq::<Seq<char>>::empty(),
        texts_of(Seq::empty()) == Seq::<Seq<char>>::empty(),
    decreases after.len(),
{
    reveal_with_fuel(texts_of, 2);
    let single = seq![value];
    assert(single.drop_last() =~= Seq::empty());
    assert(single.last() == value);
    if let Some(t) = text_of(value) {
        assert(texts_of(single) =~= seq![t]);
    }
    let all = before + after;
    if after.len() == 0 {
        assert(all =~= before);
        assert(texts_of(before) + texts_of(after) =~= texts_of(before));
    } else {
        texts_are_read_in_order(before, after.drop_last(), value);
        assert(all.drop_last() =~= before + after.drop_last());
        assert(all.last() == after.last());
        assert(texts_of(all) =~= texts_of(before) + texts_of(after));
    }
}

/// Numbers are read in order: those of two lists of values, one behind the
/// other, are those of the first and then those of the second, and one value is
/// read as its number or left out.
pub proof fn numbers_are_read_in_order(before: Seq<Content>, after: Seq<Content>, value: Content)
    ensures
        ints_of(before + after) == ints_of(before) + ints_of(after),
        int_of(value) matches Some(n) ==> ints_of(seq![value]) == seq![n],
        int_of(value) is None ==> ints_of(seq![value]) == Seq::<i32>::empty(),
        ints_of(Seq::empty()) == Seq::<i32>::empty(),
    decreases after.len(),
{
    reveal_with_fuel(ints_of, 2);
    let single = seq![value];
    assert(single.drop_last() =~= Seq::empty());
    assert(single.last() == value);
    if let Some(n) = int_of(value) {
        assert(ints_of(single) =~= seq![n]);
    }
    let all = before + after;
    if after.len() == 0 {
        assert(all =~= before);
        assert(ints_of(before) + ints_of(after) =~= ints_of(before));
    } else {
        numbers_are_read_in_order(before, after.drop_last(), value);
        assert(all.drop_last() =~= before + after.drop_last());
        assert(all.last() == after.last());
        assert(ints_of(all) =~= ints_of(before) + ints_of(after));
    }
}

/// An array of keywords is read back as those keywords.
pub proof fn an_array_of_keywords_is_read_back(words: Seq<Seq<char>>)
    ensures
        texts_of(keywords(words)) == words,
    decreases words.len(),
{
    let values = keywords(words);
    if words.len() > 0 {
        an_array_of_keywords_is_read_back(words.drop_last());
        assert(values.drop_last() =~= keywords(words.drop_last()));
        assert(values.last() == Content::Keyword(words.last()));
        assert(texts_of(values) =~= words);
    } else {
        assert(texts_of(values) =~= words);
    }
}

/// The text, the number, the boolean and the lists called `name` are what its
/// first attribute holds.
pub proof fn a_value_is_read_from_the_attribute_of_its_name(a: Seq<Attribute>, name: Seq<char>)
    ensures
        is_text(a, name, text_at(a, name)),
        is_number(a, name, int_at(a, name)),
        is_texts(a, name, texts_at(a, name)),
        is_numbers(a, name, ints_at(a, name)),
        forall|b: bool|
            bool_at(a, name) == Some(b) <==> #[trigger] holds(a, name, Content::Boolean(b)),
{
    assert forall|value: Content| #[trigger] holds(a, name, value) <==> lookup(a, name) == Some(
        value,
    ) by {
        a_lookup_finds_the_first(a, name, value);
    }
    reveal_with_fuel(texts_of, 2);
    reveal_with_fuel(ints_of, 2);
    match lookup(a, name) {
        None => {},
        Some(value) => {
            let single = seq![value];
            assert(single.drop_last() =~= Seq::empty());
            assert(single.last() == value);
            assert(holds(a, name, value));
            if let Some(t) = text_of(value) {
                assert(texts_of(single) =~= seq![t]);
                assert(holds_text(a, name, t));
            }
            if let Some(n) = int_of(value) {
                assert(ints_of(single) =~= seq![n]);
                assert(holds_number(a, name, n));
            }
            if let Content::Array(items) = value {
                assert(holds(a, name, Content::Array(items)));
            }
        },
    }
}

/// `name` holds no text.
pub open spec fn no_text(a: Seq<Attribute>, name: Seq<char>) -> bool {
    forall|t: Seq<char>| !#[trigger] holds_text(a, name, t)
}

/// `name` holds no number.
pub open spec fn no_number(a: Seq<Attribute>, name: Seq<char>) -> bool {
    forall|n: i32| !#[trigger] holds_number(a, name, n)
}

/// `field` is the text that `name` holds, and empty where it holds none.
pub open spec fn is_text_or_empty(a: Seq<Attribute>, name: Seq<char>, field: Seq<char>) -> bool {
    &&& forall|t: Seq<char>| #[trigger] holds_text(a, name, t) ==> field == t
    &&& no_text(a, name) ==> field.len() == 0
}

/// The error of a text that has to be there and is not.
pub open spec fn missing_text(name: Seq<char>) -> ErrorView {
    ErrorView::Decode { attribute: name, detail: "missing or not a text value"@ }
}

/// The error of a number that has to be there and is not.
pub open spec fn missing_number(name: Seq<char>) -> ErrorView {
    ErrorView::Decode { attribute: name, detail: "missing or not an integer value"@ }
}

/// A name holds one list of texts and one of numbers, one text at most and one
/// number at most: what is read under it cannot be two different things.
pub proof fn a_name_holds_one_thing(
    a: Seq<Attribute>,
    name: Seq<char>,
    texts: Seq<Seq<char>>,
    numbers: Seq<i32>,
    text: Option<Seq<char>>,
    number: Option<i32>,
)
    ensures
        is_texts(a, name, texts) <==> texts == texts_at(a, name),
        is_numbers(a, name, numbers) <==> numbers == ints_at(a, name),
        is_text(a, name, text) <==> text == text_at(a, name),
        is_number(a, name, number) <==> number == int_at(a, name),
        no_text(a, name) <==> text_at(a, name) is None,
        no_number(a, name) <==> int_at(a, name) is None,
{
    a_value_is_read_from_the_attribute_of_its_name(a, name);
    assert forall|value: Content| #[trigger] holds(a, name, value) <==> lookup(a, name) == Some(
        value,
    ) by {
        a_lookup_finds_the_first(a, name, value);
    }
    if is_texts(a, name, texts) {
        assert(texts =~= texts_at(a, name));
    }
    if is_numbers(a, name, numbers) {
        assert(numbers =~= ints_at(a, name));
    }
    if let Some(t) = text_at(a, name) {
        assert(holds_text(a, name, t));
    }
    if let Some(n) = int_at(a, name) {
        assert(holds_number(a, name, n));
    }
    if is_text(a, name, text) {
        if let Some(t) = text {
            assert(holds_text(a, name, t));
        }
    }
    if is_number(a, name, number) {
        if let Some(n) = number {
            assert(holds_number(a, name, n));
        }
    }
}

/// What is read under a name, of every kind.
proof fn lemma_read(a: Seq<Attribute>, name: Seq<char>)
    ensures
        is_text(a, name, text_at(a, name)),
        is_number(a, name, int_at(a, name)),
        is_texts(a, name, texts_at(a, name)),
        is_numbers(a, name, ints_at(a, name)),
        forall|list: Seq<Seq<char>>| #[trigger]
            is_texts(a, name, list) ==> list == texts_at(a, name),
        forall|list: Seq<i32>| #[trigger]
            is_numbers(a, name, list) ==> list == ints_at(a, name),
        no_text(a, name) <==> text_at(a, name) is None,
        no_number(a, name) <==> int_at(a, name) is None,
        text_at(a, name) matches Some(t) ==> holds_text(a, name, t),
        int_at(a, name) matches Some(n) ==> holds_number(a, name, n),
{
    a_value_is_read_from_the_attribute_of_its_name(a, name);
    a_name_holds_one_thing(a, name, texts_at(a, name), ints_at(a, name), None, None);
    assert forall|list: Seq<Seq<char>>| #[trigger] is_texts(a, name, list) implies list
        == texts_at(a, name) by {
        a_name_holds_one_thing(a, name, list, Seq::empty(), None, None);
    }
    assert forall|list: Seq<i32>| #[trigger] is_numbers(a, name, list) implies list == ints_at(
        a,
        name,
    ) by {
        a_name_holds_one_thing(a, name, Seq::empty(), list, None, None);
    }
    if let Some(t) = text_at(a, name) {
        assert(holds_text(a, name, t));
    }
    if let Some(n) = int_at(a, name) {
        assert(holds_number(a, name, n));
    }
}

/// What is offered for an option is the list under one name and the choice under
/// another.
pub open spec fn is_offer(
    a: Seq<Attribute>,
    supported: Seq<char>,
    default: Seq<char>,
    offer: Offered<Seq<char>>,
) -> bool {
    is_texts(a, supported, offer.supported) && is_text(a, default, offer.default)
}

/// Each option is decoded from its own pair of attributes.
pub proof fn options_are_read_from_their_own_attributes(a: Seq<Attribute>)
    ensures
        is_offer(a, "media-supported"@, "media-default"@, options_of(a).media),
        is_offer(a, "sides-supported"@, "sides-default"@, options_of(a).sides),
        is_offer(
            a,
            "print-color-mode-supported"@,
            "print-color-mode-default"@,
            options_of(a).color_mode,
        ),
        is_offer(a, "output-bin-supported"@, "output-bin-default"@, options_of(a).output_bin),
        forall|values: Seq<i32>| #[trigger]
            is_numbers(a, "print-quality-supported"@, values) ==> options_of(a).quality.supported
                == qualities_of(values),
        forall|n: i32| #[trigger]
            holds_number(a, "print-quality-default"@, n) ==> options_of(a).quality.default
                == quality_of(n),
        no_number(a, "print-quality-default"@) ==> options_of(a).quality.default is None,
{
    lemma_read(a, "media-supported"@);
    lemma_read(a, "media-default"@);
    lemma_read(a, "sides-supported"@);
    lemma_read(a, "sides-default"@);
    lemma_read(a, "print-color-mode-supported"@);
    lemma_read(a, "print-color-mode-default"@);
    lemma_read(a, "print-quality-supported"@);
    lemma_read(a, "print-quality-default"@);
    lemma_read(a, "output-bin-supported"@);
    lemma_read(a, "output-bin-default"@);
}

/// A group that lists keywords for an option decodes to exactly those, in that
/// order, and one that names a choice decodes to that choice.
pub proof fn an_option_is_read_back(a: Seq<Attribute>, words: Seq<Seq<char>>, word: Seq<char>)
    ensures
        holds(a, "media-supported"@, Content::Array(keywords(words)))
            ==> options_of(a).media.supported == words,
        holds(a, "sides-supported"@, Content::Array(keywords(words)))
            ==> options_of(a).sides.supported == words,
        holds(a, "print-color-mode-supported"@, Content::Array(keywords(words)))
            ==> options_of(a).color_mode.supported == words,
        holds(a, "output-bin-supported"@, Content::Array(keywords(words)))
            ==> options_of(a).output_bin.supported == words,
        holds(a, "media-default"@, Content::Keyword(word)) ==> options_of(a).media.default
            == Some(word),
        holds(a, "sides-default"@, Content::Keyword(word)) ==> options_of(a).sides.default
            == Some(word),
        holds(a, "print-color-mode-default"@, Content::Keyword(word))
            ==> options_of(a).color_mode.default == Some(word),
        holds(a, "output-bin-default"@, Content::Keyword(word))
            ==> options_of(a).output_bin.default == Some(word),
        holds(a, "print-quality-default"@, Content::Enum(3)) ==> options_of(a).quality.default
            == Some(PrintQuality::Draft),
        holds(a, "print-quality-default"@, Content::Enum(4)) ==> options_of(a).quality.default
            == Some(PrintQuality::Normal),
        holds(a, "print-quality-default"@, Content::Enum(5)) ==> options_of(a).quality.default
            == Some(PrintQuality::High),
{
    options_are_read_from_their_own_attributes(a);
    an_array_of_keywords_is_read_back(words);
    assert(holds(a, "media-default"@, Content::Keyword(word)) ==> holds_text(
        a,
        "media-default"@,
        word,
    ));
    assert(holds(a, "sides-default"@, Content::Keyword(word)) ==> holds_text(
        a,
        "sides-default"@,
        word,
    ));
    assert(holds(a, "print-color-mode-default"@, Content::Keyword(word)) ==> holds_text(
        a,
        "print-color-mode-default"@,
        word,
    ));
    assert(holds(a, "output-bin-default"@, Content::Keyword(word)) ==> holds_text(
        a,
        "output-bin-default"@,
        word,
    ));
    let quality = "print-quality-default"@;
    assert(holds(a, quality, Content::Enum(3)) ==> holds_number(a, quality, 3));
    assert(holds(a, quality, Content::Enum(4)) ==> holds_number(a, quality, 4));
    assert(holds(a, quality, Content::Enum(5)) ==> holds_number(a, quality, 5));
}

/// Groups that agree on an option's own pair of attributes offer the same for
/// it, whatever else they hold.
pub proof fn an_option_depends_on_nothing_else(a: Seq<Attribute>, b: Seq<Attribute>)
    ensures
        lookup(a, "media-supported"@) == lookup(b, "media-supported"@) && lookup(
            a,
            "media-default"@,
        ) == lookup(b, "media-default"@) ==> options_of(a).media == options_of(b).media,
        lookup(a, "sides-supported"@) == lookup(b, "sides-supported"@) && lookup(
            a,
            "sides-default"@,
        ) == lookup(b, "sides-default"@) ==> options_of(a).sides == options_of(b).sides,
        lookup(a, "print-color-mode-supported"@) == lookup(b, "print-color-mode-supported"@)
            && lookup(a, "print-color-mode-default"@) == lookup(b, "print-color-mode-default"@)
            ==> options_of(a).color_mode == options_of(b).color_mode,
        lookup(a, "print-quality-supported"@) == lookup(b, "print-quality-supported"@) && lookup(
            a,
            "print-quality-default"@,
        ) == lookup(b, "print-quality-default"@) ==> options_of(a).quality == options_of(b).quality,
        lookup(a, "output-bin-supported"@) == lookup(b, "output-bin-supported"@) && lookup(
            a,
            "output-bin-default"@,
        ) == lookup(b, "output-bin-default"@) ==> options_of(a).output_bin == options_of(
            b,
        ).output_bin,
{
}

/// The supply at each place takes the name, the kind, the colour, the level and
/// the threshold that stand there, where the lists reach that far, and there is
/// one for each place that has both a name and a level.
pub proof fn a_supply_takes_what_stands_at_its_place(
    names: Seq<Seq<char>>,
    levels: Seq<i32>,
    types: Seq<Seq<char>>,
    colours: Seq<Seq<char>>,
    low: Seq<i32>,
    i: int,
)
    requires
        0 <= i,
    ensures
        ({
            let supplies = supplies_of(names, levels, types, colours, low);
            let supply = supplies[i];
            &&& i < supplies.len() <==> i < names.len() && i < levels.len()
            &&& i < supplies.len() ==> {
                &&& supply.name == names[i]
                &&& supply.level == level_of(levels[i])
                &&& i < types.len() ==> supply.kind == Some(types[i])
                &&& i >= types.len() ==> supply.kind is None
                &&& i < colours.len() ==> supply.colour == Some(colours[i])
                &&& i >= colours.len() ==> supply.colour is None
                &&& i < low.len() ==> supply.low_threshold == Some(low[i])
                &&& i >= low.len() ==> supply.low_threshold is None
            }
        }),
{
}

/// A printer is decoded exactly where its group holds a name and one of the
/// three states; else the error tells which of the two is at fault, the name
/// first.
pub proof fn a_printer_needs_a_name_and_a_state(a: Seq<Attribute>)
    ensures
        no_text(a, "printer-name"@) ==> printer_of(a) == Err::<PrinterView, ErrorView>(
            missing_text("printer-name"@),
        ),
        !no_text(a, "printer-name"@) && no_number(a, "printer-state"@) ==> printer_of(a) == Err::<
            PrinterView,
            ErrorView,
        >(missing_number("printer-state"@)),
        forall|n: i32|
            #![trigger holds_number(a, "printer-state"@, n)]
            !no_text(a, "printer-name"@) && holds_number(a, "printer-state"@, n) ==> {
                &&& printer_of(a) is Ok <==> 3 <= n <= 5
                &&& printer_of(a) matches Err(e) ==> printer_state_of(n) == Err::<
                    PrinterState,
                    ErrorView,
                >(e)
            },
{
    lemma_read(a, "printer-name"@);
    lemma_read(a, "printer-state"@);
}

/// Each field of a printer is decoded from its own attribute.
pub proof fn a_printer_is_read_from_its_own_attributes(a: Seq<Attribute>)
    requires
        printer_of(a) is Ok,
    ensures
        ({
            let p = printer_of(a)->Ok_0;
            &&& holds_text(a, "printer-name"@, p.name)
            &&& p.state is Idle <==> holds_number(a, "printer-state"@, 3)
            &&& p.state is Processing <==> holds_number(a, "printer-state"@, 4)
            &&& p.state is Stopped <==> holds_number(a, "printer-state"@, 5)
            &&& forall|list: Seq<Seq<char>>| #[trigger]
                is_texts(a, "printer-uri-supported"@, list) ==> p.uri == (if list.len() > 0 {
                    list[0]
                } else {
                    Seq::empty()
                })
            &&& is_text_or_empty(a, "device-uri"@, p.device_uri)
            &&& is_text(a, "printer-info"@, p.info)
            &&& is_text(a, "printer-location"@, p.location)
            &&& forall|list: Seq<Seq<char>>| #[trigger]
                is_texts(a, "printer-state-reasons"@, list) ==> p.reasons == reasons_of(list)
            &&& p.accepting_jobs <==> !holds(
                a,
                "printer-is-accepting-jobs"@,
                Content::Boolean(false),
            )
            &&& !p.is_default
            &&& p.options == options_of(a)
        }),
{
    lemma_read(a, "printer-name"@);
    lemma_read(a, "printer-state"@);
    lemma_read(a, "printer-uri-supported"@);
    lemma_read(a, "device-uri"@);
    lemma_read(a, "printer-info"@);
    lemma_read(a, "printer-location"@);
    lemma_read(a, "printer-state-reasons"@);
    a_value_is_read_from_the_attribute_of_its_name(a, "printer-is-accepting-jobs"@);
}

/// A printer's supplies are decoded from the five marker attributes, each for
/// its own part of a supply.
pub proof fn supplies_are_read_from_the_marker_attributes(
    a: Seq<Attribute>,
    names: Seq<Seq<char>>,
    levels: Seq<i32>,
    types: Seq<Seq<char>>,
    colours: Seq<Seq<char>>,
    low: Seq<i32>,
)
    requires
        printer_of(a) is Ok,
        is_texts(a, "marker-names"@, names),
        is_numbers(a, "marker-levels"@, levels),
        is_texts(a, "marker-types"@, types),
        is_texts(a, "marker-colors"@, colours),
        is_numbers(a, "marker-low-levels"@, low),
    ensures
        printer_of(a)->Ok_0.supplies == supplies_of(names, levels, types, colours, low),
{
    lemma_read(a, "marker-names"@);
    lemma_read(a, "marker-levels"@);
    lemma_read(a, "marker-types"@);
    lemma_read(a, "marker-colors"@);
    lemma_read(a, "marker-low-levels"@);
}

/// A job is decoded exactly where its group holds an id and one of the seven
/// states; else the error tells which of the two is at fault, the id first.
pub proof fn a_job_needs_an_id_and_a_state(a: Seq<Attribute>)
    ensures
        no_number(a, "job-id"@) ==> job_of(a) == Err::<JobView, ErrorView>(
            missing_number("job-id"@),
        ),
        !no_number(a, "job-id"@) && no_number(a, "job-state"@) ==> job_of(a) == Err::<
            JobView,
            ErrorView,
        >(missing_number("job-state"@)),
        forall|n: i32|
            #![trigger holds_number(a, "job-state"@, n)]
            !no_number(a, "job-id"@) && holds_number(a, "job-state"@, n) ==> {
                &&& job_of(a) is Ok <==> 3 <= n <= 9
                &&& job_of(a) matches Err(e) ==> job_state_of(n) == Err::<JobState, ErrorView>(e)
            },
{
    lemma_read(a, "job-id"@);
    lemma_read(a, "job-state"@);
}

/// `field` is the time so many seconds after the epoch as `name` holds, where
/// that is more than none.
pub open spec fn is_time(a: Seq<Attribute>, name: Seq<char>, field: Option<int>) -> bool {
    &&& forall|n: i32| #[trigger]
        holds_number(a, name, n) ==> field == (if n > 0 {
            Some(n * 1_000_000_000)
        } else {
            None
        })
    &&& no_number(a, name) ==> field is None
}

/// Each field of a job is decoded from its own attribute.
pub proof fn a_job_is_read_from_its_own_attributes(a: Seq<Attribute>)
    requires
        job_of(a) is Ok,
    ensures
        ({
            let job = job_of(a)->Ok_0;
            &&& holds_number(a, "job-id"@, job.id)
            &&& job.state is Pending <==> holds_number(a, "job-state"@, 3)
            &&& job.state is PendingHeld <==> holds_number(a, "job-state"@, 4)
            &&& job.state is Processing <==> holds_number(a, "job-state"@, 5)
            &&& job.state is ProcessingStopped <==> holds_number(a, "job-state"@, 6)
            &&& job.state is Canceled <==> holds_number(a, "job-state"@, 7)
            &&& job.state is Aborted <==> holds_number(a, "job-state"@, 8)
            &&& job.state is Completed <==> holds_number(a, "job-state"@, 9)
            &&& is_text(a, "job-name"@, job.name)
            &&& is_text(a, "job-originating-user-name"@, job.user)
            &&& forall|list: Seq<Seq<char>>| #[trigger]
                is_texts(a, "job-state-reasons"@, list) ==> job.reasons == reasons_of(list)
            &&& is_time(a, "time-at-creation"@, job.created)
            &&& is_time(a, "time-at-completed"@, job.completed)
        }),
{
    lemma_read(a, "job-id"@);
    lemma_read(a, "job-state"@);
    lemma_read(a, "job-name"@);
    lemma_read(a, "job-originating-user-name"@);
    lemma_read(a, "job-state-reasons"@);
    lemma_read(a, "time-at-creation"@);
    lemma_read(a, "time-at-completed"@);
}

/// The queue a job is on is what follows the last slash of its printer's URI,
/// all of it where there is no slash, and empty where the group holds no URI.
pub proof fn a_job_is_on_the_queue_its_uri_ends_in(a: Seq<Attribute>)
    requires
        job_of(a) is Ok,
    ensures
        ({
            let queue = job_of(a)->Ok_0.printer;
            &&& !queue.contains('/')
            &&& forall|uri: Seq<char>| #[trigger]
                holds_text(a, "job-printer-uri"@, uri) ==> {
                    &&& queue.len() <= uri.len()
                    &&& uri.skip(uri.len() - queue.len()) == queue
                    &&& queue.len() < uri.len() ==> uri[uri.len() - queue.len() - 1] == '/'
                }
            &&& no_text(a, "job-printer-uri"@) ==> queue.len() == 0
        }),
{
    lemma_read(a, "job-printer-uri"@);
    if let Some(uri) = text_at(a, "job-printer-uri"@) {
        a_queue_follows_the_last_slash(uri);
        assert(uri.skip(uri.len() as int) =~= Seq::<char>::empty());
    }
}

/// A printer URI ends in its queue's name, which holds no slash and stands
/// behind one unless it is the whole; a URI that ends in a slash, or is empty,
/// names none.
pub proof fn a_queue_follows_the_last_slash(uri: Seq<char>)
    ensures
        queue_of(uri) matches Some(name) ==> {
            &&& 0 < name.len() <= uri.len()
            &&& !name.contains('/')
            &&& uri.skip(uri.len() - name.len()) == name
            &&& name.len() < uri.len() ==> uri[uri.len() - name.len() - 1] == '/'
        },
        queue_of(uri) is None <==> uri.len() == 0 || uri.last() == '/',
{
    crate::text::lemma_last_position(uri, '/');
    let slash = last_position(uri, '/');
    let name = uri.skip(slash + 1);
    assert(uri.skip(uri.len() - name.len()) =~= name);
    if name.contains('/') {
        let k = choose|k: int| 0 <= k < name.len() && name[k] == '/';
        assert(uri[slash + 1 + k] == '/');
    }
}

/// How many pages a job has and has printed are decoded from the two counts of
/// impressions: the progress is known where both are there and there is anything
/// to print, and what was printed where anything was.
pub proof fn pages_are_read_from_the_counts_of_impressions(a: Seq<Attribute>)
    requires
        job_of(a) is Ok,
    ensures
        ({
            let job = job_of(a)->Ok_0;
            &&& forall|done: i32, total: i32|
                #![trigger
                    holds_number(a, "job-impressions"@, total),
                    holds_number(a, "job-impressions-completed"@, done)]
                job.progress == (JobProgress::Pages { done, total }) <==> {
                    &&& holds_number(a, "job-impressions"@, total)
                    &&& holds_number(a, "job-impressions-completed"@, done)
                    &&& total > 0
                }
            &&& forall|n: i32|
                job.pages_printed == Some(n) <==> #[trigger] holds_number(
                    a,
                    "job-impressions-completed"@,
                    n,
                ) && n > 0
        }),
{
    lemma_read(a, "job-impressions"@);
    lemma_read(a, "job-impressions-completed"@);
}

/// A job in brief is decoded where a job is, and with the same error where it is
/// not. It is the same job, without the pages it printed and the time it ended.
pub proof fn a_brief_job_lacks_only_how_it_ended(a: Seq<Attribute>)
    ensures
        brief_job_of(a) is Ok <==> job_of(a) is Ok,
        job_of(a) matches Err(e) ==> brief_job_of(a) == Err::<JobView, ErrorView>(e),
        brief_job_of(a) matches Ok(brief) ==> {
            let job = job_of(a)->Ok_0;
            &&& brief.pages_printed is None
            &&& brief.completed is None
            &&& brief.id == job.id
            &&& brief.printer == job.printer
            &&& brief.name == job.name
            &&& brief.user == job.user
            &&& brief.state == job.state
            &&& brief.reasons == job.reasons
            &&& brief.progress == job.progress
            &&& brief.created == job.created
        },
{
}

/// What is done of a job is its count of pages, kept between none and all of
/// them, out of all of them. It is known where there are any.
pub proof fn completion_keeps_to_the_pages(done: i32, total: i32)
    ensures
        ({
            let completion = completion_of(JobProgress::Pages { done, total });
            &&& completion is Some <==> total > 0
            &&& completion matches Some((n, all)) ==> {
                &&& all == total
                &&& 0 <= done <= total ==> n == done
                &&& done < 0 ==> n == 0
                &&& done > total ==> n == total
            }
        }),
        completion_of(JobProgress::Indeterminate) is None,
{
}

/// A class is decoded exactly where its group holds a name, and lists its
/// members.
pub proof fn a_class_is_read_from_its_own_attributes(a: Seq<Attribute>)
    ensures
        class_of(a) is Ok <==> !no_text(a, "printer-name"@),
        class_of(a) matches Err(e) ==> e == missing_text("printer-name"@),
        class_of(a) matches Ok(class) ==> {
            &&& holds_text(a, "printer-name"@, class.name)
            &&& is_texts(a, "member-names"@, class.members)
        },
{
    lemma_read(a, "printer-name"@);
    lemma_read(a, "member-names"@);
}

/// A driver is decoded exactly where its group holds a name.
pub proof fn a_driver_is_read_from_its_own_attributes(a: Seq<Attribute>)
    ensures
        ppd_of(a) is Ok <==> !no_text(a, "ppd-name"@),
        ppd_of(a) matches Err(e) ==> e == missing_text("ppd-name"@),
        ppd_of(a) matches Ok(ppd) ==> {
            &&& holds_text(a, "ppd-name"@, ppd.name)
            &&& is_text_or_empty(a, "ppd-make-and-model"@, ppd.make_and_model)
            &&& is_text_or_empty(a, "ppd-device-id"@, ppd.device_id)
        },
{
    lemma_read(a, "ppd-name"@);
    lemma_read(a, "ppd-make-and-model"@);
    lemma_read(a, "ppd-device-id"@);
}

/// A subscription is decoded exactly where its group holds an id. Its lease is
/// so many seconds, and none where that is no more than zero.
pub proof fn a_subscription_is_read_from_its_own_attributes(a: Seq<Attribute>)
    ensures
        subscription_of(a) is Ok <==> !no_number(a, "notify-subscription-id"@),
        subscription_of(a) matches Err(e) ==> e == missing_number("notify-subscription-id"@),
        subscription_of(a) matches Ok(subscription) ==> {
            &&& holds_number(a, "notify-subscription-id"@, subscription.id)
            &&& forall|list: Seq<Seq<char>>| #[trigger]
                is_texts(a, "notify-events"@, list) ==> subscription.events == events_of(list)
            &&& forall|n: i32| #[trigger]
                holds_number(a, "notify-lease-duration"@, n) ==> subscription.lease == (if n > 0 {
                    Some((n * 1_000_000_000) as nat)
                } else {
                    None
                })
            &&& no_number(a, "notify-lease-duration"@) ==> subscription.lease is None
            &&& is_text(a, "notify-subscriber-user-name"@, subscription.subscriber)
        },
{
    lemma_read(a, "notify-subscription-id"@);
    lemma_read(a, "notify-events"@);
    lemma_read(a, "notify-lease-duration"@);
    lemma_read(a, "notify-subscriber-user-name"@);
}

/// A notification is decoded exactly where its group holds the id of the
/// subscription that captured it, and each of its fields from its own attribute.
pub proof fn a_notification_is_read_from_its_own_attributes(a: Seq<Attribute>)
    ensures
        notification_of(a) is Ok <==> !no_number(a, "notify-subscription-id"@),
        notification_of(a) matches Err(e) ==> e == missing_number("notify-subscription-id"@),
        notification_of(a) matches Ok(n) ==> {
            &&& holds_number(a, "notify-subscription-id"@, n.subscription_id)
            &&& forall|word: Seq<char>| #[trigger]
                holds_text(a, "notify-subscribed-event"@, word) ==> n.event == event_of(word)
            &&& no_text(a, "notify-subscribed-event"@) ==> n.event == NotifyEventView::Other(
                Seq::empty(),
            )
            &&& is_number(a, "notify-job-id"@, n.job_id)
            &&& is_text(a, "notify-text"@, n.text)
            &&& is_number(a, "notify-sequence-number"@, n.sequence)
        },
{
    lemma_read(a, "notify-subscription-id"@);
    lemma_read(a, "notify-subscribed-event"@);
    lemma_read(a, "notify-job-id"@);
    lemma_read(a, "notify-text"@);
    lemma_read(a, "notify-sequence-number"@);
}

/// A notification's text is what its group holds under `notify-text` and depends
/// on no other attribute: a group that holds a text there decodes to it, one
/// that holds none decodes to none, and two that agree there decode to the same.
pub proof fn a_notifications_text_is_what_notify_text_holds(
    a: Seq<Attribute>,
    b: Seq<Attribute>,
    t: Seq<char>,
)
    requires
        notification_of(a) is Ok,
        notification_of(b) is Ok,
    ensures
        holds(a, "notify-text"@, Content::TextWithoutLanguage(t)) ==> notification_of(a)->Ok_0.text
            == Some(t),
        lacks(a, "notify-text"@) ==> notification_of(a)->Ok_0.text is None,
        (forall|value: Content|
            #[trigger] holds(a, "notify-text"@, value) <==> holds(b, "notify-text"@, value))
            ==> notification_of(a)->Ok_0.text == notification_of(b)->Ok_0.text,
{
    a_notification_is_read_from_its_own_attributes(a);
    assert(holds(a, "notify-text"@, Content::TextWithoutLanguage(t)) ==> holds_text(
        a,
        "notify-text"@,
        t,
    ));
    lemma_read(a, "notify-text"@);
    lemma_read(b, "notify-text"@);
    assert forall|value: Content| #[trigger] holds(a, "notify-text"@, value) <==> lookup(
        a,
        "notify-text"@,
    ) == Some(value) by {
        a_lookup_finds_the_first(a, "notify-text"@, value);
    }
    assert forall|value: Content| #[trigger] holds(b, "notify-text"@, value) <==> lookup(
        b,
        "notify-text"@,
    ) == Some(value) by {
        a_lookup_finds_the_first(b, "notify-text"@, value);
    }
    a_lookup_finds_the_first(a, "notify-text"@, Content::Other);
    if forall|value: Content|
        #[trigger] holds(a, "notify-text"@, value) <==> holds(b, "notify-text"@, value) {
        if let Some(value) = lookup(a, "notify-text"@) {
            assert(holds(a, "notify-text"@, value));
        }
        if let Some(value) = lookup(b, "notify-text"@) {
            assert(holds(a, "notify-text"@, value));
        }
        assert(lookup(a, "notify-text"@) == lookup(b, "notify-text"@));
    }
}

} // verus!
