//! Reading one attribute group.

use vstd::prelude::*;
use ipp::attribute::IppAttributeGroup;
use ipp::value::IppValue;
use crate::error::{decode_failure, Error, ErrorView};
use crate::lists::viewed;
use crate::text::view_of;
use crate::wire::{
    as_array, as_boolean, as_enum, as_integer, as_keyword, as_mime_media_type,
    as_name_with_language, as_name_without_language, as_text_with_language,
    as_text_without_language, as_uri, contents, group_attributes, lookup, value_content, value_of,
    Attribute, Content,
};

verus! {

/// The text a value holds, where it is one of the kinds that hold text.
pub open spec fn text_of(value: Content) -> Option<Seq<char>> {
    match value {
        Content::TextWithoutLanguage(t) => Some(t),
        Content::NameWithoutLanguage(t) => Some(t),
        Content::TextWithLanguage(t) => Some(t),
        Content::NameWithLanguage(t) => Some(t),
        Content::Keyword(t) => Some(t),
        Content::Uri(t) => Some(t),
        Content::MimeMediaType(t) => Some(t),
        _ => None,
    }
}

/// The number a value holds, where it is an integer or an enum.
pub open spec fn int_of(value: Content) -> Option<i32> {
    match value {
        Content::Integer(n) => Some(n),
        Content::Enum(n) => Some(n),
        _ => None,
    }
}

/// The texts among several values, in order.
pub open spec fn texts_of(values: Seq<Content>) -> Seq<Seq<char>>
    decreases values.len(),
{
    if values.len() == 0 {
        Seq::empty()
    } else {
        match text_of(values.last()) {
            Some(t) => texts_of(values.drop_last()).push(t),
            None => texts_of(values.drop_last()),
        }
    }
}

/// The numbers among several values, in order.
pub open spec fn ints_of(values: Seq<Content>) -> Seq<i32>
    decreases values.len(),
{
    if values.len() == 0 {
        Seq::empty()
    } else {
        match int_of(values.last()) {
            Some(n) => ints_of(values.drop_last()).push(n),
            None => ints_of(values.drop_last()),
        }
    }
}

/// The values an attribute stands for: those of an array, or the one value it is.
pub open spec fn values_of(value: Content) -> Seq<Content> {
    match value {
        Content::Array(items) => items,
        other => seq![other],
    }
}

/// The text called `name`, where there is one.
pub open spec fn text_at(attributes: Seq<Attribute>, name: Seq<char>) -> Option<Seq<char>> {
    match lookup(attributes, name) {
        Some(value) => text_of(value),
        None => None,
    }
}

/// The number called `name`, where there is one.
pub open spec fn int_at(attributes: Seq<Attribute>, name: Seq<char>) -> Option<i32> {
    match lookup(attributes, name) {
        Some(value) => int_of(value),
        None => None,
    }
}

/// The boolean called `name`, where there is one.
pub open spec fn bool_at(attributes: Seq<Attribute>, name: Seq<char>) -> Option<bool> {
    match lookup(attributes, name) {
        Some(Content::Boolean(b)) => Some(b),
        _ => None,
    }
}

/// The texts called `name`.
pub open spec fn texts_at(attributes: Seq<Attribute>, name: Seq<char>) -> Seq<Seq<char>> {
    match lookup(attributes, name) {
        Some(value) => texts_of(values_of(value)),
        None => Seq::empty(),
    }
}

/// The numbers called `name`.
pub open spec fn ints_at(attributes: Seq<Attribute>, name: Seq<char>) -> Seq<i32> {
    match lookup(attributes, name) {
        Some(value) => ints_of(values_of(value)),
        None => Seq::empty(),
    }
}

/// What it takes to read a text that has to be there.
pub open spec fn required_text(attributes: Seq<Attribute>, name: Seq<char>) -> Result<
    Seq<char>,
    ErrorView,
> {
    match text_at(attributes, name) {
        Some(t) => Ok(t),
        None => Err(decode_failure(name, "missing or not a text value"@)),
    }
}

/// What it takes to read a number that has to be there.
pub open spec fn required_int(attributes: Seq<Attribute>, name: Seq<char>) -> Result<
    i32,
    ErrorView,
> {
    match int_at(attributes, name) {
        Some(n) => Ok(n),
        None => Err(decode_failure(name, "missing or not an integer value"@)),
    }
}

/// A text list holds one value as it holds an array of just that value.
pub proof fn a_scalar_reads_as_a_list_of_one(attributes: Seq<Attribute>, name: Seq<char>)
    requires
        lookup(attributes, name) matches Some(value) && !(value is Array),
    ensures
        texts_at(attributes, name) == (match text_at(attributes, name) {
            Some(t) => seq![t],
            None => Seq::empty(),
        }),
        ints_at(attributes, name) == (match int_at(attributes, name) {
            Some(n) => seq![n],
            None => Seq::empty(),
        }),
{
    let value = lookup(attributes, name)->0;
    let one = seq![value];
    assert(one.drop_last() =~= Seq::empty());
    reveal_with_fuel(texts_of, 2);
    reveal_with_fuel(ints_of, 2);
    assert(one.last() == value);
    assert(Seq::<Seq<char>>::empty().push(text_of(value)->0) =~= seq![text_of(value)->0]);
    assert(Seq::<i32>::empty().push(int_of(value)->0) =~= seq![int_of(value)->0]);
}

/// Read-only view over one IPP attribute group.
pub struct Attrs<'a> {
    group: &'a IppAttributeGroup,
}

impl<'a> View for Attrs<'a> {
    type V = Seq<Attribute>;

    closed spec fn view(&self) -> Seq<Attribute> {
        group_attributes(*self.group)
    }
}

impl<'a> Attrs<'a> {
    /// A view over `group`.
    pub fn new(group: &'a IppAttributeGroup) -> (r: Attrs<'a>)
        ensures
            r@ == group_attributes(*group),
    {
        Attrs { group }
    }

    fn value(&self, name: &str) -> (r: Option<&'a IppValue>)
        ensures
            r is Some <==> lookup(self@, name@) is Some,
            r matches Some(value) ==> lookup(self@, name@) == Some(value_content(*value)),
    {
        value_of(self.group, name)
    }

    fn as_text(value: &IppValue) -> (r: Option<String>)
        ensures
            view_of(r) == text_of(value_content(*value)),
    {
        let found = match as_text_without_language(value) {
            Some(t) => Some(t),
            None => match as_name_without_language(value) {
                Some(t) => Some(t),
                None => match as_text_with_language(value) {
                    Some(t) => Some(t),
                    None => match as_name_with_language(value) {
                        Some(t) => Some(t),
                        None => match as_keyword(value) {
                            Some(t) => Some(t),
                            None => match as_uri(value) {
                                Some(t) => Some(t),
                                None => as_mime_media_type(value),
                            },
                        },
                    },
                },
            },
        };
        match found {
            Some(t) => Some(t.to_string()),
            None => None,
        }
    }

    fn as_int(value: &IppValue) -> (r: Option<i32>)
        ensures
            r == int_of(value_content(*value)),
    {
        match as_integer(value) {
            Some(n) => Some(n),
            None => as_enum(value),
        }
    }

    /// The text called `name`.
    pub fn text(&self, name: &str) -> (r: Option<String>)
        ensures
            view_of(r) == text_at(self@, name@),
    {
        match self.value(name) {
            Some(value) => Self::as_text(value),
            None => None,
        }
    }

    /// The number called `name`.
    pub fn integer(&self, name: &str) -> (r: Option<i32>)
        ensures
            r == int_at(self@, name@),
    {
        match self.value(name) {
            Some(value) => Self::as_int(value),
            None => None,
        }
    }

    /// The boolean called `name`.
    pub fn bool(&self, name: &str) -> (r: Option<bool>)
        ensures
            r == bool_at(self@, name@),
    {
        match self.value(name) {
            Some(value) => as_boolean(value),
            None => None,
        }
    }

    /// Flattens `Array` values; a scalar reads as a one-element list.
    pub fn texts(&self, name: &str) -> (r: Vec<String>)
        ensures
            viewed(r@) == texts_at(self@, name@),
    {
        let mut out: Vec<String> = Vec::new();
        let value = match self.value(name) {
            Some(value) => value,
            None => {
                assert(viewed(out@) =~= texts_at(self@, name@));
                return out;
            },
        };
        match as_array(value) {
            Some(items) => {
                let ghost held = contents(items@);
                let mut i: usize = 0;
                assert(held.take(0) =~= Seq::empty());
                assert(viewed(out@) =~= Seq::empty());
                while i < items.len()
                    invariant
                        i <= items.len(),
                        held == contents(items@),
                        viewed(out@) == texts_of(held.take(i as int)),
                    decreases items.len() - i,
                {
                    proof {
                        assert(held.take(i + 1).drop_last() =~= held.take(i as int));
                        assert(held.take(i + 1).last() == value_content(items@[i as int]));
                    }
                    let ghost before = out@;
                    if let Some(t) = Self::as_text(&items[i]) {
                        out.push(t);
                        assert(viewed(out@) =~= viewed(before).push(t@));
                    }
                    i += 1;
                }
                assert(held.take(i as int) =~= held);
            },
            None => {
                proof {
                    a_scalar_reads_as_a_list_of_one(self@, name@);
                }
                if let Some(t) = Self::as_text(value) {
                    out.push(t);
                }
                assert(viewed(out@) =~= texts_at(self@, name@));
            },
        }
        out
    }

    /// Flattens `Array` values; a scalar reads as a one-element list.
    pub fn ints(&self, name: &str) -> (r: Vec<i32>)
        ensures
            r@ == ints_at(self@, name@),
    {
        let mut out: Vec<i32> = Vec::new();
        let value = match self.value(name) {
            Some(value) => value,
            None => {
                return out;
            },
        };
        match as_array(value) {
            Some(items) => {
                let ghost held = contents(items@);
                let mut i: usize = 0;
                assert(held.take(0) =~= Seq::empty());
                while i < items.len()
                    invariant
                        i <= items.len(),
                        held == contents(items@),
                        out@ == ints_of(held.take(i as int)),
                    decreases items.len() - i,
                {
                    proof {
                        assert(held.take(i + 1).drop_last() =~= held.take(i as int));
                        assert(held.take(i + 1).last() == value_content(items@[i as int]));
                    }
                    if let Some(n) = Self::as_int(&items[i]) {
                        out.push(n);
                    }
                    i += 1;
                }
                assert(held.take(i as int) =~= held);
            },
            None => {
                proof {
                    a_scalar_reads_as_a_list_of_one(self@, name@);
                }
                if let Some(n) = Self::as_int(value) {
                    out.push(n);
                }
                assert(out@ =~= ints_at(self@, name@));
            },
        }
        out
    }

    /// The text called `name`, or an error that says it is missing.
    pub fn require_text(&self, name: &str) -> (r: Result<String, Error>)
        ensures
            match r {
                Ok(t) => required_text(self@, name@) == Ok::<Seq<char>, ErrorView>(t@),
                Err(e) => required_text(self@, name@) == Err::<Seq<char>, ErrorView>(e@),
            },
    {
        match self.text(name) {
            Some(t) => Ok(t),
            None => Err(Error::decode(name, "missing or not a text value")),
        }
    }

    /// The number called `name`, or an error that says it is missing.
    pub fn require_int(&self, name: &str) -> (r: Result<i32, Error>)
        ensures
            match r {
                Ok(n) => required_int(self@, name@) == Ok::<i32, ErrorView>(n),
                Err(e) => required_int(self@, name@) == Err::<i32, ErrorView>(e@),
            },
    {
        match self.integer(name) {
            Some(n) => Ok(n),
            None => Err(Error::decode(name, "missing or not an integer value")),
        }
    }
}

} // verus!
