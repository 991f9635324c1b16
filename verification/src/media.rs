//! Media sizes by their self-describing names.

use vstd::prelude::*;
use crate::text::{
    characters, contains, has_substring, index_from, last_index, last_position, lemma_last_position,
    lemma_position_from, position_from,
};

verus! {

/// A media size named with the PWG self-describing scheme, as in
/// `iso_a4_210x297mm` - `class_name_dimensions`.
#[derive(Debug, PartialEq, Eq)]
pub struct MediaSize {
    /// The original keyword, which is what CUPS wants set back.
    pub keyword: String,
    /// The naming authority: `iso`, `na`, `jis`, `om` for vendor-defined,
    /// `custom` for the range markers that are not selectable sizes.
    pub class: String,
    /// The vendor's name for the size, such as `a4` or `letter`. Varies
    /// between printers for the same physical size, which is why
    /// [`MediaSize::dimensions`] is what should be compared.
    pub name: String,
    /// The dimension suffix, e.g. `210x297mm`.
    ///
    /// A size and its borderless twin always share this, while the name part
    /// varies by vendor - `a4` against `a-4`, `hagaki` against `postcard` - so
    /// this is the only reliable way to pair them.
    pub dimensions: String,
    /// Whether this is the borderless variant of the size.
    pub borderless: bool,
}

/// A [`MediaSize`], with its texts as characters.
pub struct MediaSizeView {
    pub keyword: Seq<char>,
    pub class: Seq<char>,
    pub name: Seq<char>,
    pub dimensions: Seq<char>,
    pub borderless: bool,
}

impl View for MediaSize {
    type V = MediaSizeView;

    open spec fn view(&self) -> MediaSizeView {
        MediaSizeView {
            keyword: self.keyword@,
            class: self.class@,
            name: self.name@,
            dimensions: self.dimensions@,
            borderless: self.borderless,
        }
    }
}

impl Clone for MediaSize {
    fn clone(&self) -> (r: MediaSize)
        ensures
            r@ == self@,
    {
        MediaSize {
            keyword: self.keyword.clone(),
            class: self.class.clone(),
            name: self.name.clone(),
            dimensions: self.dimensions.clone(),
            borderless: self.borderless,
        }
    }
}

/// The size a keyword names: its class runs to the first underscore, its
/// dimensions from the last, and its name between the two. None of the three
/// may be empty.
pub open spec fn size_of(keyword: Seq<char>) -> Option<MediaSizeView> {
    let first = position_from(keyword, '_', 0);
    let last = last_position(keyword, '_');
    if 0 < first && first + 1 < last && last + 1 < keyword.len() {
        let name = keyword.subrange(first + 1, last);
        Some(
            MediaSizeView {
                keyword,
                class: keyword.take(first),
                name,
                dimensions: keyword.skip(last + 1),
                borderless: has_substring(name, ".borderless"@),
            },
        )
    } else {
        None
    }
}

/// A size that is read back from its keyword spells the keyword out again.
pub proof fn a_size_spells_out_its_keyword(keyword: Seq<char>)
    requires
        size_of(keyword) is Some,
    ensures
        ({
            let size = size_of(keyword)->0;
            &&& size.keyword == keyword
            &&& keyword == size.class + seq!['_'] + size.name + seq!['_'] + size.dimensions
            &&& !size.class.contains('_')
            &&& !size.dimensions.contains('_')
        }),
{
    let first = position_from(keyword, '_', 0);
    let last = last_position(keyword, '_');
    lemma_position_from(keyword, '_', 0);
    lemma_last_position(keyword, '_');
    let size = size_of(keyword)->0;
    assert(keyword =~= size.class + seq!['_'] + size.name + seq!['_'] + size.dimensions);
    assert forall|i: int| 0 <= i < size.dimensions.len() implies size.dimensions[i] != '_' by {
        assert(size.dimensions[i] == keyword[last + 1 + i]);
    }
}

/// Every keyword put together from three parts is read back into them, so long
/// as none is empty and neither the class nor the dimensions hold an underscore.
pub proof fn a_spelled_out_keyword_reads_back(
    class: Seq<char>,
    name: Seq<char>,
    dimensions: Seq<char>,
)
    requires
        class.len() > 0,
        name.len() > 0,
        dimensions.len() > 0,
        !class.contains('_'),
        !dimensions.contains('_'),
    ensures
        ({
            let keyword = class + seq!['_'] + name + seq!['_'] + dimensions;
            size_of(keyword) matches Some(size) && size.class == class && size.name == name
                && size.dimensions == dimensions
        }),
{
    let keyword = class + seq!['_'] + name + seq!['_'] + dimensions;
    let first = position_from(keyword, '_', 0);
    let last = last_position(keyword, '_');
    lemma_position_from(keyword, '_', 0);
    lemma_last_position(keyword, '_');
    let a = class.len() as int;
    let b = (class.len() + 1 + name.len()) as int;
    assert(keyword[a] == '_');
    assert(keyword[b] == '_');
    assert forall|i: int| 0 <= i < a implies keyword[i] != '_' by {
        assert(class.contains(class[i]));
    }
    assert forall|i: int| b < i < keyword.len() implies keyword[i] != '_' by {
        assert(keyword[i] == dimensions[i - b - 1]);
        assert(dimensions.contains(dimensions[i - b - 1]));
    }
    assert(first == a);
    assert(last == b);
    let size = size_of(keyword)->0;
    assert(size.class =~= class);
    assert(size.name =~= name);
    assert(size.dimensions =~= dimensions);
}

impl MediaSize {
    /// `None` for anything not shaped like a PWG name.
    pub fn parse(keyword: &str) -> (r: Option<MediaSize>)
        ensures
            match r {
                Some(size) => size_of(keyword@) == Some(size@),
                None => size_of(keyword@) is None,
            },
    {
        let text = characters(keyword);
        let first: usize = index_from(&text, '_', 0);
        let last: usize = match last_index(&text, '_') {
            Some(last) => last,
            None => {
                return None;
            },
        };
        if first == 0 || last == 0 || first >= last - 1 || last >= text.len() - 1 {
            return None;
        }
        let name = keyword.substring_char(first + 1, last);
        Some(
            MediaSize {
                keyword: keyword.to_string(),
                class: keyword.substring_char(0, first).to_string(),
                name: name.to_string(),
                dimensions: keyword.substring_char(last + 1, text.len()).to_string(),
                borderless: contains(name, ".borderless"),
            },
        )
    }
}

} // verus!
