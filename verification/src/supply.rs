//! The consumables a printer reports levels for.

use vstd::prelude::*;
use crate::lists::viewed;
use crate::text::{same_optional, view_of};

verus! {

/// How full a supply is.
#[derive(Debug, Clone, Copy, PartialEq, Eq, Structural)]
pub enum SupplyLevel {
    /// A percentage in 0..=100.
    Percent(u8),
    /// CUPS reports a negative level when it does not know.
    Unknown,
}

/// The level `marker-levels` stands for: unknown below zero, full at a hundred
/// and above.
pub open spec fn level_of(level: i32) -> SupplyLevel {
    if level < 0 {
        SupplyLevel::Unknown
    } else if level <= 100 {
        SupplyLevel::Percent(level as u8)
    } else {
        SupplyLevel::Percent(100)
    }
}

/// One consumable the printer reports a level for: a cartridge, a drum, a
/// waste tank.
#[derive(Debug, PartialEq, Eq)]
pub struct Supply {
    /// The printer's own name for it, such as `Black Cartridge`.
    pub name: String,
    /// What kind of supply it is - `toner`, `ink`, `wasteToner` - where the
    /// printer says.
    pub kind: Option<String>,
    /// Its colour as an sRGB hex string, where the printer says.
    pub colour: Option<String>,
    /// How much is left.
    pub level: SupplyLevel,
    /// The level at or below which the printer considers this supply low.
    pub low_threshold: Option<i32>,
}

/// A [`Supply`], with its texts as characters.
pub struct SupplyView {
    pub name: Seq<char>,
    pub kind: Option<Seq<char>>,
    pub colour: Option<Seq<char>>,
    pub level: SupplyLevel,
    pub low_threshold: Option<i32>,
}

impl View for Supply {
    type V = SupplyView;

    open spec fn view(&self) -> SupplyView {
        SupplyView {
            name: self.name@,
            kind: view_of(self.kind),
            colour: view_of(self.colour),
            level: self.level,
            low_threshold: self.low_threshold,
        }
    }
}

impl Clone for Supply {
    fn clone(&self) -> (r: Supply)
        ensures
            r@ == self@,
    {
        Supply {
            name: self.name.clone(),
            kind: self.kind.clone(),
            colour: self.colour.clone(),
            level: self.level,
            low_threshold: self.low_threshold,
        }
    }
}

/// The entry at `i`, where the list is that long.
pub open spec fn entry<T>(list: Seq<T>, i: int) -> Option<T> {
    if 0 <= i < list.len() {
        Some(list[i])
    } else {
        None
    }
}

/// The supplies that five parallel lists describe: one for each name that has
/// a level, with a kind, a colour and a threshold where those lists reach.
pub open spec fn supplies_of(
    names: Seq<Seq<char>>,
    levels: Seq<i32>,
    types: Seq<Seq<char>>,
    colours: Seq<Seq<char>>,
    low: Seq<i32>,
) -> Seq<SupplyView> {
    Seq::new(
        if names.len() <= levels.len() {
            names.len()
        } else {
            levels.len()
        },
        |i: int|
            SupplyView {
                name: names[i],
                kind: entry(types, i),
                colour: entry(colours, i),
                level: level_of(levels[i]),
                low_threshold: entry(low, i),
            },
    )
}

impl Supply {
    /// Pairs `names` with `levels` up to the shorter list's length.
    ///
    /// A length mismatch means cupsd sent a malformed marker attribute for
    /// this one queue. One bad attribute must not lose the printer, so this
    /// degrades to the overlapping prefix rather than failing.
    pub fn decode_list(
        names: &[String],
        levels: &[i32],
        types: &[String],
        colours: &[String],
        low: &[i32],
    ) -> (r: Vec<Supply>)
        ensures
            viewed(r@) == supplies_of(
                viewed(names@),
                levels@,
                viewed(types@),
                viewed(colours@),
                low@,
            ),
    {
        let mut out: Vec<Supply> = Vec::new();
        let ghost wanted = supplies_of(
            viewed(names@),
            levels@,
            viewed(types@),
            viewed(colours@),
            low@,
        );
        let mut i: usize = 0;
        while i < names.len() && i < levels.len()
            invariant
                i <= names.len(),
                i <= levels.len(),
                wanted == supplies_of(
                    viewed(names@),
                    levels@,
                    viewed(types@),
                    viewed(colours@),
                    low@,
                ),
                out.len() == i,
                forall|j: int| 0 <= j < i ==> out@[j]@ == wanted[j],
            decreases names.len() - i,
        {
            let supply = Supply {
                name: names[i].clone(),
                kind: if i < types.len() {
                    Some(types[i].clone())
                } else {
                    None
                },
                colour: if i < colours.len() {
                    Some(colours[i].clone())
                } else {
                    None
                },
                level: if levels[i] < 0 {
                    SupplyLevel::Unknown
                } else if levels[i] <= 100 {
                    SupplyLevel::Percent(levels[i] as u8)
                } else {
                    SupplyLevel::Percent(100)
                },
                low_threshold: if i < low.len() {
                    Some(low[i])
                } else {
                    None
                },
            };
            out.push(supply);
            i += 1;
        }
        assert(viewed(out@) =~= wanted);
        out
    }

    /// Whether two supplies are the same.
    pub fn same(&self, other: &Supply) -> (r: bool)
        ensures
            r == (self@ == other@),
    {
        self.name == other.name && same_optional(&self.kind, &other.kind) && same_optional(
            &self.colour,
            &other.colour,
        ) && self.level == other.level && same_number(self.low_threshold, other.low_threshold)
    }
}

/// Whether two numbers are the same, or both absent.
pub(crate) fn same_number(a: Option<i32>, b: Option<i32>) -> (r: bool)
    ensures
        r == (a == b),
{
    match (a, b) {
        (Some(x), Some(y)) => x == y,
        (None, None) => true,
        _ => false,
    }
}

/// Whether two lists hold the same supplies.
pub(crate) fn same_supplies(a: &Vec<Supply>, b: &Vec<Supply>) -> (r: bool)
    ensures
        r == (viewed(a@) == viewed(b@)),
{
    if a.len() != b.len() {
        assert(viewed(a@).len() != viewed(b@).len());
        return false;
    }
    let mut i: usize = 0;
    while i < a.len()
        invariant
            i <= a.len(),
            a.len() == b.len(),
            forall|j: int| 0 <= j < i ==> a@[j]@ == b@[j]@,
        decreases a.len() - i,
    {
        if !a[i].same(&b[i]) {
            assert(viewed(a@)[i as int] != viewed(b@)[i as int]);
            return false;
        }
        i += 1;
    }
    assert(viewed(a@) =~= viewed(b@));
    true
}

/// A level that is known is a percentage.
pub proof fn a_known_level_is_a_percentage(level: i32)
    ensures
        level_of(level) matches SupplyLevel::Percent(n) ==> n <= 100,
        level_of(level) is Unknown <==> level < 0,
{
}

/// There are as many supplies as the shorter of the lists of names and levels
/// is long, whatever the other lists hold.
pub proof fn supplies_go_as_far_as_names_and_levels(
    names: Seq<Seq<char>>,
    levels: Seq<i32>,
    types: Seq<Seq<char>>,
    colours: Seq<Seq<char>>,
    low: Seq<i32>,
)
    ensures
        ({
            let supplies = supplies_of(names, levels, types, colours, low);
            &&& supplies.len() <= names.len()
            &&& supplies.len() <= levels.len()
            &&& supplies.len() == names.len() || supplies.len() == levels.len()
        }),
{
}

} // verus!
