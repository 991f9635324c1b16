//! Printers discovered by the `cups-pk-helper` mechanism.

use vstd::prelude::*;
use crate::lists::viewed;
use crate::text::{
    characters, decimal, digit, last_index, last_position, lemma_last_position, same_text,
};

verus! {

/// A printer discovered by `DevicesGet`.
///
/// Fields the mechanism did not report are empty strings rather than options:
/// every one of them is descriptive text destined for a UI, and an absent
/// description and an empty one call for the same treatment.
#[derive(Debug, PartialEq, Eq)]
pub struct Device {
    /// The device URI, e.g. `ipp://printer.local/ipp/print`. Never empty: a
    /// device without one is dropped during decoding.
    pub uri: String,
    /// `network`, `direct`, `file`, or a backend-specific value.
    pub class: String,
    /// A description.
    pub info: String,
    /// The make and model.
    pub make_and_model: String,
    /// The IEEE-1284 device id.
    pub device_id: String,
    /// Where it is.
    pub location: String,
}

/// A [`Device`], with its texts as characters.
pub struct DeviceView {
    pub uri: Seq<char>,
    pub class: Seq<char>,
    pub info: Seq<char>,
    pub make_and_model: Seq<char>,
    pub device_id: Seq<char>,
    pub location: Seq<char>,
}

impl View for Device {
    type V = DeviceView;

    open spec fn view(&self) -> DeviceView {
        DeviceView {
            uri: self.uri@,
            class: self.class@,
            info: self.info@,
            make_and_model: self.make_and_model@,
            device_id: self.device_id@,
            location: self.location@,
        }
    }
}

impl Clone for Device {
    fn clone(&self) -> (r: Device)
        ensures
            r@ == self@,
    {
        Device {
            uri: self.uri.clone(),
            class: self.class.clone(),
            info: self.info.clone(),
            make_and_model: self.make_and_model.clone(),
            device_id: self.device_id.clone(),
            location: self.location.clone(),
        }
    }
}

/// A device of which nothing has been reported.
pub open spec fn unreported() -> DeviceView {
    DeviceView {
        uri: Seq::empty(),
        class: Seq::empty(),
        info: Seq::empty(),
        make_and_model: Seq::empty(),
        device_id: Seq::empty(),
        location: Seq::empty(),
    }
}

impl Default for Device {
    fn default() -> (r: Device)
        ensures
            r@ == unreported(),
    {
        Device {
            uri: String::new(),
            class: String::new(),
            info: String::new(),
            make_and_model: String::new(),
            device_id: String::new(),
            location: String::new(),
        }
    }
}

impl Device {
    /// Whether this is a network device, for grouping in an add-printer flow.
    pub fn is_network(&self) -> (r: bool)
        ensures
            r == (self.class@ == "network"@),
    {
        same_text(self.class.as_str(), "network")
    }
}

/// One entry of the mechanism's reply: a key and its value.
pub type Entry = (Seq<char>, Seq<char>);

/// The entries of a reply, as they are viewed.
pub open spec fn entries_of(raw: Seq<(String, String)>) -> Seq<Entry> {
    raw.map_values(|pair: (String, String)| (pair.0@, pair.1@))
}

/// The value of a decimal digit.
pub open spec fn digit_value(c: char) -> Option<nat> {
    if '0' <= c && c <= '9' {
        Some((c as nat - 48) as nat)
    } else {
        None
    }
}

/// The number a run of decimal digits stands for; none where any character is
/// not a digit.
pub open spec fn digits_value(s: Seq<char>) -> Option<nat>
    decreases s.len(),
{
    if s.len() == 0 {
        Some(0)
    } else {
        match (digits_value(s.drop_last()), digit_value(s.last())) {
            (Some(high), Some(low)) => Some(10 * high + low),
            _ => None,
        }
    }
}

/// The index a text stands for: one or more decimal digits, after an optional
/// plus sign, that fit in 32 bits.
pub open spec fn index_of(s: Seq<char>) -> Option<u32> {
    let digits = if s.len() > 0 && s[0] == '+' {
        s.skip(1)
    } else {
        s
    };
    if digits.len() == 0 {
        None
    } else {
        match digits_value(digits) {
            Some(n) if n <= u32::MAX => Some(n as u32),
            _ => None,
        }
    }
}

/// What a key names: the field before its last colon, of the device whose
/// index follows it.
pub open spec fn slot_of(key: Seq<char>) -> Option<(Seq<char>, u32)> {
    let colon = last_position(key, ':');
    if colon < 0 {
        None
    } else {
        match index_of(key.skip(colon + 1)) {
            Some(index) => Some((key.take(colon), index)),
            None => None,
        }
    }
}

/// The value of `field` of the device with this index: that of the last entry
/// that names it, empty where none does.
pub open spec fn field_of(entries: Seq<Entry>, field: Seq<char>, index: u32) -> Seq<char>
    decreases entries.len(),
{
    if entries.len() == 0 {
        Seq::empty()
    } else if slot_of(entries.last().0) == Some((field, index)) {
        entries.last().1
    } else {
        field_of(entries.drop_last(), field, index)
    }
}

/// The device with this index.
pub open spec fn device_at(entries: Seq<Entry>, index: u32) -> DeviceView {
    DeviceView {
        uri: field_of(entries, "device-uri"@, index),
        class: field_of(entries, "device-class"@, index),
        info: field_of(entries, "device-info"@, index),
        make_and_model: field_of(entries, "device-make-and-model"@, index),
        device_id: field_of(entries, "device-id"@, index),
        location: field_of(entries, "device-location"@, index),
    }
}

/// The devices with an index below `bound`, in the order of their indexes,
/// leaving out those without a URI.
pub open spec fn devices_below(entries: Seq<Entry>, bound: int) -> Seq<DeviceView>
    decreases bound,
{
    if bound <= 0 {
        Seq::empty()
    } else {
        let before = devices_below(entries, bound - 1);
        let device = device_at(entries, (bound - 1) as u32);
        if device.uri.len() > 0 {
            before.push(device)
        } else {
            before
        }
    }
}

/// The devices a reply describes.
pub open spec fn devices_of(entries: Seq<Entry>) -> Seq<DeviceView> {
    devices_below(entries, u32::MAX + 1)
}

/// The indexes below `bound` whose device has a URI, from the lowest up.
pub open spec fn indexes_below(entries: Seq<Entry>, bound: int) -> Seq<u32>
    decreases bound,
{
    if bound <= 0 {
        Seq::empty()
    } else {
        let before = indexes_below(entries, bound - 1);
        if device_at(entries, (bound - 1) as u32).uri.len() > 0 {
            before.push((bound - 1) as u32)
        } else {
            before
        }
    }
}

/// No two entries name the same field of the same device.
pub open spec fn unambiguous(entries: Seq<Entry>) -> bool {
    forall|i: int, j: int|
        0 <= i < j < entries.len() && slot_of((#[trigger] entries[i]).0) is Some ==> slot_of(
            entries[i].0,
        ) != slot_of((#[trigger] entries[j]).0)
}

/// More digits never make a number smaller.
proof fn lemma_digits_grow(s: Seq<char>, cut: int)
    requires
        0 <= cut <= s.len(),
        digits_value(s) is Some,
    ensures
        digits_value(s.take(cut)) is Some,
        digits_value(s.take(cut))->0 <= digits_value(s)->0,
    decreases s.len(),
{
    if cut == s.len() {
        assert(s.take(cut) =~= s);
    } else {
        lemma_digits_grow(s.drop_last(), cut);
        assert(s.drop_last().take(cut) =~= s.take(cut));
    }
}

/// The index a text stands for.
fn parse_index(s: &Vec<char>, from: usize) -> (r: Option<u32>)
    requires
        from <= s.len(),
    ensures
        r == index_of(s@.skip(from as int)),
{
    let ghost whole = s@.skip(from as int);
    let start: usize = if from < s.len() && s[from] == '+' {
        from + 1
    } else {
        from
    };
    let ghost digits = s@.skip(start as int);
    assert(digits =~= if whole.len() > 0 && whole[0] == '+' {
        whole.skip(1)
    } else {
        whole
    });
    if start == s.len() {
        return None;
    }
    let mut value: u64 = 0;
    let mut i: usize = start;
    assert(digits.take(0) =~= Seq::empty());
    while i < s.len()
        invariant
            start <= i <= s.len(),
            start < s.len(),
            digits == s@.skip(start as int),
            whole == s@.skip(from as int),
            digits == (if whole.len() > 0 && whole[0] == '+' {
                whole.skip(1)
            } else {
                whole
            }),
            digits_value(digits.take(i - start)) == Some(value as nat),
            value <= u32::MAX,
        decreases s.len() - i,
    {
        let c = s[i];
        proof {
            assert(digits.take(i + 1 - start).drop_last() =~= digits.take(i - start));
            assert(digits.take(i + 1 - start).last() == c);
            if digits_value(digits) is Some {
                lemma_digits_grow(digits, i + 1 - start);
            }
        }
        if !('0' <= c && c <= '9') {
            return None;
        }
        value = 10 * value + (c as u64 - 48);
        if value > u32::MAX as u64 {
            return None;
        }
        i += 1;
    }
    assert(digits.take(i - start) =~= digits);
    Some(value as u32)
}

/// What a key names.
fn parse_key(key: &str) -> (r: Option<(String, u32)>)
    ensures
        match r {
            Some((field, index)) => slot_of(key@) == Some((field@, index)),
            None => slot_of(key@) is None,
        },
{
    let text = characters(key);
    match last_index(&text, ':') {
        Some(colon) => match parse_index(&text, colon + 1) {
            Some(index) => Some((key.substring_char(0, colon).to_string(), index)),
            None => None,
        },
        None => None,
    }
}

/// The devices being put together, each with its index.
type Table = Vec<(u32, Device)>;

/// `table` holds the devices that `entries` describe: in the order of their
/// indexes, each once, and every one of which anything is reported.
spec fn holds(table: Seq<(u32, Device)>, entries: Seq<Entry>) -> bool {
    &&& forall|i: int, j: int| 0 <= i < j < table.len() ==> table[i].0 < table[j].0
    &&& forall|i: int|
        0 <= i < table.len() ==> (#[trigger] table[i]).1@ == device_at(entries, table[i].0)
    &&& forall|index: u32|
        (forall|i: int| 0 <= i < table.len() ==> (#[trigger] table[i]).0 != index)
            ==> #[trigger] device_at(entries, index) == unreported()
}

/// Where `index` stands in the table, or would.
fn position(table: &Table, index: u32) -> (r: usize)
    requires
        forall|i: int, j: int| 0 <= i < j < table.len() ==> table@[i].0 < table@[j].0,
    ensures
        r <= table.len(),
        forall|i: int| 0 <= i < r ==> (#[trigger] table@[i]).0 < index,
        forall|i: int| r <= i < table.len() ==> (#[trigger] table@[i]).0 >= index,
{
    let mut at: usize = 0;
    while at < table.len()
        invariant
            at <= table.len(),
            forall|i: int, j: int| 0 <= i < j < table.len() ==> table@[i].0 < table@[j].0,
            forall|i: int| 0 <= i < at ==> (#[trigger] table@[i]).0 < index,
        decreases table.len() - at,
    {
        if table[at].0 >= index {
            return at;
        }
        at += 1;
    }
    at
}

/// `device` with one field set, or as it was where the field is not one of a
/// device's.
spec fn with_field(device: DeviceView, field: Seq<char>, value: Seq<char>) -> DeviceView {
    if field == "device-uri"@ {
        DeviceView { uri: value, ..device }
    } else if field == "device-class"@ {
        DeviceView { class: value, ..device }
    } else if field == "device-info"@ {
        DeviceView { info: value, ..device }
    } else if field == "device-make-and-model"@ {
        DeviceView { make_and_model: value, ..device }
    } else if field == "device-id"@ {
        DeviceView { device_id: value, ..device }
    } else if field == "device-location"@ {
        DeviceView { location: value, ..device }
    } else {
        device
    }
}

/// The field names differ from each other.
proof fn lemma_field_names()
    ensures
        "device-uri"@ != "device-class"@,
        "device-uri"@ != "device-info"@,
        "device-uri"@ != "device-make-and-model"@,
        "device-uri"@ != "device-id"@,
        "device-uri"@ != "device-location"@,
        "device-class"@ != "device-info"@,
        "device-class"@ != "device-make-and-model"@,
        "device-class"@ != "device-id"@,
        "device-class"@ != "device-location"@,
        "device-info"@ != "device-make-and-model"@,
        "device-info"@ != "device-id"@,
        "device-info"@ != "device-location"@,
        "device-make-and-model"@ != "device-id"@,
        "device-make-and-model"@ != "device-location"@,
        "device-id"@ != "device-location"@,
{
    reveal_strlit("device-uri");
    reveal_strlit("device-class");
    reveal_strlit("device-info");
    reveal_strlit("device-make-and-model");
    reveal_strlit("device-id");
    reveal_strlit("device-location");
    assert("device-uri"@[7] != "device-class"@[7]);
    assert("device-uri"@[7] != "device-info"@[7]);
    assert("device-uri"@[7] != "device-make-and-model"@[7]);
    assert("device-uri"@[7] != "device-id"@[7]);
    assert("device-uri"@[7] != "device-location"@[7]);
    assert("device-class"@[7] != "device-info"@[7]);
    assert("device-class"@[7] != "device-make-and-model"@[7]);
    assert("device-class"@[7] != "device-id"@[7]);
    assert("device-class"@[7] != "device-location"@[7]);
    assert("device-info"@[7] != "device-make-and-model"@[7]);
    assert("device-info"@.len() != "device-id"@.len());
    assert("device-info"@[7] != "device-location"@[7]);
    assert("device-make-and-model"@[7] != "device-id"@[7]);
    assert("device-make-and-model"@[7] != "device-location"@[7]);
    assert("device-id"@[7] != "device-location"@[7]);
}

/// One more entry changes one field of one device, or nothing.
proof fn lemma_one_more(entries: Seq<Entry>, entry: Entry, index: u32)
    ensures
        device_at(entries.push(entry), index) == (match slot_of(entry.0) {
            Some((field, at)) => if at == index {
                with_field(device_at(entries, index), field, entry.1)
            } else {
                device_at(entries, index)
            },
            None => device_at(entries, index),
        }),
{
    lemma_field_names();
    assert(entries.push(entry).drop_last() =~= entries);
    assert(entries.push(entry).last() == entry);
}

/// Sets one field of a device.
fn set_field(device: &mut Device, field: &str, value: String)
    ensures
        final(device)@ == with_field(old(device)@, field@, value@),
{
    if same_text(field, "device-uri") {
        device.uri = value;
    } else if same_text(field, "device-class") {
        device.class = value;
    } else if same_text(field, "device-info") {
        device.info = value;
    } else if same_text(field, "device-make-and-model") {
        device.make_and_model = value;
    } else if same_text(field, "device-id") {
        device.device_id = value;
    } else if same_text(field, "device-location") {
        device.location = value;
    }
}

/// Takes one more entry into the table.
fn record(
    table: &mut Table,
    field: String,
    index: u32,
    value: String,
    Ghost(entries): Ghost<Seq<Entry>>,
    Ghost(key): Ghost<Seq<char>>,
)
    requires
        holds(old(table)@, entries),
        slot_of(key) == Some((field@, index)),
    ensures
        holds(final(table)@, entries.push((key, value@))),
{
    let at: usize = position(table, index);
    let ghost before = table@;
    let ghost after = entries.push((key, value@));
    let ghost value_text = value@;
    proof {
        assert forall|n: u32| #[trigger] device_at(after, n) == (if n == index {
            with_field(device_at(entries, n), field@, value@)
        } else {
            device_at(entries, n)
        }) by {
            lemma_one_more(entries, (key, value@), n);
        }
    }
    if at < table.len() && table[at].0 == index {
        let mut device = table[at].1.clone();
        set_field(&mut device, field.as_str(), value);
        table.set(at, (index, device));
        proof {
            assert forall|n: u32|
                (forall|i: int| 0 <= i < table@.len() ==> (#[trigger] table@[i]).0 != n)
                implies #[trigger] device_at(after, n) == unreported() by {
                assert(table@[at as int].0 == index);
                assert forall|i: int| 0 <= i < before.len() implies (#[trigger] before[i]).0
                    != n by {
                    assert(table@[i].0 == before[i].0);
                }
            }
        }
    } else {
        assert forall|i: int| 0 <= i < before.len() implies (#[trigger] before[i]).0 != index by {
            if i > at {
                assert(before[at as int].0 < before[i].0);
            }
        }
        let mut device = Device::default();
        set_field(&mut device, field.as_str(), value);
        table.insert(at, (index, device));
        proof {
            assert forall|i: int, j: int| 0 <= i < j < table@.len() implies table@[i].0
                < table@[j].0 by {
                if j < at {
                } else if j == at {
                    assert(before[i].0 < index);
                } else if i < at {
                    assert(before[i].0 < before[j - 1].0);
                } else if i == at {
                    assert(before[j - 1].0 >= index);
                } else {
                    assert(before[i - 1].0 < before[j - 1].0);
                }
            }
            assert forall|n: u32|
                (forall|i: int| 0 <= i < table@.len() ==> (#[trigger] table@[i]).0 != n)
                implies #[trigger] device_at(after, n) == unreported() by {
                assert(table@[at as int].0 == index);
                assert forall|i: int| 0 <= i < before.len() implies (#[trigger] before[i]).0
                    != n by {
                    if i < at {
                        assert(table@[i].0 == before[i].0);
                    } else {
                        assert(table@[i + 1].0 == before[i].0);
                    }
                }
            }
            assert forall|i: int| 0 <= i < table@.len() implies (#[trigger] table@[i]).1@
                == device_at(after, table@[i].0) by {
                if i < at {
                    assert(table@[i] == before[i]);
                } else if i > at {
                    assert(table@[i] == before[i - 1]);
                }
            }
        }
    }
}

/// Where nothing is reported of any index in a range, no device is there.
proof fn lemma_nothing_between(entries: Seq<Entry>, low: int, high: int)
    requires
        0 <= low <= high <= u32::MAX + 1,
        forall|index: u32|
            low <= index < high ==> #[trigger] device_at(entries, index) == unreported(),
    ensures
        devices_below(entries, high) == devices_below(entries, low),
    decreases high - low,
{
    if low < high {
        lemma_nothing_between(entries, low, high - 1);
        assert(device_at(entries, (high - 1) as u32) == unreported());
    }
}

/// The devices in the table that have a URI.
fn addressable(table: Table, Ghost(entries): Ghost<Seq<Entry>>) -> (r: Vec<Device>)
    requires
        holds(table@, entries),
    ensures
        viewed(r@) == devices_of(entries),
{
    let mut out: Vec<Device> = Vec::new();
    let ghost mut reached: int = 0;
    let mut i: usize = 0;
    assert(viewed(out@) =~= Seq::empty());
    while i < table.len()
        invariant
            i <= table.len(),
            holds(table@, entries),
            0 <= reached <= u32::MAX + 1,
            i == 0 ==> reached == 0,
            i > 0 ==> reached == table@[i - 1].0 + 1,
            viewed(out@) == devices_below(entries, reached),
        decreases table.len() - i,
    {
        let ghost next = table@[i as int].0 as int;
        proof {
            assert forall|n: u32| reached <= n < next implies #[trigger] device_at(entries, n)
                == unreported() by {
                assert forall|j: int| 0 <= j < table@.len() implies (#[trigger] table@[j]).0
                    != n by {
                    if j < i - 1 {
                        assert(table@[j].0 < table@[i - 1].0);
                    } else if j > i {
                        assert(table@[i as int].0 < table@[j].0);
                    }
                }
            }
            if i > 0 {
                assert(table@[i - 1].0 < table@[i as int].0);
            }
            lemma_nothing_between(entries, reached, next);
            assert(table@[i as int].1@ == device_at(entries, table@[i as int].0));
            assert(devices_below(entries, next + 1) == (if device_at(
                entries,
                next as u32,
            ).uri.len() > 0 {
                devices_below(entries, next).push(device_at(entries, next as u32))
            } else {
                devices_below(entries, next)
            }));
        }
        let ghost before = out@;
        if !table[i].1.uri.as_str().is_empty() {
            let device = table[i].1.clone();
            out.push(device);
            assert(viewed(out@) =~= viewed(before).push(device@));
        }
        proof {
            reached = next + 1;
        }
        i += 1;
    }
    proof {
        assert forall|n: u32| reached <= n < u32::MAX + 1 implies #[trigger] device_at(entries, n)
            == unreported() by {
            assert forall|j: int| 0 <= j < table@.len() implies (#[trigger] table@[j]).0 != n by {
                if j < i - 1 {
                    assert(table@[j].0 < table@[i - 1].0);
                }
            }
        }
        lemma_nothing_between(entries, reached, u32::MAX + 1);
    }
    out
}

/// Decodes `DevicesGet`'s flat, index-suffixed reply.
///
/// The mechanism emits keys as `device-uri:0`, `device-class:0`, `device-uri:1`
/// and so on, so records are recovered by grouping on the suffix after the
/// final colon. The caller gets the devices in the order of their indexes,
/// which the wire format does not itself provide.
pub fn decode_devices(raw: Vec<(String, String)>) -> (r: Vec<Device>)
    ensures
        viewed(r@) == devices_of(entries_of(raw@)),
{
    let mut table: Table = Vec::new();
    let ghost all = entries_of(raw@);
    let mut i: usize = 0;
    assert(all.take(0) =~= Seq::empty());
    while i < raw.len()
        invariant
            i <= raw.len(),
            all == entries_of(raw@),
            holds(table@, all.take(i as int)),
        decreases raw.len() - i,
    {
        proof {
            assert(all.take(i + 1) =~= all.take(i as int).push(all[i as int]));
            assert(all[i as int] == (raw@[i as int].0@, raw@[i as int].1@));
        }
        match parse_key(raw[i].0.as_str()) {
            Some((field, index)) => {
                let value = raw[i].1.clone();
                let ghost key = raw@[i as int].0@;
                record(&mut table, field, index, value, Ghost(all.take(i as int)), Ghost(key));
            },
            None => {
                proof {
                    assert forall|n: u32| #[trigger] device_at(all.take(i + 1), n) == device_at(
                        all.take(i as int),
                        n,
                    ) by {
                        lemma_one_more(all.take(i as int), all[i as int], n);
                    }
                }
            },
        }
        i += 1;
    }
    assert(all.take(i as int) =~= all);
    addressable(table, Ghost(all))
}

/// Every device that is decoded has a URI to address it by.
pub proof fn every_device_has_a_uri(entries: Seq<Entry>, i: int)
    requires
        0 <= i < devices_of(entries).len(),
    ensures
        devices_of(entries)[i].uri.len() > 0,
{
    lemma_devices_below(entries, u32::MAX + 1);
    assert(devices_of(entries)[i] == device_at(
        entries,
        indexes_below(entries, u32::MAX + 1)[i],
    ));
}

/// Devices come in the order of their indexes, and none that has a URI is left
/// out: one list of indexes goes with the devices, rises, and holds exactly the
/// indexes under which a URI is reported.
pub proof fn devices_come_in_index_order(entries: Seq<Entry>)
    ensures
        ({
            let indexes = indexes_below(entries, u32::MAX + 1);
            &&& indexes.len() == devices_of(entries).len()
            &&& forall|i: int|
                0 <= i < indexes.len() ==> devices_of(entries)[i] == device_at(
                    entries,
                    #[trigger] indexes[i],
                )
            &&& forall|i: int, j: int| 0 <= i < j < indexes.len() ==> indexes[i] < indexes[j]
            &&& forall|index: u32| #[trigger]
                indexes.contains(index) <==> device_at(entries, index).uri.len() > 0
        }),
{
    lemma_devices_below(entries, u32::MAX + 1);
}

proof fn lemma_devices_below(entries: Seq<Entry>, bound: int)
    requires
        0 <= bound <= u32::MAX + 1,
    ensures
        ({
            let indexes = indexes_below(entries, bound);
            let devices = devices_below(entries, bound);
            &&& indexes.len() == devices.len()
            &&& forall|i: int|
                0 <= i < indexes.len() ==> devices[i] == device_at(entries, #[trigger] indexes[i])
                    && indexes[i] < bound && devices[i].uri.len() > 0
            &&& forall|i: int, j: int| 0 <= i < j < indexes.len() ==> indexes[i] < indexes[j]
            &&& forall|index: u32| #[trigger]
                indexes.contains(index) <==> index < bound && device_at(entries, index).uri.len()
                    > 0
        }),
    decreases bound,
{
    if bound > 0 {
        lemma_devices_below(entries, bound - 1);
        let before = indexes_below(entries, bound - 1);
        let indexes = indexes_below(entries, bound);
        assert forall|index: u32| #[trigger] indexes.contains(index) <==> index < bound
            && device_at(entries, index).uri.len() > 0 by {
            assert(before.contains(index) <==> index < bound - 1 && device_at(
                entries,
                index,
            ).uri.len() > 0);
            if before.contains(index) {
                let i = before.index_of(index);
                assert(indexes[i] == index);
            }
            if device_at(entries, (bound - 1) as u32).uri.len() > 0 {
                assert(indexes[indexes.len() - 1] == (bound - 1) as u32);
            }
            if indexes.contains(index) {
                let i = indexes.index_of(index);
                if i < before.len() {
                    assert(before[i] == index);
                }
            }
        }
    } else {
        assert(indexes_below(entries, bound) =~= Seq::empty());
    }
}

/// The order in which a dictionary is walked does not matter: two replies that
/// hold the same entries describe the same devices, so long as neither names a
/// field of a device twice.
pub proof fn order_of_entries_does_not_matter(entries: Seq<Entry>, other: Seq<Entry>)
    requires
        unambiguous(entries),
        unambiguous(other),
        forall|entry: Entry| #[trigger] entries.contains(entry) <==> other.contains(entry),
    ensures
        devices_of(entries) == devices_of(other),
{
    assert forall|index: u32| #[trigger] device_at(entries, index) == device_at(
        other,
        index,
    ) by {
        lemma_same_field(entries, other, "device-uri"@, index);
        lemma_same_field(entries, other, "device-class"@, index);
        lemma_same_field(entries, other, "device-info"@, index);
        lemma_same_field(entries, other, "device-make-and-model"@, index);
        lemma_same_field(entries, other, "device-id"@, index);
        lemma_same_field(entries, other, "device-location"@, index);
    }
    lemma_same_devices(entries, other, u32::MAX + 1);
}

proof fn lemma_same_devices(entries: Seq<Entry>, other: Seq<Entry>, bound: int)
    requires
        0 <= bound <= u32::MAX + 1,
        forall|index: u32| #[trigger] device_at(entries, index) == device_at(other, index),
    ensures
        devices_below(entries, bound) == devices_below(other, bound),
    decreases bound,
{
    if bound > 0 {
        lemma_same_devices(entries, other, bound - 1);
        assert(device_at(entries, (bound - 1) as u32) == device_at(other, (bound - 1) as u32));
    }
}

/// A field has the value of an entry that names it, or none does.
proof fn lemma_field(entries: Seq<Entry>, field: Seq<char>, index: u32)
    ensures
        (exists|i: int|
            0 <= i < entries.len() && slot_of((#[trigger] entries[i]).0) == Some((field, index))
                && entries[i].1 == field_of(entries, field, index)) || (field_of(
            entries,
            field,
            index,
        ) == Seq::<char>::empty() && forall|i: int|
            0 <= i < entries.len() ==> slot_of((#[trigger] entries[i]).0) != Some((field, index))),
    decreases entries.len(),
{
    if entries.len() > 0 {
        if slot_of(entries.last().0) == Some((field, index)) {
            assert(entries[entries.len() - 1] == entries.last());
        } else {
            let rest = entries.drop_last();
            lemma_field(rest, field, index);
            if exists|i: int|
                0 <= i < rest.len() && slot_of((#[trigger] rest[i]).0) == Some((field, index))
                    && rest[i].1 == field_of(rest, field, index) {
                let i = choose|i: int|
                    0 <= i < rest.len() && slot_of((#[trigger] rest[i]).0) == Some((field, index))
                        && rest[i].1 == field_of(rest, field, index);
                assert(entries[i] == rest[i]);
            } else {
                assert forall|i: int| 0 <= i < entries.len() implies slot_of(
                    (#[trigger] entries[i]).0,
                ) != Some((field, index)) by {
                    if i < rest.len() {
                        assert(rest[i] == entries[i]);
                    }
                }
            }
        }
    }
}

proof fn lemma_same_field(
    entries: Seq<Entry>,
    other: Seq<Entry>,
    field: Seq<char>,
    index: u32,
)
    requires
        unambiguous(entries),
        unambiguous(other),
        forall|entry: Entry| #[trigger] entries.contains(entry) <==> other.contains(entry),
    ensures
        field_of(entries, field, index) == field_of(other, field, index),
{
    lemma_field(entries, field, index);
    lemma_field(other, field, index);
    if exists|i: int|
        0 <= i < entries.len() && slot_of((#[trigger] entries[i]).0) == Some((field, index))
            && entries[i].1 == field_of(entries, field, index) {
        let i = choose|i: int|
            0 <= i < entries.len() && slot_of((#[trigger] entries[i]).0) == Some((field, index))
                && entries[i].1 == field_of(entries, field, index);
        assert(entries.contains(entries[i]));
        let k = other.index_of(entries[i]);
        assert(other[k] == entries[i]);
        let j = choose|j: int|
            0 <= j < other.len() && slot_of((#[trigger] other[j]).0) == Some((field, index))
                && other[j].1 == field_of(other, field, index);
        assert(slot_of(other[j].0) == slot_of(other[k].0));
        if j < k {
            assert(slot_of(other[j].0) != slot_of(other[k].0));
        }
        if k < j {
            assert(slot_of(other[k].0) != slot_of(other[j].0));
        }
        assert(j == k);
    } else {
        assert forall|j: int| 0 <= j < other.len() implies slot_of((#[trigger] other[j]).0)
            != Some((field, index)) by {
            assert(other.contains(other[j]));
            assert(entries.contains(other[j]));
            let i = entries.index_of(other[j]);
            assert(entries[i] == other[j]);
        }
    }
}

/// A number in decimal is read back as that number.
pub proof fn lemma_digits_read_back(n: nat)
    ensures
        digits_value(decimal(n)) == Some(n),
        decimal(n).len() > 0,
        forall|i: int| 0 <= i < decimal(n).len() ==> '0' <= #[trigger] decimal(n)[i] <= '9',
    decreases n,
{
    let last = digit(n % 10);
    assert(last as nat == n % 10 + 48);
    assert(digit_value(last) == Some(n % 10));
    reveal_with_fuel(digits_value, 2);
    if n < 10 {
        assert(decimal(n).drop_last() =~= Seq::empty());
        assert(decimal(n).last() == last);
    } else {
        lemma_digits_read_back(n / 10);
        assert(decimal(n).drop_last() =~= decimal(n / 10));
        assert(decimal(n).last() == last);
        assert forall|i: int| 0 <= i < decimal(n).len() implies '0' <= #[trigger] decimal(n)[i]
            <= '9' by {
            if i < decimal(n / 10).len() {
                assert(decimal(n)[i] == decimal(n / 10)[i]);
            }
        }
    }
}

/// A key made of a field, a colon and an index names that field of the device
/// with that index, whatever the field is.
pub proof fn a_key_names_its_field_and_index(field: Seq<char>, index: u32)
    ensures
        slot_of(field + seq![':'] + decimal(index as nat)) == Some((field, index)),
{
    lemma_digits_read_back(index as nat);
    let digits = decimal(index as nat);
    let key = field + seq![':'] + digits;
    lemma_last_position(key, ':');
    assert(key[field.len() as int] == ':');
    assert forall|i: int| field.len() < i < key.len() implies key[i] != ':' by {
        assert(key[i] == digits[i - field.len() - 1]);
    }
    assert(last_position(key, ':') == field.len());
    assert(key.skip(field.len() as int + 1) =~= digits);
    assert(key.take(field.len() as int) =~= field);
    assert(digits[0] != '+');
}

} // verus!
