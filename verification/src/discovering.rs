//! What a reply to device discovery comes to, entry by entry.

use vstd::prelude::*;
use crate::device::{
    device_at, devices_of, digits_value, field_of, index_of, indexes_below, slot_of, unreported,
    DeviceView, Entry,
};
use crate::text::{decimal, last_position};

verus! {

/// The key of a device's field: the field, a colon and the device's index.
pub open spec fn key_of(field: Seq<char>, index: u32) -> Seq<char> {
    field + seq![':'] + decimal(index as nat)
}

/// A key names a field of a device exactly where it is the field, a colon and an
/// index that holds no colon.
pub proof fn a_key_is_a_field_and_an_index(key: Seq<char>, field: Seq<char>, tail: Seq<char>)
    ensures
        slot_of(key) matches Some((name, index)) ==> {
            let rest = key.skip(name.len() as int + 1);
            &&& key == name + seq![':'] + rest
            &&& !rest.contains(':')
            &&& index_of(rest) == Some(index)
        },
        !tail.contains(':') ==> (match index_of(tail) {
            Some(index) => slot_of(field + seq![':'] + tail) == Some((field, index)),
            None => slot_of(field + seq![':'] + tail) is None,
        }),
        !key.contains(':') ==> slot_of(key) is None,
{
    crate::text::lemma_last_position(key, ':');
    let colon = last_position(key, ':');
    if let Some((name, index)) = slot_of(key) {
        let rest = key.skip(name.len() as int + 1);
        assert(key =~= name + seq![':'] + rest);
        if rest.contains(':') {
            let k = choose|k: int| 0 <= k < rest.len() && rest[k] == ':';
            assert(key[colon + 1 + k] == ':');
        }
    }
    if colon >= 0 {
        assert(key.contains(key[colon]));
    }
    if !tail.contains(':') {
        let made = field + seq![':'] + tail;
        let n = field.len() as int;
        crate::text::lemma_last_position(made, ':');
        assert(made[n] == ':');
        let last = last_position(made, ':');
        if last > n {
            assert(made[last] == tail[last - n - 1]);
            assert(tail.contains(tail[last - n - 1]));
        }
        assert(made.skip(n + 1) =~= tail);
        assert(made.take(n) =~= field);
    }
}

/// An index is one or more digits that stand for no more than 32 bits hold, with
/// or without a plus sign before them.
pub proof fn an_index_is_digits(s: Seq<char>)
    ensures
        s.len() > 0 && s[0] != '+' ==> (match digits_value(s) {
            Some(n) if n < 0x1_0000_0000 => index_of(s) == Some(n as u32),
            _ => index_of(s) is None,
        }),
        s.len() > 0 && s[0] != '+' ==> index_of(seq!['+'] + s) == index_of(s),
        index_of(Seq::empty()) is None,
        index_of(seq!['+']) is None,
{
    assert((seq!['+'] + s).skip(1) =~= s);
    assert(seq!['+'].skip(1) =~= Seq::<char>::empty());
}

/// The last entry of a field counts: one more entry sets the field its key
/// names, and leaves every other as it was.
pub proof fn an_entry_sets_the_field_it_names(
    entries: Seq<Entry>,
    entry: Entry,
    field: Seq<char>,
    index: u32,
)
    ensures
        slot_of(entry.0) == Some((field, index)) ==> field_of(entries.push(entry), field, index)
            == entry.1,
        slot_of(entry.0) != Some((field, index)) ==> field_of(entries.push(entry), field, index)
            == field_of(entries, field, index),
        field_of(Seq::empty(), field, index).len() == 0,
{
    let all = entries.push(entry);
    assert(all.drop_last() =~= entries);
    assert(all.last() == entry);
}

/// The names of a device's fields are all different: each has a length of its own.
proof fn lemma_fields()
    ensures
        "device-uri"@.len() == 10,
        "device-class"@.len() == 12,
        "device-info"@.len() == 11,
        "device-make-and-model"@.len() == 21,
        "device-id"@.len() == 9,
        "device-location"@.len() == 15,
{
    reveal_strlit("device-uri");
    reveal_strlit("device-class");
    reveal_strlit("device-info");
    reveal_strlit("device-make-and-model");
    reveal_strlit("device-id");
    reveal_strlit("device-location");
}

/// An entry for a field of a device sets that part of that device, and leaves
/// the rest of it and every other device as they were.
pub proof fn an_entry_sets_one_part_of_one_device(
    entries: Seq<Entry>,
    index: u32,
    value: Seq<char>,
)
    ensures
        ({
            let before = device_at(entries, index);
            &&& device_at(entries.push((key_of("device-uri"@, index), value)), index) == (
            DeviceView { uri: value, ..before })
            &&& device_at(entries.push((key_of("device-class"@, index), value)), index) == (
            DeviceView { class: value, ..before })
            &&& device_at(entries.push((key_of("device-info"@, index), value)), index) == (
            DeviceView { info: value, ..before })
            &&& device_at(entries.push((key_of("device-make-and-model"@, index), value)), index)
                == (DeviceView { make_and_model: value, ..before })
            &&& device_at(entries.push((key_of("device-id"@, index), value)), index) == (
            DeviceView { device_id: value, ..before })
            &&& device_at(entries.push((key_of("device-location"@, index), value)), index) == (
            DeviceView { location: value, ..before })
        }),
{
    lemma_fields();
    lemma_one_part(entries, "device-uri"@, index, value);
    lemma_one_part(entries, "device-class"@, index, value);
    lemma_one_part(entries, "device-info"@, index, value);
    lemma_one_part(entries, "device-make-and-model"@, index, value);
    lemma_one_part(entries, "device-id"@, index, value);
    lemma_one_part(entries, "device-location"@, index, value);
}

proof fn lemma_one_part(entries: Seq<Entry>, field: Seq<char>, index: u32, value: Seq<char>)
    ensures
        forall|name: Seq<char>| #[trigger]
            field_of(entries.push((key_of(field, index), value)), name, index) == (if name
                == field {
                value
            } else {
                field_of(entries, name, index)
            }),
{
    crate::device::a_key_names_its_field_and_index(field, index);
    assert forall|name: Seq<char>| #[trigger]
        field_of(entries.push((key_of(field, index), value)), name, index) == (if name == field {
            value
        } else {
            field_of(entries, name, index)
        }) by {
        an_entry_sets_the_field_it_names(entries, (key_of(field, index), value), name, index);
    }
}

/// An entry changes no device but the one its key names: none where the key is
/// of no device or of another, or of a field that is not read.
pub proof fn an_entry_changes_no_other_device(entries: Seq<Entry>, entry: Entry, index: u32)
    requires
        match slot_of(entry.0) {
            None => true,
            Some((field, named)) => {
                ||| named != index
                ||| {
                    &&& field != "device-uri"@
                    &&& field != "device-class"@
                    &&& field != "device-info"@
                    &&& field != "device-make-and-model"@
                    &&& field != "device-id"@
                    &&& field != "device-location"@
                }
            },
        },
    ensures
        device_at(entries.push(entry), index) == device_at(entries, index),
{
    an_entry_sets_the_field_it_names(entries, entry, "device-uri"@, index);
    an_entry_sets_the_field_it_names(entries, entry, "device-class"@, index);
    an_entry_sets_the_field_it_names(entries, entry, "device-info"@, index);
    an_entry_sets_the_field_it_names(entries, entry, "device-make-and-model"@, index);
    an_entry_sets_the_field_it_names(entries, entry, "device-id"@, index);
    an_entry_sets_the_field_it_names(entries, entry, "device-location"@, index);
}

/// Before any entry every device is blank, and a blank one has nothing in it.
pub proof fn a_device_starts_blank(index: u32)
    ensures
        ({
            let device = device_at(Seq::empty(), index);
            &&& device.uri.len() == 0
            &&& device.class.len() == 0
            &&& device.info.len() == 0
            &&& device.make_and_model.len() == 0
            &&& device.device_id.len() == 0
            &&& device.location.len() == 0
            &&& device == unreported()
        }),
{
}

/// The devices of a reply are those with a URI.
pub proof fn a_device_is_found_by_its_uri(entries: Seq<Entry>, index: u32, device: DeviceView)
    ensures
        device_at(entries, index).uri.len() > 0 ==> devices_of(entries).contains(
            device_at(entries, index),
        ),
        devices_of(entries).contains(device) ==> device.uri.len() > 0 && exists|i: u32|
            device == #[trigger] device_at(entries, i),
{
    crate::device::devices_come_in_index_order(entries);
    let indexes = indexes_below(entries, u32::MAX + 1);
    if device_at(entries, index).uri.len() > 0 {
        assert(indexes.contains(index));
        let k = indexes.index_of(index);
        assert(indexes[k] == index);
        assert(devices_of(entries)[k] == device_at(entries, index));
    }
    if devices_of(entries).contains(device) {
        let k = devices_of(entries).index_of(device);
        crate::device::every_device_has_a_uri(entries, k);
        assert(devices_of(entries)[k] == device_at(entries, indexes[k]));
    }
}

} // verus!
