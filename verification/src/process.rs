//! Process enumeration for game discovery.

use crate::conv::prop;
use crate::js::{
    add_item, array, fields_view, items_view, number, object, set_prop, text, JsField, JsValue,
    JsView,
};
use vstd::prelude::*;

verus! {

/// The text that UTF-16 stands for, where what is not valid is replaced.
pub uninterp spec fn utf16_lossy(units: Seq<u16>) -> Seq<char>;

/// Whether a unit stands for a character by itself.
pub open spec fn is_plain(unit: u16) -> bool {
    unit < 0xd800 || unit > 0xdfff
}

/// Whether every unit stands for a character by itself.
pub open spec fn all_plain(units: Seq<u16>) -> bool {
    forall|i: int| 0 <= i < units.len() ==> is_plain(#[trigger] units[i])
}

/// The characters that units stand for by themselves.
pub open spec fn plain_text(units: Seq<u16>) -> Seq<char> {
    Seq::new(units.len(), |i: int| units[i] as char)
}

/// Decodes UTF-16 with `String::from_utf16_lossy`. Units that stand for characters by themselves
/// are these characters. How pairs of units are put together and what is not valid is replaced is
/// not stated, but that it depends on the units alone.
#[verifier::external_body]
fn decode_utf16(units: &[u16]) -> (r: String)
    ensures
        r@ == utf16_lossy(units@),
        all_plain(units@) ==> r@ == plain_text(units@),
{
    String::from_utf16_lossy(units)
}

/// A process of a snapshot: its pid and the name of its file in a buffer, which ends at the first
/// zero if there is one.
#[derive(Debug)]
pub struct SnapshotEntry {
    pub pid: u32,
    pub exe_file: Vec<u16>,
}

/// A running process: pid and executable file name, without a path.
#[derive(Debug)]
pub struct ProcessEntry {
    pub pid: u32,
    pub name: String,
}

/// Where the name in a buffer ends.
pub open spec fn name_end(buffer: Seq<u16>) -> int
    decreases buffer.len(),
{
    if buffer.len() == 0 || buffer[0] == 0 {
        0
    } else {
        1 + name_end(buffer.drop_first())
    }
}

/// The name in a buffer.
pub open spec fn name_units(buffer: Seq<u16>) -> Seq<u16> {
    buffer.take(name_end(buffer))
}

/// The name in a buffer is everything before its first zero.
pub proof fn law_name_before_zero(buffer: Seq<u16>)
    ensures
        0 <= name_end(buffer) <= buffer.len(),
        !name_units(buffer).contains(0),
        name_end(buffer) < buffer.len() ==> buffer[name_end(buffer)] == 0,
    decreases buffer.len(),
{
    if buffer.len() > 0 && buffer[0] != 0 {
        let rest = buffer.drop_first();
        law_name_before_zero(rest);
        assert forall|i: int| 0 <= i < name_end(buffer) implies buffer[i] != 0 by {
            if i > 0 {
                assert(name_units(rest)[i - 1] == buffer[i]);
                assert(name_units(rest).contains(name_units(rest)[i - 1]));
            }
        }
    }
}

fn position_of_zero(buffer: &Vec<u16>) -> (r: usize)
    ensures
        r == name_end(buffer@),
{
    let mut i: usize = 0;
    assert(buffer@.skip(0) =~= buffer@);
    while i < buffer.len() && buffer[i] != 0
        invariant
            i <= buffer.len(),
            name_end(buffer@) == i + name_end(buffer@.skip(i as int)),
        decreases buffer.len() - i,
    {
        assert(buffer@.skip(i as int).drop_first() =~= buffer@.skip(i + 1));
        i += 1;
    }
    i
}

/// What is told of one process of a snapshot. A name whose units stand for characters by
/// themselves is these characters.
pub open spec fn listed(process: ProcessEntry, entry: SnapshotEntry) -> bool {
    let units = name_units(entry.exe_file@);
    &&& process.pid == entry.pid
    &&& process.name@ == utf16_lossy(units)
    &&& all_plain(units) ==> process.name@ == plain_text(units)
}

/// Gives the pid and the name of every process of a snapshot.
pub fn list_processes(entries: &Vec<SnapshotEntry>) -> (r: Vec<ProcessEntry>)
    ensures
        r@.len() == entries@.len(),
        forall|i: int| 0 <= i < r@.len() ==> listed(#[trigger] r@[i], entries@[i]),
{
    let mut processes: Vec<ProcessEntry> = Vec::new();
    let mut i: usize = 0;
    while i < entries.len()
        invariant
            i <= entries.len(),
            processes@.len() == i,
            forall|j: int| 0 <= j < i ==> listed(#[trigger] processes@[j], entries@[j]),
        decreases entries.len() - i,
    {
        let entry = &entries[i];
        let len: usize = position_of_zero(&entry.exe_file);
        proof {
            law_name_before_zero(entry.exe_file@);
        }
        let name = decode_utf16(vstd::slice::slice_subrange(entry.exe_file.as_slice(), 0, len));
        processes.push(ProcessEntry { pid: entry.pid, name });
        i += 1;
    }
    processes
}

pub open spec fn process_js(process: ProcessEntry) -> JsView {
    JsView::Object(
        seq![("pid"@, JsView::Int(process.pid as int)), ("name"@, JsView::Text(process.name@))],
    )
}

/// The list of processes as a script sees it.
pub fn list_processes_js(processes: &Vec<ProcessEntry>) -> (r: JsValue)
    ensures
        r.view() == JsView::Array(processes@.map_values(|p: ProcessEntry| process_js(p))),
{
    let mut items: Vec<JsValue> = Vec::new();
    let mut i: usize = 0;
    while i < processes.len()
        invariant
            i <= processes.len(),
            items_view(items@) == Seq::new(i as nat, |j: int| process_js(processes@[j])),
        decreases processes.len() - i,
    {
        let process = &processes[i];
        let mut obj: Vec<JsField> = Vec::new();
        set_prop(&mut obj, "pid", number(process.pid as i64));
        set_prop(&mut obj, "name", text(process.name.as_str()));
        assert(fields_view(obj@) =~= process_js(*process)->Object_0);
        add_item(&mut items, object(obj));
        i += 1;
        assert(items_view(items@) =~= Seq::new(i as nat, |j: int| process_js(processes@[j])));
    }
    assert(items_view(items@) =~= processes@.map_values(|p: ProcessEntry| process_js(p)));
    array(items)
}

/// A script is told the pid and the name of a process under these names.
pub proof fn law_process_told(process: ProcessEntry)
    ensures
        prop(process_js(process), "pid"@) == Some(JsView::Int(process.pid as int)),
        prop(process_js(process), "name"@) == Some(JsView::Text(process.name@)),
{
    reveal_strlit("pid");
    reveal_strlit("name");
    let fields = process_js(process)->Object_0;
    assert(fields[0].0 == "pid"@ && fields[1].0 == "name"@);
    assert("pid"@.len() != "name"@.len());
}

/// A unit stands for a character by itself exactly where it is no half of a pair, and a text of
/// such units has a character for each of them, with the unit's own number.
pub proof fn law_plain_units(units: Seq<u16>, i: int)
    requires
        0 <= i < units.len(),
        all_plain(units),
    ensures
        units[i] < 0xd800 || 0xdfff < units[i],
        plain_text(units).len() == units.len(),
        plain_text(units)[i] == units[i] as char,
{
    assert(is_plain(units[i]));
}

/// What is told of a process is its own pid, and the text of its name up to the first zero.
pub proof fn law_process_listed(process: ProcessEntry, entry: SnapshotEntry)
    requires
        listed(process, entry),
    ensures
        process.pid == entry.pid,
        process.name@ == utf16_lossy(name_units(entry.exe_file@)),
        forall|i: int|
            0 <= i < name_units(entry.exe_file@).len() ==> name_units(entry.exe_file@)[i]
                == entry.exe_file@[i] && entry.exe_file@[i] != 0,
        name_units(entry.exe_file@).len() < entry.exe_file@.len()
            ==> entry.exe_file@[name_units(entry.exe_file@).len() as int] == 0,
{
    let units = name_units(entry.exe_file@);
    law_name_before_zero(entry.exe_file@);
    assert forall|i: int| 0 <= i < units.len() implies units[i] == entry.exe_file@[i]
        && entry.exe_file@[i] != 0 by {
        assert(units.contains(units[i]));
    }
}

} // verus!
