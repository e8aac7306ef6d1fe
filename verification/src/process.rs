//! The directory of running processes: what a snapshot of it holds, and how a
//! process is found in it by the exact name of its image.

use crate::err::{Error, ErrorView};
use vstd::array::array_as_slice;
use vstd::prelude::*;
use vstd::slice::slice_to_vec;
use vstd::string::*;
use vstd::utf8::{
    decode_utf8, encode_utf8, encode_utf8_decode_utf8, encode_utf8_valid_utf8, valid_utf8,
};

verus! {

/// One process of a snapshot, as the operating system reports it: its id, and
/// the buffer that holds its image name, padded with NUL bytes.
#[derive(Debug, PartialEq, Eq)]
pub struct ProcessEntry {
    pub pid: u32,
    pub image_name: Vec<u8>,
}

/// What a [`ProcessEntry`] holds, as a mathematical value.
pub struct ProcessEntryView {
    pub pid: u32,
    pub image_name: Seq<u8>,
}

impl View for ProcessEntry {
    type V = ProcessEntryView;

    open spec fn view(&self) -> ProcessEntryView {
        ProcessEntryView { pid: self.pid, image_name: self.image_name@ }
    }
}

/// One process of a snapshot, with its image name as text.
#[derive(Debug, PartialEq, Eq)]
pub struct ProcessRecord {
    pub pid: u32,
    pub name: String,
}

/// What a [`ProcessRecord`] holds, as a mathematical value.
pub struct ProcessRecordView {
    pub pid: u32,
    pub name: Seq<char>,
}

impl View for ProcessRecord {
    type V = ProcessRecordView;

    open spec fn view(&self) -> ProcessRecordView {
        ProcessRecordView { pid: self.pid, name: self.name@ }
    }
}

/// The text that `String::from_utf8_lossy` makes of a sequence of bytes: the
/// text that they encode, with U+FFFD in place of each ill-formed stretch.
pub uninterp spec fn utf8_lossy(bytes: Seq<u8>) -> Seq<char>;

/// `text` without the NUL characters at its end.
pub open spec fn without_trailing_nuls(text: Seq<char>) -> Seq<char>
    decreases text.len(),
{
    if text.len() > 0 && text.last() == '\0' {
        without_trailing_nuls(text.drop_last())
    } else {
        text
    }
}

/// The text that a sequence of bytes is read as: the text that it encodes
/// where it is well-formed UTF-8, and what [`utf8_lossy`] makes of it where
/// it is not.
pub open spec fn decoded_text(bytes: Seq<u8>) -> Seq<char> {
    if valid_utf8(bytes) {
        decode_utf8(bytes)
    } else {
        utf8_lossy(bytes)
    }
}

/// `count` NUL characters.
pub open spec fn nuls(count: nat) -> Seq<char> {
    Seq::new(count, |i: int| '\0')
}

/// The image name that a NUL-padded buffer holds.
pub open spec fn image_name_of(buffer: Seq<u8>) -> Seq<char> {
    without_trailing_nuls(decoded_text(buffer))
}

/// The records that a snapshot of raw entries stands for, in the same order.
pub open spec fn records_of(entries: Seq<ProcessEntryView>) -> Seq<ProcessRecordView> {
    Seq::new(
        entries.len(),
        |i: int| ProcessRecordView { pid: entries[i].pid, name: image_name_of(entries[i].image_name) },
    )
}

/// The views of a vector of entries.
pub open spec fn entry_views(entries: Seq<ProcessEntry>) -> Seq<ProcessEntryView> {
    Seq::new(entries.len(), |i: int| entries[i]@)
}

/// The views of a vector of records.
pub open spec fn record_views(records: Seq<ProcessRecord>) -> Seq<ProcessRecordView> {
    Seq::new(records.len(), |i: int| records[i]@)
}

/// The id of the first record whose name is exactly `target`, if there is one.
pub open spec fn first_with_name(records: Seq<ProcessRecordView>, target: Seq<char>) -> Option<u32>
    decreases records.len(),
{
    if records.len() == 0 {
        None
    } else if records[0].name == target {
        Some(records[0].pid)
    } else {
        first_with_name(records.drop_first(), target)
    }
}

/// Calls `String::from_utf8_lossy`, which decodes bytes as UTF-8 and puts
/// U+FFFD in place of what is ill-formed. The contract names the text that
/// comes back, and says what it is where nothing is ill-formed: the text
/// that the bytes encode.
#[verifier::external_body]
fn decode_lossy(bytes: &Vec<u8>) -> (text: String)
    ensures
        text@ == utf8_lossy(bytes@),
        valid_utf8(bytes@) ==> text@ == decode_utf8(bytes@),
{
    String::from_utf8_lossy(bytes).into_owned()
}

/// `text` without the NUL characters at its end.
pub fn trim_trailing_nuls(text: &str) -> (trimmed: &str)
    ensures
        trimmed@ == without_trailing_nuls(text@),
{
    let mut end: usize = text.unicode_len();
    proof {
        assert(text@.subrange(0, end as int) =~= text@);
    }
    while end > 0 && text.get_char(end - 1) == '\0'
        invariant
            end <= text@.len(),
            without_trailing_nuls(text@) == without_trailing_nuls(text@.subrange(0, end as int)),
        decreases end,
    {
        proof {
            let kept = text@.subrange(0, end as int);
            assert(kept.last() == '\0');
            assert(kept.drop_last() =~= text@.subrange(0, end - 1));
        }
        end = end - 1;
    }
    text.substring_char(0, end)
}

/// The size of the buffer into which the operating system writes the image
/// name of a process.
pub const IMAGE_NAME_CAPACITY: usize = 260;

/// Takes the process that the operating system has just described out of
/// the scratch buffer it wrote the image name to, and clears that buffer.
///
/// The operating system overwrites only as much of the buffer as a name
/// needs. Were the buffer not cleared between two processes, the end of a
/// longer name would show behind a shorter one that follows it.
pub fn take_entry(pid: u32, scratch: &mut [u8; 260]) -> (entry: ProcessEntry)
    ensures
        entry@ == (ProcessEntryView { pid, image_name: old(scratch)@ }),
        final(scratch)@ == Seq::new(IMAGE_NAME_CAPACITY as nat, |i: int| 0u8),
{
    let image_name = slice_to_vec(array_as_slice(scratch));
    let mut i: usize = 0;
    while i < IMAGE_NAME_CAPACITY
        invariant
            i <= IMAGE_NAME_CAPACITY,
            forall|j: int| 0 <= j < i ==> scratch@[j] == 0u8,
        decreases IMAGE_NAME_CAPACITY - i,
    {
        scratch[i] = 0;
        i = i + 1;
    }
    proof {
        assert(scratch@ =~= Seq::new(IMAGE_NAME_CAPACITY as nat, |i: int| 0u8));
    }
    ProcessEntry { pid, image_name }
}

impl ProcessEntry {
    /// The record for this entry: the same id, and the name that the buffer
    /// holds once it is decoded and its padding is taken off.
    pub fn record(&self) -> (record: ProcessRecord)
        ensures
            record.pid == self.pid,
            record.name@ == image_name_of(self.image_name@),
    {
        let decoded = decode_lossy(&self.image_name);
        let name = trim_trailing_nuls(decoded.as_str()).to_owned();
        ProcessRecord { pid: self.pid, name }
    }
}

/// Decodes every entry of a snapshot.
pub fn read_snapshot(entries: &Vec<ProcessEntry>) -> (records: Vec<ProcessRecord>)
    ensures
        record_views(records@) == records_of(entry_views(entries@)),
{
    let mut records: Vec<ProcessRecord> = Vec::new();
    let mut i: usize = 0;
    while i < entries.len()
        invariant
            i <= entries.len(),
            records.len() == i,
            forall|j: int|
                0 <= j < i ==> (#[trigger] records[j]).pid == entries[j].pid && records[j].name@
                    == image_name_of(entries[j].image_name@),
        decreases entries.len() - i,
    {
        records.push(entries[i].record());
        i = i + 1;
    }
    proof {
        assert(record_views(records@) =~= records_of(entry_views(entries@)));
    }
    records
}

/// Looks a process up by the exact name of its image.
///
/// The comparison is case-sensitive and takes the whole name: a record whose
/// name merely contains `target`, or is contained in it, does not match.
/// Where several records match, the first of the snapshot is taken.
pub fn find_process_id_by_name(records: &Vec<ProcessRecord>, target: &str) -> (found: Result<
    u32,
    Error,
>)
    ensures
        found is Ok <==> exists|i: int| 0 <= i < records.len() && records[i].name@ == target@,
        match found {
            Ok(pid) => exists|i: int|
                0 <= i < records.len() && #[trigger] records[i].name@ == target@ && records[i].pid
                    == pid && forall|j: int| 0 <= j < i ==> records[j].name@ != target@,
            Err(error) => error@ == (ErrorView::ProcessNotFound { name: target@ }),
        },
        match found {
            Ok(pid) => first_with_name(record_views(records@), target@) == Some(pid),
            Err(_) => first_with_name(record_views(records@), target@) is None,
        },
{
    let wanted = target.to_owned();
    let mut i: usize = 0;
    proof {
        assert(record_views(records@).subrange(0, records.len() as int) =~= record_views(
            records@,
        ));
    }
    while i < records.len()
        invariant
            i <= records.len(),
            wanted@ == target@,
            forall|j: int| 0 <= j < i ==> records[j].name@ != target@,
            first_with_name(record_views(records@), target@) == first_with_name(
                record_views(records@).subrange(i as int, records.len() as int),
                target@,
            ),
        decreases records.len() - i,
    {
        let ghost rest = record_views(records@).subrange(i as int, records.len() as int);
        proof {
            assert(rest[0] == records[i as int]@);
            assert(rest.drop_first() =~= record_views(records@).subrange(
                i + 1,
                records.len() as int,
            ));
        }
        if records[i].name == wanted {
            return Ok(records[i].pid);
        }
        i = i + 1;
    }
    proof {
        assert(record_views(records@).subrange(i as int, records.len() as int).len() == 0);
    }
    Err(Error::ProcessNotFound { name: wanted })
}

/// Looks a process up in a snapshot of raw entries by the exact name of its
/// image: every entry is decoded, and the first whose name is `target` gives
/// the id.
pub fn find_process_id_in_snapshot(entries: &Vec<ProcessEntry>, target: &str) -> (found: Result<
    u32,
    Error,
>)
    ensures
        match found {
            Ok(pid) => first_with_name(records_of(entry_views(entries@)), target@) == Some(pid),
            Err(error) => first_with_name(records_of(entry_views(entries@)), target@) is None
                && error@ == (ErrorView::ProcessNotFound { name: target@ }),
        },
{
    let records = read_snapshot(entries);
    find_process_id_by_name(&records, target)
}

/// Padding with NUL characters is undone by [`without_trailing_nuls`]: a
/// text that does not itself end in NUL comes back whatever the padding.
pub proof fn lemma_padding_is_taken_off(name: Seq<char>, padding: nat)
    requires
        name.len() == 0 || name.last() != '\0',
    ensures
        without_trailing_nuls(name + nuls(padding)) == name,
    decreases padding,
{
    let padded = name + nuls(padding);
    if padding == 0 {
        assert(padded =~= name);
    } else {
        assert(padded.last() == '\0');
        assert(padded.drop_last() =~= name + nuls((padding - 1) as nat));
        lemma_padding_is_taken_off(name, (padding - 1) as nat);
    }
}

/// A buffer that holds the UTF-8 of a name, padded with NUL bytes to any
/// length, is read back as that name, provided that the name does not
/// itself end in NUL.
pub proof fn law_padded_name_is_read_back(name: Seq<char>, padding: nat)
    requires
        name.len() == 0 || name.last() != '\0',
    ensures
        image_name_of(encode_utf8(name + nuls(padding))) == name,
{
    encode_utf8_valid_utf8(name + nuls(padding));
    encode_utf8_decode_utf8(name + nuls(padding));
    lemma_padding_is_taken_off(name, padding);
}

/// The lookup takes the first record that bears the whole name: if the
/// record at `position` is named `target` and none before it is, its id is
/// what [`first_with_name`] answers.
pub proof fn lemma_first_match_is_found(
    records: Seq<ProcessRecordView>,
    target: Seq<char>,
    position: int,
)
    requires
        0 <= position < records.len(),
        records[position].name == target,
        forall|j: int| 0 <= j < position ==> records[j].name != target,
    ensures
        first_with_name(records, target) == Some(records[position].pid),
    decreases position,
{
    if position > 0 {
        let rest = records.drop_first();
        assert(rest[position - 1] == records[position]);
        assert forall|j: int| 0 <= j < position - 1 implies rest[j].name != target by {
            assert(rest[j] == records[j + 1]);
        }
        lemma_first_match_is_found(rest, target, position - 1);
    }
}

/// The lookup is exact: it finds a process if and only if some record bears
/// the whole of `target` as its name. A record whose name only contains
/// `target`, or is contained in it, or differs from it in case, counts for
/// nothing.
pub proof fn law_lookup_is_exact(records: Seq<ProcessRecordView>, target: Seq<char>)
    ensures
        first_with_name(records, target) is Some <==> exists|i: int|
            0 <= i < records.len() && records[i].name == target,
    decreases records.len(),
{
    if records.len() > 0 {
        let rest = records.drop_first();
        law_lookup_is_exact(rest, target);
        if records[0].name != target {
            if first_with_name(rest, target) is Some {
                let i = choose|i: int| 0 <= i < rest.len() && rest[i].name == target;
                assert(records[i + 1].name == target);
            }
            if exists|i: int| 0 <= i < records.len() && records[i].name == target {
                let i = choose|i: int| 0 <= i < records.len() && records[i].name == target;
                assert(rest[i - 1].name == target);
            }
        }
    }
}

/// A process is found by the name that its buffer holds: if the buffer of
/// the entry at `position` holds the UTF-8 of `target`, padded with NUL
/// bytes to any length, and no entry before it reads as `target`, the lookup
/// among the records of the snapshot answers the id of that entry.
pub proof fn law_padded_name_is_found(
    entries: Seq<ProcessEntryView>,
    target: Seq<char>,
    position: int,
    padding: nat,
)
    requires
        0 <= position < entries.len(),
        target.len() == 0 || target.last() != '\0',
        entries[position].image_name == encode_utf8(target + nuls(padding)),
        forall|j: int| 0 <= j < position ==> image_name_of(entries[j].image_name) != target,
    ensures
        first_with_name(records_of(entries), target) == Some(entries[position].pid),
{
    law_padded_name_is_read_back(target, padding);
    lemma_first_match_is_found(records_of(entries), target, position);
}

} // verus!
