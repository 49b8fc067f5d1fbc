//! Decoding of IPFIX data messages against the active template set.
//!
//! A data message is the 16-byte IPFIX message header followed by Sets. A
//! Set is a 4-byte header (Set id, length) and a body of records, laid out
//! as the template with the Set's id says. Each enterprise field of a record
//! yields one counter sample; the standard field 325 of eight bytes carries
//! the observation time in nanoseconds.

use vstd::prelude::*;
use crate::bytes::{
    read_be_u16,
    read_be_u32,
    read_be_u64,
    spec_be_u16,
    spec_be_u32,
    spec_be_u64,
};
use crate::counts::{bump, spec_bump};
use crate::sai::{
    decode_enterprise_number,
    spec_sample_views,
    spec_stat_id,
    spec_type_id,
    SAIStat,
    SampleView,
};
use crate::store::{spec_template_for, TemplateStore, UpdateView};
use crate::template::{FieldSpec, IPFIX_VERSION, MESSAGE_HEADER_LEN, SET_HEADER_LEN};
use crate::text::spec_texts;

verus! {

/// Information-element id of observationTimeNanoseconds.
pub const OBSERVATION_TIME_NANOSECONDS: u16 = 325;

/// Nanoseconds in a second.
pub const NANOS_PER_SECOND: u64 = 1_000_000_000;

/// What was dropped while a message was decoded, by category. Each count
/// stops at `u64::MAX`.
#[derive(Debug, Clone, Copy, PartialEq, Eq, Structural)]
pub struct DropCounts {
    /// Sets for whose id no template is stored.
    pub sets_without_template: u64,
    /// Sets whose body is not a positive multiple of the record size.
    pub malformed_sets: u64,
    /// Enterprise fields whose length is not 1, 2, 4 or 8.
    pub rejected_fields: u64,
    /// Enterprise fields whose information-element id has no label.
    pub unresolved_labels: u64,
}

/// Why a payload is dropped as a whole.
#[derive(Debug, Clone, Copy, PartialEq, Eq, Structural)]
pub enum DecodeError {
    /// The payload is shorter than the IPFIX message header.
    ShortHeader,
    /// The version field is not 10.
    BadVersion,
    /// The declared message length is under 16 or over the size of the
    /// payload.
    BadMessageLength,
    /// A Set header does not fit, or declares a length under 4 or past the
    /// end of the message.
    BadSetLength,
}

/// What has been decoded of a message so far.
pub struct DecodeView {
    /// The samples, in the order their bytes were read.
    pub samples: Seq<SampleView>,
    /// The value of the last observation-time field read.
    pub time: Option<u64>,
    pub drops: DropCounts,
}

/// Nothing decoded yet.
pub open spec fn spec_decode_start() -> DecodeView {
    DecodeView {
        samples: Seq::<SampleView>::empty(),
        time: None,
        drops: DropCounts {
            sets_without_template: 0,
            malformed_sets: 0,
            rejected_fields: 0,
            unresolved_labels: 0,
        },
    }
}

/// Whether a counter may take `length` bytes.
pub open spec fn spec_counter_length(length: u16) -> bool {
    length == 1 || length == 2 || length == 4 || length == 8
}

/// The big-endian counter of `length` bytes at `at`.
pub open spec fn spec_counter_at(data: Seq<u8>, at: int, length: u16) -> u64 {
    if length == 1 {
        data[at] as u64
    } else if length == 2 {
        spec_be_u16(data, at) as u64
    } else if length == 4 {
        spec_be_u32(data, at) as u64
    } else {
        spec_be_u64(data, at) as u64
    }
}

/// Whether the field carries the observation time.
pub open spec fn spec_is_time_field(field: FieldSpec) -> bool {
    field.enterprise_number is None && field.information_element_id
        == OBSERVATION_TIME_NANOSECONDS && field.length == 8
}

/// Whether the field yields a sample: an enterprise field of an accepted
/// length whose information-element id has a label in `names`.
pub open spec fn spec_is_counter_field(field: FieldSpec, names: Seq<Seq<char>>) -> bool {
    field.enterprise_number is Some && spec_counter_length(field.length) && 1
        <= field.information_element_id <= names.len()
}

/// The state after the field whose bytes start at `at` was read.
pub open spec fn spec_after_field(
    state: DecodeView,
    field: FieldSpec,
    names: Seq<Seq<char>>,
    data: Seq<u8>,
    at: int,
) -> DecodeView {
    match field.enterprise_number {
        Some(enterprise_number) => if !spec_counter_length(field.length) {
            DecodeView {
                samples: state.samples,
                time: state.time,
                drops: DropCounts {
                    sets_without_template: state.drops.sets_without_template,
                    malformed_sets: state.drops.malformed_sets,
                    rejected_fields: spec_bump(state.drops.rejected_fields),
                    unresolved_labels: state.drops.unresolved_labels,
                },
            }
        } else if !(1 <= field.information_element_id <= names.len()) {
            DecodeView {
                samples: state.samples,
                time: state.time,
                drops: DropCounts {
                    sets_without_template: state.drops.sets_without_template,
                    malformed_sets: state.drops.malformed_sets,
                    rejected_fields: state.drops.rejected_fields,
                    unresolved_labels: spec_bump(state.drops.unresolved_labels),
                },
            }
        } else {
            DecodeView {
                samples: state.samples.push(
                    SampleView {
                        object_name: names[field.information_element_id - 1],
                        type_id: spec_type_id(enterprise_number),
                        stat_id: spec_stat_id(enterprise_number),
                        counter: spec_counter_at(data, at, field.length),
                    },
                ),
                time: state.time,
                drops: state.drops,
            }
        },
        None => if spec_is_time_field(field) {
            DecodeView {
                samples: state.samples,
                time: Some(spec_be_u64(data, at) as u64),
                drops: state.drops,
            }
        } else {
            state
        },
    }
}

/// Bytes that the first `k` fields take in a record.
pub open spec fn spec_fields_size(fields: Seq<FieldSpec>, k: int) -> int
    decreases k,
{
    if k <= 0 {
        0
    } else {
        spec_fields_size(fields, k - 1) + fields[k - 1].length
    }
}

/// Bytes that one record of the template takes.
pub open spec fn spec_record_size(fields: Seq<FieldSpec>) -> int {
    spec_fields_size(fields, fields.len() as int)
}

/// The state after the first `k` fields of the record at `base` were read.
pub open spec fn spec_after_fields(
    state: DecodeView,
    fields: Seq<FieldSpec>,
    names: Seq<Seq<char>>,
    data: Seq<u8>,
    base: int,
    k: int,
) -> DecodeView
    decreases k,
{
    if k <= 0 {
        state
    } else {
        spec_after_field(
            spec_after_fields(state, fields, names, data, base, k - 1),
            fields[k - 1],
            names,
            data,
            base + spec_fields_size(fields, k - 1),
        )
    }
}

/// The state after the first `n` records were read, of those that stand one
/// behind the other from `base` on.
pub open spec fn spec_after_records(
    state: DecodeView,
    fields: Seq<FieldSpec>,
    names: Seq<Seq<char>>,
    data: Seq<u8>,
    base: int,
    n: int,
) -> DecodeView
    decreases n,
{
    if n <= 0 {
        state
    } else {
        spec_after_fields(
            spec_after_records(state, fields, names, data, base, n - 1),
            fields,
            names,
            data,
            base + (n - 1) * spec_record_size(fields),
            fields.len() as int,
        )
    }
}

/// The state with one more Set counted as having no template.
pub open spec fn spec_without_template(state: DecodeView) -> DecodeView {
    DecodeView {
        samples: state.samples,
        time: state.time,
        drops: DropCounts {
            sets_without_template: spec_bump(state.drops.sets_without_template),
            malformed_sets: state.drops.malformed_sets,
            rejected_fields: state.drops.rejected_fields,
            unresolved_labels: state.drops.unresolved_labels,
        },
    }
}

/// The state with one more Set counted as malformed.
pub open spec fn spec_malformed(state: DecodeView) -> DecodeView {
    DecodeView {
        samples: state.samples,
        time: state.time,
        drops: DropCounts {
            sets_without_template: state.drops.sets_without_template,
            malformed_sets: spec_bump(state.drops.malformed_sets),
            rejected_fields: state.drops.rejected_fields,
            unresolved_labels: state.drops.unresolved_labels,
        },
    }
}

/// The id of the Set whose header stands at `at`.
pub open spec fn spec_set_id(data: Seq<u8>, at: int) -> u16 {
    spec_be_u16(data, at) as u16
}

/// The length of the Set whose header stands at `at`, header included.
pub open spec fn spec_set_length(data: Seq<u8>, at: int) -> int {
    spec_be_u16(data, at + 2)
}

/// Whether the Set whose header stands at `at` fits in front of `end`.
pub open spec fn spec_set_fits(data: Seq<u8>, at: int, end: int) -> bool {
    at + 4 <= end && spec_set_length(data, at) >= 4 && at + spec_set_length(data, at) <= end
}

/// The state after the Set whose header stands at `at` was read.
///
/// A Set without a template is dropped. So is one whose body is empty or no
/// multiple of the template's record size. Else every record is read.
pub open spec fn spec_after_set(
    state: DecodeView,
    templates: Seq<UpdateView>,
    data: Seq<u8>,
    at: int,
) -> DecodeView {
    let body = spec_set_length(data, at) - 4;
    match spec_template_for(templates, spec_set_id(data, at)) {
        None => spec_without_template(state),
        Some(entry) => {
            let record_size = spec_record_size(entry.template.field_specs);
            if body > 0 && record_size > 0 && body % record_size == 0 {
                spec_after_records(
                    state,
                    entry.template.field_specs,
                    entry.object_names,
                    data,
                    at + 4,
                    body / record_size,
                )
            } else {
                spec_malformed(state)
            }
        },
    }
}

/// The state after all Sets from `at` to `end` were read; `None` where a
/// Set does not fit.
pub open spec fn spec_after_sets(
    state: DecodeView,
    templates: Seq<UpdateView>,
    data: Seq<u8>,
    at: int,
    end: int,
) -> Option<DecodeView>
    decreases end - at,
{
    if at >= end {
        Some(state)
    } else if !spec_set_fits(data, at, end) {
        None
    } else {
        spec_after_sets(
            spec_after_set(state, templates, data, at),
            templates,
            data,
            at + spec_set_length(data, at),
            end,
        )
    }
}

/// The export time of the message header, in seconds.
pub open spec fn spec_export_time(data: Seq<u8>) -> int {
    spec_be_u32(data, 4)
}

/// What a decoded message is, as a mathematical value.
pub struct DecodedView {
    pub observation_time_ns: u64,
    pub samples: Seq<SampleView>,
    pub drops: DropCounts,
}

/// The observation time of a message: the last observation-time field read,
/// or the export time of the header in nanoseconds where there was none.
pub open spec fn spec_observation_time(time: Option<u64>, export_time: int) -> u64 {
    match time {
        Some(t) => t,
        None => (export_time * NANOS_PER_SECOND) as u64,
    }
}

/// What `decode_message` returns for a payload.
pub open spec fn spec_decode_message(templates: Seq<UpdateView>, data: Seq<u8>) -> Result<
    DecodedView,
    DecodeError,
> {
    if data.len() < MESSAGE_HEADER_LEN {
        Err(DecodeError::ShortHeader)
    } else if spec_be_u16(data, 0) != IPFIX_VERSION {
        Err(DecodeError::BadVersion)
    } else if spec_be_u16(data, 2) < MESSAGE_HEADER_LEN || spec_be_u16(data, 2) > data.len() {
        Err(DecodeError::BadMessageLength)
    } else {
        match spec_after_sets(
            spec_decode_start(),
            templates,
            data,
            MESSAGE_HEADER_LEN as int,
            spec_be_u16(data, 2),
        ) {
            None => Err(DecodeError::BadSetLength),
            Some(state) => Ok(
                DecodedView {
                    observation_time_ns: spec_observation_time(
                        state.time,
                        spec_export_time(data),
                    ),
                    samples: state.samples,
                    drops: state.drops,
                },
            ),
        }
    }
}

/// The decoding of a message in progress.
struct Decoding {
    samples: Vec<SAIStat>,
    time: Option<u64>,
    drops: DropCounts,
}

impl View for Decoding {
    type V = DecodeView;

    closed spec fn view(&self) -> DecodeView {
        DecodeView {
            samples: spec_sample_views(self.samples@),
            time: self.time,
            drops: self.drops,
        }
    }
}

/// The first `k + 1` fields take the bytes of the first `k` and those of
/// field `k`, and no more than the whole record.
pub proof fn lemma_fields_size(fields: Seq<FieldSpec>, k: int, n: int)
    requires
        0 <= k <= n <= fields.len(),
    ensures
        0 <= spec_fields_size(fields, k) <= spec_fields_size(fields, n),
    decreases n,
{
    if k < n {
        lemma_fields_size(fields, k, n - 1);
    } else if k > 0 {
        lemma_fields_size(fields, k - 1, k - 1);
    }
}

/// Reads the counter of `length` bytes at `at`.
fn read_counter(data: &[u8], at: usize, length: u16) -> (v: u64)
    requires
        spec_counter_length(length),
        at + length <= data.len(),
    ensures
        v == spec_counter_at(data@, at as int, length),
{
    if length == 1 {
        data[at] as u64
    } else if length == 2 {
        read_be_u16(data, at) as u64
    } else if length == 4 {
        read_be_u32(data, at) as u64
    } else {
        read_be_u64(data, at)
    }
}

/// Reads the field whose bytes start at `at`.
fn decode_field(
    state: &mut Decoding,
    field: &FieldSpec,
    names: &Vec<String>,
    data: &[u8],
    at: usize,
)
    requires
        at + field.length <= data.len(),
    ensures
        final(state)@ == spec_after_field(
            old(state)@,
            *field,
            spec_texts(names@),
            data@,
            at as int,
        ),
{
    match field.enterprise_number {
        Some(enterprise_number) => {
            let length = field.length;
            if !(length == 1 || length == 2 || length == 4 || length == 8) {
                state.drops.rejected_fields = bump(state.drops.rejected_fields);
            } else if field.information_element_id < 1 || field.information_element_id as usize
                > names.len() {
                state.drops.unresolved_labels = bump(state.drops.unresolved_labels);
            } else {
                let ids = decode_enterprise_number(enterprise_number);
                let sample = SAIStat {
                    object_name: names[(field.information_element_id - 1) as usize].clone(),
                    type_id: ids.0,
                    stat_id: ids.1,
                    counter: read_counter(data, at, length),
                };
                let ghost before = spec_sample_views(state.samples@);
                state.samples.push(sample);
                assert(spec_sample_views(state.samples@) =~= before.push(sample@));
            }
        },
        None => {
            if field.information_element_id == OBSERVATION_TIME_NANOSECONDS && field.length == 8 {
                state.time = Some(read_be_u64(data, at));
            }
        },
    }
}

/// Reads the record that starts at `base`.
fn decode_record(
    state: &mut Decoding,
    fields: &Vec<FieldSpec>,
    names: &Vec<String>,
    data: &[u8],
    base: usize,
)
    requires
        base + spec_record_size(fields@) <= data.len(),
    ensures
        final(state)@ == spec_after_fields(
            old(state)@,
            fields@,
            spec_texts(names@),
            data@,
            base as int,
            fields.len() as int,
        ),
{
    let mut k: usize = 0;
    let mut at: usize = base;
    while k < fields.len()
        invariant
            k <= fields.len(),
            at == base + spec_fields_size(fields@, k as int),
            base + spec_record_size(fields@) <= data.len(),
            state@ == spec_after_fields(
                old(state)@,
                fields@,
                spec_texts(names@),
                data@,
                base as int,
                k as int,
            ),
        decreases fields.len() - k,
    {
        proof {
            lemma_fields_size(fields@, k + 1, fields.len() as int);
        }
        decode_field(state, &fields[k], names, data, at);
        at = at + fields[k].length as usize;
        k += 1;
    }
}

/// Bytes that one record takes, where that is no more than `limit`.
fn record_size(fields: &Vec<FieldSpec>, limit: usize) -> (r: Option<usize>)
    ensures
        match r {
            Some(size) => size == spec_record_size(fields@) && size <= limit,
            None => spec_record_size(fields@) > limit,
        },
{
    let mut size: usize = 0;
    let mut k: usize = 0;
    while k < fields.len()
        invariant
            k <= fields.len(),
            size == spec_fields_size(fields@, k as int),
            size <= limit,
        decreases fields.len() - k,
    {
        let length = fields[k].length as usize;
        if length > limit - size {
            proof {
                lemma_fields_size(fields@, k + 1, fields.len() as int);
            }
            return None;
        }
        size = size + length;
        k += 1;
    }
    Some(size)
}

/// Reads the Set whose header stands at `at`.
fn decode_set(state: &mut Decoding, store: &TemplateStore, data: &[u8], at: usize, end: usize)
    requires
        end <= data.len(),
        spec_set_fits(data@, at as int, end as int),
    ensures
        final(state)@ == spec_after_set(old(state)@, store@, data@, at as int),
{
    let set_id: u16 = read_be_u16(data, at);
    let body: usize = read_be_u16(data, at + 2) as usize - SET_HEADER_LEN;
    match store.template_for(set_id) {
        None => {
            state.drops.sets_without_template = bump(state.drops.sets_without_template);
        },
        Some(entry) => {
            let fields = &entry.template.field_specs;
            let names = &entry.object_names;
            let size = match record_size(fields, body) {
                Some(size) => size,
                None => {
                    proof {
                        let rs = spec_record_size(fields@);
                        assert(body > 0 ==> (body as int) % rs == body) by (nonlinear_arith)
                            requires
                                0 <= body < rs,
                        ;
                    }
                    state.drops.malformed_sets = bump(state.drops.malformed_sets);
                    return ;
                },
            };
            if body == 0 || size == 0 || body % size != 0 {
                state.drops.malformed_sets = bump(state.drops.malformed_sets);
                return ;
            }
            let count: usize = body / size;
            assert(body == count * size) by (nonlinear_arith)
                requires
                    size > 0,
                    count == body / size,
                    body % size == 0,
            ;
            let mut n: usize = 0;
            let mut base: usize = at + SET_HEADER_LEN;
            while n < count
                invariant
                    n <= count,
                    size == spec_record_size(fields@),
                    size > 0,
                    base == at + 4 + n * size,
                    at + 4 + count * size <= data.len(),
                    state@ == spec_after_records(
                        old(state)@,
                        fields@,
                        spec_texts(names@),
                        data@,
                        at + 4,
                        n as int,
                    ),
                decreases count - n,
            {
                assert((n + 1) * size == n * size + size && (n + 1) * size <= count * size)
                    by (nonlinear_arith)
                    requires
                        n < count,
                        size > 0,
                ;
                decode_record(state, fields, names, data, base);
                base = base + size;
                n += 1;
            }
        },
    }
}

/// A message as decoded: its observation time, its samples in the order
/// their bytes were read, and what was dropped on the way.
#[derive(Debug)]
pub struct DecodedMessage {
    /// Nanoseconds since the epoch; zero where the message carried no time.
    pub observation_time_ns: u64,
    pub samples: Vec<SAIStat>,
    pub drops: DropCounts,
}

impl View for DecodedMessage {
    type V = DecodedView;

    open spec fn view(&self) -> DecodedView {
        DecodedView {
            observation_time_ns: self.observation_time_ns,
            samples: spec_sample_views(self.samples@),
            drops: self.drops,
        }
    }
}

/// Decodes one data message against the stored templates.
///
/// The payload is refused as a whole where its header is short, its version
/// is not 10, its declared length is under 16 or over the payload's size, or
/// one of its Sets does not fit; bytes behind the declared length are not
/// looked at. Else every Set is read in wire order: a Set for whose id no
/// template is stored is dropped and counted, and so is one whose body is
/// empty or no multiple of its template's record size; of every other Set
/// each record yields one sample per enterprise field whose length is 1, 2,
/// 4 or 8 and whose information-element id has a label.
pub fn decode_message(store: &TemplateStore, payload: &[u8]) -> (r: Result<
    DecodedMessage,
    DecodeError,
>)
    ensures
        match r {
            Ok(decoded) => spec_decode_message(store@, payload@) == Ok::<DecodedView, DecodeError>(
                decoded@,
            ),
            Err(e) => spec_decode_message(store@, payload@) == Err::<DecodedView, DecodeError>(e),
        },
{
    if payload.len() < MESSAGE_HEADER_LEN {
        return Err(DecodeError::ShortHeader);
    }
    if read_be_u16(payload, 0) != IPFIX_VERSION {
        return Err(DecodeError::BadVersion);
    }
    let end: usize = read_be_u16(payload, 2) as usize;
    if end < MESSAGE_HEADER_LEN || end > payload.len() {
        return Err(DecodeError::BadMessageLength);
    }
    let export_time: u32 = read_be_u32(payload, 4);
    let mut state = Decoding {
        samples: Vec::new(),
        time: None,
        drops: DropCounts {
            sets_without_template: 0,
            malformed_sets: 0,
            rejected_fields: 0,
            unresolved_labels: 0,
        },
    };
    assert(state@.samples =~= spec_decode_start().samples);
    let mut at: usize = MESSAGE_HEADER_LEN;
    while at < end
        invariant
            MESSAGE_HEADER_LEN <= at <= end <= payload.len(),
            spec_be_u16(payload@, 0) == IPFIX_VERSION,
            end == spec_be_u16(payload@, 2),
            spec_after_sets(
                spec_decode_start(),
                store@,
                payload@,
                MESSAGE_HEADER_LEN as int,
                end as int,
            ) == spec_after_sets(state@, store@, payload@, at as int, end as int),
        decreases end - at,
    {
        if end - at < SET_HEADER_LEN {
            return Err(DecodeError::BadSetLength);
        }
        let set_len: usize = read_be_u16(payload, at + 2) as usize;
        if set_len < SET_HEADER_LEN || set_len > end - at {
            return Err(DecodeError::BadSetLength);
        }
        decode_set(&mut state, store, payload, at, end);
        at = at + set_len;
    }
    let observation_time_ns: u64 = match state.time {
        Some(t) => t,
        None => export_time as u64 * NANOS_PER_SECOND,
    };
    Ok(DecodedMessage { observation_time_ns, samples: state.samples, drops: state.drops })
}

} // verus!
