//! What holds of every decoded message.

use vstd::prelude::*;
use crate::bytes::{spec_be_u16, spec_be_u32};
use crate::decoder::{
    lemma_fields_size,
    spec_after_field,
    spec_after_fields,
    spec_after_records,
    spec_after_set,
    spec_after_sets,
    spec_decode_message,
    spec_decode_start,
    spec_export_time,
    spec_fields_size,
    spec_is_counter_field,
    spec_record_size,
    spec_set_fits,
    spec_set_id,
    spec_set_length,
    spec_without_template,
    DecodeError,
    DecodeView,
    DecodedView,
};
use crate::ipfix::spec_batch_of;
use crate::otel::spec_metrics;
use crate::store::{spec_template_for, UpdateView};
use crate::template::{FieldSpec, IPFIX_VERSION, MESSAGE_HEADER_LEN};

verus! {

/// Number of the first `k` fields that yield a sample.
pub open spec fn spec_counter_fields(fields: Seq<FieldSpec>, names: Seq<Seq<char>>, k: int) -> int
    decreases k,
{
    if k <= 0 {
        0
    } else {
        spec_counter_fields(fields, names, k - 1) + if spec_is_counter_field(fields[k - 1], names) {
            1int
        } else {
            0int
        }
    }
}

/// Number of samples that one record of the template yields.
pub open spec fn spec_samples_per_record(fields: Seq<FieldSpec>, names: Seq<Seq<char>>) -> int {
    spec_counter_fields(fields, names, fields.len() as int)
}

/// Reading fields adds one sample for each counter field and takes none
/// away.
pub proof fn lemma_fields_add_samples(
    state: DecodeView,
    fields: Seq<FieldSpec>,
    names: Seq<Seq<char>>,
    data: Seq<u8>,
    base: int,
    k: int,
)
    requires
        0 <= k <= fields.len(),
    ensures
        spec_after_fields(state, fields, names, data, base, k).samples.len()
            == state.samples.len() + spec_counter_fields(fields, names, k),
        spec_counter_fields(fields, names, k) >= 0,
    decreases k,
{
    if k > 0 {
        lemma_fields_add_samples(state, fields, names, data, base, k - 1);
    }
}

/// Reading `n` records adds `n` times the samples of one record.
pub proof fn lemma_records_add_samples(
    state: DecodeView,
    fields: Seq<FieldSpec>,
    names: Seq<Seq<char>>,
    data: Seq<u8>,
    base: int,
    n: int,
)
    requires
        0 <= n,
    ensures
        spec_after_records(state, fields, names, data, base, n).samples.len()
            == state.samples.len() + n * spec_samples_per_record(fields, names),
    decreases n,
{
    if n > 0 {
        lemma_records_add_samples(state, fields, names, data, base, n - 1);
        let before = spec_after_records(state, fields, names, data, base, n - 1);
        lemma_fields_add_samples(
            before,
            fields,
            names,
            data,
            base + (n - 1) * spec_record_size(fields),
            fields.len() as int,
        );
        let per = spec_samples_per_record(fields, names);
        assert(n * per == (n - 1) * per + per) by (nonlinear_arith);
    } else {
        assert(n * spec_samples_per_record(fields, names) == 0) by (nonlinear_arith)
            requires
                n == 0,
        ;
    }
}

/// A Data Set whose template is stored and whose body is a multiple of the
/// template's record size adds, for each of its records, the samples of one
/// record: as many as the template has enterprise fields of an accepted
/// length with a label.
pub proof fn lemma_set_sample_count(
    state: DecodeView,
    templates: Seq<UpdateView>,
    data: Seq<u8>,
    at: int,
)
    requires
        spec_set_length(data, at) >= 4,
        spec_template_for(templates, spec_set_id(data, at)) is Some,
        spec_record_size(
            spec_template_for(templates, spec_set_id(data, at))->Some_0.template.field_specs,
        ) > 0,
        (spec_set_length(data, at) - 4) % spec_record_size(
            spec_template_for(templates, spec_set_id(data, at))->Some_0.template.field_specs,
        ) == 0,
    ensures
        ({
            let entry = spec_template_for(templates, spec_set_id(data, at))->Some_0;
            let records = (spec_set_length(data, at) - 4) / spec_record_size(
                entry.template.field_specs,
            );
            spec_after_set(state, templates, data, at).samples.len() == state.samples.len()
                + records * spec_samples_per_record(
                entry.template.field_specs,
                entry.object_names,
            )
        }),
{
    let entry = spec_template_for(templates, spec_set_id(data, at))->Some_0;
    let body = spec_set_length(data, at) - 4;
    let size = spec_record_size(entry.template.field_specs);
    let records = body / size;
    let per = spec_samples_per_record(entry.template.field_specs, entry.object_names);
    if body > 0 {
        assert(records >= 0) by (nonlinear_arith)
            requires
                records == body / size,
                body > 0,
                size > 0,
        ;
        lemma_records_add_samples(
            state,
            entry.template.field_specs,
            entry.object_names,
            data,
            at + 4,
            records,
        );
    } else {
        assert(records * per == 0) by (nonlinear_arith)
            requires
                records == body / size,
                body == 0,
                size > 0,
        ;
    }
}

/// Where the template yields one sample per record, a Data Set whose body
/// is a multiple of the record size adds as many samples as the body holds
/// records: its length divided by the record size.
pub proof fn lemma_one_sample_per_record(
    state: DecodeView,
    templates: Seq<UpdateView>,
    data: Seq<u8>,
    at: int,
)
    requires
        spec_set_length(data, at) >= 4,
        spec_template_for(templates, spec_set_id(data, at)) is Some,
        spec_record_size(
            spec_template_for(templates, spec_set_id(data, at))->Some_0.template.field_specs,
        ) > 0,
        (spec_set_length(data, at) - 4) % spec_record_size(
            spec_template_for(templates, spec_set_id(data, at))->Some_0.template.field_specs,
        ) == 0,
        spec_samples_per_record(
            spec_template_for(templates, spec_set_id(data, at))->Some_0.template.field_specs,
            spec_template_for(templates, spec_set_id(data, at))->Some_0.object_names,
        ) == 1,
    ensures
        spec_after_set(state, templates, data, at).samples.len() == state.samples.len() + (
        spec_set_length(data, at) - 4) / spec_record_size(
            spec_template_for(templates, spec_set_id(data, at))->Some_0.template.field_specs,
        ),
{
    lemma_set_sample_count(state, templates, data, at);
    let entry = spec_template_for(templates, spec_set_id(data, at))->Some_0;
    let records = (spec_set_length(data, at) - 4) / spec_record_size(entry.template.field_specs);
    assert(records * 1 == records) by (nonlinear_arith);
}

/// Counting a Set without template before a field is read or after it comes
/// to the same.
proof fn lemma_fields_commute(
    state: DecodeView,
    fields: Seq<FieldSpec>,
    names: Seq<Seq<char>>,
    data: Seq<u8>,
    base: int,
    k: int,
)
    ensures
        spec_after_fields(spec_without_template(state), fields, names, data, base, k)
            == spec_without_template(spec_after_fields(state, fields, names, data, base, k)),
    decreases k,
{
    if k > 0 {
        lemma_fields_commute(state, fields, names, data, base, k - 1);
    }
}

proof fn lemma_records_commute(
    state: DecodeView,
    fields: Seq<FieldSpec>,
    names: Seq<Seq<char>>,
    data: Seq<u8>,
    base: int,
    n: int,
)
    ensures
        spec_after_records(spec_without_template(state), fields, names, data, base, n)
            == spec_without_template(spec_after_records(state, fields, names, data, base, n)),
    decreases n,
{
    if n > 0 {
        lemma_records_commute(state, fields, names, data, base, n - 1);
        lemma_fields_commute(
            spec_after_records(state, fields, names, data, base, n - 1),
            fields,
            names,
            data,
            base + (n - 1) * spec_record_size(fields),
            fields.len() as int,
        );
    }
}

proof fn lemma_set_commutes(state: DecodeView, templates: Seq<UpdateView>, data: Seq<u8>, at: int)
    ensures
        spec_after_set(spec_without_template(state), templates, data, at) == spec_without_template(
            spec_after_set(state, templates, data, at),
        ),
{
    match spec_template_for(templates, spec_set_id(data, at)) {
        None => {},
        Some(entry) => {
            let body = spec_set_length(data, at) - 4;
            let size = spec_record_size(entry.template.field_specs);
            lemma_records_commute(
                state,
                entry.template.field_specs,
                entry.object_names,
                data,
                at + 4,
                body / size,
            );
        },
    }
}

/// What `spec_after_sets` gives with one more Set counted as having no
/// template.
pub open spec fn spec_counted_without_template(decoded: Option<DecodeView>) -> Option<DecodeView> {
    match decoded {
        None => None,
        Some(state) => Some(spec_without_template(state)),
    }
}

proof fn lemma_sets_commute(
    state: DecodeView,
    templates: Seq<UpdateView>,
    data: Seq<u8>,
    at: int,
    end: int,
)
    ensures
        spec_after_sets(spec_without_template(state), templates, data, at, end)
            == spec_counted_without_template(spec_after_sets(state, templates, data, at, end)),
    decreases end - at,
{
    if at < end && spec_set_fits(data, at, end) {
        lemma_set_commutes(state, templates, data, at);
        lemma_sets_commute(
            spec_after_set(state, templates, data, at),
            templates,
            data,
            at + spec_set_length(data, at),
            end,
        );
    }
}

/// A Set for whose id no template is stored leaves no trace in what follows
/// it: the message from that Set on decodes to what it decodes to from the
/// next Set on, samples and observation time alike, but for the one Set
/// counted as dropped.
pub proof fn lemma_unknown_set_is_passed_over(
    state: DecodeView,
    templates: Seq<UpdateView>,
    data: Seq<u8>,
    at: int,
    end: int,
)
    requires
        at < end,
        spec_set_fits(data, at, end),
        spec_template_for(templates, spec_set_id(data, at)) is None,
    ensures
        spec_after_sets(state, templates, data, at, end) == spec_counted_without_template(
            spec_after_sets(state, templates, data, at + spec_set_length(data, at), end),
        ),
{
    lemma_sets_commute(state, templates, data, at + spec_set_length(data, at), end);
}

/// The last observation-time field that the message carries, if it carries
/// one.
pub open spec fn spec_message_time(templates: Seq<UpdateView>, data: Seq<u8>) -> Option<u64> {
    match spec_after_sets(
        spec_decode_start(),
        templates,
        data,
        MESSAGE_HEADER_LEN as int,
        spec_be_u16(data, 2),
    ) {
        None => None,
        Some(state) => state.time,
    }
}

/// The observation time of a decoded message is that of its last
/// observation-time field, or without such a field its export time in
/// nanoseconds. So it is not zero where that field is not zero, nor where
/// there is no such field and the export time is not zero.
pub proof fn lemma_observation_time(templates: Seq<UpdateView>, data: Seq<u8>)
    requires
        spec_decode_message(templates, data) is Ok,
    ensures
        spec_message_time(templates, data) matches Some(t) ==> spec_decode_message(
            templates,
            data,
        )->Ok_0.observation_time_ns == t,
        spec_message_time(templates, data) is None ==> spec_decode_message(
            templates,
            data,
        )->Ok_0.observation_time_ns == spec_export_time(data) * 1_000_000_000,
        (spec_message_time(templates, data) matches Some(t) && t != 0) || (spec_message_time(
            templates,
            data,
        ) is None && spec_export_time(data) != 0) ==> spec_decode_message(
            templates,
            data,
        )->Ok_0.observation_time_ns != 0,
{
    assert(0 <= spec_be_u32(data, 4) <= 0xFFFF_FFFF);
}

/// The `n` bytes of `data` from `at` on.
pub open spec fn spec_window(data: Seq<u8>, at: int, n: int) -> Seq<u8> {
    data.subrange(at, at + n)
}

/// Where two windows hold the same bytes, so does every part of them.
pub proof fn lemma_window_part(
    a: Seq<u8>,
    at_a: int,
    b: Seq<u8>,
    at_b: int,
    n: int,
    from: int,
    m: int,
)
    requires
        0 <= at_a,
        at_a + n <= a.len(),
        0 <= at_b,
        at_b + n <= b.len(),
        spec_window(a, at_a, n) == spec_window(b, at_b, n),
        0 <= from,
        0 <= m,
        from + m <= n,
    ensures
        spec_window(a, at_a + from, m) == spec_window(b, at_b + from, m),
{
    let wa = spec_window(a, at_a, n);
    let wb = spec_window(b, at_b, n);
    let pa = spec_window(a, at_a + from, m);
    let pb = spec_window(b, at_b + from, m);
    assert forall|i: int| 0 <= i < m implies pa[i] == pb[i] by {
        assert(pa[i] == wa[from + i]);
        assert(pb[i] == wb[from + i]);
    }
    assert(pa =~= pb);
}

/// A field is read from its own bytes alone.
pub proof fn lemma_field_reads_its_bytes(
    state: DecodeView,
    field: FieldSpec,
    names: Seq<Seq<char>>,
    a: Seq<u8>,
    at_a: int,
    b: Seq<u8>,
    at_b: int,
)
    requires
        0 <= at_a,
        at_a + field.length <= a.len(),
        0 <= at_b,
        at_b + field.length <= b.len(),
        spec_window(a, at_a, field.length as int) == spec_window(b, at_b, field.length as int),
    ensures
        spec_after_field(state, field, names, a, at_a) == spec_after_field(
            state,
            field,
            names,
            b,
            at_b,
        ),
{
    let n = field.length as int;
    let wa = spec_window(a, at_a, n);
    let wb = spec_window(b, at_b, n);
    if n >= 1 {
        assert(a[at_a] == wa[0] && b[at_b] == wb[0]);
    }
    if n >= 2 {
        assert(a[at_a + 1] == wa[1] && b[at_b + 1] == wb[1]);
    }
    if n >= 4 {
        assert(a[at_a + 2] == wa[2] && b[at_b + 2] == wb[2]);
        assert(a[at_a + 3] == wa[3] && b[at_b + 3] == wb[3]);
    }
    if n >= 8 {
        assert(a[at_a + 4] == wa[4] && b[at_b + 4] == wb[4]);
        assert(a[at_a + 5] == wa[5] && b[at_b + 5] == wb[5]);
        assert(a[at_a + 6] == wa[6] && b[at_b + 6] == wb[6]);
        assert(a[at_a + 7] == wa[7] && b[at_b + 7] == wb[7]);
    }
}

/// The fields of a record are read from the record's bytes alone.
pub proof fn lemma_record_reads_its_bytes(
    state: DecodeView,
    fields: Seq<FieldSpec>,
    names: Seq<Seq<char>>,
    a: Seq<u8>,
    at_a: int,
    b: Seq<u8>,
    at_b: int,
    k: int,
)
    requires
        0 <= k <= fields.len(),
        0 <= at_a,
        at_a + spec_fields_size(fields, k) <= a.len(),
        0 <= at_b,
        at_b + spec_fields_size(fields, k) <= b.len(),
        spec_window(a, at_a, spec_fields_size(fields, k)) == spec_window(
            b,
            at_b,
            spec_fields_size(fields, k),
        ),
    ensures
        spec_after_fields(state, fields, names, a, at_a, k) == spec_after_fields(
            state,
            fields,
            names,
            b,
            at_b,
            k,
        ),
    decreases k,
{
    if k > 0 {
        let whole = spec_fields_size(fields, k);
        let front = spec_fields_size(fields, k - 1);
        lemma_fields_size(fields, k - 1, k);
        lemma_window_part(a, at_a, b, at_b, whole, 0, front);
        lemma_record_reads_its_bytes(state, fields, names, a, at_a, b, at_b, k - 1);
        lemma_window_part(a, at_a, b, at_b, whole, front, fields[k - 1].length as int);
        lemma_field_reads_its_bytes(
            spec_after_fields(state, fields, names, a, at_a, k - 1),
            fields[k - 1],
            names,
            a,
            at_a + front,
            b,
            at_b + front,
        );
    }
}

/// Records are read from their own bytes alone.
pub proof fn lemma_records_read_their_bytes(
    state: DecodeView,
    fields: Seq<FieldSpec>,
    names: Seq<Seq<char>>,
    a: Seq<u8>,
    at_a: int,
    b: Seq<u8>,
    at_b: int,
    n: int,
)
    requires
        0 <= n,
        0 <= at_a,
        at_a + n * spec_record_size(fields) <= a.len(),
        0 <= at_b,
        at_b + n * spec_record_size(fields) <= b.len(),
        spec_window(a, at_a, n * spec_record_size(fields)) == spec_window(
            b,
            at_b,
            n * spec_record_size(fields),
        ),
    ensures
        spec_after_records(state, fields, names, a, at_a, n) == spec_after_records(
            state,
            fields,
            names,
            b,
            at_b,
            n,
        ),
    decreases n,
{
    if n > 0 {
        let size = spec_record_size(fields);
        lemma_fields_size(fields, 0, fields.len() as int);
        assert((n - 1) * size + size == n * size && 0 <= (n - 1) * size) by (nonlinear_arith)
            requires
                n >= 1,
                size >= 0,
        ;
        lemma_window_part(a, at_a, b, at_b, n * size, 0, (n - 1) * size);
        lemma_records_read_their_bytes(state, fields, names, a, at_a, b, at_b, n - 1);
        lemma_window_part(a, at_a, b, at_b, n * size, (n - 1) * size, size);
        lemma_record_reads_its_bytes(
            spec_after_records(state, fields, names, a, at_a, n - 1),
            fields,
            names,
            a,
            at_a + (n - 1) * size,
            b,
            at_b + (n - 1) * size,
            fields.len() as int,
        );
    }
}

/// A Set is read from its own bytes alone: where two payloads hold the same
/// Set, each at its place, decoding it gives the same.
pub proof fn lemma_set_reads_its_bytes(
    state: DecodeView,
    templates: Seq<UpdateView>,
    a: Seq<u8>,
    at_a: int,
    b: Seq<u8>,
    at_b: int,
)
    requires
        0 <= at_a,
        0 <= at_b,
        spec_set_length(a, at_a) >= 4,
        at_a + spec_set_length(a, at_a) <= a.len(),
        at_b + spec_set_length(a, at_a) <= b.len(),
        spec_window(a, at_a, spec_set_length(a, at_a)) == spec_window(
            b,
            at_b,
            spec_set_length(a, at_a),
        ),
    ensures
        spec_set_id(b, at_b) == spec_set_id(a, at_a),
        spec_set_length(b, at_b) == spec_set_length(a, at_a),
        spec_after_set(state, templates, a, at_a) == spec_after_set(state, templates, b, at_b),
{
    let length = spec_set_length(a, at_a);
    lemma_window_part(a, at_a, b, at_b, length, 0, 4);
    let head_a = spec_window(a, at_a, 4);
    let head_b = spec_window(b, at_b, 4);
    assert(a[at_a] == head_a[0] && b[at_b] == head_b[0]);
    assert(a[at_a + 1] == head_a[1] && b[at_b + 1] == head_b[1]);
    assert(a[at_a + 2] == head_a[2] && b[at_b + 2] == head_b[2]);
    assert(a[at_a + 3] == head_a[3] && b[at_b + 3] == head_b[3]);
    match spec_template_for(templates, spec_set_id(a, at_a)) {
        None => {},
        Some(entry) => {
            let body = length - 4;
            let size = spec_record_size(entry.template.field_specs);
            if body > 0 && size > 0 && body % size == 0 {
                let records = body / size;
                assert(records * size == body && records >= 0) by (nonlinear_arith)
                    requires
                        records == body / size,
                        body % size == 0,
                        size > 0,
                        body > 0,
                ;
                lemma_window_part(a, at_a, b, at_b, length, 4, body);
                lemma_records_read_their_bytes(
                    state,
                    entry.template.field_specs,
                    entry.object_names,
                    a,
                    at_a + 4,
                    b,
                    at_b + 4,
                    records,
                );
            }
        },
    }
}

/// Sets are read from their own bytes alone: where two payloads hold the
/// same bytes from one place on to their ends, decoding from there on gives
/// the same, whatever stands in front.
pub proof fn lemma_sets_read_their_bytes(
    state: DecodeView,
    templates: Seq<UpdateView>,
    a: Seq<u8>,
    at_a: int,
    end_a: int,
    b: Seq<u8>,
    at_b: int,
    end_b: int,
)
    requires
        0 <= at_a <= end_a <= a.len(),
        0 <= at_b <= end_b <= b.len(),
        end_a - at_a == end_b - at_b,
        spec_window(a, at_a, end_a - at_a) == spec_window(b, at_b, end_b - at_b),
    ensures
        spec_after_sets(state, templates, a, at_a, end_a) == spec_after_sets(
            state,
            templates,
            b,
            at_b,
            end_b,
        ),
    decreases end_a - at_a,
{
    let n = end_a - at_a;
    if at_a < end_a {
        if at_a + 4 <= end_a {
            lemma_window_part(a, at_a, b, at_b, n, 0, 4);
            let head_a = spec_window(a, at_a, 4);
            let head_b = spec_window(b, at_b, 4);
            assert(a[at_a + 2] == head_a[2] && b[at_b + 2] == head_b[2]);
            assert(a[at_a + 3] == head_a[3] && b[at_b + 3] == head_b[3]);
            assert(spec_set_length(a, at_a) == spec_set_length(b, at_b));
            if spec_set_fits(a, at_a, end_a) {
                let length = spec_set_length(a, at_a);
                lemma_window_part(a, at_a, b, at_b, n, 0, length);
                lemma_set_reads_its_bytes(state, templates, a, at_a, b, at_b);
                lemma_window_part(a, at_a, b, at_b, n, length, n - length);
                lemma_sets_read_their_bytes(
                    spec_after_set(state, templates, a, at_a),
                    templates,
                    a,
                    at_a + length,
                    end_a,
                    b,
                    at_b + length,
                    end_b,
                );
            }
        }
    }
}

/// What `decode_message` gives with one more Set counted as having no
/// template.
pub open spec fn spec_one_more_without_template(decoded: Result<DecodedView, DecodeError>)
    -> Result<DecodedView, DecodeError> {
    match decoded {
        Err(e) => Err(e),
        Ok(message) => Ok(
            DecodedView {
                observation_time_ns: message.observation_time_ns,
                samples: message.samples,
                drops: spec_without_template(
                    DecodeView { samples: message.samples, time: None, drops: message.drops },
                ).drops,
            },
        ),
    }
}

/// A Set without template leaves no trace in the batch. Take a message
/// whose first Set has an id for which no template is stored, and the
/// message that is left when this Set is cut out and the declared length
/// lowered by the Set's length. The two decode to the same samples in the
/// same order with the same observation time, or fail alike; they differ
/// in the one Set counted as dropped.
pub proof fn lemma_unknown_set_leaves_no_trace(
    templates: Seq<UpdateView>,
    with: Seq<u8>,
    without: Seq<u8>,
)
    requires
        with.len() >= MESSAGE_HEADER_LEN,
        without.len() >= MESSAGE_HEADER_LEN,
        spec_window(with, 0, 2) == spec_window(without, 0, 2),
        spec_window(with, 4, 4) == spec_window(without, 4, 4),
        spec_be_u16(with, 2) <= with.len(),
        spec_be_u16(without, 2) <= without.len(),
        spec_set_fits(with, MESSAGE_HEADER_LEN as int, spec_be_u16(with, 2)),
        spec_template_for(templates, spec_set_id(with, MESSAGE_HEADER_LEN as int)) is None,
        spec_be_u16(with, 2) == spec_be_u16(without, 2) + spec_set_length(
            with,
            MESSAGE_HEADER_LEN as int,
        ),
        spec_window(
            with,
            MESSAGE_HEADER_LEN + spec_set_length(with, MESSAGE_HEADER_LEN as int),
            spec_be_u16(without, 2) - MESSAGE_HEADER_LEN,
        ) == spec_window(
            without,
            MESSAGE_HEADER_LEN as int,
            spec_be_u16(without, 2) - MESSAGE_HEADER_LEN,
        ),
    ensures
        spec_decode_message(templates, with) == spec_one_more_without_template(
            spec_decode_message(templates, without),
        ),
{
    let end_with = spec_be_u16(with, 2);
    let end_without = spec_be_u16(without, 2);
    let length = spec_set_length(with, MESSAGE_HEADER_LEN as int);
    let start = spec_decode_start();
    let version_a = spec_window(with, 0, 2);
    let version_b = spec_window(without, 0, 2);
    assert(with[0] == version_a[0] && without[0] == version_b[0]);
    assert(with[1] == version_a[1] && without[1] == version_b[1]);
    assert(spec_be_u16(with, 0) == spec_be_u16(without, 0));
    let time_a = spec_window(with, 4, 4);
    let time_b = spec_window(without, 4, 4);
    assert(with[4] == time_a[0] && without[4] == time_b[0]);
    assert(with[5] == time_a[1] && without[5] == time_b[1]);
    assert(with[6] == time_a[2] && without[6] == time_b[2]);
    assert(with[7] == time_a[3] && without[7] == time_b[3]);
    assert(spec_export_time(with) == spec_export_time(without));
    if spec_be_u16(with, 0) == IPFIX_VERSION {
        assert(end_without >= MESSAGE_HEADER_LEN);
        lemma_unknown_set_is_passed_over(
            start,
            templates,
            with,
            MESSAGE_HEADER_LEN as int,
            end_with,
        );
        lemma_sets_read_their_bytes(
            start,
            templates,
            with,
            MESSAGE_HEADER_LEN + length,
            end_with,
            without,
            MESSAGE_HEADER_LEN as int,
            end_without,
        );
    }
}

/// A Set without template leaves no trace in what is exported. Of the two
/// messages of `lemma_unknown_set_leaves_no_trace`, either both give a
/// batch or neither does, the two batches are the same, and so are the
/// gauges made of them: names, values, times and order.
pub proof fn lemma_unknown_set_leaves_no_trace_in_the_export(
    templates: Seq<UpdateView>,
    with: Seq<u8>,
    without: Seq<u8>,
)
    requires
        with.len() >= MESSAGE_HEADER_LEN,
        without.len() >= MESSAGE_HEADER_LEN,
        spec_window(with, 0, 2) == spec_window(without, 0, 2),
        spec_window(with, 4, 4) == spec_window(without, 4, 4),
        spec_be_u16(with, 2) <= with.len(),
        spec_be_u16(without, 2) <= without.len(),
        spec_set_fits(with, MESSAGE_HEADER_LEN as int, spec_be_u16(with, 2)),
        spec_template_for(templates, spec_set_id(with, MESSAGE_HEADER_LEN as int)) is None,
        spec_be_u16(with, 2) == spec_be_u16(without, 2) + spec_set_length(
            with,
            MESSAGE_HEADER_LEN as int,
        ),
        spec_window(
            with,
            MESSAGE_HEADER_LEN + spec_set_length(with, MESSAGE_HEADER_LEN as int),
            spec_be_u16(without, 2) - MESSAGE_HEADER_LEN,
        ) == spec_window(
            without,
            MESSAGE_HEADER_LEN as int,
            spec_be_u16(without, 2) - MESSAGE_HEADER_LEN,
        ),
    ensures
        match (spec_decode_message(templates, with), spec_decode_message(templates, without)) {
            (Ok(first), Ok(second)) => {
                &&& spec_batch_of(first) == spec_batch_of(second)
                &&& spec_batch_of(first) matches Some(batch) ==> spec_metrics(batch)
                    == spec_metrics(spec_batch_of(second)->Some_0)
            },
            (Err(first), Err(second)) => first == second,
            _ => false,
        },
{
    lemma_unknown_set_leaves_no_trace(templates, with, without);
}

} // verus!
