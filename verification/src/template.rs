//! IPFIX templates and the parser for template messages.
//!
//! A template message is an IPFIX message (16-byte header, then Sets) whose
//! Sets with id 2 carry template records: a template id, a field count and
//! that many field specifiers. A field specifier is an information-element id
//! and a length, followed by a 32-bit enterprise number when the high bit of
//! the id is set.

use vstd::prelude::*;
use crate::bytes::{read_be_u16, read_be_u32, spec_be_u16, spec_be_u32};

verus! {

/// IPFIX protocol version.
pub const IPFIX_VERSION: u16 = 10;

/// Size of the IPFIX message header.
pub const MESSAGE_HEADER_LEN: usize = 16;

/// Size of a Set header.
pub const SET_HEADER_LEN: usize = 4;

/// Set id of a Template Set.
pub const TEMPLATE_SET_ID: u16 = 2;

/// One field of a template.
#[derive(Debug, Clone, Copy, PartialEq, Eq)]
pub struct FieldSpec {
    /// The enterprise number, for an enterprise field.
    pub enterprise_number: Option<u32>,
    /// The information-element id, without the enterprise bit.
    pub information_element_id: u16,
    /// Number of bytes that the field takes in each data record.
    pub length: u16,
}

/// A template: how the records of a Data Set with the same id are laid out.
#[derive(Debug, PartialEq, Eq)]
pub struct IpfixTemplate {
    pub template_id: u16,
    pub field_specs: Vec<FieldSpec>,
}

/// What a template is, as a mathematical value.
pub struct TemplateView {
    pub template_id: u16,
    pub field_specs: Seq<FieldSpec>,
}

impl View for IpfixTemplate {
    type V = TemplateView;

    open spec fn view(&self) -> TemplateView {
        TemplateView { template_id: self.template_id, field_specs: self.field_specs@ }
    }
}

impl Clone for IpfixTemplate {
    fn clone(&self) -> (out: Self)
        ensures
            out@ == self@,
    {
        let mut field_specs: Vec<FieldSpec> = Vec::new();
        let mut i: usize = 0;
        while i < self.field_specs.len()
            invariant
                i <= self.field_specs.len(),
                field_specs@ == self.field_specs@.subrange(0, i as int),
            decreases self.field_specs.len() - i,
        {
            field_specs.push(self.field_specs[i]);
            i += 1;
            assert(field_specs@ =~= self.field_specs@.subrange(0, i as int));
        }
        assert(field_specs@ =~= self.field_specs@);
        IpfixTemplate { template_id: self.template_id, field_specs }
    }
}

/// Why a template message is refused.
#[derive(Debug, Clone, Copy, PartialEq, Eq, Structural)]
pub enum TemplateError {
    /// The message is shorter than the IPFIX message header.
    ShortHeader,
    /// The version field is not 10.
    BadVersion,
    /// The declared message length is under 16 or over the size of the blob.
    BadMessageLength,
    /// A Set header does not fit, or declares a length under 4 or past the
    /// end of the message.
    BadSetLength,
    /// A template record announces more field specifiers than its Set holds.
    TruncatedTemplate,
    /// The message holds no template record.
    NoTemplate,
}

/// Number of bytes that the field specifier at `at` takes: 8 with an
/// enterprise number, 4 without.
pub open spec fn spec_field_spec_width(b: Seq<u8>, at: int) -> int {
    if b[at] >= 0x80 {
        8
    } else {
        4
    }
}

/// The field specifier that starts at `at`.
pub open spec fn spec_field_spec_at(b: Seq<u8>, at: int) -> FieldSpec {
    if b[at] >= 0x80 {
        FieldSpec {
            enterprise_number: Some(spec_be_u32(b, at + 4) as u32),
            information_element_id: (spec_be_u16(b, at) - 0x8000) as u16,
            length: spec_be_u16(b, at + 2) as u16,
        }
    } else {
        FieldSpec {
            enterprise_number: None,
            information_element_id: spec_be_u16(b, at) as u16,
            length: spec_be_u16(b, at + 2) as u16,
        }
    }
}

/// The first `count` field specifiers from `start` on, none reaching past
/// `end`, with the offset behind them; `None` where they do not fit.
pub open spec fn spec_field_specs(b: Seq<u8>, start: int, end: int, count: nat) -> Option<
    (Seq<FieldSpec>, int),
>
    decreases count,
{
    if count == 0 {
        Some((Seq::<FieldSpec>::empty(), start))
    } else {
        match spec_field_specs(b, start, end, (count - 1) as nat) {
            None => None,
            Some((fields, at)) => if at + 4 > end || at + spec_field_spec_width(b, at) > end {
                None
            } else {
                Some((fields.push(spec_field_spec_at(b, at)), at + spec_field_spec_width(b, at)))
            },
        }
    }
}

/// Once the field specifiers stop fitting, asking for more does not help.
pub proof fn lemma_field_specs_none_stays(b: Seq<u8>, start: int, end: int, k: nat, count: nat)
    requires
        k <= count,
        spec_field_specs(b, start, end, k) is None,
    ensures
        spec_field_specs(b, start, end, count) is None,
    decreases count,
{
    if k < count {
        lemma_field_specs_none_stays(b, start, end, k, (count - 1) as nat);
    }
}

/// Field specifiers take room: what stands behind them does not stand in
/// front of them.
pub proof fn lemma_field_specs_advance(b: Seq<u8>, start: int, end: int, count: nat)
    ensures
        spec_field_specs(b, start, end, count) matches Some((_, next)) ==> next >= start + 4
            * count,
    decreases count,
{
    if count > 0 {
        lemma_field_specs_advance(b, start, end, (count - 1) as nat);
    }
}

/// The template records of a Template Set body that runs from `at` to `end`,
/// in wire order. Fewer than four bytes left over are padding.
pub open spec fn spec_template_records(b: Seq<u8>, at: int, end: int) -> Result<
    Seq<TemplateView>,
    TemplateError,
>
    decreases end - at,
    via spec_template_records_decreases
{
    if at + 4 > end {
        Ok(Seq::<TemplateView>::empty())
    } else {
        match spec_field_specs(b, at + 4, end, spec_be_u16(b, at + 2) as nat) {
            None => Err(TemplateError::TruncatedTemplate),
            Some((fields, next)) => match spec_template_records(b, next, end) {
                Err(e) => Err(e),
                Ok(rest) => Ok(
                    seq![
                        TemplateView { template_id: spec_be_u16(b, at) as u16, field_specs: fields },
                    ] + rest,
                ),
            },
        }
    }
}

#[via_fn]
proof fn spec_template_records_decreases(b: Seq<u8>, at: int, end: int) {
    if at + 4 <= end {
        lemma_field_specs_advance(b, at + 4, end, spec_be_u16(b, at + 2) as nat);
    }
}

/// The template records of all Template Sets from `at` to `end`, in wire
/// order. Sets with another id are passed over.
pub open spec fn spec_template_sets(b: Seq<u8>, at: int, end: int) -> Result<
    Seq<TemplateView>,
    TemplateError,
>
    decreases end - at,
{
    if at >= end {
        Ok(Seq::<TemplateView>::empty())
    } else if at + 4 > end || spec_be_u16(b, at + 2) < 4 || at + spec_be_u16(b, at + 2) > end {
        Err(TemplateError::BadSetLength)
    } else {
        let set_end = at + spec_be_u16(b, at + 2);
        let here = if spec_be_u16(b, at) == TEMPLATE_SET_ID {
            spec_template_records(b, at + 4, set_end)
        } else {
            Ok(Seq::<TemplateView>::empty())
        };
        match here {
            Err(e) => Err(e),
            Ok(found) => match spec_template_sets(b, set_end, end) {
                Err(e) => Err(e),
                Ok(rest) => Ok(found + rest),
            },
        }
    }
}

/// What `parse_template_message` returns for a blob.
pub open spec fn spec_parse_template_message(b: Seq<u8>) -> Result<
    Seq<TemplateView>,
    TemplateError,
> {
    if b.len() < MESSAGE_HEADER_LEN {
        Err(TemplateError::ShortHeader)
    } else if spec_be_u16(b, 0) != IPFIX_VERSION {
        Err(TemplateError::BadVersion)
    } else if spec_be_u16(b, 2) < MESSAGE_HEADER_LEN || spec_be_u16(b, 2) > b.len() {
        Err(TemplateError::BadMessageLength)
    } else {
        match spec_template_sets(b, MESSAGE_HEADER_LEN as int, spec_be_u16(b, 2)) {
            Err(e) => Err(e),
            Ok(found) => if found.len() == 0 {
                Err(TemplateError::NoTemplate)
            } else {
                Ok(found)
            },
        }
    }
}

/// The views of a vector of templates.
pub open spec fn spec_template_views(templates: Seq<IpfixTemplate>) -> Seq<TemplateView> {
    templates.map_values(|t: IpfixTemplate| t@)
}

/// Reads the field specifier at `at`.
fn read_field_spec(b: &[u8], at: usize, end: usize) -> (r: Option<(FieldSpec, usize)>)
    requires
        end <= b.len(),
    ensures
        match r {
            None => at + 4 > end || at + spec_field_spec_width(b@, at as int) > end,
            Some((field, next)) => {
                &&& at + 4 <= end
                &&& next == at + spec_field_spec_width(b@, at as int)
                &&& next <= end
                &&& field == spec_field_spec_at(b@, at as int)
            },
        },
{
    if end < 4 || at > end - 4 {
        return None;
    }
    let raw_id: u16 = read_be_u16(b, at);
    let length: u16 = read_be_u16(b, at + 2);
    if b[at] >= 0x80 {
        if end < 8 || at > end - 8 {
            return None;
        }
        let enterprise_number: u32 = read_be_u32(b, at + 4);
        let field = FieldSpec {
            enterprise_number: Some(enterprise_number),
            information_element_id: raw_id - 0x8000,
            length,
        };
        Some((field, at + 8))
    } else {
        let field = FieldSpec {
            enterprise_number: None,
            information_element_id: raw_id,
            length,
        };
        Some((field, at + 4))
    }
}

/// Reads `count` field specifiers from `start` on.
fn read_field_specs(b: &[u8], start: usize, end: usize, count: u16) -> (r: Option<
    (Vec<FieldSpec>, usize),
>)
    requires
        start <= end <= b.len(),
    ensures
        match r {
            None => spec_field_specs(b@, start as int, end as int, count as nat) is None,
            Some((fields, next)) => {
                &&& spec_field_specs(b@, start as int, end as int, count as nat) == Some(
                    (fields@, next as int),
                )
                &&& start <= next <= end
                &&& next >= start + 4 * count
            },
        },
{
    let mut fields: Vec<FieldSpec> = Vec::new();
    let mut at: usize = start;
    let mut i: u16 = 0;
    while i < count
        invariant
            i <= count,
            start <= at <= end <= b.len(),
            at >= start + 4 * i,
            spec_field_specs(b@, start as int, end as int, i as nat) == Some(
                (fields@, at as int),
            ),
        decreases count - i,
    {
        match read_field_spec(b, at, end) {
            None => {
                proof {
                    assert(spec_field_specs(b@, start as int, end as int, (i + 1) as nat) is None);
                    lemma_field_specs_none_stays(
                        b@,
                        start as int,
                        end as int,
                        (i + 1) as nat,
                        count as nat,
                    );
                }
                return None;
            },
            Some((field, next)) => {
                fields.push(field);
                at = next;
                i += 1;
            },
        }
    }
    Some((fields, at))
}

/// Reads the template records of one Template Set body.
fn read_template_records(b: &[u8], start: usize, end: usize, found: &mut Vec<IpfixTemplate>) -> (r:
    Result<(), TemplateError>)
    requires
        start <= end <= b.len(),
    ensures
        match r {
            Err(e) => spec_template_records(b@, start as int, end as int) == Err::<
                Seq<TemplateView>,
                TemplateError,
            >(e),
            Ok(()) => match spec_template_records(b@, start as int, end as int) {
                Err(_) => false,
                Ok(records) => spec_template_views(final(found)@) == spec_template_views(
                    old(found)@,
                ) + records,
            },
        },
{
    let mut at: usize = start;
    let ghost total = spec_template_records(b@, start as int, end as int);
    let ghost before = spec_template_views(found@);
    let ghost mut seen = Seq::<TemplateView>::empty();
    assert(before + seen =~= before);
    while end - at >= 4
        invariant
            start <= at <= end <= b.len(),
            total == spec_template_records(b@, start as int, end as int),
            spec_template_views(found@) == before + seen,
            match spec_template_records(b@, at as int, end as int) {
                Err(e) => total == Err::<Seq<TemplateView>, TemplateError>(e),
                Ok(rest) => total == Ok::<Seq<TemplateView>, TemplateError>(seen + rest),
            },
        decreases end - at,
    {
        let template_id: u16 = read_be_u16(b, at);
        let count: u16 = read_be_u16(b, at + 2);
        match read_field_specs(b, at + 4, end, count) {
            None => {
                return Err(TemplateError::TruncatedTemplate);
            },
            Some((field_specs, next)) => {
                let ghost rest_before = spec_template_records(b@, at as int, end as int);
                let template = IpfixTemplate { template_id, field_specs };
                proof {
                    let old_views = spec_template_views(found@);
                    let pushed = found@.push(template);
                    assert(spec_template_views(pushed) =~= old_views.push(template@));
                    match spec_template_records(b@, next as int, end as int) {
                        Err(e) => {},
                        Ok(rest) => {
                            assert(seen.push(template@) + rest =~= seen + (seq![template@] + rest));
                        },
                    }
                }
                found.push(template);
                proof {
                    seen = seen.push(template@);
                    assert(before + seen =~= (before + seen.drop_last()).push(template@));
                }
                at = next;
            },
        }
    }
    proof {
        assert(seen + Seq::<TemplateView>::empty() =~= seen);
    }
    Ok(())
}

/// Parses a template message into its templates, in wire order.
///
/// The blob must be an IPFIX message of version 10 whose declared length
/// lies within the blob; bytes behind that length are not looked at. Every
/// Set must fit, every template record must hold the field specifiers that
/// it announces, and at least one template record must be there.
pub fn parse_template_message(blob: &[u8]) -> (r: Result<Vec<IpfixTemplate>, TemplateError>)
    ensures
        match r {
            Ok(templates) => spec_parse_template_message(blob@) == Ok::<
                Seq<TemplateView>,
                TemplateError,
            >(spec_template_views(templates@)),
            Err(e) => spec_parse_template_message(blob@) == Err::<Seq<TemplateView>, TemplateError>(
                e,
            ),
        },
{
    if blob.len() < MESSAGE_HEADER_LEN {
        return Err(TemplateError::ShortHeader);
    }
    if read_be_u16(blob, 0) != IPFIX_VERSION {
        return Err(TemplateError::BadVersion);
    }
    let end: usize = read_be_u16(blob, 2) as usize;
    if end < MESSAGE_HEADER_LEN || end > blob.len() {
        return Err(TemplateError::BadMessageLength);
    }
    let mut found: Vec<IpfixTemplate> = Vec::new();
    let mut at: usize = MESSAGE_HEADER_LEN;
    let ghost total = spec_template_sets(blob@, MESSAGE_HEADER_LEN as int, end as int);
    assert(spec_template_views(found@) =~= Seq::<TemplateView>::empty());
    while at < end
        invariant
            MESSAGE_HEADER_LEN <= at <= end <= blob.len(),
            spec_be_u16(blob@, 0) == IPFIX_VERSION,
            end == spec_be_u16(blob@, 2),
            total == spec_template_sets(blob@, MESSAGE_HEADER_LEN as int, end as int),
            match spec_template_sets(blob@, at as int, end as int) {
                Err(e) => total == Err::<Seq<TemplateView>, TemplateError>(e),
                Ok(rest) => total == Ok::<Seq<TemplateView>, TemplateError>(
                    spec_template_views(found@) + rest,
                ),
            },
        decreases end - at,
    {
        if end - at < SET_HEADER_LEN {
            return Err(TemplateError::BadSetLength);
        }
        let set_id: u16 = read_be_u16(blob, at);
        let set_len: usize = read_be_u16(blob, at + 2) as usize;
        if set_len < SET_HEADER_LEN || set_len > end - at {
            return Err(TemplateError::BadSetLength);
        }
        let set_end: usize = at + set_len;
        let ghost views_before = spec_template_views(found@);
        if set_id == TEMPLATE_SET_ID {
            match read_template_records(blob, at + SET_HEADER_LEN, set_end, &mut found) {
                Err(e) => {
                    return Err(e);
                },
                Ok(()) => {},
            }
        }
        proof {
            let here = if set_id == TEMPLATE_SET_ID {
                spec_template_records(blob@, at + 4, set_end as int)
            } else {
                Ok(Seq::<TemplateView>::empty())
            };
            assert(here is Ok);
            assert(spec_template_views(found@) =~= views_before + here->Ok_0);
            match spec_template_sets(blob@, set_end as int, end as int) {
                Err(e) => {},
                Ok(rest) => {
                    assert((views_before + here->Ok_0) + rest =~= views_before + (here->Ok_0
                        + rest));
                },
            }
        }
        at = set_end;
    }
    proof {
        assert(spec_template_views(found@) + Seq::<TemplateView>::empty() =~= spec_template_views(
            found@,
        ));
    }
    if found.len() == 0 {
        return Err(TemplateError::NoTemplate);
    }
    Ok(found)
}

} // verus!
