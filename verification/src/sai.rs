//! Counter samples, sample batches, and the identifiers carried inside an
//! enterprise number.

use vstd::prelude::*;

verus! {

/// One counter sample: the value of one counter class of one object.
#[derive(Debug, PartialEq, Eq)]
pub struct SAIStat {
    /// Label of the port, queue or pool.
    pub object_name: String,
    /// SAI object class.
    pub type_id: u32,
    /// SAI counter class.
    pub stat_id: u32,
    /// The counter's value.
    pub counter: u64,
}

/// What a sample is, as a mathematical value.
pub struct SampleView {
    pub object_name: Seq<char>,
    pub type_id: u32,
    pub stat_id: u32,
    pub counter: u64,
}

impl View for SAIStat {
    type V = SampleView;

    open spec fn view(&self) -> SampleView {
        SampleView {
            object_name: self.object_name@,
            type_id: self.type_id,
            stat_id: self.stat_id,
            counter: self.counter,
        }
    }
}

impl Clone for SAIStat {
    fn clone(&self) -> (out: Self)
        ensures
            out@ == self@,
    {
        SAIStat {
            object_name: self.object_name.clone(),
            type_id: self.type_id,
            stat_id: self.stat_id,
            counter: self.counter,
        }
    }
}

/// The views of a vector of samples, in order.
pub open spec fn spec_sample_views(samples: Seq<SAIStat>) -> Seq<SampleView> {
    samples.map_values(|s: SAIStat| s@)
}

/// The samples decoded from one data message, with the time they were
/// observed at.
#[derive(Debug, PartialEq, Eq)]
pub struct SAIStats {
    /// Nanoseconds since the epoch.
    pub observation_time_ns: u64,
    /// The samples, in the order their bytes were read.
    pub samples: Vec<SAIStat>,
}

/// What a batch is, as a mathematical value.
pub struct BatchView {
    pub observation_time_ns: u64,
    pub samples: Seq<SampleView>,
}

impl View for SAIStats {
    type V = BatchView;

    open spec fn view(&self) -> BatchView {
        BatchView {
            observation_time_ns: self.observation_time_ns,
            samples: spec_sample_views(self.samples@),
        }
    }
}

impl Clone for SAIStats {
    fn clone(&self) -> (out: Self)
        ensures
            out@ == self@,
    {
        let mut samples: Vec<SAIStat> = Vec::new();
        let mut i: usize = 0;
        while i < self.samples.len()
            invariant
                i <= self.samples.len(),
                samples.len() == i,
                spec_sample_views(samples@) == spec_sample_views(self.samples@).subrange(
                    0,
                    i as int,
                ),
            decreases self.samples.len() - i,
        {
            samples.push(self.samples[i].clone());
            i += 1;
            assert(spec_sample_views(samples@) =~= spec_sample_views(self.samples@).subrange(
                0,
                i as int,
            ));
        }
        assert(spec_sample_views(samples@) =~= spec_sample_views(self.samples@));
        SAIStats { observation_time_ns: self.observation_time_ns, samples }
    }
}

/// The SAI object class encoded in an enterprise number: the low 15 bits of
/// its high half.
pub open spec fn spec_type_id(enterprise_number: u32) -> u32 {
    (enterprise_number >> 16) & 0x7FFF
}

/// The SAI counter class encoded in an enterprise number: the low 15 bits of
/// its low half.
pub open spec fn spec_stat_id(enterprise_number: u32) -> u32 {
    enterprise_number & 0x7FFF
}

/// Splits an enterprise number into `(type_id, stat_id)`, dropping the two
/// extension flags (bit 31 and bit 15).
pub fn decode_enterprise_number(enterprise_number: u32) -> (ids: (u32, u32))
    ensures
        ids.0 == spec_type_id(enterprise_number),
        ids.1 == spec_stat_id(enterprise_number),
        ids.0 == ((enterprise_number >> 16) & 0xFFFF) & 0x7FFF,
        ids.1 == (enterprise_number & 0xFFFF) & 0x7FFF,
        ids.0 <= 0x7FFF,
        ids.1 <= 0x7FFF,
{
    let type_id: u32 = (enterprise_number >> 16) & 0x7FFF;
    let stat_id: u32 = enterprise_number & 0x7FFF;
    assert(((enterprise_number >> 16) & 0x7FFF) <= 0x7FFF) by (bit_vector);
    assert((enterprise_number & 0x7FFF) <= 0x7FFF) by (bit_vector);
    assert((enterprise_number >> 16) & 0x7FFF == ((enterprise_number >> 16) & 0xFFFF) & 0x7FFF)
        by (bit_vector);
    assert(enterprise_number & 0x7FFF == (enterprise_number & 0xFFFF) & 0x7FFF) by (bit_vector);
    (type_id, stat_id)
}

} // verus!
