//! A sink that keeps what the metrics exporter publishes of each
//! measurement, until the exporter takes it.

use vstd::prelude::*;
use crate::parser::{Reading, RuuviData, RuuviSink};

verus! {

/// What is published of one measurement.
#[derive(Debug, Clone, PartialEq, Eq)]
pub struct Sample {
    /// Address the measurement was received under: the label of its metrics.
    pub mac: String,
    /// Temperature in thousandths of a degree Celsius.
    pub temperature: i32,
}

impl View for Sample {
    type V = (Seq<char>, int);

    open spec fn view(&self) -> (Seq<char>, int) {
        (self.mac@, self.temperature as int)
    }
}

/// Collects the samples of the measurements it is given, in the order in
/// which they came. The sink itself does no I/O: the exporter takes the
/// samples with [`RuuviPrometheusSink::take_pending`] and publishes them.
pub struct RuuviPrometheusSink {
    pending: Vec<Sample>,
}

impl RuuviPrometheusSink {
    /// The samples that were collected and not yet taken, oldest first.
    pub closed spec fn pending(&self) -> Seq<(Seq<char>, int)> {
        self.pending@.map_values(|s: Sample| s@)
    }

    /// A sink that holds no sample.
    pub fn new() -> (sink: Self)
        ensures
            sink.pending() == Seq::<(Seq<char>, int)>::empty(),
    {
        let sink = RuuviPrometheusSink { pending: Vec::new() };
        proof {
            assert(sink.pending() =~= Seq::<(Seq<char>, int)>::empty());
        }
        sink
    }

    /// Number of samples that wait to be taken.
    pub fn pending_len(&self) -> (n: usize)
        ensures
            n == self.pending().len(),
    {
        self.pending.len()
    }

    /// Hands out the samples collected since the last call, oldest first,
    /// and leaves none behind.
    pub fn take_pending(&mut self) -> (samples: Vec<Sample>)
        ensures
            samples@.map_values(|s: Sample| s@) == old(self).pending(),
            final(self).pending() == Seq::<(Seq<char>, int)>::empty(),
    {
        let mut samples: Vec<Sample> = Vec::new();
        std::mem::swap(&mut self.pending, &mut samples);
        proof {
            assert(self.pending() =~= Seq::<(Seq<char>, int)>::empty());
        }
        samples
    }
}

impl Default for RuuviPrometheusSink {
    fn default() -> (sink: Self)
        ensures
            sink.pending() == Seq::<(Seq<char>, int)>::empty(),
    {
        RuuviPrometheusSink::new()
    }
}

impl RuuviSink for RuuviPrometheusSink {
    /// One call appends the sample of the measurement to those that wait.
    open spec fn takes(
        before: &Self,
        after: &Self,
        source_mac: Seq<char>,
        measurement: Reading,
    ) -> bool {
        after.pending() == before.pending().push((source_mac, measurement.temperature))
    }

    /// Collects the sample of `measurement` under `source_mac`.
    fn sink(&mut self, source_mac: &str, measurement: RuuviData) {
        let sample = Sample { mac: source_mac.to_owned(), temperature: measurement.temperature };
        self.pending.push(sample);
        proof {
            assert(self.pending() =~= old(self).pending().push(
                (source_mac@, measurement.temperature as int),
            ));
        }
    }
}

} // verus!
