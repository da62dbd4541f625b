//! Oscillator kinds, lookup-table oscillators and the shared table cache.
//!
//! A lookup table holds one period of a waveform sampled at a given rate:
//! its length always equals that sample rate, one entry per sample index.
//! [`LookupOscillator`] walks such a table one entry per call, wrapping at
//! the end of the period.  [`OscillatorAllocator`] is a fixed-capacity
//! cache keyed by (waveform kind, frequency, duty cycle) that lets every
//! oscillator configured identically share a single reference-counted
//! table; entries are never evicted or replaced.
//!
//! The cache separates the bookkeeping, which is verified here, from
//! table synthesis, which works in floating point and therefore lives
//! with the embedding program: [`OscillatorAllocator::lookup`] finds an
//! existing table and [`OscillatorAllocator::insert`] files a freshly
//! synthesized one, failing with [`TableError::TableFull`] when the
//! capacity is exhausted, without touching the existing entries.

use vstd::prelude::*;
use vstd::pervasive::VecAdditionalExecFns;
use vstd::arithmetic::div_mod::{lemma_fundamental_div_mod, lemma_fundamental_div_mod_converse};
use std::rc::Rc;
use crate::freq::Hertz;

verus! {

/// Relies on `Rc::clone`: cloning a reference-counted pointer yields a
/// pointer to the same allocation, so the clone sees the same value.
#[verifier::external_body]
fn clone_table<S>(table: &Rc<Vec<S>>) -> (r: Rc<Vec<S>>)
    ensures
        r == *table,
{
    Rc::clone(table)
}

/// The fraction of a square wave's period spent in the high state.
///
/// A closed enumeration of discrete fractions rather than a free float,
/// so that it can key the lookup-table cache.
#[derive(Debug, Copy, Clone, Hash, Eq, PartialEq, Structural)]
pub enum DutyCycle {
    /// A duty cycle of 12.5%.
    Eight,
    /// A duty cycle of 25%.
    Quarter,
    /// A duty cycle of 33%.
    Third,
    /// A duty cycle of 50%.
    Half,
}

impl DutyCycle {
    /// The duty cycle as a fraction of the period, in thousandths.
    pub open spec fn thousandths_spec(self) -> int {
        match self {
            DutyCycle::Eight => 125,
            DutyCycle::Quarter => 250,
            DutyCycle::Third => 330,
            DutyCycle::Half => 500,
        }
    }

    /// Converts the duty cycle to a fraction of the period, expressed in
    /// thousandths, for feeding to waveform algorithms.
    pub fn to_fractional_thousandths(self) -> (r: u32)
        ensures
            r == self.thousandths_spec(),
    {
        match self {
            DutyCycle::Eight => 125,
            DutyCycle::Quarter => 250,
            DutyCycle::Third => 330,
            DutyCycle::Half => 500,
        }
    }
}

impl Default for DutyCycle {
    /// The default cycle is half.
    fn default() -> (r: Self)
        ensures
            r == DutyCycle::Half,
    {
        DutyCycle::Half
    }
}

/// The kind of waveform an oscillator produces.
#[derive(Debug, Copy, Clone, Hash, Eq, PartialEq, Structural)]
pub enum OscillatorType {
    /// A classic continuous tone at a specific frequency: a single
    /// carrier and no harmonics.
    Sine,
    /// A buzzy, strong sound containing both even and odd harmonics of
    /// the fundamental frequency.
    Saw,
    /// A fairly smooth tonal sound with odd harmonics that roll off much
    /// faster than in a square wave.
    Triangle,
    /// A very buzzy, strong sound with odd harmonics that roll off much
    /// slower than in a triangle wave.
    Square,
}

/// An error returned from building or filing an oscillator lookup table.
#[derive(Debug)]
pub enum TableError {
    /// The table buffer's length does not equal the sample rate it was
    /// to be built for.
    IncorrectSize { expected: usize, actual: usize },
    /// The table cache holds as many tables as its capacity allows.
    TableFull,
}

/// An oscillator that can be sampled one value at a time, whatever its
/// backing implementation.
pub trait Oscillator<S: Copy> {
    /// Takes the next sample from the oscillator and advances its
    /// position within the period.
    fn sample(&mut self) -> S;

    /// Renders the oscillator into the provided buffer by taking one
    /// sample per element, leaving the buffer's length unchanged.
    fn render(&mut self, buffer: &mut Vec<S>)
        ensures
            final(buffer)@.len() == old(buffer)@.len(),
    {
        let n = buffer.len();
        let mut i: usize = 0;
        while i < n
            invariant
                i <= n,
                buffer@.len() == n,
            decreases n - i,
        {
            let s = self.sample();
            buffer.set(i, s);
            i = i + 1;
        }
    }
}

/// An oscillator that reads a precomputed lookup table of one waveform
/// period, advancing an index that wraps at the end of the table.
pub struct LookupOscillator<'a, S: Copy> {
    sample_rate: usize,
    /// The table is borrowed so that a shared allocator can hand the
    /// same backing buffer to several oscillators at once.
    table: &'a [S],
    index: usize,
}

impl<'a, S: Copy> LookupOscillator<'a, S> {
    /// The type invariant: the table holds exactly one entry per sample
    /// index of the period and the cursor stays inside it.
    #[verifier::type_invariant]
    pub closed spec fn wf(self) -> bool {
        self.table@.len() == self.sample_rate && self.index < self.sample_rate
    }

    /// The sample rate the table was built for.
    pub closed spec fn sample_rate_spec(&self) -> int {
        self.sample_rate as int
    }

    /// The table entries.
    pub closed spec fn table_spec(&self) -> Seq<S> {
        self.table@
    }

    /// The index of the entry the next call to `sample` returns.
    pub closed spec fn index_spec(&self) -> int {
        self.index as int
    }

    /// Constructs a lookup oscillator over a table of one waveform
    /// period, whose length must equal the sample rate.
    pub fn new_from_table(sample_rate: usize, table: &'a [S]) -> (r: Self)
        requires
            table@.len() == sample_rate,
            sample_rate > 0,
        ensures
            r.sample_rate_spec() == sample_rate,
            r.table_spec() == table@,
            r.index_spec() == 0,
    {
        Self { sample_rate, table, index: 0 }
    }

    /// Takes the sample at the given index, wrapped into the period.
    pub fn sample_at(&self, index: usize) -> (r: S)
        ensures
            r == self.table_spec()[index as int % self.sample_rate_spec()],
    {
        proof {
            use_type_invariant(self);
        }
        self.table[index % self.table.len()]
    }
}

impl<'a, S: Copy> Oscillator<S> for LookupOscillator<'a, S> {
    /// Takes the sample under the cursor and steps the cursor forward,
    /// wrapping back to the start of the period at the table's end.
    fn sample(&mut self) -> (r: S)
        ensures
            r == old(self).table_spec()[old(self).index_spec()],
            final(self).table_spec() == old(self).table_spec(),
            final(self).sample_rate_spec() == old(self).sample_rate_spec(),
            final(self).index_spec() == if old(self).index_spec() + 1 == old(
                self,
            ).sample_rate_spec() {
                0
            } else {
                old(self).index_spec() + 1
            },
    {
        proof {
            use_type_invariant(&*self);
        }
        let sample = self.table[self.index];
        self.index = if self.index + 1 >= self.sample_rate {
            0
        } else {
            self.index + 1
        };
        sample
    }

    /// Renders the table into the buffer in order, one entry per call,
    /// continuing from the cursor and wrapping at the period's end: the
    /// same samples, in the same order, as repeated calls to `sample`.
    fn render(&mut self, buffer: &mut Vec<S>)
        ensures
            final(buffer)@.len() == old(buffer)@.len(),
            forall|i: int|
                0 <= i < old(buffer)@.len() ==> final(buffer)@[i] == old(self).table_spec()[(old(
                    self,
                ).index_spec() + i) % old(self).sample_rate_spec()],
            final(self).table_spec() == old(self).table_spec(),
            final(self).sample_rate_spec() == old(self).sample_rate_spec(),
            final(self).index_spec() == (old(self).index_spec() + old(buffer)@.len()) % old(
                self,
            ).sample_rate_spec(),
    {
        proof {
            use_type_invariant(&*self);
            lemma_fundamental_div_mod_converse(
                old(self).index_spec(),
                old(self).sample_rate_spec(),
                0,
                old(self).index_spec(),
            );
        }
        let n = buffer.len();
        let mut i: usize = 0;
        while i < n
            invariant
                i <= n,
                buffer@.len() == n,
                self.table_spec() == old(self).table_spec(),
                self.sample_rate_spec() == old(self).sample_rate_spec(),
                0 < self.sample_rate_spec(),
                self.index_spec() == (old(self).index_spec() + i) % self.sample_rate_spec(),
                forall|j: int|
                    0 <= j < i ==> buffer@[j] == old(self).table_spec()[(old(self).index_spec()
                        + j) % old(self).sample_rate_spec()],
                forall|j: int| i <= j < n ==> buffer@[j] == old(buffer)@[j],
                0 <= self.index_spec() < self.sample_rate_spec(),
            decreases n - i,
        {
            let ghost pos = old(self).index_spec() + i;
            let ghost rate = self.sample_rate_spec();
            let ghost q = pos / rate;
            let s = self.sample();
            proof {
                lemma_fundamental_div_mod(pos, rate);
                assert(rate * q == q * rate) by (nonlinear_arith);
                assert((q + 1) * rate == q * rate + rate) by (nonlinear_arith);
                if pos % rate + 1 == rate {
                    lemma_fundamental_div_mod_converse(pos + 1, rate, q + 1, 0);
                } else {
                    lemma_fundamental_div_mod_converse(pos + 1, rate, q, pos % rate + 1);
                }
            }
            buffer.set(i, s);
            i = i + 1;
        }
    }
}

/// A fixed-capacity cache of shared oscillator lookup tables, keyed by
/// waveform kind, frequency and duty cycle.
pub struct OscillatorAllocator<S> {
    sample_rate: usize,
    max_tables: usize,
    entries: Vec<(OscillatorType, Hertz, DutyCycle, Rc<Vec<S>>)>,
}

impl<S> OscillatorAllocator<S> {
    /// The type invariant: the cache never outgrows its capacity and
    /// every cached table holds exactly one entry per sample index.
    #[verifier::type_invariant]
    pub closed spec fn wf(self) -> bool {
        &&& self.entries@.len() <= self.max_tables
        &&& forall|i: int|
            0 <= i < self.entries@.len() ==> (#[trigger] self.entries@[i]).3@.len()
                == self.sample_rate
    }

    /// The sample rate every cached table is sized for.
    pub closed spec fn sample_rate_spec(&self) -> int {
        self.sample_rate as int
    }

    /// The capacity the cache was constructed with.
    pub closed spec fn capacity_spec(&self) -> int {
        self.max_tables as int
    }

    /// How many tables the cache currently holds.
    pub closed spec fn num_tables(&self) -> int {
        self.entries@.len() as int
    }

    /// The key of the cache entry at position `i`: waveform kind,
    /// frequency in 0.0001 Hz units, and duty cycle.
    pub closed spec fn key_at(&self, i: int) -> (OscillatorType, int, DutyCycle) {
        (self.entries@[i].0, self.entries@[i].1@, self.entries@[i].2)
    }

    /// The entries of the cached table at position `i`.
    pub closed spec fn table_at(&self, i: int) -> Seq<S> {
        self.entries@[i].3@
    }

    /// Whether the entry at position `i` matches the requested kind,
    /// frequency and duty cycle.  Frequencies match within the 0.0001 Hz
    /// resolution of [`Hertz`] equality.
    pub open spec fn matches_at(
        &self,
        i: int,
        osc: OscillatorType,
        frequency_units: int,
        duty_cycle: DutyCycle,
    ) -> bool {
        let (k_osc, k_units, k_duty) = self.key_at(i);
        k_osc == osc && -1 <= k_units - frequency_units <= 1 && k_duty == duty_cycle
    }

    /// Constructs an empty cache for tables of the given sample rate,
    /// holding at most `max_tables` tables.
    pub fn new(sample_rate: usize, max_tables: usize) -> (r: Self)
        ensures
            r.sample_rate_spec() == sample_rate,
            r.capacity_spec() == max_tables,
            r.num_tables() == 0,
    {
        Self { sample_rate, max_tables, entries: Vec::new() }
    }

    /// The sample rate every cached table is sized for.
    pub fn sample_rate(&self) -> (r: usize)
        ensures
            r == self.sample_rate_spec(),
    {
        self.sample_rate
    }

    /// How many tables the cache currently holds.
    pub fn table_count(&self) -> (r: usize)
        ensures
            r == self.num_tables(),
    {
        self.entries.len()
    }

    /// Scans the cache for a table built for the given waveform kind,
    /// frequency (within resolution) and duty cycle, returning a new
    /// reference to the first matching table's shared backing buffer.
    pub fn lookup(
        &self,
        osc: OscillatorType,
        frequency: Hertz,
        duty_cycle: DutyCycle,
    ) -> (r: Option<Rc<Vec<S>>>)
        ensures
            r is Some <==> exists|i: int|
                0 <= i < self.num_tables() && self.matches_at(i, osc, frequency@, duty_cycle),
            r matches Some(t) ==> exists|i: int|
                {
                    &&& 0 <= i < self.num_tables()
                    &&& self.matches_at(i, osc, frequency@, duty_cycle)
                    &&& forall|j: int|
                        0 <= j < i ==> !self.matches_at(j, osc, frequency@, duty_cycle)
                    &&& t@ == self.table_at(i)
                    &&& t@.len() == self.sample_rate_spec()
                },
    {
        proof {
            use_type_invariant(self);
        }
        let n = self.entries.len();
        let mut i: usize = 0;
        while i < n
            invariant
                i <= n,
                n == self.num_tables(),
                forall|j: int| 0 <= j < i ==> !self.matches_at(j, osc, frequency@, duty_cycle),
            decreases n - i,
        {
            let entry = &self.entries[i];
            if entry.0 == osc && entry.1 == frequency && entry.2 == duty_cycle {
                let t = clone_table(&entry.3);
                proof {
                    use_type_invariant(self);
                    let wi = i as int;
                    assert(self.matches_at(wi, osc, frequency@, duty_cycle));
                    assert(t@ == self.table_at(wi));
                    assert(forall|j: int|
                        0 <= j < wi ==> !self.matches_at(j, osc, frequency@, duty_cycle));
                }
                return Some(t);
            }
            i = i + 1;
        }
        None
    }

    /// Files a freshly synthesized table under the given key and returns
    /// a new reference to its shared backing buffer.
    ///
    /// Fails with [`TableError::IncorrectSize`] if the table's length
    /// does not equal the cache's sample rate, and with
    /// [`TableError::TableFull`] if the cache is at capacity; either way
    /// the cache is left exactly as it was.
    pub fn insert(
        &mut self,
        osc: OscillatorType,
        frequency: Hertz,
        duty_cycle: DutyCycle,
        table: Vec<S>,
    ) -> (r: Result<Rc<Vec<S>>, TableError>)
        ensures
            match r {
                Ok(t) => {
                    &&& table@.len() == old(self).sample_rate_spec()
                    &&& old(self).num_tables() < old(self).capacity_spec()
                    &&& t@ == table@
                    &&& final(self).num_tables() == old(self).num_tables() + 1
                    &&& final(self).key_at(old(self).num_tables()) == (osc, frequency@, duty_cycle)
                    &&& final(self).table_at(old(self).num_tables()) == table@
                    &&& forall|i: int|
                        0 <= i < old(self).num_tables() ==> final(self).key_at(i) == old(
                            self,
                        ).key_at(i) && final(self).table_at(i) == old(self).table_at(i)
                    &&& final(self).sample_rate_spec() == old(self).sample_rate_spec()
                    &&& final(self).capacity_spec() == old(self).capacity_spec()
                },
                Err(TableError::IncorrectSize { expected, actual }) => {
                    &&& table@.len() != old(self).sample_rate_spec()
                    &&& expected == old(self).sample_rate_spec()
                    &&& actual == table@.len()
                    &&& *final(self) == *old(self)
                },
                Err(TableError::TableFull) => {
                    &&& table@.len() == old(self).sample_rate_spec()
                    &&& old(self).num_tables() >= old(self).capacity_spec()
                    &&& *final(self) == *old(self)
                },
            },
    {
        proof {
            use_type_invariant(&*self);
        }
        if table.len() != self.sample_rate {
            return Err(TableError::IncorrectSize {
                expected: self.sample_rate,
                actual: table.len(),
            });
        }
        if self.entries.len() >= self.max_tables {
            return Err(TableError::TableFull);
        }
        let rc = Rc::new(table);
        let out = clone_table(&rc);
        // Push on a local vector and swap it in, so the type invariant is
        // only checked at the swaps, where it holds.
        let mut entries: Vec<(OscillatorType, Hertz, DutyCycle, Rc<Vec<S>>)> = Vec::new();
        core::mem::swap(&mut self.entries, &mut entries);
        entries.push((osc, frequency, duty_cycle, rc));
        core::mem::swap(&mut self.entries, &mut entries);
        Ok(out)
    }
}


/// Allocator sharing: two lookups with the same waveform kind,
/// frequency and duty cycle are answered by the same cache entry, so
/// the tables they return hold the same contents.  `lookup`'s contract
/// pins its answer to the first matching entry; this law states that
/// that entry is unique.
pub proof fn lemma_lookup_shares_table<S>(
    cache: &OscillatorAllocator<S>,
    osc: OscillatorType,
    frequency_units: int,
    duty_cycle: DutyCycle,
    i1: int,
    i2: int,
)
    requires
        0 <= i1 < cache.num_tables(),
        cache.matches_at(i1, osc, frequency_units, duty_cycle),
        forall|j: int| 0 <= j < i1 ==> !cache.matches_at(j, osc, frequency_units, duty_cycle),
        0 <= i2 < cache.num_tables(),
        cache.matches_at(i2, osc, frequency_units, duty_cycle),
        forall|j: int| 0 <= j < i2 ==> !cache.matches_at(j, osc, frequency_units, duty_cycle),
    ensures
        i1 == i2,
        cache.table_at(i1) == cache.table_at(i2),
{
    if i1 < i2 {
        assert(!cache.matches_at(i1, osc, frequency_units, duty_cycle));
    } else if i2 < i1 {
        assert(!cache.matches_at(i2, osc, frequency_units, duty_cycle));
    }
}

/// A query with a different duty cycle is answered by a different
/// entry: no cache entry matches two distinct duty cycles, whatever the
/// kind and frequency.
pub proof fn lemma_distinct_duty_distinct_entry<S>(
    cache: &OscillatorAllocator<S>,
    i: int,
    osc: OscillatorType,
    frequency_units: int,
    first_duty: DutyCycle,
    second_duty: DutyCycle,
)
    requires
        first_duty != second_duty,
        cache.matches_at(i, osc, frequency_units, first_duty),
    ensures
        !cache.matches_at(i, osc, frequency_units, second_duty),
{
}

} // verus!
