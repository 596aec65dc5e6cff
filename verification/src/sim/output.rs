//! Time history recorded by the simulator.

use vstd::prelude::*;

verus! {

/// Time history recorded by the simulator, over samples of type `T`.
///
/// `time[k]`, `state_vector[k]` and `output_vector[k]` all describe the
/// system at the same instant; the three vectors have the same length in a
/// well-formed history.
pub struct SimOutput<T> {
    /// Time vector [t0, t1, ..., tn]
    pub time: Vec<T>,
    /// State vectors [x0, x1, ..., xn]
    pub state_vector: Vec<Vec<T>>,
    /// Output vectors [y0, y1, ..., yn]
    pub output_vector: Vec<Vec<T>>,
}

/// The column `index` of a history of vectors: the value of one variable at
/// every sample.
pub open spec fn column<T>(rows: Seq<Vec<T>>, index: int) -> Seq<T> {
    rows.map_values(|row: Vec<T>| row@[index])
}

/// Every row of the history holds a value at `index`.
pub open spec fn has_column<T>(rows: Seq<Vec<T>>, index: int) -> bool {
    forall|k: int| 0 <= k < rows.len() ==> index < #[trigger] rows[k]@.len()
}

fn column_of<T: Copy>(rows: &Vec<Vec<T>>, index: usize) -> (values: Vec<T>)
    requires
        has_column(rows@, index as int),
    ensures
        values@ == column(rows@, index as int),
{
    let mut values: Vec<T> = Vec::with_capacity(rows.len());
    let mut k: usize = 0;
    while k < rows.len()
        invariant
            k <= rows.len(),
            has_column(rows@, index as int),
            values@ == column(rows@.take(k as int), index as int),
        decreases rows.len() - k,
    {
        assert(index < rows@[k as int]@.len());
        values.push(rows[k][index]);
        k = k + 1;
        assert(column(rows@.take(k as int), index as int) =~= column(
            rows@.take(k - 1),
            index as int,
        ).push(rows@[k - 1]@[index as int]));
    }
    assert(rows@.take(rows.len() as int) =~= rows@);
    values
}

impl<T: Copy> SimOutput<T> {
    /// The three histories have one entry per sample.
    pub open spec fn wf(&self) -> bool {
        &&& self.state_vector.len() == self.time.len()
        &&& self.output_vector.len() == self.time.len()
    }

    /// Returns the time history of the state variable at the given index.
    pub fn state_variable_at(&self, index: usize) -> (values: Vec<T>)
        requires
            has_column(self.state_vector@, index as int),
        ensures
            values@ == column(self.state_vector@, index as int),
    {
        column_of(&self.state_vector, index)
    }

    /// Returns the time history of the output variable at the given index.
    pub fn output_variable_at(&self, index: usize) -> (values: Vec<T>)
        requires
            has_column(self.output_vector@, index as int),
        ensures
            values@ == column(self.output_vector@, index as int),
    {
        column_of(&self.output_vector, index)
    }

    /// Returns the number of recorded samples.
    pub fn len(&self) -> (n: usize)
        ensures
            n == self.time.len(),
    {
        self.time.len()
    }

    /// Returns whether no sample has been recorded.
    pub fn is_empty(&self) -> (b: bool)
        ensures
            b == (self.time.len() == 0),
    {
        self.time.len() == 0
    }

    /// Creates a new empty history with room for `capacity` samples.
    pub fn with_capacity(capacity: usize) -> (out: Self)
        ensures
            out.wf(),
            out.time@.len() == 0,
            out.state_vector@.len() == 0,
            out.output_vector@.len() == 0,
    {
        SimOutput {
            time: Vec::with_capacity(capacity),
            state_vector: Vec::with_capacity(capacity),
            output_vector: Vec::with_capacity(capacity),
        }
    }

    /// Appends one sample: the time, the state and the output at that time.
    pub fn record(&mut self, time: T, state: Vec<T>, output: Vec<T>)
        ensures
            old(self).wf() ==> final(self).wf(),
            final(self).time@ == old(self).time@.push(time),
            final(self).state_vector@ == old(self).state_vector@.push(state),
            final(self).output_vector@ == old(self).output_vector@.push(output),
    {
        self.time.push(time);
        self.state_vector.push(state);
        self.output_vector.push(output);
    }
}

impl<T: Copy> Default for SimOutput<T> {
    fn default() -> (out: Self)
        ensures
            out.wf(),
            out.time@.len() == 0,
            out.state_vector@.len() == 0,
            out.output_vector@.len() == 0,
    {
        SimOutput { time: Vec::new(), state_vector: Vec::new(), output_vector: Vec::new() }
    }
}

/// Starting from an empty history, a run of records leaves exactly the
/// recorded samples, in the order they were recorded, with the three
/// histories of equal length. A simulation run records the initial condition
/// and one sample per step, so `n` steps leave `n + 1` samples.
pub proof fn lemma_run_sample_count<T: Copy>(
    history: Seq<SimOutput<T>>,
    samples: Seq<(T, Vec<T>, Vec<T>)>,
)
    requires
        history.len() == samples.len() + 1,
        history[0].wf(),
        history[0].time@.len() == 0,
        forall|k: int|
            0 <= k < samples.len() ==> {
                &&& (#[trigger] history[k + 1]).time@ == history[k].time@.push(samples[k].0)
                &&& history[k + 1].state_vector@ == history[k].state_vector@.push(samples[k].1)
                &&& history[k + 1].output_vector@ == history[k].output_vector@.push(samples[k].2)
            },
    ensures
        history.last().wf(),
        history.last().time@.len() == samples.len(),
        forall|k: int|
            0 <= k < samples.len() ==> {
                &&& history.last().time@[k] == (#[trigger] samples[k]).0
                &&& history.last().state_vector@[k] == samples[k].1
                &&& history.last().output_vector@[k] == samples[k].2
            },
    decreases samples.len(),
{
    if samples.len() > 0 {
        let n = samples.len() - 1;
        lemma_run_sample_count(history.take(n + 1), samples.take(n));
        assert(history.take(n + 1).last() == history[n]);
        assert forall|k: int| 0 <= k < samples.len() implies {
            &&& history.last().time@[k] == (#[trigger] samples[k]).0
            &&& history.last().state_vector@[k] == samples[k].1
            &&& history.last().output_vector@[k] == samples[k].2
        } by {
            if k < n {
                assert(samples.take(n)[k] == samples[k]);
            }
        }
    }
}

} // verus!
