//! Series.

use vstd::prelude::*;

verus! {

/// One series of a figure: the clause that styles it in the `plot` statement
/// and the block of samples that the clause announces.
///
/// The block holds `records` records of `columns` doubles each, eight bytes to
/// the double.  A line is made whole and never changed, so that the count it
/// announces is the count it holds.
#[derive(Debug, PartialEq, Eq)]
pub struct Line {
    args: Vec<u8>,
    data: Vec<u8>,
    records: usize,
    columns: usize,
}

/// A `Line` as contracts see it.
pub struct LineView {
    pub args: Seq<u8>,
    pub data: Seq<u8>,
    pub records: nat,
    pub columns: nat,
}

impl LineView {
    /// Whether the block holds exactly the records that are counted.
    pub open spec fn balanced(self) -> bool {
        self.data.len() == 8 * self.columns * self.records
    }
}

impl View for Line {
    type V = LineView;

    closed spec fn view(&self) -> LineView {
        LineView {
            args: self.args@,
            data: self.data@,
            records: self.records as nat,
            columns: self.columns as nat,
        }
    }
}

impl Line {
    #[verifier::type_invariant]
    spec fn balanced(&self) -> bool {
        self@.balanced()
    }

    /// The series without samples and without a clause.
    pub fn new() -> (line: Line)
        ensures
            line@ == (LineView {
                args: Seq::empty(),
                data: Seq::empty(),
                records: 0,
                columns: 0,
            }),
    {
        Line { args: Vec::new(), data: Vec::new(), records: 0, columns: 0 }
    }

    /// The series with the given clause and block.
    pub(crate) fn from_parts(args: Vec<u8>, data: Vec<u8>, records: usize, columns: usize) -> (line: Line)
        requires
            data@.len() == 8 * columns * records,
        ensures
            line@ == (LineView {
                args: args@,
                data: data@,
                records: records as nat,
                columns: columns as nat,
            }),
    {
        Line { args, data, records, columns }
    }

    /// The clause that styles the series in the `plot` statement.
    pub fn args(&self) -> (args: &Vec<u8>)
        ensures
            args@ == self@.args,
    {
        &self.args
    }

    /// The packed samples.
    pub fn data(&self) -> (data: &Vec<u8>)
        ensures
            data@ == self@.data,
            self@.balanced(),
    {
        proof {
            use_type_invariant(self);
        }
        &self.data
    }

    /// The number of records in the block.
    pub fn records(&self) -> (records: usize)
        ensures
            records == self@.records,
            self@.balanced(),
    {
        proof {
            use_type_invariant(self);
        }
        self.records
    }

    /// The number of doubles in each record.
    pub fn columns(&self) -> (columns: usize)
        ensures
            columns == self@.columns,
    {
        self.columns
    }
}

} // verus!
