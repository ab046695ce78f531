//! Register tables of the tuner family.

use vstd::prelude::*;

verus! {

/// Writes to tuner registers: register, value and the mask of the bits that are written.
pub type Rows = Seq<(u8, u8, u8)>;

/// Tracking filter settings: the lowest LO frequency in Hz that a row is for, then the open drain,
/// filter and corner register values.
pub type MuxRows = Seq<(u64, u8, u8, u8)>;

/// The contents of [`RegisterTables`].
#[verifier::ext_equal]
pub struct Tables {
    /// Power-on values of registers 5 to 31.
    pub initial: Seq<u8>,
    /// Writes before the filter calibration.
    pub before_calibration: Rows,
    /// Writes after the filter calibration.
    pub after_calibration: Rows,
    /// Power-down writes.
    pub standby: Rows,
    /// Tracking filter settings of standard boards.
    pub standard_mux: MuxRows,
    /// Tracking filter settings of Blog V4 boards.
    pub v4_mux: MuxRows,
}

/// Whether every row writes one of the registers 5 to 31.
pub open spec fn writable(rows: Rows) -> bool {
    forall|i: int| 0 <= i < rows.len() ==> 5 <= (#[trigger] rows[i]).0 <= 31
}

/// Whether tracking filter settings cover every frequency: the first row starts at zero.
pub open spec fn covering(rows: MuxRows) -> bool {
    rows.len() > 0 && rows[0].0 == 0
}

/// The last row whose lowest frequency is not above `lo`.
pub open spec fn mux_row(rows: MuxRows, lo: u64) -> (u64, u8, u8, u8)
    decreases rows.len(),
{
    if rows.len() <= 1 || rows.last().0 <= lo {
        rows.last()
    } else {
        mux_row(rows.drop_last(), lo)
    }
}

impl Tables {
    /// Whether the tables can drive a tuner.
    pub open spec fn valid(self) -> bool {
        &&& self.initial.len() == 27
        &&& writable(self.before_calibration)
        &&& writable(self.after_calibration)
        &&& writable(self.standby)
        &&& covering(self.standard_mux)
        &&& covering(self.v4_mux)
    }
}

/// Register tables of the tuner family, checked to be usable.
#[derive(Debug)]
pub struct RegisterTables {
    initial: [u8; 27],
    before_calibration: Vec<(u8, u8, u8)>,
    after_calibration: Vec<(u8, u8, u8)>,
    standby: Vec<(u8, u8, u8)>,
    standard_mux: Vec<(u64, u8, u8, u8)>,
    v4_mux: Vec<(u64, u8, u8, u8)>,
}

impl View for RegisterTables {
    type V = Tables;

    closed spec fn view(&self) -> Tables {
        Tables {
            initial: self.initial@,
            before_calibration: self.before_calibration@,
            after_calibration: self.after_calibration@,
            standby: self.standby@,
            standard_mux: self.standard_mux@,
            v4_mux: self.v4_mux@,
        }
    }
}

impl RegisterTables {
    /// Tables of one driver are always usable.
    #[verifier::type_invariant]
    pub open spec fn usable(self) -> bool {
        self@.valid()
    }

    /// Take the tables, if they are usable.
    pub fn new(
        initial: [u8; 27],
        before_calibration: Vec<(u8, u8, u8)>,
        after_calibration: Vec<(u8, u8, u8)>,
        standby: Vec<(u8, u8, u8)>,
        standard_mux: Vec<(u64, u8, u8, u8)>,
        v4_mux: Vec<(u64, u8, u8, u8)>,
    ) -> (tables: Option<RegisterTables>)
        ensures
            ({
                let content = Tables {
                    initial: initial@,
                    before_calibration: before_calibration@,
                    after_calibration: after_calibration@,
                    standby: standby@,
                    standard_mux: standard_mux@,
                    v4_mux: v4_mux@,
                };
                match tables {
                    Some(tables) => content.valid() && tables@ == content,
                    None => !content.valid(),
                }
            }),
    {
        if check_rows(&before_calibration) && check_rows(&after_calibration) && check_rows(
            &standby,
        ) && check_mux(&standard_mux) && check_mux(&v4_mux) {
            Some(
                RegisterTables {
                    initial,
                    before_calibration,
                    after_calibration,
                    standby,
                    standard_mux,
                    v4_mux,
                },
            )
        } else {
            None
        }
    }

    /// Power-on values of registers 5 to 31.
    pub fn initial(&self) -> (values: [u8; 27])
        ensures
            values@ == self@.initial,
    {
        self.initial
    }

    /// Writes before the filter calibration.
    pub fn before_calibration(&self) -> (rows: &[(u8, u8, u8)])
        ensures
            rows@ == self@.before_calibration,
            writable(rows@),
    {
        proof {
            use_type_invariant(self);
        }
        self.before_calibration.as_slice()
    }

    /// Writes after the filter calibration.
    pub fn after_calibration(&self) -> (rows: &[(u8, u8, u8)])
        ensures
            rows@ == self@.after_calibration,
            writable(rows@),
    {
        proof {
            use_type_invariant(self);
        }
        self.after_calibration.as_slice()
    }

    /// Power-down writes.
    pub fn standby(&self) -> (rows: &[(u8, u8, u8)])
        ensures
            rows@ == self@.standby,
            writable(rows@),
    {
        proof {
            use_type_invariant(self);
        }
        self.standby.as_slice()
    }

    /// Tracking filter setting for an LO frequency.
    pub fn mux(&self, blog_v4: bool, lo: u64) -> (row: (u64, u8, u8, u8))
        ensures
            row == mux_row(
                if blog_v4 {
                    self@.v4_mux
                } else {
                    self@.standard_mux
                },
                lo,
            ),
    {
        proof {
            use_type_invariant(self);
        }
        let rows: &Vec<(u64, u8, u8, u8)> = if blog_v4 {
            &self.v4_mux
        } else {
            &self.standard_mux
        };
        let mut i: usize = rows.len();
        assert(rows@.take(i as int) =~= rows@);
        while i > 1 && rows[i - 1].0 > lo
            invariant
                covering(rows@),
                1 <= i <= rows@.len(),
                mux_row(rows@, lo) == mux_row(rows@.take(i as int), lo),
            decreases i,
        {
            assert(rows@.take(i as int).drop_last() =~= rows@.take(i - 1));
            i = i - 1;
        }
        rows[i - 1]
    }
}

/// Whether every row writes one of the registers 5 to 31.
fn check_rows(rows: &Vec<(u8, u8, u8)>) -> (ok: bool)
    ensures
        ok == writable(rows@),
{
    let mut i: usize = 0;
    while i < rows.len()
        invariant
            i <= rows@.len(),
            forall|k: int| 0 <= k < i ==> 5 <= (#[trigger] rows@[k]).0 <= 31,
        decreases rows@.len() - i,
    {
        if rows[i].0 < 5 || rows[i].0 > 31 {
            return false;
        }
        i = i + 1;
    }
    true
}

/// Whether tracking filter settings cover every frequency.
fn check_mux(rows: &Vec<(u64, u8, u8, u8)>) -> (ok: bool)
    ensures
        ok == covering(rows@),
{
    rows.len() > 0 && rows[0].0 == 0
}

/// The row that is found for a frequency is the last one that is not above it.
pub proof fn mux_row_is_the_last_match(rows: MuxRows, lo: u64)
    requires
        covering(rows),
    ensures
        exists|i: int|
            #![trigger rows[i]]
            {
                &&& 0 <= i < rows.len()
                &&& mux_row(rows, lo) == rows[i]
                &&& rows[i].0 <= lo
                &&& forall|j: int| i < j < rows.len() ==> (#[trigger] rows[j]).0 > lo
            },
    decreases rows.len(),
{
    if rows.len() <= 1 || rows.last().0 <= lo {
        assert(mux_row(rows, lo) == rows[rows.len() - 1]);
    } else {
        let front = rows.drop_last();
        mux_row_is_the_last_match(front, lo);
        let i = choose|i: int|
            #![trigger front[i]]
            {
                &&& 0 <= i < front.len()
                &&& mux_row(front, lo) == front[i]
                &&& front[i].0 <= lo
                &&& forall|j: int| i < j < front.len() ==> (#[trigger] front[j]).0 > lo
            };
        assert(rows[i] == front[i]);
        assert forall|j: int| i < j < rows.len() implies (#[trigger] rows[j]).0 > lo by {
            if j < front.len() {
                assert(front[j] == rows[j]);
            }
        }
    }
}

/// The tracking filter's setting for a frequency is the one of the range that the frequency is in:
/// the last row that starts at or below it.
pub proof fn settings_are_those_of_the_range(rows: MuxRows, lo: u64, i: int)
    requires
        0 <= i < rows.len(),
        rows[i].0 <= lo,
        forall|j: int| i < j < rows.len() ==> lo < (#[trigger] rows[j]).0,
    ensures
        mux_row(rows, lo) == rows[i],
    decreases rows.len(),
{
    if i < rows.len() - 1 {
        assert(rows.last() == rows[rows.len() - 1]);
        let front = rows.drop_last();
        assert forall|j: int| i < j < front.len() implies lo < (#[trigger] front[j]).0 by {
            assert(front[j] == rows[j]);
        }
        settings_are_those_of_the_range(front, lo, i);
    }
}

} // verus!
