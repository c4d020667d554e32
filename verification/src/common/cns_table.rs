//! The table of tolerated oxygen exposure times.
use vstd::prelude::*;
use crate::common::global_types::Pressure;

verus! {

/// One row of the oxygen exposure table: between `lo` (exclusive) and `hi`
/// (inclusive) bar of oxygen the tolerated time in minutes is
/// `slope * ppO2 + intercept`.
#[derive(Clone, Copy, Debug, PartialEq, Eq, Structural)]
pub struct CNSCoeffRow {
    pub lo: Pressure,
    pub hi: Pressure,
    pub slope: i32,
    pub intercept: i32,
}

/// Number of rows of the table.
pub const CNS_ROWS: usize = 7;

/// Row `i` of the table.
pub open spec fn cns_row(i: int) -> CNSCoeffRow {
    if i == 0 {
        CNSCoeffRow { lo: 500_000_000, hi: 600_000_000, slope: (-1800) as i32, intercept: 1800 }
    } else if i == 1 {
        CNSCoeffRow { lo: 600_000_000, hi: 700_000_000, slope: (-1500) as i32, intercept: 1620 }
    } else if i == 2 {
        CNSCoeffRow { lo: 700_000_000, hi: 800_000_000, slope: (-1200) as i32, intercept: 1410 }
    } else if i == 3 {
        CNSCoeffRow { lo: 800_000_000, hi: 900_000_000, slope: (-900) as i32, intercept: 1170 }
    } else if i == 4 {
        CNSCoeffRow { lo: 900_000_000, hi: 1_100_000_000, slope: (-600) as i32, intercept: 900 }
    } else if i == 5 {
        CNSCoeffRow { lo: 1_100_000_000, hi: 1_500_000_000, slope: (-300) as i32, intercept: 570 }
    } else {
        CNSCoeffRow { lo: 1_500_000_000, hi: 1_600_000_000, slope: (-750) as i32, intercept: 1245 }
    }
}

/// The table, from the lowest oxygen pressures to the highest.
pub fn cns_coefficients() -> (rows: [CNSCoeffRow; 7])
    ensures
        forall|i: int| 0 <= i < 7 ==> rows[i] == cns_row(i),
{
    [
        CNSCoeffRow { lo: 500_000_000, hi: 600_000_000, slope: -1800, intercept: 1800 },
        CNSCoeffRow { lo: 600_000_000, hi: 700_000_000, slope: -1500, intercept: 1620 },
        CNSCoeffRow { lo: 700_000_000, hi: 800_000_000, slope: -1200, intercept: 1410 },
        CNSCoeffRow { lo: 800_000_000, hi: 900_000_000, slope: -900, intercept: 1170 },
        CNSCoeffRow { lo: 900_000_000, hi: 1_100_000_000, slope: -600, intercept: 900 },
        CNSCoeffRow { lo: 1_100_000_000, hi: 1_500_000_000, slope: -300, intercept: 570 },
        CNSCoeffRow { lo: 1_500_000_000, hi: 1_600_000_000, slope: -750, intercept: 1245 },
    ]
}

} // verus!
