//! Oxygen toxicity: CNS loading and oxygen tolerance units.
use vstd::prelude::*;
use crate::common::cns_table::{cns_coefficients, cns_row, CNSCoeffRow};
use crate::common::fixed::{from_int, plus, scaled, times, Fixed, SCALE};
use crate::common::global_types::{Cns, MbarPressure, Otu, Pressure};
use crate::common::record::RecordData;

verus! {

/// Oxygen pressure from which the exposure table starts, in bar.
pub const CNS_TABLE_START: Pressure = 500_000_000;

/// Oxygen pressure at which the exposure table ends, in bar.
pub const CNS_TABLE_END: Pressure = 1_600_000_000;

/// Time that is taken as tolerated above the table, in seconds.
pub const CNS_LIMIT_OVER_MAX_PP02_SECONDS: i64 = 400;

/// What a record needs of the power function, computed by the caller for
/// the record's time, depth and gas.
#[derive(Clone, Copy, Debug, PartialEq, Eq, Structural)]
pub struct OxygenTerms {
    /// Share of the CNS loading that is left after the record's time at the
    /// surface: two to the power of minus the minutes over ninety.
    pub cns_retention: Fixed,
    /// Oxygen tolerance units gained per minute at the record's inspired
    /// oxygen pressure: `(0.5 / (ppO2 - 0.5))` to the power of `-0.8333`.
    pub otu_per_minute: Fixed,
}

/// Accumulated oxygen exposure: CNS loading in percent and tolerance units.
#[derive(Clone, Copy, Debug, PartialEq, Eq, Structural)]
pub struct OxTox {
    pub cns: Cns,
    pub otu: Otu,
}

/// Index of the table row for an oxygen pressure: the row whose range,
/// without its lower bound, holds the pressure.
pub open spec fn cns_row_index(pp_o2: Pressure) -> Option<int> {
    if pp_o2 <= 500_000_000 {
        None
    } else if pp_o2 <= 600_000_000 {
        Some(0)
    } else if pp_o2 <= 700_000_000 {
        Some(1)
    } else if pp_o2 <= 800_000_000 {
        Some(2)
    } else if pp_o2 <= 900_000_000 {
        Some(3)
    } else if pp_o2 <= 1_100_000_000 {
        Some(4)
    } else if pp_o2 <= 1_500_000_000 {
        Some(5)
    } else if pp_o2 <= 1_600_000_000 {
        Some(6)
    } else {
        None
    }
}

/// The table row for an oxygen pressure, if it has one.
pub open spec fn cns_coeffs_for(pp_o2: Pressure) -> Option<CNSCoeffRow> {
    match cns_row_index(pp_o2) {
        Some(i) => Some(cns_row(i)),
        None => None,
    }
}

/// Tolerated exposure time in minutes on a row of the table.
pub open spec fn cns_time_limit(row: CNSCoeffRow, pp_o2: Pressure) -> Fixed {
    plus(times(from_int(row.slope), pp_o2), from_int(row.intercept))
}

/// The oxygen pressure that a record is breathed at.
pub open spec fn record_pp_o2(record: RecordData, surface_pressure: MbarPressure) -> Pressure {
    record.gas.inspired_partial_pressures(record.depth, surface_pressure).o2
}

/// CNS loading after a record.
pub open spec fn cns_after(
    cns: Cns,
    record: RecordData,
    surface_pressure: MbarPressure,
    terms: OxygenTerms,
) -> Cns {
    let pp_o2 = record_pp_o2(record, surface_pressure);
    match cns_coeffs_for(pp_o2) {
        Some(row) => {
            let limit_seconds = scaled(cns_time_limit(row, pp_o2), 60, 1);
            plus(cns, scaled(record.time.s, (100 * SCALE) as i64, limit_seconds))
        },
        None => {
            if record.depth.m == 0 && pp_o2 <= CNS_TABLE_START {
                times(cns, terms.cns_retention)
            } else if pp_o2 > CNS_TABLE_END {
                plus(cns, scaled(record.time.s, 100, CNS_LIMIT_OVER_MAX_PP02_SECONDS))
            } else {
                cns
            }
        },
    }
}

/// Oxygen tolerance units after a record.
pub open spec fn otu_after(
    otu: Otu,
    record: RecordData,
    surface_pressure: MbarPressure,
    terms: OxygenTerms,
) -> Otu {
    if record_pp_o2(record, surface_pressure) < CNS_TABLE_START {
        otu
    } else {
        plus(otu, times(record.time.as_minutes(), terms.otu_per_minute))
    }
}

impl Default for OxTox {
    fn default() -> (r: Self)
        ensures
            r.cns == 0,
            r.otu == 0,
    {
        Self { cns: 0, otu: 0 }
    }
}

impl OxTox {
    /// The exposure after a record.
    pub open spec fn recalculated(
        self,
        record: RecordData,
        surface_pressure: MbarPressure,
        terms: OxygenTerms,
    ) -> OxTox {
        OxTox {
            cns: cns_after(self.cns, record, surface_pressure, terms),
            otu: otu_after(self.otu, record, surface_pressure, terms),
        }
    }

    pub fn cns(&self) -> (r: Cns)
        ensures
            r == self.cns,
    {
        self.cns
    }

    pub fn otu(&self) -> (r: Otu)
        ensures
            r == self.otu,
    {
        self.otu
    }

    /// Adds the exposure of one record.
    pub fn recalculate(
        &mut self,
        record: &RecordData,
        surface_pressure: MbarPressure,
        terms: OxygenTerms,
    )
        ensures
            *final(self) == old(self).recalculated(*record, surface_pressure, terms),
    {
        self.recalculate_cns(record, surface_pressure, terms);
        self.recalculate_otu(record, surface_pressure, terms);
    }

    /// Adds the share of the tolerated time that the record used up; at the
    /// surface on a low oxygen pressure the loading decays instead.
    pub fn recalculate_cns(
        &mut self,
        record: &RecordData,
        surface_pressure: MbarPressure,
        terms: OxygenTerms,
    )
        ensures
            final(self).cns == cns_after(old(self).cns, *record, surface_pressure, terms),
            final(self).otu == old(self).otu,
    {
        let pp_o2: i64 = record.gas.inspired_partial_pressures(record.depth, surface_pressure).o2;
        let coeffs_for_range = self.assign_cns_coeffs(pp_o2);
        match coeffs_for_range {
            Some(row) => {
                let t_lim: i64 = plus(times(from_int(row.slope), pp_o2), from_int(row.intercept));
                let limit_seconds: i64 = scaled(t_lim, 60, 1);
                self.cns = plus(self.cns, scaled(record.time.s, 100 * SCALE, limit_seconds));
            },
            None => {
                if record.depth.m == 0 && pp_o2 <= CNS_TABLE_START {
                    self.cns = times(self.cns, terms.cns_retention);
                } else if pp_o2 > CNS_TABLE_END {
                    self.cns = plus(
                        self.cns,
                        scaled(record.time.s, 100, CNS_LIMIT_OVER_MAX_PP02_SECONDS),
                    );
                }
            },
        }
    }

    /// Adds the tolerance units of one record; none below half a bar of
    /// oxygen.
    pub fn recalculate_otu(
        &mut self,
        record: &RecordData,
        surface_pressure: MbarPressure,
        terms: OxygenTerms,
    )
        ensures
            final(self).otu == otu_after(old(self).otu, *record, surface_pressure, terms),
            final(self).cns == old(self).cns,
    {
        let pp_o2: i64 = record.gas.inspired_partial_pressures(record.depth, surface_pressure).o2;
        if pp_o2 >= CNS_TABLE_START {
            self.otu = plus(self.otu, times(record.time.as_minutes(), terms.otu_per_minute));
        }
    }

    /// Finds the table row whose range holds `pp_o2`; the lower bound of a
    /// range does not belong to it.
    pub fn assign_cns_coeffs(&self, pp_o2: Pressure) -> (r: Option<CNSCoeffRow>)
        ensures
            r == cns_coeffs_for(pp_o2),
            r.is_some() <==> CNS_TABLE_START < pp_o2 <= CNS_TABLE_END,
            r matches Some(row) ==> row.lo < pp_o2 <= row.hi,
    {
        let rows = cns_coefficients();
        let mut i: usize = 0;
        while i < 7
            invariant
                i <= 7,
                forall|j: int| 0 <= j < 7 ==> rows[j] == cns_row(j),
                i == 0 || pp_o2 <= CNS_TABLE_START || pp_o2 > cns_row(i - 1).hi,
            decreases 7 - i,
        {
            let row = rows[i];
            assert(row == cns_row(i as int));
            if pp_o2 != row.lo && row.lo <= pp_o2 && pp_o2 <= row.hi {
                return Some(row);
            }
            i += 1;
        }
        None
    }
}

} // verus!
