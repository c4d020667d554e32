//! The ZH-L16C constants of the sixteen tissues.
use vstd::prelude::*;
use crate::common::fixed::Fixed;

verus! {

/// Half-times in minutes and the coefficients `a` (in bar) and `b` of one
/// tissue, for nitrogen and for helium.
#[derive(Clone, Copy, Debug, PartialEq, Eq, Structural)]
pub struct ZHLParams {
    pub n2_half_time: Fixed,
    pub n2_a: Fixed,
    pub n2_b: Fixed,
    pub he_half_time: Fixed,
    pub he_a: Fixed,
    pub he_b: Fixed,
}

/// Number of tissues of the model.
pub const COMPARTMENTS: usize = 16;

/// The ZH-L16C values of tissue `i`, counted from zero.
pub open spec fn zhl_16c(i: int) -> ZHLParams {
    if i == 0 {
        ZHLParams {
            n2_half_time: 4_000_000_000, n2_a: 1_259_900_000, n2_b: 505_000_000,
            he_half_time: 1_510_000_000, he_a: 1_742_400_000, he_b: 424_500_000
        }
    } else if i == 1 {
        ZHLParams {
            n2_half_time: 8_000_000_000, n2_a: 1_000_000_000, n2_b: 651_400_000,
            he_half_time: 3_020_000_000, he_a: 1_383_000_000, he_b: 574_700_000
        }
    } else if i == 2 {
        ZHLParams {
            n2_half_time: 12_500_000_000, n2_a: 861_800_000, n2_b: 722_200_000,
            he_half_time: 4_720_000_000, he_a: 1_191_900_000, he_b: 652_700_000
        }
    } else if i == 3 {
        ZHLParams {
            n2_half_time: 18_500_000_000, n2_a: 756_200_000, n2_b: 782_500_000,
            he_half_time: 6_990_000_000, he_a: 1_045_800_000, he_b: 722_300_000
        }
    } else if i == 4 {
        ZHLParams {
            n2_half_time: 27_000_000_000, n2_a: 620_000_000, n2_b: 812_600_000,
            he_half_time: 10_210_000_000, he_a: 922_000_000, he_b: 758_200_000
        }
    } else if i == 5 {
        ZHLParams {
            n2_half_time: 38_300_000_000, n2_a: 504_300_000, n2_b: 843_400_000,
            he_half_time: 14_480_000_000, he_a: 820_500_000, he_b: 795_700_000
        }
    } else if i == 6 {
        ZHLParams {
            n2_half_time: 54_300_000_000, n2_a: 441_000_000, n2_b: 869_300_000,
            he_half_time: 20_530_000_000, he_a: 730_500_000, he_b: 827_900_000
        }
    } else if i == 7 {
        ZHLParams {
            n2_half_time: 77_000_000_000, n2_a: 400_000_000, n2_b: 891_000_000,
            he_half_time: 29_110_000_000, he_a: 650_200_000, he_b: 855_300_000
        }
    } else if i == 8 {
        ZHLParams {
            n2_half_time: 109_000_000_000, n2_a: 375_000_000, n2_b: 909_200_000,
            he_half_time: 41_200_000_000, he_a: 595_000_000, he_b: 875_700_000
        }
    } else if i == 9 {
        ZHLParams {
            n2_half_time: 146_000_000_000, n2_a: 350_000_000, n2_b: 922_200_000,
            he_half_time: 55_190_000_000, he_a: 554_500_000, he_b: 890_300_000
        }
    } else if i == 10 {
        ZHLParams {
            n2_half_time: 187_000_000_000, n2_a: 329_500_000, n2_b: 931_900_000,
            he_half_time: 70_690_000_000, he_a: 533_300_000, he_b: 899_700_000
        }
    } else if i == 11 {
        ZHLParams {
            n2_half_time: 239_000_000_000, n2_a: 306_500_000, n2_b: 940_300_000,
            he_half_time: 90_340_000_000, he_a: 518_900_000, he_b: 907_300_000
        }
    } else if i == 12 {
        ZHLParams {
            n2_half_time: 305_000_000_000, n2_a: 283_500_000, n2_b: 947_700_000,
            he_half_time: 115_290_000_000, he_a: 518_100_000, he_b: 912_200_000
        }
    } else if i == 13 {
        ZHLParams {
            n2_half_time: 390_000_000_000, n2_a: 261_000_000, n2_b: 954_400_000,
            he_half_time: 147_420_000_000, he_a: 517_600_000, he_b: 917_100_000
        }
    } else if i == 14 {
        ZHLParams {
            n2_half_time: 498_000_000_000, n2_a: 248_000_000, n2_b: 960_200_000,
            he_half_time: 188_240_000_000, he_a: 517_200_000, he_b: 921_700_000
        }
    } else {
        ZHLParams {
            n2_half_time: 635_000_000_000, n2_a: 232_700_000, n2_b: 965_300_000,
            he_half_time: 240_030_000_000, he_a: 511_900_000, he_b: 926_700_000
        }
    }
}

/// The ZH-L16C table: nitrogen values of set C, helium values of set A.
pub fn zhl_16c_n2_16a_he_values() -> (rows: [ZHLParams; 16])
    ensures
        forall|i: int| 0 <= i < 16 ==> rows[i] == zhl_16c(i),
{
    [
        ZHLParams {
            n2_half_time: 4_000_000_000, n2_a: 1_259_900_000, n2_b: 505_000_000,
            he_half_time: 1_510_000_000, he_a: 1_742_400_000, he_b: 424_500_000
        },
        ZHLParams {
            n2_half_time: 8_000_000_000, n2_a: 1_000_000_000, n2_b: 651_400_000,
            he_half_time: 3_020_000_000, he_a: 1_383_000_000, he_b: 574_700_000
        },
        ZHLParams {
            n2_half_time: 12_500_000_000, n2_a: 861_800_000, n2_b: 722_200_000,
            he_half_time: 4_720_000_000, he_a: 1_191_900_000, he_b: 652_700_000
        },
        ZHLParams {
            n2_half_time: 18_500_000_000, n2_a: 756_200_000, n2_b: 782_500_000,
            he_half_time: 6_990_000_000, he_a: 1_045_800_000, he_b: 722_300_000
        },
        ZHLParams {
            n2_half_time: 27_000_000_000, n2_a: 620_000_000, n2_b: 812_600_000,
            he_half_time: 10_210_000_000, he_a: 922_000_000, he_b: 758_200_000
        },
        ZHLParams {
            n2_half_time: 38_300_000_000, n2_a: 504_300_000, n2_b: 843_400_000,
            he_half_time: 14_480_000_000, he_a: 820_500_000, he_b: 795_700_000
        },
        ZHLParams {
            n2_half_time: 54_300_000_000, n2_a: 441_000_000, n2_b: 869_300_000,
            he_half_time: 20_530_000_000, he_a: 730_500_000, he_b: 827_900_000
        },
        ZHLParams {
            n2_half_time: 77_000_000_000, n2_a: 400_000_000, n2_b: 891_000_000,
            he_half_time: 29_110_000_000, he_a: 650_200_000, he_b: 855_300_000
        },
        ZHLParams {
            n2_half_time: 109_000_000_000, n2_a: 375_000_000, n2_b: 909_200_000,
            he_half_time: 41_200_000_000, he_a: 595_000_000, he_b: 875_700_000
        },
        ZHLParams {
            n2_half_time: 146_000_000_000, n2_a: 350_000_000, n2_b: 922_200_000,
            he_half_time: 55_190_000_000, he_a: 554_500_000, he_b: 890_300_000
        },
        ZHLParams {
            n2_half_time: 187_000_000_000, n2_a: 329_500_000, n2_b: 931_900_000,
            he_half_time: 70_690_000_000, he_a: 533_300_000, he_b: 899_700_000
        },
        ZHLParams {
            n2_half_time: 239_000_000_000, n2_a: 306_500_000, n2_b: 940_300_000,
            he_half_time: 90_340_000_000, he_a: 518_900_000, he_b: 907_300_000
        },
        ZHLParams {
            n2_half_time: 305_000_000_000, n2_a: 283_500_000, n2_b: 947_700_000,
            he_half_time: 115_290_000_000, he_a: 518_100_000, he_b: 912_200_000
        },
        ZHLParams {
            n2_half_time: 390_000_000_000, n2_a: 261_000_000, n2_b: 954_400_000,
            he_half_time: 147_420_000_000, he_a: 517_600_000, he_b: 917_100_000
        },
        ZHLParams {
            n2_half_time: 498_000_000_000, n2_a: 248_000_000, n2_b: 960_200_000,
            he_half_time: 188_240_000_000, he_a: 517_200_000, he_b: 921_700_000
        },
        ZHLParams {
            n2_half_time: 635_000_000_000, n2_a: 232_700_000, n2_b: 965_300_000,
            he_half_time: 240_030_000_000, he_a: 511_900_000, he_b: 926_700_000
        },
    ]
}

} // verus!
