//! The Dormand–Prince 8(7) Runge–Kutta tableau (thirteen stages, Hairer,
//! Nørsett & Wanner, Table 7.2) that drives the CRTBP integrator, held in exact
//! rational form, with its consistency conditions proved.  The integrator that
//! evaluates the stages in floating point lives outside this crate and builds
//! its coefficients from these ratios.
use vstd::prelude::*;

verus! {

/// The Earth–Moon system, the planetary system the integrator is set up for.
pub struct EarthMoon;

/// Number of stages of the tableau.
pub const DP87_STAGES: usize = 13;

/// A rational coefficient `num / den`.
#[derive(Clone, Copy, PartialEq, Eq, Debug, Structural)]
pub struct Ratio {
    pub num: i64,
    pub den: i64,
}

impl Ratio {
    /// Numerator and denominator as integers.
    pub open spec fn pair(self) -> (int, int) {
        (self.num as int, self.den as int)
    }
}

/// Sum of two fractions given as (numerator, denominator); a zero term
/// leaves the other one as it is.
#[verifier::opaque]
pub open spec fn ratio_add(x: (int, int), y: (int, int)) -> (int, int) {
    if y.0 == 0 {
        x
    } else if x.0 == 0 {
        y
    } else {
        (x.0 * y.1 + y.0 * x.1, x.1 * y.1)
    }
}

/// Product of two fractions.
#[verifier::opaque]
pub open spec fn ratio_mul(x: (int, int), y: (int, int)) -> (int, int) {
    (x.0 * y.0, x.1 * y.1)
}

/// The fraction `x` raised to the power `k`.
pub open spec fn ratio_pow(x: (int, int), k: nat) -> (int, int)
    decreases k,
{
    if k == 0 {
        (1, 1)
    } else {
        ratio_mul(ratio_pow(x, (k - 1) as nat), x)
    }
}

/// Sum of the fractions `f(0), …, f(n - 1)`.
pub open spec fn ratio_sum(f: spec_fn(int) -> (int, int), n: nat) -> (int, int)
    decreases n,
{
    if n == 0 {
        (0, 1)
    } else {
        ratio_add(ratio_sum(f, (n - 1) as nat), f(n - 1))
    }
}

/// The two fractions are equal.
pub open spec fn ratio_eq(x: (int, int), y: (int, int)) -> bool {
    x.0 * y.1 == y.0 * x.1
}

/// The two fractions, both with positive denominators, differ by less than
/// 1e-14.
pub open spec fn within_1e14(x: (int, int), y: (int, int)) -> bool {
    &&& x.1 > 0
    &&& y.1 > 0
    &&& 100_000_000_000_000 * abs(x.0 * y.1 - y.0 * x.1) < x.1 * y.1
}

/// Absolute value.
pub open spec fn abs(v: int) -> int {
    if v < 0 {
        -v
    } else {
        v
    }
}

/// Node `c_i` of stage `i` of the tableau, as numerator and denominator.
pub open spec fn dp87_node(i: int) -> (int, int) {
    if i == 1 {
        (1, 18)
    } else if i == 2 {
        (1, 12)
    } else if i == 3 {
        (1, 8)
    } else if i == 4 {
        (5, 16)
    } else if i == 5 {
        (3, 8)
    } else if i == 6 {
        (59, 400)
    } else if i == 7 {
        (93, 200)
    } else if i == 8 {
        (5490023248, 9719169821)
    } else if i == 9 {
        (13, 20)
    } else if i == 10 {
        (1201146811, 1299019798)
    } else if i == 11 {
        (1, 1)
    } else if i == 12 {
        (1, 1)
    } else {
        (0, 1)
    }
}

/// Coupling coefficient `a_ij` of the tableau, as numerator and denominator.
pub open spec fn dp87_coupling(i: int, j: int) -> (int, int) {
    if i == 1 && j == 0 {
        (1, 18)
    } else if i == 2 && j == 0 {
        (1, 48)
    } else if i == 2 && j == 1 {
        (1, 16)
    } else if i == 3 && j == 0 {
        (1, 32)
    } else if i == 3 && j == 2 {
        (3, 32)
    } else if i == 4 && j == 0 {
        (5, 16)
    } else if i == 4 && j == 2 {
        (-75, 64)
    } else if i == 4 && j == 3 {
        (75, 64)
    } else if i == 5 && j == 0 {
        (3, 80)
    } else if i == 5 && j == 3 {
        (3, 16)
    } else if i == 5 && j == 4 {
        (3, 20)
    } else if i == 6 && j == 0 {
        (29443841, 614563906)
    } else if i == 6 && j == 3 {
        (77736538, 692538347)
    } else if i == 6 && j == 4 {
        (-28693883, 1125000000)
    } else if i == 6 && j == 5 {
        (23124283, 1800000000)
    } else if i == 7 && j == 0 {
        (16016141, 946692911)
    } else if i == 7 && j == 3 {
        (61564180, 158732637)
    } else if i == 7 && j == 4 {
        (22789713, 633445777)
    } else if i == 7 && j == 5 {
        (545815736, 2771057229)
    } else if i == 7 && j == 6 {
        (-180193667, 1043307555)
    } else if i == 8 && j == 0 {
        (39632708, 573591083)
    } else if i == 8 && j == 3 {
        (-433636366, 683701615)
    } else if i == 8 && j == 4 {
        (-421739975, 2616292301)
    } else if i == 8 && j == 5 {
        (100302831, 723423059)
    } else if i == 8 && j == 6 {
        (790204164, 839813087)
    } else if i == 8 && j == 7 {
        (800635310, 3783071287)
    } else if i == 9 && j == 0 {
        (246121993, 1340847787)
    } else if i == 9 && j == 3 {
        (-37695042795, 15268766246)
    } else if i == 9 && j == 4 {
        (-309121744, 1061227803)
    } else if i == 9 && j == 5 {
        (-12992083, 490766935)
    } else if i == 9 && j == 6 {
        (6005943493, 2108947869)
    } else if i == 9 && j == 7 {
        (393006217, 1396673457)
    } else if i == 9 && j == 8 {
        (123872331, 1001029789)
    } else if i == 10 && j == 0 {
        (-1028468189, 846180014)
    } else if i == 10 && j == 3 {
        (8478235783, 508512852)
    } else if i == 10 && j == 4 {
        (1311729495, 1432422823)
    } else if i == 10 && j == 5 {
        (-10304129995, 1701304382)
    } else if i == 10 && j == 6 {
        (-48777925059, 3047939560)
    } else if i == 10 && j == 7 {
        (15336726248, 1032824649)
    } else if i == 10 && j == 8 {
        (-45442868181, 3398467696)
    } else if i == 10 && j == 9 {
        (3065993473, 597172653)
    } else if i == 11 && j == 0 {
        (185892177, 718116043)
    } else if i == 11 && j == 3 {
        (-3185094517, 667107341)
    } else if i == 11 && j == 4 {
        (-477755414, 1098053517)
    } else if i == 11 && j == 5 {
        (-703635378, 230739211)
    } else if i == 11 && j == 6 {
        (5731566787, 1027545527)
    } else if i == 11 && j == 7 {
        (5232866602, 850066563)
    } else if i == 11 && j == 8 {
        (-4093664535, 808688257)
    } else if i == 11 && j == 9 {
        (3962137247, 1805957418)
    } else if i == 11 && j == 10 {
        (65686358, 487910083)
    } else if i == 12 && j == 0 {
        (403863854, 491063109)
    } else if i == 12 && j == 3 {
        (-5068492393, 434740067)
    } else if i == 12 && j == 4 {
        (-411421997, 543043805)
    } else if i == 12 && j == 5 {
        (652783627, 914296604)
    } else if i == 12 && j == 6 {
        (11173962825, 925320556)
    } else if i == 12 && j == 7 {
        (-13158990841, 6184727034)
    } else if i == 12 && j == 8 {
        (3936647629, 1978049680)
    } else if i == 12 && j == 9 {
        (-160528059, 685178525)
    } else if i == 12 && j == 10 {
        (248638103, 1413531060)
    } else {
        (0, 1)
    }
}

/// Weight `b_i` of the eighth-order solution, as numerator and denominator.
pub open spec fn dp87_weight8(i: int) -> (int, int) {
    if i == 0 {
        (14005451, 335480064)
    } else if i == 5 {
        (-59238493, 1068277825)
    } else if i == 6 {
        (181606767, 758867731)
    } else if i == 7 {
        (561292985, 797845732)
    } else if i == 8 {
        (-1041891430, 1371343529)
    } else if i == 9 {
        (760417239, 1151165299)
    } else if i == 10 {
        (118820643, 751138087)
    } else if i == 11 {
        (-528747749, 2220607170)
    } else if i == 12 {
        (1, 4)
    } else {
        (0, 1)
    }
}

/// Weight of the embedded seventh-order solution, as numerator and denominator.
pub open spec fn dp87_weight7(i: int) -> (int, int) {
    if i == 0 {
        (13451932, 455176623)
    } else if i == 5 {
        (-808719846, 976000145)
    } else if i == 6 {
        (1757004468, 5645159321)
    } else if i == 7 {
        (656045339, 265891186)
    } else if i == 8 {
        (-3867574721, 1518517206)
    } else if i == 9 {
        (465885868, 322736535)
    } else if i == 10 {
        (53011238, 667516719)
    } else if i == 11 {
        (2, 45)
    } else {
        (0, 1)
    }
}

/// The nodes `c_i` of the tableau, stage by stage.
pub fn dp87_nodes() -> (v: Vec<Ratio>)
    ensures
        v@.len() == DP87_STAGES,
        forall|k: int| 0 <= k < DP87_STAGES ==> #[trigger] v@[k].pair() == dp87_node(k),
{
    let v = vec![
            Ratio { num: 0, den: 1 },
            Ratio { num: 1, den: 18 },
            Ratio { num: 1, den: 12 },
            Ratio { num: 1, den: 8 },
            Ratio { num: 5, den: 16 },
            Ratio { num: 3, den: 8 },
            Ratio { num: 59, den: 400 },
            Ratio { num: 93, den: 200 },
            Ratio { num: 5490023248, den: 9719169821 },
            Ratio { num: 13, den: 20 },
            Ratio { num: 1201146811, den: 1299019798 },
            Ratio { num: 1, den: 1 },
            Ratio { num: 1, den: 1 },
        ];
    v
}

/// The weights of the eighth-order solution, stage by stage.
pub fn dp87_weights8() -> (v: Vec<Ratio>)
    ensures
        v@.len() == DP87_STAGES,
        forall|k: int| 0 <= k < DP87_STAGES ==> #[trigger] v@[k].pair() == dp87_weight8(k),
{
    let v = vec![
            Ratio { num: 14005451, den: 335480064 },
            Ratio { num: 0, den: 1 },
            Ratio { num: 0, den: 1 },
            Ratio { num: 0, den: 1 },
            Ratio { num: 0, den: 1 },
            Ratio { num: -59238493, den: 1068277825 },
            Ratio { num: 181606767, den: 758867731 },
            Ratio { num: 561292985, den: 797845732 },
            Ratio { num: -1041891430, den: 1371343529 },
            Ratio { num: 760417239, den: 1151165299 },
            Ratio { num: 118820643, den: 751138087 },
            Ratio { num: -528747749, den: 2220607170 },
            Ratio { num: 1, den: 4 },
        ];
    v
}

/// The weights of the embedded seventh-order solution, stage by stage.
pub fn dp87_weights7() -> (v: Vec<Ratio>)
    ensures
        v@.len() == DP87_STAGES,
        forall|k: int| 0 <= k < DP87_STAGES ==> #[trigger] v@[k].pair() == dp87_weight7(k),
{
    let v = vec![
            Ratio { num: 13451932, den: 455176623 },
            Ratio { num: 0, den: 1 },
            Ratio { num: 0, den: 1 },
            Ratio { num: 0, den: 1 },
            Ratio { num: 0, den: 1 },
            Ratio { num: -808719846, den: 976000145 },
            Ratio { num: 1757004468, den: 5645159321 },
            Ratio { num: 656045339, den: 265891186 },
            Ratio { num: -3867574721, den: 1518517206 },
            Ratio { num: 465885868, den: 322736535 },
            Ratio { num: 53011238, den: 667516719 },
            Ratio { num: 2, den: 45 },
            Ratio { num: 0, den: 1 },
        ];
    v
}

/// Row `i` of the coupling matrix: the coefficients `a_ij` for every stage `j`.
pub fn dp87_coupling_row(i: usize) -> (v: Vec<Ratio>)
    requires
        i < DP87_STAGES,
    ensures
        v@.len() == DP87_STAGES,
        forall|k: int| 0 <= k < DP87_STAGES ==> #[trigger] v@[k].pair() == dp87_coupling(i as int, k),
{
    let v = match i {
        0 => vec![
            Ratio { num: 0, den: 1 },
            Ratio { num: 0, den: 1 },
            Ratio { num: 0, den: 1 },
            Ratio { num: 0, den: 1 },
            Ratio { num: 0, den: 1 },
            Ratio { num: 0, den: 1 },
            Ratio { num: 0, den: 1 },
            Ratio { num: 0, den: 1 },
            Ratio { num: 0, den: 1 },
            Ratio { num: 0, den: 1 },
            Ratio { num: 0, den: 1 },
            Ratio { num: 0, den: 1 },
            Ratio { num: 0, den: 1 },
        ],
        1 => vec![
            Ratio { num: 1, den: 18 },
            Ratio { num: 0, den: 1 },
            Ratio { num: 0, den: 1 },
            Ratio { num: 0, den: 1 },
            Ratio { num: 0, den: 1 },
            Ratio { num: 0, den: 1 },
            Ratio { num: 0, den: 1 },
            Ratio { num: 0, den: 1 },
            Ratio { num: 0, den: 1 },
            Ratio { num: 0, den: 1 },
            Ratio { num: 0, den: 1 },
            Ratio { num: 0, den: 1 },
            Ratio { num: 0, den: 1 },
        ],
        2 => vec![
            Ratio { num: 1, den: 48 },
            Ratio { num: 1, den: 16 },
            Ratio { num: 0, den: 1 },
            Ratio { num: 0, den: 1 },
            Ratio { num: 0, den: 1 },
            Ratio { num: 0, den: 1 },
            Ratio { num: 0, den: 1 },
            Ratio { num: 0, den: 1 },
            Ratio { num: 0, den: 1 },
            Ratio { num: 0, den: 1 },
            Ratio { num: 0, den: 1 },
            Ratio { num: 0, den: 1 },
            Ratio { num: 0, den: 1 },
        ],
        3 => vec![
            Ratio { num: 1, den: 32 },
            Ratio { num: 0, den: 1 },
            Ratio { num: 3, den: 32 },
            Ratio { num: 0, den: 1 },
            Ratio { num: 0, den: 1 },
            Ratio { num: 0, den: 1 },
            Ratio { num: 0, den: 1 },
            Ratio { num: 0, den: 1 },
            Ratio { num: 0, den: 1 },
            Ratio { num: 0, den: 1 },
            Ratio { num: 0, den: 1 },
            Ratio { num: 0, den: 1 },
            Ratio { num: 0, den: 1 },
        ],
        4 => vec![
            Ratio { num: 5, den: 16 },
            Ratio { num: 0, den: 1 },
            Ratio { num: -75, den: 64 },
            Ratio { num: 75, den: 64 },
            Ratio { num: 0, den: 1 },
            Ratio { num: 0, den: 1 },
            Ratio { num: 0, den: 1 },
            Ratio { num: 0, den: 1 },
            Ratio { num: 0, den: 1 },
            Ratio { num: 0, den: 1 },
            Ratio { num: 0, den: 1 },
            Ratio { num: 0, den: 1 },
            Ratio { num: 0, den: 1 },
        ],
        5 => vec![
            Ratio { num: 3, den: 80 },
            Ratio { num: 0, den: 1 },
            Ratio { num: 0, den: 1 },
            Ratio { num: 3, den: 16 },
            Ratio { num: 3, den: 20 },
            Ratio { num: 0, den: 1 },
            Ratio { num: 0, den: 1 },
            Ratio { num: 0, den: 1 },
            Ratio { num: 0, den: 1 },
            Ratio { num: 0, den: 1 },
            Ratio { num: 0, den: 1 },
            Ratio { num: 0, den: 1 },
            Ratio { num: 0, den: 1 },
        ],
        6 => vec![
            Ratio { num: 29443841, den: 614563906 },
            Ratio { num: 0, den: 1 },
            Ratio { num: 0, den: 1 },
            Ratio { num: 77736538, den: 692538347 },
            Ratio { num: -28693883, den: 1125000000 },
            Ratio { num: 23124283, den: 1800000000 },
            Ratio { num: 0, den: 1 },
            Ratio { num: 0, den: 1 },
            Ratio { num: 0, den: 1 },
            Ratio { num: 0, den: 1 },
            Ratio { num: 0, den: 1 },
            Ratio { num: 0, den: 1 },
            Ratio { num: 0, den: 1 },
        ],
        7 => vec![
            Ratio { num: 16016141, den: 946692911 },
            Ratio { num: 0, den: 1 },
            Ratio { num: 0, den: 1 },
            Ratio { num: 61564180, den: 158732637 },
            Ratio { num: 22789713, den: 633445777 },
            Ratio { num: 545815736, den: 2771057229 },
            Ratio { num: -180193667, den: 1043307555 },
            Ratio { num: 0, den: 1 },
            Ratio { num: 0, den: 1 },
            Ratio { num: 0, den: 1 },
            Ratio { num: 0, den: 1 },
            Ratio { num: 0, den: 1 },
            Ratio { num: 0, den: 1 },
        ],
        8 => vec![
            Ratio { num: 39632708, den: 573591083 },
            Ratio { num: 0, den: 1 },
            Ratio { num: 0, den: 1 },
            Ratio { num: -433636366, den: 683701615 },
            Ratio { num: -421739975, den: 2616292301 },
            Ratio { num: 100302831, den: 723423059 },
            Ratio { num: 790204164, den: 839813087 },
            Ratio { num: 800635310, den: 3783071287 },
            Ratio { num: 0, den: 1 },
            Ratio { num: 0, den: 1 },
            Ratio { num: 0, den: 1 },
            Ratio { num: 0, den: 1 },
            Ratio { num: 0, den: 1 },
        ],
        9 => vec![
            Ratio { num: 246121993, den: 1340847787 },
            Ratio { num: 0, den: 1 },
            Ratio { num: 0, den: 1 },
            Ratio { num: -37695042795, den: 15268766246 },
            Ratio { num: -309121744, den: 1061227803 },
            Ratio { num: -12992083, den: 490766935 },
            Ratio { num: 6005943493, den: 2108947869 },
            Ratio { num: 393006217, den: 1396673457 },
            Ratio { num: 123872331, den: 1001029789 },
            Ratio { num: 0, den: 1 },
            Ratio { num: 0, den: 1 },
            Ratio { num: 0, den: 1 },
            Ratio { num: 0, den: 1 },
        ],
        10 => vec![
            Ratio { num: -1028468189, den: 846180014 },
            Ratio { num: 0, den: 1 },
            Ratio { num: 0, den: 1 },
            Ratio { num: 8478235783, den: 508512852 },
            Ratio { num: 1311729495, den: 1432422823 },
            Ratio { num: -10304129995, den: 1701304382 },
            Ratio { num: -48777925059, den: 3047939560 },
            Ratio { num: 15336726248, den: 1032824649 },
            Ratio { num: -45442868181, den: 3398467696 },
            Ratio { num: 3065993473, den: 597172653 },
            Ratio { num: 0, den: 1 },
            Ratio { num: 0, den: 1 },
            Ratio { num: 0, den: 1 },
        ],
        11 => vec![
            Ratio { num: 185892177, den: 718116043 },
            Ratio { num: 0, den: 1 },
            Ratio { num: 0, den: 1 },
            Ratio { num: -3185094517, den: 667107341 },
            Ratio { num: -477755414, den: 1098053517 },
            Ratio { num: -703635378, den: 230739211 },
            Ratio { num: 5731566787, den: 1027545527 },
            Ratio { num: 5232866602, den: 850066563 },
            Ratio { num: -4093664535, den: 808688257 },
            Ratio { num: 3962137247, den: 1805957418 },
            Ratio { num: 65686358, den: 487910083 },
            Ratio { num: 0, den: 1 },
            Ratio { num: 0, den: 1 },
        ],
        _ => vec![
            Ratio { num: 403863854, den: 491063109 },
            Ratio { num: 0, den: 1 },
            Ratio { num: 0, den: 1 },
            Ratio { num: -5068492393, den: 434740067 },
            Ratio { num: -411421997, den: 543043805 },
            Ratio { num: 652783627, den: 914296604 },
            Ratio { num: 11173962825, den: 925320556 },
            Ratio { num: -13158990841, den: 6184727034 },
            Ratio { num: 3936647629, den: 1978049680 },
            Ratio { num: -160528059, den: 685178525 },
            Ratio { num: 248638103, den: 1413531060 },
            Ratio { num: 0, den: 1 },
            Ratio { num: 0, den: 1 },
        ],
    };
    v
}

/// The tableau is explicit: stage `i` uses only the stages before it, so
/// `a_ij = 0` whenever `j >= i`.
pub proof fn lemma_dp87_explicit(i: int, j: int)
    requires
        i <= j,
    ensures
        dp87_coupling(i, j) == (0int, 1int),
{
}

/// The first and last nodes: the first stage is taken at the start of the
/// step, the last two at its end.
pub proof fn lemma_dp87_end_nodes()
    ensures
        dp87_node(0) == (0int, 1int),
        dp87_node(11) == (1int, 1int),
        dp87_node(12) == (1int, 1int),
{
}

/// The sum of the eighth-order weights.
pub open spec fn weight8_total() -> (int, int) {
    ratio_sum(|k: int| dp87_weight8(k), 13)
}

/// The sum of the seventh-order weights.
pub open spec fn weight7_total() -> (int, int) {
    ratio_sum(|k: int| dp87_weight7(k), 13)
}

/// The sum of row `i` of the coupling matrix.
pub open spec fn coupling_row_total(i: int) -> (int, int) {
    ratio_sum(|j: int| dp87_coupling(i, j), 13)
}

/// Σ_i b_i c_i^k over the eighth-order weights.
pub open spec fn weight8_moment(k: nat) -> (int, int) {
    ratio_sum(|i: int| ratio_mul(dp87_weight8(i), ratio_pow(dp87_node(i), k)), 13)
}

/// Σ_i b̂_i c_i^k over the seventh-order weights.
pub open spec fn weight7_moment(k: nat) -> (int, int) {
    ratio_sum(|i: int| ratio_mul(dp87_weight7(i), ratio_pow(dp87_node(i), k)), 13)
}

/// Σ_j a_ij c_j^k over row `i` of the coupling matrix.
pub open spec fn coupling_moment(i: int, k: nat) -> (int, int) {
    ratio_sum(|j: int| ratio_mul(dp87_coupling(i, j), ratio_pow(dp87_node(j), k)), 13)
}

/// Σ_i b_i a_ij over column `j` of the coupling matrix, weighted by the
/// eighth-order weights.
pub open spec fn weighted_column(j: int) -> (int, int) {
    ratio_sum(|i: int| ratio_mul(dp87_weight8(i), dp87_coupling(i, j)), 13)
}

/// `1 - c` for a fraction `c` given as (numerator, denominator).
pub open spec fn one_minus(c: (int, int)) -> (int, int) {
    (c.1 - c.0, c.1)
}

/// The value of `ratio_add` on fractions given by numerators and denominators.
proof fn ratio_add_value(a: int, b: int, c: int, d: int)
    ensures
        ratio_add((a, b), (c, d)) == (if c == 0 {
            (a, b)
        } else if a == 0 {
            (c, d)
        } else {
            (a * d + c * b, b * d)
        }),
{
    reveal(ratio_add);
}

/// The value of `ratio_mul` on fractions given by numerators and denominators.
proof fn ratio_mul_value(a: int, b: int, c: int, d: int)
    ensures
        ratio_mul((a, b), (c, d)) == (a * c, b * d),
{
    reveal(ratio_mul);
}

/// The partial sums of the order-8 weights, exactly, stage by stage.
#[verifier::spinoff_prover]
proof fn weight8_total_value()
    ensures
        within_1e14(weight8_total(), (1, 1)),
{
    assert(ratio_sum(|k: int| dp87_weight8(k), 0) == (0int, 1int));
    assert(dp87_weight8(0) == (14005451int, 335480064int));
    ratio_add_value(0int, 1int, 14005451int, 335480064int);
    assert(ratio_sum(|k: int| dp87_weight8(k), 1) == (14005451int, 335480064int));
    assert(dp87_weight8(1) == (0int, 1int));
    ratio_add_value(14005451int, 335480064int, 0int, 1int);
    assert(ratio_sum(|k: int| dp87_weight8(k), 2) == (14005451int, 335480064int));
    assert(dp87_weight8(2) == (0int, 1int));
    ratio_add_value(14005451int, 335480064int, 0int, 1int);
    assert(ratio_sum(|k: int| dp87_weight8(k), 3) == (14005451int, 335480064int));
    assert(dp87_weight8(3) == (0int, 1int));
    ratio_add_value(14005451int, 335480064int, 0int, 1int);
    assert(ratio_sum(|k: int| dp87_weight8(k), 4) == (14005451int, 335480064int));
    assert(dp87_weight8(4) == (0int, 1int));
    ratio_add_value(14005451int, 335480064int, 0int, 1int);
    assert(ratio_sum(|k: int| dp87_weight8(k), 5) == (14005451int, 335480064int));
    assert(dp87_weight8(5) == (-59238493int, 1068277825int));
    ratio_add_value(14005451int, 335480064int, -59238493int, 1068277825int);
    assert(ratio_sum(|k: int| dp87_weight8(k), 6) == (-4911620690479477int, 358385913100780800int));
    assert(dp87_weight8(6) == (181606767int, 758867731int));
    ratio_add_value(-4911620690479477int, 358385913100780800int, 181606767int, 758867731int);
    assert(ratio_sum(|k: int| dp87_weight8(k), 7) == (61358036567658932250616913int, 271967504697152700024364800int));
    assert(dp87_weight8(7) == (561292985int, 797845732int));
    ratio_add_value(61358036567658932250616913int, 271967504697152700024364800int, 561292985int, 797845732int);
    assert(ratio_sum(|k: int| dp87_weight8(k), 8) == (201607700133872968325317149724993316int, 216988112865313234266715751691033600int));
    assert(dp87_weight8(8) == (-1041891430int, 1371343529int));
    ratio_add_value(201607700133872968325317149724993316int, 216988112865313234266715751691033600int, -1041891430int, 1371343529int);
    assert(ratio_sum(|k: int| dp87_weight8(k), 9) == (50395359768916525772872164215197797782804164int, 297565244447768952369721706163869734681574400int));
    assert(dp87_weight8(9) == (760417239int, 1151165299int));
    ratio_add_value(50395359768916525772872164215197797782804164int, 297565244447768952369721706163869734681574400int, 760417239int, 1151165299int);
    assert(ratio_sum(|k: int| dp87_weight8(k), 10) == (284287131001929909768275878007064378431008641930586636int, 342546783596724035937607446422921246121765263966745600int));
    assert(dp87_weight8(10) == (118820643int, 751138087int));
    ratio_add_value(284287131001929909768275878007064378431008641930586636int, 342546783596724035937607446422921246121765263966745600int, 118820643int, 751138087int);
    assert(ratio_sum(|k: int| dp87_weight8(k), 11) == (254240520824052628375086980960031262103061297739802275362226132int, 257299935738846271821093708663068057763558929439031321599667200int));
    assert(dp87_weight8(11) == (-528747749int, 2220607170int));
    ratio_add_value(254240520824052628375086980960031262103061297739802275362226132int, 257299935738846271821093708663068057763558929439031321599667200int, -528747749int, 2220607170int);
    assert(ratio_sum(|k: int| dp87_weight8(k), 12) == (428521561606665956944618170119839869073923438540772083015354584731433640int, 571362082142221278733689646699100043267733123429837030598796853933824000int));
    assert(dp87_weight8(12) == (1int, 4int));
    ratio_add_value(428521561606665956944618170119839869073923438540772083015354584731433640int, 571362082142221278733689646699100043267733123429837030598796853933824000int, 1int, 4int);
    assert(ratio_sum(|k: int| dp87_weight8(k), 13) == (2285448328568885106512162327178459519563426877592925362660215192859558560int, 2285448328568885114934758586796400173070932493719348122395187415735296000int));
    assert(within_1e14((2285448328568885106512162327178459519563426877592925362660215192859558560int, 2285448328568885114934758586796400173070932493719348122395187415735296000int), (1int, 1int))) by (nonlinear_arith);
}

/// The partial sums of the order-7 weights, exactly, stage by stage.
#[verifier::spinoff_prover]
proof fn weight7_total_value()
    ensures
        within_1e14(weight7_total(), (1, 1)),
{
    assert(ratio_sum(|k: int| dp87_weight7(k), 0) == (0int, 1int));
    assert(dp87_weight7(0) == (13451932int, 455176623int));
    ratio_add_value(0int, 1int, 13451932int, 455176623int);
    assert(ratio_sum(|k: int| dp87_weight7(k), 1) == (13451932int, 455176623int));
    assert(dp87_weight7(1) == (0int, 1int));
    ratio_add_value(13451932int, 455176623int, 0int, 1int);
    assert(ratio_sum(|k: int| dp87_weight7(k), 2) == (13451932int, 455176623int));
    assert(dp87_weight7(2) == (0int, 1int));
    ratio_add_value(13451932int, 455176623int, 0int, 1int);
    assert(ratio_sum(|k: int| dp87_weight7(k), 3) == (13451932int, 455176623int));
    assert(dp87_weight7(3) == (0int, 1int));
    ratio_add_value(13451932int, 455176623int, 0int, 1int);
    assert(ratio_sum(|k: int| dp87_weight7(k), 4) == (13451932int, 455176623int));
    assert(dp87_weight7(4) == (0int, 1int));
    ratio_add_value(13451932int, 455176623int, 0int, 1int);
    assert(ratio_sum(|k: int| dp87_weight7(k), 5) == (13451932int, 455176623int));
    assert(dp87_weight7(5) == (-808719846int, 976000145int));
    ratio_add_value(13451932int, 455176623int, -808719846int, 976000145int);
    assert(ratio_sum(|k: int| dp87_weight7(k), 6) == (-354981280872829918int, 444252450048610335int));
    assert(dp87_weight7(6) == (1757004468int, 5645159321int));
    ratio_add_value(-354981280872829918int, 444252450048610335int, 1757004468int, 5645159321int);
    assert(ratio_sum(|k: int| dp87_weight7(k), 7) == (-1223372346844419651459388898int, 2507875859268999535722182535int));
    assert(dp87_weight7(7) == (656045339int, 265891186int));
    ratio_add_value(-1223372346844419651459388898int, 2507875859268999535722182535int, 656045339int, 265891186int);
    assert(ratio_sum(|k: int| dp87_weight7(k), 8) == (1319996344041980993995458306069501337int, 666822086561803379586620480739636510int));
    assert(dp87_weight7(8) == (-3867574721int, 1518517206int));
    ratio_add_value(1319996344041980993995458306069501337int, 666822086561803379586620480739636510int, -3867574721int, 1518517206int);
    assert(ratio_sum(|k: int| dp87_weight7(k), 9) == (-574547085106060829354494677507333536730159288int, 1012580811784919814291232367395129646620791060int));
    assert(dp87_weight7(9) == (465885868int, 322736535int));
    ratio_add_value(-574547085106060829354494677507333536730159288int, 1012580811784919814291232367395129646620791060int, 465885868int, 322736535int);
    assert(ratio_sum(|k: int| dp87_weight7(k), 10) == (286319754977081817426373697378915611654873671227553000int, 326796822602952186117195815132951118026168565663377100int));
    assert(dp87_weight7(10) == (53011238int, 667516719int));
    ratio_add_value(286319754977081817426373697378915611654873671227553000int, 326796822602952186117195815132951118026168565663377100int, 53011238int, 667516719int);
    assert(ratio_sum(|k: int| dp87_weight7(k), 11) == (208447127567834452803888957790889522229790745439800792290456800int, 218142342803547682990827899998078079092209797092553540251734900int));
    assert(dp87_weight7(11) == (2int, 45int));
    ratio_add_value(208447127567834452803888957790889522229790745439800792290456800int, 218142342803547682990827899998078079092209797092553540251734900int, 2int, 45int);
    assert(ratio_sum(|k: int| dp87_weight7(k), 12) == (9816405426159645742156658900586184658525003138976142733574025800int, 9816405426159645734587255499913513559149440869164909311328070500int));
    assert(dp87_weight7(12) == (0int, 1int));
    ratio_add_value(9816405426159645742156658900586184658525003138976142733574025800int, 9816405426159645734587255499913513559149440869164909311328070500int, 0int, 1int);
    assert(ratio_sum(|k: int| dp87_weight7(k), 13) == (9816405426159645742156658900586184658525003138976142733574025800int, 9816405426159645734587255499913513559149440869164909311328070500int));
    assert(within_1e14((9816405426159645742156658900586184658525003138976142733574025800int, 9816405426159645734587255499913513559149440869164909311328070500int), (1int, 1int))) by (nonlinear_arith);
}

/// The weights of both solutions add up to one, within 1e-14.
pub proof fn lemma_dp87_weights_sum_to_one()
    ensures
        within_1e14(weight8_total(), (1, 1)),
        within_1e14(weight7_total(), (1, 1)),
{
    weight8_total_value();
    weight7_total_value();
}

/// The partial sums of row 0 of the coupling matrix, exactly, stage by stage.
#[verifier::spinoff_prover]
proof fn coupling_row_total_0()
    ensures
        within_1e14(coupling_row_total(0), dp87_node(0)),
        ratio_eq(coupling_row_total(0), dp87_node(0)),
{
    assert(ratio_sum(|j: int| dp87_coupling(0, j), 0) == (0int, 1int));
    assert(dp87_coupling(0, 0) == (0int, 1int));
    ratio_add_value(0int, 1int, 0int, 1int);
    assert(ratio_sum(|j: int| dp87_coupling(0, j), 1) == (0int, 1int));
    assert(dp87_coupling(0, 1) == (0int, 1int));
    ratio_add_value(0int, 1int, 0int, 1int);
    assert(ratio_sum(|j: int| dp87_coupling(0, j), 2) == (0int, 1int));
    assert(dp87_coupling(0, 2) == (0int, 1int));
    ratio_add_value(0int, 1int, 0int, 1int);
    assert(ratio_sum(|j: int| dp87_coupling(0, j), 3) == (0int, 1int));
    assert(dp87_coupling(0, 3) == (0int, 1int));
    ratio_add_value(0int, 1int, 0int, 1int);
    assert(ratio_sum(|j: int| dp87_coupling(0, j), 4) == (0int, 1int));
    assert(dp87_coupling(0, 4) == (0int, 1int));
    ratio_add_value(0int, 1int, 0int, 1int);
    assert(ratio_sum(|j: int| dp87_coupling(0, j), 5) == (0int, 1int));
    assert(dp87_coupling(0, 5) == (0int, 1int));
    ratio_add_value(0int, 1int, 0int, 1int);
    assert(ratio_sum(|j: int| dp87_coupling(0, j), 6) == (0int, 1int));
    assert(dp87_coupling(0, 6) == (0int, 1int));
    ratio_add_value(0int, 1int, 0int, 1int);
    assert(ratio_sum(|j: int| dp87_coupling(0, j), 7) == (0int, 1int));
    assert(dp87_coupling(0, 7) == (0int, 1int));
    ratio_add_value(0int, 1int, 0int, 1int);
    assert(ratio_sum(|j: int| dp87_coupling(0, j), 8) == (0int, 1int));
    assert(dp87_coupling(0, 8) == (0int, 1int));
    ratio_add_value(0int, 1int, 0int, 1int);
    assert(ratio_sum(|j: int| dp87_coupling(0, j), 9) == (0int, 1int));
    assert(dp87_coupling(0, 9) == (0int, 1int));
    ratio_add_value(0int, 1int, 0int, 1int);
    assert(ratio_sum(|j: int| dp87_coupling(0, j), 10) == (0int, 1int));
    assert(dp87_coupling(0, 10) == (0int, 1int));
    ratio_add_value(0int, 1int, 0int, 1int);
    assert(ratio_sum(|j: int| dp87_coupling(0, j), 11) == (0int, 1int));
    assert(dp87_coupling(0, 11) == (0int, 1int));
    ratio_add_value(0int, 1int, 0int, 1int);
    assert(ratio_sum(|j: int| dp87_coupling(0, j), 12) == (0int, 1int));
    assert(dp87_coupling(0, 12) == (0int, 1int));
    ratio_add_value(0int, 1int, 0int, 1int);
    assert(ratio_sum(|j: int| dp87_coupling(0, j), 13) == (0int, 1int));
    assert(dp87_node(0) == (0int, 1int));
    assert(within_1e14((0int, 1int), (0int, 1int))) by (nonlinear_arith);
    assert(ratio_eq((0int, 1int), (0int, 1int)));
}

/// The partial sums of row 1 of the coupling matrix, exactly, stage by stage.
#[verifier::spinoff_prover]
proof fn coupling_row_total_1()
    ensures
        within_1e14(coupling_row_total(1), dp87_node(1)),
        ratio_eq(coupling_row_total(1), dp87_node(1)),
{
    assert(ratio_sum(|j: int| dp87_coupling(1, j), 0) == (0int, 1int));
    assert(dp87_coupling(1, 0) == (1int, 18int));
    ratio_add_value(0int, 1int, 1int, 18int);
    assert(ratio_sum(|j: int| dp87_coupling(1, j), 1) == (1int, 18int));
    assert(dp87_coupling(1, 1) == (0int, 1int));
    ratio_add_value(1int, 18int, 0int, 1int);
    assert(ratio_sum(|j: int| dp87_coupling(1, j), 2) == (1int, 18int));
    assert(dp87_coupling(1, 2) == (0int, 1int));
    ratio_add_value(1int, 18int, 0int, 1int);
    assert(ratio_sum(|j: int| dp87_coupling(1, j), 3) == (1int, 18int));
    assert(dp87_coupling(1, 3) == (0int, 1int));
    ratio_add_value(1int, 18int, 0int, 1int);
    assert(ratio_sum(|j: int| dp87_coupling(1, j), 4) == (1int, 18int));
    assert(dp87_coupling(1, 4) == (0int, 1int));
    ratio_add_value(1int, 18int, 0int, 1int);
    assert(ratio_sum(|j: int| dp87_coupling(1, j), 5) == (1int, 18int));
    assert(dp87_coupling(1, 5) == (0int, 1int));
    ratio_add_value(1int, 18int, 0int, 1int);
    assert(ratio_sum(|j: int| dp87_coupling(1, j), 6) == (1int, 18int));
    assert(dp87_coupling(1, 6) == (0int, 1int));
    ratio_add_value(1int, 18int, 0int, 1int);
    assert(ratio_sum(|j: int| dp87_coupling(1, j), 7) == (1int, 18int));
    assert(dp87_coupling(1, 7) == (0int, 1int));
    ratio_add_value(1int, 18int, 0int, 1int);
    assert(ratio_sum(|j: int| dp87_coupling(1, j), 8) == (1int, 18int));
    assert(dp87_coupling(1, 8) == (0int, 1int));
    ratio_add_value(1int, 18int, 0int, 1int);
    assert(ratio_sum(|j: int| dp87_coupling(1, j), 9) == (1int, 18int));
    assert(dp87_coupling(1, 9) == (0int, 1int));
    ratio_add_value(1int, 18int, 0int, 1int);
    assert(ratio_sum(|j: int| dp87_coupling(1, j), 10) == (1int, 18int));
    assert(dp87_coupling(1, 10) == (0int, 1int));
    ratio_add_value(1int, 18int, 0int, 1int);
    assert(ratio_sum(|j: int| dp87_coupling(1, j), 11) == (1int, 18int));
    assert(dp87_coupling(1, 11) == (0int, 1int));
    ratio_add_value(1int, 18int, 0int, 1int);
    assert(ratio_sum(|j: int| dp87_coupling(1, j), 12) == (1int, 18int));
    assert(dp87_coupling(1, 12) == (0int, 1int));
    ratio_add_value(1int, 18int, 0int, 1int);
    assert(ratio_sum(|j: int| dp87_coupling(1, j), 13) == (1int, 18int));
    assert(dp87_node(1) == (1int, 18int));
    assert(within_1e14((1int, 18int), (1int, 18int))) by (nonlinear_arith);
    assert(ratio_eq((1int, 18int), (1int, 18int)));
}

/// The partial sums of row 2 of the coupling matrix, exactly, stage by stage.
#[verifier::spinoff_prover]
proof fn coupling_row_total_2()
    ensures
        within_1e14(coupling_row_total(2), dp87_node(2)),
        ratio_eq(coupling_row_total(2), dp87_node(2)),
{
    assert(ratio_sum(|j: int| dp87_coupling(2, j), 0) == (0int, 1int));
    assert(dp87_coupling(2, 0) == (1int, 48int));
    ratio_add_value(0int, 1int, 1int, 48int);
    assert(ratio_sum(|j: int| dp87_coupling(2, j), 1) == (1int, 48int));
    assert(dp87_coupling(2, 1) == (1int, 16int));
    ratio_add_value(1int, 48int, 1int, 16int);
    assert(ratio_sum(|j: int| dp87_coupling(2, j), 2) == (64int, 768int));
    assert(dp87_coupling(2, 2) == (0int, 1int));
    ratio_add_value(64int, 768int, 0int, 1int);
    assert(ratio_sum(|j: int| dp87_coupling(2, j), 3) == (64int, 768int));
    assert(dp87_coupling(2, 3) == (0int, 1int));
    ratio_add_value(64int, 768int, 0int, 1int);
    assert(ratio_sum(|j: int| dp87_coupling(2, j), 4) == (64int, 768int));
    assert(dp87_coupling(2, 4) == (0int, 1int));
    ratio_add_value(64int, 768int, 0int, 1int);
    assert(ratio_sum(|j: int| dp87_coupling(2, j), 5) == (64int, 768int));
    assert(dp87_coupling(2, 5) == (0int, 1int));
    ratio_add_value(64int, 768int, 0int, 1int);
    assert(ratio_sum(|j: int| dp87_coupling(2, j), 6) == (64int, 768int));
    assert(dp87_coupling(2, 6) == (0int, 1int));
    ratio_add_value(64int, 768int, 0int, 1int);
    assert(ratio_sum(|j: int| dp87_coupling(2, j), 7) == (64int, 768int));
    assert(dp87_coupling(2, 7) == (0int, 1int));
    ratio_add_value(64int, 768int, 0int, 1int);
    assert(ratio_sum(|j: int| dp87_coupling(2, j), 8) == (64int, 768int));
    assert(dp87_coupling(2, 8) == (0int, 1int));
    ratio_add_value(64int, 768int, 0int, 1int);
    assert(ratio_sum(|j: int| dp87_coupling(2, j), 9) == (64int, 768int));
    assert(dp87_coupling(2, 9) == (0int, 1int));
    ratio_add_value(64int, 768int, 0int, 1int);
    assert(ratio_sum(|j: int| dp87_coupling(2, j), 10) == (64int, 768int));
    assert(dp87_coupling(2, 10) == (0int, 1int));
    ratio_add_value(64int, 768int, 0int, 1int);
    assert(ratio_sum(|j: int| dp87_coupling(2, j), 11) == (64int, 768int));
    assert(dp87_coupling(2, 11) == (0int, 1int));
    ratio_add_value(64int, 768int, 0int, 1int);
    assert(ratio_sum(|j: int| dp87_coupling(2, j), 12) == (64int, 768int));
    assert(dp87_coupling(2, 12) == (0int, 1int));
    ratio_add_value(64int, 768int, 0int, 1int);
    assert(ratio_sum(|j: int| dp87_coupling(2, j), 13) == (64int, 768int));
    assert(dp87_node(2) == (1int, 12int));
    assert(within_1e14((64int, 768int), (1int, 12int))) by (nonlinear_arith);
    assert(ratio_eq((64int, 768int), (1int, 12int)));
}

/// The partial sums of row 3 of the coupling matrix, exactly, stage by stage.
#[verifier::spinoff_prover]
proof fn coupling_row_total_3()
    ensures
        within_1e14(coupling_row_total(3), dp87_node(3)),
        ratio_eq(coupling_row_total(3), dp87_node(3)),
{
    assert(ratio_sum(|j: int| dp87_coupling(3, j), 0) == (0int, 1int));
    assert(dp87_coupling(3, 0) == (1int, 32int));
    ratio_add_value(0int, 1int, 1int, 32int);
    assert(ratio_sum(|j: int| dp87_coupling(3, j), 1) == (1int, 32int));
    assert(dp87_coupling(3, 1) == (0int, 1int));
    ratio_add_value(1int, 32int, 0int, 1int);
    assert(ratio_sum(|j: int| dp87_coupling(3, j), 2) == (1int, 32int));
    assert(dp87_coupling(3, 2) == (3int, 32int));
    ratio_add_value(1int, 32int, 3int, 32int);
    assert(ratio_sum(|j: int| dp87_coupling(3, j), 3) == (128int, 1024int));
    assert(dp87_coupling(3, 3) == (0int, 1int));
    ratio_add_value(128int, 1024int, 0int, 1int);
    assert(ratio_sum(|j: int| dp87_coupling(3, j), 4) == (128int, 1024int));
    assert(dp87_coupling(3, 4) == (0int, 1int));
    ratio_add_value(128int, 1024int, 0int, 1int);
    assert(ratio_sum(|j: int| dp87_coupling(3, j), 5) == (128int, 1024int));
    assert(dp87_coupling(3, 5) == (0int, 1int));
    ratio_add_value(128int, 1024int, 0int, 1int);
    assert(ratio_sum(|j: int| dp87_coupling(3, j), 6) == (128int, 1024int));
    assert(dp87_coupling(3, 6) == (0int, 1int));
    ratio_add_value(128int, 1024int, 0int, 1int);
    assert(ratio_sum(|j: int| dp87_coupling(3, j), 7) == (128int, 1024int));
    assert(dp87_coupling(3, 7) == (0int, 1int));
    ratio_add_value(128int, 1024int, 0int, 1int);
    assert(ratio_sum(|j: int| dp87_coupling(3, j), 8) == (128int, 1024int));
    assert(dp87_coupling(3, 8) == (0int, 1int));
    ratio_add_value(128int, 1024int, 0int, 1int);
    assert(ratio_sum(|j: int| dp87_coupling(3, j), 9) == (128int, 1024int));
    assert(dp87_coupling(3, 9) == (0int, 1int));
    ratio_add_value(128int, 1024int, 0int, 1int);
    assert(ratio_sum(|j: int| dp87_coupling(3, j), 10) == (128int, 1024int));
    assert(dp87_coupling(3, 10) == (0int, 1int));
    ratio_add_value(128int, 1024int, 0int, 1int);
    assert(ratio_sum(|j: int| dp87_coupling(3, j), 11) == (128int, 1024int));
    assert(dp87_coupling(3, 11) == (0int, 1int));
    ratio_add_value(128int, 1024int, 0int, 1int);
    assert(ratio_sum(|j: int| dp87_coupling(3, j), 12) == (128int, 1024int));
    assert(dp87_coupling(3, 12) == (0int, 1int));
    ratio_add_value(128int, 1024int, 0int, 1int);
    assert(ratio_sum(|j: int| dp87_coupling(3, j), 13) == (128int, 1024int));
    assert(dp87_node(3) == (1int, 8int));
    assert(within_1e14((128int, 1024int), (1int, 8int))) by (nonlinear_arith);
    assert(ratio_eq((128int, 1024int), (1int, 8int)));
}

/// The partial sums of row 4 of the coupling matrix, exactly, stage by stage.
#[verifier::spinoff_prover]
proof fn coupling_row_total_4()
    ensures
        within_1e14(coupling_row_total(4), dp87_node(4)),
        ratio_eq(coupling_row_total(4), dp87_node(4)),
{
    assert(ratio_sum(|j: int| dp87_coupling(4, j), 0) == (0int, 1int));
    assert(dp87_coupling(4, 0) == (5int, 16int));
    ratio_add_value(0int, 1int, 5int, 16int);
    assert(ratio_sum(|j: int| dp87_coupling(4, j), 1) == (5int, 16int));
    assert(dp87_coupling(4, 1) == (0int, 1int));
    ratio_add_value(5int, 16int, 0int, 1int);
    assert(ratio_sum(|j: int| dp87_coupling(4, j), 2) == (5int, 16int));
    assert(dp87_coupling(4, 2) == (-75int, 64int));
    ratio_add_value(5int, 16int, -75int, 64int);
    assert(ratio_sum(|j: int| dp87_coupling(4, j), 3) == (-880int, 1024int));
    assert(dp87_coupling(4, 3) == (75int, 64int));
    ratio_add_value(-880int, 1024int, 75int, 64int);
    assert(ratio_sum(|j: int| dp87_coupling(4, j), 4) == (20480int, 65536int));
    assert(dp87_coupling(4, 4) == (0int, 1int));
    ratio_add_value(20480int, 65536int, 0int, 1int);
    assert(ratio_sum(|j: int| dp87_coupling(4, j), 5) == (20480int, 65536int));
    assert(dp87_coupling(4, 5) == (0int, 1int));
    ratio_add_value(20480int, 65536int, 0int, 1int);
    assert(ratio_sum(|j: int| dp87_coupling(4, j), 6) == (20480int, 65536int));
    assert(dp87_coupling(4, 6) == (0int, 1int));
    ratio_add_value(20480int, 65536int, 0int, 1int);
    assert(ratio_sum(|j: int| dp87_coupling(4, j), 7) == (20480int, 65536int));
    assert(dp87_coupling(4, 7) == (0int, 1int));
    ratio_add_value(20480int, 65536int, 0int, 1int);
    assert(ratio_sum(|j: int| dp87_coupling(4, j), 8) == (20480int, 65536int));
    assert(dp87_coupling(4, 8) == (0int, 1int));
    ratio_add_value(20480int, 65536int, 0int, 1int);
    assert(ratio_sum(|j: int| dp87_coupling(4, j), 9) == (20480int, 65536int));
    assert(dp87_coupling(4, 9) == (0int, 1int));
    ratio_add_value(20480int, 65536int, 0int, 1int);
    assert(ratio_sum(|j: int| dp87_coupling(4, j), 10) == (20480int, 65536int));
    assert(dp87_coupling(4, 10) == (0int, 1int));
    ratio_add_value(20480int, 65536int, 0int, 1int);
    assert(ratio_sum(|j: int| dp87_coupling(4, j), 11) == (20480int, 65536int));
    assert(dp87_coupling(4, 11) == (0int, 1int));
    ratio_add_value(20480int, 65536int, 0int, 1int);
    assert(ratio_sum(|j: int| dp87_coupling(4, j), 12) == (20480int, 65536int));
    assert(dp87_coupling(4, 12) == (0int, 1int));
    ratio_add_value(20480int, 65536int, 0int, 1int);
    assert(ratio_sum(|j: int| dp87_coupling(4, j), 13) == (20480int, 65536int));
    assert(dp87_node(4) == (5int, 16int));
    assert(within_1e14((20480int, 65536int), (5int, 16int))) by (nonlinear_arith);
    assert(ratio_eq((20480int, 65536int), (5int, 16int)));
}

/// The partial sums of row 5 of the coupling matrix, exactly, stage by stage.
#[verifier::spinoff_prover]
proof fn coupling_row_total_5()
    ensures
        within_1e14(coupling_row_total(5), dp87_node(5)),
        ratio_eq(coupling_row_total(5), dp87_node(5)),
{
    assert(ratio_sum(|j: int| dp87_coupling(5, j), 0) == (0int, 1int));
    assert(dp87_coupling(5, 0) == (3int, 80int));
    ratio_add_value(0int, 1int, 3int, 80int);
    assert(ratio_sum(|j: int| dp87_coupling(5, j), 1) == (3int, 80int));
    assert(dp87_coupling(5, 1) == (0int, 1int));
    ratio_add_value(3int, 80int, 0int, 1int);
    assert(ratio_sum(|j: int| dp87_coupling(5, j), 2) == (3int, 80int));
    assert(dp87_coupling(5, 2) == (0int, 1int));
    ratio_add_value(3int, 80int, 0int, 1int);
    assert(ratio_sum(|j: int| dp87_coupling(5, j), 3) == (3int, 80int));
    assert(dp87_coupling(5, 3) == (3int, 16int));
    ratio_add_value(3int, 80int, 3int, 16int);
    assert(ratio_sum(|j: int| dp87_coupling(5, j), 4) == (288int, 1280int));
    assert(dp87_coupling(5, 4) == (3int, 20int));
    ratio_add_value(288int, 1280int, 3int, 20int);
    assert(ratio_sum(|j: int| dp87_coupling(5, j), 5) == (9600int, 25600int));
    assert(dp87_coupling(5, 5) == (0int, 1int));
    ratio_add_value(9600int, 25600int, 0int, 1int);
    assert(ratio_sum(|j: int| dp87_coupling(5, j), 6) == (9600int, 25600int));
    assert(dp87_coupling(5, 6) == (0int, 1int));
    ratio_add_value(9600int, 25600int, 0int, 1int);
    assert(ratio_sum(|j: int| dp87_coupling(5, j), 7) == (9600int, 25600int));
    assert(dp87_coupling(5, 7) == (0int, 1int));
    ratio_add_value(9600int, 25600int, 0int, 1int);
    assert(ratio_sum(|j: int| dp87_coupling(5, j), 8) == (9600int, 25600int));
    assert(dp87_coupling(5, 8) == (0int, 1int));
    ratio_add_value(9600int, 25600int, 0int, 1int);
    assert(ratio_sum(|j: int| dp87_coupling(5, j), 9) == (9600int, 25600int));
    assert(dp87_coupling(5, 9) == (0int, 1int));
    ratio_add_value(9600int, 25600int, 0int, 1int);
    assert(ratio_sum(|j: int| dp87_coupling(5, j), 10) == (9600int, 25600int));
    assert(dp87_coupling(5, 10) == (0int, 1int));
    ratio_add_value(9600int, 25600int, 0int, 1int);
    assert(ratio_sum(|j: int| dp87_coupling(5, j), 11) == (9600int, 25600int));
    assert(dp87_coupling(5, 11) == (0int, 1int));
    ratio_add_value(9600int, 25600int, 0int, 1int);
    assert(ratio_sum(|j: int| dp87_coupling(5, j), 12) == (9600int, 25600int));
    assert(dp87_coupling(5, 12) == (0int, 1int));
    ratio_add_value(9600int, 25600int, 0int, 1int);
    assert(ratio_sum(|j: int| dp87_coupling(5, j), 13) == (9600int, 25600int));
    assert(dp87_node(5) == (3int, 8int));
    assert(within_1e14((9600int, 25600int), (3int, 8int))) by (nonlinear_arith);
    assert(ratio_eq((9600int, 25600int), (3int, 8int)));
}

/// The partial sums of row 6 of the coupling matrix, exactly, stage by stage.
#[verifier::spinoff_prover]
proof fn coupling_row_total_6()
    ensures
        within_1e14(coupling_row_total(6), dp87_node(6)),
{
    assert(ratio_sum(|j: int| dp87_coupling(6, j), 0) == (0int, 1int));
    assert(dp87_coupling(6, 0) == (29443841int, 614563906int));
    ratio_add_value(0int, 1int, 29443841int, 614563906int);
    assert(ratio_sum(|j: int| dp87_coupling(6, j), 1) == (29443841int, 614563906int));
    assert(dp87_coupling(6, 1) == (0int, 1int));
    ratio_add_value(29443841int, 614563906int, 0int, 1int);
    assert(ratio_sum(|j: int| dp87_coupling(6, j), 2) == (29443841int, 614563906int));
    assert(dp87_coupling(6, 2) == (0int, 1int));
    ratio_add_value(29443841int, 614563906int, 0int, 1int);
    assert(ratio_sum(|j: int| dp87_coupling(6, j), 3) == (29443841int, 614563906int));
    assert(dp87_coupling(6, 3) == (77736538int, 692538347int));
    ratio_add_value(29443841int, 614563906int, 77736538int, 692538347int);
    assert(ratio_sum(|j: int| dp87_coupling(6, j), 4) == (68165059407668255int, 425609071587103382int));
    assert(dp87_coupling(6, 4) == (-28693883int, 1125000000int));
    ratio_add_value(68165059407668255int, 425609071587103382int, -28693883int, 1125000000int);
    assert(ratio_sum(|j: int| dp87_coupling(6, j), 5) == (64473314929767818122987694int, 478810205535491304750000000int));
    assert(dp87_coupling(6, 5) == (23124283int, 1800000000int));
    ratio_add_value(64473314929767818122987694int, 478810205535491304750000000int, 23124283int, 1800000000int);
    assert(ratio_sum(|j: int| dp87_coupling(6, j), 6) == (127124109569672940096456093450000000int, 861858369963884348550000000000000000int));
    assert(dp87_coupling(6, 6) == (0int, 1int));
    ratio_add_value(127124109569672940096456093450000000int, 861858369963884348550000000000000000int, 0int, 1int);
    assert(ratio_sum(|j: int| dp87_coupling(6, j), 7) == (127124109569672940096456093450000000int, 861858369963884348550000000000000000int));
    assert(dp87_coupling(6, 7) == (0int, 1int));
    ratio_add_value(127124109569672940096456093450000000int, 861858369963884348550000000000000000int, 0int, 1int);
    assert(ratio_sum(|j: int| dp87_coupling(6, j), 8) == (127124109569672940096456093450000000int, 861858369963884348550000000000000000int));
    assert(dp87_coupling(6, 8) == (0int, 1int));
    ratio_add_value(127124109569672940096456093450000000int, 861858369963884348550000000000000000int, 0int, 1int);
    assert(ratio_sum(|j: int| dp87_coupling(6, j), 9) == (127124109569672940096456093450000000int, 861858369963884348550000000000000000int));
    assert(dp87_coupling(6, 9) == (0int, 1int));
    ratio_add_value(127124109569672940096456093450000000int, 861858369963884348550000000000000000int, 0int, 1int);
    assert(ratio_sum(|j: int| dp87_coupling(6, j), 10) == (127124109569672940096456093450000000int, 861858369963884348550000000000000000int));
    assert(dp87_coupling(6, 10) == (0int, 1int));
    ratio_add_value(127124109569672940096456093450000000int, 861858369963884348550000000000000000int, 0int, 1int);
    assert(ratio_sum(|j: int| dp87_coupling(6, j), 11) == (127124109569672940096456093450000000int, 861858369963884348550000000000000000int));
    assert(dp87_coupling(6, 11) == (0int, 1int));
    ratio_add_value(127124109569672940096456093450000000int, 861858369963884348550000000000000000int, 0int, 1int);
    assert(ratio_sum(|j: int| dp87_coupling(6, j), 12) == (127124109569672940096456093450000000int, 861858369963884348550000000000000000int));
    assert(dp87_coupling(6, 12) == (0int, 1int));
    ratio_add_value(127124109569672940096456093450000000int, 861858369963884348550000000000000000int, 0int, 1int);
    assert(ratio_sum(|j: int| dp87_coupling(6, j), 13) == (127124109569672940096456093450000000int, 861858369963884348550000000000000000int));
    assert(dp87_node(6) == (59int, 400int));
    assert(within_1e14((127124109569672940096456093450000000int, 861858369963884348550000000000000000int), (59int, 400int))) by (nonlinear_arith);
}

/// The partial sums of row 7 of the coupling matrix, exactly, stage by stage.
#[verifier::spinoff_prover]
proof fn coupling_row_total_7()
    ensures
        within_1e14(coupling_row_total(7), dp87_node(7)),
{
    assert(ratio_sum(|j: int| dp87_coupling(7, j), 0) == (0int, 1int));
    assert(dp87_coupling(7, 0) == (16016141int, 946692911int));
    ratio_add_value(0int, 1int, 16016141int, 946692911int);
    assert(ratio_sum(|j: int| dp87_coupling(7, j), 1) == (16016141int, 946692911int));
    assert(dp87_coupling(7, 1) == (0int, 1int));
    ratio_add_value(16016141int, 946692911int, 0int, 1int);
    assert(ratio_sum(|j: int| dp87_coupling(7, j), 2) == (16016141int, 946692911int));
    assert(dp87_coupling(7, 2) == (0int, 1int));
    ratio_add_value(16016141int, 946692911int, 0int, 1int);
    assert(ratio_sum(|j: int| dp87_coupling(7, j), 3) == (16016141int, 946692911int));
    assert(dp87_coupling(7, 3) == (61564180int, 158732637int));
    ratio_add_value(16016141int, 946692911int, 61564180int, 158732637int);
    assert(ratio_sum(|j: int| dp87_coupling(7, j), 4) == (60824657073021797int, 150271062192236307int));
    assert(dp87_coupling(7, 4) == (22789713int, 633445777int));
    ratio_add_value(60824657073021797int, 150271062192236307int, 22789713int, 633445777int);
    assert(ratio_sum(|j: int| dp87_coupling(7, j), 5) == (41953756539945054203311160int, 95188569750976450855225539int));
    assert(dp87_coupling(7, 5) == (545815736int, 2771057229int));
    ratio_add_value(41953756539945054203311160int, 95188569750976450855225539int, 545815736int, 2771057229int);
    assert(ratio_sum(|j: int| dp87_coupling(7, j), 6) == (168211679601137317955094982669657344int, 263772974326614023951135962271371431int));
    assert(dp87_coupling(7, 6) == (-180193667int, 1043307555int));
    ratio_add_value(168211679601137317955094982669657344int, 263772974326614023951135962271371431int, -180193667int, 1043307555int);
    assert(ratio_sum(|j: int| dp87_coupling(7, j), 7) == (127966296667696513745606728304595508985506443int, 275196336919777448757171100269916774173461205int));
    assert(dp87_coupling(7, 7) == (0int, 1int));
    ratio_add_value(127966296667696513745606728304595508985506443int, 275196336919777448757171100269916774173461205int, 0int, 1int);
    assert(ratio_sum(|j: int| dp87_coupling(7, j), 8) == (127966296667696513745606728304595508985506443int, 275196336919777448757171100269916774173461205int));
    assert(dp87_coupling(7, 8) == (0int, 1int));
    ratio_add_value(127966296667696513745606728304595508985506443int, 275196336919777448757171100269916774173461205int, 0int, 1int);
    assert(ratio_sum(|j: int| dp87_coupling(7, j), 9) == (127966296667696513745606728304595508985506443int, 275196336919777448757171100269916774173461205int));
    assert(dp87_coupling(7, 9) == (0int, 1int));
    ratio_add_value(127966296667696513745606728304595508985506443int, 275196336919777448757171100269916774173461205int, 0int, 1int);
    assert(ratio_sum(|j: int| dp87_coupling(7, j), 10) == (127966296667696513745606728304595508985506443int, 275196336919777448757171100269916774173461205int));
    assert(dp87_coupling(7, 10) == (0int, 1int));
    ratio_add_value(127966296667696513745606728304595508985506443int, 275196336919777448757171100269916774173461205int, 0int, 1int);
    assert(ratio_sum(|j: int| dp87_coupling(7, j), 11) == (127966296667696513745606728304595508985506443int, 275196336919777448757171100269916774173461205int));
    assert(dp87_coupling(7, 11) == (0int, 1int));
    ratio_add_value(127966296667696513745606728304595508985506443int, 275196336919777448757171100269916774173461205int, 0int, 1int);
    assert(ratio_sum(|j: int| dp87_coupling(7, j), 12) == (127966296667696513745606728304595508985506443int, 275196336919777448757171100269916774173461205int));
    assert(dp87_coupling(7, 12) == (0int, 1int));
    ratio_add_value(127966296667696513745606728304595508985506443int, 275196336919777448757171100269916774173461205int, 0int, 1int);
    assert(ratio_sum(|j: int| dp87_coupling(7, j), 13) == (127966296667696513745606728304595508985506443int, 275196336919777448757171100269916774173461205int));
    assert(dp87_node(7) == (93int, 200int));
    assert(within_1e14((127966296667696513745606728304595508985506443int, 275196336919777448757171100269916774173461205int), (93int, 200int))) by (nonlinear_arith);
}

/// The partial sums of row 8 of the coupling matrix, exactly, stage by stage.
#[verifier::spinoff_prover]
proof fn coupling_row_total_8()
    ensures
        within_1e14(coupling_row_total(8), dp87_node(8)),
{
    assert(ratio_sum(|j: int| dp87_coupling(8, j), 0) == (0int, 1int));
    assert(dp87_coupling(8, 0) == (39632708int, 573591083int));
    ratio_add_value(0int, 1int, 39632708int, 573591083int);
    assert(ratio_sum(|j: int| dp87_coupling(8, j), 1) == (39632708int, 573591083int));
    assert(dp87_coupling(8, 1) == (0int, 1int));
    ratio_add_value(39632708int, 573591083int, 0int, 1int);
    assert(ratio_sum(|j: int| dp87_coupling(8, j), 2) == (39632708int, 573591083int));
    assert(dp87_coupling(8, 2) == (0int, 1int));
    ratio_add_value(39632708int, 573591083int, 0int, 1int);
    assert(ratio_sum(|j: int| dp87_coupling(8, j), 3) == (39632708int, 573591083int));
    assert(dp87_coupling(8, 3) == (-433636366int, 683701615int));
    ratio_add_value(39632708int, 573591083int, -433636366int, 683701615int);
    assert(ratio_sum(|j: int| dp87_coupling(8, j), 4) == (-221633006335700958int, 392165149796699045int));
    assert(dp87_coupling(8, 4) == (-421739975int, 2616292301int));
    ratio_add_value(-221633006335700958int, 392165149796699045int, -421739975int, 2616292301int);
    assert(ratio_sum(|j: int| dp87_coupling(8, j), 5) == (-745248448594709748174548233int, 1026018662133615426647552545int));
    assert(dp87_coupling(8, 5) == (100302831int, 723423059int));
    ratio_add_value(-745248448594709748174548233int, 1026018662133615426647552545int, 100302831int, 723423059int);
    assert(ratio_sum(|j: int| dp87_coupling(8, j), 6) == (-436217335926555049683528989175149852int, 742245559151787538674962576967135155int));
    assert(dp87_coupling(8, 6) == (790204164int, 839813087int));
    ratio_add_value(-436217335926555049683528989175149852int, 742245559151787538674962576967135155int, 790204164int, 839813087int);
    assert(ratio_sum(|j: int| dp87_coupling(8, j), 7) == (220184504064854619554103617410428509736072296int, 623347534343303794422752211372244872066773485int));
    assert(dp87_coupling(8, 7) == (800635310int, 3783071287int));
    ratio_add_value(220184504064854619554103617410428509736072296int, 623347534343303794422752211372244872066773485int, 800635310int, 3783071287int);
    assert(ratio_sum(|j: int| dp87_coupling(8, j), 8) == (1332047721566772976936274625853428188091826581016520302int, 2358168158996398985398864630358094444248799117836425195int));
    assert(dp87_coupling(8, 8) == (0int, 1int));
    ratio_add_value(1332047721566772976936274625853428188091826581016520302int, 2358168158996398985398864630358094444248799117836425195int, 0int, 1int);
    assert(ratio_sum(|j: int| dp87_coupling(8, j), 9) == (1332047721566772976936274625853428188091826581016520302int, 2358168158996398985398864630358094444248799117836425195int));
    assert(dp87_coupling(8, 9) == (0int, 1int));
    ratio_add_value(1332047721566772976936274625853428188091826581016520302int, 2358168158996398985398864630358094444248799117836425195int, 0int, 1int);
    assert(ratio_sum(|j: int| dp87_coupling(8, j), 10) == (1332047721566772976936274625853428188091826581016520302int, 2358168158996398985398864630358094444248799117836425195int));
    assert(dp87_coupling(8, 10) == (0int, 1int));
    ratio_add_value(1332047721566772976936274625853428188091826581016520302int, 2358168158996398985398864630358094444248799117836425195int, 0int, 1int);
    assert(ratio_sum(|j: int| dp87_coupling(8, j), 11) == (1332047721566772976936274625853428188091826581016520302int, 2358168158996398985398864630358094444248799117836425195int));
    assert(dp87_coupling(8, 11) == (0int, 1int));
    ratio_add_value(1332047721566772976936274625853428188091826581016520302int, 2358168158996398985398864630358094444248799117836425195int, 0int, 1int);
    assert(ratio_sum(|j: int| dp87_coupling(8, j), 12) == (1332047721566772976936274625853428188091826581016520302int, 2358168158996398985398864630358094444248799117836425195int));
    assert(dp87_coupling(8, 12) == (0int, 1int));
    ratio_add_value(1332047721566772976936274625853428188091826581016520302int, 2358168158996398985398864630358094444248799117836425195int, 0int, 1int);
    assert(ratio_sum(|j: int| dp87_coupling(8, j), 13) == (1332047721566772976936274625853428188091826581016520302int, 2358168158996398985398864630358094444248799117836425195int));
    assert(dp87_node(8) == (5490023248int, 9719169821int));
    assert(within_1e14((1332047721566772976936274625853428188091826581016520302int, 2358168158996398985398864630358094444248799117836425195int), (5490023248int, 9719169821int))) by (nonlinear_arith);
}

/// The partial sums of row 9 of the coupling matrix, exactly, stage by stage.
#[verifier::spinoff_prover]
proof fn coupling_row_total_9()
    ensures
        within_1e14(coupling_row_total(9), dp87_node(9)),
{
    assert(ratio_sum(|j: int| dp87_coupling(9, j), 0) == (0int, 1int));
    assert(dp87_coupling(9, 0) == (246121993int, 1340847787int));
    ratio_add_value(0int, 1int, 246121993int, 1340847787int);
    assert(ratio_sum(|j: int| dp87_coupling(9, j), 1) == (246121993int, 1340847787int));
    assert(dp87_coupling(9, 1) == (0int, 1int));
    ratio_add_value(246121993int, 1340847787int, 0int, 1int);
    assert(ratio_sum(|j: int| dp87_coupling(9, j), 2) == (246121993int, 1340847787int));
    assert(dp87_coupling(9, 2) == (0int, 1int));
    ratio_add_value(246121993int, 1340847787int, 0int, 1int);
    assert(ratio_sum(|j: int| dp87_coupling(9, j), 3) == (246121993int, 1340847787int));
    assert(dp87_coupling(9, 3) == (-37695042795int, 15268766246int));
    ratio_add_value(246121993int, 1340847787int, -37695042795int, 15268766246int);
    assert(ratio_sum(|j: int| dp87_coupling(9, j), 4) == (-46785335533429396387int, 20473091431169397602int));
    assert(dp87_coupling(9, 4) == (-309121744int, 1061227803int));
    ratio_add_value(-46785335533429396387int, 20473091431169397602int, -309121744int, 1061227803int);
    assert(ratio_sum(|j: int| dp87_coupling(9, j), 5) == (-55978576569033651529551805649int, 21726613840118025538003928406int));
    assert(dp87_coupling(9, 5) == (-12992083int, 490766935int));
    ratio_add_value(-55978576569033651529551805649int, 21726613840118025538003928406int, -12992083int, 490766935int);
    assert(ratio_sum(|j: int| dp87_coupling(9, j), 6) == (-27754708418767223190602068274252225513int, 10662703682243303431537913961772055610int));
    assert(dp87_coupling(9, 6) == (6005943493int, 2108947869int));
    ratio_add_value(-27754708418767223190602068274252225513int, 10662703682243303431537913961772055610int, 6005943493int, 2108947869int);
    assert(ratio_sum(|j: int| dp87_coupling(9, j), 7) == (5506362623680812932602092627521989575964863933int, 22487086208445467911462271042384524142458995090int));
    assert(dp87_coupling(9, 7) == (393006217int, 1396673457int));
    ratio_add_value(5506362623680812932602092627521989575964863933int, 22487086208445467911462271042384524142458995090int, 393006217int, 1396673457int);
    assert(ratio_sum(|j: int| dp87_coupling(9, j), 8) == (16528155203245897857826350796111539017153789357780200911int, 31407116432606554263884580021838186857348165153096326130int));
    assert(dp87_coupling(9, 8) == (123872331int, 1001029789int));
    ratio_add_value(16528155203245897857826350796111539017153789357780200911int, 31407116432606554263884580021838186857348165153096326130int, 123872331int, 1001029789int);
    assert(ratio_sum(|j: int| dp87_coupling(9, j), 9) == (20435648438159871530280835978332643033640006837456173811575246809int, 31439459135630571734793431459614295581953806862741168042589086570int));
    assert(dp87_coupling(9, 9) == (0int, 1int));
    ratio_add_value(20435648438159871530280835978332643033640006837456173811575246809int, 31439459135630571734793431459614295581953806862741168042589086570int, 0int, 1int);
    assert(ratio_sum(|j: int| dp87_coupling(9, j), 10) == (20435648438159871530280835978332643033640006837456173811575246809int, 31439459135630571734793431459614295581953806862741168042589086570int));
    assert(dp87_coupling(9, 10) == (0int, 1int));
    ratio_add_value(20435648438159871530280835978332643033640006837456173811575246809int, 31439459135630571734793431459614295581953806862741168042589086570int, 0int, 1int);
    assert(ratio_sum(|j: int| dp87_coupling(9, j), 11) == (20435648438159871530280835978332643033640006837456173811575246809int, 31439459135630571734793431459614295581953806862741168042589086570int));
    assert(dp87_coupling(9, 11) == (0int, 1int));
    ratio_add_value(20435648438159871530280835978332643033640006837456173811575246809int, 31439459135630571734793431459614295581953806862741168042589086570int, 0int, 1int);
    assert(ratio_sum(|j: int| dp87_coupling(9, j), 12) == (20435648438159871530280835978332643033640006837456173811575246809int, 31439459135630571734793431459614295581953806862741168042589086570int));
    assert(dp87_coupling(9, 12) == (0int, 1int));
    ratio_add_value(20435648438159871530280835978332643033640006837456173811575246809int, 31439459135630571734793431459614295581953806862741168042589086570int, 0int, 1int);
    assert(ratio_sum(|j: int| dp87_coupling(9, j), 13) == (20435648438159871530280835978332643033640006837456173811575246809int, 31439459135630571734793431459614295581953806862741168042589086570int));
    assert(dp87_node(9) == (13int, 20int));
    assert(within_1e14((20435648438159871530280835978332643033640006837456173811575246809int, 31439459135630571734793431459614295581953806862741168042589086570int), (13int, 20int))) by (nonlinear_arith);
}

/// The partial sums of row 10 of the coupling matrix, exactly, stage by stage.
#[verifier::spinoff_prover]
proof fn coupling_row_total_10()
    ensures
        within_1e14(coupling_row_total(10), dp87_node(10)),
{
    assert(ratio_sum(|j: int| dp87_coupling(10, j), 0) == (0int, 1int));
    assert(dp87_coupling(10, 0) == (-1028468189int, 846180014int));
    ratio_add_value(0int, 1int, -1028468189int, 846180014int);
    assert(ratio_sum(|j: int| dp87_coupling(10, j), 1) == (-1028468189int, 846180014int));
    assert(dp87_coupling(10, 1) == (0int, 1int));
    ratio_add_value(-1028468189int, 846180014int, 0int, 1int);
    assert(ratio_sum(|j: int| dp87_coupling(10, j), 2) == (-1028468189int, 846180014int));
    assert(dp87_coupling(10, 2) == (0int, 1int));
    ratio_add_value(-1028468189int, 846180014int, 0int, 1int);
    assert(ratio_sum(|j: int| dp87_coupling(10, j), 3) == (-1028468189int, 846180014int));
    assert(dp87_coupling(10, 3) == (8478235783int, 508512852int));
    ratio_add_value(-1028468189int, 846180014int, 8478235783int, 508512852int);
    assert(ratio_sum(|j: int| dp87_coupling(10, j), 4) == (6651124381574575934int, 430293412224539928int));
    assert(dp87_coupling(10, 4) == (1311729495int, 1432422823int));
    ratio_add_value(6651124381574575934int, 430293412224539928int, 1311729495int, 1432422823int);
    assert(ratio_sum(|j: int| dp87_coupling(10, j), 5) == (10091650923098305830770918042int, 616362104256978193541976744int));
    assert(dp87_coupling(10, 5) == (-10304129995int, 1701304382int));
    ratio_add_value(10091650923098305830770918042int, 616362104256978193541976744int, -10304129995int, 1701304382int);
    assert(ratio_sum(|j: int| dp87_coupling(10, j), 6) == (10817894690825846534529915443574623764int, 1048619548871137854751409135509292208int));
    assert(dp87_coupling(10, 6) == (-48777925059int, 3047939560int));
    ratio_add_value(10817894690825846534529915443574623764int, 1048619548871137854751409135509292208int, -48777925059int, 3047939560int);
    assert(ratio_sum(|j: int| dp87_coupling(10, j), 7) == (-18177196586156683604039626602594187537544936432int, 3196129006393694409710353869864172468362948480int));
    assert(dp87_coupling(10, 7) == (15336726248int, 1032824649int));
    ratio_add_value(-18177196586156683604039626602594187537544936432int, 3196129006393694409710353869864172468362948480int, 15336726248int, 1032824649int);
    assert(ratio_sum(|j: int| dp87_coupling(10, j), 8) == (30244298940451057872749367945398825857435958251779990672int, 3301040819187286184522358427308255607312425868461083520int));
    assert(dp87_coupling(10, 8) == (-45442868181int, 3398467696int));
    ratio_add_value(30244298940451057872749367945398825857435958251779990672int, 3301040819187286184522358427308255607312425868461083520int, -45442868181int, 3398467696int);
    assert(ratio_sum(|j: int| dp87_coupling(10, j), 9) == (-47224489869138153784806770792547728703327062916332530929818145408int, 11218480587185369072006330304940470915562140693359737575877969920int));
    assert(dp87_coupling(10, 9) == (3065993473int, 597172653int));
    ratio_add_value(-47224489869138153784806770792547728703327062916332530929818145408int, 11218480587185369072006330304940470915562140693359737575877969920int, 3065993473int, 597172653int);
    assert(ratio_sum(|j: int| dp87_coupling(10, j), 10) == (6194614355562694896672425323080943701769785403304435323070639318375204736int, 6699369814878484651514168300995600023715582544212893971570836101380597760int));
    assert(dp87_coupling(10, 10) == (0int, 1int));
    ratio_add_value(6194614355562694896672425323080943701769785403304435323070639318375204736int, 6699369814878484651514168300995600023715582544212893971570836101380597760int, 0int, 1int);
    assert(ratio_sum(|j: int| dp87_coupling(10, j), 11) == (6194614355562694896672425323080943701769785403304435323070639318375204736int, 6699369814878484651514168300995600023715582544212893971570836101380597760int));
    assert(dp87_coupling(10, 11) == (0int, 1int));
    ratio_add_value(6194614355562694896672425323080943701769785403304435323070639318375204736int, 6699369814878484651514168300995600023715582544212893971570836101380597760int, 0int, 1int);
    assert(ratio_sum(|j: int| dp87_coupling(10, j), 12) == (6194614355562694896672425323080943701769785403304435323070639318375204736int, 6699369814878484651514168300995600023715582544212893971570836101380597760int));
    assert(dp87_coupling(10, 12) == (0int, 1int));
    ratio_add_value(6194614355562694896672425323080943701769785403304435323070639318375204736int, 6699369814878484651514168300995600023715582544212893971570836101380597760int, 0int, 1int);
    assert(ratio_sum(|j: int| dp87_coupling(10, j), 13) == (6194614355562694896672425323080943701769785403304435323070639318375204736int, 6699369814878484651514168300995600023715582544212893971570836101380597760int));
    assert(dp87_node(10) == (1201146811int, 1299019798int));
    assert(within_1e14((6194614355562694896672425323080943701769785403304435323070639318375204736int, 6699369814878484651514168300995600023715582544212893971570836101380597760int), (1201146811int, 1299019798int))) by (nonlinear_arith);
}

/// The partial sums of row 11 of the coupling matrix, exactly, stage by stage.
#[verifier::spinoff_prover]
proof fn coupling_row_total_11()
    ensures
        within_1e14(coupling_row_total(11), dp87_node(11)),
{
    assert(ratio_sum(|j: int| dp87_coupling(11, j), 0) == (0int, 1int));
    assert(dp87_coupling(11, 0) == (185892177int, 718116043int));
    ratio_add_value(0int, 1int, 185892177int, 718116043int);
    assert(ratio_sum(|j: int| dp87_coupling(11, j), 1) == (185892177int, 718116043int));
    assert(dp87_coupling(11, 1) == (0int, 1int));
    ratio_add_value(185892177int, 718116043int, 0int, 1int);
    assert(ratio_sum(|j: int| dp87_coupling(11, j), 2) == (185892177int, 718116043int));
    assert(dp87_coupling(11, 2) == (0int, 1int));
    ratio_add_value(185892177int, 718116043int, 0int, 1int);
    assert(ratio_sum(|j: int| dp87_coupling(11, j), 3) == (185892177int, 718116043int));
    assert(dp87_coupling(11, 3) == (-3185094517int, 667107341int));
    ratio_add_value(185892177int, 718116043int, -3185094517int, 667107341int);
    assert(ratio_sum(|j: int| dp87_coupling(11, j), 4) == (-2163257435217864874int, 479060483975171663int));
    assert(dp87_coupling(11, 4) == (-477755414int, 1098053517int));
    ratio_add_value(-2163257435217864874int, 479060483975171663int, -477755414int, 1098053517int);
    assert(ratio_sum(|j: int| dp87_coupling(11, j), 5) == (-2604246174769974689704095340int, 526034049284659385235888771int));
    assert(dp87_coupling(11, 5) == (-703635378int, 230739211int));
    ratio_add_value(-2604246174769974689704095340int, 526034049284659385235888771int, -703635378int, 230739211int);
    assert(ratio_sum(|j: int| dp87_coupling(11, j), 6) == (-971037874725474002523994996768917178int, 121376681491077420953074023904299681int));
    assert(dp87_coupling(11, 6) == (5731566787int, 1027545527int));
    ratio_add_value(-971037874725474002523994996768917178int, 121376681491077420953074023904299681int, 5731566787int, 1027545527int);
    assert(ratio_sum(|j: int| dp87_coupling(11, j), 7) == (-302107068371210181468060808137952180773067859int, 124720066148260294311027290162754213279076887int));
    assert(dp87_coupling(11, 7) == (5232866602int, 850066563int));
    ratio_add_value(-302107068371210181468060808137952180773067859int, 124720066148260294311027290162754213279076887int, 5232866602int, 850066563int);
    assert(ratio_sum(|j: int| dp87_coupling(11, j), 8) == (395832351478141427391704561554408226834749869506529357int, 106020357967784276814343421547856184695913849144829381int));
    assert(dp87_coupling(11, 8) == (-4093664535int, 808688257int));
    ratio_add_value(395832351478141427391704561554408226834749869506529357int, 106020357967784276814343421547856184695913849144829381int, -4093664535int, 808688257int);
    assert(ratio_sum(|j: int| dp87_coupling(11, j), 9) == (-113906805019653602008610825958630068944617784657315439794042086int, 85737418491483528968996894170952060088408645687093012683278917int));
    assert(dp87_coupling(11, 9) == (3962137247int, 1805957418int));
    ratio_add_value(-113906805019653602008610825958630068944617784657315439794042086int, 85737418491483528968996894170952060088408645687093012683278917int, 3962137247int, 1805957418int);
    assert(ratio_sum(|j: int| dp87_coupling(11, j), 10) == (133992579780810384077195681606951408599282088657051726243880113719627551int, 154838126924865048966377833046991833039043329493939333111335644719156306int));
    assert(dp87_coupling(11, 10) == (65686358int, 487910083int));
    ratio_add_value(133992579780810384077195681606951408599282088657051726243880113719627551int, 154838126924865048966377833046991833039043329493939333111335644719156306int, 65686358int, 487910083int);
    assert(ratio_sum(|j: int| dp87_coupling(11, j), 11) == (75547083359475441010459447724878171514721465735726324151977271544176227711370281int, 75547083359475440804984472731317928158401773133984288015316422655782064950433398int));
    assert(dp87_coupling(11, 11) == (0int, 1int));
    ratio_add_value(75547083359475441010459447724878171514721465735726324151977271544176227711370281int, 75547083359475440804984472731317928158401773133984288015316422655782064950433398int, 0int, 1int);
    assert(ratio_sum(|j: int| dp87_coupling(11, j), 12) == (75547083359475441010459447724878171514721465735726324151977271544176227711370281int, 75547083359475440804984472731317928158401773133984288015316422655782064950433398int));
    assert(dp87_coupling(11, 12) == (0int, 1int));
    ratio_add_value(75547083359475441010459447724878171514721465735726324151977271544176227711370281int, 75547083359475440804984472731317928158401773133984288015316422655782064950433398int, 0int, 1int);
    assert(ratio_sum(|j: int| dp87_coupling(11, j), 13) == (75547083359475441010459447724878171514721465735726324151977271544176227711370281int, 75547083359475440804984472731317928158401773133984288015316422655782064950433398int));
    assert(dp87_node(11) == (1int, 1int));
    assert(within_1e14((75547083359475441010459447724878171514721465735726324151977271544176227711370281int, 75547083359475440804984472731317928158401773133984288015316422655782064950433398int), (1int, 1int))) by (nonlinear_arith);
}

/// The partial sums of row 12 of the coupling matrix, exactly, stage by stage.
#[verifier::spinoff_prover]
proof fn coupling_row_total_12()
    ensures
        within_1e14(coupling_row_total(12), dp87_node(12)),
{
    assert(ratio_sum(|j: int| dp87_coupling(12, j), 0) == (0int, 1int));
    assert(dp87_coupling(12, 0) == (403863854int, 491063109int));
    ratio_add_value(0int, 1int, 403863854int, 491063109int);
    assert(ratio_sum(|j: int| dp87_coupling(12, j), 1) == (403863854int, 491063109int));
    assert(dp87_coupling(12, 1) == (0int, 1int));
    ratio_add_value(403863854int, 491063109int, 0int, 1int);
    assert(ratio_sum(|j: int| dp87_coupling(12, j), 2) == (403863854int, 491063109int));
    assert(dp87_coupling(12, 2) == (0int, 1int));
    ratio_add_value(403863854int, 491063109int, 0int, 1int);
    assert(ratio_sum(|j: int| dp87_coupling(12, j), 3) == (403863854int, 491063109int));
    assert(dp87_coupling(12, 3) == (-5068492393int, 434740067int));
    ratio_add_value(403863854int, 491063109int, -5068492393int, 434740067int);
    assert(ratio_sum(|j: int| dp87_coupling(12, j), 4) == (-2313373833502591619int, 213484808907888303int));
    assert(dp87_coupling(12, 4) == (-411421997int, 543043805int));
    ratio_add_value(-2313373833502591619int, 213484808907888303int, -411421997int, 543043805int);
    assert(ratio_sum(|j: int| dp87_coupling(12, j), 5) == (-1344095675342730624816071386int, 115931602939037558576112915int));
    assert(dp87_coupling(12, 5) == (652783627int, 914296604int));
    ratio_add_value(-1344095675342730624816071386int, 115931602939037558576112915int, 652783627int, 914296604int);
    assert(ratio_sum(|j: int| dp87_coupling(12, j), 6) == (-1153223859166476348979592248626130439int, 105995870863438458834591113705040660int));
    assert(dp87_coupling(12, 6) == (11173962825int, 925320556int));
    ratio_add_value(-1153223859166476348979592248626130439int, 105995870863438458834591113705040660int, 11173962825int, 925320556int);
    assert(ratio_sum(|j: int| dp87_coupling(12, j), 7) == (117292178075172398894367596463451096009460416int, 98080158161061074800606961366207443513806960int));
    assert(dp87_coupling(12, 7) == (-13158990841int, 6184727034int));
    ratio_add_value(117292178075172398894367596463451096009460416int, 98080158161061074800606961366207443513806960int, -13158990841int, 6184727034int);
    assert(ratio_sum(|j: int| dp87_coupling(12, j), 8) == (-565215798306973266490175921677655809677571289093967216int, 606599005677710155444410033570176749951869857769356640int));
    assert(dp87_coupling(12, 8) == (3936647629int, 1978049680int));
    ratio_add_value(-565215798306973266490175921677655809677571289093967216int, 606599005677710155444410033570176749951869857769356640int, 3936647629int, 1978049680int);
    assert(ratio_sum(|j: int| dp87_coupling(12, j), 9) == (1269941608482862210030010994939654570326093548134795704172115680int, 1199882969069112756109565524692277377785736187562321415557875200int));
    assert(dp87_coupling(12, 9) == (-160528059int, 685178525int));
    ratio_add_value(1269941608482862210030010994939654570326093548134795704172115680int, 1199882969069112756109565524692277377785736187562321415557875200int, -160528059int, 685178525int);
    assert(ratio_sum(|j: int| dp87_coupling(12, j), 10) == (677521834084593309256194194234367122759987598247576423387348459731535200int, 822134042919395301289836844599505692602098487033074733087856981670080000int));
    assert(dp87_coupling(12, 10) == (248638103int, 1413531060int));
    ratio_add_value(677521834084593309256194194234367122759987598247576423387348459731535200int, 822134042919395301289836844599505692602098487033074733087856981670080000int, 248638103int, 1413531060int);
    assert(ratio_sum(|j: int| dp87_coupling(12, j), 11) == (1162112005149938339721634477162677737610362296972824644073923551131438729741552000int, 1162112005149938334791242442173794557139878432600258382520895552428508752684800000int));
    assert(dp87_coupling(12, 11) == (0int, 1int));
    ratio_add_value(1162112005149938339721634477162677737610362296972824644073923551131438729741552000int, 1162112005149938334791242442173794557139878432600258382520895552428508752684800000int, 0int, 1int);
    assert(ratio_sum(|j: int| dp87_coupling(12, j), 12) == (1162112005149938339721634477162677737610362296972824644073923551131438729741552000int, 1162112005149938334791242442173794557139878432600258382520895552428508752684800000int));
    assert(dp87_coupling(12, 12) == (0int, 1int));
    ratio_add_value(1162112005149938339721634477162677737610362296972824644073923551131438729741552000int, 1162112005149938334791242442173794557139878432600258382520895552428508752684800000int, 0int, 1int);
    assert(ratio_sum(|j: int| dp87_coupling(12, j), 13) == (1162112005149938339721634477162677737610362296972824644073923551131438729741552000int, 1162112005149938334791242442173794557139878432600258382520895552428508752684800000int));
    assert(dp87_node(12) == (1int, 1int));
    assert(within_1e14((1162112005149938339721634477162677737610362296972824644073923551131438729741552000int, 1162112005149938334791242442173794557139878432600258382520895552428508752684800000int), (1int, 1int))) by (nonlinear_arith);
}

/// Each node equals the sum of its row of coupling coefficients, within
/// 1e-14; for the first six stages the two are exactly equal.
pub proof fn lemma_dp87_rows_match_nodes(i: int)
    requires
        0 <= i < 13,
    ensures
        within_1e14(coupling_row_total(i), dp87_node(i)),
        i < 6 ==> ratio_eq(coupling_row_total(i), dp87_node(i)),
{
    if i == 0 {
        coupling_row_total_0();
    } else if i == 1 {
        coupling_row_total_1();
    } else if i == 2 {
        coupling_row_total_2();
    } else if i == 3 {
        coupling_row_total_3();
    } else if i == 4 {
        coupling_row_total_4();
    } else if i == 5 {
        coupling_row_total_5();
    } else if i == 6 {
        coupling_row_total_6();
    } else if i == 7 {
        coupling_row_total_7();
    } else if i == 8 {
        coupling_row_total_8();
    } else if i == 9 {
        coupling_row_total_9();
    } else if i == 10 {
        coupling_row_total_10();
    } else if i == 11 {
        coupling_row_total_11();
    } else if i == 12 {
        coupling_row_total_12();
    }
}

/// The moment of degree 0 of the order-8 weights, exactly, stage by stage.
#[verifier::spinoff_prover]
proof fn quadrature_condition_8_0()
    ensures
        within_1e14(weight8_moment(0), (1, 1)),
{
    assert(ratio_sum(|i: int| ratio_mul(dp87_weight8(i), ratio_pow(dp87_node(i), 0)), 0) == (0int, 1int));
    assert(dp87_weight8(0) == (14005451int, 335480064int));
    assert(dp87_node(0) == (0int, 1int));
    assert(ratio_pow(dp87_node(0), 0) == (1int, 1int));
    ratio_mul_value(14005451int, 335480064int, 1int, 1int);
    assert(ratio_mul(dp87_weight8(0), ratio_pow(dp87_node(0), 0)) == (14005451int, 335480064int));
    ratio_add_value(0int, 1int, 14005451int, 335480064int);
    assert(ratio_sum(|i: int| ratio_mul(dp87_weight8(i), ratio_pow(dp87_node(i), 0)), 1) == (14005451int, 335480064int));
    assert(dp87_weight8(1) == (0int, 1int));
    assert(dp87_node(1) == (1int, 18int));
    assert(ratio_pow(dp87_node(1), 0) == (1int, 1int));
    ratio_mul_value(0int, 1int, 1int, 1int);
    assert(ratio_mul(dp87_weight8(1), ratio_pow(dp87_node(1), 0)) == (0int, 1int));
    ratio_add_value(14005451int, 335480064int, 0int, 1int);
    assert(ratio_sum(|i: int| ratio_mul(dp87_weight8(i), ratio_pow(dp87_node(i), 0)), 2) == (14005451int, 335480064int));
    assert(dp87_weight8(2) == (0int, 1int));
    assert(dp87_node(2) == (1int, 12int));
    assert(ratio_pow(dp87_node(2), 0) == (1int, 1int));
    ratio_mul_value(0int, 1int, 1int, 1int);
    assert(ratio_mul(dp87_weight8(2), ratio_pow(dp87_node(2), 0)) == (0int, 1int));
    ratio_add_value(14005451int, 335480064int, 0int, 1int);
    assert(ratio_sum(|i: int| ratio_mul(dp87_weight8(i), ratio_pow(dp87_node(i), 0)), 3) == (14005451int, 335480064int));
    assert(dp87_weight8(3) == (0int, 1int));
    assert(dp87_node(3) == (1int, 8int));
    assert(ratio_pow(dp87_node(3), 0) == (1int, 1int));
    ratio_mul_value(0int, 1int, 1int, 1int);
    assert(ratio_mul(dp87_weight8(3), ratio_pow(dp87_node(3), 0)) == (0int, 1int));
    ratio_add_value(14005451int, 335480064int, 0int, 1int);
    assert(ratio_sum(|i: int| ratio_mul(dp87_weight8(i), ratio_pow(dp87_node(i), 0)), 4) == (14005451int, 335480064int));
    assert(dp87_weight8(4) == (0int, 1int));
    assert(dp87_node(4) == (5int, 16int));
    assert(ratio_pow(dp87_node(4), 0) == (1int, 1int));
    ratio_mul_value(0int, 1int, 1int, 1int);
    assert(ratio_mul(dp87_weight8(4), ratio_pow(dp87_node(4), 0)) == (0int, 1int));
    ratio_add_value(14005451int, 335480064int, 0int, 1int);
    assert(ratio_sum(|i: int| ratio_mul(dp87_weight8(i), ratio_pow(dp87_node(i), 0)), 5) == (14005451int, 335480064int));
    assert(dp87_weight8(5) == (-59238493int, 1068277825int));
    assert(dp87_node(5) == (3int, 8int));
    assert(ratio_pow(dp87_node(5), 0) == (1int, 1int));
    ratio_mul_value(-59238493int, 1068277825int, 1int, 1int);
    assert(ratio_mul(dp87_weight8(5), ratio_pow(dp87_node(5), 0)) == (-59238493int, 1068277825int));
    ratio_add_value(14005451int, 335480064int, -59238493int, 1068277825int);
    assert(ratio_sum(|i: int| ratio_mul(dp87_weight8(i), ratio_pow(dp87_node(i), 0)), 6) == (-4911620690479477int, 358385913100780800int));
    assert(dp87_weight8(6) == (181606767int, 758867731int));
    assert(dp87_node(6) == (59int, 400int));
    assert(ratio_pow(dp87_node(6), 0) == (1int, 1int));
    ratio_mul_value(181606767int, 758867731int, 1int, 1int);
    assert(ratio_mul(dp87_weight8(6), ratio_pow(dp87_node(6), 0)) == (181606767int, 758867731int));
    ratio_add_value(-4911620690479477int, 358385913100780800int, 181606767int, 758867731int);
    assert(ratio_sum(|i: int| ratio_mul(dp87_weight8(i), ratio_pow(dp87_node(i), 0)), 7) == (61358036567658932250616913int, 271967504697152700024364800int));
    assert(dp87_weight8(7) == (561292985int, 797845732int));
    assert(dp87_node(7) == (93int, 200int));
    assert(ratio_pow(dp87_node(7), 0) == (1int, 1int));
    ratio_mul_value(561292985int, 797845732int, 1int, 1int);
    assert(ratio_mul(dp87_weight8(7), ratio_pow(dp87_node(7), 0)) == (561292985int, 797845732int));
    ratio_add_value(61358036567658932250616913int, 271967504697152700024364800int, 561292985int, 797845732int);
    assert(ratio_sum(|i: int| ratio_mul(dp87_weight8(i), ratio_pow(dp87_node(i), 0)), 8) == (201607700133872968325317149724993316int, 216988112865313234266715751691033600int));
    assert(dp87_weight8(8) == (-1041891430int, 1371343529int));
    assert(dp87_node(8) == (5490023248int, 9719169821int));
    assert(ratio_pow(dp87_node(8), 0) == (1int, 1int));
    ratio_mul_value(-1041891430int, 1371343529int, 1int, 1int);
    assert(ratio_mul(dp87_weight8(8), ratio_pow(dp87_node(8), 0)) == (-1041891430int, 1371343529int));
    ratio_add_value(201607700133872968325317149724993316int, 216988112865313234266715751691033600int, -1041891430int, 1371343529int);
    assert(ratio_sum(|i: int| ratio_mul(dp87_weight8(i), ratio_pow(dp87_node(i), 0)), 9) == (50395359768916525772872164215197797782804164int, 297565244447768952369721706163869734681574400int));
    assert(dp87_weight8(9) == (760417239int, 1151165299int));
    assert(dp87_node(9) == (13int, 20int));
    assert(ratio_pow(dp87_node(9), 0) == (1int, 1int));
    ratio_mul_value(760417239int, 1151165299int, 1int, 1int);
    assert(ratio_mul(dp87_weight8(9), ratio_pow(dp87_node(9), 0)) == (760417239int, 1151165299int));
    ratio_add_value(50395359768916525772872164215197797782804164int, 297565244447768952369721706163869734681574400int, 760417239int, 1151165299int);
    assert(ratio_sum(|i: int| ratio_mul(dp87_weight8(i), ratio_pow(dp87_node(i), 0)), 10) == (284287131001929909768275878007064378431008641930586636int, 342546783596724035937607446422921246121765263966745600int));
    assert(dp87_weight8(10) == (118820643int, 751138087int));
    assert(dp87_node(10) == (1201146811int, 1299019798int));
    assert(ratio_pow(dp87_node(10), 0) == (1int, 1int));
    ratio_mul_value(118820643int, 751138087int, 1int, 1int);
    assert(ratio_mul(dp87_weight8(10), ratio_pow(dp87_node(10), 0)) == (118820643int, 751138087int));
    ratio_add_value(284287131001929909768275878007064378431008641930586636int, 342546783596724035937607446422921246121765263966745600int, 118820643int, 751138087int);
    assert(ratio_sum(|i: int| ratio_mul(dp87_weight8(i), ratio_pow(dp87_node(i), 0)), 11) == (254240520824052628375086980960031262103061297739802275362226132int, 257299935738846271821093708663068057763558929439031321599667200int));
    assert(dp87_weight8(11) == (-528747749int, 2220607170int));
    assert(dp87_node(11) == (1int, 1int));
    assert(ratio_pow(dp87_node(11), 0) == (1int, 1int));
    ratio_mul_value(-528747749int, 2220607170int, 1int, 1int);
    assert(ratio_mul(dp87_weight8(11), ratio_pow(dp87_node(11), 0)) == (-528747749int, 2220607170int));
    ratio_add_value(254240520824052628375086980960031262103061297739802275362226132int, 257299935738846271821093708663068057763558929439031321599667200int, -528747749int, 2220607170int);
    assert(ratio_sum(|i: int| ratio_mul(dp87_weight8(i), ratio_pow(dp87_node(i), 0)), 12) == (428521561606665956944618170119839869073923438540772083015354584731433640int, 571362082142221278733689646699100043267733123429837030598796853933824000int));
    assert(dp87_weight8(12) == (1int, 4int));
    assert(dp87_node(12) == (1int, 1int));
    assert(ratio_pow(dp87_node(12), 0) == (1int, 1int));
    ratio_mul_value(1int, 4int, 1int, 1int);
    assert(ratio_mul(dp87_weight8(12), ratio_pow(dp87_node(12), 0)) == (1int, 4int));
    ratio_add_value(428521561606665956944618170119839869073923438540772083015354584731433640int, 571362082142221278733689646699100043267733123429837030598796853933824000int, 1int, 4int);
    assert(ratio_sum(|i: int| ratio_mul(dp87_weight8(i), ratio_pow(dp87_node(i), 0)), 13) == (2285448328568885106512162327178459519563426877592925362660215192859558560int, 2285448328568885114934758586796400173070932493719348122395187415735296000int));
    assert(within_1e14((2285448328568885106512162327178459519563426877592925362660215192859558560int, 2285448328568885114934758586796400173070932493719348122395187415735296000int), (1int, 1int))) by (nonlinear_arith);
}

/// The moment of degree 0 of the order-7 weights, exactly, stage by stage.
#[verifier::spinoff_prover]
proof fn quadrature_condition_7_0()
    ensures
        within_1e14(weight7_moment(0), (1, 1)),
{
    assert(ratio_sum(|i: int| ratio_mul(dp87_weight7(i), ratio_pow(dp87_node(i), 0)), 0) == (0int, 1int));
    assert(dp87_weight7(0) == (13451932int, 455176623int));
    assert(dp87_node(0) == (0int, 1int));
    assert(ratio_pow(dp87_node(0), 0) == (1int, 1int));
    ratio_mul_value(13451932int, 455176623int, 1int, 1int);
    assert(ratio_mul(dp87_weight7(0), ratio_pow(dp87_node(0), 0)) == (13451932int, 455176623int));
    ratio_add_value(0int, 1int, 13451932int, 455176623int);
    assert(ratio_sum(|i: int| ratio_mul(dp87_weight7(i), ratio_pow(dp87_node(i), 0)), 1) == (13451932int, 455176623int));
    assert(dp87_weight7(1) == (0int, 1int));
    assert(dp87_node(1) == (1int, 18int));
    assert(ratio_pow(dp87_node(1), 0) == (1int, 1int));
    ratio_mul_value(0int, 1int, 1int, 1int);
    assert(ratio_mul(dp87_weight7(1), ratio_pow(dp87_node(1), 0)) == (0int, 1int));
    ratio_add_value(13451932int, 455176623int, 0int, 1int);
    assert(ratio_sum(|i: int| ratio_mul(dp87_weight7(i), ratio_pow(dp87_node(i), 0)), 2) == (13451932int, 455176623int));
    assert(dp87_weight7(2) == (0int, 1int));
    assert(dp87_node(2) == (1int, 12int));
    assert(ratio_pow(dp87_node(2), 0) == (1int, 1int));
    ratio_mul_value(0int, 1int, 1int, 1int);
    assert(ratio_mul(dp87_weight7(2), ratio_pow(dp87_node(2), 0)) == (0int, 1int));
    ratio_add_value(13451932int, 455176623int, 0int, 1int);
    assert(ratio_sum(|i: int| ratio_mul(dp87_weight7(i), ratio_pow(dp87_node(i), 0)), 3) == (13451932int, 455176623int));
    assert(dp87_weight7(3) == (0int, 1int));
    assert(dp87_node(3) == (1int, 8int));
    assert(ratio_pow(dp87_node(3), 0) == (1int, 1int));
    ratio_mul_value(0int, 1int, 1int, 1int);
    assert(ratio_mul(dp87_weight7(3), ratio_pow(dp87_node(3), 0)) == (0int, 1int));
    ratio_add_value(13451932int, 455176623int, 0int, 1int);
    assert(ratio_sum(|i: int| ratio_mul(dp87_weight7(i), ratio_pow(dp87_node(i), 0)), 4) == (13451932int, 455176623int));
    assert(dp87_weight7(4) == (0int, 1int));
    assert(dp87_node(4) == (5int, 16int));
    assert(ratio_pow(dp87_node(4), 0) == (1int, 1int));
    ratio_mul_value(0int, 1int, 1int, 1int);
    assert(ratio_mul(dp87_weight7(4), ratio_pow(dp87_node(4), 0)) == (0int, 1int));
    ratio_add_value(13451932int, 455176623int, 0int, 1int);
    assert(ratio_sum(|i: int| ratio_mul(dp87_weight7(i), ratio_pow(dp87_node(i), 0)), 5) == (13451932int, 455176623int));
    assert(dp87_weight7(5) == (-808719846int, 976000145int));
    assert(dp87_node(5) == (3int, 8int));
    assert(ratio_pow(dp87_node(5), 0) == (1int, 1int));
    ratio_mul_value(-808719846int, 976000145int, 1int, 1int);
    assert(ratio_mul(dp87_weight7(5), ratio_pow(dp87_node(5), 0)) == (-808719846int, 976000145int));
    ratio_add_value(13451932int, 455176623int, -808719846int, 976000145int);
    assert(ratio_sum(|i: int| ratio_mul(dp87_weight7(i), ratio_pow(dp87_node(i), 0)), 6) == (-354981280872829918int, 444252450048610335int));
    assert(dp87_weight7(6) == (1757004468int, 5645159321int));
    assert(dp87_node(6) == (59int, 400int));
    assert(ratio_pow(dp87_node(6), 0) == (1int, 1int));
    ratio_mul_value(1757004468int, 5645159321int, 1int, 1int);
    assert(ratio_mul(dp87_weight7(6), ratio_pow(dp87_node(6), 0)) == (1757004468int, 5645159321int));
    ratio_add_value(-354981280872829918int, 444252450048610335int, 1757004468int, 5645159321int);
    assert(ratio_sum(|i: int| ratio_mul(dp87_weight7(i), ratio_pow(dp87_node(i), 0)), 7) == (-1223372346844419651459388898int, 2507875859268999535722182535int));
    assert(dp87_weight7(7) == (656045339int, 265891186int));
    assert(dp87_node(7) == (93int, 200int));
    assert(ratio_pow(dp87_node(7), 0) == (1int, 1int));
    ratio_mul_value(656045339int, 265891186int, 1int, 1int);
    assert(ratio_mul(dp87_weight7(7), ratio_pow(dp87_node(7), 0)) == (656045339int, 265891186int));
    ratio_add_value(-1223372346844419651459388898int, 2507875859268999535722182535int, 656045339int, 265891186int);
    assert(ratio_sum(|i: int| ratio_mul(dp87_weight7(i), ratio_pow(dp87_node(i), 0)), 8) == (1319996344041980993995458306069501337int, 666822086561803379586620480739636510int));
    assert(dp87_weight7(8) == (-3867574721int, 1518517206int));
    assert(dp87_node(8) == (5490023248int, 9719169821int));
    assert(ratio_pow(dp87_node(8), 0) == (1int, 1int));
    ratio_mul_value(-3867574721int, 1518517206int, 1int, 1int);
    assert(ratio_mul(dp87_weight7(8), ratio_pow(dp87_node(8), 0)) == (-3867574721int, 1518517206int));
    ratio_add_value(1319996344041980993995458306069501337int, 666822086561803379586620480739636510int, -3867574721int, 1518517206int);
    assert(ratio_sum(|i: int| ratio_mul(dp87_weight7(i), ratio_pow(dp87_node(i), 0)), 9) == (-574547085106060829354494677507333536730159288int, 1012580811784919814291232367395129646620791060int));
    assert(dp87_weight7(9) == (465885868int, 322736535int));
    assert(dp87_node(9) == (13int, 20int));
    assert(ratio_pow(dp87_node(9), 0) == (1int, 1int));
    ratio_mul_value(465885868int, 322736535int, 1int, 1int);
    assert(ratio_mul(dp87_weight7(9), ratio_pow(dp87_node(9), 0)) == (465885868int, 322736535int));
    ratio_add_value(-574547085106060829354494677507333536730159288int, 1012580811784919814291232367395129646620791060int, 465885868int, 322736535int);
    assert(ratio_sum(|i: int| ratio_mul(dp87_weight7(i), ratio_pow(dp87_node(i), 0)), 10) == (286319754977081817426373697378915611654873671227553000int, 326796822602952186117195815132951118026168565663377100int));
    assert(dp87_weight7(10) == (53011238int, 667516719int));
    assert(dp87_node(10) == (1201146811int, 1299019798int));
    assert(ratio_pow(dp87_node(10), 0) == (1int, 1int));
    ratio_mul_value(53011238int, 667516719int, 1int, 1int);
    assert(ratio_mul(dp87_weight7(10), ratio_pow(dp87_node(10), 0)) == (53011238int, 667516719int));
    ratio_add_value(286319754977081817426373697378915611654873671227553000int, 326796822602952186117195815132951118026168565663377100int, 53011238int, 667516719int);
    assert(ratio_sum(|i: int| ratio_mul(dp87_weight7(i), ratio_pow(dp87_node(i), 0)), 11) == (208447127567834452803888957790889522229790745439800792290456800int, 218142342803547682990827899998078079092209797092553540251734900int));
    assert(dp87_weight7(11) == (2int, 45int));
    assert(dp87_node(11) == (1int, 1int));
    assert(ratio_pow(dp87_node(11), 0) == (1int, 1int));
    ratio_mul_value(2int, 45int, 1int, 1int);
    assert(ratio_mul(dp87_weight7(11), ratio_pow(dp87_node(11), 0)) == (2int, 45int));
    ratio_add_value(208447127567834452803888957790889522229790745439800792290456800int, 218142342803547682990827899998078079092209797092553540251734900int, 2int, 45int);
    assert(ratio_sum(|i: int| ratio_mul(dp87_weight7(i), ratio_pow(dp87_node(i), 0)), 12) == (9816405426159645742156658900586184658525003138976142733574025800int, 9816405426159645734587255499913513559149440869164909311328070500int));
    assert(dp87_weight7(12) == (0int, 1int));
    assert(dp87_node(12) == (1int, 1int));
    assert(ratio_pow(dp87_node(12), 0) == (1int, 1int));
    ratio_mul_value(0int, 1int, 1int, 1int);
    assert(ratio_mul(dp87_weight7(12), ratio_pow(dp87_node(12), 0)) == (0int, 1int));
    ratio_add_value(9816405426159645742156658900586184658525003138976142733574025800int, 9816405426159645734587255499913513559149440869164909311328070500int, 0int, 1int);
    assert(ratio_sum(|i: int| ratio_mul(dp87_weight7(i), ratio_pow(dp87_node(i), 0)), 13) == (9816405426159645742156658900586184658525003138976142733574025800int, 9816405426159645734587255499913513559149440869164909311328070500int));
    assert(within_1e14((9816405426159645742156658900586184658525003138976142733574025800int, 9816405426159645734587255499913513559149440869164909311328070500int), (1int, 1int))) by (nonlinear_arith);
}

/// The moment of degree 1 of the order-8 weights, exactly, stage by stage.
#[verifier::spinoff_prover]
proof fn quadrature_condition_8_1()
    ensures
        within_1e14(weight8_moment(1), (1, 2)),
{
    assert(ratio_sum(|i: int| ratio_mul(dp87_weight8(i), ratio_pow(dp87_node(i), 1)), 0) == (0int, 1int));
    assert(dp87_weight8(0) == (14005451int, 335480064int));
    assert(dp87_node(0) == (0int, 1int));
    assert(ratio_pow(dp87_node(0), 0) == (1int, 1int));
    ratio_mul_value(1int, 1int, 0int, 1int);
    assert(ratio_pow(dp87_node(0), 1) == (0int, 1int));
    ratio_mul_value(14005451int, 335480064int, 0int, 1int);
    assert(ratio_mul(dp87_weight8(0), ratio_pow(dp87_node(0), 1)) == (0int, 335480064int));
    ratio_add_value(0int, 1int, 0int, 335480064int);
    assert(ratio_sum(|i: int| ratio_mul(dp87_weight8(i), ratio_pow(dp87_node(i), 1)), 1) == (0int, 1int));
    assert(dp87_weight8(1) == (0int, 1int));
    assert(dp87_node(1) == (1int, 18int));
    assert(ratio_pow(dp87_node(1), 0) == (1int, 1int));
    ratio_mul_value(1int, 1int, 1int, 18int);
    assert(ratio_pow(dp87_node(1), 1) == (1int, 18int));
    ratio_mul_value(0int, 1int, 1int, 18int);
    assert(ratio_mul(dp87_weight8(1), ratio_pow(dp87_node(1), 1)) == (0int, 18int));
    ratio_add_value(0int, 1int, 0int, 18int);
    assert(ratio_sum(|i: int| ratio_mul(dp87_weight8(i), ratio_pow(dp87_node(i), 1)), 2) == (0int, 1int));
    assert(dp87_weight8(2) == (0int, 1int));
    assert(dp87_node(2) == (1int, 12int));
    assert(ratio_pow(dp87_node(2), 0) == (1int, 1int));
    ratio_mul_value(1int, 1int, 1int, 12int);
    assert(ratio_pow(dp87_node(2), 1) == (1int, 12int));
    ratio_mul_value(0int, 1int, 1int, 12int);
    assert(ratio_mul(dp87_weight8(2), ratio_pow(dp87_node(2), 1)) == (0int, 12int));
    ratio_add_value(0int, 1int, 0int, 12int);
    assert(ratio_sum(|i: int| ratio_mul(dp87_weight8(i), ratio_pow(dp87_node(i), 1)), 3) == (0int, 1int));
    assert(dp87_weight8(3) == (0int, 1int));
    assert(dp87_node(3) == (1int, 8int));
    assert(ratio_pow(dp87_node(3), 0) == (1int, 1int));
    ratio_mul_value(1int, 1int, 1int, 8int);
    assert(ratio_pow(dp87_node(3), 1) == (1int, 8int));
    ratio_mul_value(0int, 1int, 1int, 8int);
    assert(ratio_mul(dp87_weight8(3), ratio_pow(dp87_node(3), 1)) == (0int, 8int));
    ratio_add_value(0int, 1int, 0int, 8int);
    assert(ratio_sum(|i: int| ratio_mul(dp87_weight8(i), ratio_pow(dp87_node(i), 1)), 4) == (0int, 1int));
    assert(dp87_weight8(4) == (0int, 1int));
    assert(dp87_node(4) == (5int, 16int));
    assert(ratio_pow(dp87_node(4), 0) == (1int, 1int));
    ratio_mul_value(1int, 1int, 5int, 16int);
    assert(ratio_pow(dp87_node(4), 1) == (5int, 16int));
    ratio_mul_value(0int, 1int, 5int, 16int);
    assert(ratio_mul(dp87_weight8(4), ratio_pow(dp87_node(4), 1)) == (0int, 16int));
    ratio_add_value(0int, 1int, 0int, 16int);
    assert(ratio_sum(|i: int| ratio_mul(dp87_weight8(i), ratio_pow(dp87_node(i), 1)), 5) == (0int, 1int));
    assert(dp87_weight8(5) == (-59238493int, 1068277825int));
    assert(dp87_node(5) == (3int, 8int));
    assert(ratio_pow(dp87_node(5), 0) == (1int, 1int));
    ratio_mul_value(1int, 1int, 3int, 8int);
    assert(ratio_pow(dp87_node(5), 1) == (3int, 8int));
    ratio_mul_value(-59238493int, 1068277825int, 3int, 8int);
    assert(ratio_mul(dp87_weight8(5), ratio_pow(dp87_node(5), 1)) == (-177715479int, 8546222600int));
    ratio_add_value(0int, 1int, -177715479int, 8546222600int);
    assert(ratio_sum(|i: int| ratio_mul(dp87_weight8(i), ratio_pow(dp87_node(i), 1)), 6) == (-177715479int, 8546222600int));
    assert(dp87_weight8(6) == (181606767int, 758867731int));
    assert(dp87_node(6) == (59int, 400int));
    assert(ratio_pow(dp87_node(6), 0) == (1int, 1int));
    ratio_mul_value(1int, 1int, 59int, 400int);
    assert(ratio_pow(dp87_node(6), 1) == (59int, 400int));
    ratio_mul_value(181606767int, 758867731int, 59int, 400int);
    assert(ratio_mul(dp87_weight8(6), ratio_pow(dp87_node(6), 1)) == (10714799253int, 303547092400int));
    ratio_add_value(-177715479int, 8546222600int, 10714799253int, 303547092400int);
    assert(ratio_sum(|i: int| ratio_mul(dp87_weight8(i), ratio_pow(dp87_node(i), 1)), 7) == (37626042605528458200int, 2594181021233168240000int));
    assert(dp87_weight8(7) == (561292985int, 797845732int));
    assert(dp87_node(7) == (93int, 200int));
    assert(ratio_pow(dp87_node(7), 0) == (1int, 1int));
    ratio_mul_value(1int, 1int, 93int, 200int);
    assert(ratio_pow(dp87_node(7), 1) == (93int, 200int));
    ratio_mul_value(561292985int, 797845732int, 93int, 200int);
    assert(ratio_mul(dp87_weight8(7), ratio_pow(dp87_node(7), 1)) == (52200247605int, 159569146400int));
    ratio_add_value(37626042605528458200int, 2594181021233168240000int, 52200247605int, 159569146400int);
    assert(ratio_sum(|i: int| ratio_mul(dp87_weight8(i), ratio_pow(dp87_node(i), 1)), 8) == (141420847141537352562504145680000int, 413951251165256931424390336000000int));
    assert(dp87_weight8(8) == (-1041891430int, 1371343529int));
    assert(dp87_node(8) == (5490023248int, 9719169821int));
    assert(ratio_pow(dp87_node(8), 0) == (1int, 1int));
    ratio_mul_value(1int, 1int, 5490023248int, 9719169821int);
    assert(ratio_pow(dp87_node(8), 1) == (5490023248int, 9719169821int));
    ratio_mul_value(-1041891430int, 1371343529int, 5490023248int, 9719169821int);
    assert(ratio_mul(dp87_weight8(8), ratio_pow(dp87_node(8), 1)) == (-5720008172591964640int, 13328320641280438309int));
    ratio_add_value(141420847141537352562504145680000int, 413951251165256931424390336000000int, -5720008172591964640int, 13328320641280438309int);
    assert(ratio_sum(|i: int| ratio_mul(dp87_weight8(i), ratio_pow(dp87_node(i), 1)), 9) == (-482902143656020705739708755628189244169730184880000int, 5517275005389757050057242179548910363183781824000000int));
    assert(dp87_weight8(9) == (760417239int, 1151165299int));
    assert(dp87_node(9) == (13int, 20int));
    assert(ratio_pow(dp87_node(9), 0) == (1int, 1int));
    ratio_mul_value(1int, 1int, 13int, 20int);
    assert(ratio_pow(dp87_node(9), 1) == (13int, 20int));
    ratio_mul_value(760417239int, 1151165299int, 13int, 20int);
    assert(ratio_mul(dp87_weight8(9), ratio_pow(dp87_node(9), 1)) == (9885424107int, 23023305980int));
    ratio_add_value(-482902143656020705739708755628189244169730184880000int, 5517275005389757050057242179548910363183781824000000int, 9885424107int, 23023305980int);
    assert(ratio_sum(|i: int| ratio_mul(dp87_weight8(i), ratio_pow(dp87_node(i), 1)), 10) == (43422599531437978696048210654737172807934453013863821585600000int, 127025910624894525721330063214716661667173135907514507520000000int));
    assert(dp87_weight8(10) == (118820643int, 751138087int));
    assert(dp87_node(10) == (1201146811int, 1299019798int));
    assert(ratio_pow(dp87_node(10), 0) == (1int, 1int));
    ratio_mul_value(1int, 1int, 1201146811int, 1299019798int);
    assert(ratio_pow(dp87_node(10), 1) == (1201146811int, 1299019798int));
    ratio_mul_value(118820643int, 751138087int, 1201146811int, 1299019798int);
    assert(ratio_mul(dp87_weight8(10), ratio_pow(dp87_node(10), 1)) == (142721036420419473int, 975743246044846426int));
    ratio_add_value(43422599531437978696048210654737172807934453013863821585600000int, 127025910624894525721330063214716661667173135907514507520000000int, 142721036420419473int, 975743246044846426int);
    assert(ratio_sum(|i: int| ratio_mul(dp87_weight8(i), ratio_pow(dp87_node(i), 1)), 11) == (60498577835143241281115327526223319279425281799283714832113748417828750025600000int, 123944674364937131035883033424079555726945400152821278028320502125422123520000000int));
    assert(dp87_weight8(11) == (-528747749int, 2220607170int));
    assert(dp87_node(11) == (1int, 1int));
    assert(ratio_pow(dp87_node(11), 0) == (1int, 1int));
    ratio_mul_value(1int, 1int, 1int, 1int);
    assert(ratio_pow(dp87_node(11), 1) == (1int, 1int));
    ratio_mul_value(-528747749int, 2220607170int, 1int, 1int);
    assert(ratio_mul(dp87_weight8(11), ratio_pow(dp87_node(11), 1)) == (-528747749int, 2220607170int));
    ratio_add_value(60498577835143241281115327526223319279425281799283714832113748417828750025600000int, 123944674364937131035883033424079555726945400152821278028320502125422123520000000int, -528747749int, 2220607170int);
    assert(ratio_sum(|i: int| ratio_mul(dp87_weight8(i), ratio_pow(dp87_node(i), 1)), 12) == (68808108144523647004143489751356038325548575266051411263649512242840014652985087072000000int, 275232432578094589777511391302860712097669517777874025718251970077712606765137638400000000int));
    assert(dp87_weight8(12) == (1int, 4int));
    assert(dp87_node(12) == (1int, 1int));
    assert(ratio_pow(dp87_node(12), 0) == (1int, 1int));
    ratio_mul_value(1int, 1int, 1int, 1int);
    assert(ratio_pow(dp87_node(12), 1) == (1int, 1int));
    ratio_mul_value(1int, 4int, 1int, 1int);
    assert(ratio_mul(dp87_weight8(12), ratio_pow(dp87_node(12), 1)) == (1int, 4int));
    ratio_add_value(68808108144523647004143489751356038325548575266051411263649512242840014652985087072000000int, 275232432578094589777511391302860712097669517777874025718251970077712606765137638400000000int, 1int, 4int);
    assert(ratio_sum(|i: int| ratio_mul(dp87_weight8(i), ratio_pow(dp87_node(i), 1)), 13) == (550464865156189177794085350308284865399863818842079670772850019049072665377077986688000000int, 1100929730312378359110045565211442848390678071111496102873007880310850427060550553600000000int));
    assert(within_1e14((550464865156189177794085350308284865399863818842079670772850019049072665377077986688000000int, 1100929730312378359110045565211442848390678071111496102873007880310850427060550553600000000int), (1int, 2int))) by (nonlinear_arith);
}

/// The moment of degree 1 of the order-7 weights, exactly, stage by stage.
#[verifier::spinoff_prover]
proof fn quadrature_condition_7_1()
    ensures
        within_1e14(weight7_moment(1), (1, 2)),
{
    assert(ratio_sum(|i: int| ratio_mul(dp87_weight7(i), ratio_pow(dp87_node(i), 1)), 0) == (0int, 1int));
    assert(dp87_weight7(0) == (13451932int, 455176623int));
    assert(dp87_node(0) == (0int, 1int));
    assert(ratio_pow(dp87_node(0), 0) == (1int, 1int));
    ratio_mul_value(1int, 1int, 0int, 1int);
    assert(ratio_pow(dp87_node(0), 1) == (0int, 1int));
    ratio_mul_value(13451932int, 455176623int, 0int, 1int);
    assert(ratio_mul(dp87_weight7(0), ratio_pow(dp87_node(0), 1)) == (0int, 455176623int));
    ratio_add_value(0int, 1int, 0int, 455176623int);
    assert(ratio_sum(|i: int| ratio_mul(dp87_weight7(i), ratio_pow(dp87_node(i), 1)), 1) == (0int, 1int));
    assert(dp87_weight7(1) == (0int, 1int));
    assert(dp87_node(1) == (1int, 18int));
    assert(ratio_pow(dp87_node(1), 0) == (1int, 1int));
    ratio_mul_value(1int, 1int, 1int, 18int);
    assert(ratio_pow(dp87_node(1), 1) == (1int, 18int));
    ratio_mul_value(0int, 1int, 1int, 18int);
    assert(ratio_mul(dp87_weight7(1), ratio_pow(dp87_node(1), 1)) == (0int, 18int));
    ratio_add_value(0int, 1int, 0int, 18int);
    assert(ratio_sum(|i: int| ratio_mul(dp87_weight7(i), ratio_pow(dp87_node(i), 1)), 2) == (0int, 1int));
    assert(dp87_weight7(2) == (0int, 1int));
    assert(dp87_node(2) == (1int, 12int));
    assert(ratio_pow(dp87_node(2), 0) == (1int, 1int));
    ratio_mul_value(1int, 1int, 1int, 12int);
    assert(ratio_pow(dp87_node(2), 1) == (1int, 12int));
    ratio_mul_value(0int, 1int, 1int, 12int);
    assert(ratio_mul(dp87_weight7(2), ratio_pow(dp87_node(2), 1)) == (0int, 12int));
    ratio_add_value(0int, 1int, 0int, 12int);
    assert(ratio_sum(|i: int| ratio_mul(dp87_weight7(i), ratio_pow(dp87_node(i), 1)), 3) == (0int, 1int));
    assert(dp87_weight7(3) == (0int, 1int));
    assert(dp87_node(3) == (1int, 8int));
    assert(ratio_pow(dp87_node(3), 0) == (1int, 1int));
    ratio_mul_value(1int, 1int, 1int, 8int);
    assert(ratio_pow(dp87_node(3), 1) == (1int, 8int));
    ratio_mul_value(0int, 1int, 1int, 8int);
    assert(ratio_mul(dp87_weight7(3), ratio_pow(dp87_node(3), 1)) == (0int, 8int));
    ratio_add_value(0int, 1int, 0int, 8int);
    assert(ratio_sum(|i: int| ratio_mul(dp87_weight7(i), ratio_pow(dp87_node(i), 1)), 4) == (0int, 1int));
    assert(dp87_weight7(4) == (0int, 1int));
    assert(dp87_node(4) == (5int, 16int));
    assert(ratio_pow(dp87_node(4), 0) == (1int, 1int));
    ratio_mul_value(1int, 1int, 5int, 16int);
    assert(ratio_pow(dp87_node(4), 1) == (5int, 16int));
    ratio_mul_value(0int, 1int, 5int, 16int);
    assert(ratio_mul(dp87_weight7(4), ratio_pow(dp87_node(4), 1)) == (0int, 16int));
    ratio_add_value(0int, 1int, 0int, 16int);
    assert(ratio_sum(|i: int| ratio_mul(dp87_weight7(i), ratio_pow(dp87_node(i), 1)), 5) == (0int, 1int));
    assert(dp87_weight7(5) == (-808719846int, 976000145int));
    assert(dp87_node(5) == (3int, 8int));
    assert(ratio_pow(dp87_node(5), 0) == (1int, 1int));
    ratio_mul_value(1int, 1int, 3int, 8int);
    assert(ratio_pow(dp87_node(5), 1) == (3int, 8int));
    ratio_mul_value(-808719846int, 976000145int, 3int, 8int);
    assert(ratio_mul(dp87_weight7(5), ratio_pow(dp87_node(5), 1)) == (-2426159538int, 7808001160int));
    ratio_add_value(0int, 1int, -2426159538int, 7808001160int);
    assert(ratio_sum(|i: int| ratio_mul(dp87_weight7(i), ratio_pow(dp87_node(i), 1)), 6) == (-2426159538int, 7808001160int));
    assert(dp87_weight7(6) == (1757004468int, 5645159321int));
    assert(dp87_node(6) == (59int, 400int));
    assert(ratio_pow(dp87_node(6), 0) == (1int, 1int));
    ratio_mul_value(1int, 1int, 59int, 400int);
    assert(ratio_pow(dp87_node(6), 1) == (59int, 400int));
    ratio_mul_value(1757004468int, 5645159321int, 59int, 400int);
    assert(ratio_mul(dp87_weight7(6), ratio_pow(dp87_node(6), 1)) == (103663263612int, 2258063728400int));
    ratio_add_value(-2426159538int, 7808001160int, 103663263612int, 2258063728400int);
    assert(ratio_sum(|i: int| ratio_mul(dp87_weight7(i), ratio_pow(dp87_node(i), 1)), 7) == (-4669019969537619689280int, 17630964210701124944000int));
    assert(dp87_weight7(7) == (656045339int, 265891186int));
    assert(dp87_node(7) == (93int, 200int));
    assert(ratio_pow(dp87_node(7), 0) == (1int, 1int));
    ratio_mul_value(1int, 1int, 93int, 200int);
    assert(ratio_pow(dp87_node(7), 1) == (93int, 200int));
    ratio_mul_value(656045339int, 265891186int, 93int, 200int);
    assert(ratio_mul(dp87_weight7(7), ratio_pow(dp87_node(7), 1)) == (61012216527int, 53178237200int));
    ratio_add_value(-4669019969537619689280int, 17630964210701124944000int, 61012216527int, 53178237200int);
    assert(ratio_sum(|i: int| ratio_mul(dp87_weight7(i), ratio_pow(dp87_node(i), 1)), 8) == (827413954571476371405886612272000int, 937583596861375200578868716800000int));
    assert(dp87_weight7(8) == (-3867574721int, 1518517206int));
    assert(dp87_node(8) == (5490023248int, 9719169821int));
    assert(ratio_pow(dp87_node(8), 0) == (1int, 1int));
    ratio_mul_value(1int, 1int, 5490023248int, 9719169821int);
    assert(ratio_pow(dp87_node(8), 1) == (5490023248int, 9719169821int));
    ratio_mul_value(-3867574721int, 1518517206int, 5490023248int, 9719169821int);
    assert(ratio_mul(dp87_weight7(8), ratio_pow(dp87_node(8), 1)) == (-21233075131667113808int, 14758726601224440126int));
    ratio_add_value(827413954571476371405886612272000int, 937583596861375200578868716800000int, -21233075131667113808int, 14758726601224440126int);
    assert(ratio_sum(|i: int| ratio_mul(dp87_weight7(i), ratio_pow(dp87_node(i), 1)), 9) == (-7696206612817911618762648067641995378924480748128000int, 13837539971869669662840160583674092164536050316800000int));
    assert(dp87_weight7(9) == (465885868int, 322736535int));
    assert(dp87_node(9) == (13int, 20int));
    assert(ratio_pow(dp87_node(9), 0) == (1int, 1int));
    ratio_mul_value(1int, 1int, 13int, 20int);
    assert(ratio_pow(dp87_node(9), 1) == (13int, 20int));
    ratio_mul_value(465885868int, 322736535int, 13int, 20int);
    assert(ratio_mul(dp87_weight7(9), ratio_pow(dp87_node(9), 1)) == (6056516284int, 6454730700int));
    ratio_add_value(-7696206612817911618762648067641995378924480748128000int, 13837539971869669662840160583674092164536050316800000int, 6056516284int, 6454730700int);
    assert(ratio_sum(|i: int| ratio_mul(dp87_weight7(i), ratio_pow(dp87_node(i), 1)), 10) == (34130345072830768603178261768692619561827417182241789641600000int, 89317594068904293171593033712371081489060295236593685760000000int));
    assert(dp87_weight7(10) == (53011238int, 667516719int));
    assert(dp87_node(10) == (1201146811int, 1299019798int));
    assert(ratio_pow(dp87_node(10), 0) == (1int, 1int));
    ratio_mul_value(1int, 1int, 1201146811int, 1299019798int);
    assert(ratio_pow(dp87_node(10), 1) == (1201146811int, 1299019798int));
    ratio_mul_value(53011238int, 667516719int, 1201146811int, 1299019798int);
    assert(ratio_mul(dp87_weight7(10), ratio_pow(dp87_node(10), 1)) == (63674279470862018int, 867117433477002762int));
    ratio_add_value(34130345072830768603178261768692619561827417182241789641600000int, 89317594068904293171593033712371081489060295236593685760000000int, 63674279470862018int, 867117433477002762int);
    assert(ratio_sum(|i: int| ratio_mul(dp87_weight7(i), ratio_pow(dp87_node(i), 1)), 11) == (35282250669645902756253214003267535005337999117591114478104630386677653779200000int, 77448842933369054883693346069861289544987900226986078072610485659280069120000000int));
    assert(dp87_weight7(11) == (2int, 45int));
    assert(dp87_node(11) == (1int, 1int));
    assert(ratio_pow(dp87_node(11), 0) == (1int, 1int));
    ratio_mul_value(1int, 1int, 1int, 1int);
    assert(ratio_pow(dp87_node(11), 1) == (1int, 1int));
    ratio_mul_value(2int, 45int, 1int, 1int);
    assert(ratio_mul(dp87_weight7(11), ratio_pow(dp87_node(11), 1)) == (2int, 45int));
    ratio_add_value(35282250669645902756253214003267535005337999117591114478104630386677653779200000int, 77448842933369054883693346069861289544987900226986078072610485659280069120000000int, 2int, 45int);
    assert(ratio_sum(|i: int| ratio_mul(dp87_weight7(i), ratio_pow(dp87_node(i), 1)), 12) == (1742598966000803733798781322286761654330185760745572307659929338719054558304000000int, 3485197932001607469766200573143758029524455510214373513267471854667603110400000000int));
    assert(dp87_weight7(12) == (0int, 1int));
    assert(dp87_node(12) == (1int, 1int));
    assert(ratio_pow(dp87_node(12), 0) == (1int, 1int));
    ratio_mul_value(1int, 1int, 1int, 1int);
    assert(ratio_pow(dp87_node(12), 1) == (1int, 1int));
    ratio_mul_value(0int, 1int, 1int, 1int);
    assert(ratio_mul(dp87_weight7(12), ratio_pow(dp87_node(12), 1)) == (0int, 1int));
    ratio_add_value(1742598966000803733798781322286761654330185760745572307659929338719054558304000000int, 3485197932001607469766200573143758029524455510214373513267471854667603110400000000int, 0int, 1int);
    assert(ratio_sum(|i: int| ratio_mul(dp87_weight7(i), ratio_pow(dp87_node(i), 1)), 13) == (1742598966000803733798781322286761654330185760745572307659929338719054558304000000int, 3485197932001607469766200573143758029524455510214373513267471854667603110400000000int));
    assert(within_1e14((1742598966000803733798781322286761654330185760745572307659929338719054558304000000int, 3485197932001607469766200573143758029524455510214373513267471854667603110400000000int), (1int, 2int))) by (nonlinear_arith);
}

/// The moment of degree 2 of the order-8 weights, exactly, stage by stage.
#[verifier::spinoff_prover]
proof fn quadrature_condition_8_2()
    ensures
        within_1e14(weight8_moment(2), (1, 3)),
{
    assert(ratio_sum(|i: int| ratio_mul(dp87_weight8(i), ratio_pow(dp87_node(i), 2)), 0) == (0int, 1int));
    assert(dp87_weight8(0) == (14005451int, 335480064int));
    assert(dp87_node(0) == (0int, 1int));
    assert(ratio_pow(dp87_node(0), 0) == (1int, 1int));
    ratio_mul_value(1int, 1int, 0int, 1int);
    assert(ratio_pow(dp87_node(0), 1) == (0int, 1int));
    ratio_mul_value(0int, 1int, 0int, 1int);
    assert(ratio_pow(dp87_node(0), 2) == (0int, 1int));
    ratio_mul_value(14005451int, 335480064int, 0int, 1int);
    assert(ratio_mul(dp87_weight8(0), ratio_pow(dp87_node(0), 2)) == (0int, 335480064int));
    ratio_add_value(0int, 1int, 0int, 335480064int);
    assert(ratio_sum(|i: int| ratio_mul(dp87_weight8(i), ratio_pow(dp87_node(i), 2)), 1) == (0int, 1int));
    assert(dp87_weight8(1) == (0int, 1int));
    assert(dp87_node(1) == (1int, 18int));
    assert(ratio_pow(dp87_node(1), 0) == (1int, 1int));
    ratio_mul_value(1int, 1int, 1int, 18int);
    assert(ratio_pow(dp87_node(1), 1) == (1int, 18int));
    ratio_mul_value(1int, 18int, 1int, 18int);
    assert(ratio_pow(dp87_node(1), 2) == (1int, 324int));
    ratio_mul_value(0int, 1int, 1int, 324int);
    assert(ratio_mul(dp87_weight8(1), ratio_pow(dp87_node(1), 2)) == (0int, 324int));
    ratio_add_value(0int, 1int, 0int, 324int);
    assert(ratio_sum(|i: int| ratio_mul(dp87_weight8(i), ratio_pow(dp87_node(i), 2)), 2) == (0int, 1int));
    assert(dp87_weight8(2) == (0int, 1int));
    assert(dp87_node(2) == (1int, 12int));
    assert(ratio_pow(dp87_node(2), 0) == (1int, 1int));
    ratio_mul_value(1int, 1int, 1int, 12int);
    assert(ratio_pow(dp87_node(2), 1) == (1int, 12int));
    ratio_mul_value(1int, 12int, 1int, 12int);
    assert(ratio_pow(dp87_node(2), 2) == (1int, 144int));
    ratio_mul_value(0int, 1int, 1int, 144int);
    assert(ratio_mul(dp87_weight8(2), ratio_pow(dp87_node(2), 2)) == (0int, 144int));
    ratio_add_value(0int, 1int, 0int, 144int);
    assert(ratio_sum(|i: int| ratio_mul(dp87_weight8(i), ratio_pow(dp87_node(i), 2)), 3) == (0int, 1int));
    assert(dp87_weight8(3) == (0int, 1int));
    assert(dp87_node(3) == (1int, 8int));
    assert(ratio_pow(dp87_node(3), 0) == (1int, 1int));
    ratio_mul_value(1int, 1int, 1int, 8int);
    assert(ratio_pow(dp87_node(3), 1) == (1int, 8int));
    ratio_mul_value(1int, 8int, 1int, 8int);
    assert(ratio_pow(dp87_node(3), 2) == (1int, 64int));
    ratio_mul_value(0int, 1int, 1int, 64int);
    assert(ratio_mul(dp87_weight8(3), ratio_pow(dp87_node(3), 2)) == (0int, 64int));
    ratio_add_value(0int, 1int, 0int, 64int);
    assert(ratio_sum(|i: int| ratio_mul(dp87_weight8(i), ratio_pow(dp87_node(i), 2)), 4) == (0int, 1int));
    assert(dp87_weight8(4) == (0int, 1int));
    assert(dp87_node(4) == (5int, 16int));
    assert(ratio_pow(dp87_node(4), 0) == (1int, 1int));
    ratio_mul_value(1int, 1int, 5int, 16int);
    assert(ratio_pow(dp87_node(4), 1) == (5int, 16int));
    ratio_mul_value(5int, 16int, 5int, 16int);
    assert(ratio_pow(dp87_node(4), 2) == (25int, 256int));
    ratio_mul_value(0int, 1int, 25int, 256int);
    assert(ratio_mul(dp87_weight8(4), ratio_pow(dp87_node(4), 2)) == (0int, 256int));
    ratio_add_value(0int, 1int, 0int, 256int);
    assert(ratio_sum(|i: int| ratio_mul(dp87_weight8(i), ratio_pow(dp87_node(i), 2)), 5) == (0int, 1int));
    assert(dp87_weight8(5) == (-59238493int, 1068277825int));
    assert(dp87_node(5) == (3int, 8int));
    assert(ratio_pow(dp87_node(5), 0) == (1int, 1int));
    ratio_mul_value(1int, 1int, 3int, 8int);
    assert(ratio_pow(dp87_node(5), 1) == (3int, 8int));
    ratio_mul_value(3int, 8int, 3int, 8int);
    assert(ratio_pow(dp87_node(5), 2) == (9int, 64int));
    ratio_mul_value(-59238493int, 1068277825int, 9int, 64int);
    assert(ratio_mul(dp87_weight8(5), ratio_pow(dp87_node(5), 2)) == (-533146437int, 68369780800int));
    ratio_add_value(0int, 1int, -533146437int, 68369780800int);
    assert(ratio_sum(|i: int| ratio_mul(dp87_weight8(i), ratio_pow(dp87_node(i), 2)), 6) == (-533146437int, 68369780800int));
    assert(dp87_weight8(6) == (181606767int, 758867731int));
    assert(dp87_node(6) == (59int, 400int));
    assert(ratio_pow(dp87_node(6), 0) == (1int, 1int));
    ratio_mul_value(1int, 1int, 59int, 400int);
    assert(ratio_pow(dp87_node(6), 1) == (59int, 400int));
    ratio_mul_value(59int, 400int, 59int, 400int);
    assert(ratio_pow(dp87_node(6), 2) == (3481int, 160000int));
    ratio_mul_value(181606767int, 758867731int, 3481int, 160000int);
    assert(ratio_mul(dp87_weight8(6), ratio_pow(dp87_node(6), 2)) == (632173155927int, 121418836960000int));
    ratio_add_value(-533146437int, 68369780800int, 632173155927int, 121418836960000int);
    assert(ratio_sum(|i: int| ratio_mul(dp87_weight8(i), ratio_pow(dp87_node(i), 2)), 7) == (-21512480211534700718400int, 8301379267946138368000000int));
    assert(dp87_weight8(7) == (561292985int, 797845732int));
    assert(dp87_node(7) == (93int, 200int));
    assert(ratio_pow(dp87_node(7), 0) == (1int, 1int));
    ratio_mul_value(1int, 1int, 93int, 200int);
    assert(ratio_pow(dp87_node(7), 1) == (93int, 200int));
    ratio_mul_value(93int, 200int, 93int, 200int);
    assert(ratio_pow(dp87_node(7), 2) == (8649int, 40000int));
    ratio_mul_value(561292985int, 797845732int, 8649int, 40000int);
    assert(ratio_mul(dp87_weight8(7), ratio_pow(dp87_node(7), 2)) == (4854623027265int, 31913829280000int));
    ratio_add_value(-21512480211534700718400int, 8301379267946138368000000int, 4854623027265int, 31913829280000int);
    assert(ratio_sum(|i: int| ratio_mul(dp87_weight8(i), ratio_pow(dp87_node(i), 2)), 8) == (39613521331371295097503815648768000000int, 264928800745764436111609815040000000000int));
    assert(dp87_weight8(8) == (-1041891430int, 1371343529int));
    assert(dp87_node(8) == (5490023248int, 9719169821int));
    assert(ratio_pow(dp87_node(8), 0) == (1int, 1int));
    ratio_mul_value(1int, 1int, 5490023248int, 9719169821int);
    assert(ratio_pow(dp87_node(8), 1) == (5490023248int, 9719169821int));
    ratio_mul_value(5490023248int, 9719169821int, 5490023248int, 9719169821int);
    assert(ratio_pow(dp87_node(8), 2) == (30140355263580469504int, 94462262009437172041int));
    ratio_mul_value(-1041891430int, 1371343529int, 30140355263580469504int, 94462262009437172041int);
    assert(ratio_mul(dp87_weight8(8), ratio_pow(dp87_node(8), 2)) == (-31402977846279882291593950720int, 129540211741344202810485072689int));
    ratio_add_value(39613521331371295097503815648768000000int, 264928800745764436111609815040000000000int, -31402977846279882291593950720int, 129540211741344202810485072689int);
    assert(ratio_sum(|i: int| ratio_mul(dp87_weight8(i), ratio_pow(dp87_node(i), 2)), 9) == (-3188009319574644867214019218038498237062891494959486655502848000000int, 34318932944986713000600534088934421116985575539500245442560000000000int));
    assert(dp87_weight8(9) == (760417239int, 1151165299int));
    assert(dp87_node(9) == (13int, 20int));
    assert(ratio_pow(dp87_node(9), 0) == (1int, 1int));
    ratio_mul_value(1int, 1int, 13int, 20int);
    assert(ratio_pow(dp87_node(9), 1) == (13int, 20int));
    ratio_mul_value(13int, 20int, 13int, 20int);
    assert(ratio_pow(dp87_node(9), 2) == (169int, 400int));
    ratio_mul_value(760417239int, 1151165299int, 169int, 400int);
    assert(ratio_mul(dp87_weight8(9), ratio_pow(dp87_node(9), 2)) == (128510513391int, 460466119600int));
    ratio_add_value(-3188009319574644867214019218038498237062891494959486655502848000000int, 34318932944986713000600534088934421116985575539500245442560000000000int, 128510513391int, 460466119600int);
    assert(ratio_sum(|i: int| ratio_mul(dp87_weight8(i), ratio_pow(dp87_node(i), 2)), 10) == (2942373411158373002826652035027745303243417435082950561926515196012339200000000int, 15802705881990632008945400401619154190610645617846354542183187890176000000000000int));
    assert(dp87_weight8(10) == (118820643int, 751138087int));
    assert(dp87_node(10) == (1201146811int, 1299019798int));
    assert(ratio_pow(dp87_node(10), 0) == (1int, 1int));
    ratio_mul_value(1int, 1int, 1201146811int, 1299019798int);
    assert(ratio_pow(dp87_node(10), 1) == (1201146811int, 1299019798int));
    ratio_mul_value(1201146811int, 1299019798int, 1201146811int, 1299019798int);
    assert(ratio_pow(dp87_node(10), 2) == (1442753661575469721int, 1687452435595960804int));
    ratio_mul_value(118820643int, 751138087int, 1442753661575469721int, 1687452435595960804int);
    assert(ratio_mul(dp87_weight8(10), ratio_pow(dp87_node(10), 2)) == (171428917759001705276250603int, 1267509794377040703243541948int));
    ratio_add_value(2942373411158373002826652035027745303243417435082950561926515196012339200000000int, 15802705881990632008945400401619154190610645617846354542183187890176000000000000int, 171428917759001705276250603int, 1267509794377040703243541948int);
    assert(ratio_sum(|i: int| ratio_mul(dp87_weight8(i), ratio_pow(dp87_node(i), 2)), 11) == (6438527884371285768185193312976224940552071214859971622872370694057036980134909453534322296932761600000000int, 20030084483082797626484795326541944087847820635026980558143915598820233450538987585351473102848000000000000int));
    assert(dp87_weight8(11) == (-528747749int, 2220607170int));
    assert(dp87_node(11) == (1int, 1int));
    assert(ratio_pow(dp87_node(11), 0) == (1int, 1int));
    ratio_mul_value(1int, 1int, 1int, 1int);
    assert(ratio_pow(dp87_node(11), 1) == (1int, 1int));
    ratio_mul_value(1int, 1int, 1int, 1int);
    assert(ratio_pow(dp87_node(11), 2) == (1int, 1int));
    ratio_mul_value(-528747749int, 2220607170int, 1int, 1int);
    assert(ratio_mul(dp87_weight8(11), ratio_pow(dp87_node(11), 2)) == (-528747749int, 2220607170int));
    ratio_add_value(6438527884371285768185193312976224940552071214859971622872370694057036980134909453534322296932761600000000int, 20030084483082797626484795326541944087847820635026980558143915598820233450538987585351473102848000000000000int, -528747749int, 2220607170int);
    assert(ratio_sum(|i: int| ratio_mul(dp87_weight8(i), ratio_pow(dp87_node(i), 2)), 12) == (3706579101569950293324619846996286251989359682742397007361563367198747214415734977325561156694833927708672000000000int, 44478949218839404113031118398101532347213980371014866170864980870615053941340716196572468142246416220160000000000000int));
    assert(dp87_weight8(12) == (1int, 4int));
    assert(dp87_node(12) == (1int, 1int));
    assert(ratio_pow(dp87_node(12), 0) == (1int, 1int));
    ratio_mul_value(1int, 1int, 1int, 1int);
    assert(ratio_pow(dp87_node(12), 1) == (1int, 1int));
    ratio_mul_value(1int, 1int, 1int, 1int);
    assert(ratio_pow(dp87_node(12), 2) == (1int, 1int));
    ratio_mul_value(1int, 4int, 1int, 1int);
    assert(ratio_mul(dp87_weight8(12), ratio_pow(dp87_node(12), 2)) == (1int, 4int));
    ratio_add_value(3706579101569950293324619846996286251989359682742397007361563367198747214415734977325561156694833927708672000000000int, 44478949218839404113031118398101532347213980371014866170864980870615053941340716196572468142246416220160000000000000int, 1int, 4int);
    assert(ratio_sum(|i: int| ratio_mul(dp87_weight8(i), ratio_pow(dp87_node(i), 2)), 13) == (59305265625119205286329597786086677355171419101984454200311234339410042799003656105874712769025751930994688000000000int, 177915796875357616452124473592406129388855921484059464683459923482460215765362864786289872568985664880640000000000000int));
    assert(within_1e14((59305265625119205286329597786086677355171419101984454200311234339410042799003656105874712769025751930994688000000000int, 177915796875357616452124473592406129388855921484059464683459923482460215765362864786289872568985664880640000000000000int), (1int, 3int))) by (nonlinear_arith);
}

/// The moment of degree 2 of the order-7 weights, exactly, stage by stage.
#[verifier::spinoff_prover]
proof fn quadrature_condition_7_2()
    ensures
        within_1e14(weight7_moment(2), (1, 3)),
{
    assert(ratio_sum(|i: int| ratio_mul(dp87_weight7(i), ratio_pow(dp87_node(i), 2)), 0) == (0int, 1int));
    assert(dp87_weight7(0) == (13451932int, 455176623int));
    assert(dp87_node(0) == (0int, 1int));
    assert(ratio_pow(dp87_node(0), 0) == (1int, 1int));
    ratio_mul_value(1int, 1int, 0int, 1int);
    assert(ratio_pow(dp87_node(0), 1) == (0int, 1int));
    ratio_mul_value(0int, 1int, 0int, 1int);
    assert(ratio_pow(dp87_node(0), 2) == (0int, 1int));
    ratio_mul_value(13451932int, 455176623int, 0int, 1int);
    assert(ratio_mul(dp87_weight7(0), ratio_pow(dp87_node(0), 2)) == (0int, 455176623int));
    ratio_add_value(0int, 1int, 0int, 455176623int);
    assert(ratio_sum(|i: int| ratio_mul(dp87_weight7(i), ratio_pow(dp87_node(i), 2)), 1) == (0int, 1int));
    assert(dp87_weight7(1) == (0int, 1int));
    assert(dp87_node(1) == (1int, 18int));
    assert(ratio_pow(dp87_node(1), 0) == (1int, 1int));
    ratio_mul_value(1int, 1int, 1int, 18int);
    assert(ratio_pow(dp87_node(1), 1) == (1int, 18int));
    ratio_mul_value(1int, 18int, 1int, 18int);
    assert(ratio_pow(dp87_node(1), 2) == (1int, 324int));
    ratio_mul_value(0int, 1int, 1int, 324int);
    assert(ratio_mul(dp87_weight7(1), ratio_pow(dp87_node(1), 2)) == (0int, 324int));
    ratio_add_value(0int, 1int, 0int, 324int);
    assert(ratio_sum(|i: int| ratio_mul(dp87_weight7(i), ratio_pow(dp87_node(i), 2)), 2) == (0int, 1int));
    assert(dp87_weight7(2) == (0int, 1int));
    assert(dp87_node(2) == (1int, 12int));
    assert(ratio_pow(dp87_node(2), 0) == (1int, 1int));
    ratio_mul_value(1int, 1int, 1int, 12int);
    assert(ratio_pow(dp87_node(2), 1) == (1int, 12int));
    ratio_mul_value(1int, 12int, 1int, 12int);
    assert(ratio_pow(dp87_node(2), 2) == (1int, 144int));
    ratio_mul_value(0int, 1int, 1int, 144int);
    assert(ratio_mul(dp87_weight7(2), ratio_pow(dp87_node(2), 2)) == (0int, 144int));
    ratio_add_value(0int, 1int, 0int, 144int);
    assert(ratio_sum(|i: int| ratio_mul(dp87_weight7(i), ratio_pow(dp87_node(i), 2)), 3) == (0int, 1int));
    assert(dp87_weight7(3) == (0int, 1int));
    assert(dp87_node(3) == (1int, 8int));
    assert(ratio_pow(dp87_node(3), 0) == (1int, 1int));
    ratio_mul_value(1int, 1int, 1int, 8int);
    assert(ratio_pow(dp87_node(3), 1) == (1int, 8int));
    ratio_mul_value(1int, 8int, 1int, 8int);
    assert(ratio_pow(dp87_node(3), 2) == (1int, 64int));
    ratio_mul_value(0int, 1int, 1int, 64int);
    assert(ratio_mul(dp87_weight7(3), ratio_pow(dp87_node(3), 2)) == (0int, 64int));
    ratio_add_value(0int, 1int, 0int, 64int);
    assert(ratio_sum(|i: int| ratio_mul(dp87_weight7(i), ratio_pow(dp87_node(i), 2)), 4) == (0int, 1int));
    assert(dp87_weight7(4) == (0int, 1int));
    assert(dp87_node(4) == (5int, 16int));
    assert(ratio_pow(dp87_node(4), 0) == (1int, 1int));
    ratio_mul_value(1int, 1int, 5int, 16int);
    assert(ratio_pow(dp87_node(4), 1) == (5int, 16int));
    ratio_mul_value(5int, 16int, 5int, 16int);
    assert(ratio_pow(dp87_node(4), 2) == (25int, 256int));
    ratio_mul_value(0int, 1int, 25int, 256int);
    assert(ratio_mul(dp87_weight7(4), ratio_pow(dp87_node(4), 2)) == (0int, 256int));
    ratio_add_value(0int, 1int, 0int, 256int);
    assert(ratio_sum(|i: int| ratio_mul(dp87_weight7(i), ratio_pow(dp87_node(i), 2)), 5) == (0int, 1int));
    assert(dp87_weight7(5) == (-808719846int, 976000145int));
    assert(dp87_node(5) == (3int, 8int));
    assert(ratio_pow(dp87_node(5), 0) == (1int, 1int));
    ratio_mul_value(1int, 1int, 3int, 8int);
    assert(ratio_pow(dp87_node(5), 1) == (3int, 8int));
    ratio_mul_value(3int, 8int, 3int, 8int);
    assert(ratio_pow(dp87_node(5), 2) == (9int, 64int));
    ratio_mul_value(-808719846int, 976000145int, 9int, 64int);
    assert(ratio_mul(dp87_weight7(5), ratio_pow(dp87_node(5), 2)) == (-7278478614int, 62464009280int));
    ratio_add_value(0int, 1int, -7278478614int, 62464009280int);
    assert(ratio_sum(|i: int| ratio_mul(dp87_weight7(i), ratio_pow(dp87_node(i), 2)), 6) == (-7278478614int, 62464009280int));
    assert(dp87_weight7(6) == (1757004468int, 5645159321int));
    assert(dp87_node(6) == (59int, 400int));
    assert(ratio_pow(dp87_node(6), 0) == (1int, 1int));
    ratio_mul_value(1int, 1int, 59int, 400int);
    assert(ratio_pow(dp87_node(6), 1) == (59int, 400int));
    ratio_mul_value(59int, 400int, 59int, 400int);
    assert(ratio_pow(dp87_node(6), 2) == (3481int, 160000int));
    ratio_mul_value(1757004468int, 5645159321int, 3481int, 160000int);
    assert(ratio_mul(dp87_weight7(6), ratio_pow(dp87_node(6), 2)) == (6116132553108int, 903225491360000int));
    ratio_add_value(-7278478614int, 62464009280int, 6116132553108int, 903225491360000int);
    assert(ratio_sum(|i: int| ratio_mul(dp87_weight7(i), ratio_pow(dp87_node(i), 2)), 7) == (-6192069261928353570197760int, 56419085474243599820800000int));
    assert(dp87_weight7(7) == (656045339int, 265891186int));
    assert(dp87_node(7) == (93int, 200int));
    assert(ratio_pow(dp87_node(7), 0) == (1int, 1int));
    ratio_mul_value(1int, 1int, 93int, 200int);
    assert(ratio_pow(dp87_node(7), 1) == (93int, 200int));
    ratio_mul_value(93int, 200int, 93int, 200int);
    assert(ratio_pow(dp87_node(7), 2) == (8649int, 40000int));
    ratio_mul_value(656045339int, 265891186int, 8649int, 40000int);
    assert(ratio_mul(dp87_weight7(7), ratio_pow(dp87_node(7), 2)) == (5674136137011int, 10635647440000int));
    ratio_add_value(-6192069261928353570197760int, 56419085474243599820800000int, 5674136137011int, 10635647440000int);
    assert(ratio_sum(|i: int| ratio_mul(dp87_weight7(i), ratio_pow(dp87_node(i), 2)), 8) == (254272906112587019312096017409894400000int, 600053501991280128370475978752000000000int));
    assert(dp87_weight7(8) == (-3867574721int, 1518517206int));
    assert(dp87_node(8) == (5490023248int, 9719169821int));
    assert(ratio_pow(dp87_node(8), 0) == (1int, 1int));
    ratio_mul_value(1int, 1int, 5490023248int, 9719169821int);
    assert(ratio_pow(dp87_node(8), 1) == (5490023248int, 9719169821int));
    ratio_mul_value(5490023248int, 9719169821int, 5490023248int, 9719169821int);
    assert(ratio_pow(dp87_node(8), 2) == (30140355263580469504int, 94462262009437172041int));
    ratio_mul_value(-3867574721int, 1518517206int, 30140355263580469504int, 94462262009437172041int);
    assert(ratio_mul(dp87_weight7(8), ratio_pow(dp87_node(8), 2)) == (-116570076099383115802981808384int, 143442570179010480120240637446int));
    ratio_add_value(254272906112587019312096017409894400000int, 600053501991280128370475978752000000000int, -116570076099383115802981808384int, 143442570179010480120240637446int);
    assert(ratio_sum(|i: int| ratio_mul(dp87_weight7(i), ratio_pow(dp87_node(i), 2)), 9) == (-33474723211149156174270551641371117337622946168077702933222297600000int, 86073216570545204692681813690648948393684061891571231547392000000000int));
    assert(dp87_weight7(9) == (465885868int, 322736535int));
    assert(dp87_node(9) == (13int, 20int));
    assert(ratio_pow(dp87_node(9), 0) == (1int, 1int));
    ratio_mul_value(1int, 1int, 13int, 20int);
    assert(ratio_pow(dp87_node(9), 1) == (13int, 20int));
    ratio_mul_value(13int, 20int, 13int, 20int);
    assert(ratio_pow(dp87_node(9), 2) == (169int, 400int));
    ratio_mul_value(465885868int, 322736535int, 169int, 400int);
    assert(ratio_mul(dp87_weight7(9), ratio_pow(dp87_node(9), 2)) == (78734711692int, 129094614000int));
    ratio_add_value(-33474723211149156174270551641371117337622946168077702933222297600000int, 86073216570545204692681813690648948393684061891571231547392000000000int, 78734711692int, 129094614000int);
    assert(ratio_sum(|i: int| ratio_mul(dp87_weight7(i), ratio_pow(dp87_node(i), 2)), 10) == (2455543419384812857988254467515032604710559213657574898594283869642137600000000int, 11111588668912936969352747363214241402388564007844497990115192946688000000000000int));
    assert(dp87_weight7(10) == (53011238int, 667516719int));
    assert(dp87_node(10) == (1201146811int, 1299019798int));
    assert(ratio_pow(dp87_node(10), 0) == (1int, 1int));
    ratio_mul_value(1int, 1int, 1201146811int, 1299019798int);
    assert(ratio_pow(dp87_node(10), 1) == (1201146811int, 1299019798int));
    ratio_mul_value(1201146811int, 1299019798int, 1201146811int, 1299019798int);
    assert(ratio_pow(dp87_node(10), 2) == (1442753661575469721int, 1687452435595960804int));
    ratio_mul_value(53011238int, 667516719int, 1442753661575469721int, 1687452435595960804int);
    assert(ratio_mul(dp87_weight7(10), ratio_pow(dp87_node(10), 2)) == (76482157729148680341724598int, 1126402713277574565538682076int));
    ratio_add_value(2455543419384812857988254467515032604710559213657574898594283869642137600000000int, 11111588668912936969352747363214241402388564007844497990115192946688000000000000int, 76482157729148680341724598int, 1126402713277574565538682076int);
    assert(ratio_sum(|i: int| ratio_mul(dp87_weight7(i), ratio_pow(dp87_node(i), 2)), 11) == (3615769047363166871091431987235221549057761300497090819515904329990219741084788021861676290869657600000000int, 12516123625487885360294983637896722646694579563602965025044716653321981009105069406382449164288000000000000int));
    assert(dp87_weight7(11) == (2int, 45int));
    assert(dp87_node(11) == (1int, 1int));
    assert(ratio_pow(dp87_node(11), 0) == (1int, 1int));
    ratio_mul_value(1int, 1int, 1int, 1int);
    assert(ratio_pow(dp87_node(11), 1) == (1int, 1int));
    ratio_mul_value(1int, 1int, 1int, 1int);
    assert(ratio_pow(dp87_node(11), 2) == (1int, 1int));
    ratio_mul_value(2int, 45int, 1int, 1int);
    assert(ratio_mul(dp87_weight7(11), ratio_pow(dp87_node(11), 2)) == (2int, 45int));
    ratio_add_value(3615769047363166871091431987235221549057761300497090819515904329990219741084788021861676290869657600000000int, 12516123625487885360294983637896722646694579563602965025044716653321981009105069406382449164288000000000000int, 2int, 45int);
    assert(ratio_sum(|i: int| ratio_mul(dp87_weight7(i), ratio_pow(dp87_node(i), 2)), 12) == (187741854382318279919704406701378415000988417649575016928305128156203850367025599796540331417710592000000000int, 563225563146954841213274263705352519101256080362133426127012249399489145409728123287210212392960000000000000int));
    assert(dp87_weight7(12) == (0int, 1int));
    assert(dp87_node(12) == (1int, 1int));
    assert(ratio_pow(dp87_node(12), 0) == (1int, 1int));
    ratio_mul_value(1int, 1int, 1int, 1int);
    assert(ratio_pow(dp87_node(12), 1) == (1int, 1int));
    ratio_mul_value(1int, 1int, 1int, 1int);
    assert(ratio_pow(dp87_node(12), 2) == (1int, 1int));
    ratio_mul_value(0int, 1int, 1int, 1int);
    assert(ratio_mul(dp87_weight7(12), ratio_pow(dp87_node(12), 2)) == (0int, 1int));
    ratio_add_value(187741854382318279919704406701378415000988417649575016928305128156203850367025599796540331417710592000000000int, 563225563146954841213274263705352519101256080362133426127012249399489145409728123287210212392960000000000000int, 0int, 1int);
    assert(ratio_sum(|i: int| ratio_mul(dp87_weight7(i), ratio_pow(dp87_node(i), 2)), 13) == (187741854382318279919704406701378415000988417649575016928305128156203850367025599796540331417710592000000000int, 563225563146954841213274263705352519101256080362133426127012249399489145409728123287210212392960000000000000int));
    assert(within_1e14((187741854382318279919704406701378415000988417649575016928305128156203850367025599796540331417710592000000000int, 563225563146954841213274263705352519101256080362133426127012249399489145409728123287210212392960000000000000int), (1int, 3int))) by (nonlinear_arith);
}

/// The moment of degree 3 of the order-8 weights, exactly, stage by stage.
#[verifier::spinoff_prover]
proof fn quadrature_condition_8_3()
    ensures
        within_1e14(weight8_moment(3), (1, 4)),
{
    assert(ratio_sum(|i: int| ratio_mul(dp87_weight8(i), ratio_pow(dp87_node(i), 3)), 0) == (0int, 1int));
    assert(dp87_weight8(0) == (14005451int, 335480064int));
    assert(dp87_node(0) == (0int, 1int));
    assert(ratio_pow(dp87_node(0), 0) == (1int, 1int));
    ratio_mul_value(1int, 1int, 0int, 1int);
    assert(ratio_pow(dp87_node(0), 1) == (0int, 1int));
    ratio_mul_value(0int, 1int, 0int, 1int);
    assert(ratio_pow(dp87_node(0), 2) == (0int, 1int));
    ratio_mul_value(0int, 1int, 0int, 1int);
    assert(ratio_pow(dp87_node(0), 3) == (0int, 1int));
    ratio_mul_value(14005451int, 335480064int, 0int, 1int);
    assert(ratio_mul(dp87_weight8(0), ratio_pow(dp87_node(0), 3)) == (0int, 335480064int));
    ratio_add_value(0int, 1int, 0int, 335480064int);
    assert(ratio_sum(|i: int| ratio_mul(dp87_weight8(i), ratio_pow(dp87_node(i), 3)), 1) == (0int, 1int));
    assert(dp87_weight8(1) == (0int, 1int));
    assert(dp87_node(1) == (1int, 18int));
    assert(ratio_pow(dp87_node(1), 0) == (1int, 1int));
    ratio_mul_value(1int, 1int, 1int, 18int);
    assert(ratio_pow(dp87_node(1), 1) == (1int, 18int));
    ratio_mul_value(1int, 18int, 1int, 18int);
    assert(ratio_pow(dp87_node(1), 2) == (1int, 324int));
    ratio_mul_value(1int, 324int, 1int, 18int);
    assert(ratio_pow(dp87_node(1), 3) == (1int, 5832int));
    ratio_mul_value(0int, 1int, 1int, 5832int);
    assert(ratio_mul(dp87_weight8(1), ratio_pow(dp87_node(1), 3)) == (0int, 5832int));
    ratio_add_value(0int, 1int, 0int, 5832int);
    assert(ratio_sum(|i: int| ratio_mul(dp87_weight8(i), ratio_pow(dp87_node(i), 3)), 2) == (0int, 1int));
    assert(dp87_weight8(2) == (0int, 1int));
    assert(dp87_node(2) == (1int, 12int));
    assert(ratio_pow(dp87_node(2), 0) == (1int, 1int));
    ratio_mul_value(1int, 1int, 1int, 12int);
    assert(ratio_pow(dp87_node(2), 1) == (1int, 12int));
    ratio_mul_value(1int, 12int, 1int, 12int);
    assert(ratio_pow(dp87_node(2), 2) == (1int, 144int));
    ratio_mul_value(1int, 144int, 1int, 12int);
    assert(ratio_pow(dp87_node(2), 3) == (1int, 1728int));
    ratio_mul_value(0int, 1int, 1int, 1728int);
    assert(ratio_mul(dp87_weight8(2), ratio_pow(dp87_node(2), 3)) == (0int, 1728int));
    ratio_add_value(0int, 1int, 0int, 1728int);
    assert(ratio_sum(|i: int| ratio_mul(dp87_weight8(i), ratio_pow(dp87_node(i), 3)), 3) == (0int, 1int));
    assert(dp87_weight8(3) == (0int, 1int));
    assert(dp87_node(3) == (1int, 8int));
    assert(ratio_pow(dp87_node(3), 0) == (1int, 1int));
    ratio_mul_value(1int, 1int, 1int, 8int);
    assert(ratio_pow(dp87_node(3), 1) == (1int, 8int));
    ratio_mul_value(1int, 8int, 1int, 8int);
    assert(ratio_pow(dp87_node(3), 2) == (1int, 64int));
    ratio_mul_value(1int, 64int, 1int, 8int);
    assert(ratio_pow(dp87_node(3), 3) == (1int, 512int));
    ratio_mul_value(0int, 1int, 1int, 512int);
    assert(ratio_mul(dp87_weight8(3), ratio_pow(dp87_node(3), 3)) == (0int, 512int));
    ratio_add_value(0int, 1int, 0int, 512int);
    assert(ratio_sum(|i: int| ratio_mul(dp87_weight8(i), ratio_pow(dp87_node(i), 3)), 4) == (0int, 1int));
    assert(dp87_weight8(4) == (0int, 1int));
    assert(dp87_node(4) == (5int, 16int));
    assert(ratio_pow(dp87_node(4), 0) == (1int, 1int));
    ratio_mul_value(1int, 1int, 5int, 16int);
    assert(ratio_pow(dp87_node(4), 1) == (5int, 16int));
    ratio_mul_value(5int, 16int, 5int, 16int);
    assert(ratio_pow(dp87_node(4), 2) == (25int, 256int));
    ratio_mul_value(25int, 256int, 5int, 16int);
    assert(ratio_pow(dp87_node(4), 3) == (125int, 4096int));
    ratio_mul_value(0int, 1int, 125int, 4096int);
    assert(ratio_mul(dp87_weight8(4), ratio_pow(dp87_node(4), 3)) == (0int, 4096int));
    ratio_add_value(0int, 1int, 0int, 4096int);
    assert(ratio_sum(|i: int| ratio_mul(dp87_weight8(i), ratio_pow(dp87_node(i), 3)), 5) == (0int, 1int));
    assert(dp87_weight8(5) == (-59238493int, 1068277825int));
    assert(dp87_node(5) == (3int, 8int));
    assert(ratio_pow(dp87_node(5), 0) == (1int, 1int));
    ratio_mul_value(1int, 1int, 3int, 8int);
    assert(ratio_pow(dp87_node(5), 1) == (3int, 8int));
    ratio_mul_value(3int, 8int, 3int, 8int);
    assert(ratio_pow(dp87_node(5), 2) == (9int, 64int));
    ratio_mul_value(9int, 64int, 3int, 8int);
    assert(ratio_pow(dp87_node(5), 3) == (27int, 512int));
    ratio_mul_value(-59238493int, 1068277825int, 27int, 512int);
    assert(ratio_mul(dp87_weight8(5), ratio_pow(dp87_node(5), 3)) == (-1599439311int, 546958246400int));
    ratio_add_value(0int, 1int, -1599439311int, 546958246400int);
    assert(ratio_sum(|i: int| ratio_mul(dp87_weight8(i), ratio_pow(dp87_node(i), 3)), 6) == (-1599439311int, 546958246400int));
    assert(dp87_weight8(6) == (181606767int, 758867731int));
    assert(dp87_node(6) == (59int, 400int));
    assert(ratio_pow(dp87_node(6), 0) == (1int, 1int));
    ratio_mul_value(1int, 1int, 59int, 400int);
    assert(ratio_pow(dp87_node(6), 1) == (59int, 400int));
    ratio_mul_value(59int, 400int, 59int, 400int);
    assert(ratio_pow(dp87_node(6), 2) == (3481int, 160000int));
    ratio_mul_value(3481int, 160000int, 59int, 400int);
    assert(ratio_pow(dp87_node(6), 3) == (205379int, 64000000int));
    ratio_mul_value(181606767int, 758867731int, 205379int, 64000000int);
    assert(ratio_mul(dp87_weight8(6), ratio_pow(dp87_node(6), 3)) == (37298216199693int, 48567534784000000int));
    ratio_add_value(-1599439311int, 546958246400int, 37298216199693int, 48567534784000000int);
    assert(ratio_sum(|i: int| ratio_mul(dp87_weight8(i), ratio_pow(dp87_node(i), 3)), 7) == (-57280257445457338325644800int, 26564413657427642777600000000int));
    assert(dp87_weight8(7) == (561292985int, 797845732int));
    assert(dp87_node(7) == (93int, 200int));
    assert(ratio_pow(dp87_node(7), 0) == (1int, 1int));
    ratio_mul_value(1int, 1int, 93int, 200int);
    assert(ratio_pow(dp87_node(7), 1) == (93int, 200int));
    ratio_mul_value(93int, 200int, 93int, 200int);
    assert(ratio_pow(dp87_node(7), 2) == (8649int, 40000int));
    ratio_mul_value(8649int, 40000int, 93int, 200int);
    assert(ratio_pow(dp87_node(7), 3) == (804357int, 8000000int));
    ratio_mul_value(561292985int, 797845732int, 804357int, 8000000int);
    assert(ratio_mul(dp87_weight8(7), ratio_pow(dp87_node(7), 3)) == (451479941535645int, 6382765856000000int));
    ratio_add_value(-57280257445457338325644800int, 26564413657427642777600000000int, 451479941535645int, 6382765856000000int);
    assert(ratio_sum(|i: int| ratio_mul(dp87_weight8(i), ratio_pow(dp87_node(i), 3)), 8) == (11627693453538366845163187998583603200000000int, 169554432477289239111430281625600000000000000int));
    assert(dp87_weight8(8) == (-1041891430int, 1371343529int));
    assert(dp87_node(8) == (5490023248int, 9719169821int));
    assert(ratio_pow(dp87_node(8), 0) == (1int, 1int));
    ratio_mul_value(1int, 1int, 5490023248int, 9719169821int);
    assert(ratio_pow(dp87_node(8), 1) == (5490023248int, 9719169821int));
    ratio_mul_value(5490023248int, 9719169821int, 5490023248int, 9719169821int);
    assert(ratio_pow(dp87_node(8), 2) == (30140355263580469504int, 94462262009437172041int));
    ratio_mul_value(30140355263580469504int, 94462262009437172041int, 5490023248int, 9719169821int);
    assert(ratio_pow(dp87_node(8), 3) == (165471251100035945295715028992int, 918094766145516579696472174661int));
    ratio_mul_value(-1041891430int, 1371343529int, 165471251100035945295715028992int, 918094766145516579696472174661int);
    assert(ratio_mul(dp87_weight8(8), ratio_pow(dp87_node(8), 3)) == (-172403078432505524095554304428966338560int, 1259023316562422433928969900849920118669int));
    ratio_add_value(11627693453538366845163187998583603200000000int, 169554432477289239111430281625600000000000000int, -172403078432505524095554304428966338560int, 1259023316562422433928969900849920118669int);
    assert(ratio_sum(|i: int| ratio_mul(dp87_weight8(i), ratio_pow(dp87_node(i), 3)), 9) == (-14592168945116016388662008364668097302646866784015244837273064127474391859200000000int, 213472983915416009114512042107938019691719242416529010513550042228326400000000000000int));
    assert(dp87_weight8(9) == (760417239int, 1151165299int));
    assert(dp87_node(9) == (13int, 20int));
    assert(ratio_pow(dp87_node(9), 0) == (1int, 1int));
    ratio_mul_value(1int, 1int, 13int, 20int);
    assert(ratio_pow(dp87_node(9), 1) == (13int, 20int));
    ratio_mul_value(13int, 20int, 13int, 20int);
    assert(ratio_pow(dp87_node(9), 2) == (169int, 400int));
    ratio_mul_value(169int, 400int, 13int, 20int);
    assert(ratio_pow(dp87_node(9), 3) == (2197int, 8000int));
    ratio_mul_value(760417239int, 1151165299int, 2197int, 8000int);
    assert(ratio_mul(dp87_weight8(9), ratio_pow(dp87_node(9), 3)) == (1670636674083int, 9209322392000int));
    ratio_add_value(-14592168945116016388662008364668097302646866784015244837273064127474391859200000000int, 213472983915416009114512042107938019691719242416529010513550042228326400000000000000int, 1670636674083int, 9209322392000int);
    assert(ratio_sum(|i: int| ratio_mul(dp87_weight8(i), ratio_pow(dp87_node(i), 3)), 10) == (222251807640920407692457603364228811573578604984289823920178956665913559631831619993600000000000int, 1965941530859296486733551841538280485695086956163816807440039823305871892204748800000000000000000int));
    assert(dp87_weight8(10) == (118820643int, 751138087int));
    assert(dp87_node(10) == (1201146811int, 1299019798int));
    assert(ratio_pow(dp87_node(10), 0) == (1int, 1int));
    ratio_mul_value(1int, 1int, 1201146811int, 1299019798int);
    assert(ratio_pow(dp87_node(10), 1) == (1201146811int, 1299019798int));
    ratio_mul_value(1201146811int, 1299019798int, 1201146811int, 1299019798int);
    assert(ratio_pow(dp87_node(10), 2) == (1442753661575469721int, 1687452435595960804int));
    ratio_mul_value(1442753661575469721int, 1687452435595960804int, 1201146811int, 1299019798int);
    assert(ratio_pow(dp87_node(10), 3) == (1732958959659948691206209731int, 2192034122022473013227997592int));
    ratio_mul_value(118820643int, 751138087int, 1732958959659948691206209731int, 2192034122022473013227997592int);
    assert(ratio_mul(dp87_weight8(10), ratio_pow(dp87_node(10), 3)) == (205911297879406164836130285830277033int, 1646520317054684950165203806095486504int));
    ratio_add_value(222251807640920407692457603364228811573578604984289823920178956665913559631831619993600000000000int, 1965941530859296486733551841538280485695086956163816807440039823305871892204748800000000000000000int, 205911297879406164836130285830277033int, 1646520317054684950165203806095486504int);
    assert(ratio_sum(|i: int| ratio_mul(dp87_weight8(i), ratio_pow(dp87_node(i), 3)), 11) == (770751688957169486906418480950765422189870699047609258390941062009569441007463779081836136754043799104790206325755766374400000000000int, 3236962672701421548376259181536886412659490941389726374943182148695889941145791076053579808979461662692429115110195200000000000000000int));
    assert(dp87_weight8(11) == (-528747749int, 2220607170int));
    assert(dp87_node(11) == (1int, 1int));
    assert(ratio_pow(dp87_node(11), 0) == (1int, 1int));
    ratio_mul_value(1int, 1int, 1int, 1int);
    assert(ratio_pow(dp87_node(11), 1) == (1int, 1int));
    ratio_mul_value(1int, 1int, 1int, 1int);
    assert(ratio_pow(dp87_node(11), 2) == (1int, 1int));
    ratio_mul_value(1int, 1int, 1int, 1int);
    assert(ratio_pow(dp87_node(11), 3) == (1int, 1int));
    ratio_mul_value(-528747749int, 2220607170int, 1int, 1int);
    assert(ratio_mul(dp87_weight8(11), ratio_pow(dp87_node(11), 3)) == (-528747749int, 2220607170int));
    ratio_add_value(770751688957169486906418480950765422189870699047609258390941062009569441007463779081836136754043799104790206325755766374400000000000int, 3236962672701421548376259181536886412659490941389726374943182148695889941145791076053579808979461662692429115110195200000000000000000int, -528747749int, 2220607170int);
    assert(ratio_sum(|i: int| ratio_mul(dp87_weight8(i), ratio_pow(dp87_node(i), 3)), 12) == (-7274427649458432937659486963067675461935831178674070582618513420943196785348610154594282460443824988470767255552000000000000int, 7188022520023139959516822996299141587427244353000076152536938622010099352839221678806594627987022950914929597730454801219584000000000000000000int));
    assert(dp87_weight8(12) == (1int, 4int));
    assert(dp87_node(12) == (1int, 1int));
    assert(ratio_pow(dp87_node(12), 0) == (1int, 1int));
    ratio_mul_value(1int, 1int, 1int, 1int);
    assert(ratio_pow(dp87_node(12), 1) == (1int, 1int));
    ratio_mul_value(1int, 1int, 1int, 1int);
    assert(ratio_pow(dp87_node(12), 2) == (1int, 1int));
    ratio_mul_value(1int, 1int, 1int, 1int);
    assert(ratio_pow(dp87_node(12), 3) == (1int, 1int));
    ratio_mul_value(1int, 4int, 1int, 1int);
    assert(ratio_mul(dp87_weight8(12), ratio_pow(dp87_node(12), 3)) == (1int, 4int));
    ratio_add_value(-7274427649458432937659486963067675461935831178674070582618513420943196785348610154594282460443824988470767255552000000000000int, 7188022520023139959516822996299141587427244353000076152536938622010099352839221678806594627987022950914929597730454801219584000000000000000000int, 1int, 4int);
    assert(ratio_sum(|i: int| ratio_mul(dp87_weight8(i), ratio_pow(dp87_node(i), 3)), 13) == (7188022520023139930419112398465409836789296500729374304793613907313817022365167995033807486592582332537799755955154847336514977792000000000000int, 28752090080092559838067291985196566349708977412000304610147754488040397411356886715226378511948091803659718390921819204878336000000000000000000int));
    assert(within_1e14((7188022520023139930419112398465409836789296500729374304793613907313817022365167995033807486592582332537799755955154847336514977792000000000000int, 28752090080092559838067291985196566349708977412000304610147754488040397411356886715226378511948091803659718390921819204878336000000000000000000int), (1int, 4int))) by (nonlinear_arith);
}

/// The moment of degree 3 of the order-7 weights, exactly, stage by stage.
#[verifier::spinoff_prover]
proof fn quadrature_condition_7_3()
    ensures
        within_1e14(weight7_moment(3), (1, 4)),
{
    assert(ratio_sum(|i: int| ratio_mul(dp87_weight7(i), ratio_pow(dp87_node(i), 3)), 0) == (0int, 1int));
    assert(dp87_weight7(0) == (13451932int, 455176623int));
    assert(dp87_node(0) == (0int, 1int));
    assert(ratio_pow(dp87_node(0), 0) == (1int, 1int));
    ratio_mul_value(1int, 1int, 0int, 1int);
    assert(ratio_pow(dp87_node(0), 1) == (0int, 1int));
    ratio_mul_value(0int, 1int, 0int, 1int);
    assert(ratio_pow(dp87_node(0), 2) == (0int, 1int));
    ratio_mul_value(0int, 1int, 0int, 1int);
    assert(ratio_pow(dp87_node(0), 3) == (0int, 1int));
    ratio_mul_value(13451932int, 455176623int, 0int, 1int);
    assert(ratio_mul(dp87_weight7(0), ratio_pow(dp87_node(0), 3)) == (0int, 455176623int));
    ratio_add_value(0int, 1int, 0int, 455176623int);
    assert(ratio_sum(|i: int| ratio_mul(dp87_weight7(i), ratio_pow(dp87_node(i), 3)), 1) == (0int, 1int));
    assert(dp87_weight7(1) == (0int, 1int));
    assert(dp87_node(1) == (1int, 18int));
    assert(ratio_pow(dp87_node(1), 0) == (1int, 1int));
    ratio_mul_value(1int, 1int, 1int, 18int);
    assert(ratio_pow(dp87_node(1), 1) == (1int, 18int));
    ratio_mul_value(1int, 18int, 1int, 18int);
    assert(ratio_pow(dp87_node(1), 2) == (1int, 324int));
    ratio_mul_value(1int, 324int, 1int, 18int);
    assert(ratio_pow(dp87_node(1), 3) == (1int, 5832int));
    ratio_mul_value(0int, 1int, 1int, 5832int);
    assert(ratio_mul(dp87_weight7(1), ratio_pow(dp87_node(1), 3)) == (0int, 5832int));
    ratio_add_value(0int, 1int, 0int, 5832int);
    assert(ratio_sum(|i: int| ratio_mul(dp87_weight7(i), ratio_pow(dp87_node(i), 3)), 2) == (0int, 1int));
    assert(dp87_weight7(2) == (0int, 1int));
    assert(dp87_node(2) == (1int, 12int));
    assert(ratio_pow(dp87_node(2), 0) == (1int, 1int));
    ratio_mul_value(1int, 1int, 1int, 12int);
    assert(ratio_pow(dp87_node(2), 1) == (1int, 12int));
    ratio_mul_value(1int, 12int, 1int, 12int);
    assert(ratio_pow(dp87_node(2), 2) == (1int, 144int));
    ratio_mul_value(1int, 144int, 1int, 12int);
    assert(ratio_pow(dp87_node(2), 3) == (1int, 1728int));
    ratio_mul_value(0int, 1int, 1int, 1728int);
    assert(ratio_mul(dp87_weight7(2), ratio_pow(dp87_node(2), 3)) == (0int, 1728int));
    ratio_add_value(0int, 1int, 0int, 1728int);
    assert(ratio_sum(|i: int| ratio_mul(dp87_weight7(i), ratio_pow(dp87_node(i), 3)), 3) == (0int, 1int));
    assert(dp87_weight7(3) == (0int, 1int));
    assert(dp87_node(3) == (1int, 8int));
    assert(ratio_pow(dp87_node(3), 0) == (1int, 1int));
    ratio_mul_value(1int, 1int, 1int, 8int);
    assert(ratio_pow(dp87_node(3), 1) == (1int, 8int));
    ratio_mul_value(1int, 8int, 1int, 8int);
    assert(ratio_pow(dp87_node(3), 2) == (1int, 64int));
    ratio_mul_value(1int, 64int, 1int, 8int);
    assert(ratio_pow(dp87_node(3), 3) == (1int, 512int));
    ratio_mul_value(0int, 1int, 1int, 512int);
    assert(ratio_mul(dp87_weight7(3), ratio_pow(dp87_node(3), 3)) == (0int, 512int));
    ratio_add_value(0int, 1int, 0int, 512int);
    assert(ratio_sum(|i: int| ratio_mul(dp87_weight7(i), ratio_pow(dp87_node(i), 3)), 4) == (0int, 1int));
    assert(dp87_weight7(4) == (0int, 1int));
    assert(dp87_node(4) == (5int, 16int));
    assert(ratio_pow(dp87_node(4), 0) == (1int, 1int));
    ratio_mul_value(1int, 1int, 5int, 16int);
    assert(ratio_pow(dp87_node(4), 1) == (5int, 16int));
    ratio_mul_value(5int, 16int, 5int, 16int);
    assert(ratio_pow(dp87_node(4), 2) == (25int, 256int));
    ratio_mul_value(25int, 256int, 5int, 16int);
    assert(ratio_pow(dp87_node(4), 3) == (125int, 4096int));
    ratio_mul_value(0int, 1int, 125int, 4096int);
    assert(ratio_mul(dp87_weight7(4), ratio_pow(dp87_node(4), 3)) == (0int, 4096int));
    ratio_add_value(0int, 1int, 0int, 4096int);
    assert(ratio_sum(|i: int| ratio_mul(dp87_weight7(i), ratio_pow(dp87_node(i), 3)), 5) == (0int, 1int));
    assert(dp87_weight7(5) == (-808719846int, 976000145int));
    assert(dp87_node(5) == (3int, 8int));
    assert(ratio_pow(dp87_node(5), 0) == (1int, 1int));
    ratio_mul_value(1int, 1int, 3int, 8int);
    assert(ratio_pow(dp87_node(5), 1) == (3int, 8int));
    ratio_mul_value(3int, 8int, 3int, 8int);
    assert(ratio_pow(dp87_node(5), 2) == (9int, 64int));
    ratio_mul_value(9int, 64int, 3int, 8int);
    assert(ratio_pow(dp87_node(5), 3) == (27int, 512int));
    ratio_mul_value(-808719846int, 976000145int, 27int, 512int);
    assert(ratio_mul(dp87_weight7(5), ratio_pow(dp87_node(5), 3)) == (-21835435842int, 499712074240int));
    ratio_add_value(0int, 1int, -21835435842int, 499712074240int);
    assert(ratio_sum(|i: int| ratio_mul(dp87_weight7(i), ratio_pow(dp87_node(i), 3)), 6) == (-21835435842int, 499712074240int));
    assert(dp87_weight7(6) == (1757004468int, 5645159321int));
    assert(dp87_node(6) == (59int, 400int));
    assert(ratio_pow(dp87_node(6), 0) == (1int, 1int));
    ratio_mul_value(1int, 1int, 59int, 400int);
    assert(ratio_pow(dp87_node(6), 1) == (59int, 400int));
    ratio_mul_value(59int, 400int, 59int, 400int);
    assert(ratio_pow(dp87_node(6), 2) == (3481int, 160000int));
    ratio_mul_value(3481int, 160000int, 59int, 400int);
    assert(ratio_pow(dp87_node(6), 3) == (205379int, 64000000int));
    ratio_mul_value(1757004468int, 5645159321int, 205379int, 64000000int);
    assert(ratio_mul(dp87_weight7(6), ratio_pow(dp87_node(6), 3)) == (360851820633372int, 361290196544000000int));
    ratio_add_value(-21835435842int, 499712074240int, 360851820633372int, 361290196544000000int);
    assert(ratio_sum(|i: int| ratio_mul(dp87_weight7(i), ratio_pow(dp87_node(i), 3)), 7) == (-7708606895198099377362462720int, 180541073517579519426560000000int));
    assert(dp87_weight7(7) == (656045339int, 265891186int));
    assert(dp87_node(7) == (93int, 200int));
    assert(ratio_pow(dp87_node(7), 0) == (1int, 1int));
    ratio_mul_value(1int, 1int, 93int, 200int);
    assert(ratio_pow(dp87_node(7), 1) == (93int, 200int));
    ratio_mul_value(93int, 200int, 93int, 200int);
    assert(ratio_pow(dp87_node(7), 2) == (8649int, 40000int));
    ratio_mul_value(8649int, 40000int, 93int, 200int);
    assert(ratio_pow(dp87_node(7), 3) == (804357int, 8000000int));
    ratio_mul_value(656045339int, 265891186int, 804357int, 8000000int);
    assert(ratio_mul(dp87_weight7(7), ratio_pow(dp87_node(7), 3)) == (527694660742023int, 2127129488000000int));
    ratio_add_value(-7708606895198099377362462720int, 180541073517579519426560000000int, 527694660742023int, 2127129488000000int);
    assert(ratio_sum(|i: int| ratio_mul(dp87_weight7(i), ratio_pow(dp87_node(i), 3)), 8) == (78873355501683754734354747797041643520000000int, 384034241274419282157104626401280000000000000int));
    assert(dp87_weight7(8) == (-3867574721int, 1518517206int));
    assert(dp87_node(8) == (5490023248int, 9719169821int));
    assert(ratio_pow(dp87_node(8), 0) == (1int, 1int));
    ratio_mul_value(1int, 1int, 5490023248int, 9719169821int);
    assert(ratio_pow(dp87_node(8), 1) == (5490023248int, 9719169821int));
    ratio_mul_value(5490023248int, 9719169821int, 5490023248int, 9719169821int);
    assert(ratio_pow(dp87_node(8), 2) == (30140355263580469504int, 94462262009437172041int));
    ratio_mul_value(30140355263580469504int, 94462262009437172041int, 5490023248int, 9719169821int);
    assert(ratio_pow(dp87_node(8), 3) == (165471251100035945295715028992int, 918094766145516579696472174661int));
    ratio_mul_value(-3867574721int, 1518517206int, 165471251100035945295715028992int, 918094766145516579696472174661int);
    assert(ratio_mul(dp87_weight7(8), ratio_pow(dp87_node(8), 3)) == (-639972427806742464217046315749241311232int, 1394142699130513226027363254722965717166int));
    ratio_add_value(78873355501683754734354747797041643520000000int, 384034241274419282157104626401280000000000000int, -639972427806742464217046315749241311232int, 1394142699130513226027363254722965717166int);
    assert(ratio_sum(|i: int| ratio_mul(dp87_weight7(i), ratio_pow(dp87_node(i), 3)), 9) == (-135810613020712506223193589000804232053094570302234772473148028102572843335680000000int, 535398533688857645417843624433727929045299559260963384273417892900372480000000000000int));
    assert(dp87_weight7(9) == (465885868int, 322736535int));
    assert(dp87_node(9) == (13int, 20int));
    assert(ratio_pow(dp87_node(9), 0) == (1int, 1int));
    ratio_mul_value(1int, 1int, 13int, 20int);
    assert(ratio_pow(dp87_node(9), 1) == (13int, 20int));
    ratio_mul_value(13int, 20int, 13int, 20int);
    assert(ratio_pow(dp87_node(9), 2) == (169int, 400int));
    ratio_mul_value(169int, 400int, 13int, 20int);
    assert(ratio_pow(dp87_node(9), 3) == (2197int, 8000int));
    ratio_mul_value(465885868int, 322736535int, 2197int, 8000int);
    assert(ratio_mul(dp87_weight7(9), ratio_pow(dp87_node(9), 3)) == (1023551251996int, 2581892280000int));
    ratio_add_value(-135810613020712506223193589000804232053094570302234772473148028102572843335680000000int, 535398533688857645417843624433727929045299559260963384273417892900372480000000000000int, 1023551251996int, 2581892280000int);
    assert(ratio_sum(|i: int| ratio_mul(dp87_weight7(i), ratio_pow(dp87_node(i), 3)), 10) == (197359466173807727365334989961019277774735195707168842666192740005028619252701829529600000000000int, 1382341340854581476723307828172661511622446702343283867218211066893338515236454400000000000000000int));
    assert(dp87_weight7(10) == (53011238int, 667516719int));
    assert(dp87_node(10) == (1201146811int, 1299019798int));
    assert(ratio_pow(dp87_node(10), 0) == (1int, 1int));
    ratio_mul_value(1int, 1int, 1201146811int, 1299019798int);
    assert(ratio_pow(dp87_node(10), 1) == (1201146811int, 1299019798int));
    ratio_mul_value(1201146811int, 1299019798int, 1201146811int, 1299019798int);
    assert(ratio_pow(dp87_node(10), 2) == (1442753661575469721int, 1687452435595960804int));
    ratio_mul_value(1442753661575469721int, 1687452435595960804int, 1201146811int, 1299019798int);
    assert(ratio_pow(dp87_node(10), 3) == (1732958959659948691206209731int, 2192034122022473013227997592int));
    ratio_mul_value(53011238int, 667516719int, 1732958959659948691206209731int, 2192034122022473013227997592int);
    assert(ratio_mul(dp87_weight7(10), ratio_pow(dp87_node(10), 3)) == (91866299854765939137320891127956978int, 1463219425068486830055996551551740648int));
    ratio_add_value(197359466173807727365334989961019277774735195707168842666192740005028619252701829529600000000000int, 1382341340854581476723307828172661511622446702343283867218211066893338515236454400000000000000000int, 91866299854765939137320891127956978int, 1463219425068486830055996551551740648int);
    assert(ratio_sum(|i: int| ratio_mul(dp87_weight7(i), ratio_pow(dp87_node(i), 3)), 11) == (415770788747248609000284679126246339757769088643369871953191284468714241527736529940689158926792247327612596043850239180800000000000int, 2022668702013641893477215488909564580426845237914999959251012578503999302311589592715150435472756335148693623878451200000000000000000int));
    assert(dp87_weight7(11) == (2int, 45int));
    assert(dp87_node(11) == (1int, 1int));
    assert(ratio_pow(dp87_node(11), 0) == (1int, 1int));
    ratio_mul_value(1int, 1int, 1int, 1int);
    assert(ratio_pow(dp87_node(11), 1) == (1int, 1int));
    ratio_mul_value(1int, 1int, 1int, 1int);
    assert(ratio_pow(dp87_node(11), 2) == (1int, 1int));
    ratio_mul_value(1int, 1int, 1int, 1int);
    assert(ratio_pow(dp87_node(11), 3) == (1int, 1int));
    ratio_mul_value(2int, 45int, 1int, 1int);
    assert(ratio_mul(dp87_weight7(11), ratio_pow(dp87_node(11), 3)) == (2int, 45int));
    ratio_add_value(415770788747248609000284679126246339757769088643369871953191284468714241527736529940689158926792247327612596043850239180800000000000int, 2022668702013641893477215488909564580426845237914999959251012578503999302311589592715150435472756335148693623878451200000000000000000int, 2int, 45int);
    assert(ratio_sum(|i: int| ratio_mul(dp87_weight7(i), ratio_pow(dp87_node(i), 3)), 12) == (22755022897653471191967241538500214449953299464781644156395632958100139473371323032761313022651163800039954069730163163136000000000000int, 91020091590613885206474697000930406119208035706174998166295566032679968604021531672181769596274035081691213074530304000000000000000000int));
    assert(dp87_weight7(12) == (0int, 1int));
    assert(dp87_node(12) == (1int, 1int));
    assert(ratio_pow(dp87_node(12), 0) == (1int, 1int));
    ratio_mul_value(1int, 1int, 1int, 1int);
    assert(ratio_pow(dp87_node(12), 1) == (1int, 1int));
    ratio_mul_value(1int, 1int, 1int, 1int);
    assert(ratio_pow(dp87_node(12), 2) == (1int, 1int));
    ratio_mul_value(1int, 1int, 1int, 1int);
    assert(ratio_pow(dp87_node(12), 3) == (1int, 1int));
    ratio_mul_value(0int, 1int, 1int, 1int);
    assert(ratio_mul(dp87_weight7(12), ratio_pow(dp87_node(12), 3)) == (0int, 1int));
    ratio_add_value(22755022897653471191967241538500214449953299464781644156395632958100139473371323032761313022651163800039954069730163163136000000000000int, 91020091590613885206474697000930406119208035706174998166295566032679968604021531672181769596274035081691213074530304000000000000000000int, 0int, 1int);
    assert(ratio_sum(|i: int| ratio_mul(dp87_weight7(i), ratio_pow(dp87_node(i), 3)), 13) == (22755022897653471191967241538500214449953299464781644156395632958100139473371323032761313022651163800039954069730163163136000000000000int, 91020091590613885206474697000930406119208035706174998166295566032679968604021531672181769596274035081691213074530304000000000000000000int));
    assert(within_1e14((22755022897653471191967241538500214449953299464781644156395632958100139473371323032761313022651163800039954069730163163136000000000000int, 91020091590613885206474697000930406119208035706174998166295566032679968604021531672181769596274035081691213074530304000000000000000000int), (1int, 4int))) by (nonlinear_arith);
}

/// The moment of degree 4 of the order-8 weights, exactly, stage by stage.
#[verifier::spinoff_prover]
proof fn quadrature_condition_8_4()
    ensures
        within_1e14(weight8_moment(4), (1, 5)),
{
    assert(ratio_sum(|i: int| ratio_mul(dp87_weight8(i), ratio_pow(dp87_node(i), 4)), 0) == (0int, 1int));
    assert(dp87_weight8(0) == (14005451int, 335480064int));
    assert(dp87_node(0) == (0int, 1int));
    assert(ratio_pow(dp87_node(0), 0) == (1int, 1int));
    ratio_mul_value(1int, 1int, 0int, 1int);
    assert(ratio_pow(dp87_node(0), 1) == (0int, 1int));
    ratio_mul_value(0int, 1int, 0int, 1int);
    assert(ratio_pow(dp87_node(0), 2) == (0int, 1int));
    ratio_mul_value(0int, 1int, 0int, 1int);
    assert(ratio_pow(dp87_node(0), 3) == (0int, 1int));
    ratio_mul_value(0int, 1int, 0int, 1int);
    assert(ratio_pow(dp87_node(0), 4) == (0int, 1int));
    ratio_mul_value(14005451int, 335480064int, 0int, 1int);
    assert(ratio_mul(dp87_weight8(0), ratio_pow(dp87_node(0), 4)) == (0int, 335480064int));
    ratio_add_value(0int, 1int, 0int, 335480064int);
    assert(ratio_sum(|i: int| ratio_mul(dp87_weight8(i), ratio_pow(dp87_node(i), 4)), 1) == (0int, 1int));
    assert(dp87_weight8(1) == (0int, 1int));
    assert(dp87_node(1) == (1int, 18int));
    assert(ratio_pow(dp87_node(1), 0) == (1int, 1int));
    ratio_mul_value(1int, 1int, 1int, 18int);
    assert(ratio_pow(dp87_node(1), 1) == (1int, 18int));
    ratio_mul_value(1int, 18int, 1int, 18int);
    assert(ratio_pow(dp87_node(1), 2) == (1int, 324int));
    ratio_mul_value(1int, 324int, 1int, 18int);
    assert(ratio_pow(dp87_node(1), 3) == (1int, 5832int));
    ratio_mul_value(1int, 5832int, 1int, 18int);
    assert(ratio_pow(dp87_node(1), 4) == (1int, 104976int));
    ratio_mul_value(0int, 1int, 1int, 104976int);
    assert(ratio_mul(dp87_weight8(1), ratio_pow(dp87_node(1), 4)) == (0int, 104976int));
    ratio_add_value(0int, 1int, 0int, 104976int);
    assert(ratio_sum(|i: int| ratio_mul(dp87_weight8(i), ratio_pow(dp87_node(i), 4)), 2) == (0int, 1int));
    assert(dp87_weight8(2) == (0int, 1int));
    assert(dp87_node(2) == (1int, 12int));
    assert(ratio_pow(dp87_node(2), 0) == (1int, 1int));
    ratio_mul_value(1int, 1int, 1int, 12int);
    assert(ratio_pow(dp87_node(2), 1) == (1int, 12int));
    ratio_mul_value(1int, 12int, 1int, 12int);
    assert(ratio_pow(dp87_node(2), 2) == (1int, 144int));
    ratio_mul_value(1int, 144int, 1int, 12int);
    assert(ratio_pow(dp87_node(2), 3) == (1int, 1728int));
    ratio_mul_value(1int, 1728int, 1int, 12int);
    assert(ratio_pow(dp87_node(2), 4) == (1int, 20736int));
    ratio_mul_value(0int, 1int, 1int, 20736int);
    assert(ratio_mul(dp87_weight8(2), ratio_pow(dp87_node(2), 4)) == (0int, 20736int));
    ratio_add_value(0int, 1int, 0int, 20736int);
    assert(ratio_sum(|i: int| ratio_mul(dp87_weight8(i), ratio_pow(dp87_node(i), 4)), 3) == (0int, 1int));
    assert(dp87_weight8(3) == (0int, 1int));
    assert(dp87_node(3) == (1int, 8int));
    assert(ratio_pow(dp87_node(3), 0) == (1int, 1int));
    ratio_mul_value(1int, 1int, 1int, 8int);
    assert(ratio_pow(dp87_node(3), 1) == (1int, 8int));
    ratio_mul_value(1int, 8int, 1int, 8int);
    assert(ratio_pow(dp87_node(3), 2) == (1int, 64int));
    ratio_mul_value(1int, 64int, 1int, 8int);
    assert(ratio_pow(dp87_node(3), 3) == (1int, 512int));
    ratio_mul_value(1int, 512int, 1int, 8int);
    assert(ratio_pow(dp87_node(3), 4) == (1int, 4096int));
    ratio_mul_value(0int, 1int, 1int, 4096int);
    assert(ratio_mul(dp87_weight8(3), ratio_pow(dp87_node(3), 4)) == (0int, 4096int));
    ratio_add_value(0int, 1int, 0int, 4096int);
    assert(ratio_sum(|i: int| ratio_mul(dp87_weight8(i), ratio_pow(dp87_node(i), 4)), 4) == (0int, 1int));
    assert(dp87_weight8(4) == (0int, 1int));
    assert(dp87_node(4) == (5int, 16int));
    assert(ratio_pow(dp87_node(4), 0) == (1int, 1int));
    ratio_mul_value(1int, 1int, 5int, 16int);
    assert(ratio_pow(dp87_node(4), 1) == (5int, 16int));
    ratio_mul_value(5int, 16int, 5int, 16int);
    assert(ratio_pow(dp87_node(4), 2) == (25int, 256int));
    ratio_mul_value(25int, 256int, 5int, 16int);
    assert(ratio_pow(dp87_node(4), 3) == (125int, 4096int));
    ratio_mul_value(125int, 4096int, 5int, 16int);
    assert(ratio_pow(dp87_node(4), 4) == (625int, 65536int));
    ratio_mul_value(0int, 1int, 625int, 65536int);
    assert(ratio_mul(dp87_weight8(4), ratio_pow(dp87_node(4), 4)) == (0int, 65536int));
    ratio_add_value(0int, 1int, 0int, 65536int);
    assert(ratio_sum(|i: int| ratio_mul(dp87_weight8(i), ratio_pow(dp87_node(i), 4)), 5) == (0int, 1int));
    assert(dp87_weight8(5) == (-59238493int, 1068277825int));
    assert(dp87_node(5) == (3int, 8int));
    assert(ratio_pow(dp87_node(5), 0) == (1int, 1int));
    ratio_mul_value(1int, 1int, 3int, 8int);
    assert(ratio_pow(dp87_node(5), 1) == (3int, 8int));
    ratio_mul_value(3int, 8int, 3int, 8int);
    assert(ratio_pow(dp87_node(5), 2) == (9int, 64int));
    ratio_mul_value(9int, 64int, 3int, 8int);
    assert(ratio_pow(dp87_node(5), 3) == (27int, 512int));
    ratio_mul_value(27int, 512int, 3int, 8int);
    assert(ratio_pow(dp87_node(5), 4) == (81int, 4096int));
    ratio_mul_value(-59238493int, 1068277825int, 81int, 4096int);
    assert(ratio_mul(dp87_weight8(5), ratio_pow(dp87_node(5), 4)) == (-4798317933int, 4375665971200int));
    ratio_add_value(0int, 1int, -4798317933int, 4375665971200int);
    assert(ratio_sum(|i: int| ratio_mul(dp87_weight8(i), ratio_pow(dp87_node(i), 4)), 6) == (-4798317933int, 4375665971200int));
    assert(dp87_weight8(6) == (181606767int, 758867731int));
    assert(dp87_node(6) == (59int, 400int));
    assert(ratio_pow(dp87_node(6), 0) == (1int, 1int));
    ratio_mul_value(1int, 1int, 59int, 400int);
    assert(ratio_pow(dp87_node(6), 1) == (59int, 400int));
    ratio_mul_value(59int, 400int, 59int, 400int);
    assert(ratio_pow(dp87_node(6), 2) == (3481int, 160000int));
    ratio_mul_value(3481int, 160000int, 59int, 400int);
    assert(ratio_pow(dp87_node(6), 3) == (205379int, 64000000int));
    ratio_mul_value(205379int, 64000000int, 59int, 400int);
    assert(ratio_pow(dp87_node(6), 4) == (12117361int, 25600000000int));
    ratio_mul_value(181606767int, 758867731int, 12117361int, 25600000000int);
    assert(ratio_mul(dp87_weight8(6), ratio_pow(dp87_node(6), 4)) == (2200594755781887int, 19427013913600000000int));
    ratio_add_value(-4798317933int, 4375665971200int, 2200594755781887int, 19427013913600000000int);
    assert(ratio_sum(|i: int| ratio_mul(dp87_weight8(i), ratio_pow(dp87_node(i), 4)), 7) == (-83587921656991415193576345600int, 85006123703768456888320000000000int));
    assert(dp87_weight8(7) == (561292985int, 797845732int));
    assert(dp87_node(7) == (93int, 200int));
    assert(ratio_pow(dp87_node(7), 0) == (1int, 1int));
    ratio_mul_value(1int, 1int, 93int, 200int);
    assert(ratio_pow(dp87_node(7), 1) == (93int, 200int));
    ratio_mul_value(93int, 200int, 93int, 200int);
    assert(ratio_pow(dp87_node(7), 2) == (8649int, 40000int));
    ratio_mul_value(8649int, 40000int, 93int, 200int);
    assert(ratio_pow(dp87_node(7), 3) == (804357int, 8000000int));
    ratio_mul_value(804357int, 8000000int, 93int, 200int);
    assert(ratio_pow(dp87_node(7), 4) == (74805201int, 1600000000int));
    ratio_mul_value(561292985int, 797845732int, 74805201int, 1600000000int);
    assert(ratio_mul(dp87_weight8(7), ratio_pow(dp87_node(7), 4)) == (41987634562814985int, 1276553171200000000int));
    ratio_add_value(-83587921656991415193576345600int, 85006123703768456888320000000000int, 41987634562814985int, 1276553171200000000int);
    assert(ratio_sum(|i: int| ratio_mul(dp87_weight8(i), ratio_pow(dp87_node(i), 4)), 8) == (3462501631210025076099611796107980308480000000000int, 108514836785465113031315380240384000000000000000000int));
    assert(dp87_weight8(8) == (-1041891430int, 1371343529int));
    assert(dp87_node(8) == (5490023248int, 9719169821int));
    assert(ratio_pow(dp87_node(8), 0) == (1int, 1int));
    ratio_mul_value(1int, 1int, 5490023248int, 9719169821int);
    assert(ratio_pow(dp87_node(8), 1) == (5490023248int, 9719169821int));
    ratio_mul_value(5490023248int, 9719169821int, 5490023248int, 9719169821int);
    assert(ratio_pow(dp87_node(8), 2) == (30140355263580469504int, 94462262009437172041int));
    ratio_mul_value(30140355263580469504int, 94462262009437172041int, 5490023248int, 9719169821int);
    assert(ratio_pow(dp87_node(8), 3) == (165471251100035945295715028992int, 918094766145516579696472174661int));
    ratio_mul_value(165471251100035945295715028992int, 918094766145516579696472174661int, 5490023248int, 9719169821int);
    assert(ratio_pow(dp87_node(8), 4) == (908441015414842913309131743949074006016int, 8923118943939557235841093700131432105681int));
    ratio_mul_value(-1041891430int, 1371343529int, 908441015414842913309131743949074006016int, 8923118943939557235841093700131432105681int);
    assert(ratio_mul(dp87_weight8(8), ratio_pow(dp87_node(8), 4)) == (-946496908621222726173017304761494563303838842880int, 12236661422268825582495810717957905867628483488249int));
    ratio_add_value(3462501631210025076099611796107980308480000000000int, 108514836785465113031315380240384000000000000000000int, -946496908621222726173017304761494563303838842880int, 12236661422268825582495810717957905867628483488249int);
    assert(ratio_sum(|i: int| ratio_mul(dp87_weight8(i), ratio_pow(dp87_node(i), 4)), 9) == (-60339497421808677517833710183205887546044566752699701338099885584591337328566206524948480000000000int, 1327859317036499003165456878589793552336807286079815597154743860479248344459247616000000000000000000int));
    assert(dp87_weight8(9) == (760417239int, 1151165299int));
    assert(dp87_node(9) == (13int, 20int));
    assert(ratio_pow(dp87_node(9), 0) == (1int, 1int));
    ratio_mul_value(1int, 1int, 13int, 20int);
    assert(ratio_pow(dp87_node(9), 1) == (13int, 20int));
    ratio_mul_value(13int, 20int, 13int, 20int);
    assert(ratio_pow(dp87_node(9), 2) == (169int, 400int));
    ratio_mul_value(169int, 400int, 13int, 20int);
    assert(ratio_pow(dp87_node(9), 3) == (2197int, 8000int));
    ratio_mul_value(2197int, 8000int, 13int, 20int);
    assert(ratio_pow(dp87_node(9), 4) == (28561int, 160000int));
    ratio_mul_value(760417239int, 1151165299int, 28561int, 160000int);
    assert(ratio_mul(dp87_weight8(9), ratio_pow(dp87_node(9), 4)) == (21718276763079int, 184186447840000int));
    ratio_add_value(-60339497421808677517833710183205887546044566752699701338099885584591337328566206524948480000000000int, 1327859317036499003165456878589793552336807286079815597154743860479248344459247616000000000000000000int, 21718276763079int, 184186447840000int);
    assert(ratio_sum(|i: int| ratio_mul(dp87_weight8(i), ratio_pow(dp87_node(i), 4)), 10) == (17725098455257968749269029661352568559611856528999438502917635151502297867569553378154136699456716800000000000000int, 244573690836201147022746418258148222883851665309671913562160682466721312599149564030028349440000000000000000000000int));
    assert(dp87_weight8(10) == (118820643int, 751138087int));
    assert(dp87_node(10) == (1201146811int, 1299019798int));
    assert(ratio_pow(dp87_node(10), 0) == (1int, 1int));
    ratio_mul_value(1int, 1int, 1201146811int, 1299019798int);
    assert(ratio_pow(dp87_node(10), 1) == (1201146811int, 1299019798int));
    ratio_mul_value(1201146811int, 1299019798int, 1201146811int, 1299019798int);
    assert(ratio_pow(dp87_node(10), 2) == (1442753661575469721int, 1687452435595960804int));
    ratio_mul_value(1442753661575469721int, 1687452435595960804int, 1201146811int, 1299019798int);
    assert(ratio_pow(dp87_node(10), 3) == (1732958959659948691206209731int, 2192034122022473013227997592int));
    ratio_mul_value(1732958959659948691206209731int, 2192034122022473013227997592int, 1201146811int, 1299019798int);
    assert(ratio_pow(dp87_node(10), 4) == (2081538127989425014865962561787817841int, 2847495722398740245103884759904326416int));
    ratio_mul_value(118820643int, 751138087int, 2081538127989425014865962561787817841int, 2847495722398740245103884759904326416int);
    assert(ratio_mul(dp87_weight8(10), ratio_pow(dp87_node(10), 4)) == (247329698796719777466658230405555745434491763int, 2138862489663272798917243114822990047137806192int));
    ratio_add_value(17725098455257968749269029661352568559611856528999438502917635151502297867569553378154136699456716800000000000000int, 244573690836201147022746418258148222883851665309671913562160682466721312599149564030028349440000000000000000000000int, 247329698796719777466658230405555745434491763int, 2138862489663272798917243114822990047137806192int);
    assert(ratio_sum(|i: int| ratio_mul(dp87_weight8(i), ratio_pow(dp87_node(i), 4)), 11) == (98401885499659383537255346884717939177919490927410649526002118433332245364846972563946257375866246449034009035850376811910516289462930931030425600000000000000int, 523109493288052753088173972234396456386310162664616240362003527257770146575976993638829492779282163309771948544258720734396404168371732480000000000000000000000int));
    assert(dp87_weight8(11) == (-528747749int, 2220607170int));
    assert(dp87_node(11) == (1int, 1int));
    assert(ratio_pow(dp87_node(11), 0) == (1int, 1int));
    ratio_mul_value(1int, 1int, 1int, 1int);
    assert(ratio_pow(dp87_node(11), 1) == (1int, 1int));
    ratio_mul_value(1int, 1int, 1int, 1int);
    assert(ratio_pow(dp87_node(11), 2) == (1int, 1int));
    ratio_mul_value(1int, 1int, 1int, 1int);
    assert(ratio_pow(dp87_node(11), 3) == (1int, 1int));
    ratio_mul_value(1int, 1int, 1int, 1int);
    assert(ratio_pow(dp87_node(11), 4) == (1int, 1int));
    ratio_mul_value(-528747749int, 2220607170int, 1int, 1int);
    assert(ratio_mul(dp87_weight8(11), ratio_pow(dp87_node(11), 4)) == (-528747749int, 2220607170int));
    ratio_add_value(98401885499659383537255346884717939177919490927410649526002118433332245364846972563946257375866246449034009035850376811910516289462930931030425600000000000000int, 523109493288052753088173972234396456386310162664616240362003527257770146575976993638829492779282163309771948544258720734396404168371732480000000000000000000000int, -528747749int, 2220607170int);
    assert(ratio_sum(|i: int| ratio_mul(dp87_weight8(i), ratio_pow(dp87_node(i), 4)), 12) == (-58081034574525842148015600926283807521726245688581641168454904539359356712069439634026070678343225860180347457266491666201491706937590669369248944488448000000000000000int, 1161620691490516818845838764951081691674032637056913128646308428193894825698565461829429162073137199298790520002251977597828320718504156370409881600000000000000000000000int));
    assert(dp87_weight8(12) == (1int, 4int));
    assert(dp87_node(12) == (1int, 1int));
    assert(ratio_pow(dp87_node(12), 0) == (1int, 1int));
    ratio_mul_value(1int, 1int, 1int, 1int);
    assert(ratio_pow(dp87_node(12), 1) == (1int, 1int));
    ratio_mul_value(1int, 1int, 1int, 1int);
    assert(ratio_pow(dp87_node(12), 2) == (1int, 1int));
    ratio_mul_value(1int, 1int, 1int, 1int);
    assert(ratio_pow(dp87_node(12), 3) == (1int, 1int));
    ratio_mul_value(1int, 1int, 1int, 1int);
    assert(ratio_pow(dp87_node(12), 4) == (1int, 1int));
    ratio_mul_value(1int, 4int, 1int, 1int);
    assert(ratio_mul(dp87_weight8(12), ratio_pow(dp87_node(12), 4)) == (1int, 4int));
    ratio_add_value(-58081034574525842148015600926283807521726245688581641168454904539359356712069439634026070678343225860180347457266491666201491706937590669369248944488448000000000000000int, 1161620691490516818845838764951081691674032637056913128646308428193894825698565461829429162073137199298790520002251977597828320718504156370409881600000000000000000000000int, 1int, 4int);
    assert(ratio_sum(|i: int| ratio_mul(dp87_weight8(i), ratio_pow(dp87_node(i), 4)), 13) == (929296553192413450253776361245946461587127654302586563972488810036457398850287703293324879359764295858069130173186010933022353890753793692932885822046208000000000000000int, 4646482765962067275383355059804326766696130548227652514585233712775579302794261847317716648292548797195162080009007910391313282874016625481639526400000000000000000000000int));
    assert(within_1e14((929296553192413450253776361245946461587127654302586563972488810036457398850287703293324879359764295858069130173186010933022353890753793692932885822046208000000000000000int, 4646482765962067275383355059804326766696130548227652514585233712775579302794261847317716648292548797195162080009007910391313282874016625481639526400000000000000000000000int), (1int, 5int))) by (nonlinear_arith);
}

/// The moment of degree 4 of the order-7 weights, exactly, stage by stage.
#[verifier::spinoff_prover]
proof fn quadrature_condition_7_4()
    ensures
        within_1e14(weight7_moment(4), (1, 5)),
{
    assert(ratio_sum(|i: int| ratio_mul(dp87_weight7(i), ratio_pow(dp87_node(i), 4)), 0) == (0int, 1int));
    assert(dp87_weight7(0) == (13451932int, 455176623int));
    assert(dp87_node(0) == (0int, 1int));
    assert(ratio_pow(dp87_node(0), 0) == (1int, 1int));
    ratio_mul_value(1int, 1int, 0int, 1int);
    assert(ratio_pow(dp87_node(0), 1) == (0int, 1int));
    ratio_mul_value(0int, 1int, 0int, 1int);
    assert(ratio_pow(dp87_node(0), 2) == (0int, 1int));
    ratio_mul_value(0int, 1int, 0int, 1int);
    assert(ratio_pow(dp87_node(0), 3) == (0int, 1int));
    ratio_mul_value(0int, 1int, 0int, 1int);
    assert(ratio_pow(dp87_node(0), 4) == (0int, 1int));
    ratio_mul_value(13451932int, 455176623int, 0int, 1int);
    assert(ratio_mul(dp87_weight7(0), ratio_pow(dp87_node(0), 4)) == (0int, 455176623int));
    ratio_add_value(0int, 1int, 0int, 455176623int);
    assert(ratio_sum(|i: int| ratio_mul(dp87_weight7(i), ratio_pow(dp87_node(i), 4)), 1) == (0int, 1int));
    assert(dp87_weight7(1) == (0int, 1int));
    assert(dp87_node(1) == (1int, 18int));
    assert(ratio_pow(dp87_node(1), 0) == (1int, 1int));
    ratio_mul_value(1int, 1int, 1int, 18int);
    assert(ratio_pow(dp87_node(1), 1) == (1int, 18int));
    ratio_mul_value(1int, 18int, 1int, 18int);
    assert(ratio_pow(dp87_node(1), 2) == (1int, 324int));
    ratio_mul_value(1int, 324int, 1int, 18int);
    assert(ratio_pow(dp87_node(1), 3) == (1int, 5832int));
    ratio_mul_value(1int, 5832int, 1int, 18int);
    assert(ratio_pow(dp87_node(1), 4) == (1int, 104976int));
    ratio_mul_value(0int, 1int, 1int, 104976int);
    assert(ratio_mul(dp87_weight7(1), ratio_pow(dp87_node(1), 4)) == (0int, 104976int));
    ratio_add_value(0int, 1int, 0int, 104976int);
    assert(ratio_sum(|i: int| ratio_mul(dp87_weight7(i), ratio_pow(dp87_node(i), 4)), 2) == (0int, 1int));
    assert(dp87_weight7(2) == (0int, 1int));
    assert(dp87_node(2) == (1int, 12int));
    assert(ratio_pow(dp87_node(2), 0) == (1int, 1int));
    ratio_mul_value(1int, 1int, 1int, 12int);
    assert(ratio_pow(dp87_node(2), 1) == (1int, 12int));
    ratio_mul_value(1int, 12int, 1int, 12int);
    assert(ratio_pow(dp87_node(2), 2) == (1int, 144int));
    ratio_mul_value(1int, 144int, 1int, 12int);
    assert(ratio_pow(dp87_node(2), 3) == (1int, 1728int));
    ratio_mul_value(1int, 1728int, 1int, 12int);
    assert(ratio_pow(dp87_node(2), 4) == (1int, 20736int));
    ratio_mul_value(0int, 1int, 1int, 20736int);
    assert(ratio_mul(dp87_weight7(2), ratio_pow(dp87_node(2), 4)) == (0int, 20736int));
    ratio_add_value(0int, 1int, 0int, 20736int);
    assert(ratio_sum(|i: int| ratio_mul(dp87_weight7(i), ratio_pow(dp87_node(i), 4)), 3) == (0int, 1int));
    assert(dp87_weight7(3) == (0int, 1int));
    assert(dp87_node(3) == (1int, 8int));
    assert(ratio_pow(dp87_node(3), 0) == (1int, 1int));
    ratio_mul_value(1int, 1int, 1int, 8int);
    assert(ratio_pow(dp87_node(3), 1) == (1int, 8int));
    ratio_mul_value(1int, 8int, 1int, 8int);
    assert(ratio_pow(dp87_node(3), 2) == (1int, 64int));
    ratio_mul_value(1int, 64int, 1int, 8int);
    assert(ratio_pow(dp87_node(3), 3) == (1int, 512int));
    ratio_mul_value(1int, 512int, 1int, 8int);
    assert(ratio_pow(dp87_node(3), 4) == (1int, 4096int));
    ratio_mul_value(0int, 1int, 1int, 4096int);
    assert(ratio_mul(dp87_weight7(3), ratio_pow(dp87_node(3), 4)) == (0int, 4096int));
    ratio_add_value(0int, 1int, 0int, 4096int);
    assert(ratio_sum(|i: int| ratio_mul(dp87_weight7(i), ratio_pow(dp87_node(i), 4)), 4) == (0int, 1int));
    assert(dp87_weight7(4) == (0int, 1int));
    assert(dp87_node(4) == (5int, 16int));
    assert(ratio_pow(dp87_node(4), 0) == (1int, 1int));
    ratio_mul_value(1int, 1int, 5int, 16int);
    assert(ratio_pow(dp87_node(4), 1) == (5int, 16int));
    ratio_mul_value(5int, 16int, 5int, 16int);
    assert(ratio_pow(dp87_node(4), 2) == (25int, 256int));
    ratio_mul_value(25int, 256int, 5int, 16int);
    assert(ratio_pow(dp87_node(4), 3) == (125int, 4096int));
    ratio_mul_value(125int, 4096int, 5int, 16int);
    assert(ratio_pow(dp87_node(4), 4) == (625int, 65536int));
    ratio_mul_value(0int, 1int, 625int, 65536int);
    assert(ratio_mul(dp87_weight7(4), ratio_pow(dp87_node(4), 4)) == (0int, 65536int));
    ratio_add_value(0int, 1int, 0int, 65536int);
    assert(ratio_sum(|i: int| ratio_mul(dp87_weight7(i), ratio_pow(dp87_node(i), 4)), 5) == (0int, 1int));
    assert(dp87_weight7(5) == (-808719846int, 976000145int));
    assert(dp87_node(5) == (3int, 8int));
    assert(ratio_pow(dp87_node(5), 0) == (1int, 1int));
    ratio_mul_value(1int, 1int, 3int, 8int);
    assert(ratio_pow(dp87_node(5), 1) == (3int, 8int));
    ratio_mul_value(3int, 8int, 3int, 8int);
    assert(ratio_pow(dp87_node(5), 2) == (9int, 64int));
    ratio_mul_value(9int, 64int, 3int, 8int);
    assert(ratio_pow(dp87_node(5), 3) == (27int, 512int));
    ratio_mul_value(27int, 512int, 3int, 8int);
    assert(ratio_pow(dp87_node(5), 4) == (81int, 4096int));
    ratio_mul_value(-808719846int, 976000145int, 81int, 4096int);
    assert(ratio_mul(dp87_weight7(5), ratio_pow(dp87_node(5), 4)) == (-65506307526int, 3997696593920int));
    ratio_add_value(0int, 1int, -65506307526int, 3997696593920int);
    assert(ratio_sum(|i: int| ratio_mul(dp87_weight7(i), ratio_pow(dp87_node(i), 4)), 6) == (-65506307526int, 3997696593920int));
    assert(dp87_weight7(6) == (1757004468int, 5645159321int));
    assert(dp87_node(6) == (59int, 400int));
    assert(ratio_pow(dp87_node(6), 0) == (1int, 1int));
    ratio_mul_value(1int, 1int, 59int, 400int);
    assert(ratio_pow(dp87_node(6), 1) == (59int, 400int));
    ratio_mul_value(59int, 400int, 59int, 400int);
    assert(ratio_pow(dp87_node(6), 2) == (3481int, 160000int));
    ratio_mul_value(3481int, 160000int, 59int, 400int);
    assert(ratio_pow(dp87_node(6), 3) == (205379int, 64000000int));
    ratio_mul_value(205379int, 64000000int, 59int, 400int);
    assert(ratio_pow(dp87_node(6), 4) == (12117361int, 25600000000int));
    ratio_mul_value(1757004468int, 5645159321int, 12117361int, 25600000000int);
    assert(ratio_mul(dp87_weight7(6), ratio_pow(dp87_node(6), 4)) == (21290257417368948int, 144516078617600000000int));
    ratio_add_value(-65506307526int, 3997696593920int, 21290257417368948int, 144516078617600000000int);
    assert(ratio_sum(|i: int| ratio_mul(dp87_weight7(i), ratio_pow(dp87_node(i), 4)), 7) == (-9381602698815002696790026403840int, 577731435256254462164992000000000int));
    assert(dp87_weight7(7) == (656045339int, 265891186int));
    assert(dp87_node(7) == (93int, 200int));
    assert(ratio_pow(dp87_node(7), 0) == (1int, 1int));
    ratio_mul_value(1int, 1int, 93int, 200int);
    assert(ratio_pow(dp87_node(7), 1) == (93int, 200int));
    ratio_mul_value(93int, 200int, 93int, 200int);
    assert(ratio_pow(dp87_node(7), 2) == (8649int, 40000int));
    ratio_mul_value(8649int, 40000int, 93int, 200int);
    assert(ratio_pow(dp87_node(7), 3) == (804357int, 8000000int));
    ratio_mul_value(804357int, 8000000int, 93int, 200int);
    assert(ratio_pow(dp87_node(7), 4) == (74805201int, 1600000000int));
    ratio_mul_value(656045339int, 265891186int, 74805201int, 1600000000int);
    assert(ratio_mul(dp87_weight7(7), ratio_pow(dp87_node(7), 4)) == (49075603449008139int, 425425897600000000int));
    ratio_add_value(-9381602698815002696790026403840int, 577731435256254462164992000000000int, 49075603449008139int, 425425897600000000int);
    assert(ratio_sum(|i: int| ratio_mul(dp87_weight7(i), ratio_pow(dp87_node(i), 4)), 8) == (24361342067592308859769154435743636783104000000000int, 245781914415628340580546960896819200000000000000000int));
    assert(dp87_weight7(8) == (-3867574721int, 1518517206int));
    assert(dp87_node(8) == (5490023248int, 9719169821int));
    assert(ratio_pow(dp87_node(8), 0) == (1int, 1int));
    ratio_mul_value(1int, 1int, 5490023248int, 9719169821int);
    assert(ratio_pow(dp87_node(8), 1) == (5490023248int, 9719169821int));
    ratio_mul_value(5490023248int, 9719169821int, 5490023248int, 9719169821int);
    assert(ratio_pow(dp87_node(8), 2) == (30140355263580469504int, 94462262009437172041int));
    ratio_mul_value(30140355263580469504int, 94462262009437172041int, 5490023248int, 9719169821int);
    assert(ratio_pow(dp87_node(8), 3) == (165471251100035945295715028992int, 918094766145516579696472174661int));
    ratio_mul_value(165471251100035945295715028992int, 918094766145516579696472174661int, 5490023248int, 9719169821int);
    assert(ratio_pow(dp87_node(8), 4) == (908441015414842913309131743949074006016int, 8923118943939557235841093700131432105681int));
    ratio_mul_value(-3867574721int, 1518517206int, 908441015414842913309131743949074006016int, 8923118943939557235841093700131432105681int);
    assert(ratio_mul(dp87_weight7(8), ratio_pow(dp87_node(8), 4)) == (-3513463506738017779700392391356083337025683521536int, 13549909647556767086646500665507784113897408847286int));
    ratio_add_value(24361342067592308859769154435743636783104000000000int, 245781914415628340580546960896819200000000000000000int, -3513463506738017779700392391356083337025683521536int, 13549909647556767086646500665507784113897408847286int);
    assert(ratio_sum(|i: int| ratio_mul(dp87_weight7(i), ratio_pow(dp87_node(i), 4)), 9) == (-533451803006417368124862649643389869322646982045157217918429497268820956928611461358944256000000000int, 3330322733335294100038543801275869889601219083695204088202386686207174635055952691200000000000000000int));
    assert(dp87_weight7(9) == (465885868int, 322736535int));
    assert(dp87_node(9) == (13int, 20int));
    assert(ratio_pow(dp87_node(9), 0) == (1int, 1int));
    ratio_mul_value(1int, 1int, 13int, 20int);
    assert(ratio_pow(dp87_node(9), 1) == (13int, 20int));
    ratio_mul_value(13int, 20int, 13int, 20int);
    assert(ratio_pow(dp87_node(9), 2) == (169int, 400int));
    ratio_mul_value(169int, 400int, 13int, 20int);
    assert(ratio_pow(dp87_node(9), 3) == (2197int, 8000int));
    ratio_mul_value(2197int, 8000int, 13int, 20int);
    assert(ratio_pow(dp87_node(9), 4) == (28561int, 160000int));
    ratio_mul_value(465885868int, 322736535int, 28561int, 160000int);
    assert(ratio_mul(dp87_weight7(9), ratio_pow(dp87_node(9), 4)) == (13306166275948int, 51637845600000int));
    ratio_add_value(-533451803006417368124862649643389869322646982045157217918429497268820956928611461358944256000000000int, 3330322733335294100038543801275869889601219083695204088202386686207174635055952691200000000000000000int, 13306166275948int, 51637845600000int);
    assert(ratio_sum(|i: int| ratio_mul(dp87_weight7(i), ratio_pow(dp87_node(i), 4)), 10) == (16767526203642058707951187511991560287222217783539682062426360799681779102617463127630442760922726400000000000000int, 171970691102137889768381278859120452364916796615626426167083625253861733417255632429090078720000000000000000000000int));
    assert(dp87_weight7(10) == (53011238int, 667516719int));
    assert(dp87_node(10) == (1201146811int, 1299019798int));
    assert(ratio_pow(dp87_node(10), 0) == (1int, 1int));
    ratio_mul_value(1int, 1int, 1201146811int, 1299019798int);
    assert(ratio_pow(dp87_node(10), 1) == (1201146811int, 1299019798int));
    ratio_mul_value(1201146811int, 1299019798int, 1201146811int, 1299019798int);
    assert(ratio_pow(dp87_node(10), 2) == (1442753661575469721int, 1687452435595960804int));
    ratio_mul_value(1442753661575469721int, 1687452435595960804int, 1201146811int, 1299019798int);
    assert(ratio_pow(dp87_node(10), 3) == (1732958959659948691206209731int, 2192034122022473013227997592int));
    ratio_mul_value(1732958959659948691206209731int, 2192034122022473013227997592int, 1201146811int, 1299019798int);
    assert(ratio_pow(dp87_node(10), 4) == (2081538127989425014865962561787817841int, 2847495722398740245103884759904326416int));
    ratio_mul_value(53011238int, 667516719int, 2081538127989425014865962561787817841int, 2847495722398740245103884759904326416int);
    assert(ratio_mul(dp87_weight7(10), ratio_pow(dp87_node(10), 4)) == (110344913108921870946213079462023717069897158int, 1900751001982141898145000969085438723113349104int));
    ratio_add_value(16767526203642058707951187511991560287222217783539682062426360799681779102617463127630442760922726400000000000000int, 171970691102137889768381278859120452364916796615626426167083625253861733417255632429090078720000000000000000000000int, 110344913108921870946213079462023717069897158int, 1900751001982141898145000969085438723113349104int);
    assert(ratio_sum(|i: int| ratio_mul(dp87_weight7(i), ratio_pow(dp87_node(i), 4)), 11) == (50846983199281111930933799446235526013733114614021846317566278814175198641944448158153792903169081904127395044492795252132697243892542210677145600000000000000int, 326873463423950008201639709720068735667269572763608357632446319562620964683954213894018221149489007607289843184717908132596978518201466880000000000000000000000int));
    assert(dp87_weight7(11) == (2int, 45int));
    assert(dp87_node(11) == (1int, 1int));
    assert(ratio_pow(dp87_node(11), 0) == (1int, 1int));
    ratio_mul_value(1int, 1int, 1int, 1int);
    assert(ratio_pow(dp87_node(11), 1) == (1int, 1int));
    ratio_mul_value(1int, 1int, 1int, 1int);
    assert(ratio_pow(dp87_node(11), 2) == (1int, 1int));
    ratio_mul_value(1int, 1int, 1int, 1int);
    assert(ratio_pow(dp87_node(11), 3) == (1int, 1int));
    ratio_mul_value(1int, 1int, 1int, 1int);
    assert(ratio_pow(dp87_node(11), 4) == (1int, 1int));
    ratio_mul_value(2int, 45int, 1int, 1int);
    assert(ratio_mul(dp87_weight7(11), ratio_pow(dp87_node(11), 4)) == (2int, 45int));
    ratio_add_value(50846983199281111930933799446235526013733114614021846317566278814175198641944448158153792903169081904127395044492795252132697243892542210677145600000000000000int, 326873463423950008201639709720068735667269572763608357632446319562620964683954213894018221149489007607289843184717908132596978518201466880000000000000000000000int, 2int, 45int);
    assert(ratio_sum(|i: int| ratio_mul(dp87_weight7(i), ratio_pow(dp87_node(i), 4)), 12) == (2941861170815550053295300394520736141952529303158199799555375185763125868255408594904957122941586700900312463371611602611165333011567333240471552000000000000000int, 14709305854077750369073786937403093105027130774362376093460084380317943410777939625230819951727005342328042943312305865966864033319066009600000000000000000000000int));
    assert(dp87_weight7(12) == (0int, 1int));
    assert(dp87_node(12) == (1int, 1int));
    assert(ratio_pow(dp87_node(12), 0) == (1int, 1int));
    ratio_mul_value(1int, 1int, 1int, 1int);
    assert(ratio_pow(dp87_node(12), 1) == (1int, 1int));
    ratio_mul_value(1int, 1int, 1int, 1int);
    assert(ratio_pow(dp87_node(12), 2) == (1int, 1int));
    ratio_mul_value(1int, 1int, 1int, 1int);
    assert(ratio_pow(dp87_node(12), 3) == (1int, 1int));
    ratio_mul_value(1int, 1int, 1int, 1int);
    assert(ratio_pow(dp87_node(12), 4) == (1int, 1int));
    ratio_mul_value(0int, 1int, 1int, 1int);
    assert(ratio_mul(dp87_weight7(12), ratio_pow(dp87_node(12), 4)) == (0int, 1int));
    ratio_add_value(2941861170815550053295300394520736141952529303158199799555375185763125868255408594904957122941586700900312463371611602611165333011567333240471552000000000000000int, 14709305854077750369073786937403093105027130774362376093460084380317943410777939625230819951727005342328042943312305865966864033319066009600000000000000000000000int, 0int, 1int);
    assert(ratio_sum(|i: int| ratio_mul(dp87_weight7(i), ratio_pow(dp87_node(i), 4)), 13) == (2941861170815550053295300394520736141952529303158199799555375185763125868255408594904957122941586700900312463371611602611165333011567333240471552000000000000000int, 14709305854077750369073786937403093105027130774362376093460084380317943410777939625230819951727005342328042943312305865966864033319066009600000000000000000000000int));
    assert(within_1e14((2941861170815550053295300394520736141952529303158199799555375185763125868255408594904957122941586700900312463371611602611165333011567333240471552000000000000000int, 14709305854077750369073786937403093105027130774362376093460084380317943410777939625230819951727005342328042943312305865966864033319066009600000000000000000000000int), (1int, 5int))) by (nonlinear_arith);
}

/// The moment of degree 5 of the order-8 weights, exactly, stage by stage.
#[verifier::spinoff_prover]
proof fn quadrature_condition_8_5()
    ensures
        within_1e14(weight8_moment(5), (1, 6)),
{
    assert(ratio_sum(|i: int| ratio_mul(dp87_weight8(i), ratio_pow(dp87_node(i), 5)), 0) == (0int, 1int));
    assert(dp87_weight8(0) == (14005451int, 335480064int));
    assert(dp87_node(0) == (0int, 1int));
    assert(ratio_pow(dp87_node(0), 0) == (1int, 1int));
    ratio_mul_value(1int, 1int, 0int, 1int);
    assert(ratio_pow(dp87_node(0), 1) == (0int, 1int));
    ratio_mul_value(0int, 1int, 0int, 1int);
    assert(ratio_pow(dp87_node(0), 2) == (0int, 1int));
    ratio_mul_value(0int, 1int, 0int, 1int);
    assert(ratio_pow(dp87_node(0), 3) == (0int, 1int));
    ratio_mul_value(0int, 1int, 0int, 1int);
    assert(ratio_pow(dp87_node(0), 4) == (0int, 1int));
    ratio_mul_value(0int, 1int, 0int, 1int);
    assert(ratio_pow(dp87_node(0), 5) == (0int, 1int));
    ratio_mul_value(14005451int, 335480064int, 0int, 1int);
    assert(ratio_mul(dp87_weight8(0), ratio_pow(dp87_node(0), 5)) == (0int, 335480064int));
    ratio_add_value(0int, 1int, 0int, 335480064int);
    assert(ratio_sum(|i: int| ratio_mul(dp87_weight8(i), ratio_pow(dp87_node(i), 5)), 1) == (0int, 1int));
    assert(dp87_weight8(1) == (0int, 1int));
    assert(dp87_node(1) == (1int, 18int));
    assert(ratio_pow(dp87_node(1), 0) == (1int, 1int));
    ratio_mul_value(1int, 1int, 1int, 18int);
    assert(ratio_pow(dp87_node(1), 1) == (1int, 18int));
    ratio_mul_value(1int, 18int, 1int, 18int);
    assert(ratio_pow(dp87_node(1), 2) == (1int, 324int));
    ratio_mul_value(1int, 324int, 1int, 18int);
    assert(ratio_pow(dp87_node(1), 3) == (1int, 5832int));
    ratio_mul_value(1int, 5832int, 1int, 18int);
    assert(ratio_pow(dp87_node(1), 4) == (1int, 104976int));
    ratio_mul_value(1int, 104976int, 1int, 18int);
    assert(ratio_pow(dp87_node(1), 5) == (1int, 1889568int));
    ratio_mul_value(0int, 1int, 1int, 1889568int);
    assert(ratio_mul(dp87_weight8(1), ratio_pow(dp87_node(1), 5)) == (0int, 1889568int));
    ratio_add_value(0int, 1int, 0int, 1889568int);
    assert(ratio_sum(|i: int| ratio_mul(dp87_weight8(i), ratio_pow(dp87_node(i), 5)), 2) == (0int, 1int));
    assert(dp87_weight8(2) == (0int, 1int));
    assert(dp87_node(2) == (1int, 12int));
    assert(ratio_pow(dp87_node(2), 0) == (1int, 1int));
    ratio_mul_value(1int, 1int, 1int, 12int);
    assert(ratio_pow(dp87_node(2), 1) == (1int, 12int));
    ratio_mul_value(1int, 12int, 1int, 12int);
    assert(ratio_pow(dp87_node(2), 2) == (1int, 144int));
    ratio_mul_value(1int, 144int, 1int, 12int);
    assert(ratio_pow(dp87_node(2), 3) == (1int, 1728int));
    ratio_mul_value(1int, 1728int, 1int, 12int);
    assert(ratio_pow(dp87_node(2), 4) == (1int, 20736int));
    ratio_mul_value(1int, 20736int, 1int, 12int);
    assert(ratio_pow(dp87_node(2), 5) == (1int, 248832int));
    ratio_mul_value(0int, 1int, 1int, 248832int);
    assert(ratio_mul(dp87_weight8(2), ratio_pow(dp87_node(2), 5)) == (0int, 248832int));
    ratio_add_value(0int, 1int, 0int, 248832int);
    assert(ratio_sum(|i: int| ratio_mul(dp87_weight8(i), ratio_pow(dp87_node(i), 5)), 3) == (0int, 1int));
    assert(dp87_weight8(3) == (0int, 1int));
    assert(dp87_node(3) == (1int, 8int));
    assert(ratio_pow(dp87_node(3), 0) == (1int, 1int));
    ratio_mul_value(1int, 1int, 1int, 8int);
    assert(ratio_pow(dp87_node(3), 1) == (1int, 8int));
    ratio_mul_value(1int, 8int, 1int, 8int);
    assert(ratio_pow(dp87_node(3), 2) == (1int, 64int));
    ratio_mul_value(1int, 64int, 1int, 8int);
    assert(ratio_pow(dp87_node(3), 3) == (1int, 512int));
    ratio_mul_value(1int, 512int, 1int, 8int);
    assert(ratio_pow(dp87_node(3), 4) == (1int, 4096int));
    ratio_mul_value(1int, 4096int, 1int, 8int);
    assert(ratio_pow(dp87_node(3), 5) == (1int, 32768int));
    ratio_mul_value(0int, 1int, 1int, 32768int);
    assert(ratio_mul(dp87_weight8(3), ratio_pow(dp87_node(3), 5)) == (0int, 32768int));
    ratio_add_value(0int, 1int, 0int, 32768int);
    assert(ratio_sum(|i: int| ratio_mul(dp87_weight8(i), ratio_pow(dp87_node(i), 5)), 4) == (0int, 1int));
    assert(dp87_weight8(4) == (0int, 1int));
    assert(dp87_node(4) == (5int, 16int));
    assert(ratio_pow(dp87_node(4), 0) == (1int, 1int));
    ratio_mul_value(1int, 1int, 5int, 16int);
    assert(ratio_pow(dp87_node(4), 1) == (5int, 16int));
    ratio_mul_value(5int, 16int, 5int, 16int);
    assert(ratio_pow(dp87_node(4), 2) == (25int, 256int));
    ratio_mul_value(25int, 256int, 5int, 16int);
    assert(ratio_pow(dp87_node(4), 3) == (125int, 4096int));
    ratio_mul_value(125int, 4096int, 5int, 16int);
    assert(ratio_pow(dp87_node(4), 4) == (625int, 65536int));
    ratio_mul_value(625int, 65536int, 5int, 16int);
    assert(ratio_pow(dp87_node(4), 5) == (3125int, 1048576int));
    ratio_mul_value(0int, 1int, 3125int, 1048576int);
    assert(ratio_mul(dp87_weight8(4), ratio_pow(dp87_node(4), 5)) == (0int, 1048576int));
    ratio_add_value(0int, 1int, 0int, 1048576int);
    assert(ratio_sum(|i: int| ratio_mul(dp87_weight8(i), ratio_pow(dp87_node(i), 5)), 5) == (0int, 1int));
    assert(dp87_weight8(5) == (-59238493int, 1068277825int));
    assert(dp87_node(5) == (3int, 8int));
    assert(ratio_pow(dp87_node(5), 0) == (1int, 1int));
    ratio_mul_value(1int, 1int, 3int, 8int);
    assert(ratio_pow(dp87_node(5), 1) == (3int, 8int));
    ratio_mul_value(3int, 8int, 3int, 8int);
    assert(ratio_pow(dp87_node(5), 2) == (9int, 64int));
    ratio_mul_value(9int, 64int, 3int, 8int);
    assert(ratio_pow(dp87_node(5), 3) == (27int, 512int));
    ratio_mul_value(27int, 512int, 3int, 8int);
    assert(ratio_pow(dp87_node(5), 4) == (81int, 4096int));
    ratio_mul_value(81int, 4096int, 3int, 8int);
    assert(ratio_pow(dp87_node(5), 5) == (243int, 32768int));
    ratio_mul_value(-59238493int, 1068277825int, 243int, 32768int);
    assert(ratio_mul(dp87_weight8(5), ratio_pow(dp87_node(5), 5)) == (-14394953799int, 35005327769600int));
    ratio_add_value(0int, 1int, -14394953799int, 35005327769600int);
    assert(ratio_sum(|i: int| ratio_mul(dp87_weight8(i), ratio_pow(dp87_node(i), 5)), 6) == (-14394953799int, 35005327769600int));
    assert(dp87_weight8(6) == (181606767int, 758867731int));
    assert(dp87_node(6) == (59int, 400int));
    assert(ratio_pow(dp87_node(6), 0) == (1int, 1int));
    ratio_mul_value(1int, 1int, 59int, 400int);
    assert(ratio_pow(dp87_node(6), 1) == (59int, 400int));
    ratio_mul_value(59int, 400int, 59int, 400int);
    assert(ratio_pow(dp87_node(6), 2) == (3481int, 160000int));
    ratio_mul_value(3481int, 160000int, 59int, 400int);
    assert(ratio_pow(dp87_node(6), 3) == (205379int, 64000000int));
    ratio_mul_value(205379int, 64000000int, 59int, 400int);
    assert(ratio_pow(dp87_node(6), 4) == (12117361int, 25600000000int));
    ratio_mul_value(12117361int, 25600000000int, 59int, 400int);
    assert(ratio_pow(dp87_node(6), 5) == (714924299int, 10240000000000int));
    ratio_mul_value(181606767int, 758867731int, 714924299int, 10240000000000int);
    assert(ratio_mul(dp87_weight8(6), ratio_pow(dp87_node(6), 5)) == (129835090591131333int, 7770805565440000000000int));
    ratio_add_value(-14394953799int, 35005327769600int, 129835090591131333int, 7770805565440000000000int);
    assert(ratio_sum(|i: int| ratio_mul(dp87_weight8(i), ratio_pow(dp87_node(i), 5)), 7) == (-107315467193382609776014435123200int, 272019595852059062042624000000000000int));
    assert(dp87_weight8(7) == (561292985int, 797845732int));
    assert(dp87_node(7) == (93int, 200int));
    assert(ratio_pow(dp87_node(7), 0) == (1int, 1int));
    ratio_mul_value(1int, 1int, 93int, 200int);
    assert(ratio_pow(dp87_node(7), 1) == (93int, 200int));
    ratio_mul_value(93int, 200int, 93int, 200int);
    assert(ratio_pow(dp87_node(7), 2) == (8649int, 40000int));
    ratio_mul_value(8649int, 40000int, 93int, 200int);
    assert(ratio_pow(dp87_node(7), 3) == (804357int, 8000000int));
    ratio_mul_value(804357int, 8000000int, 93int, 200int);
    assert(ratio_pow(dp87_node(7), 4) == (74805201int, 1600000000int));
    ratio_mul_value(74805201int, 1600000000int, 93int, 200int);
    assert(ratio_pow(dp87_node(7), 5) == (6956883693int, 320000000000int));
    ratio_mul_value(561292985int, 797845732int, 6956883693int, 320000000000int);
    assert(ratio_mul(dp87_weight8(7), ratio_pow(dp87_node(7), 5)) == (3904850014341793605int, 255310634240000000000int));
    ratio_add_value(-107315467193382609776014435123200int, 272019595852059062042624000000000000int, 3904850014341793605int, 255310634240000000000int);
    assert(ratio_sum(|i: int| ratio_mul(dp87_weight8(i), ratio_pow(dp87_node(i), 5)), 8) == (1034796942771257301809984838714503596081152000000000000int, 69449495542697672340041843353845760000000000000000000000int));
    assert(dp87_weight8(8) == (-1041891430int, 1371343529int));
    assert(dp87_node(8) == (5490023248int, 9719169821int));
    assert(ratio_pow(dp87_node(8), 0) == (1int, 1int));
    ratio_mul_value(1int, 1int, 5490023248int, 9719169821int);
    assert(ratio_pow(dp87_node(8), 1) == (5490023248int, 9719169821int));
    ratio_mul_value(5490023248int, 9719169821int, 5490023248int, 9719169821int);
    assert(ratio_pow(dp87_node(8), 2) == (30140355263580469504int, 94462262009437172041int));
    ratio_mul_value(30140355263580469504int, 94462262009437172041int, 5490023248int, 9719169821int);
    assert(ratio_pow(dp87_node(8), 3) == (165471251100035945295715028992int, 918094766145516579696472174661int));
    ratio_mul_value(165471251100035945295715028992int, 918094766145516579696472174661int, 5490023248int, 9719169821int);
    assert(ratio_pow(dp87_node(8), 4) == (908441015414842913309131743949074006016int, 8923118943939557235841093700131432105681int));
    ratio_mul_value(908441015414842913309131743949074006016int, 8923118943939557235841093700131432105681int, 5490023248int, 9719169821int);
    assert(ratio_pow(dp87_node(8), 5) == (4987362294064213958335181884975199621100331859968int, 86725308349130735534688937441950638655045257853101int));
    ratio_mul_value(-1041891430int, 1371343529int, 4987362294064213958335181884975199621100331859968int, 86725308349130735534688937441950638655045257853101int);
    assert(ratio_mul(dp87_weight8(8), ratio_pow(dp87_node(8), 5)) == (-5196290032490644392875803073446906247763682935056619274240int, 118930190405110106950506029388904821457013577558986488933429int));
    ratio_add_value(1034796942771257301809984838714503596081152000000000000int, 69449495542697672340041843353845760000000000000000000000int, -5196290032490644392875803073446906247763682935056619274240int, 118930190405110106950506029388904821457013577558986488933429int);
    assert(ratio_sum(|i: int| ratio_mul(dp87_weight8(i), ratio_pow(dp87_node(i), 5)), 9) == (-237811124015611893144969682860983284786771963040459246337815743876328894640370518790183125739390369792000000000000int, 8259641728431879850919866857002740820795060097510308575431347197283164867988820476027773911040000000000000000000000int));
    assert(dp87_weight8(9) == (760417239int, 1151165299int));
    assert(dp87_node(9) == (13int, 20int));
    assert(ratio_pow(dp87_node(9), 0) == (1int, 1int));
    ratio_mul_value(1int, 1int, 13int, 20int);
    assert(ratio_pow(dp87_node(9), 1) == (13int, 20int));
    ratio_mul_value(13int, 20int, 13int, 20int);
    assert(ratio_pow(dp87_node(9), 2) == (169int, 400int));
    ratio_mul_value(169int, 400int, 13int, 20int);
    assert(ratio_pow(dp87_node(9), 3) == (2197int, 8000int));
    ratio_mul_value(2197int, 8000int, 13int, 20int);
    assert(ratio_pow(dp87_node(9), 4) == (28561int, 160000int));
    ratio_mul_value(28561int, 160000int, 13int, 20int);
    assert(ratio_pow(dp87_node(9), 5) == (371293int, 3200000int));
    ratio_mul_value(760417239int, 1151165299int, 371293int, 3200000int);
    assert(ratio_mul(dp87_weight8(9), ratio_pow(dp87_node(9), 5)) == (282337597920027int, 3683728956800000int));
    ratio_add_value(-237811124015611893144969682860983284786771963040459246337815743876328894640370518790183125739390369792000000000000int, 8259641728431879850919866857002740820795060097510308575431347197283164867988820476027773911040000000000000000000000int, 282337597920027int, 3683728956800000int);
    assert(ratio_sum(|i: int| ratio_mul(dp87_weight8(i), ratio_pow(dp87_node(i), 5)), 10) == (1455975681500011509736838330555232015514932732684743866542980263301824737990354917718792243539802403350547687014400000000000000000int, 30426281407818117663091980657541601218528162479594955285819810721066516713358867366220270997141635203072000000000000000000000000000int));
    assert(dp87_weight8(10) == (118820643int, 751138087int));
    assert(dp87_node(10) == (1201146811int, 1299019798int));
    assert(ratio_pow(dp87_node(10), 0) == (1int, 1int));
    ratio_mul_value(1int, 1int, 1201146811int, 1299019798int);
    assert(ratio_pow(dp87_node(10), 1) == (1201146811int, 1299019798int));
    ratio_mul_value(1201146811int, 1299019798int, 1201146811int, 1299019798int);
    assert(ratio_pow(dp87_node(10), 2) == (1442753661575469721int, 1687452435595960804int));
    ratio_mul_value(1442753661575469721int, 1687452435595960804int, 1201146811int, 1299019798int);
    assert(ratio_pow(dp87_node(10), 3) == (1732958959659948691206209731int, 2192034122022473013227997592int));
    ratio_mul_value(1732958959659948691206209731int, 2192034122022473013227997592int, 1201146811int, 1299019798int);
    assert(ratio_pow(dp87_node(10), 4) == (2081538127989425014865962561787817841int, 2847495722398740245103884759904326416int));
    ratio_mul_value(2081538127989425014865962561787817841int, 2847495722398740245103884759904326416int, 1201146811int, 1299019798int);
    assert(ratio_pow(dp87_node(10), 5) == (2500232884409407698329878523536827858366055051int, 3698953318116275628649318869826196600238383968int));
    ratio_mul_value(118820643int, 751138087int, 2500232884409407698329878523536827858366055051int, 3698953318116275628649318869826196600238383968int);
    assert(ratio_mul(dp87_weight8(10), ratio_pow(dp87_node(10), 5)) == (297079278975270497964706192278536520311367590533217793int, 2778424719272161719268371769734251336788963477694989216int));
    ratio_add_value(1455975681500011509736838330555232015514932732684743866542980263301824737990354917718792243539802403350547687014400000000000000000int, 30426281407818117663091980657541601218528162479594955285819810721066516713358867366220270997141635203072000000000000000000000000000int, 297079278975270497964706192278536520311367590533217793int, 2778424719272161719268371769734251336788963477694989216int);
    assert(ratio_sum(|i: int| ratio_mul(dp87_weight8(i), ratio_pow(dp87_node(i), 5)), 11) == (13084336566672048392614793446217368083494696161508518010841483363135948375736755276212659171877569853008668771617775681676856693923336278078107209212260343333551236710400000000000000000int, 84537132379012847030080346959963331371972219323349358179457428948539951640111456996701760467437248121704205787115956914205558014732779899084289492085010071552000000000000000000000000000int));
    assert(dp87_weight8(11) == (-528747749int, 2220607170int));
    assert(dp87_node(11) == (1int, 1int));
    assert(ratio_pow(dp87_node(11), 0) == (1int, 1int));
    ratio_mul_value(1int, 1int, 1int, 1int);
    assert(ratio_pow(dp87_node(11), 1) == (1int, 1int));
    ratio_mul_value(1int, 1int, 1int, 1int);
    assert(ratio_pow(dp87_node(11), 2) == (1int, 1int));
    ratio_mul_value(1int, 1int, 1int, 1int);
    assert(ratio_pow(dp87_node(11), 3) == (1int, 1int));
    ratio_mul_value(1int, 1int, 1int, 1int);
    assert(ratio_pow(dp87_node(11), 4) == (1int, 1int));
    ratio_mul_value(1int, 1int, 1int, 1int);
    assert(ratio_pow(dp87_node(11), 5) == (1int, 1int));
    ratio_mul_value(-528747749int, 2220607170int, 1int, 1int);
    assert(ratio_mul(dp87_weight8(11), ratio_pow(dp87_node(11), 5)) == (-528747749int, 2220607170int));
    ratio_add_value(13084336566672048392614793446217368083494696161508518010841483363135948375736755276212659171877569853008668771617775681676856693923336278078107209212260343333551236710400000000000000000int, 84537132379012847030080346959963331371972219323349358179457428948539951640111456996701760467437248121704205787115956914205558014732779899084289492085010071552000000000000000000000000000int, -528747749int, 2220607170int);
    assert(ratio_sum(|i: int| ratio_mul(dp87_weight8(i), ratio_pow(dp87_node(i), 5)), 12) == (-15643646857672924010008933369480307640733911704537983167034117908252535618366898197223194869657038765338680907360810242183909325990210238731906541398867021662303358646518546432000000000000000000int, 187723762292075085637109624135382276581687447270242133188201313432893377643484761006022595645613704704125391990025187545095936981366576677938449680479631614410584227840000000000000000000000000000int));
    assert(dp87_weight8(12) == (1int, 4int));
    assert(dp87_node(12) == (1int, 1int));
    assert(ratio_pow(dp87_node(12), 0) == (1int, 1int));
    ratio_mul_value(1int, 1int, 1int, 1int);
    assert(ratio_pow(dp87_node(12), 1) == (1int, 1int));
    ratio_mul_value(1int, 1int, 1int, 1int);
    assert(ratio_pow(dp87_node(12), 2) == (1int, 1int));
    ratio_mul_value(1int, 1int, 1int, 1int);
    assert(ratio_pow(dp87_node(12), 3) == (1int, 1int));
    ratio_mul_value(1int, 1int, 1int, 1int);
    assert(ratio_pow(dp87_node(12), 4) == (1int, 1int));
    ratio_mul_value(1int, 1int, 1int, 1int);
    assert(ratio_pow(dp87_node(12), 5) == (1int, 1int));
    ratio_mul_value(1int, 4int, 1int, 1int);
    assert(ratio_mul(dp87_weight8(12), ratio_pow(dp87_node(12), 5)) == (1int, 4int));
    ratio_add_value(-15643646857672924010008933369480307640733911704537983167034117908252535618366898197223194869657038765338680907360810242183909325990210238731906541398867021662303358646518546432000000000000000000int, 187723762292075085637109624135382276581687447270242133188201313432893377643484761006022595645613704704125391990025187545095936981366576677938449680479631614410584227840000000000000000000000000000int, 1int, 4int);
    assert(ratio_sum(|i: int| ratio_mul(dp87_weight8(i), ratio_pow(dp87_node(i), 5)), 13) == (125149174861383389597073890657461046018751800452090200520064841799883235170017168217129816166985549642770668360581946576360299677405735723010823514884163527761370793253925814272000000000000000000int, 750895049168300342548438496541529106326749789080968532752805253731573510573939044024090382582454818816501567960100750180383747925466306711753798721918526457642336911360000000000000000000000000000int));
    assert(within_1e14((125149174861383389597073890657461046018751800452090200520064841799883235170017168217129816166985549642770668360581946576360299677405735723010823514884163527761370793253925814272000000000000000000int, 750895049168300342548438496541529106326749789080968532752805253731573510573939044024090382582454818816501567960100750180383747925466306711753798721918526457642336911360000000000000000000000000000int), (1int, 6int))) by (nonlinear_arith);
}

/// The moment of degree 5 of the order-7 weights, exactly, stage by stage.
#[verifier::spinoff_prover]
proof fn quadrature_condition_7_5()
    ensures
        within_1e14(weight7_moment(5), (1, 6)),
{
    assert(ratio_sum(|i: int| ratio_mul(dp87_weight7(i), ratio_pow(dp87_node(i), 5)), 0) == (0int, 1int));
    assert(dp87_weight7(0) == (13451932int, 455176623int));
    assert(dp87_node(0) == (0int, 1int));
    assert(ratio_pow(dp87_node(0), 0) == (1int, 1int));
    ratio_mul_value(1int, 1int, 0int, 1int);
    assert(ratio_pow(dp87_node(0), 1) == (0int, 1int));
    ratio_mul_value(0int, 1int, 0int, 1int);
    assert(ratio_pow(dp87_node(0), 2) == (0int, 1int));
    ratio_mul_value(0int, 1int, 0int, 1int);
    assert(ratio_pow(dp87_node(0), 3) == (0int, 1int));
    ratio_mul_value(0int, 1int, 0int, 1int);
    assert(ratio_pow(dp87_node(0), 4) == (0int, 1int));
    ratio_mul_value(0int, 1int, 0int, 1int);
    assert(ratio_pow(dp87_node(0), 5) == (0int, 1int));
    ratio_mul_value(13451932int, 455176623int, 0int, 1int);
    assert(ratio_mul(dp87_weight7(0), ratio_pow(dp87_node(0), 5)) == (0int, 455176623int));
    ratio_add_value(0int, 1int, 0int, 455176623int);
    assert(ratio_sum(|i: int| ratio_mul(dp87_weight7(i), ratio_pow(dp87_node(i), 5)), 1) == (0int, 1int));
    assert(dp87_weight7(1) == (0int, 1int));
    assert(dp87_node(1) == (1int, 18int));
    assert(ratio_pow(dp87_node(1), 0) == (1int, 1int));
    ratio_mul_value(1int, 1int, 1int, 18int);
    assert(ratio_pow(dp87_node(1), 1) == (1int, 18int));
    ratio_mul_value(1int, 18int, 1int, 18int);
    assert(ratio_pow(dp87_node(1), 2) == (1int, 324int));
    ratio_mul_value(1int, 324int, 1int, 18int);
    assert(ratio_pow(dp87_node(1), 3) == (1int, 5832int));
    ratio_mul_value(1int, 5832int, 1int, 18int);
    assert(ratio_pow(dp87_node(1), 4) == (1int, 104976int));
    ratio_mul_value(1int, 104976int, 1int, 18int);
    assert(ratio_pow(dp87_node(1), 5) == (1int, 1889568int));
    ratio_mul_value(0int, 1int, 1int, 1889568int);
    assert(ratio_mul(dp87_weight7(1), ratio_pow(dp87_node(1), 5)) == (0int, 1889568int));
    ratio_add_value(0int, 1int, 0int, 1889568int);
    assert(ratio_sum(|i: int| ratio_mul(dp87_weight7(i), ratio_pow(dp87_node(i), 5)), 2) == (0int, 1int));
    assert(dp87_weight7(2) == (0int, 1int));
    assert(dp87_node(2) == (1int, 12int));
    assert(ratio_pow(dp87_node(2), 0) == (1int, 1int));
    ratio_mul_value(1int, 1int, 1int, 12int);
    assert(ratio_pow(dp87_node(2), 1) == (1int, 12int));
    ratio_mul_value(1int, 12int, 1int, 12int);
    assert(ratio_pow(dp87_node(2), 2) == (1int, 144int));
    ratio_mul_value(1int, 144int, 1int, 12int);
    assert(ratio_pow(dp87_node(2), 3) == (1int, 1728int));
    ratio_mul_value(1int, 1728int, 1int, 12int);
    assert(ratio_pow(dp87_node(2), 4) == (1int, 20736int));
    ratio_mul_value(1int, 20736int, 1int, 12int);
    assert(ratio_pow(dp87_node(2), 5) == (1int, 248832int));
    ratio_mul_value(0int, 1int, 1int, 248832int);
    assert(ratio_mul(dp87_weight7(2), ratio_pow(dp87_node(2), 5)) == (0int, 248832int));
    ratio_add_value(0int, 1int, 0int, 248832int);
    assert(ratio_sum(|i: int| ratio_mul(dp87_weight7(i), ratio_pow(dp87_node(i), 5)), 3) == (0int, 1int));
    assert(dp87_weight7(3) == (0int, 1int));
    assert(dp87_node(3) == (1int, 8int));
    assert(ratio_pow(dp87_node(3), 0) == (1int, 1int));
    ratio_mul_value(1int, 1int, 1int, 8int);
    assert(ratio_pow(dp87_node(3), 1) == (1int, 8int));
    ratio_mul_value(1int, 8int, 1int, 8int);
    assert(ratio_pow(dp87_node(3), 2) == (1int, 64int));
    ratio_mul_value(1int, 64int, 1int, 8int);
    assert(ratio_pow(dp87_node(3), 3) == (1int, 512int));
    ratio_mul_value(1int, 512int, 1int, 8int);
    assert(ratio_pow(dp87_node(3), 4) == (1int, 4096int));
    ratio_mul_value(1int, 4096int, 1int, 8int);
    assert(ratio_pow(dp87_node(3), 5) == (1int, 32768int));
    ratio_mul_value(0int, 1int, 1int, 32768int);
    assert(ratio_mul(dp87_weight7(3), ratio_pow(dp87_node(3), 5)) == (0int, 32768int));
    ratio_add_value(0int, 1int, 0int, 32768int);
    assert(ratio_sum(|i: int| ratio_mul(dp87_weight7(i), ratio_pow(dp87_node(i), 5)), 4) == (0int, 1int));
    assert(dp87_weight7(4) == (0int, 1int));
    assert(dp87_node(4) == (5int, 16int));
    assert(ratio_pow(dp87_node(4), 0) == (1int, 1int));
    ratio_mul_value(1int, 1int, 5int, 16int);
    assert(ratio_pow(dp87_node(4), 1) == (5int, 16int));
    ratio_mul_value(5int, 16int, 5int, 16int);
    assert(ratio_pow(dp87_node(4), 2) == (25int, 256int));
    ratio_mul_value(25int, 256int, 5int, 16int);
    assert(ratio_pow(dp87_node(4), 3) == (125int, 4096int));
    ratio_mul_value(125int, 4096int, 5int, 16int);
    assert(ratio_pow(dp87_node(4), 4) == (625int, 65536int));
    ratio_mul_value(625int, 65536int, 5int, 16int);
    assert(ratio_pow(dp87_node(4), 5) == (3125int, 1048576int));
    ratio_mul_value(0int, 1int, 3125int, 1048576int);
    assert(ratio_mul(dp87_weight7(4), ratio_pow(dp87_node(4), 5)) == (0int, 1048576int));
    ratio_add_value(0int, 1int, 0int, 1048576int);
    assert(ratio_sum(|i: int| ratio_mul(dp87_weight7(i), ratio_pow(dp87_node(i), 5)), 5) == (0int, 1int));
    assert(dp87_weight7(5) == (-808719846int, 976000145int));
    assert(dp87_node(5) == (3int, 8int));
    assert(ratio_pow(dp87_node(5), 0) == (1int, 1int));
    ratio_mul_value(1int, 1int, 3int, 8int);
    assert(ratio_pow(dp87_node(5), 1) == (3int, 8int));
    ratio_mul_value(3int, 8int, 3int, 8int);
    assert(ratio_pow(dp87_node(5), 2) == (9int, 64int));
    ratio_mul_value(9int, 64int, 3int, 8int);
    assert(ratio_pow(dp87_node(5), 3) == (27int, 512int));
    ratio_mul_value(27int, 512int, 3int, 8int);
    assert(ratio_pow(dp87_node(5), 4) == (81int, 4096int));
    ratio_mul_value(81int, 4096int, 3int, 8int);
    assert(ratio_pow(dp87_node(5), 5) == (243int, 32768int));
    ratio_mul_value(-808719846int, 976000145int, 243int, 32768int);
    assert(ratio_mul(dp87_weight7(5), ratio_pow(dp87_node(5), 5)) == (-196518922578int, 31981572751360int));
    ratio_add_value(0int, 1int, -196518922578int, 31981572751360int);
    assert(ratio_sum(|i: int| ratio_mul(dp87_weight7(i), ratio_pow(dp87_node(i), 5)), 6) == (-196518922578int, 31981572751360int));
    assert(dp87_weight7(6) == (1757004468int, 5645159321int));
    assert(dp87_node(6) == (59int, 400int));
    assert(ratio_pow(dp87_node(6), 0) == (1int, 1int));
    ratio_mul_value(1int, 1int, 59int, 400int);
    assert(ratio_pow(dp87_node(6), 1) == (59int, 400int));
    ratio_mul_value(59int, 400int, 59int, 400int);
    assert(ratio_pow(dp87_node(6), 2) == (3481int, 160000int));
    ratio_mul_value(3481int, 160000int, 59int, 400int);
    assert(ratio_pow(dp87_node(6), 3) == (205379int, 64000000int));
    ratio_mul_value(205379int, 64000000int, 59int, 400int);
    assert(ratio_pow(dp87_node(6), 4) == (12117361int, 25600000000int));
    ratio_mul_value(12117361int, 25600000000int, 59int, 400int);
    assert(ratio_pow(dp87_node(6), 5) == (714924299int, 10240000000000int));
    ratio_mul_value(1757004468int, 5645159321int, 714924299int, 10240000000000int);
    assert(ratio_mul(dp87_weight7(6), ratio_pow(dp87_node(6), 5)) == (1256125187624767932int, 57806431447040000000000int));
    ratio_add_value(-196518922578int, 31981572751360int, 1256125187624767932int, 57806431447040000000000int);
    assert(ratio_sum(|i: int| ratio_mul(dp87_weight7(i), ratio_pow(dp87_node(i), 5)), 7) == (-11319884766978481021694825262612480int, 1848740592820014278927974400000000000int));
    assert(dp87_weight7(7) == (656045339int, 265891186int));
    assert(dp87_node(7) == (93int, 200int));
    assert(ratio_pow(dp87_node(7), 0) == (1int, 1int));
    ratio_mul_value(1int, 1int, 93int, 200int);
    assert(ratio_pow(dp87_node(7), 1) == (93int, 200int));
    ratio_mul_value(93int, 200int, 93int, 200int);
    assert(ratio_pow(dp87_node(7), 2) == (8649int, 40000int));
    ratio_mul_value(8649int, 40000int, 93int, 200int);
    assert(ratio_pow(dp87_node(7), 3) == (804357int, 8000000int));
    ratio_mul_value(804357int, 8000000int, 93int, 200int);
    assert(ratio_pow(dp87_node(7), 4) == (74805201int, 1600000000int));
    ratio_mul_value(74805201int, 1600000000int, 93int, 200int);
    assert(ratio_pow(dp87_node(7), 5) == (6956883693int, 320000000000int));
    ratio_mul_value(656045339int, 265891186int, 6956883693int, 320000000000int);
    assert(ratio_mul(dp87_weight7(7), ratio_pow(dp87_node(7), 5)) == (4564031120757756927int, 85085179520000000000int));
    ratio_add_value(-11319884766978481021694825262612480int, 1848740592820014278927974400000000000int, 4564031120757756927int, 85085179520000000000int);
    assert(ratio_sum(|i: int| ratio_mul(dp87_weight7(i), ratio_pow(dp87_node(i), 5)), 8) == (7474555172294612292599270462135496730686259200000000000int, 157300425226002137971550054973964288000000000000000000000int));
    assert(dp87_weight7(8) == (-3867574721int, 1518517206int));
    assert(dp87_node(8) == (5490023248int, 9719169821int));
    assert(ratio_pow(dp87_node(8), 0) == (1int, 1int));
    ratio_mul_value(1int, 1int, 5490023248int, 9719169821int);
    assert(ratio_pow(dp87_node(8), 1) == (5490023248int, 9719169821int));
    ratio_mul_value(5490023248int, 9719169821int, 5490023248int, 9719169821int);
    assert(ratio_pow(dp87_node(8), 2) == (30140355263580469504int, 94462262009437172041int));
    ratio_mul_value(30140355263580469504int, 94462262009437172041int, 5490023248int, 9719169821int);
    assert(ratio_pow(dp87_node(8), 3) == (165471251100035945295715028992int, 918094766145516579696472174661int));
    ratio_mul_value(165471251100035945295715028992int, 918094766145516579696472174661int, 5490023248int, 9719169821int);
    assert(ratio_pow(dp87_node(8), 4) == (908441015414842913309131743949074006016int, 8923118943939557235841093700131432105681int));
    ratio_mul_value(908441015414842913309131743949074006016int, 8923118943939557235841093700131432105681int, 5490023248int, 9719169821int);
    assert(ratio_pow(dp87_node(8), 5) == (4987362294064213958335181884975199621100331859968int, 86725308349130735534688937441950638655045257853101int));
    ratio_mul_value(-3867574721int, 1518517206int, 4987362294064213958335181884975199621100331859968int, 86725308349130735534688937441950638655045257853101int);
    assert(ratio_mul(dp87_weight7(8), ratio_pow(dp87_node(8), 5)) == (-19288996332991322255992496703267211766496421706323148668928int, 131693872923810477052860761363459671000374922758640488955806int));
    ratio_add_value(7474555172294612292599270462135496730686259200000000000int, 157300425226002137971550054973964288000000000000000000000int, -19288996332991322255992496703267211766496421706323148668928int, 131693872923810477052860761363459671000374922758640488955806int);
    assert(ratio_sum(|i: int| ratio_mul(dp87_weight7(i), ratio_pow(dp87_node(i), 5)), 9) == (-2049814206340153925734397892904584055008227774424326235082596740801577485093214494468716000711199739084800000000000int, 20715502210574477498402540704094115792982252955558208471355173645284459946696002587337454256128000000000000000000000int));
    assert(dp87_weight7(9) == (465885868int, 322736535int));
    assert(dp87_node(9) == (13int, 20int));
    assert(ratio_pow(dp87_node(9), 0) == (1int, 1int));
    ratio_mul_value(1int, 1int, 13int, 20int);
    assert(ratio_pow(dp87_node(9), 1) == (13int, 20int));
    ratio_mul_value(13int, 20int, 13int, 20int);
    assert(ratio_pow(dp87_node(9), 2) == (169int, 400int));
    ratio_mul_value(169int, 400int, 13int, 20int);
    assert(ratio_pow(dp87_node(9), 3) == (2197int, 8000int));
    ratio_mul_value(2197int, 8000int, 13int, 20int);
    assert(ratio_pow(dp87_node(9), 4) == (28561int, 160000int));
    ratio_mul_value(28561int, 160000int, 13int, 20int);
    assert(ratio_pow(dp87_node(9), 5) == (371293int, 3200000int));
    ratio_mul_value(465885868int, 322736535int, 371293int, 3200000int);
    assert(ratio_mul(dp87_weight7(9), ratio_pow(dp87_node(9), 5)) == (172980161587324int, 1032756912000000int));
    ratio_add_value(-2049814206340153925734397892904584055008227774424326235082596740801577485093214494468716000711199739084800000000000int, 20715502210574477498402540704094115792982252955558208471355173645284459946696002587337454256128000000000000000000000int, 172980161587324int, 1032756912000000int);
    assert(ratio_sum(|i: int| ratio_mul(dp87_weight7(i), ratio_pow(dp87_node(i), 5)), 10) == (1466411129834152450541859056019582386219349799485593740892362382602967210186981865886180204661051213781697717862400000000000000000int, 21394078093522071127263692870514544783730782833185168617129009589127762216137448234842639559500010356736000000000000000000000000000int));
    assert(dp87_weight7(10) == (53011238int, 667516719int));
    assert(dp87_node(10) == (1201146811int, 1299019798int));
    assert(ratio_pow(dp87_node(10), 0) == (1int, 1int));
    ratio_mul_value(1int, 1int, 1201146811int, 1299019798int);
    assert(ratio_pow(dp87_node(10), 1) == (1201146811int, 1299019798int));
    ratio_mul_value(1201146811int, 1299019798int, 1201146811int, 1299019798int);
    assert(ratio_pow(dp87_node(10), 2) == (1442753661575469721int, 1687452435595960804int));
    ratio_mul_value(1442753661575469721int, 1687452435595960804int, 1201146811int, 1299019798int);
    assert(ratio_pow(dp87_node(10), 3) == (1732958959659948691206209731int, 2192034122022473013227997592int));
    ratio_mul_value(1732958959659948691206209731int, 2192034122022473013227997592int, 1201146811int, 1299019798int);
    assert(ratio_pow(dp87_node(10), 4) == (2081538127989425014865962561787817841int, 2847495722398740245103884759904326416int));
    ratio_mul_value(2081538127989425014865962561787817841int, 2847495722398740245103884759904326416int, 1201146811int, 1299019798int);
    assert(ratio_pow(dp87_node(10), 5) == (2500232884409407698329878523536827858366055051int, 3698953318116275628649318869826196600238383968int));
    ratio_mul_value(53011238int, 667516719int, 2500232884409407698329878523536827858366055051int, 3698953318116275628649318869826196600238383968int);
    assert(ratio_mul(dp87_weight7(10), ratio_pow(dp87_node(10), 5)) == (132540440490853600935197392922299383364873235429663138int, 2469113182643139568135655733571170854840080684181560992int));
    ratio_add_value(1466411129834152450541859056019582386219349799485593740892362382602967210186981865886180204661051213781697717862400000000000000000int, 21394078093522071127263692870514544783730782833185168617129009589127762216137448234842639559500010356736000000000000000000000000000int, 132540440490853600935197392922299383364873235429663138int, 2469113182643139568135655733571170854840080684181560992int);
    assert(ratio_sum(|i: int| ratio_mul(dp87_weight7(i), ratio_pow(dp87_node(i), 5)), 11) == (6456315586259263037994320232620461969633552902084376466820356632468265475114465747512026617912604275500022168718201980400204626124917553723780911997382316548833463500800000000000000000int, 52824400251212152773996661437696179086705956839006314302199973925779914044869273915262925710354071910067440968455003215155649079330651773359127791803262042112000000000000000000000000000int));
    assert(dp87_weight7(11) == (2int, 45int));
    assert(dp87_node(11) == (1int, 1int));
    assert(ratio_pow(dp87_node(11), 0) == (1int, 1int));
    ratio_mul_value(1int, 1int, 1int, 1int);
    assert(ratio_pow(dp87_node(11), 1) == (1int, 1int));
    ratio_mul_value(1int, 1int, 1int, 1int);
    assert(ratio_pow(dp87_node(11), 2) == (1int, 1int));
    ratio_mul_value(1int, 1int, 1int, 1int);
    assert(ratio_pow(dp87_node(11), 3) == (1int, 1int));
    ratio_mul_value(1int, 1int, 1int, 1int);
    assert(ratio_pow(dp87_node(11), 4) == (1int, 1int));
    ratio_mul_value(1int, 1int, 1int, 1int);
    assert(ratio_pow(dp87_node(11), 5) == (1int, 1int));
    ratio_mul_value(2int, 45int, 1int, 1int);
    assert(ratio_mul(dp87_weight7(11), ratio_pow(dp87_node(11), 5)) == (2int, 45int));
    ratio_add_value(6456315586259263037994320232620461969633552902084376466820356632468265475114465747512026617912604275500022168718201980400204626124917553723780911997382316548833463500800000000000000000int, 52824400251212152773996661437696179086705956839006314302199973925779914044869273915262925710354071910067440968455003215155649079330651773359127791803262042112000000000000000000000000000int, 2int, 45int);
    assert(ratio_sum(|i: int| ratio_mul(dp87_weight7(i), ratio_pow(dp87_node(i), 5)), 12) == (396183001884091142257737733343313146806921794271809569611315996312631774469889506468567049226775336217635879529229095548320506334282593464288396623488728328921505857536000000000000000000int, 2377098011304546874829849764696328058901768057755284143598998826660096132019117326186831656965933235953034843580475144682004208569879329801160750631146791895040000000000000000000000000000int));
    assert(dp87_weight7(12) == (0int, 1int));
    assert(dp87_node(12) == (1int, 1int));
    assert(ratio_pow(dp87_node(12), 0) == (1int, 1int));
    ratio_mul_value(1int, 1int, 1int, 1int);
    assert(ratio_pow(dp87_node(12), 1) == (1int, 1int));
    ratio_mul_value(1int, 1int, 1int, 1int);
    assert(ratio_pow(dp87_node(12), 2) == (1int, 1int));
    ratio_mul_value(1int, 1int, 1int, 1int);
    assert(ratio_pow(dp87_node(12), 3) == (1int, 1int));
    ratio_mul_value(1int, 1int, 1int, 1int);
    assert(ratio_pow(dp87_node(12), 4) == (1int, 1int));
    ratio_mul_value(1int, 1int, 1int, 1int);
    assert(ratio_pow(dp87_node(12), 5) == (1int, 1int));
    ratio_mul_value(0int, 1int, 1int, 1int);
    assert(ratio_mul(dp87_weight7(12), ratio_pow(dp87_node(12), 5)) == (0int, 1int));
    ratio_add_value(396183001884091142257737733343313146806921794271809569611315996312631774469889506468567049226775336217635879529229095548320506334282593464288396623488728328921505857536000000000000000000int, 2377098011304546874829849764696328058901768057755284143598998826660096132019117326186831656965933235953034843580475144682004208569879329801160750631146791895040000000000000000000000000000int, 0int, 1int);
    assert(ratio_sum(|i: int| ratio_mul(dp87_weight7(i), ratio_pow(dp87_node(i), 5)), 13) == (396183001884091142257737733343313146806921794271809569611315996312631774469889506468567049226775336217635879529229095548320506334282593464288396623488728328921505857536000000000000000000int, 2377098011304546874829849764696328058901768057755284143598998826660096132019117326186831656965933235953034843580475144682004208569879329801160750631146791895040000000000000000000000000000int));
    assert(within_1e14((396183001884091142257737733343313146806921794271809569611315996312631774469889506468567049226775336217635879529229095548320506334282593464288396623488728328921505857536000000000000000000int, 2377098011304546874829849764696328058901768057755284143598998826660096132019117326186831656965933235953034843580475144682004208569879329801160750631146791895040000000000000000000000000000int), (1int, 6int))) by (nonlinear_arith);
}

/// The moment of degree 6 of the order-8 weights, exactly, stage by stage.
#[verifier::spinoff_prover]
proof fn quadrature_condition_8_6()
    ensures
        within_1e14(weight8_moment(6), (1, 7)),
{
    assert(ratio_sum(|i: int| ratio_mul(dp87_weight8(i), ratio_pow(dp87_node(i), 6)), 0) == (0int, 1int));
    assert(dp87_weight8(0) == (14005451int, 335480064int));
    assert(dp87_node(0) == (0int, 1int));
    assert(ratio_pow(dp87_node(0), 0) == (1int, 1int));
    ratio_mul_value(1int, 1int, 0int, 1int);
    assert(ratio_pow(dp87_node(0), 1) == (0int, 1int));
    ratio_mul_value(0int, 1int, 0int, 1int);
    assert(ratio_pow(dp87_node(0), 2) == (0int, 1int));
    ratio_mul_value(0int, 1int, 0int, 1int);
    assert(ratio_pow(dp87_node(0), 3) == (0int, 1int));
    ratio_mul_value(0int, 1int, 0int, 1int);
    assert(ratio_pow(dp87_node(0), 4) == (0int, 1int));
    ratio_mul_value(0int, 1int, 0int, 1int);
    assert(ratio_pow(dp87_node(0), 5) == (0int, 1int));
    ratio_mul_value(0int, 1int, 0int, 1int);
    assert(ratio_pow(dp87_node(0), 6) == (0int, 1int));
    ratio_mul_value(14005451int, 335480064int, 0int, 1int);
    assert(ratio_mul(dp87_weight8(0), ratio_pow(dp87_node(0), 6)) == (0int, 335480064int));
    ratio_add_value(0int, 1int, 0int, 335480064int);
    assert(ratio_sum(|i: int| ratio_mul(dp87_weight8(i), ratio_pow(dp87_node(i), 6)), 1) == (0int, 1int));
    assert(dp87_weight8(1) == (0int, 1int));
    assert(dp87_node(1) == (1int, 18int));
    assert(ratio_pow(dp87_node(1), 0) == (1int, 1int));
    ratio_mul_value(1int, 1int, 1int, 18int);
    assert(ratio_pow(dp87_node(1), 1) == (1int, 18int));
    ratio_mul_value(1int, 18int, 1int, 18int);
    assert(ratio_pow(dp87_node(1), 2) == (1int, 324int));
    ratio_mul_value(1int, 324int, 1int, 18int);
    assert(ratio_pow(dp87_node(1), 3) == (1int, 5832int));
    ratio_mul_value(1int, 5832int, 1int, 18int);
    assert(ratio_pow(dp87_node(1), 4) == (1int, 104976int));
    ratio_mul_value(1int, 104976int, 1int, 18int);
    assert(ratio_pow(dp87_node(1), 5) == (1int, 1889568int));
    ratio_mul_value(1int, 1889568int, 1int, 18int);
    assert(ratio_pow(dp87_node(1), 6) == (1int, 34012224int));
    ratio_mul_value(0int, 1int, 1int, 34012224int);
    assert(ratio_mul(dp87_weight8(1), ratio_pow(dp87_node(1), 6)) == (0int, 34012224int));
    ratio_add_value(0int, 1int, 0int, 34012224int);
    assert(ratio_sum(|i: int| ratio_mul(dp87_weight8(i), ratio_pow(dp87_node(i), 6)), 2) == (0int, 1int));
    assert(dp87_weight8(2) == (0int, 1int));
    assert(dp87_node(2) == (1int, 12int));
    assert(ratio_pow(dp87_node(2), 0) == (1int, 1int));
    ratio_mul_value(1int, 1int, 1int, 12int);
    assert(ratio_pow(dp87_node(2), 1) == (1int, 12int));
    ratio_mul_value(1int, 12int, 1int, 12int);
    assert(ratio_pow(dp87_node(2), 2) == (1int, 144int));
    ratio_mul_value(1int, 144int, 1int, 12int);
    assert(ratio_pow(dp87_node(2), 3) == (1int, 1728int));
    ratio_mul_value(1int, 1728int, 1int, 12int);
    assert(ratio_pow(dp87_node(2), 4) == (1int, 20736int));
    ratio_mul_value(1int, 20736int, 1int, 12int);
    assert(ratio_pow(dp87_node(2), 5) == (1int, 248832int));
    ratio_mul_value(1int, 248832int, 1int, 12int);
    assert(ratio_pow(dp87_node(2), 6) == (1int, 2985984int));
    ratio_mul_value(0int, 1int, 1int, 2985984int);
    assert(ratio_mul(dp87_weight8(2), ratio_pow(dp87_node(2), 6)) == (0int, 2985984int));
    ratio_add_value(0int, 1int, 0int, 2985984int);
    assert(ratio_sum(|i: int| ratio_mul(dp87_weight8(i), ratio_pow(dp87_node(i), 6)), 3) == (0int, 1int));
    assert(dp87_weight8(3) == (0int, 1int));
    assert(dp87_node(3) == (1int, 8int));
    assert(ratio_pow(dp87_node(3), 0) == (1int, 1int));
    ratio_mul_value(1int, 1int, 1int, 8int);
    assert(ratio_pow(dp87_node(3), 1) == (1int, 8int));
    ratio_mul_value(1int, 8int, 1int, 8int);
    assert(ratio_pow(dp87_node(3), 2) == (1int, 64int));
    ratio_mul_value(1int, 64int, 1int, 8int);
    assert(ratio_pow(dp87_node(3), 3) == (1int, 512int));
    ratio_mul_value(1int, 512int, 1int, 8int);
    assert(ratio_pow(dp87_node(3), 4) == (1int, 4096int));
    ratio_mul_value(1int, 4096int, 1int, 8int);
    assert(ratio_pow(dp87_node(3), 5) == (1int, 32768int));
    ratio_mul_value(1int, 32768int, 1int, 8int);
    assert(ratio_pow(dp87_node(3), 6) == (1int, 262144int));
    ratio_mul_value(0int, 1int, 1int, 262144int);
    assert(ratio_mul(dp87_weight8(3), ratio_pow(dp87_node(3), 6)) == (0int, 262144int));
    ratio_add_value(0int, 1int, 0int, 262144int);
    assert(ratio_sum(|i: int| ratio_mul(dp87_weight8(i), ratio_pow(dp87_node(i), 6)), 4) == (0int, 1int));
    assert(dp87_weight8(4) == (0int, 1int));
    assert(dp87_node(4) == (5int, 16int));
    assert(ratio_pow(dp87_node(4), 0) == (1int, 1int));
    ratio_mul_value(1int, 1int, 5int, 16int);
    assert(ratio_pow(dp87_node(4), 1) == (5int, 16int));
    ratio_mul_value(5int, 16int, 5int, 16int);
    assert(ratio_pow(dp87_node(4), 2) == (25int, 256int));
    ratio_mul_value(25int, 256int, 5int, 16int);
    assert(ratio_pow(dp87_node(4), 3) == (125int, 4096int));
    ratio_mul_value(125int, 4096int, 5int, 16int);
    assert(ratio_pow(dp87_node(4), 4) == (625int, 65536int));
    ratio_mul_value(625int, 65536int, 5int, 16int);
    assert(ratio_pow(dp87_node(4), 5) == (3125int, 1048576int));
    ratio_mul_value(3125int, 1048576int, 5int, 16int);
    assert(ratio_pow(dp87_node(4), 6) == (15625int, 16777216int));
    ratio_mul_value(0int, 1int, 15625int, 16777216int);
    assert(ratio_mul(dp87_weight8(4), ratio_pow(dp87_node(4), 6)) == (0int, 16777216int));
    ratio_add_value(0int, 1int, 0int, 16777216int);
    assert(ratio_sum(|i: int| ratio_mul(dp87_weight8(i), ratio_pow(dp87_node(i), 6)), 5) == (0int, 1int));
    assert(dp87_weight8(5) == (-59238493int, 1068277825int));
    assert(dp87_node(5) == (3int, 8int));
    assert(ratio_pow(dp87_node(5), 0) == (1int, 1int));
    ratio_mul_value(1int, 1int, 3int, 8int);
    assert(ratio_pow(dp87_node(5), 1) == (3int, 8int));
    ratio_mul_value(3int, 8int, 3int, 8int);
    assert(ratio_pow(dp87_node(5), 2) == (9int, 64int));
    ratio_mul_value(9int, 64int, 3int, 8int);
    assert(ratio_pow(dp87_node(5), 3) == (27int, 512int));
    ratio_mul_value(27int, 512int, 3int, 8int);
    assert(ratio_pow(dp87_node(5), 4) == (81int, 4096int));
    ratio_mul_value(81int, 4096int, 3int, 8int);
    assert(ratio_pow(dp87_node(5), 5) == (243int, 32768int));
    ratio_mul_value(243int, 32768int, 3int, 8int);
    assert(ratio_pow(dp87_node(5), 6) == (729int, 262144int));
    ratio_mul_value(-59238493int, 1068277825int, 729int, 262144int);
    assert(ratio_mul(dp87_weight8(5), ratio_pow(dp87_node(5), 6)) == (-43184861397int, 280042622156800int));
    ratio_add_value(0int, 1int, -43184861397int, 280042622156800int);
    assert(ratio_sum(|i: int| ratio_mul(dp87_weight8(i), ratio_pow(dp87_node(i), 6)), 6) == (-43184861397int, 280042622156800int));
    assert(dp87_weight8(6) == (181606767int, 758867731int));
    assert(dp87_node(6) == (59int, 400int));
    assert(ratio_pow(dp87_node(6), 0) == (1int, 1int));
    ratio_mul_value(1int, 1int, 59int, 400int);
    assert(ratio_pow(dp87_node(6), 1) == (59int, 400int));
    ratio_mul_value(59int, 400int, 59int, 400int);
    assert(ratio_pow(dp87_node(6), 2) == (3481int, 160000int));
    ratio_mul_value(3481int, 160000int, 59int, 400int);
    assert(ratio_pow(dp87_node(6), 3) == (205379int, 64000000int));
    ratio_mul_value(205379int, 64000000int, 59int, 400int);
    assert(ratio_pow(dp87_node(6), 4) == (12117361int, 25600000000int));
    ratio_mul_value(12117361int, 25600000000int, 59int, 400int);
    assert(ratio_pow(dp87_node(6), 5) == (714924299int, 10240000000000int));
    ratio_mul_value(714924299int, 10240000000000int, 59int, 400int);
    assert(ratio_pow(dp87_node(6), 6) == (42180533641int, 4096000000000000int));
    ratio_mul_value(181606767int, 758867731int, 42180533641int, 4096000000000000int);
    assert(ratio_mul(dp87_weight8(6), ratio_pow(dp87_node(6), 6)) == (7660270344876748647int, 3108322226176000000000000int));
    ratio_add_value(-43184861397int, 280042622156800int, 7660270344876748647int, 3108322226176000000000000int);
    assert(ratio_sum(|i: int| ratio_mul(dp87_weight8(i), ratio_pow(dp87_node(i), 6)), 7) == (-132087262320815785979854493378150400int, 870462706726588998536396800000000000000int));
    assert(dp87_weight8(7) == (561292985int, 797845732int));
    assert(dp87_node(7) == (93int, 200int));
    assert(ratio_pow(dp87_node(7), 0) == (1int, 1int));
    ratio_mul_value(1int, 1int, 93int, 200int);
    assert(ratio_pow(dp87_node(7), 1) == (93int, 200int));
    ratio_mul_value(93int, 200int, 93int, 200int);
    assert(ratio_pow(dp87_node(7), 2) == (8649int, 40000int));
    ratio_mul_value(8649int, 40000int, 93int, 200int);
    assert(ratio_pow(dp87_node(7), 3) == (804357int, 8000000int));
    ratio_mul_value(804357int, 8000000int, 93int, 200int);
    assert(ratio_pow(dp87_node(7), 4) == (74805201int, 1600000000int));
    ratio_mul_value(74805201int, 1600000000int, 93int, 200int);
    assert(ratio_pow(dp87_node(7), 5) == (6956883693int, 320000000000int));
    ratio_mul_value(6956883693int, 320000000000int, 93int, 200int);
    assert(ratio_pow(dp87_node(7), 6) == (646990183449int, 64000000000000int));
    ratio_mul_value(561292985int, 797845732int, 646990183449int, 64000000000000int);
    assert(ratio_mul(dp87_weight8(7), ratio_pow(dp87_node(7), 6)) == (363151051333786805265int, 51062126848000000000000int));
    ratio_add_value(-132087262320815785979854493378150400int, 870462706726588998536396800000000000000int, 363151051333786805265int, 51062126848000000000000int);
    assert(ratio_sum(|i: int| ratio_mul(dp87_weight8(i), ratio_pow(dp87_node(i), 6)), 8) == (309364790550983983909578577211738556939947212800000000000000int, 44447677147326510297626779746461286400000000000000000000000000int));
    assert(dp87_weight8(8) == (-1041891430int, 1371343529int));
    assert(dp87_node(8) == (5490023248int, 9719169821int));
    assert(ratio_pow(dp87_node(8), 0) == (1int, 1int));
    ratio_mul_value(1int, 1int, 5490023248int, 9719169821int);
    assert(ratio_pow(dp87_node(8), 1) == (5490023248int, 9719169821int));
    ratio_mul_value(5490023248int, 9719169821int, 5490023248int, 9719169821int);
    assert(ratio_pow(dp87_node(8), 2) == (30140355263580469504int, 94462262009437172041int));
    ratio_mul_value(30140355263580469504int, 94462262009437172041int, 5490023248int, 9719169821int);
    assert(ratio_pow(dp87_node(8), 3) == (165471251100035945295715028992int, 918094766145516579696472174661int));
    ratio_mul_value(165471251100035945295715028992int, 918094766145516579696472174661int, 5490023248int, 9719169821int);
    assert(ratio_pow(dp87_node(8), 4) == (908441015414842913309131743949074006016int, 8923118943939557235841093700131432105681int));
    ratio_mul_value(908441015414842913309131743949074006016int, 8923118943939557235841093700131432105681int, 5490023248int, 9719169821int);
    assert(ratio_pow(dp87_node(8), 5) == (4987362294064213958335181884975199621100331859968int, 86725308349130735534688937441950638655045257853101int));
    ratio_mul_value(4987362294064213958335181884975199621100331859968int, 86725308349130735534688937441950638655045257853101int, 5490023248int, 9719169821int);
    assert(ratio_pow(dp87_node(8), 6) == (27380734940611147036106251924822307823281613251739400536064int, 842897999623790776392281019408363586587791899515022490464921int));
    ratio_mul_value(-1041891430int, 1371343529int, 27380734940611147036106251924822307823281613251739400536064int, 842897999623790776392281019408363586587791899515022490464921int);
    assert(ratio_mul(dp87_weight8(8), ratio_pow(dp87_node(8), 6)) == (-28527753081724313059389004449893366793899067323561714011862487531520int, 1155902717391129915655440541515182812946399611798544330588533614846209int));
    ratio_add_value(309364790550983983909578577211738556939947212800000000000000int, 44447677147326510297626779746461286400000000000000000000000000int, -28527753081724313059389004449893366793899067323561714011862487531520int, 1155902717391129915655440541515182812946399611798544330588533614846209int);
    assert(ratio_sum(|i: int| ratio_mul(dp87_weight8(i), ratio_pow(dp87_node(i), 6)), 9) == (-910396756652111039613879841081996362644239494301227701898904641369835171334024065672961544298856336679993149803724800000000000000int, 51377190796318338752869343389388263103843915088386245339347105111812780272847611479037436258554308303257600000000000000000000000000int));
    assert(dp87_weight8(9) == (760417239int, 1151165299int));
    assert(dp87_node(9) == (13int, 20int));
    assert(ratio_pow(dp87_node(9), 0) == (1int, 1int));
    ratio_mul_value(1int, 1int, 13int, 20int);
    assert(ratio_pow(dp87_node(9), 1) == (13int, 20int));
    ratio_mul_value(13int, 20int, 13int, 20int);
    assert(ratio_pow(dp87_node(9), 2) == (169int, 400int));
    ratio_mul_value(169int, 400int, 13int, 20int);
    assert(ratio_pow(dp87_node(9), 3) == (2197int, 8000int));
    ratio_mul_value(2197int, 8000int, 13int, 20int);
    assert(ratio_pow(dp87_node(9), 4) == (28561int, 160000int));
    ratio_mul_value(28561int, 160000int, 13int, 20int);
    assert(ratio_pow(dp87_node(9), 5) == (371293int, 3200000int));
    ratio_mul_value(371293int, 3200000int, 13int, 20int);
    assert(ratio_pow(dp87_node(9), 6) == (4826809int, 64000000int));
    ratio_mul_value(760417239int, 1151165299int, 4826809int, 64000000int);
    assert(ratio_mul(dp87_weight8(9), ratio_pow(dp87_node(9), 6)) == (3670388772960351int, 73674579136000000int));
    ratio_add_value(-910396756652111039613879841081996362644239494301227701898904641369835171334024065672961544298856336679993149803724800000000000000int, 51377190796318338752869343389388263103843915088386245339347105111812780272847611479037436258554308303257600000000000000000000000000int, 3670388772960351int, 73674579136000000int);
    assert(ratio_sum(|i: int| ratio_mul(dp87_weight8(i), ratio_pow(dp87_node(i), 6)), 10) == (121501166391925016845167212463289286753775807003541448846317496038669144247072810271735729551637642285816739773856513772434227200000000000000000000int, 3785192909108726305896327986609844052673737507971376866787639470132760808628091023980925602737415144042093937793433600000000000000000000000000000000int));
    assert(dp87_weight8(10) == (118820643int, 751138087int));
    assert(dp87_node(10) == (1201146811int, 1299019798int));
    assert(ratio_pow(dp87_node(10), 0) == (1int, 1int));
    ratio_mul_value(1int, 1int, 1201146811int, 1299019798int);
    assert(ratio_pow(dp87_node(10), 1) == (1201146811int, 1299019798int));
    ratio_mul_value(1201146811int, 1299019798int, 1201146811int, 1299019798int);
    assert(ratio_pow(dp87_node(10), 2) == (1442753661575469721int, 1687452435595960804int));
    ratio_mul_value(1442753661575469721int, 1687452435595960804int, 1201146811int, 1299019798int);
    assert(ratio_pow(dp87_node(10), 3) == (1732958959659948691206209731int, 2192034122022473013227997592int));
    ratio_mul_value(1732958959659948691206209731int, 2192034122022473013227997592int, 1201146811int, 1299019798int);
    assert(ratio_pow(dp87_node(10), 4) == (2081538127989425014865962561787817841int, 2847495722398740245103884759904326416int));
    ratio_mul_value(2081538127989425014865962561787817841int, 2847495722398740245103884759904326416int, 1201146811int, 1299019798int);
    assert(ratio_pow(dp87_node(10), 5) == (2500232884409407698329878523536827858366055051int, 3698953318116275628649318869826196600238383968int));
    ratio_mul_value(2500232884409407698329878523536827858366055051int, 3698953318116275628649318869826196600238383968int, 1201146811int, 1299019798int);
    assert(ratio_pow(dp87_node(10), 6) == (3003146755865691675247783614563649223132346695159092361int, 4805013592110834107640361211119214202749952293957798464int));
    ratio_mul_value(118820643int, 751138087int, 3003146755865691675247783614563649223132346695159092361int, 4805013592110834107640361211119214202749952293957798464int);
    assert(ratio_mul(dp87_weight8(10), ratio_pow(dp87_node(10), 6)) == (356835828555325506492688833407316965119035908417728341630408123int, 3609228717587130223587333004109089685196829305424722396980498368int));
    ratio_add_value(121501166391925016845167212463289286753775807003541448846317496038669144247072810271735729551637642285816739773856513772434227200000000000000000000int, 3785192909108726305896327986609844052673737507971376866787639470132760808628091023980925602737415144042093937793433600000000000000000000000000000000int, 356835828555325506492688833407316965119035908417728341630408123int, 3609228717587130223587333004109089685196829305424722396980498368int);
    assert(ratio_sum(|i: int| ratio_mul(dp87_weight8(i), ratio_pow(dp87_node(i), 6)), 11) == (1789217946925623317511334134197965929524705703418387475406540098007219699443003998253554689833487641637014532724881786738079156207237887457701992492453000267957619418665198049966454356941209600000000000000000000int, 13661626949162387017580547323789170582180947501736595570697518852480757061050034198041613004474653954606922301205062849492574416664868210736235442450705912440108100968060765916364800000000000000000000000000000000int));
    assert(dp87_weight8(11) == (-528747749int, 2220607170int));
    assert(dp87_node(11) == (1int, 1int));
    assert(ratio_pow(dp87_node(11), 0) == (1int, 1int));
    ratio_mul_value(1int, 1int, 1int, 1int);
    assert(ratio_pow(dp87_node(11), 1) == (1int, 1int));
    ratio_mul_value(1int, 1int, 1int, 1int);
    assert(ratio_pow(dp87_node(11), 2) == (1int, 1int));
    ratio_mul_value(1int, 1int, 1int, 1int);
    assert(ratio_pow(dp87_node(11), 3) == (1int, 1int));
    ratio_mul_value(1int, 1int, 1int, 1int);
    assert(ratio_pow(dp87_node(11), 4) == (1int, 1int));
    ratio_mul_value(1int, 1int, 1int, 1int);
    assert(ratio_pow(dp87_node(11), 5) == (1int, 1int));
    ratio_mul_value(1int, 1int, 1int, 1int);
    assert(ratio_pow(dp87_node(11), 6) == (1int, 1int));
    ratio_mul_value(-528747749int, 2220607170int, 1int, 1int);
    assert(ratio_mul(dp87_weight8(11), ratio_pow(dp87_node(11), 6)) == (-528747749int, 2220607170int));
    ratio_add_value(1789217946925623317511334134197965929524705703418387475406540098007219699443003998253554689833487641637014532724881786738079156207237887457701992492453000267957619418665198049966454356941209600000000000000000000int, 13661626949162387017580547323789170582180947501736595570697518852480757061050034198041613004474653954606922301205062849492574416664868210736235442450705912440108100968060765916364800000000000000000000000000000000int, -528747749int, 2220607170int);
    assert(ratio_sum(|i: int| ratio_mul(dp87_weight8(i), ratio_pow(dp87_node(i), 6)), 12) == (-3250404295411630975427682688975752753386919325079633761203721846606928585497681473727012062213731442926813337817004836039735028725194695024216006677802491380659644766307680254268283458333810693767168000000000000000000000int, 30337106757175222105554279439730543763144086259749871575681152265028941416795833668916405796101658654868986193688862203883841611404573835865955402314159920725896244584759677789571295215616000000000000000000000000000000000int));
    assert(dp87_weight8(12) == (1int, 4int));
    assert(dp87_node(12) == (1int, 1int));
    assert(ratio_pow(dp87_node(12), 0) == (1int, 1int));
    ratio_mul_value(1int, 1int, 1int, 1int);
    assert(ratio_pow(dp87_node(12), 1) == (1int, 1int));
    ratio_mul_value(1int, 1int, 1int, 1int);
    assert(ratio_pow(dp87_node(12), 2) == (1int, 1int));
    ratio_mul_value(1int, 1int, 1int, 1int);
    assert(ratio_pow(dp87_node(12), 3) == (1int, 1int));
    ratio_mul_value(1int, 1int, 1int, 1int);
    assert(ratio_pow(dp87_node(12), 4) == (1int, 1int));
    ratio_mul_value(1int, 1int, 1int, 1int);
    assert(ratio_pow(dp87_node(12), 5) == (1int, 1int));
    ratio_mul_value(1int, 1int, 1int, 1int);
    assert(ratio_pow(dp87_node(12), 6) == (1int, 1int));
    ratio_mul_value(1int, 4int, 1int, 1int);
    assert(ratio_mul(dp87_weight8(12), ratio_pow(dp87_node(12), 6)) == (1int, 4int));
    ratio_add_value(-3250404295411630975427682688975752753386919325079633761203721846606928585497681473727012062213731442926813337817004836039735028725194695024216006677802491380659644766307680254268283458333810693767168000000000000000000000int, 30337106757175222105554279439730543763144086259749871575681152265028941416795833668916405796101658654868986193688862203883841611404573835865955402314159920725896244584759677789571295215616000000000000000000000000000000000int, 1int, 4int);
    assert(ratio_sum(|i: int| ratio_mul(dp87_weight8(i), ratio_pow(dp87_node(i), 6)), 13) == (17335489575528698203843548683827532749596408959431336530866264878601227074805107774008357547246732883161732842420842859724901496503795055769091375602949955203257665519528956772498161382280757224931328000000000000000000000int, 121348427028700888422217117758922175052576345038999486302724609060115765667183334675665623184406634619475944774755448815535366445618295343463821609256639682903584978339038711158285180862464000000000000000000000000000000000int));
    assert(within_1e14((17335489575528698203843548683827532749596408959431336530866264878601227074805107774008357547246732883161732842420842859724901496503795055769091375602949955203257665519528956772498161382280757224931328000000000000000000000int, 121348427028700888422217117758922175052576345038999486302724609060115765667183334675665623184406634619475944774755448815535366445618295343463821609256639682903584978339038711158285180862464000000000000000000000000000000000int), (1int, 7int))) by (nonlinear_arith);
}

/// The moment of degree 6 of the order-7 weights, exactly, stage by stage.
#[verifier::spinoff_prover]
proof fn quadrature_condition_7_6()
    ensures
        within_1e14(weight7_moment(6), (1, 7)),
{
    assert(ratio_sum(|i: int| ratio_mul(dp87_weight7(i), ratio_pow(dp87_node(i), 6)), 0) == (0int, 1int));
    assert(dp87_weight7(0) == (13451932int, 455176623int));
    assert(dp87_node(0) == (0int, 1int));
    assert(ratio_pow(dp87_node(0), 0) == (1int, 1int));
    ratio_mul_value(1int, 1int, 0int, 1int);
    assert(ratio_pow(dp87_node(0), 1) == (0int, 1int));
    ratio_mul_value(0int, 1int, 0int, 1int);
    assert(ratio_pow(dp87_node(0), 2) == (0int, 1int));
    ratio_mul_value(0int, 1int, 0int, 1int);
    assert(ratio_pow(dp87_node(0), 3) == (0int, 1int));
    ratio_mul_value(0int, 1int, 0int, 1int);
    assert(ratio_pow(dp87_node(0), 4) == (0int, 1int));
    ratio_mul_value(0int, 1int, 0int, 1int);
    assert(ratio_pow(dp87_node(0), 5) == (0int, 1int));
    ratio_mul_value(0int, 1int, 0int, 1int);
    assert(ratio_pow(dp87_node(0), 6) == (0int, 1int));
    ratio_mul_value(13451932int, 455176623int, 0int, 1int);
    assert(ratio_mul(dp87_weight7(0), ratio_pow(dp87_node(0), 6)) == (0int, 455176623int));
    ratio_add_value(0int, 1int, 0int, 455176623int);
    assert(ratio_sum(|i: int| ratio_mul(dp87_weight7(i), ratio_pow(dp87_node(i), 6)), 1) == (0int, 1int));
    assert(dp87_weight7(1) == (0int, 1int));
    assert(dp87_node(1) == (1int, 18int));
    assert(ratio_pow(dp87_node(1), 0) == (1int, 1int));
    ratio_mul_value(1int, 1int, 1int, 18int);
    assert(ratio_pow(dp87_node(1), 1) == (1int, 18int));
    ratio_mul_value(1int, 18int, 1int, 18int);
    assert(ratio_pow(dp87_node(1), 2) == (1int, 324int));
    ratio_mul_value(1int, 324int, 1int, 18int);
    assert(ratio_pow(dp87_node(1), 3) == (1int, 5832int));
    ratio_mul_value(1int, 5832int, 1int, 18int);
    assert(ratio_pow(dp87_node(1), 4) == (1int, 104976int));
    ratio_mul_value(1int, 104976int, 1int, 18int);
    assert(ratio_pow(dp87_node(1), 5) == (1int, 1889568int));
    ratio_mul_value(1int, 1889568int, 1int, 18int);
    assert(ratio_pow(dp87_node(1), 6) == (1int, 34012224int));
    ratio_mul_value(0int, 1int, 1int, 34012224int);
    assert(ratio_mul(dp87_weight7(1), ratio_pow(dp87_node(1), 6)) == (0int, 34012224int));
    ratio_add_value(0int, 1int, 0int, 34012224int);
    assert(ratio_sum(|i: int| ratio_mul(dp87_weight7(i), ratio_pow(dp87_node(i), 6)), 2) == (0int, 1int));
    assert(dp87_weight7(2) == (0int, 1int));
    assert(dp87_node(2) == (1int, 12int));
    assert(ratio_pow(dp87_node(2), 0) == (1int, 1int));
    ratio_mul_value(1int, 1int, 1int, 12int);
    assert(ratio_pow(dp87_node(2), 1) == (1int, 12int));
    ratio_mul_value(1int, 12int, 1int, 12int);
    assert(ratio_pow(dp87_node(2), 2) == (1int, 144int));
    ratio_mul_value(1int, 144int, 1int, 12int);
    assert(ratio_pow(dp87_node(2), 3) == (1int, 1728int));
    ratio_mul_value(1int, 1728int, 1int, 12int);
    assert(ratio_pow(dp87_node(2), 4) == (1int, 20736int));
    ratio_mul_value(1int, 20736int, 1int, 12int);
    assert(ratio_pow(dp87_node(2), 5) == (1int, 248832int));
    ratio_mul_value(1int, 248832int, 1int, 12int);
    assert(ratio_pow(dp87_node(2), 6) == (1int, 2985984int));
    ratio_mul_value(0int, 1int, 1int, 2985984int);
    assert(ratio_mul(dp87_weight7(2), ratio_pow(dp87_node(2), 6)) == (0int, 2985984int));
    ratio_add_value(0int, 1int, 0int, 2985984int);
    assert(ratio_sum(|i: int| ratio_mul(dp87_weight7(i), ratio_pow(dp87_node(i), 6)), 3) == (0int, 1int));
    assert(dp87_weight7(3) == (0int, 1int));
    assert(dp87_node(3) == (1int, 8int));
    assert(ratio_pow(dp87_node(3), 0) == (1int, 1int));
    ratio_mul_value(1int, 1int, 1int, 8int);
    assert(ratio_pow(dp87_node(3), 1) == (1int, 8int));
    ratio_mul_value(1int, 8int, 1int, 8int);
    assert(ratio_pow(dp87_node(3), 2) == (1int, 64int));
    ratio_mul_value(1int, 64int, 1int, 8int);
    assert(ratio_pow(dp87_node(3), 3) == (1int, 512int));
    ratio_mul_value(1int, 512int, 1int, 8int);
    assert(ratio_pow(dp87_node(3), 4) == (1int, 4096int));
    ratio_mul_value(1int, 4096int, 1int, 8int);
    assert(ratio_pow(dp87_node(3), 5) == (1int, 32768int));
    ratio_mul_value(1int, 32768int, 1int, 8int);
    assert(ratio_pow(dp87_node(3), 6) == (1int, 262144int));
    ratio_mul_value(0int, 1int, 1int, 262144int);
    assert(ratio_mul(dp87_weight7(3), ratio_pow(dp87_node(3), 6)) == (0int, 262144int));
    ratio_add_value(0int, 1int, 0int, 262144int);
    assert(ratio_sum(|i: int| ratio_mul(dp87_weight7(i), ratio_pow(dp87_node(i), 6)), 4) == (0int, 1int));
    assert(dp87_weight7(4) == (0int, 1int));
    assert(dp87_node(4) == (5int, 16int));
    assert(ratio_pow(dp87_node(4), 0) == (1int, 1int));
    ratio_mul_value(1int, 1int, 5int, 16int);
    assert(ratio_pow(dp87_node(4), 1) == (5int, 16int));
    ratio_mul_value(5int, 16int, 5int, 16int);
    assert(ratio_pow(dp87_node(4), 2) == (25int, 256int));
    ratio_mul_value(25int, 256int, 5int, 16int);
    assert(ratio_pow(dp87_node(4), 3) == (125int, 4096int));
    ratio_mul_value(125int, 4096int, 5int, 16int);
    assert(ratio_pow(dp87_node(4), 4) == (625int, 65536int));
    ratio_mul_value(625int, 65536int, 5int, 16int);
    assert(ratio_pow(dp87_node(4), 5) == (3125int, 1048576int));
    ratio_mul_value(3125int, 1048576int, 5int, 16int);
    assert(ratio_pow(dp87_node(4), 6) == (15625int, 16777216int));
    ratio_mul_value(0int, 1int, 15625int, 16777216int);
    assert(ratio_mul(dp87_weight7(4), ratio_pow(dp87_node(4), 6)) == (0int, 16777216int));
    ratio_add_value(0int, 1int, 0int, 16777216int);
    assert(ratio_sum(|i: int| ratio_mul(dp87_weight7(i), ratio_pow(dp87_node(i), 6)), 5) == (0int, 1int));
    assert(dp87_weight7(5) == (-808719846int, 976000145int));
    assert(dp87_node(5) == (3int, 8int));
    assert(ratio_pow(dp87_node(5), 0) == (1int, 1int));
    ratio_mul_value(1int, 1int, 3int, 8int);
    assert(ratio_pow(dp87_node(5), 1) == (3int, 8int));
    ratio_mul_value(3int, 8int, 3int, 8int);
    assert(ratio_pow(dp87_node(5), 2) == (9int, 64int));
    ratio_mul_value(9int, 64int, 3int, 8int);
    assert(ratio_pow(dp87_node(5), 3) == (27int, 512int));
    ratio_mul_value(27int, 512int, 3int, 8int);
    assert(ratio_pow(dp87_node(5), 4) == (81int, 4096int));
    ratio_mul_value(81int, 4096int, 3int, 8int);
    assert(ratio_pow(dp87_node(5), 5) == (243int, 32768int));
    ratio_mul_value(243int, 32768int, 3int, 8int);
    assert(ratio_pow(dp87_node(5), 6) == (729int, 262144int));
    ratio_mul_value(-808719846int, 976000145int, 729int, 262144int);
    assert(ratio_mul(dp87_weight7(5), ratio_pow(dp87_node(5), 6)) == (-589556767734int, 255852582010880int));
    ratio_add_value(0int, 1int, -589556767734int, 255852582010880int);
    assert(ratio_sum(|i: int| ratio_mul(dp87_weight7(i), ratio_pow(dp87_node(i), 6)), 6) == (-589556767734int, 255852582010880int));
    assert(dp87_weight7(6) == (1757004468int, 5645159321int));
    assert(dp87_node(6) == (59int, 400int));
    assert(ratio_pow(dp87_node(6), 0) == (1int, 1int));
    ratio_mul_value(1int, 1int, 59int, 400int);
    assert(ratio_pow(dp87_node(6), 1) == (59int, 400int));
    ratio_mul_value(59int, 400int, 59int, 400int);
    assert(ratio_pow(dp87_node(6), 2) == (3481int, 160000int));
    ratio_mul_value(3481int, 160000int, 59int, 400int);
    assert(ratio_pow(dp87_node(6), 3) == (205379int, 64000000int));
    ratio_mul_value(205379int, 64000000int, 59int, 400int);
    assert(ratio_pow(dp87_node(6), 4) == (12117361int, 25600000000int));
    ratio_mul_value(12117361int, 25600000000int, 59int, 400int);
    assert(ratio_pow(dp87_node(6), 5) == (714924299int, 10240000000000int));
    ratio_mul_value(714924299int, 10240000000000int, 59int, 400int);
    assert(ratio_pow(dp87_node(6), 6) == (42180533641int, 4096000000000000int));
    ratio_mul_value(1757004468int, 5645159321int, 42180533641int, 4096000000000000int);
    assert(ratio_mul(dp87_weight7(6), ratio_pow(dp87_node(6), 6)) == (74111386069861307988int, 23122572578816000000000000int));
    ratio_add_value(-589556767734int, 255852582010880int, 74111386069861307988int, 23122572578816000000000000int);
    assert(ratio_sum(|i: int| ratio_mul(dp87_weight7(i), ratio_pow(dp87_node(i), 6)), 7) == (-13613107561779202740811876883953090560int, 5915969897024045692569518080000000000000int));
    assert(dp87_weight7(7) == (656045339int, 265891186int));
    assert(dp87_node(7) == (93int, 200int));
    assert(ratio_pow(dp87_node(7), 0) == (1int, 1int));
    ratio_mul_value(1int, 1int, 93int, 200int);
    assert(ratio_pow(dp87_node(7), 1) == (93int, 200int));
    ratio_mul_value(93int, 200int, 93int, 200int);
    assert(ratio_pow(dp87_node(7), 2) == (8649int, 40000int));
    ratio_mul_value(8649int, 40000int, 93int, 200int);
    assert(ratio_pow(dp87_node(7), 3) == (804357int, 8000000int));
    ratio_mul_value(804357int, 8000000int, 93int, 200int);
    assert(ratio_pow(dp87_node(7), 4) == (74805201int, 1600000000int));
    ratio_mul_value(74805201int, 1600000000int, 93int, 200int);
    assert(ratio_pow(dp87_node(7), 5) == (6956883693int, 320000000000int));
    ratio_mul_value(6956883693int, 320000000000int, 93int, 200int);
    assert(ratio_pow(dp87_node(7), 6) == (646990183449int, 64000000000000int));
    ratio_mul_value(656045339int, 265891186int, 646990183449int, 64000000000000int);
    assert(ratio_mul(dp87_weight7(7), ratio_pow(dp87_node(7), 6)) == (424454894230471394211int, 17017035904000000000000int));
    ratio_add_value(-13613107561779202740811876883953090560int, 5915969897024045692569518080000000000000int, 424454894230471394211int, 17017035904000000000000int);
    assert(ratio_sum(|i: int| ratio_mul(dp87_weight7(i), ratio_pow(dp87_node(i), 6)), 8) == (2279407636768183469007298379791892051426688368640000000000000int, 100672272144641368301792035183337144320000000000000000000000000int));
    assert(dp87_weight7(8) == (-3867574721int, 1518517206int));
    assert(dp87_node(8) == (5490023248int, 9719169821int));
    assert(ratio_pow(dp87_node(8), 0) == (1int, 1int));
    ratio_mul_value(1int, 1int, 5490023248int, 9719169821int);
    assert(ratio_pow(dp87_node(8), 1) == (5490023248int, 9719169821int));
    ratio_mul_value(5490023248int, 9719169821int, 5490023248int, 9719169821int);
    assert(ratio_pow(dp87_node(8), 2) == (30140355263580469504int, 94462262009437172041int));
    ratio_mul_value(30140355263580469504int, 94462262009437172041int, 5490023248int, 9719169821int);
    assert(ratio_pow(dp87_node(8), 3) == (165471251100035945295715028992int, 918094766145516579696472174661int));
    ratio_mul_value(165471251100035945295715028992int, 918094766145516579696472174661int, 5490023248int, 9719169821int);
    assert(ratio_pow(dp87_node(8), 4) == (908441015414842913309131743949074006016int, 8923118943939557235841093700131432105681int));
    ratio_mul_value(908441015414842913309131743949074006016int, 8923118943939557235841093700131432105681int, 5490023248int, 9719169821int);
    assert(ratio_pow(dp87_node(8), 5) == (4987362294064213958335181884975199621100331859968int, 86725308349130735534688937441950638655045257853101int));
    ratio_mul_value(4987362294064213958335181884975199621100331859968int, 86725308349130735534688937441950638655045257853101int, 5490023248int, 9719169821int);
    assert(ratio_pow(dp87_node(8), 6) == (27380734940611147036106251924822307823281613251739400536064int, 842897999623790776392281019408363586587791899515022490464921int));
    ratio_mul_value(-3867574721int, 1518517206int, 27380734940611147036106251924822307823281613251739400536064int, 842897999623790776392281019408363586587791899515022490464921int);
    assert(ratio_mul(dp87_weight7(8), ratio_pow(dp87_node(8), 6)) == (-105897038298709108567658614214500350154204502676525914792974975238144int, 1279955115331707820895777333558820046537432828960984707247953477930726int));
    ratio_add_value(2279407636768183469007298379791892051426688368640000000000000int, 100672272144641368301792035183337144320000000000000000000000000int, -105897038298709108567658614214500350154204502676525914792974975238144int, 1279955115331707820895777333558820046537432828960984707247953477930726int);
    assert(ratio_sum(|i: int| ratio_mul(dp87_weight7(i), ratio_pow(dp87_node(i), 6)), 9) == (-7743355994311557304693516006319020267909165832838712151311840908074781174788945213695803610196115795406178280129167360000000000000int, 128855989703599519216203231565411597669652861769119612149517917865896500527495076485240385375441447624376320000000000000000000000000int));
    assert(dp87_weight7(9) == (465885868int, 322736535int));
    assert(dp87_node(9) == (13int, 20int));
    assert(ratio_pow(dp87_node(9), 0) == (1int, 1int));
    ratio_mul_value(1int, 1int, 13int, 20int);
    assert(ratio_pow(dp87_node(9), 1) == (13int, 20int));
    ratio_mul_value(13int, 20int, 13int, 20int);
    assert(ratio_pow(dp87_node(9), 2) == (169int, 400int));
    ratio_mul_value(169int, 400int, 13int, 20int);
    assert(ratio_pow(dp87_node(9), 3) == (2197int, 8000int));
    ratio_mul_value(2197int, 8000int, 13int, 20int);
    assert(ratio_pow(dp87_node(9), 4) == (28561int, 160000int));
    ratio_mul_value(28561int, 160000int, 13int, 20int);
    assert(ratio_pow(dp87_node(9), 5) == (371293int, 3200000int));
    ratio_mul_value(371293int, 3200000int, 13int, 20int);
    assert(ratio_pow(dp87_node(9), 6) == (4826809int, 64000000int));
    ratio_mul_value(465885868int, 322736535int, 4826809int, 64000000int);
    assert(ratio_mul(dp87_weight7(9), ratio_pow(dp87_node(9), 6)) == (2248742100635212int, 20655138240000000int));
    ratio_add_value(-7743355994311557304693516006319020267909165832838712151311840908074781174788945213695803610196115795406178280129167360000000000000int, 128855989703599519216203231565411597669652861769119612149517917865896500527495076485240385375441447624376320000000000000000000000000int, 2248742100635212int, 20655138240000000int);
    assert(ratio_sum(|i: int| ratio_mul(dp87_weight7(i), ratio_pow(dp87_node(i), 6)), 10) == (129823800461463761574711692835380773462112858384266954297464572376931453199266967715478120861830159767822760529293934102944153600000000000000000000int, 2661538280379864695008214195918308152365941712652776552043476142877057999927643725722013479560617401707212483382476800000000000000000000000000000000int));
    assert(dp87_weight7(10) == (53011238int, 667516719int));
    assert(dp87_node(10) == (1201146811int, 1299019798int));
    assert(ratio_pow(dp87_node(10), 0) == (1int, 1int));
    ratio_mul_value(1int, 1int, 1201146811int, 1299019798int);
    assert(ratio_pow(dp87_node(10), 1) == (1201146811int, 1299019798int));
    ratio_mul_value(1201146811int, 1299019798int, 1201146811int, 1299019798int);
    assert(ratio_pow(dp87_node(10), 2) == (1442753661575469721int, 1687452435595960804int));
    ratio_mul_value(1442753661575469721int, 1687452435595960804int, 1201146811int, 1299019798int);
    assert(ratio_pow(dp87_node(10), 3) == (1732958959659948691206209731int, 2192034122022473013227997592int));
    ratio_mul_value(1732958959659948691206209731int, 2192034122022473013227997592int, 1201146811int, 1299019798int);
    assert(ratio_pow(dp87_node(10), 4) == (2081538127989425014865962561787817841int, 2847495722398740245103884759904326416int));
    ratio_mul_value(2081538127989425014865962561787817841int, 2847495722398740245103884759904326416int, 1201146811int, 1299019798int);
    assert(ratio_pow(dp87_node(10), 5) == (2500232884409407698329878523536827858366055051int, 3698953318116275628649318869826196600238383968int));
    ratio_mul_value(2500232884409407698329878523536827858366055051int, 3698953318116275628649318869826196600238383968int, 1201146811int, 1299019798int);
    assert(ratio_pow(dp87_node(10), 6) == (3003146755865691675247783614563649223132346695159092361int, 4805013592110834107640361211119214202749952293957798464int));
    ratio_mul_value(53011238int, 667516719int, 3003146755865691675247783614563649223132346695159092361int, 4805013592110834107640361211119214202749952293957798464int);
    assert(ratio_mul(dp87_weight7(10), ratio_pow(dp87_node(10), 6)) == (159200527424124077431178966164133875115983936155592093012952918int, 3207426907756228267885386747621164182477848932669233155152519616int));
    ratio_add_value(129823800461463761574711692835380773462112858384266954297464572376931453199266967715478120861830159767822760529293934102944153600000000000000000000int, 2661538280379864695008214195918308152365941712652776552043476142877057999927643725722013479560617401707212483382476800000000000000000000000000000000int, 159200527424124077431178966164133875115983936155592093012952918int, 3207426907756228267885386747621164182477848932669233155152519616int);
    assert(ratio_sum(|i: int| ratio_mul(dp87_weight7(i), ratio_pow(dp87_node(i), 6)), 11) == (840118648863245000581312404135837220698249092188501805827473118449630129981880655629907554284790733522216120140844275515491118080849532428399524315350997234211091229239218110345354776517017600000000000000000000int, 8536689496513618687471010699743051090639206241478458859272606637565197159202346999669843242770467427318033919228007422004841937215169173872651672629191297735519412974205742664908800000000000000000000000000000000int));
    assert(dp87_weight7(11) == (2int, 45int));
    assert(dp87_node(11) == (1int, 1int));
    assert(ratio_pow(dp87_node(11), 0) == (1int, 1int));
    ratio_mul_value(1int, 1int, 1int, 1int);
    assert(ratio_pow(dp87_node(11), 1) == (1int, 1int));
    ratio_mul_value(1int, 1int, 1int, 1int);
    assert(ratio_pow(dp87_node(11), 2) == (1int, 1int));
    ratio_mul_value(1int, 1int, 1int, 1int);
    assert(ratio_pow(dp87_node(11), 3) == (1int, 1int));
    ratio_mul_value(1int, 1int, 1int, 1int);
    assert(ratio_pow(dp87_node(11), 4) == (1int, 1int));
    ratio_mul_value(1int, 1int, 1int, 1int);
    assert(ratio_pow(dp87_node(11), 5) == (1int, 1int));
    ratio_mul_value(1int, 1int, 1int, 1int);
    assert(ratio_pow(dp87_node(11), 6) == (1int, 1int));
    ratio_mul_value(2int, 45int, 1int, 1int);
    assert(ratio_mul(dp87_weight7(11), ratio_pow(dp87_node(11), 6)) == (2int, 45int));
    ratio_add_value(840118648863245000581312404135837220698249092188501805827473118449630129981880655629907554284790733522216120140844275515491118080849532428399524315350997234211091229239218110345354776517017600000000000000000000int, 8536689496513618687471010699743051090639206241478458859272606637565197159202346999669843242770467427318033919228007422004841937215169173872651672629191297735519412974205742664908800000000000000000000000000000000int, 2int, 45int);
    assert(ratio_sum(|i: int| ratio_mul(dp87_weight7(i), ratio_pow(dp87_node(i), 6)), 12) == (54878718191873262401101079585598777112699621631439498980781503605363750167589323502685526428356517863135793244794007242206784188068567307023281939449177471010537931264176300295358564943265792000000000000000000000int, 384151027343112840936195481488437299078764280866530648667267298690433872164105614985142945924671034229311526365260333990217887174682612824269325268313608398098373583839258419920896000000000000000000000000000000000int));
    assert(dp87_weight7(12) == (0int, 1int));
    assert(dp87_node(12) == (1int, 1int));
    assert(ratio_pow(dp87_node(12), 0) == (1int, 1int));
    ratio_mul_value(1int, 1int, 1int, 1int);
    assert(ratio_pow(dp87_node(12), 1) == (1int, 1int));
    ratio_mul_value(1int, 1int, 1int, 1int);
    assert(ratio_pow(dp87_node(12), 2) == (1int, 1int));
    ratio_mul_value(1int, 1int, 1int, 1int);
    assert(ratio_pow(dp87_node(12), 3) == (1int, 1int));
    ratio_mul_value(1int, 1int, 1int, 1int);
    assert(ratio_pow(dp87_node(12), 4) == (1int, 1int));
    ratio_mul_value(1int, 1int, 1int, 1int);
    assert(ratio_pow(dp87_node(12), 5) == (1int, 1int));
    ratio_mul_value(1int, 1int, 1int, 1int);
    assert(ratio_pow(dp87_node(12), 6) == (1int, 1int));
    ratio_mul_value(0int, 1int, 1int, 1int);
    assert(ratio_mul(dp87_weight7(12), ratio_pow(dp87_node(12), 6)) == (0int, 1int));
    ratio_add_value(54878718191873262401101079585598777112699621631439498980781503605363750167589323502685526428356517863135793244794007242206784188068567307023281939449177471010537931264176300295358564943265792000000000000000000000int, 384151027343112840936195481488437299078764280866530648667267298690433872164105614985142945924671034229311526365260333990217887174682612824269325268313608398098373583839258419920896000000000000000000000000000000000int, 0int, 1int);
    assert(ratio_sum(|i: int| ratio_mul(dp87_weight7(i), ratio_pow(dp87_node(i), 6)), 13) == (54878718191873262401101079585598777112699621631439498980781503605363750167589323502685526428356517863135793244794007242206784188068567307023281939449177471010537931264176300295358564943265792000000000000000000000int, 384151027343112840936195481488437299078764280866530648667267298690433872164105614985142945924671034229311526365260333990217887174682612824269325268313608398098373583839258419920896000000000000000000000000000000000int));
    assert(within_1e14((54878718191873262401101079585598777112699621631439498980781503605363750167589323502685526428356517863135793244794007242206784188068567307023281939449177471010537931264176300295358564943265792000000000000000000000int, 384151027343112840936195481488437299078764280866530648667267298690433872164105614985142945924671034229311526365260333990217887174682612824269325268313608398098373583839258419920896000000000000000000000000000000000int), (1int, 7int))) by (nonlinear_arith);
}

/// The moment of degree 7 of the order-8 weights, exactly, stage by stage.
#[verifier::spinoff_prover]
proof fn quadrature_condition_8_7()
    ensures
        within_1e14(weight8_moment(7), (1, 8)),
{
    assert(ratio_sum(|i: int| ratio_mul(dp87_weight8(i), ratio_pow(dp87_node(i), 7)), 0) == (0int, 1int));
    assert(dp87_weight8(0) == (14005451int, 335480064int));
    assert(dp87_node(0) == (0int, 1int));
    assert(ratio_pow(dp87_node(0), 0) == (1int, 1int));
    ratio_mul_value(1int, 1int, 0int, 1int);
    assert(ratio_pow(dp87_node(0), 1) == (0int, 1int));
    ratio_mul_value(0int, 1int, 0int, 1int);
    assert(ratio_pow(dp87_node(0), 2) == (0int, 1int));
    ratio_mul_value(0int, 1int, 0int, 1int);
    assert(ratio_pow(dp87_node(0), 3) == (0int, 1int));
    ratio_mul_value(0int, 1int, 0int, 1int);
    assert(ratio_pow(dp87_node(0), 4) == (0int, 1int));
    ratio_mul_value(0int, 1int, 0int, 1int);
    assert(ratio_pow(dp87_node(0), 5) == (0int, 1int));
    ratio_mul_value(0int, 1int, 0int, 1int);
    assert(ratio_pow(dp87_node(0), 6) == (0int, 1int));
    ratio_mul_value(0int, 1int, 0int, 1int);
    assert(ratio_pow(dp87_node(0), 7) == (0int, 1int));
    ratio_mul_value(14005451int, 335480064int, 0int, 1int);
    assert(ratio_mul(dp87_weight8(0), ratio_pow(dp87_node(0), 7)) == (0int, 335480064int));
    ratio_add_value(0int, 1int, 0int, 335480064int);
    assert(ratio_sum(|i: int| ratio_mul(dp87_weight8(i), ratio_pow(dp87_node(i), 7)), 1) == (0int, 1int));
    assert(dp87_weight8(1) == (0int, 1int));
    assert(dp87_node(1) == (1int, 18int));
    assert(ratio_pow(dp87_node(1), 0) == (1int, 1int));
    ratio_mul_value(1int, 1int, 1int, 18int);
    assert(ratio_pow(dp87_node(1), 1) == (1int, 18int));
    ratio_mul_value(1int, 18int, 1int, 18int);
    assert(ratio_pow(dp87_node(1), 2) == (1int, 324int));
    ratio_mul_value(1int, 324int, 1int, 18int);
    assert(ratio_pow(dp87_node(1), 3) == (1int, 5832int));
    ratio_mul_value(1int, 5832int, 1int, 18int);
    assert(ratio_pow(dp87_node(1), 4) == (1int, 104976int));
    ratio_mul_value(1int, 104976int, 1int, 18int);
    assert(ratio_pow(dp87_node(1), 5) == (1int, 1889568int));
    ratio_mul_value(1int, 1889568int, 1int, 18int);
    assert(ratio_pow(dp87_node(1), 6) == (1int, 34012224int));
    ratio_mul_value(1int, 34012224int, 1int, 18int);
    assert(ratio_pow(dp87_node(1), 7) == (1int, 612220032int));
    ratio_mul_value(0int, 1int, 1int, 612220032int);
    assert(ratio_mul(dp87_weight8(1), ratio_pow(dp87_node(1), 7)) == (0int, 612220032int));
    ratio_add_value(0int, 1int, 0int, 612220032int);
    assert(ratio_sum(|i: int| ratio_mul(dp87_weight8(i), ratio_pow(dp87_node(i), 7)), 2) == (0int, 1int));
    assert(dp87_weight8(2) == (0int, 1int));
    assert(dp87_node(2) == (1int, 12int));
    assert(ratio_pow(dp87_node(2), 0) == (1int, 1int));
    ratio_mul_value(1int, 1int, 1int, 12int);
    assert(ratio_pow(dp87_node(2), 1) == (1int, 12int));
    ratio_mul_value(1int, 12int, 1int, 12int);
    assert(ratio_pow(dp87_node(2), 2) == (1int, 144int));
    ratio_mul_value(1int, 144int, 1int, 12int);
    assert(ratio_pow(dp87_node(2), 3) == (1int, 1728int));
    ratio_mul_value(1int, 1728int, 1int, 12int);
    assert(ratio_pow(dp87_node(2), 4) == (1int, 20736int));
    ratio_mul_value(1int, 20736int, 1int, 12int);
    assert(ratio_pow(dp87_node(2), 5) == (1int, 248832int));
    ratio_mul_value(1int, 248832int, 1int, 12int);
    assert(ratio_pow(dp87_node(2), 6) == (1int, 2985984int));
    ratio_mul_value(1int, 2985984int, 1int, 12int);
    assert(ratio_pow(dp87_node(2), 7) == (1int, 35831808int));
    ratio_mul_value(0int, 1int, 1int, 35831808int);
    assert(ratio_mul(dp87_weight8(2), ratio_pow(dp87_node(2), 7)) == (0int, 35831808int));
    ratio_add_value(0int, 1int, 0int, 35831808int);
    assert(ratio_sum(|i: int| ratio_mul(dp87_weight8(i), ratio_pow(dp87_node(i), 7)), 3) == (0int, 1int));
    assert(dp87_weight8(3) == (0int, 1int));
    assert(dp87_node(3) == (1int, 8int));
    assert(ratio_pow(dp87_node(3), 0) == (1int, 1int));
    ratio_mul_value(1int, 1int, 1int, 8int);
    assert(ratio_pow(dp87_node(3), 1) == (1int, 8int));
    ratio_mul_value(1int, 8int, 1int, 8int);
    assert(ratio_pow(dp87_node(3), 2) == (1int, 64int));
    ratio_mul_value(1int, 64int, 1int, 8int);
    assert(ratio_pow(dp87_node(3), 3) == (1int, 512int));
    ratio_mul_value(1int, 512int, 1int, 8int);
    assert(ratio_pow(dp87_node(3), 4) == (1int, 4096int));
    ratio_mul_value(1int, 4096int, 1int, 8int);
    assert(ratio_pow(dp87_node(3), 5) == (1int, 32768int));
    ratio_mul_value(1int, 32768int, 1int, 8int);
    assert(ratio_pow(dp87_node(3), 6) == (1int, 262144int));
    ratio_mul_value(1int, 262144int, 1int, 8int);
    assert(ratio_pow(dp87_node(3), 7) == (1int, 2097152int));
    ratio_mul_value(0int, 1int, 1int, 2097152int);
    assert(ratio_mul(dp87_weight8(3), ratio_pow(dp87_node(3), 7)) == (0int, 2097152int));
    ratio_add_value(0int, 1int, 0int, 2097152int);
    assert(ratio_sum(|i: int| ratio_mul(dp87_weight8(i), ratio_pow(dp87_node(i), 7)), 4) == (0int, 1int));
    assert(dp87_weight8(4) == (0int, 1int));
    assert(dp87_node(4) == (5int, 16int));
    assert(ratio_pow(dp87_node(4), 0) == (1int, 1int));
    ratio_mul_value(1int, 1int, 5int, 16int);
    assert(ratio_pow(dp87_node(4), 1) == (5int, 16int));
    ratio_mul_value(5int, 16int, 5int, 16int);
    assert(ratio_pow(dp87_node(4), 2) == (25int, 256int));
    ratio_mul_value(25int, 256int, 5int, 16int);
    assert(ratio_pow(dp87_node(4), 3) == (125int, 4096int));
    ratio_mul_value(125int, 4096int, 5int, 16int);
    assert(ratio_pow(dp87_node(4), 4) == (625int, 65536int));
    ratio_mul_value(625int, 65536int, 5int, 16int);
    assert(ratio_pow(dp87_node(4), 5) == (3125int, 1048576int));
    ratio_mul_value(3125int, 1048576int, 5int, 16int);
    assert(ratio_pow(dp87_node(4), 6) == (15625int, 16777216int));
    ratio_mul_value(15625int, 16777216int, 5int, 16int);
    assert(ratio_pow(dp87_node(4), 7) == (78125int, 268435456int));
    ratio_mul_value(0int, 1int, 78125int, 268435456int);
    assert(ratio_mul(dp87_weight8(4), ratio_pow(dp87_node(4), 7)) == (0int, 268435456int));
    ratio_add_value(0int, 1int, 0int, 268435456int);
    assert(ratio_sum(|i: int| ratio_mul(dp87_weight8(i), ratio_pow(dp87_node(i), 7)), 5) == (0int, 1int));
    assert(dp87_weight8(5) == (-59238493int, 1068277825int));
    assert(dp87_node(5) == (3int, 8int));
    assert(ratio_pow(dp87_node(5), 0) == (1int, 1int));
    ratio_mul_value(1int, 1int, 3int, 8int);
    assert(ratio_pow(dp87_node(5), 1) == (3int, 8int));
    ratio_mul_value(3int, 8int, 3int, 8int);
    assert(ratio_pow(dp87_node(5), 2) == (9int, 64int));
    ratio_mul_value(9int, 64int, 3int, 8int);
    assert(ratio_pow(dp87_node(5), 3) == (27int, 512int));
    ratio_mul_value(27int, 512int, 3int, 8int);
    assert(ratio_pow(dp87_node(5), 4) == (81int, 4096int));
    ratio_mul_value(81int, 4096int, 3int, 8int);
    assert(ratio_pow(dp87_node(5), 5) == (243int, 32768int));
    ratio_mul_value(243int, 32768int, 3int, 8int);
    assert(ratio_pow(dp87_node(5), 6) == (729int, 262144int));
    ratio_mul_value(729int, 262144int, 3int, 8int);
    assert(ratio_pow(dp87_node(5), 7) == (2187int, 2097152int));
    ratio_mul_value(-59238493int, 1068277825int, 2187int, 2097152int);
    assert(ratio_mul(dp87_weight8(5), ratio_pow(dp87_node(5), 7)) == (-129554584191int, 2240340977254400int));
    ratio_add_value(0int, 1int, -129554584191int, 2240340977254400int);
    assert(ratio_sum(|i: int| ratio_mul(dp87_weight8(i), ratio_pow(dp87_node(i), 7)), 6) == (-129554584191int, 2240340977254400int));
    assert(dp87_weight8(6) == (181606767int, 758867731int));
    assert(dp87_node(6) == (59int, 400int));
    assert(ratio_pow(dp87_node(6), 0) == (1int, 1int));
    ratio_mul_value(1int, 1int, 59int, 400int);
    assert(ratio_pow(dp87_node(6), 1) == (59int, 400int));
    ratio_mul_value(59int, 400int, 59int, 400int);
    assert(ratio_pow(dp87_node(6), 2) == (3481int, 160000int));
    ratio_mul_value(3481int, 160000int, 59int, 400int);
    assert(ratio_pow(dp87_node(6), 3) == (205379int, 64000000int));
    ratio_mul_value(205379int, 64000000int, 59int, 400int);
    assert(ratio_pow(dp87_node(6), 4) == (12117361int, 25600000000int));
    ratio_mul_value(12117361int, 25600000000int, 59int, 400int);
    assert(ratio_pow(dp87_node(6), 5) == (714924299int, 10240000000000int));
    ratio_mul_value(714924299int, 10240000000000int, 59int, 400int);
    assert(ratio_pow(dp87_node(6), 6) == (42180533641int, 4096000000000000int));
    ratio_mul_value(42180533641int, 4096000000000000int, 59int, 400int);
    assert(ratio_pow(dp87_node(6), 7) == (2488651484819int, 1638400000000000000int));
    ratio_mul_value(181606767int, 758867731int, 2488651484819int, 1638400000000000000int);
    assert(ratio_mul(dp87_weight8(6), ratio_pow(dp87_node(6), 7)) == (451955950347728170173int, 1243328890470400000000000000int));
    ratio_add_value(-129554584191int, 2240340977254400int, 451955950347728170173int, 1243328890470400000000000000int);
    assert(ratio_sum(|i: int| ratio_mul(dp87_weight8(i), ratio_pow(dp87_node(i), 7)), 7) == (-160066421982072083981182136874486988800int, 2785480661525084795316469760000000000000000int));
    assert(dp87_weight8(7) == (561292985int, 797845732int));
    assert(dp87_node(7) == (93int, 200int));
    assert(ratio_pow(dp87_node(7), 0) == (1int, 1int));
    ratio_mul_value(1int, 1int, 93int, 200int);
    assert(ratio_pow(dp87_node(7), 1) == (93int, 200int));
    ratio_mul_value(93int, 200int, 93int, 200int);
    assert(ratio_pow(dp87_node(7), 2) == (8649int, 40000int));
    ratio_mul_value(8649int, 40000int, 93int, 200int);
    assert(ratio_pow(dp87_node(7), 3) == (804357int, 8000000int));
    ratio_mul_value(804357int, 8000000int, 93int, 200int);
    assert(ratio_pow(dp87_node(7), 4) == (74805201int, 1600000000int));
    ratio_mul_value(74805201int, 1600000000int, 93int, 200int);
    assert(ratio_pow(dp87_node(7), 5) == (6956883693int, 320000000000int));
    ratio_mul_value(6956883693int, 320000000000int, 93int, 200int);
    assert(ratio_pow(dp87_node(7), 6) == (646990183449int, 64000000000000int));
    ratio_mul_value(646990183449int, 64000000000000int, 93int, 200int);
    assert(ratio_pow(dp87_node(7), 7) == (60170087060757int, 12800000000000000int));
    ratio_mul_value(561292985int, 797845732int, 60170087060757int, 12800000000000000int);
    assert(ratio_mul(dp87_weight8(7), ratio_pow(dp87_node(7), 7)) == (33773047774042172889645int, 10212425369600000000000000int));
    ratio_add_value(-160066421982072083981182136874486988800int, 2785480661525084795316469760000000000000000int, 33773047774042172889645int, 10212425369600000000000000int);
    assert(ratio_sum(|i: int| ratio_mul(dp87_weight8(i), ratio_pow(dp87_node(i), 7)), 8) == (92439505066686472193345557428363112556633228574720000000000000000int, 28446513374288966590481139037735223296000000000000000000000000000000int));
    assert(dp87_weight8(8) == (-1041891430int, 1371343529int));
    assert(dp87_node(8) == (5490023248int, 9719169821int));
    assert(ratio_pow(dp87_node(8), 0) == (1int, 1int));
    ratio_mul_value(1int, 1int, 5490023248int, 9719169821int);
    assert(ratio_pow(dp87_node(8), 1) == (5490023248int, 9719169821int));
    ratio_mul_value(5490023248int, 9719169821int, 5490023248int, 9719169821int);
    assert(ratio_pow(dp87_node(8), 2) == (30140355263580469504int, 94462262009437172041int));
    ratio_mul_value(30140355263580469504int, 94462262009437172041int, 5490023248int, 9719169821int);
    assert(ratio_pow(dp87_node(8), 3) == (165471251100035945295715028992int, 918094766145516579696472174661int));
    ratio_mul_value(165471251100035945295715028992int, 918094766145516579696472174661int, 5490023248int, 9719169821int);
    assert(ratio_pow(dp87_node(8), 4) == (908441015414842913309131743949074006016int, 8923118943939557235841093700131432105681int));
    ratio_mul_value(908441015414842913309131743949074006016int, 8923118943939557235841093700131432105681int, 5490023248int, 9719169821int);
    assert(ratio_pow(dp87_node(8), 5) == (4987362294064213958335181884975199621100331859968int, 86725308349130735534688937441950638655045257853101int));
    ratio_mul_value(4987362294064213958335181884975199621100331859968int, 86725308349130735534688937441950638655045257853101int, 5490023248int, 9719169821int);
    assert(ratio_pow(dp87_node(8), 6) == (27380734940611147036106251924822307823281613251739400536064int, 842897999623790776392281019408363586587791899515022490464921int));
    ratio_mul_value(27380734940611147036106251924822307823281613251739400536064int, 842897999623790776392281019408363586587791899515022490464921int, 5490023248int, 9719169821int);
    assert(ratio_pow(dp87_node(8), 7) == (150320871371281096556169618465419218218828332402994185380575022415872int, 8192268800124816667530016941184882645759387396794671125462920442349141int));
    ratio_mul_value(-1041891430int, 1371343529int, 150320871371281096556169618465419218218828332402994185380575022415872int, 8192268800124816667530016941184882645759387396794671125462920442349141int);
    assert(ratio_mul(dp87_weight8(8), ratio_pow(dp87_node(8), 7)) == (-156618027631870122622875639105490034819497104171870948087852404327154932776960int, 11234414806879761729328633145554262408886535197598527589586723078057312069058589int));
    ratio_add_value(92439505066686472193345557428363112556633228574720000000000000000int, 28446513374288966590481139037735223296000000000000000000000000000000int, -156618027631870122622875639105490034819497104171870948087852404327154932776960int, 11234414806879761729328633145554262408886535197598527589586723078057312069058589int);
    assert(ratio_sum(|i: int| ratio_mul(dp87_weight8(i), ratio_pow(dp87_node(i), 7)), 9) == (-3416733073222933109870734496468322206750773780476222551312761426155813276783756629063063659119086684901866796266652291475355729920000000000000000int, 319579931056215139786075199632786085382712043917779291707957944221725186963177376780156047752545399264352628421689344000000000000000000000000000000int));
    assert(dp87_weight8(9) == (760417239int, 1151165299int));
    assert(dp87_node(9) == (13int, 20int));
    assert(ratio_pow(dp87_node(9), 0) == (1int, 1int));
    ratio_mul_value(1int, 1int, 13int, 20int);
    assert(ratio_pow(dp87_node(9), 1) == (13int, 20int));
    ratio_mul_value(13int, 20int, 13int, 20int);
    assert(ratio_pow(dp87_node(9), 2) == (169int, 400int));
    ratio_mul_value(169int, 400int, 13int, 20int);
    assert(ratio_pow(dp87_node(9), 3) == (2197int, 8000int));
    ratio_mul_value(2197int, 8000int, 13int, 20int);
    assert(ratio_pow(dp87_node(9), 4) == (28561int, 160000int));
    ratio_mul_value(28561int, 160000int, 13int, 20int);
    assert(ratio_pow(dp87_node(9), 5) == (371293int, 3200000int));
    ratio_mul_value(371293int, 3200000int, 13int, 20int);
    assert(ratio_pow(dp87_node(9), 6) == (4826809int, 64000000int));
    ratio_mul_value(4826809int, 64000000int, 13int, 20int);
    assert(ratio_pow(dp87_node(9), 7) == (62748517int, 1280000000int));
    ratio_mul_value(760417239int, 1151165299int, 62748517int, 1280000000int);
    assert(ratio_mul(dp87_weight8(9), ratio_pow(dp87_node(9), 7)) == (47715054048484563int, 1473491582720000000int));
    ratio_add_value(-3416733073222933109870734496468322206750773780476222551312761426155813276783756629063063659119086684901866796266652291475355729920000000000000000int, 319579931056215139786075199632786085382712043917779291707957944221725186963177376780156047752545399264352628421689344000000000000000000000000000000int, 47715054048484563int, 1473491582720000000int);
    assert(ratio_sum(|i: int| ratio_mul(dp87_weight8(i), ratio_pow(dp87_node(i), 7)), 10) == (10214246259363246371876725857240927435049988937870104665656505179618376106539938354101018529843997810142512127661935214989626887241830341017600000000000000000000000int, 470898338417570927616209988123853931753765426518414758086399523250467324347260143271889912291478019270685278129267087066718535680000000000000000000000000000000000000int));
    assert(dp87_weight8(10) == (118820643int, 751138087int));
    assert(dp87_node(10) == (1201146811int, 1299019798int));
    assert(ratio_pow(dp87_node(10), 0) == (1int, 1int));
    ratio_mul_value(1int, 1int, 1201146811int, 1299019798int);
    assert(ratio_pow(dp87_node(10), 1) == (1201146811int, 1299019798int));
    ratio_mul_value(1201146811int, 1299019798int, 1201146811int, 1299019798int);
    assert(ratio_pow(dp87_node(10), 2) == (1442753661575469721int, 1687452435595960804int));
    ratio_mul_value(1442753661575469721int, 1687452435595960804int, 1201146811int, 1299019798int);
    assert(ratio_pow(dp87_node(10), 3) == (1732958959659948691206209731int, 2192034122022473013227997592int));
    ratio_mul_value(1732958959659948691206209731int, 2192034122022473013227997592int, 1201146811int, 1299019798int);
    assert(ratio_pow(dp87_node(10), 4) == (2081538127989425014865962561787817841int, 2847495722398740245103884759904326416int));
    ratio_mul_value(2081538127989425014865962561787817841int, 2847495722398740245103884759904326416int, 1201146811int, 1299019798int);
    assert(ratio_pow(dp87_node(10), 5) == (2500232884409407698329878523536827858366055051int, 3698953318116275628649318869826196600238383968int));
    ratio_mul_value(2500232884409407698329878523536827858366055051int, 3698953318116275628649318869826196600238383968int, 1201146811int, 1299019798int);
    assert(ratio_pow(dp87_node(10), 6) == (3003146755865691675247783614563649223132346695159092361int, 4805013592110834107640361211119214202749952293957798464int));
    ratio_mul_value(3003146755865691675247783614563649223132346695159092361int, 4805013592110834107640361211119214202749952293957798464int, 1201146811int, 1299019798int);
    assert(ratio_pow(dp87_node(10), 7) == (3607220148773071100033122923451180420888045663836732927069610771int, 6241807785811070116118492277115116987574974073406695981229990272int));
    ratio_mul_value(118820643int, 751138087int, 3607220148773071100033122923451180420888045663836732927069610771int, 6241807785811070116118492277115116987574974073406695981229990272int);
    assert(ratio_mul(dp87_weight8(10), ratio_pow(dp87_node(10), 7)) == (428612217519771969190652987062509036718928216790442453413683257569945753int, 4688459559655832950444112154356522852828268794573303192331682799938689664int));
    ratio_add_value(10214246259363246371876725857240927435049988937870104665656505179618376106539938354101018529843997810142512127661935214989626887241830341017600000000000000000000000int, 470898338417570927616209988123853931753765426518414758086399523250467324347260143271889912291478019270685278129267087066718535680000000000000000000000000000000000000int, 428612217519771969190652987062509036718928216790442453413683257569945753int, 4688459559655832950444112154356522852828268794573303192331682799938689664int);
    assert(ratio_sum(|i: int| ratio_mul(dp87_weight8(i), ratio_pow(dp87_node(i), 7)), 11) == (249721861574921548654576086229647070263874306323334221943989350347953866111092903154488615185454632652311707149212224642705989984908823944017089559784461747037491241442046131072039428407213729036408725817216362086400000000000000000000000int, 2207787816379907995786342351020869301697544293930853211472386929733813257685150316405655577792194035533071571326723913838077911065886539950473838195917605322011731751605103424684064744440536160031211520000000000000000000000000000000000000int));
    assert(dp87_weight8(11) == (-528747749int, 2220607170int));
    assert(dp87_node(11) == (1int, 1int));
    assert(ratio_pow(dp87_node(11), 0) == (1int, 1int));
    ratio_mul_value(1int, 1int, 1int, 1int);
    assert(ratio_pow(dp87_node(11), 1) == (1int, 1int));
    ratio_mul_value(1int, 1int, 1int, 1int);
    assert(ratio_pow(dp87_node(11), 2) == (1int, 1int));
    ratio_mul_value(1int, 1int, 1int, 1int);
    assert(ratio_pow(dp87_node(11), 3) == (1int, 1int));
    ratio_mul_value(1int, 1int, 1int, 1int);
    assert(ratio_pow(dp87_node(11), 4) == (1int, 1int));
    ratio_mul_value(1int, 1int, 1int, 1int);
    assert(ratio_pow(dp87_node(11), 5) == (1int, 1int));
    ratio_mul_value(1int, 1int, 1int, 1int);
    assert(ratio_pow(dp87_node(11), 6) == (1int, 1int));
    ratio_mul_value(1int, 1int, 1int, 1int);
    assert(ratio_pow(dp87_node(11), 7) == (1int, 1int));
    ratio_mul_value(-528747749int, 2220607170int, 1int, 1int);
    assert(ratio_mul(dp87_weight8(11), ratio_pow(dp87_node(11), 7)) == (-528747749int, 2220607170int));
    ratio_add_value(249721861574921548654576086229647070263874306323334221943989350347953866111092903154488615185454632652311707149212224642705989984908823944017089559784461747037491241442046131072039428407213729036408725817216362086400000000000000000000000int, 2207787816379907995786342351020869301697544293930853211472386929733813257685150316405655577792194035533071571326723913838077911065886539950473838195917605322011731751605103424684064744440536160031211520000000000000000000000000000000000000int, -528747749int, 2220607170int);
    assert(ratio_sum(|i: int| ratio_mul(dp87_weight8(i), ratio_pow(dp87_node(i), 7)), 12) == (-612828681861483398469274492653559944498325347643360685660251474967466579271867263245155121062725549081898114424417287093110036400272972441859585750492135393421944005694616794584559728549433272548920453342593716909624000512000000000000000000000000int, 4902629454891867139383481612751599190982460030495440125613108673181191911456702395138167404595838845335973503411289535679298028331529993020513649995274499107289410351730951673444989156248872235609575725098598400000000000000000000000000000000000000int));
    assert(dp87_weight8(12) == (1int, 4int));
    assert(dp87_node(12) == (1int, 1int));
    assert(ratio_pow(dp87_node(12), 0) == (1int, 1int));
    ratio_mul_value(1int, 1int, 1int, 1int);
    assert(ratio_pow(dp87_node(12), 1) == (1int, 1int));
    ratio_mul_value(1int, 1int, 1int, 1int);
    assert(ratio_pow(dp87_node(12), 2) == (1int, 1int));
    ratio_mul_value(1int, 1int, 1int, 1int);
    assert(ratio_pow(dp87_node(12), 3) == (1int, 1int));
    ratio_mul_value(1int, 1int, 1int, 1int);
    assert(ratio_pow(dp87_node(12), 4) == (1int, 1int));
    ratio_mul_value(1int, 1int, 1int, 1int);
    assert(ratio_pow(dp87_node(12), 5) == (1int, 1int));
    ratio_mul_value(1int, 1int, 1int, 1int);
    assert(ratio_pow(dp87_node(12), 6) == (1int, 1int));
    ratio_mul_value(1int, 1int, 1int, 1int);
    assert(ratio_pow(dp87_node(12), 7) == (1int, 1int));
    ratio_mul_value(1int, 4int, 1int, 1int);
    assert(ratio_mul(dp87_weight8(12), ratio_pow(dp87_node(12), 7)) == (1int, 4int));
    ratio_add_value(-612828681861483398469274492653559944498325347643360685660251474967466579271867263245155121062725549081898114424417287093110036400272972441859585750492135393421944005694616794584559728549433272548920453342593716909624000512000000000000000000000000int, 4902629454891867139383481612751599190982460030495440125613108673181191911456702395138167404595838845335973503411289535679298028331529993020513649995274499107289410351730951673444989156248872235609575725098598400000000000000000000000000000000000000int, 1int, 4int);
    assert(ratio_sum(|i: int| ratio_mul(dp87_weight8(i), ratio_pow(dp87_node(i), 7)), 13) == (2451314727445933545506383642137359412989158639921997382972102773311325594369233342157546920344936649008381045713620387306857882730438103253075306993305957533601634328952484495106750242051139145413893911728223532361503997952000000000000000000000000int, 19610517819567468557533926451006396763929840121981760502452434692724767645826809580552669618383355381343894013645158142717192113326119972082054599981097996429157641406923806693779956624995488942438302900394393600000000000000000000000000000000000000int));
    assert(within_1e14((2451314727445933545506383642137359412989158639921997382972102773311325594369233342157546920344936649008381045713620387306857882730438103253075306993305957533601634328952484495106750242051139145413893911728223532361503997952000000000000000000000000int, 19610517819567468557533926451006396763929840121981760502452434692724767645826809580552669618383355381343894013645158142717192113326119972082054599981097996429157641406923806693779956624995488942438302900394393600000000000000000000000000000000000000int), (1int, 8int))) by (nonlinear_arith);
}

/// The quadrature order conditions: Σ_i b_i c_i^k = 1/(k + 1) for every
/// k < 8 with the eighth-order weights, and for every k < 7 with the
/// seventh-order ones, each within 1e-14.  A weight moved to another stage
/// breaks them.
pub proof fn lemma_dp87_quadrature_conditions(k: nat)
    requires
        k < 8,
    ensures
        within_1e14(weight8_moment(k), (1int, k + 1 as int)),
        k < 7 ==> within_1e14(weight7_moment(k), (1int, k + 1 as int)),
{
    if k == 0 {
        quadrature_condition_8_0();
        quadrature_condition_7_0();
    } else if k == 1 {
        quadrature_condition_8_1();
        quadrature_condition_7_1();
    } else if k == 2 {
        quadrature_condition_8_2();
        quadrature_condition_7_2();
    } else if k == 3 {
        quadrature_condition_8_3();
        quadrature_condition_7_3();
    } else if k == 4 {
        quadrature_condition_8_4();
        quadrature_condition_7_4();
    } else if k == 5 {
        quadrature_condition_8_5();
        quadrature_condition_7_5();
    } else if k == 6 {
        quadrature_condition_8_6();
        quadrature_condition_7_6();
    } else if k == 7 {
        quadrature_condition_8_7();
    }
}

/// The moment of degree 1 of row 2, exactly, stage by stage.
#[verifier::spinoff_prover]
proof fn stage_condition_2_1()
    ensures
        within_1e14(coupling_moment(2, 1), ratio_mul(ratio_pow(dp87_node(2), 2), (1, 2))),
{
    assert(ratio_sum(|j: int| ratio_mul(dp87_coupling(2, j), ratio_pow(dp87_node(j), 1)), 0) == (0int, 1int));
    assert(dp87_coupling(2, 0) == (1int, 48int));
    assert(dp87_node(0) == (0int, 1int));
    assert(ratio_pow(dp87_node(0), 0) == (1int, 1int));
    ratio_mul_value(1int, 1int, 0int, 1int);
    assert(ratio_pow(dp87_node(0), 1) == (0int, 1int));
    ratio_mul_value(1int, 48int, 0int, 1int);
    assert(ratio_mul(dp87_coupling(2, 0), ratio_pow(dp87_node(0), 1)) == (0int, 48int));
    ratio_add_value(0int, 1int, 0int, 48int);
    assert(ratio_sum(|j: int| ratio_mul(dp87_coupling(2, j), ratio_pow(dp87_node(j), 1)), 1) == (0int, 1int));
    assert(dp87_coupling(2, 1) == (1int, 16int));
    assert(dp87_node(1) == (1int, 18int));
    assert(ratio_pow(dp87_node(1), 0) == (1int, 1int));
    ratio_mul_value(1int, 1int, 1int, 18int);
    assert(ratio_pow(dp87_node(1), 1) == (1int, 18int));
    ratio_mul_value(1int, 16int, 1int, 18int);
    assert(ratio_mul(dp87_coupling(2, 1), ratio_pow(dp87_node(1), 1)) == (1int, 288int));
    ratio_add_value(0int, 1int, 1int, 288int);
    assert(ratio_sum(|j: int| ratio_mul(dp87_coupling(2, j), ratio_pow(dp87_node(j), 1)), 2) == (1int, 288int));
    assert(dp87_coupling(2, 2) == (0int, 1int));
    assert(dp87_node(2) == (1int, 12int));
    assert(ratio_pow(dp87_node(2), 0) == (1int, 1int));
    ratio_mul_value(1int, 1int, 1int, 12int);
    assert(ratio_pow(dp87_node(2), 1) == (1int, 12int));
    ratio_mul_value(0int, 1int, 1int, 12int);
    assert(ratio_mul(dp87_coupling(2, 2), ratio_pow(dp87_node(2), 1)) == (0int, 12int));
    ratio_add_value(1int, 288int, 0int, 12int);
    assert(ratio_sum(|j: int| ratio_mul(dp87_coupling(2, j), ratio_pow(dp87_node(j), 1)), 3) == (1int, 288int));
    assert(dp87_coupling(2, 3) == (0int, 1int));
    assert(dp87_node(3) == (1int, 8int));
    assert(ratio_pow(dp87_node(3), 0) == (1int, 1int));
    ratio_mul_value(1int, 1int, 1int, 8int);
    assert(ratio_pow(dp87_node(3), 1) == (1int, 8int));
    ratio_mul_value(0int, 1int, 1int, 8int);
    assert(ratio_mul(dp87_coupling(2, 3), ratio_pow(dp87_node(3), 1)) == (0int, 8int));
    ratio_add_value(1int, 288int, 0int, 8int);
    assert(ratio_sum(|j: int| ratio_mul(dp87_coupling(2, j), ratio_pow(dp87_node(j), 1)), 4) == (1int, 288int));
    assert(dp87_coupling(2, 4) == (0int, 1int));
    assert(dp87_node(4) == (5int, 16int));
    assert(ratio_pow(dp87_node(4), 0) == (1int, 1int));
    ratio_mul_value(1int, 1int, 5int, 16int);
    assert(ratio_pow(dp87_node(4), 1) == (5int, 16int));
    ratio_mul_value(0int, 1int, 5int, 16int);
    assert(ratio_mul(dp87_coupling(2, 4), ratio_pow(dp87_node(4), 1)) == (0int, 16int));
    ratio_add_value(1int, 288int, 0int, 16int);
    assert(ratio_sum(|j: int| ratio_mul(dp87_coupling(2, j), ratio_pow(dp87_node(j), 1)), 5) == (1int, 288int));
    assert(dp87_coupling(2, 5) == (0int, 1int));
    assert(dp87_node(5) == (3int, 8int));
    assert(ratio_pow(dp87_node(5), 0) == (1int, 1int));
    ratio_mul_value(1int, 1int, 3int, 8int);
    assert(ratio_pow(dp87_node(5), 1) == (3int, 8int));
    ratio_mul_value(0int, 1int, 3int, 8int);
    assert(ratio_mul(dp87_coupling(2, 5), ratio_pow(dp87_node(5), 1)) == (0int, 8int));
    ratio_add_value(1int, 288int, 0int, 8int);
    assert(ratio_sum(|j: int| ratio_mul(dp87_coupling(2, j), ratio_pow(dp87_node(j), 1)), 6) == (1int, 288int));
    assert(dp87_coupling(2, 6) == (0int, 1int));
    assert(dp87_node(6) == (59int, 400int));
    assert(ratio_pow(dp87_node(6), 0) == (1int, 1int));
    ratio_mul_value(1int, 1int, 59int, 400int);
    assert(ratio_pow(dp87_node(6), 1) == (59int, 400int));
    ratio_mul_value(0int, 1int, 59int, 400int);
    assert(ratio_mul(dp87_coupling(2, 6), ratio_pow(dp87_node(6), 1)) == (0int, 400int));
    ratio_add_value(1int, 288int, 0int, 400int);
    assert(ratio_sum(|j: int| ratio_mul(dp87_coupling(2, j), ratio_pow(dp87_node(j), 1)), 7) == (1int, 288int));
    assert(dp87_coupling(2, 7) == (0int, 1int));
    assert(dp87_node(7) == (93int, 200int));
    assert(ratio_pow(dp87_node(7), 0) == (1int, 1int));
    ratio_mul_value(1int, 1int, 93int, 200int);
    assert(ratio_pow(dp87_node(7), 1) == (93int, 200int));
    ratio_mul_value(0int, 1int, 93int, 200int);
    assert(ratio_mul(dp87_coupling(2, 7), ratio_pow(dp87_node(7), 1)) == (0int, 200int));
    ratio_add_value(1int, 288int, 0int, 200int);
    assert(ratio_sum(|j: int| ratio_mul(dp87_coupling(2, j), ratio_pow(dp87_node(j), 1)), 8) == (1int, 288int));
    assert(dp87_coupling(2, 8) == (0int, 1int));
    assert(dp87_node(8) == (5490023248int, 9719169821int));
    assert(ratio_pow(dp87_node(8), 0) == (1int, 1int));
    ratio_mul_value(1int, 1int, 5490023248int, 9719169821int);
    assert(ratio_pow(dp87_node(8), 1) == (5490023248int, 9719169821int));
    ratio_mul_value(0int, 1int, 5490023248int, 9719169821int);
    assert(ratio_mul(dp87_coupling(2, 8), ratio_pow(dp87_node(8), 1)) == (0int, 9719169821int));
    ratio_add_value(1int, 288int, 0int, 9719169821int);
    assert(ratio_sum(|j: int| ratio_mul(dp87_coupling(2, j), ratio_pow(dp87_node(j), 1)), 9) == (1int, 288int));
    assert(dp87_coupling(2, 9) == (0int, 1int));
    assert(dp87_node(9) == (13int, 20int));
    assert(ratio_pow(dp87_node(9), 0) == (1int, 1int));
    ratio_mul_value(1int, 1int, 13int, 20int);
    assert(ratio_pow(dp87_node(9), 1) == (13int, 20int));
    ratio_mul_value(0int, 1int, 13int, 20int);
    assert(ratio_mul(dp87_coupling(2, 9), ratio_pow(dp87_node(9), 1)) == (0int, 20int));
    ratio_add_value(1int, 288int, 0int, 20int);
    assert(ratio_sum(|j: int| ratio_mul(dp87_coupling(2, j), ratio_pow(dp87_node(j), 1)), 10) == (1int, 288int));
    assert(dp87_coupling(2, 10) == (0int, 1int));
    assert(dp87_node(10) == (1201146811int, 1299019798int));
    assert(ratio_pow(dp87_node(10), 0) == (1int, 1int));
    ratio_mul_value(1int, 1int, 1201146811int, 1299019798int);
    assert(ratio_pow(dp87_node(10), 1) == (1201146811int, 1299019798int));
    ratio_mul_value(0int, 1int, 1201146811int, 1299019798int);
    assert(ratio_mul(dp87_coupling(2, 10), ratio_pow(dp87_node(10), 1)) == (0int, 1299019798int));
    ratio_add_value(1int, 288int, 0int, 1299019798int);
    assert(ratio_sum(|j: int| ratio_mul(dp87_coupling(2, j), ratio_pow(dp87_node(j), 1)), 11) == (1int, 288int));
    assert(dp87_coupling(2, 11) == (0int, 1int));
    assert(dp87_node(11) == (1int, 1int));
    assert(ratio_pow(dp87_node(11), 0) == (1int, 1int));
    ratio_mul_value(1int, 1int, 1int, 1int);
    assert(ratio_pow(dp87_node(11), 1) == (1int, 1int));
    ratio_mul_value(0int, 1int, 1int, 1int);
    assert(ratio_mul(dp87_coupling(2, 11), ratio_pow(dp87_node(11), 1)) == (0int, 1int));
    ratio_add_value(1int, 288int, 0int, 1int);
    assert(ratio_sum(|j: int| ratio_mul(dp87_coupling(2, j), ratio_pow(dp87_node(j), 1)), 12) == (1int, 288int));
    assert(dp87_coupling(2, 12) == (0int, 1int));
    assert(dp87_node(12) == (1int, 1int));
    assert(ratio_pow(dp87_node(12), 0) == (1int, 1int));
    ratio_mul_value(1int, 1int, 1int, 1int);
    assert(ratio_pow(dp87_node(12), 1) == (1int, 1int));
    ratio_mul_value(0int, 1int, 1int, 1int);
    assert(ratio_mul(dp87_coupling(2, 12), ratio_pow(dp87_node(12), 1)) == (0int, 1int));
    ratio_add_value(1int, 288int, 0int, 1int);
    assert(ratio_sum(|j: int| ratio_mul(dp87_coupling(2, j), ratio_pow(dp87_node(j), 1)), 13) == (1int, 288int));
    assert(dp87_node(2) == (1int, 12int));
    assert(ratio_pow(dp87_node(2), 0) == (1int, 1int));
    ratio_mul_value(1int, 1int, 1int, 12int);
    assert(ratio_pow(dp87_node(2), 1) == (1int, 12int));
    ratio_mul_value(1int, 12int, 1int, 12int);
    assert(ratio_pow(dp87_node(2), 2) == (1int, 144int));
    ratio_mul_value(1int, 144int, 1int, 2int);
    assert(ratio_mul(ratio_pow(dp87_node(2), 2), (1, 2)) == (1int, 288int));
    assert(within_1e14((1int, 288int), (1int, 288int))) by (nonlinear_arith);
}

/// The moment of degree 1 of row 3, exactly, stage by stage.
#[verifier::spinoff_prover]
proof fn stage_condition_3_1()
    ensures
        within_1e14(coupling_moment(3, 1), ratio_mul(ratio_pow(dp87_node(3), 2), (1, 2))),
{
    assert(ratio_sum(|j: int| ratio_mul(dp87_coupling(3, j), ratio_pow(dp87_node(j), 1)), 0) == (0int, 1int));
    assert(dp87_coupling(3, 0) == (1int, 32int));
    assert(dp87_node(0) == (0int, 1int));
    assert(ratio_pow(dp87_node(0), 0) == (1int, 1int));
    ratio_mul_value(1int, 1int, 0int, 1int);
    assert(ratio_pow(dp87_node(0), 1) == (0int, 1int));
    ratio_mul_value(1int, 32int, 0int, 1int);
    assert(ratio_mul(dp87_coupling(3, 0), ratio_pow(dp87_node(0), 1)) == (0int, 32int));
    ratio_add_value(0int, 1int, 0int, 32int);
    assert(ratio_sum(|j: int| ratio_mul(dp87_coupling(3, j), ratio_pow(dp87_node(j), 1)), 1) == (0int, 1int));
    assert(dp87_coupling(3, 1) == (0int, 1int));
    assert(dp87_node(1) == (1int, 18int));
    assert(ratio_pow(dp87_node(1), 0) == (1int, 1int));
    ratio_mul_value(1int, 1int, 1int, 18int);
    assert(ratio_pow(dp87_node(1), 1) == (1int, 18int));
    ratio_mul_value(0int, 1int, 1int, 18int);
    assert(ratio_mul(dp87_coupling(3, 1), ratio_pow(dp87_node(1), 1)) == (0int, 18int));
    ratio_add_value(0int, 1int, 0int, 18int);
    assert(ratio_sum(|j: int| ratio_mul(dp87_coupling(3, j), ratio_pow(dp87_node(j), 1)), 2) == (0int, 1int));
    assert(dp87_coupling(3, 2) == (3int, 32int));
    assert(dp87_node(2) == (1int, 12int));
    assert(ratio_pow(dp87_node(2), 0) == (1int, 1int));
    ratio_mul_value(1int, 1int, 1int, 12int);
    assert(ratio_pow(dp87_node(2), 1) == (1int, 12int));
    ratio_mul_value(3int, 32int, 1int, 12int);
    assert(ratio_mul(dp87_coupling(3, 2), ratio_pow(dp87_node(2), 1)) == (3int, 384int));
    ratio_add_value(0int, 1int, 3int, 384int);
    assert(ratio_sum(|j: int| ratio_mul(dp87_coupling(3, j), ratio_pow(dp87_node(j), 1)), 3) == (3int, 384int));
    assert(dp87_coupling(3, 3) == (0int, 1int));
    assert(dp87_node(3) == (1int, 8int));
    assert(ratio_pow(dp87_node(3), 0) == (1int, 1int));
    ratio_mul_value(1int, 1int, 1int, 8int);
    assert(ratio_pow(dp87_node(3), 1) == (1int, 8int));
    ratio_mul_value(0int, 1int, 1int, 8int);
    assert(ratio_mul(dp87_coupling(3, 3), ratio_pow(dp87_node(3), 1)) == (0int, 8int));
    ratio_add_value(3int, 384int, 0int, 8int);
    assert(ratio_sum(|j: int| ratio_mul(dp87_coupling(3, j), ratio_pow(dp87_node(j), 1)), 4) == (3int, 384int));
    assert(dp87_coupling(3, 4) == (0int, 1int));
    assert(dp87_node(4) == (5int, 16int));
    assert(ratio_pow(dp87_node(4), 0) == (1int, 1int));
    ratio_mul_value(1int, 1int, 5int, 16int);
    assert(ratio_pow(dp87_node(4), 1) == (5int, 16int));
    ratio_mul_value(0int, 1int, 5int, 16int);
    assert(ratio_mul(dp87_coupling(3, 4), ratio_pow(dp87_node(4), 1)) == (0int, 16int));
    ratio_add_value(3int, 384int, 0int, 16int);
    assert(ratio_sum(|j: int| ratio_mul(dp87_coupling(3, j), ratio_pow(dp87_node(j), 1)), 5) == (3int, 384int));
    assert(dp87_coupling(3, 5) == (0int, 1int));
    assert(dp87_node(5) == (3int, 8int));
    assert(ratio_pow(dp87_node(5), 0) == (1int, 1int));
    ratio_mul_value(1int, 1int, 3int, 8int);
    assert(ratio_pow(dp87_node(5), 1) == (3int, 8int));
    ratio_mul_value(0int, 1int, 3int, 8int);
    assert(ratio_mul(dp87_coupling(3, 5), ratio_pow(dp87_node(5), 1)) == (0int, 8int));
    ratio_add_value(3int, 384int, 0int, 8int);
    assert(ratio_sum(|j: int| ratio_mul(dp87_coupling(3, j), ratio_pow(dp87_node(j), 1)), 6) == (3int, 384int));
    assert(dp87_coupling(3, 6) == (0int, 1int));
    assert(dp87_node(6) == (59int, 400int));
    assert(ratio_pow(dp87_node(6), 0) == (1int, 1int));
    ratio_mul_value(1int, 1int, 59int, 400int);
    assert(ratio_pow(dp87_node(6), 1) == (59int, 400int));
    ratio_mul_value(0int, 1int, 59int, 400int);
    assert(ratio_mul(dp87_coupling(3, 6), ratio_pow(dp87_node(6), 1)) == (0int, 400int));
    ratio_add_value(3int, 384int, 0int, 400int);
    assert(ratio_sum(|j: int| ratio_mul(dp87_coupling(3, j), ratio_pow(dp87_node(j), 1)), 7) == (3int, 384int));
    assert(dp87_coupling(3, 7) == (0int, 1int));
    assert(dp87_node(7) == (93int, 200int));
    assert(ratio_pow(dp87_node(7), 0) == (1int, 1int));
    ratio_mul_value(1int, 1int, 93int, 200int);
    assert(ratio_pow(dp87_node(7), 1) == (93int, 200int));
    ratio_mul_value(0int, 1int, 93int, 200int);
    assert(ratio_mul(dp87_coupling(3, 7), ratio_pow(dp87_node(7), 1)) == (0int, 200int));
    ratio_add_value(3int, 384int, 0int, 200int);
    assert(ratio_sum(|j: int| ratio_mul(dp87_coupling(3, j), ratio_pow(dp87_node(j), 1)), 8) == (3int, 384int));
    assert(dp87_coupling(3, 8) == (0int, 1int));
    assert(dp87_node(8) == (5490023248int, 9719169821int));
    assert(ratio_pow(dp87_node(8), 0) == (1int, 1int));
    ratio_mul_value(1int, 1int, 5490023248int, 9719169821int);
    assert(ratio_pow(dp87_node(8), 1) == (5490023248int, 9719169821int));
    ratio_mul_value(0int, 1int, 5490023248int, 9719169821int);
    assert(ratio_mul(dp87_coupling(3, 8), ratio_pow(dp87_node(8), 1)) == (0int, 9719169821int));
    ratio_add_value(3int, 384int, 0int, 9719169821int);
    assert(ratio_sum(|j: int| ratio_mul(dp87_coupling(3, j), ratio_pow(dp87_node(j), 1)), 9) == (3int, 384int));
    assert(dp87_coupling(3, 9) == (0int, 1int));
    assert(dp87_node(9) == (13int, 20int));
    assert(ratio_pow(dp87_node(9), 0) == (1int, 1int));
    ratio_mul_value(1int, 1int, 13int, 20int);
    assert(ratio_pow(dp87_node(9), 1) == (13int, 20int));
    ratio_mul_value(0int, 1int, 13int, 20int);
    assert(ratio_mul(dp87_coupling(3, 9), ratio_pow(dp87_node(9), 1)) == (0int, 20int));
    ratio_add_value(3int, 384int, 0int, 20int);
    assert(ratio_sum(|j: int| ratio_mul(dp87_coupling(3, j), ratio_pow(dp87_node(j), 1)), 10) == (3int, 384int));
    assert(dp87_coupling(3, 10) == (0int, 1int));
    assert(dp87_node(10) == (1201146811int, 1299019798int));
    assert(ratio_pow(dp87_node(10), 0) == (1int, 1int));
    ratio_mul_value(1int, 1int, 1201146811int, 1299019798int);
    assert(ratio_pow(dp87_node(10), 1) == (1201146811int, 1299019798int));
    ratio_mul_value(0int, 1int, 1201146811int, 1299019798int);
    assert(ratio_mul(dp87_coupling(3, 10), ratio_pow(dp87_node(10), 1)) == (0int, 1299019798int));
    ratio_add_value(3int, 384int, 0int, 1299019798int);
    assert(ratio_sum(|j: int| ratio_mul(dp87_coupling(3, j), ratio_pow(dp87_node(j), 1)), 11) == (3int, 384int));
    assert(dp87_coupling(3, 11) == (0int, 1int));
    assert(dp87_node(11) == (1int, 1int));
    assert(ratio_pow(dp87_node(11), 0) == (1int, 1int));
    ratio_mul_value(1int, 1int, 1int, 1int);
    assert(ratio_pow(dp87_node(11), 1) == (1int, 1int));
    ratio_mul_value(0int, 1int, 1int, 1int);
    assert(ratio_mul(dp87_coupling(3, 11), ratio_pow(dp87_node(11), 1)) == (0int, 1int));
    ratio_add_value(3int, 384int, 0int, 1int);
    assert(ratio_sum(|j: int| ratio_mul(dp87_coupling(3, j), ratio_pow(dp87_node(j), 1)), 12) == (3int, 384int));
    assert(dp87_coupling(3, 12) == (0int, 1int));
    assert(dp87_node(12) == (1int, 1int));
    assert(ratio_pow(dp87_node(12), 0) == (1int, 1int));
    ratio_mul_value(1int, 1int, 1int, 1int);
    assert(ratio_pow(dp87_node(12), 1) == (1int, 1int));
    ratio_mul_value(0int, 1int, 1int, 1int);
    assert(ratio_mul(dp87_coupling(3, 12), ratio_pow(dp87_node(12), 1)) == (0int, 1int));
    ratio_add_value(3int, 384int, 0int, 1int);
    assert(ratio_sum(|j: int| ratio_mul(dp87_coupling(3, j), ratio_pow(dp87_node(j), 1)), 13) == (3int, 384int));
    assert(dp87_node(3) == (1int, 8int));
    assert(ratio_pow(dp87_node(3), 0) == (1int, 1int));
    ratio_mul_value(1int, 1int, 1int, 8int);
    assert(ratio_pow(dp87_node(3), 1) == (1int, 8int));
    ratio_mul_value(1int, 8int, 1int, 8int);
    assert(ratio_pow(dp87_node(3), 2) == (1int, 64int));
    ratio_mul_value(1int, 64int, 1int, 2int);
    assert(ratio_mul(ratio_pow(dp87_node(3), 2), (1, 2)) == (1int, 128int));
    assert(within_1e14((3int, 384int), (1int, 128int))) by (nonlinear_arith);
}

/// The moment of degree 1 of row 4, exactly, stage by stage.
#[verifier::spinoff_prover]
proof fn stage_condition_4_1()
    ensures
        within_1e14(coupling_moment(4, 1), ratio_mul(ratio_pow(dp87_node(4), 2), (1, 2))),
{
    assert(ratio_sum(|j: int| ratio_mul(dp87_coupling(4, j), ratio_pow(dp87_node(j), 1)), 0) == (0int, 1int));
    assert(dp87_coupling(4, 0) == (5int, 16int));
    assert(dp87_node(0) == (0int, 1int));
    assert(ratio_pow(dp87_node(0), 0) == (1int, 1int));
    ratio_mul_value(1int, 1int, 0int, 1int);
    assert(ratio_pow(dp87_node(0), 1) == (0int, 1int));
    ratio_mul_value(5int, 16int, 0int, 1int);
    assert(ratio_mul(dp87_coupling(4, 0), ratio_pow(dp87_node(0), 1)) == (0int, 16int));
    ratio_add_value(0int, 1int, 0int, 16int);
    assert(ratio_sum(|j: int| ratio_mul(dp87_coupling(4, j), ratio_pow(dp87_node(j), 1)), 1) == (0int, 1int));
    assert(dp87_coupling(4, 1) == (0int, 1int));
    assert(dp87_node(1) == (1int, 18int));
    assert(ratio_pow(dp87_node(1), 0) == (1int, 1int));
    ratio_mul_value(1int, 1int, 1int, 18int);
    assert(ratio_pow(dp87_node(1), 1) == (1int, 18int));
    ratio_mul_value(0int, 1int, 1int, 18int);
    assert(ratio_mul(dp87_coupling(4, 1), ratio_pow(dp87_node(1), 1)) == (0int, 18int));
    ratio_add_value(0int, 1int, 0int, 18int);
    assert(ratio_sum(|j: int| ratio_mul(dp87_coupling(4, j), ratio_pow(dp87_node(j), 1)), 2) == (0int, 1int));
    assert(dp87_coupling(4, 2) == (-75int, 64int));
    assert(dp87_node(2) == (1int, 12int));
    assert(ratio_pow(dp87_node(2), 0) == (1int, 1int));
    ratio_mul_value(1int, 1int, 1int, 12int);
    assert(ratio_pow(dp87_node(2), 1) == (1int, 12int));
    ratio_mul_value(-75int, 64int, 1int, 12int);
    assert(ratio_mul(dp87_coupling(4, 2), ratio_pow(dp87_node(2), 1)) == (-75int, 768int));
    ratio_add_value(0int, 1int, -75int, 768int);
    assert(ratio_sum(|j: int| ratio_mul(dp87_coupling(4, j), ratio_pow(dp87_node(j), 1)), 3) == (-75int, 768int));
    assert(dp87_coupling(4, 3) == (75int, 64int));
    assert(dp87_node(3) == (1int, 8int));
    assert(ratio_pow(dp87_node(3), 0) == (1int, 1int));
    ratio_mul_value(1int, 1int, 1int, 8int);
    assert(ratio_pow(dp87_node(3), 1) == (1int, 8int));
    ratio_mul_value(75int, 64int, 1int, 8int);
    assert(ratio_mul(dp87_coupling(4, 3), ratio_pow(dp87_node(3), 1)) == (75int, 512int));
    ratio_add_value(-75int, 768int, 75int, 512int);
    assert(ratio_sum(|j: int| ratio_mul(dp87_coupling(4, j), ratio_pow(dp87_node(j), 1)), 4) == (19200int, 393216int));
    assert(dp87_coupling(4, 4) == (0int, 1int));
    assert(dp87_node(4) == (5int, 16int));
    assert(ratio_pow(dp87_node(4), 0) == (1int, 1int));
    ratio_mul_value(1int, 1int, 5int, 16int);
    assert(ratio_pow(dp87_node(4), 1) == (5int, 16int));
    ratio_mul_value(0int, 1int, 5int, 16int);
    assert(ratio_mul(dp87_coupling(4, 4), ratio_pow(dp87_node(4), 1)) == (0int, 16int));
    ratio_add_value(19200int, 393216int, 0int, 16int);
    assert(ratio_sum(|j: int| ratio_mul(dp87_coupling(4, j), ratio_pow(dp87_node(j), 1)), 5) == (19200int, 393216int));
    assert(dp87_coupling(4, 5) == (0int, 1int));
    assert(dp87_node(5) == (3int, 8int));
    assert(ratio_pow(dp87_node(5), 0) == (1int, 1int));
    ratio_mul_value(1int, 1int, 3int, 8int);
    assert(ratio_pow(dp87_node(5), 1) == (3int, 8int));
    ratio_mul_value(0int, 1int, 3int, 8int);
    assert(ratio_mul(dp87_coupling(4, 5), ratio_pow(dp87_node(5), 1)) == (0int, 8int));
    ratio_add_value(19200int, 393216int, 0int, 8int);
    assert(ratio_sum(|j: int| ratio_mul(dp87_coupling(4, j), ratio_pow(dp87_node(j), 1)), 6) == (19200int, 393216int));
    assert(dp87_coupling(4, 6) == (0int, 1int));
    assert(dp87_node(6) == (59int, 400int));
    assert(ratio_pow(dp87_node(6), 0) == (1int, 1int));
    ratio_mul_value(1int, 1int, 59int, 400int);
    assert(ratio_pow(dp87_node(6), 1) == (59int, 400int));
    ratio_mul_value(0int, 1int, 59int, 400int);
    assert(ratio_mul(dp87_coupling(4, 6), ratio_pow(dp87_node(6), 1)) == (0int, 400int));
    ratio_add_value(19200int, 393216int, 0int, 400int);
    assert(ratio_sum(|j: int| ratio_mul(dp87_coupling(4, j), ratio_pow(dp87_node(j), 1)), 7) == (19200int, 393216int));
    assert(dp87_coupling(4, 7) == (0int, 1int));
    assert(dp87_node(7) == (93int, 200int));
    assert(ratio_pow(dp87_node(7), 0) == (1int, 1int));
    ratio_mul_value(1int, 1int, 93int, 200int);
    assert(ratio_pow(dp87_node(7), 1) == (93int, 200int));
    ratio_mul_value(0int, 1int, 93int, 200int);
    assert(ratio_mul(dp87_coupling(4, 7), ratio_pow(dp87_node(7), 1)) == (0int, 200int));
    ratio_add_value(19200int, 393216int, 0int, 200int);
    assert(ratio_sum(|j: int| ratio_mul(dp87_coupling(4, j), ratio_pow(dp87_node(j), 1)), 8) == (19200int, 393216int));
    assert(dp87_coupling(4, 8) == (0int, 1int));
    assert(dp87_node(8) == (5490023248int, 9719169821int));
    assert(ratio_pow(dp87_node(8), 0) == (1int, 1int));
    ratio_mul_value(1int, 1int, 5490023248int, 9719169821int);
    assert(ratio_pow(dp87_node(8), 1) == (5490023248int, 9719169821int));
    ratio_mul_value(0int, 1int, 5490023248int, 9719169821int);
    assert(ratio_mul(dp87_coupling(4, 8), ratio_pow(dp87_node(8), 1)) == (0int, 9719169821int));
    ratio_add_value(19200int, 393216int, 0int, 9719169821int);
    assert(ratio_sum(|j: int| ratio_mul(dp87_coupling(4, j), ratio_pow(dp87_node(j), 1)), 9) == (19200int, 393216int));
    assert(dp87_coupling(4, 9) == (0int, 1int));
    assert(dp87_node(9) == (13int, 20int));
    assert(ratio_pow(dp87_node(9), 0) == (1int, 1int));
    ratio_mul_value(1int, 1int, 13int, 20int);
    assert(ratio_pow(dp87_node(9), 1) == (13int, 20int));
    ratio_mul_value(0int, 1int, 13int, 20int);
    assert(ratio_mul(dp87_coupling(4, 9), ratio_pow(dp87_node(9), 1)) == (0int, 20int));
    ratio_add_value(19200int, 393216int, 0int, 20int);
    assert(ratio_sum(|j: int| ratio_mul(dp87_coupling(4, j), ratio_pow(dp87_node(j), 1)), 10) == (19200int, 393216int));
    assert(dp87_coupling(4, 10) == (0int, 1int));
    assert(dp87_node(10) == (1201146811int, 1299019798int));
    assert(ratio_pow(dp87_node(10), 0) == (1int, 1int));
    ratio_mul_value(1int, 1int, 1201146811int, 1299019798int);
    assert(ratio_pow(dp87_node(10), 1) == (1201146811int, 1299019798int));
    ratio_mul_value(0int, 1int, 1201146811int, 1299019798int);
    assert(ratio_mul(dp87_coupling(4, 10), ratio_pow(dp87_node(10), 1)) == (0int, 1299019798int));
    ratio_add_value(19200int, 393216int, 0int, 1299019798int);
    assert(ratio_sum(|j: int| ratio_mul(dp87_coupling(4, j), ratio_pow(dp87_node(j), 1)), 11) == (19200int, 393216int));
    assert(dp87_coupling(4, 11) == (0int, 1int));
    assert(dp87_node(11) == (1int, 1int));
    assert(ratio_pow(dp87_node(11), 0) == (1int, 1int));
    ratio_mul_value(1int, 1int, 1int, 1int);
    assert(ratio_pow(dp87_node(11), 1) == (1int, 1int));
    ratio_mul_value(0int, 1int, 1int, 1int);
    assert(ratio_mul(dp87_coupling(4, 11), ratio_pow(dp87_node(11), 1)) == (0int, 1int));
    ratio_add_value(19200int, 393216int, 0int, 1int);
    assert(ratio_sum(|j: int| ratio_mul(dp87_coupling(4, j), ratio_pow(dp87_node(j), 1)), 12) == (19200int, 393216int));
    assert(dp87_coupling(4, 12) == (0int, 1int));
    assert(dp87_node(12) == (1int, 1int));
    assert(ratio_pow(dp87_node(12), 0) == (1int, 1int));
    ratio_mul_value(1int, 1int, 1int, 1int);
    assert(ratio_pow(dp87_node(12), 1) == (1int, 1int));
    ratio_mul_value(0int, 1int, 1int, 1int);
    assert(ratio_mul(dp87_coupling(4, 12), ratio_pow(dp87_node(12), 1)) == (0int, 1int));
    ratio_add_value(19200int, 393216int, 0int, 1int);
    assert(ratio_sum(|j: int| ratio_mul(dp87_coupling(4, j), ratio_pow(dp87_node(j), 1)), 13) == (19200int, 393216int));
    assert(dp87_node(4) == (5int, 16int));
    assert(ratio_pow(dp87_node(4), 0) == (1int, 1int));
    ratio_mul_value(1int, 1int, 5int, 16int);
    assert(ratio_pow(dp87_node(4), 1) == (5int, 16int));
    ratio_mul_value(5int, 16int, 5int, 16int);
    assert(ratio_pow(dp87_node(4), 2) == (25int, 256int));
    ratio_mul_value(25int, 256int, 1int, 2int);
    assert(ratio_mul(ratio_pow(dp87_node(4), 2), (1, 2)) == (25int, 512int));
    assert(within_1e14((19200int, 393216int), (25int, 512int))) by (nonlinear_arith);
}

/// The moment of degree 1 of row 5, exactly, stage by stage.
#[verifier::spinoff_prover]
proof fn stage_condition_5_1()
    ensures
        within_1e14(coupling_moment(5, 1), ratio_mul(ratio_pow(dp87_node(5), 2), (1, 2))),
{
    assert(ratio_sum(|j: int| ratio_mul(dp87_coupling(5, j), ratio_pow(dp87_node(j), 1)), 0) == (0int, 1int));
    assert(dp87_coupling(5, 0) == (3int, 80int));
    assert(dp87_node(0) == (0int, 1int));
    assert(ratio_pow(dp87_node(0), 0) == (1int, 1int));
    ratio_mul_value(1int, 1int, 0int, 1int);
    assert(ratio_pow(dp87_node(0), 1) == (0int, 1int));
    ratio_mul_value(3int, 80int, 0int, 1int);
    assert(ratio_mul(dp87_coupling(5, 0), ratio_pow(dp87_node(0), 1)) == (0int, 80int));
    ratio_add_value(0int, 1int, 0int, 80int);
    assert(ratio_sum(|j: int| ratio_mul(dp87_coupling(5, j), ratio_pow(dp87_node(j), 1)), 1) == (0int, 1int));
    assert(dp87_coupling(5, 1) == (0int, 1int));
    assert(dp87_node(1) == (1int, 18int));
    assert(ratio_pow(dp87_node(1), 0) == (1int, 1int));
    ratio_mul_value(1int, 1int, 1int, 18int);
    assert(ratio_pow(dp87_node(1), 1) == (1int, 18int));
    ratio_mul_value(0int, 1int, 1int, 18int);
    assert(ratio_mul(dp87_coupling(5, 1), ratio_pow(dp87_node(1), 1)) == (0int, 18int));
    ratio_add_value(0int, 1int, 0int, 18int);
    assert(ratio_sum(|j: int| ratio_mul(dp87_coupling(5, j), ratio_pow(dp87_node(j), 1)), 2) == (0int, 1int));
    assert(dp87_coupling(5, 2) == (0int, 1int));
    assert(dp87_node(2) == (1int, 12int));
    assert(ratio_pow(dp87_node(2), 0) == (1int, 1int));
    ratio_mul_value(1int, 1int, 1int, 12int);
    assert(ratio_pow(dp87_node(2), 1) == (1int, 12int));
    ratio_mul_value(0int, 1int, 1int, 12int);
    assert(ratio_mul(dp87_coupling(5, 2), ratio_pow(dp87_node(2), 1)) == (0int, 12int));
    ratio_add_value(0int, 1int, 0int, 12int);
    assert(ratio_sum(|j: int| ratio_mul(dp87_coupling(5, j), ratio_pow(dp87_node(j), 1)), 3) == (0int, 1int));
    assert(dp87_coupling(5, 3) == (3int, 16int));
    assert(dp87_node(3) == (1int, 8int));
    assert(ratio_pow(dp87_node(3), 0) == (1int, 1int));
    ratio_mul_value(1int, 1int, 1int, 8int);
    assert(ratio_pow(dp87_node(3), 1) == (1int, 8int));
    ratio_mul_value(3int, 16int, 1int, 8int);
    assert(ratio_mul(dp87_coupling(5, 3), ratio_pow(dp87_node(3), 1)) == (3int, 128int));
    ratio_add_value(0int, 1int, 3int, 128int);
    assert(ratio_sum(|j: int| ratio_mul(dp87_coupling(5, j), ratio_pow(dp87_node(j), 1)), 4) == (3int, 128int));
    assert(dp87_coupling(5, 4) == (3int, 20int));
    assert(dp87_node(4) == (5int, 16int));
    assert(ratio_pow(dp87_node(4), 0) == (1int, 1int));
    ratio_mul_value(1int, 1int, 5int, 16int);
    assert(ratio_pow(dp87_node(4), 1) == (5int, 16int));
    ratio_mul_value(3int, 20int, 5int, 16int);
    assert(ratio_mul(dp87_coupling(5, 4), ratio_pow(dp87_node(4), 1)) == (15int, 320int));
    ratio_add_value(3int, 128int, 15int, 320int);
    assert(ratio_sum(|j: int| ratio_mul(dp87_coupling(5, j), ratio_pow(dp87_node(j), 1)), 5) == (2880int, 40960int));
    assert(dp87_coupling(5, 5) == (0int, 1int));
    assert(dp87_node(5) == (3int, 8int));
    assert(ratio_pow(dp87_node(5), 0) == (1int, 1int));
    ratio_mul_value(1int, 1int, 3int, 8int);
    assert(ratio_pow(dp87_node(5), 1) == (3int, 8int));
    ratio_mul_value(0int, 1int, 3int, 8int);
    assert(ratio_mul(dp87_coupling(5, 5), ratio_pow(dp87_node(5), 1)) == (0int, 8int));
    ratio_add_value(2880int, 40960int, 0int, 8int);
    assert(ratio_sum(|j: int| ratio_mul(dp87_coupling(5, j), ratio_pow(dp87_node(j), 1)), 6) == (2880int, 40960int));
    assert(dp87_coupling(5, 6) == (0int, 1int));
    assert(dp87_node(6) == (59int, 400int));
    assert(ratio_pow(dp87_node(6), 0) == (1int, 1int));
    ratio_mul_value(1int, 1int, 59int, 400int);
    assert(ratio_pow(dp87_node(6), 1) == (59int, 400int));
    ratio_mul_value(0int, 1int, 59int, 400int);
    assert(ratio_mul(dp87_coupling(5, 6), ratio_pow(dp87_node(6), 1)) == (0int, 400int));
    ratio_add_value(2880int, 40960int, 0int, 400int);
    assert(ratio_sum(|j: int| ratio_mul(dp87_coupling(5, j), ratio_pow(dp87_node(j), 1)), 7) == (2880int, 40960int));
    assert(dp87_coupling(5, 7) == (0int, 1int));
    assert(dp87_node(7) == (93int, 200int));
    assert(ratio_pow(dp87_node(7), 0) == (1int, 1int));
    ratio_mul_value(1int, 1int, 93int, 200int);
    assert(ratio_pow(dp87_node(7), 1) == (93int, 200int));
    ratio_mul_value(0int, 1int, 93int, 200int);
    assert(ratio_mul(dp87_coupling(5, 7), ratio_pow(dp87_node(7), 1)) == (0int, 200int));
    ratio_add_value(2880int, 40960int, 0int, 200int);
    assert(ratio_sum(|j: int| ratio_mul(dp87_coupling(5, j), ratio_pow(dp87_node(j), 1)), 8) == (2880int, 40960int));
    assert(dp87_coupling(5, 8) == (0int, 1int));
    assert(dp87_node(8) == (5490023248int, 9719169821int));
    assert(ratio_pow(dp87_node(8), 0) == (1int, 1int));
    ratio_mul_value(1int, 1int, 5490023248int, 9719169821int);
    assert(ratio_pow(dp87_node(8), 1) == (5490023248int, 9719169821int));
    ratio_mul_value(0int, 1int, 5490023248int, 9719169821int);
    assert(ratio_mul(dp87_coupling(5, 8), ratio_pow(dp87_node(8), 1)) == (0int, 9719169821int));
    ratio_add_value(2880int, 40960int, 0int, 9719169821int);
    assert(ratio_sum(|j: int| ratio_mul(dp87_coupling(5, j), ratio_pow(dp87_node(j), 1)), 9) == (2880int, 40960int));
    assert(dp87_coupling(5, 9) == (0int, 1int));
    assert(dp87_node(9) == (13int, 20int));
    assert(ratio_pow(dp87_node(9), 0) == (1int, 1int));
    ratio_mul_value(1int, 1int, 13int, 20int);
    assert(ratio_pow(dp87_node(9), 1) == (13int, 20int));
    ratio_mul_value(0int, 1int, 13int, 20int);
    assert(ratio_mul(dp87_coupling(5, 9), ratio_pow(dp87_node(9), 1)) == (0int, 20int));
    ratio_add_value(2880int, 40960int, 0int, 20int);
    assert(ratio_sum(|j: int| ratio_mul(dp87_coupling(5, j), ratio_pow(dp87_node(j), 1)), 10) == (2880int, 40960int));
    assert(dp87_coupling(5, 10) == (0int, 1int));
    assert(dp87_node(10) == (1201146811int, 1299019798int));
    assert(ratio_pow(dp87_node(10), 0) == (1int, 1int));
    ratio_mul_value(1int, 1int, 1201146811int, 1299019798int);
    assert(ratio_pow(dp87_node(10), 1) == (1201146811int, 1299019798int));
    ratio_mul_value(0int, 1int, 1201146811int, 1299019798int);
    assert(ratio_mul(dp87_coupling(5, 10), ratio_pow(dp87_node(10), 1)) == (0int, 1299019798int));
    ratio_add_value(2880int, 40960int, 0int, 1299019798int);
    assert(ratio_sum(|j: int| ratio_mul(dp87_coupling(5, j), ratio_pow(dp87_node(j), 1)), 11) == (2880int, 40960int));
    assert(dp87_coupling(5, 11) == (0int, 1int));
    assert(dp87_node(11) == (1int, 1int));
    assert(ratio_pow(dp87_node(11), 0) == (1int, 1int));
    ratio_mul_value(1int, 1int, 1int, 1int);
    assert(ratio_pow(dp87_node(11), 1) == (1int, 1int));
    ratio_mul_value(0int, 1int, 1int, 1int);
    assert(ratio_mul(dp87_coupling(5, 11), ratio_pow(dp87_node(11), 1)) == (0int, 1int));
    ratio_add_value(2880int, 40960int, 0int, 1int);
    assert(ratio_sum(|j: int| ratio_mul(dp87_coupling(5, j), ratio_pow(dp87_node(j), 1)), 12) == (2880int, 40960int));
    assert(dp87_coupling(5, 12) == (0int, 1int));
    assert(dp87_node(12) == (1int, 1int));
    assert(ratio_pow(dp87_node(12), 0) == (1int, 1int));
    ratio_mul_value(1int, 1int, 1int, 1int);
    assert(ratio_pow(dp87_node(12), 1) == (1int, 1int));
    ratio_mul_value(0int, 1int, 1int, 1int);
    assert(ratio_mul(dp87_coupling(5, 12), ratio_pow(dp87_node(12), 1)) == (0int, 1int));
    ratio_add_value(2880int, 40960int, 0int, 1int);
    assert(ratio_sum(|j: int| ratio_mul(dp87_coupling(5, j), ratio_pow(dp87_node(j), 1)), 13) == (2880int, 40960int));
    assert(dp87_node(5) == (3int, 8int));
    assert(ratio_pow(dp87_node(5), 0) == (1int, 1int));
    ratio_mul_value(1int, 1int, 3int, 8int);
    assert(ratio_pow(dp87_node(5), 1) == (3int, 8int));
    ratio_mul_value(3int, 8int, 3int, 8int);
    assert(ratio_pow(dp87_node(5), 2) == (9int, 64int));
    ratio_mul_value(9int, 64int, 1int, 2int);
    assert(ratio_mul(ratio_pow(dp87_node(5), 2), (1, 2)) == (9int, 128int));
    assert(within_1e14((2880int, 40960int), (9int, 128int))) by (nonlinear_arith);
}

/// The moment of degree 1 of row 6, exactly, stage by stage.
#[verifier::spinoff_prover]
proof fn stage_condition_6_1()
    ensures
        within_1e14(coupling_moment(6, 1), ratio_mul(ratio_pow(dp87_node(6), 2), (1, 2))),
{
    assert(ratio_sum(|j: int| ratio_mul(dp87_coupling(6, j), ratio_pow(dp87_node(j), 1)), 0) == (0int, 1int));
    assert(dp87_coupling(6, 0) == (29443841int, 614563906int));
    assert(dp87_node(0) == (0int, 1int));
    assert(ratio_pow(dp87_node(0), 0) == (1int, 1int));
    ratio_mul_value(1int, 1int, 0int, 1int);
    assert(ratio_pow(dp87_node(0), 1) == (0int, 1int));
    ratio_mul_value(29443841int, 614563906int, 0int, 1int);
    assert(ratio_mul(dp87_coupling(6, 0), ratio_pow(dp87_node(0), 1)) == (0int, 614563906int));
    ratio_add_value(0int, 1int, 0int, 614563906int);
    assert(ratio_sum(|j: int| ratio_mul(dp87_coupling(6, j), ratio_pow(dp87_node(j), 1)), 1) == (0int, 1int));
    assert(dp87_coupling(6, 1) == (0int, 1int));
    assert(dp87_node(1) == (1int, 18int));
    assert(ratio_pow(dp87_node(1), 0) == (1int, 1int));
    ratio_mul_value(1int, 1int, 1int, 18int);
    assert(ratio_pow(dp87_node(1), 1) == (1int, 18int));
    ratio_mul_value(0int, 1int, 1int, 18int);
    assert(ratio_mul(dp87_coupling(6, 1), ratio_pow(dp87_node(1), 1)) == (0int, 18int));
    ratio_add_value(0int, 1int, 0int, 18int);
    assert(ratio_sum(|j: int| ratio_mul(dp87_coupling(6, j), ratio_pow(dp87_node(j), 1)), 2) == (0int, 1int));
    assert(dp87_coupling(6, 2) == (0int, 1int));
    assert(dp87_node(2) == (1int, 12int));
    assert(ratio_pow(dp87_node(2), 0) == (1int, 1int));
    ratio_mul_value(1int, 1int, 1int, 12int);
    assert(ratio_pow(dp87_node(2), 1) == (1int, 12int));
    ratio_mul_value(0int, 1int, 1int, 12int);
    assert(ratio_mul(dp87_coupling(6, 2), ratio_pow(dp87_node(2), 1)) == (0int, 12int));
    ratio_add_value(0int, 1int, 0int, 12int);
    assert(ratio_sum(|j: int| ratio_mul(dp87_coupling(6, j), ratio_pow(dp87_node(j), 1)), 3) == (0int, 1int));
    assert(dp87_coupling(6, 3) == (77736538int, 692538347int));
    assert(dp87_node(3) == (1int, 8int));
    assert(ratio_pow(dp87_node(3), 0) == (1int, 1int));
    ratio_mul_value(1int, 1int, 1int, 8int);
    assert(ratio_pow(dp87_node(3), 1) == (1int, 8int));
    ratio_mul_value(77736538int, 692538347int, 1int, 8int);
    assert(ratio_mul(dp87_coupling(6, 3), ratio_pow(dp87_node(3), 1)) == (77736538int, 5540306776int));
    ratio_add_value(0int, 1int, 77736538int, 5540306776int);
    assert(ratio_sum(|j: int| ratio_mul(dp87_coupling(6, j), ratio_pow(dp87_node(j), 1)), 4) == (77736538int, 5540306776int));
    assert(dp87_coupling(6, 4) == (-28693883int, 1125000000int));
    assert(dp87_node(4) == (5int, 16int));
    assert(ratio_pow(dp87_node(4), 0) == (1int, 1int));
    ratio_mul_value(1int, 1int, 5int, 16int);
    assert(ratio_pow(dp87_node(4), 1) == (5int, 16int));
    ratio_mul_value(-28693883int, 1125000000int, 5int, 16int);
    assert(ratio_mul(dp87_coupling(6, 4), ratio_pow(dp87_node(4), 1)) == (-143469415int, 18000000000int));
    ratio_add_value(77736538int, 5540306776int, -143469415int, 18000000000int);
    assert(ratio_sum(|j: int| ratio_mul(dp87_coupling(6, j), ratio_pow(dp87_node(j), 1)), 5) == (604393111926743960int, 99725521968000000000int));
    assert(dp87_coupling(6, 5) == (23124283int, 1800000000int));
    assert(dp87_node(5) == (3int, 8int));
    assert(ratio_pow(dp87_node(5), 0) == (1int, 1int));
    ratio_mul_value(1int, 1int, 3int, 8int);
    assert(ratio_pow(dp87_node(5), 1) == (3int, 8int));
    ratio_mul_value(23124283int, 1800000000int, 3int, 8int);
    assert(ratio_mul(dp87_coupling(6, 5), ratio_pow(dp87_node(5), 1)) == (69372849int, 14400000000int));
    ratio_add_value(604393111926743960int, 99725521968000000000int, 69372849int, 14400000000int);
    assert(ratio_sum(|j: int| ratio_mul(dp87_coupling(6, j), ratio_pow(dp87_node(j), 1)), 6) == (15621504388677359856000000000int, 1436047516339200000000000000000int));
    assert(dp87_coupling(6, 6) == (0int, 1int));
    assert(dp87_node(6) == (59int, 400int));
    assert(ratio_pow(dp87_node(6), 0) == (1int, 1int));
    ratio_mul_value(1int, 1int, 59int, 400int);
    assert(ratio_pow(dp87_node(6), 1) == (59int, 400int));
    ratio_mul_value(0int, 1int, 59int, 400int);
    assert(ratio_mul(dp87_coupling(6, 6), ratio_pow(dp87_node(6), 1)) == (0int, 400int));
    ratio_add_value(15621504388677359856000000000int, 1436047516339200000000000000000int, 0int, 400int);
    assert(ratio_sum(|j: int| ratio_mul(dp87_coupling(6, j), ratio_pow(dp87_node(j), 1)), 7) == (15621504388677359856000000000int, 1436047516339200000000000000000int));
    assert(dp87_coupling(6, 7) == (0int, 1int));
    assert(dp87_node(7) == (93int, 200int));
    assert(ratio_pow(dp87_node(7), 0) == (1int, 1int));
    ratio_mul_value(1int, 1int, 93int, 200int);
    assert(ratio_pow(dp87_node(7), 1) == (93int, 200int));
    ratio_mul_value(0int, 1int, 93int, 200int);
    assert(ratio_mul(dp87_coupling(6, 7), ratio_pow(dp87_node(7), 1)) == (0int, 200int));
    ratio_add_value(15621504388677359856000000000int, 1436047516339200000000000000000int, 0int, 200int);
    assert(ratio_sum(|j: int| ratio_mul(dp87_coupling(6, j), ratio_pow(dp87_node(j), 1)), 8) == (15621504388677359856000000000int, 1436047516339200000000000000000int));
    assert(dp87_coupling(6, 8) == (0int, 1int));
    assert(dp87_node(8) == (5490023248int, 9719169821int));
    assert(ratio_pow(dp87_node(8), 0) == (1int, 1int));
    ratio_mul_value(1int, 1int, 5490023248int, 9719169821int);
    assert(ratio_pow(dp87_node(8), 1) == (5490023248int, 9719169821int));
    ratio_mul_value(0int, 1int, 5490023248int, 9719169821int);
    assert(ratio_mul(dp87_coupling(6, 8), ratio_pow(dp87_node(8), 1)) == (0int, 9719169821int));
    ratio_add_value(15621504388677359856000000000int, 1436047516339200000000000000000int, 0int, 9719169821int);
    assert(ratio_sum(|j: int| ratio_mul(dp87_coupling(6, j), ratio_pow(dp87_node(j), 1)), 9) == (15621504388677359856000000000int, 1436047516339200000000000000000int));
    assert(dp87_coupling(6, 9) == (0int, 1int));
    assert(dp87_node(9) == (13int, 20int));
    assert(ratio_pow(dp87_node(9), 0) == (1int, 1int));
    ratio_mul_value(1int, 1int, 13int, 20int);
    assert(ratio_pow(dp87_node(9), 1) == (13int, 20int));
    ratio_mul_value(0int, 1int, 13int, 20int);
    assert(ratio_mul(dp87_coupling(6, 9), ratio_pow(dp87_node(9), 1)) == (0int, 20int));
    ratio_add_value(15621504388677359856000000000int, 1436047516339200000000000000000int, 0int, 20int);
    assert(ratio_sum(|j: int| ratio_mul(dp87_coupling(6, j), ratio_pow(dp87_node(j), 1)), 10) == (15621504388677359856000000000int, 1436047516339200000000000000000int));
    assert(dp87_coupling(6, 10) == (0int, 1int));
    assert(dp87_node(10) == (1201146811int, 1299019798int));
    assert(ratio_pow(dp87_node(10), 0) == (1int, 1int));
    ratio_mul_value(1int, 1int, 1201146811int, 1299019798int);
    assert(ratio_pow(dp87_node(10), 1) == (1201146811int, 1299019798int));
    ratio_mul_value(0int, 1int, 1201146811int, 1299019798int);
    assert(ratio_mul(dp87_coupling(6, 10), ratio_pow(dp87_node(10), 1)) == (0int, 1299019798int));
    ratio_add_value(15621504388677359856000000000int, 1436047516339200000000000000000int, 0int, 1299019798int);
    assert(ratio_sum(|j: int| ratio_mul(dp87_coupling(6, j), ratio_pow(dp87_node(j), 1)), 11) == (15621504388677359856000000000int, 1436047516339200000000000000000int));
    assert(dp87_coupling(6, 11) == (0int, 1int));
    assert(dp87_node(11) == (1int, 1int));
    assert(ratio_pow(dp87_node(11), 0) == (1int, 1int));
    ratio_mul_value(1int, 1int, 1int, 1int);
    assert(ratio_pow(dp87_node(11), 1) == (1int, 1int));
    ratio_mul_value(0int, 1int, 1int, 1int);
    assert(ratio_mul(dp87_coupling(6, 11), ratio_pow(dp87_node(11), 1)) == (0int, 1int));
    ratio_add_value(15621504388677359856000000000int, 1436047516339200000000000000000int, 0int, 1int);
    assert(ratio_sum(|j: int| ratio_mul(dp87_coupling(6, j), ratio_pow(dp87_node(j), 1)), 12) == (15621504388677359856000000000int, 1436047516339200000000000000000int));
    assert(dp87_coupling(6, 12) == (0int, 1int));
    assert(dp87_node(12) == (1int, 1int));
    assert(ratio_pow(dp87_node(12), 0) == (1int, 1int));
    ratio_mul_value(1int, 1int, 1int, 1int);
    assert(ratio_pow(dp87_node(12), 1) == (1int, 1int));
    ratio_mul_value(0int, 1int, 1int, 1int);
    assert(ratio_mul(dp87_coupling(6, 12), ratio_pow(dp87_node(12), 1)) == (0int, 1int));
    ratio_add_value(15621504388677359856000000000int, 1436047516339200000000000000000int, 0int, 1int);
    assert(ratio_sum(|j: int| ratio_mul(dp87_coupling(6, j), ratio_pow(dp87_node(j), 1)), 13) == (15621504388677359856000000000int, 1436047516339200000000000000000int));
    assert(dp87_node(6) == (59int, 400int));
    assert(ratio_pow(dp87_node(6), 0) == (1int, 1int));
    ratio_mul_value(1int, 1int, 59int, 400int);
    assert(ratio_pow(dp87_node(6), 1) == (59int, 400int));
    ratio_mul_value(59int, 400int, 59int, 400int);
    assert(ratio_pow(dp87_node(6), 2) == (3481int, 160000int));
    ratio_mul_value(3481int, 160000int, 1int, 2int);
    assert(ratio_mul(ratio_pow(dp87_node(6), 2), (1, 2)) == (3481int, 320000int));
    assert(within_1e14((15621504388677359856000000000int, 1436047516339200000000000000000int), (3481int, 320000int))) by (nonlinear_arith);
}

/// The moment of degree 1 of row 7, exactly, stage by stage.
#[verifier::spinoff_prover]
proof fn stage_condition_7_1()
    ensures
        within_1e14(coupling_moment(7, 1), ratio_mul(ratio_pow(dp87_node(7), 2), (1, 2))),
{
    assert(ratio_sum(|j: int| ratio_mul(dp87_coupling(7, j), ratio_pow(dp87_node(j), 1)), 0) == (0int, 1int));
    assert(dp87_coupling(7, 0) == (16016141int, 946692911int));
    assert(dp87_node(0) == (0int, 1int));
    assert(ratio_pow(dp87_node(0), 0) == (1int, 1int));
    ratio_mul_value(1int, 1int, 0int, 1int);
    assert(ratio_pow(dp87_node(0), 1) == (0int, 1int));
    ratio_mul_value(16016141int, 946692911int, 0int, 1int);
    assert(ratio_mul(dp87_coupling(7, 0), ratio_pow(dp87_node(0), 1)) == (0int, 946692911int));
    ratio_add_value(0int, 1int, 0int, 946692911int);
    assert(ratio_sum(|j: int| ratio_mul(dp87_coupling(7, j), ratio_pow(dp87_node(j), 1)), 1) == (0int, 1int));
    assert(dp87_coupling(7, 1) == (0int, 1int));
    assert(dp87_node(1) == (1int, 18int));
    assert(ratio_pow(dp87_node(1), 0) == (1int, 1int));
    ratio_mul_value(1int, 1int, 1int, 18int);
    assert(ratio_pow(dp87_node(1), 1) == (1int, 18int));
    ratio_mul_value(0int, 1int, 1int, 18int);
    assert(ratio_mul(dp87_coupling(7, 1), ratio_pow(dp87_node(1), 1)) == (0int, 18int));
    ratio_add_value(0int, 1int, 0int, 18int);
    assert(ratio_sum(|j: int| ratio_mul(dp87_coupling(7, j), ratio_pow(dp87_node(j), 1)), 2) == (0int, 1int));
    assert(dp87_coupling(7, 2) == (0int, 1int));
    assert(dp87_node(2) == (1int, 12int));
    assert(ratio_pow(dp87_node(2), 0) == (1int, 1int));
    ratio_mul_value(1int, 1int, 1int, 12int);
    assert(ratio_pow(dp87_node(2), 1) == (1int, 12int));
    ratio_mul_value(0int, 1int, 1int, 12int);
    assert(ratio_mul(dp87_coupling(7, 2), ratio_pow(dp87_node(2), 1)) == (0int, 12int));
    ratio_add_value(0int, 1int, 0int, 12int);
    assert(ratio_sum(|j: int| ratio_mul(dp87_coupling(7, j), ratio_pow(dp87_node(j), 1)), 3) == (0int, 1int));
    assert(dp87_coupling(7, 3) == (61564180int, 158732637int));
    assert(dp87_node(3) == (1int, 8int));
    assert(ratio_pow(dp87_node(3), 0) == (1int, 1int));
    ratio_mul_value(1int, 1int, 1int, 8int);
    assert(ratio_pow(dp87_node(3), 1) == (1int, 8int));
    ratio_mul_value(61564180int, 158732637int, 1int, 8int);
    assert(ratio_mul(dp87_coupling(7, 3), ratio_pow(dp87_node(3), 1)) == (61564180int, 1269861096int));
    ratio_add_value(0int, 1int, 61564180int, 1269861096int);
    assert(ratio_sum(|j: int| ratio_mul(dp87_coupling(7, j), ratio_pow(dp87_node(j), 1)), 4) == (61564180int, 1269861096int));
    assert(dp87_coupling(7, 4) == (22789713int, 633445777int));
    assert(dp87_node(4) == (5int, 16int));
    assert(ratio_pow(dp87_node(4), 0) == (1int, 1int));
    ratio_mul_value(1int, 1int, 5int, 16int);
    assert(ratio_pow(dp87_node(4), 1) == (5int, 16int));
    ratio_mul_value(22789713int, 633445777int, 5int, 16int);
    assert(ratio_mul(dp87_coupling(7, 4), ratio_pow(dp87_node(4), 1)) == (113948565int, 10135132432int));
    ratio_add_value(61564180int, 1269861096int, 113948565int, 10135132432int);
    assert(ratio_sum(|j: int| ratio_mul(dp87_coupling(7, j), ratio_pow(dp87_node(j), 1)), 5) == (768659967006013000int, 12870210378204665472int));
    assert(dp87_coupling(7, 5) == (545815736int, 2771057229int));
    assert(dp87_node(5) == (3int, 8int));
    assert(ratio_pow(dp87_node(5), 0) == (1int, 1int));
    ratio_mul_value(1int, 1int, 3int, 8int);
    assert(ratio_pow(dp87_node(5), 1) == (3int, 8int));
    ratio_mul_value(545815736int, 2771057229int, 3int, 8int);
    assert(ratio_mul(dp87_coupling(7, 5), ratio_pow(dp87_node(5), 1)) == (1637447208int, 22168457832int));
    ratio_add_value(768659967006013000int, 12870210378204665472int, 1637447208int, 22168457832int);
    assert(ratio_sum(|j: int| ratio_mul(dp87_coupling(7, j), ratio_pow(dp87_node(j), 1)), 6) == (38114296115883164010644218176int, 285312716058198898381698376704int));
    assert(dp87_coupling(7, 6) == (-180193667int, 1043307555int));
    assert(dp87_node(6) == (59int, 400int));
    assert(ratio_pow(dp87_node(6), 0) == (1int, 1int));
    ratio_mul_value(1int, 1int, 59int, 400int);
    assert(ratio_pow(dp87_node(6), 1) == (59int, 400int));
    ratio_mul_value(-180193667int, 1043307555int, 59int, 400int);
    assert(ratio_mul(dp87_coupling(7, 6), ratio_pow(dp87_node(6), 1)) == (-10631426353int, 417323022000int));
    ratio_add_value(38114296115883164010644218176int, 285312716058198898381698376704int, -10631426353int, 417323022000int);
    assert(ratio_sum(|j: int| ratio_mul(dp87_coupling(7, j), ratio_pow(dp87_node(j), 1)), 7) == (12872692108136082153872928121047420991488int, 119067564880435492149721276058607679488000int));
    assert(dp87_coupling(7, 7) == (0int, 1int));
    assert(dp87_node(7) == (93int, 200int));
    assert(ratio_pow(dp87_node(7), 0) == (1int, 1int));
    ratio_mul_value(1int, 1int, 93int, 200int);
    assert(ratio_pow(dp87_node(7), 1) == (93int, 200int));
    ratio_mul_value(0int, 1int, 93int, 200int);
    assert(ratio_mul(dp87_coupling(7, 7), ratio_pow(dp87_node(7), 1)) == (0int, 200int));
    ratio_add_value(12872692108136082153872928121047420991488int, 119067564880435492149721276058607679488000int, 0int, 200int);
    assert(ratio_sum(|j: int| ratio_mul(dp87_coupling(7, j), ratio_pow(dp87_node(j), 1)), 8) == (12872692108136082153872928121047420991488int, 119067564880435492149721276058607679488000int));
    assert(dp87_coupling(7, 8) == (0int, 1int));
    assert(dp87_node(8) == (5490023248int, 9719169821int));
    assert(ratio_pow(dp87_node(8), 0) == (1int, 1int));
    ratio_mul_value(1int, 1int, 5490023248int, 9719169821int);
    assert(ratio_pow(dp87_node(8), 1) == (5490023248int, 9719169821int));
    ratio_mul_value(0int, 1int, 5490023248int, 9719169821int);
    assert(ratio_mul(dp87_coupling(7, 8), ratio_pow(dp87_node(8), 1)) == (0int, 9719169821int));
    ratio_add_value(12872692108136082153872928121047420991488int, 119067564880435492149721276058607679488000int, 0int, 9719169821int);
    assert(ratio_sum(|j: int| ratio_mul(dp87_coupling(7, j), ratio_pow(dp87_node(j), 1)), 9) == (12872692108136082153872928121047420991488int, 119067564880435492149721276058607679488000int));
    assert(dp87_coupling(7, 9) == (0int, 1int));
    assert(dp87_node(9) == (13int, 20int));
    assert(ratio_pow(dp87_node(9), 0) == (1int, 1int));
    ratio_mul_value(1int, 1int, 13int, 20int);
    assert(ratio_pow(dp87_node(9), 1) == (13int, 20int));
    ratio_mul_value(0int, 1int, 13int, 20int);
    assert(ratio_mul(dp87_coupling(7, 9), ratio_pow(dp87_node(9), 1)) == (0int, 20int));
    ratio_add_value(12872692108136082153872928121047420991488int, 119067564880435492149721276058607679488000int, 0int, 20int);
    assert(ratio_sum(|j: int| ratio_mul(dp87_coupling(7, j), ratio_pow(dp87_node(j), 1)), 10) == (12872692108136082153872928121047420991488int, 119067564880435492149721276058607679488000int));
    assert(dp87_coupling(7, 10) == (0int, 1int));
    assert(dp87_node(10) == (1201146811int, 1299019798int));
    assert(ratio_pow(dp87_node(10), 0) == (1int, 1int));
    ratio_mul_value(1int, 1int, 1201146811int, 1299019798int);
    assert(ratio_pow(dp87_node(10), 1) == (1201146811int, 1299019798int));
    ratio_mul_value(0int, 1int, 1201146811int, 1299019798int);
    assert(ratio_mul(dp87_coupling(7, 10), ratio_pow(dp87_node(10), 1)) == (0int, 1299019798int));
    ratio_add_value(12872692108136082153872928121047420991488int, 119067564880435492149721276058607679488000int, 0int, 1299019798int);
    assert(ratio_sum(|j: int| ratio_mul(dp87_coupling(7, j), ratio_pow(dp87_node(j), 1)), 11) == (12872692108136082153872928121047420991488int, 119067564880435492149721276058607679488000int));
    assert(dp87_coupling(7, 11) == (0int, 1int));
    assert(dp87_node(11) == (1int, 1int));
    assert(ratio_pow(dp87_node(11), 0) == (1int, 1int));
    ratio_mul_value(1int, 1int, 1int, 1int);
    assert(ratio_pow(dp87_node(11), 1) == (1int, 1int));
    ratio_mul_value(0int, 1int, 1int, 1int);
    assert(ratio_mul(dp87_coupling(7, 11), ratio_pow(dp87_node(11), 1)) == (0int, 1int));
    ratio_add_value(12872692108136082153872928121047420991488int, 119067564880435492149721276058607679488000int, 0int, 1int);
    assert(ratio_sum(|j: int| ratio_mul(dp87_coupling(7, j), ratio_pow(dp87_node(j), 1)), 12) == (12872692108136082153872928121047420991488int, 119067564880435492149721276058607679488000int));
    assert(dp87_coupling(7, 12) == (0int, 1int));
    assert(dp87_node(12) == (1int, 1int));
    assert(ratio_pow(dp87_node(12), 0) == (1int, 1int));
    ratio_mul_value(1int, 1int, 1int, 1int);
    assert(ratio_pow(dp87_node(12), 1) == (1int, 1int));
    ratio_mul_value(0int, 1int, 1int, 1int);
    assert(ratio_mul(dp87_coupling(7, 12), ratio_pow(dp87_node(12), 1)) == (0int, 1int));
    ratio_add_value(12872692108136082153872928121047420991488int, 119067564880435492149721276058607679488000int, 0int, 1int);
    assert(ratio_sum(|j: int| ratio_mul(dp87_coupling(7, j), ratio_pow(dp87_node(j), 1)), 13) == (12872692108136082153872928121047420991488int, 119067564880435492149721276058607679488000int));
    assert(dp87_node(7) == (93int, 200int));
    assert(ratio_pow(dp87_node(7), 0) == (1int, 1int));
    ratio_mul_value(1int, 1int, 93int, 200int);
    assert(ratio_pow(dp87_node(7), 1) == (93int, 200int));
    ratio_mul_value(93int, 200int, 93int, 200int);
    assert(ratio_pow(dp87_node(7), 2) == (8649int, 40000int));
    ratio_mul_value(8649int, 40000int, 1int, 2int);
    assert(ratio_mul(ratio_pow(dp87_node(7), 2), (1, 2)) == (8649int, 80000int));
    assert(within_1e14((12872692108136082153872928121047420991488int, 119067564880435492149721276058607679488000int), (8649int, 80000int))) by (nonlinear_arith);
}

/// The moment of degree 1 of row 8, exactly, stage by stage.
#[verifier::spinoff_prover]
proof fn stage_condition_8_1()
    ensures
        within_1e14(coupling_moment(8, 1), ratio_mul(ratio_pow(dp87_node(8), 2), (1, 2))),
{
    assert(ratio_sum(|j: int| ratio_mul(dp87_coupling(8, j), ratio_pow(dp87_node(j), 1)), 0) == (0int, 1int));
    assert(dp87_coupling(8, 0) == (39632708int, 573591083int));
    assert(dp87_node(0) == (0int, 1int));
    assert(ratio_pow(dp87_node(0), 0) == (1int, 1int));
    ratio_mul_value(1int, 1int, 0int, 1int);
    assert(ratio_pow(dp87_node(0), 1) == (0int, 1int));
    ratio_mul_value(39632708int, 573591083int, 0int, 1int);
    assert(ratio_mul(dp87_coupling(8, 0), ratio_pow(dp87_node(0), 1)) == (0int, 573591083int));
    ratio_add_value(0int, 1int, 0int, 573591083int);
    assert(ratio_sum(|j: int| ratio_mul(dp87_coupling(8, j), ratio_pow(dp87_node(j), 1)), 1) == (0int, 1int));
    assert(dp87_coupling(8, 1) == (0int, 1int));
    assert(dp87_node(1) == (1int, 18int));
    assert(ratio_pow(dp87_node(1), 0) == (1int, 1int));
    ratio_mul_value(1int, 1int, 1int, 18int);
    assert(ratio_pow(dp87_node(1), 1) == (1int, 18int));
    ratio_mul_value(0int, 1int, 1int, 18int);
    assert(ratio_mul(dp87_coupling(8, 1), ratio_pow(dp87_node(1), 1)) == (0int, 18int));
    ratio_add_value(0int, 1int, 0int, 18int);
    assert(ratio_sum(|j: int| ratio_mul(dp87_coupling(8, j), ratio_pow(dp87_node(j), 1)), 2) == (0int, 1int));
    assert(dp87_coupling(8, 2) == (0int, 1int));
    assert(dp87_node(2) == (1int, 12int));
    assert(ratio_pow(dp87_node(2), 0) == (1int, 1int));
    ratio_mul_value(1int, 1int, 1int, 12int);
    assert(ratio_pow(dp87_node(2), 1) == (1int, 12int));
    ratio_mul_value(0int, 1int, 1int, 12int);
    assert(ratio_mul(dp87_coupling(8, 2), ratio_pow(dp87_node(2), 1)) == (0int, 12int));
    ratio_add_value(0int, 1int, 0int, 12int);
    assert(ratio_sum(|j: int| ratio_mul(dp87_coupling(8, j), ratio_pow(dp87_node(j), 1)), 3) == (0int, 1int));
    assert(dp87_coupling(8, 3) == (-433636366int, 683701615int));
    assert(dp87_node(3) == (1int, 8int));
    assert(ratio_pow(dp87_node(3), 0) == (1int, 1int));
    ratio_mul_value(1int, 1int, 1int, 8int);
    assert(ratio_pow(dp87_node(3), 1) == (1int, 8int));
    ratio_mul_value(-433636366int, 683701615int, 1int, 8int);
    assert(ratio_mul(dp87_coupling(8, 3), ratio_pow(dp87_node(3), 1)) == (-433636366int, 5469612920int));
    ratio_add_value(0int, 1int, -433636366int, 5469612920int);
    assert(ratio_sum(|j: int| ratio_mul(dp87_coupling(8, j), ratio_pow(dp87_node(j), 1)), 4) == (-433636366int, 5469612920int));
    assert(dp87_coupling(8, 4) == (-421739975int, 2616292301int));
    assert(dp87_node(4) == (5int, 16int));
    assert(ratio_pow(dp87_node(4), 0) == (1int, 1int));
    ratio_mul_value(1int, 1int, 5int, 16int);
    assert(ratio_pow(dp87_node(4), 1) == (5int, 16int));
    ratio_mul_value(-421739975int, 2616292301int, 5int, 16int);
    assert(ratio_mul(dp87_coupling(8, 4), ratio_pow(dp87_node(4), 1)) == (-2108699875int, 41860676816int));
    ratio_add_value(-433636366int, 5469612920int, -2108699875int, 41860676816int);
    assert(ratio_sum(|j: int| ratio_mul(dp87_coupling(8, j), ratio_pow(dp87_node(j), 1)), 5) == (-29686083853493075656int, 228961698752738062720int));
    assert(dp87_coupling(8, 5) == (100302831int, 723423059int));
    assert(dp87_node(5) == (3int, 8int));
    assert(ratio_pow(dp87_node(5), 0) == (1int, 1int));
    ratio_mul_value(1int, 1int, 3int, 8int);
    assert(ratio_pow(dp87_node(5), 1) == (3int, 8int));
    ratio_mul_value(100302831int, 723423059int, 3int, 8int);
    assert(ratio_mul(dp87_coupling(8, 5), ratio_pow(dp87_node(5), 1)) == (300908493int, 5787384472int));
    ratio_add_value(-29686083853493075656int, 228961698752738062720int, 300908493int, 5787384472int);
    assert(ratio_sum(|j: int| ratio_mul(dp87_coupling(8, j), ratio_pow(dp87_node(j), 1)), 6) == (-102908261001789358934240932672int, 1325089380044338031669090083840int));
    assert(dp87_coupling(8, 6) == (790204164int, 839813087int));
    assert(dp87_node(6) == (59int, 400int));
    assert(ratio_pow(dp87_node(6), 0) == (1int, 1int));
    ratio_mul_value(1int, 1int, 59int, 400int);
    assert(ratio_pow(dp87_node(6), 1) == (59int, 400int));
    ratio_mul_value(790204164int, 839813087int, 59int, 400int);
    assert(ratio_mul(dp87_coupling(8, 6), ratio_pow(dp87_node(6), 1)) == (46622045676int, 335925234800int));
    ratio_add_value(-102908261001789358934240932672int, 1325089380044338031669090083840int, 46622045676int, 335925234800int);
    assert(ratio_sum(|j: int| ratio_mul(dp87_coupling(8, j), ratio_pow(dp87_node(j), 1)), 7) == (27208895861323876997533889338534558090240int, 445130961122380687699008922316303685632000int));
    assert(dp87_coupling(8, 7) == (800635310int, 3783071287int));
    assert(dp87_node(7) == (93int, 200int));
    assert(ratio_pow(dp87_node(7), 0) == (1int, 1int));
    ratio_mul_value(1int, 1int, 93int, 200int);
    assert(ratio_pow(dp87_node(7), 1) == (93int, 200int));
    ratio_mul_value(800635310int, 3783071287int, 93int, 200int);
    assert(ratio_mul(dp87_coupling(8, 7), ratio_pow(dp87_node(7), 1)) == (74459083830int, 756614257400int));
    ratio_add_value(27208895861323876997533889338534558090240int, 445130961122380687699008922316303685632000int, 74459083830int, 756614257400int);
    assert(ratio_sum(|j: int| ratio_mul(dp87_coupling(8, j), ratio_pow(dp87_node(j), 1)), 8) == (53730682086329313089931600467876715777895154318336000int, 336792431595358334543486950474324401017338729676800000int));
    assert(dp87_coupling(8, 8) == (0int, 1int));
    assert(dp87_node(8) == (5490023248int, 9719169821int));
    assert(ratio_pow(dp87_node(8), 0) == (1int, 1int));
    ratio_mul_value(1int, 1int, 5490023248int, 9719169821int);
    assert(ratio_pow(dp87_node(8), 1) == (5490023248int, 9719169821int));
    ratio_mul_value(0int, 1int, 5490023248int, 9719169821int);
    assert(ratio_mul(dp87_coupling(8, 8), ratio_pow(dp87_node(8), 1)) == (0int, 9719169821int));
    ratio_add_value(53730682086329313089931600467876715777895154318336000int, 336792431595358334543486950474324401017338729676800000int, 0int, 9719169821int);
    assert(ratio_sum(|j: int| ratio_mul(dp87_coupling(8, j), ratio_pow(dp87_node(j), 1)), 9) == (53730682086329313089931600467876715777895154318336000int, 336792431595358334543486950474324401017338729676800000int));
    assert(dp87_coupling(8, 9) == (0int, 1int));
    assert(dp87_node(9) == (13int, 20int));
    assert(ratio_pow(dp87_node(9), 0) == (1int, 1int));
    ratio_mul_value(1int, 1int, 13int, 20int);
    assert(ratio_pow(dp87_node(9), 1) == (13int, 20int));
    ratio_mul_value(0int, 1int, 13int, 20int);
    assert(ratio_mul(dp87_coupling(8, 9), ratio_pow(dp87_node(9), 1)) == (0int, 20int));
    ratio_add_value(53730682086329313089931600467876715777895154318336000int, 336792431595358334543486950474324401017338729676800000int, 0int, 20int);
    assert(ratio_sum(|j: int| ratio_mul(dp87_coupling(8, j), ratio_pow(dp87_node(j), 1)), 10) == (53730682086329313089931600467876715777895154318336000int, 336792431595358334543486950474324401017338729676800000int));
    assert(dp87_coupling(8, 10) == (0int, 1int));
    assert(dp87_node(10) == (1201146811int, 1299019798int));
    assert(ratio_pow(dp87_node(10), 0) == (1int, 1int));
    ratio_mul_value(1int, 1int, 1201146811int, 1299019798int);
    assert(ratio_pow(dp87_node(10), 1) == (1201146811int, 1299019798int));
    ratio_mul_value(0int, 1int, 1201146811int, 1299019798int);
    assert(ratio_mul(dp87_coupling(8, 10), ratio_pow(dp87_node(10), 1)) == (0int, 1299019798int));
    ratio_add_value(53730682086329313089931600467876715777895154318336000int, 336792431595358334543486950474324401017338729676800000int, 0int, 1299019798int);
    assert(ratio_sum(|j: int| ratio_mul(dp87_coupling(8, j), ratio_pow(dp87_node(j), 1)), 11) == (53730682086329313089931600467876715777895154318336000int, 336792431595358334543486950474324401017338729676800000int));
    assert(dp87_coupling(8, 11) == (0int, 1int));
    assert(dp87_node(11) == (1int, 1int));
    assert(ratio_pow(dp87_node(11), 0) == (1int, 1int));
    ratio_mul_value(1int, 1int, 1int, 1int);
    assert(ratio_pow(dp87_node(11), 1) == (1int, 1int));
    ratio_mul_value(0int, 1int, 1int, 1int);
    assert(ratio_mul(dp87_coupling(8, 11), ratio_pow(dp87_node(11), 1)) == (0int, 1int));
    ratio_add_value(53730682086329313089931600467876715777895154318336000int, 336792431595358334543486950474324401017338729676800000int, 0int, 1int);
    assert(ratio_sum(|j: int| ratio_mul(dp87_coupling(8, j), ratio_pow(dp87_node(j), 1)), 12) == (53730682086329313089931600467876715777895154318336000int, 336792431595358334543486950474324401017338729676800000int));
    assert(dp87_coupling(8, 12) == (0int, 1int));
    assert(dp87_node(12) == (1int, 1int));
    assert(ratio_pow(dp87_node(12), 0) == (1int, 1int));
    ratio_mul_value(1int, 1int, 1int, 1int);
    assert(ratio_pow(dp87_node(12), 1) == (1int, 1int));
    ratio_mul_value(0int, 1int, 1int, 1int);
    assert(ratio_mul(dp87_coupling(8, 12), ratio_pow(dp87_node(12), 1)) == (0int, 1int));
    ratio_add_value(53730682086329313089931600467876715777895154318336000int, 336792431595358334543486950474324401017338729676800000int, 0int, 1int);
    assert(ratio_sum(|j: int| ratio_mul(dp87_coupling(8, j), ratio_pow(dp87_node(j), 1)), 13) == (53730682086329313089931600467876715777895154318336000int, 336792431595358334543486950474324401017338729676800000int));
    assert(dp87_node(8) == (5490023248int, 9719169821int));
    assert(ratio_pow(dp87_node(8), 0) == (1int, 1int));
    ratio_mul_value(1int, 1int, 5490023248int, 9719169821int);
    assert(ratio_pow(dp87_node(8), 1) == (5490023248int, 9719169821int));
    ratio_mul_value(5490023248int, 9719169821int, 5490023248int, 9719169821int);
    assert(ratio_pow(dp87_node(8), 2) == (30140355263580469504int, 94462262009437172041int));
    ratio_mul_value(30140355263580469504int, 94462262009437172041int, 1int, 2int);
    assert(ratio_mul(ratio_pow(dp87_node(8), 2), (1, 2)) == (30140355263580469504int, 188924524018874344082int));
    assert(within_1e14((53730682086329313089931600467876715777895154318336000int, 336792431595358334543486950474324401017338729676800000int), (30140355263580469504int, 188924524018874344082int))) by (nonlinear_arith);
}

/// The moment of degree 1 of row 9, exactly, stage by stage.
#[verifier::spinoff_prover]
proof fn stage_condition_9_1()
    ensures
        within_1e14(coupling_moment(9, 1), ratio_mul(ratio_pow(dp87_node(9), 2), (1, 2))),
{
    assert(ratio_sum(|j: int| ratio_mul(dp87_coupling(9, j), ratio_pow(dp87_node(j), 1)), 0) == (0int, 1int));
    assert(dp87_coupling(9, 0) == (246121993int, 1340847787int));
    assert(dp87_node(0) == (0int, 1int));
    assert(ratio_pow(dp87_node(0), 0) == (1int, 1int));
    ratio_mul_value(1int, 1int, 0int, 1int);
    assert(ratio_pow(dp87_node(0), 1) == (0int, 1int));
    ratio_mul_value(246121993int, 1340847787int, 0int, 1int);
    assert(ratio_mul(dp87_coupling(9, 0), ratio_pow(dp87_node(0), 1)) == (0int, 1340847787int));
    ratio_add_value(0int, 1int, 0int, 1340847787int);
    assert(ratio_sum(|j: int| ratio_mul(dp87_coupling(9, j), ratio_pow(dp87_node(j), 1)), 1) == (0int, 1int));
    assert(dp87_coupling(9, 1) == (0int, 1int));
    assert(dp87_node(1) == (1int, 18int));
    assert(ratio_pow(dp87_node(1), 0) == (1int, 1int));
    ratio_mul_value(1int, 1int, 1int, 18int);
    assert(ratio_pow(dp87_node(1), 1) == (1int, 18int));
    ratio_mul_value(0int, 1int, 1int, 18int);
    assert(ratio_mul(dp87_coupling(9, 1), ratio_pow(dp87_node(1), 1)) == (0int, 18int));
    ratio_add_value(0int, 1int, 0int, 18int);
    assert(ratio_sum(|j: int| ratio_mul(dp87_coupling(9, j), ratio_pow(dp87_node(j), 1)), 2) == (0int, 1int));
    assert(dp87_coupling(9, 2) == (0int, 1int));
    assert(dp87_node(2) == (1int, 12int));
    assert(ratio_pow(dp87_node(2), 0) == (1int, 1int));
    ratio_mul_value(1int, 1int, 1int, 12int);
    assert(ratio_pow(dp87_node(2), 1) == (1int, 12int));
    ratio_mul_value(0int, 1int, 1int, 12int);
    assert(ratio_mul(dp87_coupling(9, 2), ratio_pow(dp87_node(2), 1)) == (0int, 12int));
    ratio_add_value(0int, 1int, 0int, 12int);
    assert(ratio_sum(|j: int| ratio_mul(dp87_coupling(9, j), ratio_pow(dp87_node(j), 1)), 3) == (0int, 1int));
    assert(dp87_coupling(9, 3) == (-37695042795int, 15268766246int));
    assert(dp87_node(3) == (1int, 8int));
    assert(ratio_pow(dp87_node(3), 0) == (1int, 1int));
    ratio_mul_value(1int, 1int, 1int, 8int);
    assert(ratio_pow(dp87_node(3), 1) == (1int, 8int));
    ratio_mul_value(-37695042795int, 15268766246int, 1int, 8int);
    assert(ratio_mul(dp87_coupling(9, 3), ratio_pow(dp87_node(3), 1)) == (-37695042795int, 122150129968int));
    ratio_add_value(0int, 1int, -37695042795int, 122150129968int);
    assert(ratio_sum(|j: int| ratio_mul(dp87_coupling(9, j), ratio_pow(dp87_node(j), 1)), 4) == (-37695042795int, 122150129968int));
    assert(dp87_coupling(9, 4) == (-309121744int, 1061227803int));
    assert(dp87_node(4) == (5int, 16int));
    assert(ratio_pow(dp87_node(4), 0) == (1int, 1int));
    ratio_mul_value(1int, 1int, 5int, 16int);
    assert(ratio_pow(dp87_node(4), 1) == (5int, 16int));
    ratio_mul_value(-309121744int, 1061227803int, 5int, 16int);
    assert(ratio_mul(dp87_coupling(9, 4), ratio_pow(dp87_node(4), 1)) == (-1545608720int, 16979644848int));
    ratio_add_value(-37695042795int, 122150129968int, -1545608720int, 16979644848int);
    assert(ratio_sum(|j: int| ratio_mul(dp87_coupling(9, j), ratio_pow(dp87_node(j), 1)), 5) == (-828844745216935391120int, 2074065824993681604864int));
    assert(dp87_coupling(9, 5) == (-12992083int, 490766935int));
    assert(dp87_node(5) == (3int, 8int));
    assert(ratio_pow(dp87_node(5), 0) == (1int, 1int));
    ratio_mul_value(1int, 1int, 3int, 8int);
    assert(ratio_pow(dp87_node(5), 1) == (3int, 8int));
    ratio_mul_value(-12992083int, 490766935int, 3int, 8int);
    assert(ratio_mul(dp87_coupling(9, 5), ratio_pow(dp87_node(5), 1)) == (-38976249int, 3926135480int));
    ratio_add_value(-828844745216935391120int, 2074065824993681604864int, -38976249int, 3926135480int);
    assert(ratio_sum(|j: int| ratio_mul(dp87_coupling(9, j), ratio_pow(dp87_node(j), 1)), 6) == (-3334996067645114493601807812736int, 8143063423363164124679890974720int));
    assert(dp87_coupling(9, 6) == (6005943493int, 2108947869int));
    assert(dp87_node(6) == (59int, 400int));
    assert(ratio_pow(dp87_node(6), 0) == (1int, 1int));
    ratio_mul_value(1int, 1int, 59int, 400int);
    assert(ratio_pow(dp87_node(6), 1) == (59int, 400int));
    ratio_mul_value(6005943493int, 2108947869int, 59int, 400int);
    assert(ratio_mul(dp87_coupling(9, 6), ratio_pow(dp87_node(6), 1)) == (354350666087int, 843579147600int));
    ratio_add_value(-3334996067645114493601807812736int, 8143063423363164124679890974720int, 354350666087int, 843579147600int);
    assert(ratio_sum(|j: int| ratio_mul(dp87_coupling(9, j), ratio_pow(dp87_node(j), 1)), 7) == (72166808064006061463202994059716374487040int, 6869318501533435917536362551315230748672000int));
    assert(dp87_coupling(9, 7) == (393006217int, 1396673457int));
    assert(dp87_node(7) == (93int, 200int));
    assert(ratio_pow(dp87_node(7), 0) == (1int, 1int));
    ratio_mul_value(1int, 1int, 93int, 200int);
    assert(ratio_pow(dp87_node(7), 1) == (93int, 200int));
    ratio_mul_value(393006217int, 1396673457int, 93int, 200int);
    assert(ratio_mul(dp87_coupling(9, 7), ratio_pow(dp87_node(7), 1)) == (36549578181int, 279334691400int));
    ratio_add_value(72166808064006061463202994059716374487040int, 6869318501533435917536362551315230748672000int, 36549578181int, 279334691400int);
    assert(ratio_sum(|j: int| ratio_mul(dp87_coupling(9, j), ratio_pow(dp87_node(j), 1)), 8) == (271229386681868249080101992780883557263506577625088000int, 1918838963754152748806695681550156645300084079820800000int));
    assert(dp87_coupling(9, 8) == (123872331int, 1001029789int));
    assert(dp87_node(8) == (5490023248int, 9719169821int));
    assert(ratio_pow(dp87_node(8), 0) == (1int, 1int));
    ratio_mul_value(1int, 1int, 5490023248int, 9719169821int);
    assert(ratio_pow(dp87_node(8), 1) == (5490023248int, 9719169821int));
    ratio_mul_value(123872331int, 1001029789int, 5490023248int, 9719169821int);
    assert(ratio_mul(dp87_coupling(9, 8), ratio_pow(dp87_node(8), 1)) == (680061976973951088int, 9729178515170797769int));
    ratio_add_value(271229386681868249080101992780883557263506577625088000int, 1918838963754152748806695681550156645300084079820800000int, 680061976973951088int, 9729178515170797769int);
    assert(ratio_sum(|j: int| ratio_mul(dp87_coupling(9, j), ratio_pow(dp87_node(j), 1)), 9) == (3943768540773481876147760973311413362747292289570098513093257353859072000int, 18668726820229500079797776667062466963008754973703851106457810559795200000int));
    assert(dp87_coupling(9, 9) == (0int, 1int));
    assert(dp87_node(9) == (13int, 20int));
    assert(ratio_pow(dp87_node(9), 0) == (1int, 1int));
    ratio_mul_value(1int, 1int, 13int, 20int);
    assert(ratio_pow(dp87_node(9), 1) == (13int, 20int));
    ratio_mul_value(0int, 1int, 13int, 20int);
    assert(ratio_mul(dp87_coupling(9, 9), ratio_pow(dp87_node(9), 1)) == (0int, 20int));
    ratio_add_value(3943768540773481876147760973311413362747292289570098513093257353859072000int, 18668726820229500079797776667062466963008754973703851106457810559795200000int, 0int, 20int);
    assert(ratio_sum(|j: int| ratio_mul(dp87_coupling(9, j), ratio_pow(dp87_node(j), 1)), 10) == (3943768540773481876147760973311413362747292289570098513093257353859072000int, 18668726820229500079797776667062466963008754973703851106457810559795200000int));
    assert(dp87_coupling(9, 10) == (0int, 1int));
    assert(dp87_node(10) == (1201146811int, 1299019798int));
    assert(ratio_pow(dp87_node(10), 0) == (1int, 1int));
    ratio_mul_value(1int, 1int, 1201146811int, 1299019798int);
    assert(ratio_pow(dp87_node(10), 1) == (1201146811int, 1299019798int));
    ratio_mul_value(0int, 1int, 1201146811int, 1299019798int);
    assert(ratio_mul(dp87_coupling(9, 10), ratio_pow(dp87_node(10), 1)) == (0int, 1299019798int));
    ratio_add_value(3943768540773481876147760973311413362747292289570098513093257353859072000int, 18668726820229500079797776667062466963008754973703851106457810559795200000int, 0int, 1299019798int);
    assert(ratio_sum(|j: int| ratio_mul(dp87_coupling(9, j), ratio_pow(dp87_node(j), 1)), 11) == (3943768540773481876147760973311413362747292289570098513093257353859072000int, 18668726820229500079797776667062466963008754973703851106457810559795200000int));
    assert(dp87_coupling(9, 11) == (0int, 1int));
    assert(dp87_node(11) == (1int, 1int));
    assert(ratio_pow(dp87_node(11), 0) == (1int, 1int));
    ratio_mul_value(1int, 1int, 1int, 1int);
    assert(ratio_pow(dp87_node(11), 1) == (1int, 1int));
    ratio_mul_value(0int, 1int, 1int, 1int);
    assert(ratio_mul(dp87_coupling(9, 11), ratio_pow(dp87_node(11), 1)) == (0int, 1int));
    ratio_add_value(3943768540773481876147760973311413362747292289570098513093257353859072000int, 18668726820229500079797776667062466963008754973703851106457810559795200000int, 0int, 1int);
    assert(ratio_sum(|j: int| ratio_mul(dp87_coupling(9, j), ratio_pow(dp87_node(j), 1)), 12) == (3943768540773481876147760973311413362747292289570098513093257353859072000int, 18668726820229500079797776667062466963008754973703851106457810559795200000int));
    assert(dp87_coupling(9, 12) == (0int, 1int));
    assert(dp87_node(12) == (1int, 1int));
    assert(ratio_pow(dp87_node(12), 0) == (1int, 1int));
    ratio_mul_value(1int, 1int, 1int, 1int);
    assert(ratio_pow(dp87_node(12), 1) == (1int, 1int));
    ratio_mul_value(0int, 1int, 1int, 1int);
    assert(ratio_mul(dp87_coupling(9, 12), ratio_pow(dp87_node(12), 1)) == (0int, 1int));
    ratio_add_value(3943768540773481876147760973311413362747292289570098513093257353859072000int, 18668726820229500079797776667062466963008754973703851106457810559795200000int, 0int, 1int);
    assert(ratio_sum(|j: int| ratio_mul(dp87_coupling(9, j), ratio_pow(dp87_node(j), 1)), 13) == (3943768540773481876147760973311413362747292289570098513093257353859072000int, 18668726820229500079797776667062466963008754973703851106457810559795200000int));
    assert(dp87_node(9) == (13int, 20int));
    assert(ratio_pow(dp87_node(9), 0) == (1int, 1int));
    ratio_mul_value(1int, 1int, 13int, 20int);
    assert(ratio_pow(dp87_node(9), 1) == (13int, 20int));
    ratio_mul_value(13int, 20int, 13int, 20int);
    assert(ratio_pow(dp87_node(9), 2) == (169int, 400int));
    ratio_mul_value(169int, 400int, 1int, 2int);
    assert(ratio_mul(ratio_pow(dp87_node(9), 2), (1, 2)) == (169int, 800int));
    assert(within_1e14((3943768540773481876147760973311413362747292289570098513093257353859072000int, 18668726820229500079797776667062466963008754973703851106457810559795200000int), (169int, 800int))) by (nonlinear_arith);
}

/// The moment of degree 1 of row 10, exactly, stage by stage.
#[verifier::spinoff_prover]
proof fn stage_condition_10_1()
    ensures
        within_1e14(coupling_moment(10, 1), ratio_mul(ratio_pow(dp87_node(10), 2), (1, 2))),
{
    assert(ratio_sum(|j: int| ratio_mul(dp87_coupling(10, j), ratio_pow(dp87_node(j), 1)), 0) == (0int, 1int));
    assert(dp87_coupling(10, 0) == (-1028468189int, 846180014int));
    assert(dp87_node(0) == (0int, 1int));
    assert(ratio_pow(dp87_node(0), 0) == (1int, 1int));
    ratio_mul_value(1int, 1int, 0int, 1int);
    assert(ratio_pow(dp87_node(0), 1) == (0int, 1int));
    ratio_mul_value(-1028468189int, 846180014int, 0int, 1int);
    assert(ratio_mul(dp87_coupling(10, 0), ratio_pow(dp87_node(0), 1)) == (0int, 846180014int));
    ratio_add_value(0int, 1int, 0int, 846180014int);
    assert(ratio_sum(|j: int| ratio_mul(dp87_coupling(10, j), ratio_pow(dp87_node(j), 1)), 1) == (0int, 1int));
    assert(dp87_coupling(10, 1) == (0int, 1int));
    assert(dp87_node(1) == (1int, 18int));
    assert(ratio_pow(dp87_node(1), 0) == (1int, 1int));
    ratio_mul_value(1int, 1int, 1int, 18int);
    assert(ratio_pow(dp87_node(1), 1) == (1int, 18int));
    ratio_mul_value(0int, 1int, 1int, 18int);
    assert(ratio_mul(dp87_coupling(10, 1), ratio_pow(dp87_node(1), 1)) == (0int, 18int));
    ratio_add_value(0int, 1int, 0int, 18int);
    assert(ratio_sum(|j: int| ratio_mul(dp87_coupling(10, j), ratio_pow(dp87_node(j), 1)), 2) == (0int, 1int));
    assert(dp87_coupling(10, 2) == (0int, 1int));
    assert(dp87_node(2) == (1int, 12int));
    assert(ratio_pow(dp87_node(2), 0) == (1int, 1int));
    ratio_mul_value(1int, 1int, 1int, 12int);
    assert(ratio_pow(dp87_node(2), 1) == (1int, 12int));
    ratio_mul_value(0int, 1int, 1int, 12int);
    assert(ratio_mul(dp87_coupling(10, 2), ratio_pow(dp87_node(2), 1)) == (0int, 12int));
    ratio_add_value(0int, 1int, 0int, 12int);
    assert(ratio_sum(|j: int| ratio_mul(dp87_coupling(10, j), ratio_pow(dp87_node(j), 1)), 3) == (0int, 1int));
    assert(dp87_coupling(10, 3) == (8478235783int, 508512852int));
    assert(dp87_node(3) == (1int, 8int));
    assert(ratio_pow(dp87_node(3), 0) == (1int, 1int));
    ratio_mul_value(1int, 1int, 1int, 8int);
    assert(ratio_pow(dp87_node(3), 1) == (1int, 8int));
    ratio_mul_value(8478235783int, 508512852int, 1int, 8int);
    assert(ratio_mul(dp87_coupling(10, 3), ratio_pow(dp87_node(3), 1)) == (8478235783int, 4068102816int));
    ratio_add_value(0int, 1int, 8478235783int, 4068102816int);
    assert(ratio_sum(|j: int| ratio_mul(dp87_coupling(10, j), ratio_pow(dp87_node(j), 1)), 4) == (8478235783int, 4068102816int));
    assert(dp87_coupling(10, 4) == (1311729495int, 1432422823int));
    assert(dp87_node(4) == (5int, 16int));
    assert(ratio_pow(dp87_node(4), 0) == (1int, 1int));
    ratio_mul_value(1int, 1int, 5int, 16int);
    assert(ratio_pow(dp87_node(4), 1) == (5int, 16int));
    ratio_mul_value(1311729495int, 1432422823int, 5int, 16int);
    assert(ratio_mul(dp87_coupling(10, 4), ratio_pow(dp87_node(4), 1)) == (6558647475int, 22918765168int));
    ratio_add_value(8478235783int, 4068102816int, 6558647475int, 22918765168int);
    assert(ratio_sum(|j: int| ratio_mul(dp87_coupling(10, j), ratio_pow(dp87_node(j), 1)), 5) == (220991947211710396144int, 93235893119183513088int));
    assert(dp87_coupling(10, 5) == (-10304129995int, 1701304382int));
    assert(dp87_node(5) == (3int, 8int));
    assert(ratio_pow(dp87_node(5), 0) == (1int, 1int));
    ratio_mul_value(1int, 1int, 3int, 8int);
    assert(ratio_pow(dp87_node(5), 1) == (3int, 8int));
    ratio_mul_value(-10304129995int, 1701304382int, 3int, 8int);
    assert(ratio_mul(dp87_coupling(10, 5), ratio_pow(dp87_node(5), 1)) == (-30912389985int, 13610435056int));
    ratio_add_value(220991947211710396144int, 93235893119183513088int, -30912389985int, 13610435056int);
    assert(ratio_sum(|j: int| ratio_mul(dp87_coupling(10, j), ratio_pow(dp87_node(j), 1)), 6) == (125652256723985788039337200384int, 1268981068186804472630150012928int));
    assert(dp87_coupling(10, 6) == (-48777925059int, 3047939560int));
    assert(dp87_node(6) == (59int, 400int));
    assert(ratio_pow(dp87_node(6), 0) == (1int, 1int));
    ratio_mul_value(1int, 1int, 59int, 400int);
    assert(ratio_pow(dp87_node(6), 1) == (59int, 400int));
    ratio_mul_value(-48777925059int, 3047939560int, 59int, 400int);
    assert(ratio_mul(dp87_coupling(10, 6), ratio_pow(dp87_node(6), 1)) == (-2877897578481int, 1219175824000int));
    ratio_add_value(125652256723985788039337200384int, 1268981068186804472630150012928int, -2877897578481int, 1219175824000int);
    assert(ratio_sum(|j: int| ratio_mul(dp87_coupling(10, j), ratio_pow(dp87_node(j), 1)), 7) == (-3498805349644112423442580687625245728186368int, 1547111039447047528845748589255105052672000int));
    assert(dp87_coupling(10, 7) == (15336726248int, 1032824649int));
    assert(dp87_node(7) == (93int, 200int));
    assert(ratio_pow(dp87_node(7), 0) == (1int, 1int));
    ratio_mul_value(1int, 1int, 93int, 200int);
    assert(ratio_pow(dp87_node(7), 1) == (93int, 200int));
    ratio_mul_value(15336726248int, 1032824649int, 93int, 200int);
    assert(ratio_mul(dp87_coupling(10, 7), ratio_pow(dp87_node(7), 1)) == (1426315541064int, 206564929800int));
    ratio_add_value(-3498805349644112423442580687625245728186368int, 1547111039447047528845748589255105052672000int, 1426315541064int, 206564929800int);
    assert(ratio_sum(|j: int| ratio_mul(dp87_coupling(10, j), ratio_pow(dp87_node(j), 1)), 8) == (1483938037881902505751223492409365247375456911686041600int, 319578883256184403613285532367929809496816982425600000int));
    assert(dp87_coupling(10, 8) == (-45442868181int, 3398467696int));
    assert(dp87_node(8) == (5490023248int, 9719169821int));
    assert(ratio_pow(dp87_node(8), 0) == (1int, 1int));
    ratio_mul_value(1int, 1int, 5490023248int, 9719169821int);
    assert(ratio_pow(dp87_node(8), 1) == (5490023248int, 9719169821int));
    ratio_mul_value(-45442868181int, 3398467696int, 5490023248int, 9719169821int);
    assert(ratio_mul(dp87_coupling(10, 8), ratio_pow(dp87_node(8), 1)) == (-249482402769489471888int, 33030284668606602416int));
    ratio_add_value(1483938037881902505751223492409365247375456911686041600int, 319578883256184403613285532367929809496816982425600000int, -249482402769489471888int, 33030284668606602416int);
    assert(ratio_sum(|j: int| ratio_mul(dp87_coupling(10, j), ratio_pow(dp87_node(j), 1)), 9) == (-30714411847330284542379215547093582547568491057846141403041880983496294400int, 10555781488027166945534412327051987855155107192773510056549998500249600000int));
    assert(dp87_coupling(10, 9) == (3065993473int, 597172653int));
    assert(dp87_node(9) == (13int, 20int));
    assert(ratio_pow(dp87_node(9), 0) == (1int, 1int));
    ratio_mul_value(1int, 1int, 13int, 20int);
    assert(ratio_pow(dp87_node(9), 1) == (13int, 20int));
    ratio_mul_value(3065993473int, 597172653int, 13int, 20int);
    assert(ratio_mul(dp87_coupling(10, 9), ratio_pow(dp87_node(9), 1)) == (39857915149int, 11943453060int));
    ratio_add_value(-30714411847330284542379215547093582547568491057846141403041880983496294400int, 10555781488027166945534412327051987855155107192773510056549998500249600000int, 39857915149int, 11943453060int);
    assert(ratio_sum(|j: int| ratio_mul(dp87_coupling(10, j), ratio_pow(dp87_node(j), 1)), 10) == (53895306717074639773618369384883346658431274639151015259514785158531185270849536000int, 126072480713869420418773830242830785127735101776158788571842852630801495883776000000int));
    assert(dp87_coupling(10, 10) == (0int, 1int));
    assert(dp87_node(10) == (1201146811int, 1299019798int));
    assert(ratio_pow(dp87_node(10), 0) == (1int, 1int));
    ratio_mul_value(1int, 1int, 1201146811int, 1299019798int);
    assert(ratio_pow(dp87_node(10), 1) == (1201146811int, 1299019798int));
    ratio_mul_value(0int, 1int, 1201146811int, 1299019798int);
    assert(ratio_mul(dp87_coupling(10, 10), ratio_pow(dp87_node(10), 1)) == (0int, 1299019798int));
    ratio_add_value(53895306717074639773618369384883346658431274639151015259514785158531185270849536000int, 126072480713869420418773830242830785127735101776158788571842852630801495883776000000int, 0int, 1299019798int);
    assert(ratio_sum(|j: int| ratio_mul(dp87_coupling(10, j), ratio_pow(dp87_node(j), 1)), 11) == (53895306717074639773618369384883346658431274639151015259514785158531185270849536000int, 126072480713869420418773830242830785127735101776158788571842852630801495883776000000int));
    assert(dp87_coupling(10, 11) == (0int, 1int));
    assert(dp87_node(11) == (1int, 1int));
    assert(ratio_pow(dp87_node(11), 0) == (1int, 1int));
    ratio_mul_value(1int, 1int, 1int, 1int);
    assert(ratio_pow(dp87_node(11), 1) == (1int, 1int));
    ratio_mul_value(0int, 1int, 1int, 1int);
    assert(ratio_mul(dp87_coupling(10, 11), ratio_pow(dp87_node(11), 1)) == (0int, 1int));
    ratio_add_value(53895306717074639773618369384883346658431274639151015259514785158531185270849536000int, 126072480713869420418773830242830785127735101776158788571842852630801495883776000000int, 0int, 1int);
    assert(ratio_sum(|j: int| ratio_mul(dp87_coupling(10, j), ratio_pow(dp87_node(j), 1)), 12) == (53895306717074639773618369384883346658431274639151015259514785158531185270849536000int, 126072480713869420418773830242830785127735101776158788571842852630801495883776000000int));
    assert(dp87_coupling(10, 12) == (0int, 1int));
    assert(dp87_node(12) == (1int, 1int));
    assert(ratio_pow(dp87_node(12), 0) == (1int, 1int));
    ratio_mul_value(1int, 1int, 1int, 1int);
    assert(ratio_pow(dp87_node(12), 1) == (1int, 1int));
    ratio_mul_value(0int, 1int, 1int, 1int);
    assert(ratio_mul(dp87_coupling(10, 12), ratio_pow(dp87_node(12), 1)) == (0int, 1int));
    ratio_add_value(53895306717074639773618369384883346658431274639151015259514785158531185270849536000int, 126072480713869420418773830242830785127735101776158788571842852630801495883776000000int, 0int, 1int);
    assert(ratio_sum(|j: int| ratio_mul(dp87_coupling(10, j), ratio_pow(dp87_node(j), 1)), 13) == (53895306717074639773618369384883346658431274639151015259514785158531185270849536000int, 126072480713869420418773830242830785127735101776158788571842852630801495883776000000int));
    assert(dp87_node(10) == (1201146811int, 1299019798int));
    assert(ratio_pow(dp87_node(10), 0) == (1int, 1int));
    ratio_mul_value(1int, 1int, 1201146811int, 1299019798int);
    assert(ratio_pow(dp87_node(10), 1) == (1201146811int, 1299019798int));
    ratio_mul_value(1201146811int, 1299019798int, 1201146811int, 1299019798int);
    assert(ratio_pow(dp87_node(10), 2) == (1442753661575469721int, 1687452435595960804int));
    ratio_mul_value(1442753661575469721int, 1687452435595960804int, 1int, 2int);
    assert(ratio_mul(ratio_pow(dp87_node(10), 2), (1, 2)) == (1442753661575469721int, 3374904871191921608int));
    assert(within_1e14((53895306717074639773618369384883346658431274639151015259514785158531185270849536000int, 126072480713869420418773830242830785127735101776158788571842852630801495883776000000int), (1442753661575469721int, 3374904871191921608int))) by (nonlinear_arith);
}

/// The moment of degree 1 of row 11, exactly, stage by stage.
#[verifier::spinoff_prover]
proof fn stage_condition_11_1()
    ensures
        within_1e14(coupling_moment(11, 1), ratio_mul(ratio_pow(dp87_node(11), 2), (1, 2))),
{
    assert(ratio_sum(|j: int| ratio_mul(dp87_coupling(11, j), ratio_pow(dp87_node(j), 1)), 0) == (0int, 1int));
    assert(dp87_coupling(11, 0) == (185892177int, 718116043int));
    assert(dp87_node(0) == (0int, 1int));
    assert(ratio_pow(dp87_node(0), 0) == (1int, 1int));
    ratio_mul_value(1int, 1int, 0int, 1int);
    assert(ratio_pow(dp87_node(0), 1) == (0int, 1int));
    ratio_mul_value(185892177int, 718116043int, 0int, 1int);
    assert(ratio_mul(dp87_coupling(11, 0), ratio_pow(dp87_node(0), 1)) == (0int, 718116043int));
    ratio_add_value(0int, 1int, 0int, 718116043int);
    assert(ratio_sum(|j: int| ratio_mul(dp87_coupling(11, j), ratio_pow(dp87_node(j), 1)), 1) == (0int, 1int));
    assert(dp87_coupling(11, 1) == (0int, 1int));
    assert(dp87_node(1) == (1int, 18int));
    assert(ratio_pow(dp87_node(1), 0) == (1int, 1int));
    ratio_mul_value(1int, 1int, 1int, 18int);
    assert(ratio_pow(dp87_node(1), 1) == (1int, 18int));
    ratio_mul_value(0int, 1int, 1int, 18int);
    assert(ratio_mul(dp87_coupling(11, 1), ratio_pow(dp87_node(1), 1)) == (0int, 18int));
    ratio_add_value(0int, 1int, 0int, 18int);
    assert(ratio_sum(|j: int| ratio_mul(dp87_coupling(11, j), ratio_pow(dp87_node(j), 1)), 2) == (0int, 1int));
    assert(dp87_coupling(11, 2) == (0int, 1int));
    assert(dp87_node(2) == (1int, 12int));
    assert(ratio_pow(dp87_node(2), 0) == (1int, 1int));
    ratio_mul_value(1int, 1int, 1int, 12int);
    assert(ratio_pow(dp87_node(2), 1) == (1int, 12int));
    ratio_mul_value(0int, 1int, 1int, 12int);
    assert(ratio_mul(dp87_coupling(11, 2), ratio_pow(dp87_node(2), 1)) == (0int, 12int));
    ratio_add_value(0int, 1int, 0int, 12int);
    assert(ratio_sum(|j: int| ratio_mul(dp87_coupling(11, j), ratio_pow(dp87_node(j), 1)), 3) == (0int, 1int));
    assert(dp87_coupling(11, 3) == (-3185094517int, 667107341int));
    assert(dp87_node(3) == (1int, 8int));
    assert(ratio_pow(dp87_node(3), 0) == (1int, 1int));
    ratio_mul_value(1int, 1int, 1int, 8int);
    assert(ratio_pow(dp87_node(3), 1) == (1int, 8int));
    ratio_mul_value(-3185094517int, 667107341int, 1int, 8int);
    assert(ratio_mul(dp87_coupling(11, 3), ratio_pow(dp87_node(3), 1)) == (-3185094517int, 5336858728int));
    ratio_add_value(0int, 1int, -3185094517int, 5336858728int);
    assert(ratio_sum(|j: int| ratio_mul(dp87_coupling(11, j), ratio_pow(dp87_node(j), 1)), 4) == (-3185094517int, 5336858728int));
    assert(dp87_coupling(11, 4) == (-477755414int, 1098053517int));
    assert(dp87_node(4) == (5int, 16int));
    assert(ratio_pow(dp87_node(4), 0) == (1int, 1int));
    ratio_mul_value(1int, 1int, 5int, 16int);
    assert(ratio_pow(dp87_node(4), 1) == (5int, 16int));
    ratio_mul_value(-477755414int, 1098053517int, 5int, 16int);
    assert(ratio_mul(dp87_coupling(11, 4), ratio_pow(dp87_node(4), 1)) == (-2388777070int, 17568856272int));
    ratio_add_value(-3185094517int, 5336858728int, -2388777070int, 17568856272int);
    assert(ratio_sum(|j: int| ratio_mul(dp87_coupling(11, j), ratio_pow(dp87_node(j), 1)), 5) == (-68707033537184027584int, 93762503936200742016int));
    assert(dp87_coupling(11, 5) == (-703635378int, 230739211int));
    assert(dp87_node(5) == (3int, 8int));
    assert(ratio_pow(dp87_node(5), 0) == (1int, 1int));
    ratio_mul_value(1int, 1int, 3int, 8int);
    assert(ratio_pow(dp87_node(5), 1) == (3int, 8int));
    ratio_mul_value(-703635378int, 230739211int, 3int, 8int);
    assert(ratio_mul(dp87_coupling(11, 5), ratio_pow(dp87_node(5), 1)) == (-2110906134int, 1845913688int));
    ratio_add_value(-68707033537184027584int, 93762503936200742016int, -2110906134int, 1845913688int);
    assert(ratio_sum(|j: int| ratio_mul(dp87_coupling(11, j), ratio_pow(dp87_node(j), 1)), 6) == (-324751098366288344469201095936int, 173077489436986828403091115008int));
    assert(dp87_coupling(11, 6) == (5731566787int, 1027545527int));
    assert(dp87_node(6) == (59int, 400int));
    assert(ratio_pow(dp87_node(6), 0) == (1int, 1int));
    ratio_mul_value(1int, 1int, 59int, 400int);
    assert(ratio_pow(dp87_node(6), 1) == (59int, 400int));
    ratio_mul_value(5731566787int, 1027545527int, 59int, 400int);
    assert(ratio_mul(dp87_coupling(11, 6), ratio_pow(dp87_node(6), 1)) == (338162440433int, 411018210800int));
    ratio_add_value(-324751098366288344469201095936int, 173077489436986828403091115008int, 338162440433int, 411018210800int);
    assert(ratio_sum(|j: int| ratio_mul(dp87_coupling(11, j), ratio_pow(dp87_node(j), 1)), 7) == (-74950309193818393313759218465049518990336int, 71138000038146225553405131279965187686400int));
    assert(dp87_coupling(11, 7) == (5232866602int, 850066563int));
    assert(dp87_node(7) == (93int, 200int));
    assert(ratio_pow(dp87_node(7), 0) == (1int, 1int));
    ratio_mul_value(1int, 1int, 93int, 200int);
    assert(ratio_pow(dp87_node(7), 1) == (93int, 200int));
    ratio_mul_value(5232866602int, 850066563int, 93int, 200int);
    assert(ratio_mul(dp87_coupling(11, 7), ratio_pow(dp87_node(7), 1)) == (486656593986int, 170013312600int));
    ratio_add_value(-74950309193818393313759218465049518990336int, 71138000038146225553405131279965187686400int, 486656593986int, 170013312600int);
    assert(ratio_sum(|j: int| ratio_mul(dp87_coupling(11, j), ratio_pow(dp87_node(j), 1)), 8) == (21877226455104879711159963243052890793531020746956800int, 12094407038224166169521174578744759571245593968640000int));
    assert(dp87_coupling(11, 8) == (-4093664535int, 808688257int));
    assert(dp87_node(8) == (5490023248int, 9719169821int));
    assert(ratio_pow(dp87_node(8), 0) == (1int, 1int));
    ratio_mul_value(1int, 1int, 5490023248int, 9719169821int);
    assert(ratio_pow(dp87_node(8), 1) == (5490023248int, 9719169821int));
    ratio_mul_value(-4093664535int, 808688257int, 5490023248int, 9719169821int);
    assert(ratio_mul(dp87_coupling(11, 8), ratio_pow(dp87_node(8), 1)) == (-22474313466663109680int, 7859778502031491997int));
    ratio_add_value(21877226455104879711159963243052890793531020746956800int, 12094407038224166169521174578744759571245593968640000int, -22474313466663109680int, 7859778502031491997int);
    assert(ratio_sum(|j: int| ratio_mul(dp87_coupling(11, j), ratio_pow(dp87_node(j), 1)), 9) == (-99863340794558513592234415116751716900193641798781691636711099130470400int, 95059360433852670546242749914145029744505163069120921708803628974080000int));
    assert(dp87_coupling(11, 9) == (3962137247int, 1805957418int));
    assert(dp87_node(9) == (13int, 20int));
    assert(ratio_pow(dp87_node(9), 0) == (1int, 1int));
    ratio_mul_value(1int, 1int, 13int, 20int);
    assert(ratio_pow(dp87_node(9), 1) == (13int, 20int));
    ratio_mul_value(3962137247int, 1805957418int, 13int, 20int);
    assert(ratio_mul(dp87_coupling(11, 9), ratio_pow(dp87_node(9), 1)) == (51507784211int, 36119148360int));
    ratio_add_value(-99863340794558513592234415116751716900193641798781691636711099130470400int, 95059360433852670546242749914145029744505163069120921708803628974080000int, 51507784211int, 36119148360int);
    assert(ratio_sum(|j: int| ratio_mul(dp87_coupling(11, j), ratio_pow(dp87_node(j), 1)), 10) == (1289318202578655460722955675901238984635334941480753725364343288218492578062336000int, 3433463142517038573841944124723381591898394879679571505980222993021190114508800000int));
    assert(dp87_coupling(11, 10) == (65686358int, 487910083int));
    assert(dp87_node(10) == (1201146811int, 1299019798int));
    assert(ratio_pow(dp87_node(10), 0) == (1int, 1int));
    ratio_mul_value(1int, 1int, 1201146811int, 1299019798int);
    assert(ratio_pow(dp87_node(10), 1) == (1201146811int, 1299019798int));
    ratio_mul_value(65686358int, 487910083int, 1201146811int, 1299019798int);
    assert(ratio_mul(dp87_coupling(11, 10), ratio_pow(dp87_node(10), 1)) == (78898959437904338int, 633804857460823234int));
    ratio_add_value(1289318202578655460722955675901238984635334941480753725364343288218492578062336000int, 3433463142517038573841944124723381591898394879679571505980222993021190114508800000int, 78898959437904338int, 633804857460823234int);
    assert(ratio_sum(|j: int| ratio_mul(dp87_coupling(11, j), ratio_pow(dp87_node(j), 1)), 11) == (1088072808820000927013442639939597162517616512138145059999700832355344731384558047398955388289024000int, 2176145617640001842511881952272885530811922585839529552032050904039964098181247868338375537459200000int));
    assert(dp87_coupling(11, 11) == (0int, 1int));
    assert(dp87_node(11) == (1int, 1int));
    assert(ratio_pow(dp87_node(11), 0) == (1int, 1int));
    ratio_mul_value(1int, 1int, 1int, 1int);
    assert(ratio_pow(dp87_node(11), 1) == (1int, 1int));
    ratio_mul_value(0int, 1int, 1int, 1int);
    assert(ratio_mul(dp87_coupling(11, 11), ratio_pow(dp87_node(11), 1)) == (0int, 1int));
    ratio_add_value(1088072808820000927013442639939597162517616512138145059999700832355344731384558047398955388289024000int, 2176145617640001842511881952272885530811922585839529552032050904039964098181247868338375537459200000int, 0int, 1int);
    assert(ratio_sum(|j: int| ratio_mul(dp87_coupling(11, j), ratio_pow(dp87_node(j), 1)), 12) == (1088072808820000927013442639939597162517616512138145059999700832355344731384558047398955388289024000int, 2176145617640001842511881952272885530811922585839529552032050904039964098181247868338375537459200000int));
    assert(dp87_coupling(11, 12) == (0int, 1int));
    assert(dp87_node(12) == (1int, 1int));
    assert(ratio_pow(dp87_node(12), 0) == (1int, 1int));
    ratio_mul_value(1int, 1int, 1int, 1int);
    assert(ratio_pow(dp87_node(12), 1) == (1int, 1int));
    ratio_mul_value(0int, 1int, 1int, 1int);
    assert(ratio_mul(dp87_coupling(11, 12), ratio_pow(dp87_node(12), 1)) == (0int, 1int));
    ratio_add_value(1088072808820000927013442639939597162517616512138145059999700832355344731384558047398955388289024000int, 2176145617640001842511881952272885530811922585839529552032050904039964098181247868338375537459200000int, 0int, 1int);
    assert(ratio_sum(|j: int| ratio_mul(dp87_coupling(11, j), ratio_pow(dp87_node(j), 1)), 13) == (1088072808820000927013442639939597162517616512138145059999700832355344731384558047398955388289024000int, 2176145617640001842511881952272885530811922585839529552032050904039964098181247868338375537459200000int));
    assert(dp87_node(11) == (1int, 1int));
    assert(ratio_pow(dp87_node(11), 0) == (1int, 1int));
    ratio_mul_value(1int, 1int, 1int, 1int);
    assert(ratio_pow(dp87_node(11), 1) == (1int, 1int));
    ratio_mul_value(1int, 1int, 1int, 1int);
    assert(ratio_pow(dp87_node(11), 2) == (1int, 1int));
    ratio_mul_value(1int, 1int, 1int, 2int);
    assert(ratio_mul(ratio_pow(dp87_node(11), 2), (1, 2)) == (1int, 2int));
    assert(within_1e14((1088072808820000927013442639939597162517616512138145059999700832355344731384558047398955388289024000int, 2176145617640001842511881952272885530811922585839529552032050904039964098181247868338375537459200000int), (1int, 2int))) by (nonlinear_arith);
}

/// The moment of degree 1 of row 12, exactly, stage by stage.
#[verifier::spinoff_prover]
proof fn stage_condition_12_1()
    ensures
        within_1e14(coupling_moment(12, 1), ratio_mul(ratio_pow(dp87_node(12), 2), (1, 2))),
{
    assert(ratio_sum(|j: int| ratio_mul(dp87_coupling(12, j), ratio_pow(dp87_node(j), 1)), 0) == (0int, 1int));
    assert(dp87_coupling(12, 0) == (403863854int, 491063109int));
    assert(dp87_node(0) == (0int, 1int));
    assert(ratio_pow(dp87_node(0), 0) == (1int, 1int));
    ratio_mul_value(1int, 1int, 0int, 1int);
    assert(ratio_pow(dp87_node(0), 1) == (0int, 1int));
    ratio_mul_value(403863854int, 491063109int, 0int, 1int);
    assert(ratio_mul(dp87_coupling(12, 0), ratio_pow(dp87_node(0), 1)) == (0int, 491063109int));
    ratio_add_value(0int, 1int, 0int, 491063109int);
    assert(ratio_sum(|j: int| ratio_mul(dp87_coupling(12, j), ratio_pow(dp87_node(j), 1)), 1) == (0int, 1int));
    assert(dp87_coupling(12, 1) == (0int, 1int));
    assert(dp87_node(1) == (1int, 18int));
    assert(ratio_pow(dp87_node(1), 0) == (1int, 1int));
    ratio_mul_value(1int, 1int, 1int, 18int);
    assert(ratio_pow(dp87_node(1), 1) == (1int, 18int));
    ratio_mul_value(0int, 1int, 1int, 18int);
    assert(ratio_mul(dp87_coupling(12, 1), ratio_pow(dp87_node(1), 1)) == (0int, 18int));
    ratio_add_value(0int, 1int, 0int, 18int);
    assert(ratio_sum(|j: int| ratio_mul(dp87_coupling(12, j), ratio_pow(dp87_node(j), 1)), 2) == (0int, 1int));
    assert(dp87_coupling(12, 2) == (0int, 1int));
    assert(dp87_node(2) == (1int, 12int));
    assert(ratio_pow(dp87_node(2), 0) == (1int, 1int));
    ratio_mul_value(1int, 1int, 1int, 12int);
    assert(ratio_pow(dp87_node(2), 1) == (1int, 12int));
    ratio_mul_value(0int, 1int, 1int, 12int);
    assert(ratio_mul(dp87_coupling(12, 2), ratio_pow(dp87_node(2), 1)) == (0int, 12int));
    ratio_add_value(0int, 1int, 0int, 12int);
    assert(ratio_sum(|j: int| ratio_mul(dp87_coupling(12, j), ratio_pow(dp87_node(j), 1)), 3) == (0int, 1int));
    assert(dp87_coupling(12, 3) == (-5068492393int, 434740067int));
    assert(dp87_node(3) == (1int, 8int));
    assert(ratio_pow(dp87_node(3), 0) == (1int, 1int));
    ratio_mul_value(1int, 1int, 1int, 8int);
    assert(ratio_pow(dp87_node(3), 1) == (1int, 8int));
    ratio_mul_value(-5068492393int, 434740067int, 1int, 8int);
    assert(ratio_mul(dp87_coupling(12, 3), ratio_pow(dp87_node(3), 1)) == (-5068492393int, 3477920536int));
    ratio_add_value(0int, 1int, -5068492393int, 3477920536int);
    assert(ratio_sum(|j: int| ratio_mul(dp87_coupling(12, j), ratio_pow(dp87_node(j), 1)), 4) == (-5068492393int, 3477920536int));
    assert(dp87_coupling(12, 4) == (-411421997int, 543043805int));
    assert(dp87_node(4) == (5int, 16int));
    assert(ratio_pow(dp87_node(4), 0) == (1int, 1int));
    ratio_mul_value(1int, 1int, 5int, 16int);
    assert(ratio_pow(dp87_node(4), 1) == (5int, 16int));
    ratio_mul_value(-411421997int, 543043805int, 5int, 16int);
    assert(ratio_mul(dp87_coupling(12, 4), ratio_pow(dp87_node(4), 1)) == (-2057109985int, 8688700880int));
    ratio_add_value(-5068492393int, 3477920536int, -2057109985int, 8688700880int);
    assert(ratio_sum(|j: int| ratio_mul(dp87_coupling(12, j), ratio_pow(dp87_node(j), 1)), 5) == (-51193079376974557800int, 30218611221713271680int));
    assert(dp87_coupling(12, 5) == (652783627int, 914296604int));
    assert(dp87_node(5) == (3int, 8int));
    assert(ratio_pow(dp87_node(5), 0) == (1int, 1int));
    ratio_mul_value(1int, 1int, 3int, 8int);
    assert(ratio_pow(dp87_node(5), 1) == (3int, 8int));
    ratio_mul_value(652783627int, 914296604int, 3int, 8int);
    assert(ratio_mul(dp87_coupling(12, 5), ratio_pow(dp87_node(5), 1)) == (1958350881int, 7314372832int));
    ratio_add_value(-51193079376974557800int, 30218611221713271680int, 1958350881int, 7314372832int);
    assert(ratio_sum(|j: int| ratio_mul(dp87_coupling(12, j), ratio_pow(dp87_node(j), 1)), 6) == (-315266625072723520003613339520int, 221030188940869882870026997760int));
    assert(dp87_coupling(12, 6) == (11173962825int, 925320556int));
    assert(dp87_node(6) == (59int, 400int));
    assert(ratio_pow(dp87_node(6), 0) == (1int, 1int));
    ratio_mul_value(1int, 1int, 59int, 400int);
    assert(ratio_pow(dp87_node(6), 1) == (59int, 400int));
    ratio_mul_value(11173962825int, 925320556int, 59int, 400int);
    assert(ratio_mul(dp87_coupling(12, 6), ratio_pow(dp87_node(6), 1)) == (659263806675int, 370128222400int));
    ratio_add_value(-315266625072723520003613339520int, 221030188940869882870026997760int, 659263806675int, 370128222400int);
    assert(ratio_sum(|j: int| ratio_mul(dp87_coupling(12, j), ratio_pow(dp87_node(j), 1)), 7) == (29028128231037938281147125869814028800000int, 81809510929420308456379302920917581824000int));
    assert(dp87_coupling(12, 7) == (-13158990841int, 6184727034int));
    assert(dp87_node(7) == (93int, 200int));
    assert(ratio_pow(dp87_node(7), 0) == (1int, 1int));
    ratio_mul_value(1int, 1int, 93int, 200int);
    assert(ratio_pow(dp87_node(7), 1) == (93int, 200int));
    ratio_mul_value(-13158990841int, 6184727034int, 93int, 200int);
    assert(ratio_mul(dp87_coupling(12, 7), ratio_pow(dp87_node(7), 1)) == (-1223786148213int, 1236945406800int));
    ratio_add_value(29028128231037938281147125869814028800000int, 81809510929420308456379302920917581824000int, -1223786148213int, 1236945406800int);
    assert(ratio_sum(|j: int| ratio_mul(dp87_coupling(12, j), ratio_pow(dp87_node(j), 1)), 8) == (-64211136384120818033363954470035749913660303040512000int, 101193898776700849531757576906614826478559966003200000int));
    assert(dp87_coupling(12, 8) == (3936647629int, 1978049680int));
    assert(dp87_node(8) == (5490023248int, 9719169821int));
    assert(ratio_pow(dp87_node(8), 0) == (1int, 1int));
    ratio_mul_value(1int, 1int, 5490023248int, 9719169821int);
    assert(ratio_pow(dp87_node(8), 1) == (5490023248int, 9719169821int));
    ratio_mul_value(3936647629int, 1978049680int, 5490023248int, 9719169821int);
    assert(ratio_mul(dp87_coupling(12, 8), ratio_pow(dp87_node(8), 1)) == (21612287002394078992int, 19225000754294707280int));
    ratio_add_value(-64211136384120818033363954470035749913660303040512000int, 101193898776700849531757576906614826478559966003200000int, 21612287002394078992int, 19225000754294707280int);
    assert(ratio_sum(|j: int| ratio_mul(dp87_coupling(12, j), ratio_pow(dp87_node(j), 1)), 9) == (952572437834430810736042266146019077249805395665920316121402303447040000int, 1945452780312096088541556797714076575747433780764902752310495543296000000int));
    assert(dp87_coupling(12, 9) == (-160528059int, 685178525int));
    assert(dp87_node(9) == (13int, 20int));
    assert(ratio_pow(dp87_node(9), 0) == (1int, 1int));
    ratio_mul_value(1int, 1int, 13int, 20int);
    assert(ratio_pow(dp87_node(9), 1) == (13int, 20int));
    ratio_mul_value(-160528059int, 685178525int, 13int, 20int);
    assert(ratio_mul(dp87_coupling(12, 9), ratio_pow(dp87_node(9), 1)) == (-2086864767int, 13703570500int));
    ratio_add_value(952572437834430810736042266146019077249805395665920316121402303447040000int, 1945452780312096088541556797714076575747433780764902752310495543296000000int, -2086864767int, 13703570500int);
    assert(ratio_sum(|j: int| ratio_mul(dp87_coupling(12, j), ratio_pow(dp87_node(j), 1)), 10) == (8993746695125485351197624788632883173570328103044455635373822030533960204288000000int, 26659649329427820752103465757229087198153549008793388791930913567492538368000000000int));
    assert(dp87_coupling(12, 10) == (248638103int, 1413531060int));
    assert(dp87_node(10) == (1201146811int, 1299019798int));
    assert(ratio_pow(dp87_node(10), 0) == (1int, 1int));
    ratio_mul_value(1int, 1int, 1201146811int, 1299019798int);
    assert(ratio_pow(dp87_node(10), 1) == (1201146811int, 1299019798int));
    ratio_mul_value(248638103int, 1413531060int, 1201146811int, 1299019798int);
    assert(ratio_mul(dp87_coupling(12, 10), ratio_pow(dp87_node(10), 1)) == (298650864511539533int, 1836204832027925880int));
    ratio_add_value(8993746695125485351197624788632883173570328103044455635373822030533960204288000000int, 26659649329427820752103465757229087198153549008793388791930913567492538368000000000int, 298650864511539533int, 1836204832027925880int);
    assert(ratio_sum(|j: int| ratio_mul(dp87_coupling(12, j), ratio_pow(dp87_node(j), 1)), 11) == (24476288459432709200344866963199578262328073669697001585098155802866024968110227437957024317440000000int, 48952576918865418428257939778355339976519376789500403220591869223000964735843162703360163840000000000int));
    assert(dp87_coupling(12, 11) == (0int, 1int));
    assert(dp87_node(11) == (1int, 1int));
    assert(ratio_pow(dp87_node(11), 0) == (1int, 1int));
    ratio_mul_value(1int, 1int, 1int, 1int);
    assert(ratio_pow(dp87_node(11), 1) == (1int, 1int));
    ratio_mul_value(0int, 1int, 1int, 1int);
    assert(ratio_mul(dp87_coupling(12, 11), ratio_pow(dp87_node(11), 1)) == (0int, 1int));
    ratio_add_value(24476288459432709200344866963199578262328073669697001585098155802866024968110227437957024317440000000int, 48952576918865418428257939778355339976519376789500403220591869223000964735843162703360163840000000000int, 0int, 1int);
    assert(ratio_sum(|j: int| ratio_mul(dp87_coupling(12, j), ratio_pow(dp87_node(j), 1)), 12) == (24476288459432709200344866963199578262328073669697001585098155802866024968110227437957024317440000000int, 48952576918865418428257939778355339976519376789500403220591869223000964735843162703360163840000000000int));
    assert(dp87_coupling(12, 12) == (0int, 1int));
    assert(dp87_node(12) == (1int, 1int));
    assert(ratio_pow(dp87_node(12), 0) == (1int, 1int));
    ratio_mul_value(1int, 1int, 1int, 1int);
    assert(ratio_pow(dp87_node(12), 1) == (1int, 1int));
    ratio_mul_value(0int, 1int, 1int, 1int);
    assert(ratio_mul(dp87_coupling(12, 12), ratio_pow(dp87_node(12), 1)) == (0int, 1int));
    ratio_add_value(24476288459432709200344866963199578262328073669697001585098155802866024968110227437957024317440000000int, 48952576918865418428257939778355339976519376789500403220591869223000964735843162703360163840000000000int, 0int, 1int);
    assert(ratio_sum(|j: int| ratio_mul(dp87_coupling(12, j), ratio_pow(dp87_node(j), 1)), 13) == (24476288459432709200344866963199578262328073669697001585098155802866024968110227437957024317440000000int, 48952576918865418428257939778355339976519376789500403220591869223000964735843162703360163840000000000int));
    assert(dp87_node(12) == (1int, 1int));
    assert(ratio_pow(dp87_node(12), 0) == (1int, 1int));
    ratio_mul_value(1int, 1int, 1int, 1int);
    assert(ratio_pow(dp87_node(12), 1) == (1int, 1int));
    ratio_mul_value(1int, 1int, 1int, 1int);
    assert(ratio_pow(dp87_node(12), 2) == (1int, 1int));
    ratio_mul_value(1int, 1int, 1int, 2int);
    assert(ratio_mul(ratio_pow(dp87_node(12), 2), (1, 2)) == (1int, 2int));
    assert(within_1e14((24476288459432709200344866963199578262328073669697001585098155802866024968110227437957024317440000000int, 48952576918865418428257939778355339976519376789500403220591869223000964735843162703360163840000000000int), (1int, 2int))) by (nonlinear_arith);
}

/// The moment of degree 2 of row 2, exactly, stage by stage.
#[verifier::spinoff_prover]
proof fn stage_condition_2_2()
    ensures
        within_1e14(coupling_moment(2, 2), ratio_mul(ratio_pow(dp87_node(2), 3), (1, 3))),
{
    assert(ratio_sum(|j: int| ratio_mul(dp87_coupling(2, j), ratio_pow(dp87_node(j), 2)), 0) == (0int, 1int));
    assert(dp87_coupling(2, 0) == (1int, 48int));
    assert(dp87_node(0) == (0int, 1int));
    assert(ratio_pow(dp87_node(0), 0) == (1int, 1int));
    ratio_mul_value(1int, 1int, 0int, 1int);
    assert(ratio_pow(dp87_node(0), 1) == (0int, 1int));
    ratio_mul_value(0int, 1int, 0int, 1int);
    assert(ratio_pow(dp87_node(0), 2) == (0int, 1int));
    ratio_mul_value(1int, 48int, 0int, 1int);
    assert(ratio_mul(dp87_coupling(2, 0), ratio_pow(dp87_node(0), 2)) == (0int, 48int));
    ratio_add_value(0int, 1int, 0int, 48int);
    assert(ratio_sum(|j: int| ratio_mul(dp87_coupling(2, j), ratio_pow(dp87_node(j), 2)), 1) == (0int, 1int));
    assert(dp87_coupling(2, 1) == (1int, 16int));
    assert(dp87_node(1) == (1int, 18int));
    assert(ratio_pow(dp87_node(1), 0) == (1int, 1int));
    ratio_mul_value(1int, 1int, 1int, 18int);
    assert(ratio_pow(dp87_node(1), 1) == (1int, 18int));
    ratio_mul_value(1int, 18int, 1int, 18int);
    assert(ratio_pow(dp87_node(1), 2) == (1int, 324int));
    ratio_mul_value(1int, 16int, 1int, 324int);
    assert(ratio_mul(dp87_coupling(2, 1), ratio_pow(dp87_node(1), 2)) == (1int, 5184int));
    ratio_add_value(0int, 1int, 1int, 5184int);
    assert(ratio_sum(|j: int| ratio_mul(dp87_coupling(2, j), ratio_pow(dp87_node(j), 2)), 2) == (1int, 5184int));
    assert(dp87_coupling(2, 2) == (0int, 1int));
    assert(dp87_node(2) == (1int, 12int));
    assert(ratio_pow(dp87_node(2), 0) == (1int, 1int));
    ratio_mul_value(1int, 1int, 1int, 12int);
    assert(ratio_pow(dp87_node(2), 1) == (1int, 12int));
    ratio_mul_value(1int, 12int, 1int, 12int);
    assert(ratio_pow(dp87_node(2), 2) == (1int, 144int));
    ratio_mul_value(0int, 1int, 1int, 144int);
    assert(ratio_mul(dp87_coupling(2, 2), ratio_pow(dp87_node(2), 2)) == (0int, 144int));
    ratio_add_value(1int, 5184int, 0int, 144int);
    assert(ratio_sum(|j: int| ratio_mul(dp87_coupling(2, j), ratio_pow(dp87_node(j), 2)), 3) == (1int, 5184int));
    assert(dp87_coupling(2, 3) == (0int, 1int));
    assert(dp87_node(3) == (1int, 8int));
    assert(ratio_pow(dp87_node(3), 0) == (1int, 1int));
    ratio_mul_value(1int, 1int, 1int, 8int);
    assert(ratio_pow(dp87_node(3), 1) == (1int, 8int));
    ratio_mul_value(1int, 8int, 1int, 8int);
    assert(ratio_pow(dp87_node(3), 2) == (1int, 64int));
    ratio_mul_value(0int, 1int, 1int, 64int);
    assert(ratio_mul(dp87_coupling(2, 3), ratio_pow(dp87_node(3), 2)) == (0int, 64int));
    ratio_add_value(1int, 5184int, 0int, 64int);
    assert(ratio_sum(|j: int| ratio_mul(dp87_coupling(2, j), ratio_pow(dp87_node(j), 2)), 4) == (1int, 5184int));
    assert(dp87_coupling(2, 4) == (0int, 1int));
    assert(dp87_node(4) == (5int, 16int));
    assert(ratio_pow(dp87_node(4), 0) == (1int, 1int));
    ratio_mul_value(1int, 1int, 5int, 16int);
    assert(ratio_pow(dp87_node(4), 1) == (5int, 16int));
    ratio_mul_value(5int, 16int, 5int, 16int);
    assert(ratio_pow(dp87_node(4), 2) == (25int, 256int));
    ratio_mul_value(0int, 1int, 25int, 256int);
    assert(ratio_mul(dp87_coupling(2, 4), ratio_pow(dp87_node(4), 2)) == (0int, 256int));
    ratio_add_value(1int, 5184int, 0int, 256int);
    assert(ratio_sum(|j: int| ratio_mul(dp87_coupling(2, j), ratio_pow(dp87_node(j), 2)), 5) == (1int, 5184int));
    assert(dp87_coupling(2, 5) == (0int, 1int));
    assert(dp87_node(5) == (3int, 8int));
    assert(ratio_pow(dp87_node(5), 0) == (1int, 1int));
    ratio_mul_value(1int, 1int, 3int, 8int);
    assert(ratio_pow(dp87_node(5), 1) == (3int, 8int));
    ratio_mul_value(3int, 8int, 3int, 8int);
    assert(ratio_pow(dp87_node(5), 2) == (9int, 64int));
    ratio_mul_value(0int, 1int, 9int, 64int);
    assert(ratio_mul(dp87_coupling(2, 5), ratio_pow(dp87_node(5), 2)) == (0int, 64int));
    ratio_add_value(1int, 5184int, 0int, 64int);
    assert(ratio_sum(|j: int| ratio_mul(dp87_coupling(2, j), ratio_pow(dp87_node(j), 2)), 6) == (1int, 5184int));
    assert(dp87_coupling(2, 6) == (0int, 1int));
    assert(dp87_node(6) == (59int, 400int));
    assert(ratio_pow(dp87_node(6), 0) == (1int, 1int));
    ratio_mul_value(1int, 1int, 59int, 400int);
    assert(ratio_pow(dp87_node(6), 1) == (59int, 400int));
    ratio_mul_value(59int, 400int, 59int, 400int);
    assert(ratio_pow(dp87_node(6), 2) == (3481int, 160000int));
    ratio_mul_value(0int, 1int, 3481int, 160000int);
    assert(ratio_mul(dp87_coupling(2, 6), ratio_pow(dp87_node(6), 2)) == (0int, 160000int));
    ratio_add_value(1int, 5184int, 0int, 160000int);
    assert(ratio_sum(|j: int| ratio_mul(dp87_coupling(2, j), ratio_pow(dp87_node(j), 2)), 7) == (1int, 5184int));
    assert(dp87_coupling(2, 7) == (0int, 1int));
    assert(dp87_node(7) == (93int, 200int));
    assert(ratio_pow(dp87_node(7), 0) == (1int, 1int));
    ratio_mul_value(1int, 1int, 93int, 200int);
    assert(ratio_pow(dp87_node(7), 1) == (93int, 200int));
    ratio_mul_value(93int, 200int, 93int, 200int);
    assert(ratio_pow(dp87_node(7), 2) == (8649int, 40000int));
    ratio_mul_value(0int, 1int, 8649int, 40000int);
    assert(ratio_mul(dp87_coupling(2, 7), ratio_pow(dp87_node(7), 2)) == (0int, 40000int));
    ratio_add_value(1int, 5184int, 0int, 40000int);
    assert(ratio_sum(|j: int| ratio_mul(dp87_coupling(2, j), ratio_pow(dp87_node(j), 2)), 8) == (1int, 5184int));
    assert(dp87_coupling(2, 8) == (0int, 1int));
    assert(dp87_node(8) == (5490023248int, 9719169821int));
    assert(ratio_pow(dp87_node(8), 0) == (1int, 1int));
    ratio_mul_value(1int, 1int, 5490023248int, 9719169821int);
    assert(ratio_pow(dp87_node(8), 1) == (5490023248int, 9719169821int));
    ratio_mul_value(5490023248int, 9719169821int, 5490023248int, 9719169821int);
    assert(ratio_pow(dp87_node(8), 2) == (30140355263580469504int, 94462262009437172041int));
    ratio_mul_value(0int, 1int, 30140355263580469504int, 94462262009437172041int);
    assert(ratio_mul(dp87_coupling(2, 8), ratio_pow(dp87_node(8), 2)) == (0int, 94462262009437172041int));
    ratio_add_value(1int, 5184int, 0int, 94462262009437172041int);
    assert(ratio_sum(|j: int| ratio_mul(dp87_coupling(2, j), ratio_pow(dp87_node(j), 2)), 9) == (1int, 5184int));
    assert(dp87_coupling(2, 9) == (0int, 1int));
    assert(dp87_node(9) == (13int, 20int));
    assert(ratio_pow(dp87_node(9), 0) == (1int, 1int));
    ratio_mul_value(1int, 1int, 13int, 20int);
    assert(ratio_pow(dp87_node(9), 1) == (13int, 20int));
    ratio_mul_value(13int, 20int, 13int, 20int);
    assert(ratio_pow(dp87_node(9), 2) == (169int, 400int));
    ratio_mul_value(0int, 1int, 169int, 400int);
    assert(ratio_mul(dp87_coupling(2, 9), ratio_pow(dp87_node(9), 2)) == (0int, 400int));
    ratio_add_value(1int, 5184int, 0int, 400int);
    assert(ratio_sum(|j: int| ratio_mul(dp87_coupling(2, j), ratio_pow(dp87_node(j), 2)), 10) == (1int, 5184int));
    assert(dp87_coupling(2, 10) == (0int, 1int));
    assert(dp87_node(10) == (1201146811int, 1299019798int));
    assert(ratio_pow(dp87_node(10), 0) == (1int, 1int));
    ratio_mul_value(1int, 1int, 1201146811int, 1299019798int);
    assert(ratio_pow(dp87_node(10), 1) == (1201146811int, 1299019798int));
    ratio_mul_value(1201146811int, 1299019798int, 1201146811int, 1299019798int);
    assert(ratio_pow(dp87_node(10), 2) == (1442753661575469721int, 1687452435595960804int));
    ratio_mul_value(0int, 1int, 1442753661575469721int, 1687452435595960804int);
    assert(ratio_mul(dp87_coupling(2, 10), ratio_pow(dp87_node(10), 2)) == (0int, 1687452435595960804int));
    ratio_add_value(1int, 5184int, 0int, 1687452435595960804int);
    assert(ratio_sum(|j: int| ratio_mul(dp87_coupling(2, j), ratio_pow(dp87_node(j), 2)), 11) == (1int, 5184int));
    assert(dp87_coupling(2, 11) == (0int, 1int));
    assert(dp87_node(11) == (1int, 1int));
    assert(ratio_pow(dp87_node(11), 0) == (1int, 1int));
    ratio_mul_value(1int, 1int, 1int, 1int);
    assert(ratio_pow(dp87_node(11), 1) == (1int, 1int));
    ratio_mul_value(1int, 1int, 1int, 1int);
    assert(ratio_pow(dp87_node(11), 2) == (1int, 1int));
    ratio_mul_value(0int, 1int, 1int, 1int);
    assert(ratio_mul(dp87_coupling(2, 11), ratio_pow(dp87_node(11), 2)) == (0int, 1int));
    ratio_add_value(1int, 5184int, 0int, 1int);
    assert(ratio_sum(|j: int| ratio_mul(dp87_coupling(2, j), ratio_pow(dp87_node(j), 2)), 12) == (1int, 5184int));
    assert(dp87_coupling(2, 12) == (0int, 1int));
    assert(dp87_node(12) == (1int, 1int));
    assert(ratio_pow(dp87_node(12), 0) == (1int, 1int));
    ratio_mul_value(1int, 1int, 1int, 1int);
    assert(ratio_pow(dp87_node(12), 1) == (1int, 1int));
    ratio_mul_value(1int, 1int, 1int, 1int);
    assert(ratio_pow(dp87_node(12), 2) == (1int, 1int));
    ratio_mul_value(0int, 1int, 1int, 1int);
    assert(ratio_mul(dp87_coupling(2, 12), ratio_pow(dp87_node(12), 2)) == (0int, 1int));
    ratio_add_value(1int, 5184int, 0int, 1int);
    assert(ratio_sum(|j: int| ratio_mul(dp87_coupling(2, j), ratio_pow(dp87_node(j), 2)), 13) == (1int, 5184int));
    assert(dp87_node(2) == (1int, 12int));
    assert(ratio_pow(dp87_node(2), 0) == (1int, 1int));
    ratio_mul_value(1int, 1int, 1int, 12int);
    assert(ratio_pow(dp87_node(2), 1) == (1int, 12int));
    ratio_mul_value(1int, 12int, 1int, 12int);
    assert(ratio_pow(dp87_node(2), 2) == (1int, 144int));
    ratio_mul_value(1int, 144int, 1int, 12int);
    assert(ratio_pow(dp87_node(2), 3) == (1int, 1728int));
    ratio_mul_value(1int, 1728int, 1int, 3int);
    assert(ratio_mul(ratio_pow(dp87_node(2), 3), (1, 3)) == (1int, 5184int));
    assert(within_1e14((1int, 5184int), (1int, 5184int))) by (nonlinear_arith);
}

/// The moment of degree 2 of row 3, exactly, stage by stage.
#[verifier::spinoff_prover]
proof fn stage_condition_3_2()
    ensures
        within_1e14(coupling_moment(3, 2), ratio_mul(ratio_pow(dp87_node(3), 3), (1, 3))),
{
    assert(ratio_sum(|j: int| ratio_mul(dp87_coupling(3, j), ratio_pow(dp87_node(j), 2)), 0) == (0int, 1int));
    assert(dp87_coupling(3, 0) == (1int, 32int));
    assert(dp87_node(0) == (0int, 1int));
    assert(ratio_pow(dp87_node(0), 0) == (1int, 1int));
    ratio_mul_value(1int, 1int, 0int, 1int);
    assert(ratio_pow(dp87_node(0), 1) == (0int, 1int));
    ratio_mul_value(0int, 1int, 0int, 1int);
    assert(ratio_pow(dp87_node(0), 2) == (0int, 1int));
    ratio_mul_value(1int, 32int, 0int, 1int);
    assert(ratio_mul(dp87_coupling(3, 0), ratio_pow(dp87_node(0), 2)) == (0int, 32int));
    ratio_add_value(0int, 1int, 0int, 32int);
    assert(ratio_sum(|j: int| ratio_mul(dp87_coupling(3, j), ratio_pow(dp87_node(j), 2)), 1) == (0int, 1int));
    assert(dp87_coupling(3, 1) == (0int, 1int));
    assert(dp87_node(1) == (1int, 18int));
    assert(ratio_pow(dp87_node(1), 0) == (1int, 1int));
    ratio_mul_value(1int, 1int, 1int, 18int);
    assert(ratio_pow(dp87_node(1), 1) == (1int, 18int));
    ratio_mul_value(1int, 18int, 1int, 18int);
    assert(ratio_pow(dp87_node(1), 2) == (1int, 324int));
    ratio_mul_value(0int, 1int, 1int, 324int);
    assert(ratio_mul(dp87_coupling(3, 1), ratio_pow(dp87_node(1), 2)) == (0int, 324int));
    ratio_add_value(0int, 1int, 0int, 324int);
    assert(ratio_sum(|j: int| ratio_mul(dp87_coupling(3, j), ratio_pow(dp87_node(j), 2)), 2) == (0int, 1int));
    assert(dp87_coupling(3, 2) == (3int, 32int));
    assert(dp87_node(2) == (1int, 12int));
    assert(ratio_pow(dp87_node(2), 0) == (1int, 1int));
    ratio_mul_value(1int, 1int, 1int, 12int);
    assert(ratio_pow(dp87_node(2), 1) == (1int, 12int));
    ratio_mul_value(1int, 12int, 1int, 12int);
    assert(ratio_pow(dp87_node(2), 2) == (1int, 144int));
    ratio_mul_value(3int, 32int, 1int, 144int);
    assert(ratio_mul(dp87_coupling(3, 2), ratio_pow(dp87_node(2), 2)) == (3int, 4608int));
    ratio_add_value(0int, 1int, 3int, 4608int);
    assert(ratio_sum(|j: int| ratio_mul(dp87_coupling(3, j), ratio_pow(dp87_node(j), 2)), 3) == (3int, 4608int));
    assert(dp87_coupling(3, 3) == (0int, 1int));
    assert(dp87_node(3) == (1int, 8int));
    assert(ratio_pow(dp87_node(3), 0) == (1int, 1int));
    ratio_mul_value(1int, 1int, 1int, 8int);
    assert(ratio_pow(dp87_node(3), 1) == (1int, 8int));
    ratio_mul_value(1int, 8int, 1int, 8int);
    assert(ratio_pow(dp87_node(3), 2) == (1int, 64int));
    ratio_mul_value(0int, 1int, 1int, 64int);
    assert(ratio_mul(dp87_coupling(3, 3), ratio_pow(dp87_node(3), 2)) == (0int, 64int));
    ratio_add_value(3int, 4608int, 0int, 64int);
    assert(ratio_sum(|j: int| ratio_mul(dp87_coupling(3, j), ratio_pow(dp87_node(j), 2)), 4) == (3int, 4608int));
    assert(dp87_coupling(3, 4) == (0int, 1int));
    assert(dp87_node(4) == (5int, 16int));
    assert(ratio_pow(dp87_node(4), 0) == (1int, 1int));
    ratio_mul_value(1int, 1int, 5int, 16int);
    assert(ratio_pow(dp87_node(4), 1) == (5int, 16int));
    ratio_mul_value(5int, 16int, 5int, 16int);
    assert(ratio_pow(dp87_node(4), 2) == (25int, 256int));
    ratio_mul_value(0int, 1int, 25int, 256int);
    assert(ratio_mul(dp87_coupling(3, 4), ratio_pow(dp87_node(4), 2)) == (0int, 256int));
    ratio_add_value(3int, 4608int, 0int, 256int);
    assert(ratio_sum(|j: int| ratio_mul(dp87_coupling(3, j), ratio_pow(dp87_node(j), 2)), 5) == (3int, 4608int));
    assert(dp87_coupling(3, 5) == (0int, 1int));
    assert(dp87_node(5) == (3int, 8int));
    assert(ratio_pow(dp87_node(5), 0) == (1int, 1int));
    ratio_mul_value(1int, 1int, 3int, 8int);
    assert(ratio_pow(dp87_node(5), 1) == (3int, 8int));
    ratio_mul_value(3int, 8int, 3int, 8int);
    assert(ratio_pow(dp87_node(5), 2) == (9int, 64int));
    ratio_mul_value(0int, 1int, 9int, 64int);
    assert(ratio_mul(dp87_coupling(3, 5), ratio_pow(dp87_node(5), 2)) == (0int, 64int));
    ratio_add_value(3int, 4608int, 0int, 64int);
    assert(ratio_sum(|j: int| ratio_mul(dp87_coupling(3, j), ratio_pow(dp87_node(j), 2)), 6) == (3int, 4608int));
    assert(dp87_coupling(3, 6) == (0int, 1int));
    assert(dp87_node(6) == (59int, 400int));
    assert(ratio_pow(dp87_node(6), 0) == (1int, 1int));
    ratio_mul_value(1int, 1int, 59int, 400int);
    assert(ratio_pow(dp87_node(6), 1) == (59int, 400int));
    ratio_mul_value(59int, 400int, 59int, 400int);
    assert(ratio_pow(dp87_node(6), 2) == (3481int, 160000int));
    ratio_mul_value(0int, 1int, 3481int, 160000int);
    assert(ratio_mul(dp87_coupling(3, 6), ratio_pow(dp87_node(6), 2)) == (0int, 160000int));
    ratio_add_value(3int, 4608int, 0int, 160000int);
    assert(ratio_sum(|j: int| ratio_mul(dp87_coupling(3, j), ratio_pow(dp87_node(j), 2)), 7) == (3int, 4608int));
    assert(dp87_coupling(3, 7) == (0int, 1int));
    assert(dp87_node(7) == (93int, 200int));
    assert(ratio_pow(dp87_node(7), 0) == (1int, 1int));
    ratio_mul_value(1int, 1int, 93int, 200int);
    assert(ratio_pow(dp87_node(7), 1) == (93int, 200int));
    ratio_mul_value(93int, 200int, 93int, 200int);
    assert(ratio_pow(dp87_node(7), 2) == (8649int, 40000int));
    ratio_mul_value(0int, 1int, 8649int, 40000int);
    assert(ratio_mul(dp87_coupling(3, 7), ratio_pow(dp87_node(7), 2)) == (0int, 40000int));
    ratio_add_value(3int, 4608int, 0int, 40000int);
    assert(ratio_sum(|j: int| ratio_mul(dp87_coupling(3, j), ratio_pow(dp87_node(j), 2)), 8) == (3int, 4608int));
    assert(dp87_coupling(3, 8) == (0int, 1int));
    assert(dp87_node(8) == (5490023248int, 9719169821int));
    assert(ratio_pow(dp87_node(8), 0) == (1int, 1int));
    ratio_mul_value(1int, 1int, 5490023248int, 9719169821int);
    assert(ratio_pow(dp87_node(8), 1) == (5490023248int, 9719169821int));
    ratio_mul_value(5490023248int, 9719169821int, 5490023248int, 9719169821int);
    assert(ratio_pow(dp87_node(8), 2) == (30140355263580469504int, 94462262009437172041int));
    ratio_mul_value(0int, 1int, 30140355263580469504int, 94462262009437172041int);
    assert(ratio_mul(dp87_coupling(3, 8), ratio_pow(dp87_node(8), 2)) == (0int, 94462262009437172041int));
    ratio_add_value(3int, 4608int, 0int, 94462262009437172041int);
    assert(ratio_sum(|j: int| ratio_mul(dp87_coupling(3, j), ratio_pow(dp87_node(j), 2)), 9) == (3int, 4608int));
    assert(dp87_coupling(3, 9) == (0int, 1int));
    assert(dp87_node(9) == (13int, 20int));
    assert(ratio_pow(dp87_node(9), 0) == (1int, 1int));
    ratio_mul_value(1int, 1int, 13int, 20int);
    assert(ratio_pow(dp87_node(9), 1) == (13int, 20int));
    ratio_mul_value(13int, 20int, 13int, 20int);
    assert(ratio_pow(dp87_node(9), 2) == (169int, 400int));
    ratio_mul_value(0int, 1int, 169int, 400int);
    assert(ratio_mul(dp87_coupling(3, 9), ratio_pow(dp87_node(9), 2)) == (0int, 400int));
    ratio_add_value(3int, 4608int, 0int, 400int);
    assert(ratio_sum(|j: int| ratio_mul(dp87_coupling(3, j), ratio_pow(dp87_node(j), 2)), 10) == (3int, 4608int));
    assert(dp87_coupling(3, 10) == (0int, 1int));
    assert(dp87_node(10) == (1201146811int, 1299019798int));
    assert(ratio_pow(dp87_node(10), 0) == (1int, 1int));
    ratio_mul_value(1int, 1int, 1201146811int, 1299019798int);
    assert(ratio_pow(dp87_node(10), 1) == (1201146811int, 1299019798int));
    ratio_mul_value(1201146811int, 1299019798int, 1201146811int, 1299019798int);
    assert(ratio_pow(dp87_node(10), 2) == (1442753661575469721int, 1687452435595960804int));
    ratio_mul_value(0int, 1int, 1442753661575469721int, 1687452435595960804int);
    assert(ratio_mul(dp87_coupling(3, 10), ratio_pow(dp87_node(10), 2)) == (0int, 1687452435595960804int));
    ratio_add_value(3int, 4608int, 0int, 1687452435595960804int);
    assert(ratio_sum(|j: int| ratio_mul(dp87_coupling(3, j), ratio_pow(dp87_node(j), 2)), 11) == (3int, 4608int));
    assert(dp87_coupling(3, 11) == (0int, 1int));
    assert(dp87_node(11) == (1int, 1int));
    assert(ratio_pow(dp87_node(11), 0) == (1int, 1int));
    ratio_mul_value(1int, 1int, 1int, 1int);
    assert(ratio_pow(dp87_node(11), 1) == (1int, 1int));
    ratio_mul_value(1int, 1int, 1int, 1int);
    assert(ratio_pow(dp87_node(11), 2) == (1int, 1int));
    ratio_mul_value(0int, 1int, 1int, 1int);
    assert(ratio_mul(dp87_coupling(3, 11), ratio_pow(dp87_node(11), 2)) == (0int, 1int));
    ratio_add_value(3int, 4608int, 0int, 1int);
    assert(ratio_sum(|j: int| ratio_mul(dp87_coupling(3, j), ratio_pow(dp87_node(j), 2)), 12) == (3int, 4608int));
    assert(dp87_coupling(3, 12) == (0int, 1int));
    assert(dp87_node(12) == (1int, 1int));
    assert(ratio_pow(dp87_node(12), 0) == (1int, 1int));
    ratio_mul_value(1int, 1int, 1int, 1int);
    assert(ratio_pow(dp87_node(12), 1) == (1int, 1int));
    ratio_mul_value(1int, 1int, 1int, 1int);
    assert(ratio_pow(dp87_node(12), 2) == (1int, 1int));
    ratio_mul_value(0int, 1int, 1int, 1int);
    assert(ratio_mul(dp87_coupling(3, 12), ratio_pow(dp87_node(12), 2)) == (0int, 1int));
    ratio_add_value(3int, 4608int, 0int, 1int);
    assert(ratio_sum(|j: int| ratio_mul(dp87_coupling(3, j), ratio_pow(dp87_node(j), 2)), 13) == (3int, 4608int));
    assert(dp87_node(3) == (1int, 8int));
    assert(ratio_pow(dp87_node(3), 0) == (1int, 1int));
    ratio_mul_value(1int, 1int, 1int, 8int);
    assert(ratio_pow(dp87_node(3), 1) == (1int, 8int));
    ratio_mul_value(1int, 8int, 1int, 8int);
    assert(ratio_pow(dp87_node(3), 2) == (1int, 64int));
    ratio_mul_value(1int, 64int, 1int, 8int);
    assert(ratio_pow(dp87_node(3), 3) == (1int, 512int));
    ratio_mul_value(1int, 512int, 1int, 3int);
    assert(ratio_mul(ratio_pow(dp87_node(3), 3), (1, 3)) == (1int, 1536int));
    assert(within_1e14((3int, 4608int), (1int, 1536int))) by (nonlinear_arith);
}

/// The moment of degree 2 of row 4, exactly, stage by stage.
#[verifier::spinoff_prover]
proof fn stage_condition_4_2()
    ensures
        within_1e14(coupling_moment(4, 2), ratio_mul(ratio_pow(dp87_node(4), 3), (1, 3))),
{
    assert(ratio_sum(|j: int| ratio_mul(dp87_coupling(4, j), ratio_pow(dp87_node(j), 2)), 0) == (0int, 1int));
    assert(dp87_coupling(4, 0) == (5int, 16int));
    assert(dp87_node(0) == (0int, 1int));
    assert(ratio_pow(dp87_node(0), 0) == (1int, 1int));
    ratio_mul_value(1int, 1int, 0int, 1int);
    assert(ratio_pow(dp87_node(0), 1) == (0int, 1int));
    ratio_mul_value(0int, 1int, 0int, 1int);
    assert(ratio_pow(dp87_node(0), 2) == (0int, 1int));
    ratio_mul_value(5int, 16int, 0int, 1int);
    assert(ratio_mul(dp87_coupling(4, 0), ratio_pow(dp87_node(0), 2)) == (0int, 16int));
    ratio_add_value(0int, 1int, 0int, 16int);
    assert(ratio_sum(|j: int| ratio_mul(dp87_coupling(4, j), ratio_pow(dp87_node(j), 2)), 1) == (0int, 1int));
    assert(dp87_coupling(4, 1) == (0int, 1int));
    assert(dp87_node(1) == (1int, 18int));
    assert(ratio_pow(dp87_node(1), 0) == (1int, 1int));
    ratio_mul_value(1int, 1int, 1int, 18int);
    assert(ratio_pow(dp87_node(1), 1) == (1int, 18int));
    ratio_mul_value(1int, 18int, 1int, 18int);
    assert(ratio_pow(dp87_node(1), 2) == (1int, 324int));
    ratio_mul_value(0int, 1int, 1int, 324int);
    assert(ratio_mul(dp87_coupling(4, 1), ratio_pow(dp87_node(1), 2)) == (0int, 324int));
    ratio_add_value(0int, 1int, 0int, 324int);
    assert(ratio_sum(|j: int| ratio_mul(dp87_coupling(4, j), ratio_pow(dp87_node(j), 2)), 2) == (0int, 1int));
    assert(dp87_coupling(4, 2) == (-75int, 64int));
    assert(dp87_node(2) == (1int, 12int));
    assert(ratio_pow(dp87_node(2), 0) == (1int, 1int));
    ratio_mul_value(1int, 1int, 1int, 12int);
    assert(ratio_pow(dp87_node(2), 1) == (1int, 12int));
    ratio_mul_value(1int, 12int, 1int, 12int);
    assert(ratio_pow(dp87_node(2), 2) == (1int, 144int));
    ratio_mul_value(-75int, 64int, 1int, 144int);
    assert(ratio_mul(dp87_coupling(4, 2), ratio_pow(dp87_node(2), 2)) == (-75int, 9216int));
    ratio_add_value(0int, 1int, -75int, 9216int);
    assert(ratio_sum(|j: int| ratio_mul(dp87_coupling(4, j), ratio_pow(dp87_node(j), 2)), 3) == (-75int, 9216int));
    assert(dp87_coupling(4, 3) == (75int, 64int));
    assert(dp87_node(3) == (1int, 8int));
    assert(ratio_pow(dp87_node(3), 0) == (1int, 1int));
    ratio_mul_value(1int, 1int, 1int, 8int);
    assert(ratio_pow(dp87_node(3), 1) == (1int, 8int));
    ratio_mul_value(1int, 8int, 1int, 8int);
    assert(ratio_pow(dp87_node(3), 2) == (1int, 64int));
    ratio_mul_value(75int, 64int, 1int, 64int);
    assert(ratio_mul(dp87_coupling(4, 3), ratio_pow(dp87_node(3), 2)) == (75int, 4096int));
    ratio_add_value(-75int, 9216int, 75int, 4096int);
    assert(ratio_sum(|j: int| ratio_mul(dp87_coupling(4, j), ratio_pow(dp87_node(j), 2)), 4) == (384000int, 37748736int));
    assert(dp87_coupling(4, 4) == (0int, 1int));
    assert(dp87_node(4) == (5int, 16int));
    assert(ratio_pow(dp87_node(4), 0) == (1int, 1int));
    ratio_mul_value(1int, 1int, 5int, 16int);
    assert(ratio_pow(dp87_node(4), 1) == (5int, 16int));
    ratio_mul_value(5int, 16int, 5int, 16int);
    assert(ratio_pow(dp87_node(4), 2) == (25int, 256int));
    ratio_mul_value(0int, 1int, 25int, 256int);
    assert(ratio_mul(dp87_coupling(4, 4), ratio_pow(dp87_node(4), 2)) == (0int, 256int));
    ratio_add_value(384000int, 37748736int, 0int, 256int);
    assert(ratio_sum(|j: int| ratio_mul(dp87_coupling(4, j), ratio_pow(dp87_node(j), 2)), 5) == (384000int, 37748736int));
    assert(dp87_coupling(4, 5) == (0int, 1int));
    assert(dp87_node(5) == (3int, 8int));
    assert(ratio_pow(dp87_node(5), 0) == (1int, 1int));
    ratio_mul_value(1int, 1int, 3int, 8int);
    assert(ratio_pow(dp87_node(5), 1) == (3int, 8int));
    ratio_mul_value(3int, 8int, 3int, 8int);
    assert(ratio_pow(dp87_node(5), 2) == (9int, 64int));
    ratio_mul_value(0int, 1int, 9int, 64int);
    assert(ratio_mul(dp87_coupling(4, 5), ratio_pow(dp87_node(5), 2)) == (0int, 64int));
    ratio_add_value(384000int, 37748736int, 0int, 64int);
    assert(ratio_sum(|j: int| ratio_mul(dp87_coupling(4, j), ratio_pow(dp87_node(j), 2)), 6) == (384000int, 37748736int));
    assert(dp87_coupling(4, 6) == (0int, 1int));
    assert(dp87_node(6) == (59int, 400int));
    assert(ratio_pow(dp87_node(6), 0) == (1int, 1int));
    ratio_mul_value(1int, 1int, 59int, 400int);
    assert(ratio_pow(dp87_node(6), 1) == (59int, 400int));
    ratio_mul_value(59int, 400int, 59int, 400int);
    assert(ratio_pow(dp87_node(6), 2) == (3481int, 160000int));
    ratio_mul_value(0int, 1int, 3481int, 160000int);
    assert(ratio_mul(dp87_coupling(4, 6), ratio_pow(dp87_node(6), 2)) == (0int, 160000int));
    ratio_add_value(384000int, 37748736int, 0int, 160000int);
    assert(ratio_sum(|j: int| ratio_mul(dp87_coupling(4, j), ratio_pow(dp87_node(j), 2)), 7) == (384000int, 37748736int));
    assert(dp87_coupling(4, 7) == (0int, 1int));
    assert(dp87_node(7) == (93int, 200int));
    assert(ratio_pow(dp87_node(7), 0) == (1int, 1int));
    ratio_mul_value(1int, 1int, 93int, 200int);
    assert(ratio_pow(dp87_node(7), 1) == (93int, 200int));
    ratio_mul_value(93int, 200int, 93int, 200int);
    assert(ratio_pow(dp87_node(7), 2) == (8649int, 40000int));
    ratio_mul_value(0int, 1int, 8649int, 40000int);
    assert(ratio_mul(dp87_coupling(4, 7), ratio_pow(dp87_node(7), 2)) == (0int, 40000int));
    ratio_add_value(384000int, 37748736int, 0int, 40000int);
    assert(ratio_sum(|j: int| ratio_mul(dp87_coupling(4, j), ratio_pow(dp87_node(j), 2)), 8) == (384000int, 37748736int));
    assert(dp87_coupling(4, 8) == (0int, 1int));
    assert(dp87_node(8) == (5490023248int, 9719169821int));
    assert(ratio_pow(dp87_node(8), 0) == (1int, 1int));
    ratio_mul_value(1int, 1int, 5490023248int, 9719169821int);
    assert(ratio_pow(dp87_node(8), 1) == (5490023248int, 9719169821int));
    ratio_mul_value(5490023248int, 9719169821int, 5490023248int, 9719169821int);
    assert(ratio_pow(dp87_node(8), 2) == (30140355263580469504int, 94462262009437172041int));
    ratio_mul_value(0int, 1int, 30140355263580469504int, 94462262009437172041int);
    assert(ratio_mul(dp87_coupling(4, 8), ratio_pow(dp87_node(8), 2)) == (0int, 94462262009437172041int));
    ratio_add_value(384000int, 37748736int, 0int, 94462262009437172041int);
    assert(ratio_sum(|j: int| ratio_mul(dp87_coupling(4, j), ratio_pow(dp87_node(j), 2)), 9) == (384000int, 37748736int));
    assert(dp87_coupling(4, 9) == (0int, 1int));
    assert(dp87_node(9) == (13int, 20int));
    assert(ratio_pow(dp87_node(9), 0) == (1int, 1int));
    ratio_mul_value(1int, 1int, 13int, 20int);
    assert(ratio_pow(dp87_node(9), 1) == (13int, 20int));
    ratio_mul_value(13int, 20int, 13int, 20int);
    assert(ratio_pow(dp87_node(9), 2) == (169int, 400int));
    ratio_mul_value(0int, 1int, 169int, 400int);
    assert(ratio_mul(dp87_coupling(4, 9), ratio_pow(dp87_node(9), 2)) == (0int, 400int));
    ratio_add_value(384000int, 37748736int, 0int, 400int);
    assert(ratio_sum(|j: int| ratio_mul(dp87_coupling(4, j), ratio_pow(dp87_node(j), 2)), 10) == (384000int, 37748736int));
    assert(dp87_coupling(4, 10) == (0int, 1int));
    assert(dp87_node(10) == (1201146811int, 1299019798int));
    assert(ratio_pow(dp87_node(10), 0) == (1int, 1int));
    ratio_mul_value(1int, 1int, 1201146811int, 1299019798int);
    assert(ratio_pow(dp87_node(10), 1) == (1201146811int, 1299019798int));
    ratio_mul_value(1201146811int, 1299019798int, 1201146811int, 1299019798int);
    assert(ratio_pow(dp87_node(10), 2) == (1442753661575469721int, 1687452435595960804int));
    ratio_mul_value(0int, 1int, 1442753661575469721int, 1687452435595960804int);
    assert(ratio_mul(dp87_coupling(4, 10), ratio_pow(dp87_node(10), 2)) == (0int, 1687452435595960804int));
    ratio_add_value(384000int, 37748736int, 0int, 1687452435595960804int);
    assert(ratio_sum(|j: int| ratio_mul(dp87_coupling(4, j), ratio_pow(dp87_node(j), 2)), 11) == (384000int, 37748736int));
    assert(dp87_coupling(4, 11) == (0int, 1int));
    assert(dp87_node(11) == (1int, 1int));
    assert(ratio_pow(dp87_node(11), 0) == (1int, 1int));
    ratio_mul_value(1int, 1int, 1int, 1int);
    assert(ratio_pow(dp87_node(11), 1) == (1int, 1int));
    ratio_mul_value(1int, 1int, 1int, 1int);
    assert(ratio_pow(dp87_node(11), 2) == (1int, 1int));
    ratio_mul_value(0int, 1int, 1int, 1int);
    assert(ratio_mul(dp87_coupling(4, 11), ratio_pow(dp87_node(11), 2)) == (0int, 1int));
    ratio_add_value(384000int, 37748736int, 0int, 1int);
    assert(ratio_sum(|j: int| ratio_mul(dp87_coupling(4, j), ratio_pow(dp87_node(j), 2)), 12) == (384000int, 37748736int));
    assert(dp87_coupling(4, 12) == (0int, 1int));
    assert(dp87_node(12) == (1int, 1int));
    assert(ratio_pow(dp87_node(12), 0) == (1int, 1int));
    ratio_mul_value(1int, 1int, 1int, 1int);
    assert(ratio_pow(dp87_node(12), 1) == (1int, 1int));
    ratio_mul_value(1int, 1int, 1int, 1int);
    assert(ratio_pow(dp87_node(12), 2) == (1int, 1int));
    ratio_mul_value(0int, 1int, 1int, 1int);
    assert(ratio_mul(dp87_coupling(4, 12), ratio_pow(dp87_node(12), 2)) == (0int, 1int));
    ratio_add_value(384000int, 37748736int, 0int, 1int);
    assert(ratio_sum(|j: int| ratio_mul(dp87_coupling(4, j), ratio_pow(dp87_node(j), 2)), 13) == (384000int, 37748736int));
    assert(dp87_node(4) == (5int, 16int));
    assert(ratio_pow(dp87_node(4), 0) == (1int, 1int));
    ratio_mul_value(1int, 1int, 5int, 16int);
    assert(ratio_pow(dp87_node(4), 1) == (5int, 16int));
    ratio_mul_value(5int, 16int, 5int, 16int);
    assert(ratio_pow(dp87_node(4), 2) == (25int, 256int));
    ratio_mul_value(25int, 256int, 5int, 16int);
    assert(ratio_pow(dp87_node(4), 3) == (125int, 4096int));
    ratio_mul_value(125int, 4096int, 1int, 3int);
    assert(ratio_mul(ratio_pow(dp87_node(4), 3), (1, 3)) == (125int, 12288int));
    assert(within_1e14((384000int, 37748736int), (125int, 12288int))) by (nonlinear_arith);
}

/// The moment of degree 2 of row 5, exactly, stage by stage.
#[verifier::spinoff_prover]
proof fn stage_condition_5_2()
    ensures
        within_1e14(coupling_moment(5, 2), ratio_mul(ratio_pow(dp87_node(5), 3), (1, 3))),
{
    assert(ratio_sum(|j: int| ratio_mul(dp87_coupling(5, j), ratio_pow(dp87_node(j), 2)), 0) == (0int, 1int));
    assert(dp87_coupling(5, 0) == (3int, 80int));
    assert(dp87_node(0) == (0int, 1int));
    assert(ratio_pow(dp87_node(0), 0) == (1int, 1int));
    ratio_mul_value(1int, 1int, 0int, 1int);
    assert(ratio_pow(dp87_node(0), 1) == (0int, 1int));
    ratio_mul_value(0int, 1int, 0int, 1int);
    assert(ratio_pow(dp87_node(0), 2) == (0int, 1int));
    ratio_mul_value(3int, 80int, 0int, 1int);
    assert(ratio_mul(dp87_coupling(5, 0), ratio_pow(dp87_node(0), 2)) == (0int, 80int));
    ratio_add_value(0int, 1int, 0int, 80int);
    assert(ratio_sum(|j: int| ratio_mul(dp87_coupling(5, j), ratio_pow(dp87_node(j), 2)), 1) == (0int, 1int));
    assert(dp87_coupling(5, 1) == (0int, 1int));
    assert(dp87_node(1) == (1int, 18int));
    assert(ratio_pow(dp87_node(1), 0) == (1int, 1int));
    ratio_mul_value(1int, 1int, 1int, 18int);
    assert(ratio_pow(dp87_node(1), 1) == (1int, 18int));
    ratio_mul_value(1int, 18int, 1int, 18int);
    assert(ratio_pow(dp87_node(1), 2) == (1int, 324int));
    ratio_mul_value(0int, 1int, 1int, 324int);
    assert(ratio_mul(dp87_coupling(5, 1), ratio_pow(dp87_node(1), 2)) == (0int, 324int));
    ratio_add_value(0int, 1int, 0int, 324int);
    assert(ratio_sum(|j: int| ratio_mul(dp87_coupling(5, j), ratio_pow(dp87_node(j), 2)), 2) == (0int, 1int));
    assert(dp87_coupling(5, 2) == (0int, 1int));
    assert(dp87_node(2) == (1int, 12int));
    assert(ratio_pow(dp87_node(2), 0) == (1int, 1int));
    ratio_mul_value(1int, 1int, 1int, 12int);
    assert(ratio_pow(dp87_node(2), 1) == (1int, 12int));
    ratio_mul_value(1int, 12int, 1int, 12int);
    assert(ratio_pow(dp87_node(2), 2) == (1int, 144int));
    ratio_mul_value(0int, 1int, 1int, 144int);
    assert(ratio_mul(dp87_coupling(5, 2), ratio_pow(dp87_node(2), 2)) == (0int, 144int));
    ratio_add_value(0int, 1int, 0int, 144int);
    assert(ratio_sum(|j: int| ratio_mul(dp87_coupling(5, j), ratio_pow(dp87_node(j), 2)), 3) == (0int, 1int));
    assert(dp87_coupling(5, 3) == (3int, 16int));
    assert(dp87_node(3) == (1int, 8int));
    assert(ratio_pow(dp87_node(3), 0) == (1int, 1int));
    ratio_mul_value(1int, 1int, 1int, 8int);
    assert(ratio_pow(dp87_node(3), 1) == (1int, 8int));
    ratio_mul_value(1int, 8int, 1int, 8int);
    assert(ratio_pow(dp87_node(3), 2) == (1int, 64int));
    ratio_mul_value(3int, 16int, 1int, 64int);
    assert(ratio_mul(dp87_coupling(5, 3), ratio_pow(dp87_node(3), 2)) == (3int, 1024int));
    ratio_add_value(0int, 1int, 3int, 1024int);
    assert(ratio_sum(|j: int| ratio_mul(dp87_coupling(5, j), ratio_pow(dp87_node(j), 2)), 4) == (3int, 1024int));
    assert(dp87_coupling(5, 4) == (3int, 20int));
    assert(dp87_node(4) == (5int, 16int));
    assert(ratio_pow(dp87_node(4), 0) == (1int, 1int));
    ratio_mul_value(1int, 1int, 5int, 16int);
    assert(ratio_pow(dp87_node(4), 1) == (5int, 16int));
    ratio_mul_value(5int, 16int, 5int, 16int);
    assert(ratio_pow(dp87_node(4), 2) == (25int, 256int));
    ratio_mul_value(3int, 20int, 25int, 256int);
    assert(ratio_mul(dp87_coupling(5, 4), ratio_pow(dp87_node(4), 2)) == (75int, 5120int));
    ratio_add_value(3int, 1024int, 75int, 5120int);
    assert(ratio_sum(|j: int| ratio_mul(dp87_coupling(5, j), ratio_pow(dp87_node(j), 2)), 5) == (92160int, 5242880int));
    assert(dp87_coupling(5, 5) == (0int, 1int));
    assert(dp87_node(5) == (3int, 8int));
    assert(ratio_pow(dp87_node(5), 0) == (1int, 1int));
    ratio_mul_value(1int, 1int, 3int, 8int);
    assert(ratio_pow(dp87_node(5), 1) == (3int, 8int));
    ratio_mul_value(3int, 8int, 3int, 8int);
    assert(ratio_pow(dp87_node(5), 2) == (9int, 64int));
    ratio_mul_value(0int, 1int, 9int, 64int);
    assert(ratio_mul(dp87_coupling(5, 5), ratio_pow(dp87_node(5), 2)) == (0int, 64int));
    ratio_add_value(92160int, 5242880int, 0int, 64int);
    assert(ratio_sum(|j: int| ratio_mul(dp87_coupling(5, j), ratio_pow(dp87_node(j), 2)), 6) == (92160int, 5242880int));
    assert(dp87_coupling(5, 6) == (0int, 1int));
    assert(dp87_node(6) == (59int, 400int));
    assert(ratio_pow(dp87_node(6), 0) == (1int, 1int));
    ratio_mul_value(1int, 1int, 59int, 400int);
    assert(ratio_pow(dp87_node(6), 1) == (59int, 400int));
    ratio_mul_value(59int, 400int, 59int, 400int);
    assert(ratio_pow(dp87_node(6), 2) == (3481int, 160000int));
    ratio_mul_value(0int, 1int, 3481int, 160000int);
    assert(ratio_mul(dp87_coupling(5, 6), ratio_pow(dp87_node(6), 2)) == (0int, 160000int));
    ratio_add_value(92160int, 5242880int, 0int, 160000int);
    assert(ratio_sum(|j: int| ratio_mul(dp87_coupling(5, j), ratio_pow(dp87_node(j), 2)), 7) == (92160int, 5242880int));
    assert(dp87_coupling(5, 7) == (0int, 1int));
    assert(dp87_node(7) == (93int, 200int));
    assert(ratio_pow(dp87_node(7), 0) == (1int, 1int));
    ratio_mul_value(1int, 1int, 93int, 200int);
    assert(ratio_pow(dp87_node(7), 1) == (93int, 200int));
    ratio_mul_value(93int, 200int, 93int, 200int);
    assert(ratio_pow(dp87_node(7), 2) == (8649int, 40000int));
    ratio_mul_value(0int, 1int, 8649int, 40000int);
    assert(ratio_mul(dp87_coupling(5, 7), ratio_pow(dp87_node(7), 2)) == (0int, 40000int));
    ratio_add_value(92160int, 5242880int, 0int, 40000int);
    assert(ratio_sum(|j: int| ratio_mul(dp87_coupling(5, j), ratio_pow(dp87_node(j), 2)), 8) == (92160int, 5242880int));
    assert(dp87_coupling(5, 8) == (0int, 1int));
    assert(dp87_node(8) == (5490023248int, 9719169821int));
    assert(ratio_pow(dp87_node(8), 0) == (1int, 1int));
    ratio_mul_value(1int, 1int, 5490023248int, 9719169821int);
    assert(ratio_pow(dp87_node(8), 1) == (5490023248int, 9719169821int));
    ratio_mul_value(5490023248int, 9719169821int, 5490023248int, 9719169821int);
    assert(ratio_pow(dp87_node(8), 2) == (30140355263580469504int, 94462262009437172041int));
    ratio_mul_value(0int, 1int, 30140355263580469504int, 94462262009437172041int);
    assert(ratio_mul(dp87_coupling(5, 8), ratio_pow(dp87_node(8), 2)) == (0int, 94462262009437172041int));
    ratio_add_value(92160int, 5242880int, 0int, 94462262009437172041int);
    assert(ratio_sum(|j: int| ratio_mul(dp87_coupling(5, j), ratio_pow(dp87_node(j), 2)), 9) == (92160int, 5242880int));
    assert(dp87_coupling(5, 9) == (0int, 1int));
    assert(dp87_node(9) == (13int, 20int));
    assert(ratio_pow(dp87_node(9), 0) == (1int, 1int));
    ratio_mul_value(1int, 1int, 13int, 20int);
    assert(ratio_pow(dp87_node(9), 1) == (13int, 20int));
    ratio_mul_value(13int, 20int, 13int, 20int);
    assert(ratio_pow(dp87_node(9), 2) == (169int, 400int));
    ratio_mul_value(0int, 1int, 169int, 400int);
    assert(ratio_mul(dp87_coupling(5, 9), ratio_pow(dp87_node(9), 2)) == (0int, 400int));
    ratio_add_value(92160int, 5242880int, 0int, 400int);
    assert(ratio_sum(|j: int| ratio_mul(dp87_coupling(5, j), ratio_pow(dp87_node(j), 2)), 10) == (92160int, 5242880int));
    assert(dp87_coupling(5, 10) == (0int, 1int));
    assert(dp87_node(10) == (1201146811int, 1299019798int));
    assert(ratio_pow(dp87_node(10), 0) == (1int, 1int));
    ratio_mul_value(1int, 1int, 1201146811int, 1299019798int);
    assert(ratio_pow(dp87_node(10), 1) == (1201146811int, 1299019798int));
    ratio_mul_value(1201146811int, 1299019798int, 1201146811int, 1299019798int);
    assert(ratio_pow(dp87_node(10), 2) == (1442753661575469721int, 1687452435595960804int));
    ratio_mul_value(0int, 1int, 1442753661575469721int, 1687452435595960804int);
    assert(ratio_mul(dp87_coupling(5, 10), ratio_pow(dp87_node(10), 2)) == (0int, 1687452435595960804int));
    ratio_add_value(92160int, 5242880int, 0int, 1687452435595960804int);
    assert(ratio_sum(|j: int| ratio_mul(dp87_coupling(5, j), ratio_pow(dp87_node(j), 2)), 11) == (92160int, 5242880int));
    assert(dp87_coupling(5, 11) == (0int, 1int));
    assert(dp87_node(11) == (1int, 1int));
    assert(ratio_pow(dp87_node(11), 0) == (1int, 1int));
    ratio_mul_value(1int, 1int, 1int, 1int);
    assert(ratio_pow(dp87_node(11), 1) == (1int, 1int));
    ratio_mul_value(1int, 1int, 1int, 1int);
    assert(ratio_pow(dp87_node(11), 2) == (1int, 1int));
    ratio_mul_value(0int, 1int, 1int, 1int);
    assert(ratio_mul(dp87_coupling(5, 11), ratio_pow(dp87_node(11), 2)) == (0int, 1int));
    ratio_add_value(92160int, 5242880int, 0int, 1int);
    assert(ratio_sum(|j: int| ratio_mul(dp87_coupling(5, j), ratio_pow(dp87_node(j), 2)), 12) == (92160int, 5242880int));
    assert(dp87_coupling(5, 12) == (0int, 1int));
    assert(dp87_node(12) == (1int, 1int));
    assert(ratio_pow(dp87_node(12), 0) == (1int, 1int));
    ratio_mul_value(1int, 1int, 1int, 1int);
    assert(ratio_pow(dp87_node(12), 1) == (1int, 1int));
    ratio_mul_value(1int, 1int, 1int, 1int);
    assert(ratio_pow(dp87_node(12), 2) == (1int, 1int));
    ratio_mul_value(0int, 1int, 1int, 1int);
    assert(ratio_mul(dp87_coupling(5, 12), ratio_pow(dp87_node(12), 2)) == (0int, 1int));
    ratio_add_value(92160int, 5242880int, 0int, 1int);
    assert(ratio_sum(|j: int| ratio_mul(dp87_coupling(5, j), ratio_pow(dp87_node(j), 2)), 13) == (92160int, 5242880int));
    assert(dp87_node(5) == (3int, 8int));
    assert(ratio_pow(dp87_node(5), 0) == (1int, 1int));
    ratio_mul_value(1int, 1int, 3int, 8int);
    assert(ratio_pow(dp87_node(5), 1) == (3int, 8int));
    ratio_mul_value(3int, 8int, 3int, 8int);
    assert(ratio_pow(dp87_node(5), 2) == (9int, 64int));
    ratio_mul_value(9int, 64int, 3int, 8int);
    assert(ratio_pow(dp87_node(5), 3) == (27int, 512int));
    ratio_mul_value(27int, 512int, 1int, 3int);
    assert(ratio_mul(ratio_pow(dp87_node(5), 3), (1, 3)) == (27int, 1536int));
    assert(within_1e14((92160int, 5242880int), (27int, 1536int))) by (nonlinear_arith);
}

/// The moment of degree 2 of row 6, exactly, stage by stage.
#[verifier::spinoff_prover]
proof fn stage_condition_6_2()
    ensures
        within_1e14(coupling_moment(6, 2), ratio_mul(ratio_pow(dp87_node(6), 3), (1, 3))),
{
    assert(ratio_sum(|j: int| ratio_mul(dp87_coupling(6, j), ratio_pow(dp87_node(j), 2)), 0) == (0int, 1int));
    assert(dp87_coupling(6, 0) == (29443841int, 614563906int));
    assert(dp87_node(0) == (0int, 1int));
    assert(ratio_pow(dp87_node(0), 0) == (1int, 1int));
    ratio_mul_value(1int, 1int, 0int, 1int);
    assert(ratio_pow(dp87_node(0), 1) == (0int, 1int));
    ratio_mul_value(0int, 1int, 0int, 1int);
    assert(ratio_pow(dp87_node(0), 2) == (0int, 1int));
    ratio_mul_value(29443841int, 614563906int, 0int, 1int);
    assert(ratio_mul(dp87_coupling(6, 0), ratio_pow(dp87_node(0), 2)) == (0int, 614563906int));
    ratio_add_value(0int, 1int, 0int, 614563906int);
    assert(ratio_sum(|j: int| ratio_mul(dp87_coupling(6, j), ratio_pow(dp87_node(j), 2)), 1) == (0int, 1int));
    assert(dp87_coupling(6, 1) == (0int, 1int));
    assert(dp87_node(1) == (1int, 18int));
    assert(ratio_pow(dp87_node(1), 0) == (1int, 1int));
    ratio_mul_value(1int, 1int, 1int, 18int);
    assert(ratio_pow(dp87_node(1), 1) == (1int, 18int));
    ratio_mul_value(1int, 18int, 1int, 18int);
    assert(ratio_pow(dp87_node(1), 2) == (1int, 324int));
    ratio_mul_value(0int, 1int, 1int, 324int);
    assert(ratio_mul(dp87_coupling(6, 1), ratio_pow(dp87_node(1), 2)) == (0int, 324int));
    ratio_add_value(0int, 1int, 0int, 324int);
    assert(ratio_sum(|j: int| ratio_mul(dp87_coupling(6, j), ratio_pow(dp87_node(j), 2)), 2) == (0int, 1int));
    assert(dp87_coupling(6, 2) == (0int, 1int));
    assert(dp87_node(2) == (1int, 12int));
    assert(ratio_pow(dp87_node(2), 0) == (1int, 1int));
    ratio_mul_value(1int, 1int, 1int, 12int);
    assert(ratio_pow(dp87_node(2), 1) == (1int, 12int));
    ratio_mul_value(1int, 12int, 1int, 12int);
    assert(ratio_pow(dp87_node(2), 2) == (1int, 144int));
    ratio_mul_value(0int, 1int, 1int, 144int);
    assert(ratio_mul(dp87_coupling(6, 2), ratio_pow(dp87_node(2), 2)) == (0int, 144int));
    ratio_add_value(0int, 1int, 0int, 144int);
    assert(ratio_sum(|j: int| ratio_mul(dp87_coupling(6, j), ratio_pow(dp87_node(j), 2)), 3) == (0int, 1int));
    assert(dp87_coupling(6, 3) == (77736538int, 692538347int));
    assert(dp87_node(3) == (1int, 8int));
    assert(ratio_pow(dp87_node(3), 0) == (1int, 1int));
    ratio_mul_value(1int, 1int, 1int, 8int);
    assert(ratio_pow(dp87_node(3), 1) == (1int, 8int));
    ratio_mul_value(1int, 8int, 1int, 8int);
    assert(ratio_pow(dp87_node(3), 2) == (1int, 64int));
    ratio_mul_value(77736538int, 692538347int, 1int, 64int);
    assert(ratio_mul(dp87_coupling(6, 3), ratio_pow(dp87_node(3), 2)) == (77736538int, 44322454208int));
    ratio_add_value(0int, 1int, 77736538int, 44322454208int);
    assert(ratio_sum(|j: int| ratio_mul(dp87_coupling(6, j), ratio_pow(dp87_node(j), 2)), 4) == (77736538int, 44322454208int));
    assert(dp87_coupling(6, 4) == (-28693883int, 1125000000int));
    assert(dp87_node(4) == (5int, 16int));
    assert(ratio_pow(dp87_node(4), 0) == (1int, 1int));
    ratio_mul_value(1int, 1int, 5int, 16int);
    assert(ratio_pow(dp87_node(4), 1) == (5int, 16int));
    ratio_mul_value(5int, 16int, 5int, 16int);
    assert(ratio_pow(dp87_node(4), 2) == (25int, 256int));
    ratio_mul_value(-28693883int, 1125000000int, 25int, 256int);
    assert(ratio_mul(dp87_coupling(6, 4), ratio_pow(dp87_node(4), 2)) == (-717347075int, 288000000000int));
    ratio_add_value(77736538int, 44322454208int, -717347075int, 288000000000int);
    assert(ratio_sum(|j: int| ratio_mul(dp87_coupling(6, j), ratio_pow(dp87_node(j), 2)), 5) == (-9406459938930241600int, 12764866811904000000000int));
    assert(dp87_coupling(6, 5) == (23124283int, 1800000000int));
    assert(dp87_node(5) == (3int, 8int));
    assert(ratio_pow(dp87_node(5), 0) == (1int, 1int));
    ratio_mul_value(1int, 1int, 3int, 8int);
    assert(ratio_pow(dp87_node(5), 1) == (3int, 8int));
    ratio_mul_value(3int, 8int, 3int, 8int);
    assert(ratio_pow(dp87_node(5), 2) == (9int, 64int));
    ratio_mul_value(23124283int, 1800000000int, 9int, 64int);
    assert(ratio_mul(dp87_coupling(6, 5), ratio_pow(dp87_node(5), 2)) == (208118547int, 115200000000int));
    ratio_add_value(-9406459938930241600int, 12764866811904000000000int, 208118547int, 115200000000int);
    assert(ratio_sum(|j: int| ratio_mul(dp87_coupling(6, j), ratio_pow(dp87_node(j), 2)), 6) == (1572981348577218951168000000000int, 1470512656731340800000000000000000int));
    assert(dp87_coupling(6, 6) == (0int, 1int));
    assert(dp87_node(6) == (59int, 400int));
    assert(ratio_pow(dp87_node(6), 0) == (1int, 1int));
    ratio_mul_value(1int, 1int, 59int, 400int);
    assert(ratio_pow(dp87_node(6), 1) == (59int, 400int));
    ratio_mul_value(59int, 400int, 59int, 400int);
    assert(ratio_pow(dp87_node(6), 2) == (3481int, 160000int));
    ratio_mul_value(0int, 1int, 3481int, 160000int);
    assert(ratio_mul(dp87_coupling(6, 6), ratio_pow(dp87_node(6), 2)) == (0int, 160000int));
    ratio_add_value(1572981348577218951168000000000int, 1470512656731340800000000000000000int, 0int, 160000int);
    assert(ratio_sum(|j: int| ratio_mul(dp87_coupling(6, j), ratio_pow(dp87_node(j), 2)), 7) == (1572981348577218951168000000000int, 1470512656731340800000000000000000int));
    assert(dp87_coupling(6, 7) == (0int, 1int));
    assert(dp87_node(7) == (93int, 200int));
    assert(ratio_pow(dp87_node(7), 0) == (1int, 1int));
    ratio_mul_value(1int, 1int, 93int, 200int);
    assert(ratio_pow(dp87_node(7), 1) == (93int, 200int));
    ratio_mul_value(93int, 200int, 93int, 200int);
    assert(ratio_pow(dp87_node(7), 2) == (8649int, 40000int));
    ratio_mul_value(0int, 1int, 8649int, 40000int);
    assert(ratio_mul(dp87_coupling(6, 7), ratio_pow(dp87_node(7), 2)) == (0int, 40000int));
    ratio_add_value(1572981348577218951168000000000int, 1470512656731340800000000000000000int, 0int, 40000int);
    assert(ratio_sum(|j: int| ratio_mul(dp87_coupling(6, j), ratio_pow(dp87_node(j), 2)), 8) == (1572981348577218951168000000000int, 1470512656731340800000000000000000int));
    assert(dp87_coupling(6, 8) == (0int, 1int));
    assert(dp87_node(8) == (5490023248int, 9719169821int));
    assert(ratio_pow(dp87_node(8), 0) == (1int, 1int));
    ratio_mul_value(1int, 1int, 5490023248int, 9719169821int);
    assert(ratio_pow(dp87_node(8), 1) == (5490023248int, 9719169821int));
    ratio_mul_value(5490023248int, 9719169821int, 5490023248int, 9719169821int);
    assert(ratio_pow(dp87_node(8), 2) == (30140355263580469504int, 94462262009437172041int));
    ratio_mul_value(0int, 1int, 30140355263580469504int, 94462262009437172041int);
    assert(ratio_mul(dp87_coupling(6, 8), ratio_pow(dp87_node(8), 2)) == (0int, 94462262009437172041int));
    ratio_add_value(1572981348577218951168000000000int, 1470512656731340800000000000000000int, 0int, 94462262009437172041int);
    assert(ratio_sum(|j: int| ratio_mul(dp87_coupling(6, j), ratio_pow(dp87_node(j), 2)), 9) == (1572981348577218951168000000000int, 1470512656731340800000000000000000int));
    assert(dp87_coupling(6, 9) == (0int, 1int));
    assert(dp87_node(9) == (13int, 20int));
    assert(ratio_pow(dp87_node(9), 0) == (1int, 1int));
    ratio_mul_value(1int, 1int, 13int, 20int);
    assert(ratio_pow(dp87_node(9), 1) == (13int, 20int));
    ratio_mul_value(13int, 20int, 13int, 20int);
    assert(ratio_pow(dp87_node(9), 2) == (169int, 400int));
    ratio_mul_value(0int, 1int, 169int, 400int);
    assert(ratio_mul(dp87_coupling(6, 9), ratio_pow(dp87_node(9), 2)) == (0int, 400int));
    ratio_add_value(1572981348577218951168000000000int, 1470512656731340800000000000000000int, 0int, 400int);
    assert(ratio_sum(|j: int| ratio_mul(dp87_coupling(6, j), ratio_pow(dp87_node(j), 2)), 10) == (1572981348577218951168000000000int, 1470512656731340800000000000000000int));
    assert(dp87_coupling(6, 10) == (0int, 1int));
    assert(dp87_node(10) == (1201146811int, 1299019798int));
    assert(ratio_pow(dp87_node(10), 0) == (1int, 1int));
    ratio_mul_value(1int, 1int, 1201146811int, 1299019798int);
    assert(ratio_pow(dp87_node(10), 1) == (1201146811int, 1299019798int));
    ratio_mul_value(1201146811int, 1299019798int, 1201146811int, 1299019798int);
    assert(ratio_pow(dp87_node(10), 2) == (1442753661575469721int, 1687452435595960804int));
    ratio_mul_value(0int, 1int, 1442753661575469721int, 1687452435595960804int);
    assert(ratio_mul(dp87_coupling(6, 10), ratio_pow(dp87_node(10), 2)) == (0int, 1687452435595960804int));
    ratio_add_value(1572981348577218951168000000000int, 1470512656731340800000000000000000int, 0int, 1687452435595960804int);
    assert(ratio_sum(|j: int| ratio_mul(dp87_coupling(6, j), ratio_pow(dp87_node(j), 2)), 11) == (1572981348577218951168000000000int, 1470512656731340800000000000000000int));
    assert(dp87_coupling(6, 11) == (0int, 1int));
    assert(dp87_node(11) == (1int, 1int));
    assert(ratio_pow(dp87_node(11), 0) == (1int, 1int));
    ratio_mul_value(1int, 1int, 1int, 1int);
    assert(ratio_pow(dp87_node(11), 1) == (1int, 1int));
    ratio_mul_value(1int, 1int, 1int, 1int);
    assert(ratio_pow(dp87_node(11), 2) == (1int, 1int));
    ratio_mul_value(0int, 1int, 1int, 1int);
    assert(ratio_mul(dp87_coupling(6, 11), ratio_pow(dp87_node(11), 2)) == (0int, 1int));
    ratio_add_value(1572981348577218951168000000000int, 1470512656731340800000000000000000int, 0int, 1int);
    assert(ratio_sum(|j: int| ratio_mul(dp87_coupling(6, j), ratio_pow(dp87_node(j), 2)), 12) == (1572981348577218951168000000000int, 1470512656731340800000000000000000int));
    assert(dp87_coupling(6, 12) == (0int, 1int));
    assert(dp87_node(12) == (1int, 1int));
    assert(ratio_pow(dp87_node(12), 0) == (1int, 1int));
    ratio_mul_value(1int, 1int, 1int, 1int);
    assert(ratio_pow(dp87_node(12), 1) == (1int, 1int));
    ratio_mul_value(1int, 1int, 1int, 1int);
    assert(ratio_pow(dp87_node(12), 2) == (1int, 1int));
    ratio_mul_value(0int, 1int, 1int, 1int);
    assert(ratio_mul(dp87_coupling(6, 12), ratio_pow(dp87_node(12), 2)) == (0int, 1int));
    ratio_add_value(1572981348577218951168000000000int, 1470512656731340800000000000000000int, 0int, 1int);
    assert(ratio_sum(|j: int| ratio_mul(dp87_coupling(6, j), ratio_pow(dp87_node(j), 2)), 13) == (1572981348577218951168000000000int, 1470512656731340800000000000000000int));
    assert(dp87_node(6) == (59int, 400int));
    assert(ratio_pow(dp87_node(6), 0) == (1int, 1int));
    ratio_mul_value(1int, 1int, 59int, 400int);
    assert(ratio_pow(dp87_node(6), 1) == (59int, 400int));
    ratio_mul_value(59int, 400int, 59int, 400int);
    assert(ratio_pow(dp87_node(6), 2) == (3481int, 160000int));
    ratio_mul_value(3481int, 160000int, 59int, 400int);
    assert(ratio_pow(dp87_node(6), 3) == (205379int, 64000000int));
    ratio_mul_value(205379int, 64000000int, 1int, 3int);
    assert(ratio_mul(ratio_pow(dp87_node(6), 3), (1, 3)) == (205379int, 192000000int));
    assert(within_1e14((1572981348577218951168000000000int, 1470512656731340800000000000000000int), (205379int, 192000000int))) by (nonlinear_arith);
}

/// The moment of degree 2 of row 7, exactly, stage by stage.
#[verifier::spinoff_prover]
proof fn stage_condition_7_2()
    ensures
        within_1e14(coupling_moment(7, 2), ratio_mul(ratio_pow(dp87_node(7), 3), (1, 3))),
{
    assert(ratio_sum(|j: int| ratio_mul(dp87_coupling(7, j), ratio_pow(dp87_node(j), 2)), 0) == (0int, 1int));
    assert(dp87_coupling(7, 0) == (16016141int, 946692911int));
    assert(dp87_node(0) == (0int, 1int));
    assert(ratio_pow(dp87_node(0), 0) == (1int, 1int));
    ratio_mul_value(1int, 1int, 0int, 1int);
    assert(ratio_pow(dp87_node(0), 1) == (0int, 1int));
    ratio_mul_value(0int, 1int, 0int, 1int);
    assert(ratio_pow(dp87_node(0), 2) == (0int, 1int));
    ratio_mul_value(16016141int, 946692911int, 0int, 1int);
    assert(ratio_mul(dp87_coupling(7, 0), ratio_pow(dp87_node(0), 2)) == (0int, 946692911int));
    ratio_add_value(0int, 1int, 0int, 946692911int);
    assert(ratio_sum(|j: int| ratio_mul(dp87_coupling(7, j), ratio_pow(dp87_node(j), 2)), 1) == (0int, 1int));
    assert(dp87_coupling(7, 1) == (0int, 1int));
    assert(dp87_node(1) == (1int, 18int));
    assert(ratio_pow(dp87_node(1), 0) == (1int, 1int));
    ratio_mul_value(1int, 1int, 1int, 18int);
    assert(ratio_pow(dp87_node(1), 1) == (1int, 18int));
    ratio_mul_value(1int, 18int, 1int, 18int);
    assert(ratio_pow(dp87_node(1), 2) == (1int, 324int));
    ratio_mul_value(0int, 1int, 1int, 324int);
    assert(ratio_mul(dp87_coupling(7, 1), ratio_pow(dp87_node(1), 2)) == (0int, 324int));
    ratio_add_value(0int, 1int, 0int, 324int);
    assert(ratio_sum(|j: int| ratio_mul(dp87_coupling(7, j), ratio_pow(dp87_node(j), 2)), 2) == (0int, 1int));
    assert(dp87_coupling(7, 2) == (0int, 1int));
    assert(dp87_node(2) == (1int, 12int));
    assert(ratio_pow(dp87_node(2), 0) == (1int, 1int));
    ratio_mul_value(1int, 1int, 1int, 12int);
    assert(ratio_pow(dp87_node(2), 1) == (1int, 12int));
    ratio_mul_value(1int, 12int, 1int, 12int);
    assert(ratio_pow(dp87_node(2), 2) == (1int, 144int));
    ratio_mul_value(0int, 1int, 1int, 144int);
    assert(ratio_mul(dp87_coupling(7, 2), ratio_pow(dp87_node(2), 2)) == (0int, 144int));
    ratio_add_value(0int, 1int, 0int, 144int);
    assert(ratio_sum(|j: int| ratio_mul(dp87_coupling(7, j), ratio_pow(dp87_node(j), 2)), 3) == (0int, 1int));
    assert(dp87_coupling(7, 3) == (61564180int, 158732637int));
    assert(dp87_node(3) == (1int, 8int));
    assert(ratio_pow(dp87_node(3), 0) == (1int, 1int));
    ratio_mul_value(1int, 1int, 1int, 8int);
    assert(ratio_pow(dp87_node(3), 1) == (1int, 8int));
    ratio_mul_value(1int, 8int, 1int, 8int);
    assert(ratio_pow(dp87_node(3), 2) == (1int, 64int));
    ratio_mul_value(61564180int, 158732637int, 1int, 64int);
    assert(ratio_mul(dp87_coupling(7, 3), ratio_pow(dp87_node(3), 2)) == (61564180int, 10158888768int));
    ratio_add_value(0int, 1int, 61564180int, 10158888768int);
    assert(ratio_sum(|j: int| ratio_mul(dp87_coupling(7, j), ratio_pow(dp87_node(j), 2)), 4) == (61564180int, 10158888768int));
    assert(dp87_coupling(7, 4) == (22789713int, 633445777int));
    assert(dp87_node(4) == (5int, 16int));
    assert(ratio_pow(dp87_node(4), 0) == (1int, 1int));
    ratio_mul_value(1int, 1int, 5int, 16int);
    assert(ratio_pow(dp87_node(4), 1) == (5int, 16int));
    ratio_mul_value(5int, 16int, 5int, 16int);
    assert(ratio_pow(dp87_node(4), 2) == (25int, 256int));
    ratio_mul_value(22789713int, 633445777int, 25int, 256int);
    assert(ratio_mul(dp87_coupling(7, 4), ratio_pow(dp87_node(4), 2)) == (569742825int, 162162118912int));
    ratio_add_value(61564180int, 10158888768int, 569742825int, 162162118912int);
    assert(ratio_sum(|j: int| ratio_mul(dp87_coupling(7, j), ratio_pow(dp87_node(j), 2)), 5) == (15771331863420861760int, 1647386928410197180416int));
    assert(dp87_coupling(7, 5) == (545815736int, 2771057229int));
    assert(dp87_node(5) == (3int, 8int));
    assert(ratio_pow(dp87_node(5), 0) == (1int, 1int));
    ratio_mul_value(1int, 1int, 3int, 8int);
    assert(ratio_pow(dp87_node(5), 1) == (3int, 8int));
    ratio_mul_value(3int, 8int, 3int, 8int);
    assert(ratio_pow(dp87_node(5), 2) == (9int, 64int));
    ratio_mul_value(545815736int, 2771057229int, 9int, 64int);
    assert(ratio_mul(dp87_coupling(7, 5), ratio_pow(dp87_node(5), 2)) == (4912341624int, 177347662656int));
    ratio_add_value(15771331863420861760int, 1647386928410197180416int, 4912341624int, 177347662656int);
    assert(ratio_sum(|j: int| ratio_mul(dp87_coupling(7, j), ratio_pow(dp87_node(j), 2)), 6) == (10889536222212706612970244870144int, 292160221243595671942859137744896int));
    assert(dp87_coupling(7, 6) == (-180193667int, 1043307555int));
    assert(dp87_node(6) == (59int, 400int));
    assert(ratio_pow(dp87_node(6), 0) == (1int, 1int));
    ratio_mul_value(1int, 1int, 59int, 400int);
    assert(ratio_pow(dp87_node(6), 1) == (59int, 400int));
    ratio_mul_value(59int, 400int, 59int, 400int);
    assert(ratio_pow(dp87_node(6), 2) == (3481int, 160000int));
    ratio_mul_value(-180193667int, 1043307555int, 3481int, 160000int);
    assert(ratio_mul(dp87_coupling(7, 6), ratio_pow(dp87_node(6), 2)) == (-627254154827int, 166929208800000int));
    ratio_add_value(10889536222212706612970244870144int, 292160221243595671942859137744896int, -627254154827int, 166929208800000int);
    assert(ratio_sum(|j: int| ratio_mul(dp87_coupling(7, j), ratio_pow(dp87_node(j), 2)), 7) == (1634522953122687166118617528631307946854187008int, 48770074575026377584525834673605705518284800000int));
    assert(dp87_coupling(7, 7) == (0int, 1int));
    assert(dp87_node(7) == (93int, 200int));
    assert(ratio_pow(dp87_node(7), 0) == (1int, 1int));
    ratio_mul_value(1int, 1int, 93int, 200int);
    assert(ratio_pow(dp87_node(7), 1) == (93int, 200int));
    ratio_mul_value(93int, 200int, 93int, 200int);
    assert(ratio_pow(dp87_node(7), 2) == (8649int, 40000int));
    ratio_mul_value(0int, 1int, 8649int, 40000int);
    assert(ratio_mul(dp87_coupling(7, 7), ratio_pow(dp87_node(7), 2)) == (0int, 40000int));
    ratio_add_value(1634522953122687166118617528631307946854187008int, 48770074575026377584525834673605705518284800000int, 0int, 40000int);
    assert(ratio_sum(|j: int| ratio_mul(dp87_coupling(7, j), ratio_pow(dp87_node(j), 2)), 8) == (1634522953122687166118617528631307946854187008int, 48770074575026377584525834673605705518284800000int));
    assert(dp87_coupling(7, 8) == (0int, 1int));
    assert(dp87_node(8) == (5490023248int, 9719169821int));
    assert(ratio_pow(dp87_node(8), 0) == (1int, 1int));
    ratio_mul_value(1int, 1int, 5490023248int, 9719169821int);
    assert(ratio_pow(dp87_node(8), 1) == (5490023248int, 9719169821int));
    ratio_mul_value(5490023248int, 9719169821int, 5490023248int, 9719169821int);
    assert(ratio_pow(dp87_node(8), 2) == (30140355263580469504int, 94462262009437172041int));
    ratio_mul_value(0int, 1int, 30140355263580469504int, 94462262009437172041int);
    assert(ratio_mul(dp87_coupling(7, 8), ratio_pow(dp87_node(8), 2)) == (0int, 94462262009437172041int));
    ratio_add_value(1634522953122687166118617528631307946854187008int, 48770074575026377584525834673605705518284800000int, 0int, 94462262009437172041int);
    assert(ratio_sum(|j: int| ratio_mul(dp87_coupling(7, j), ratio_pow(dp87_node(j), 2)), 9) == (1634522953122687166118617528631307946854187008int, 48770074575026377584525834673605705518284800000int));
    assert(dp87_coupling(7, 9) == (0int, 1int));
    assert(dp87_node(9) == (13int, 20int));
    assert(ratio_pow(dp87_node(9), 0) == (1int, 1int));
    ratio_mul_value(1int, 1int, 13int, 20int);
    assert(ratio_pow(dp87_node(9), 1) == (13int, 20int));
    ratio_mul_value(13int, 20int, 13int, 20int);
    assert(ratio_pow(dp87_node(9), 2) == (169int, 400int));
    ratio_mul_value(0int, 1int, 169int, 400int);
    assert(ratio_mul(dp87_coupling(7, 9), ratio_pow(dp87_node(9), 2)) == (0int, 400int));
    ratio_add_value(1634522953122687166118617528631307946854187008int, 48770074575026377584525834673605705518284800000int, 0int, 400int);
    assert(ratio_sum(|j: int| ratio_mul(dp87_coupling(7, j), ratio_pow(dp87_node(j), 2)), 10) == (1634522953122687166118617528631307946854187008int, 48770074575026377584525834673605705518284800000int));
    assert(dp87_coupling(7, 10) == (0int, 1int));
    assert(dp87_node(10) == (1201146811int, 1299019798int));
    assert(ratio_pow(dp87_node(10), 0) == (1int, 1int));
    ratio_mul_value(1int, 1int, 1201146811int, 1299019798int);
    assert(ratio_pow(dp87_node(10), 1) == (1201146811int, 1299019798int));
    ratio_mul_value(1201146811int, 1299019798int, 1201146811int, 1299019798int);
    assert(ratio_pow(dp87_node(10), 2) == (1442753661575469721int, 1687452435595960804int));
    ratio_mul_value(0int, 1int, 1442753661575469721int, 1687452435595960804int);
    assert(ratio_mul(dp87_coupling(7, 10), ratio_pow(dp87_node(10), 2)) == (0int, 1687452435595960804int));
    ratio_add_value(1634522953122687166118617528631307946854187008int, 48770074575026377584525834673605705518284800000int, 0int, 1687452435595960804int);
    assert(ratio_sum(|j: int| ratio_mul(dp87_coupling(7, j), ratio_pow(dp87_node(j), 2)), 11) == (1634522953122687166118617528631307946854187008int, 48770074575026377584525834673605705518284800000int));
    assert(dp87_coupling(7, 11) == (0int, 1int));
    assert(dp87_node(11) == (1int, 1int));
    assert(ratio_pow(dp87_node(11), 0) == (1int, 1int));
    ratio_mul_value(1int, 1int, 1int, 1int);
    assert(ratio_pow(dp87_node(11), 1) == (1int, 1int));
    ratio_mul_value(1int, 1int, 1int, 1int);
    assert(ratio_pow(dp87_node(11), 2) == (1int, 1int));
    ratio_mul_value(0int, 1int, 1int, 1int);
    assert(ratio_mul(dp87_coupling(7, 11), ratio_pow(dp87_node(11), 2)) == (0int, 1int));
    ratio_add_value(1634522953122687166118617528631307946854187008int, 48770074575026377584525834673605705518284800000int, 0int, 1int);
    assert(ratio_sum(|j: int| ratio_mul(dp87_coupling(7, j), ratio_pow(dp87_node(j), 2)), 12) == (1634522953122687166118617528631307946854187008int, 48770074575026377584525834673605705518284800000int));
    assert(dp87_coupling(7, 12) == (0int, 1int));
    assert(dp87_node(12) == (1int, 1int));
    assert(ratio_pow(dp87_node(12), 0) == (1int, 1int));
    ratio_mul_value(1int, 1int, 1int, 1int);
    assert(ratio_pow(dp87_node(12), 1) == (1int, 1int));
    ratio_mul_value(1int, 1int, 1int, 1int);
    assert(ratio_pow(dp87_node(12), 2) == (1int, 1int));
    ratio_mul_value(0int, 1int, 1int, 1int);
    assert(ratio_mul(dp87_coupling(7, 12), ratio_pow(dp87_node(12), 2)) == (0int, 1int));
    ratio_add_value(1634522953122687166118617528631307946854187008int, 48770074575026377584525834673605705518284800000int, 0int, 1int);
    assert(ratio_sum(|j: int| ratio_mul(dp87_coupling(7, j), ratio_pow(dp87_node(j), 2)), 13) == (1634522953122687166118617528631307946854187008int, 48770074575026377584525834673605705518284800000int));
    assert(dp87_node(7) == (93int, 200int));
    assert(ratio_pow(dp87_node(7), 0) == (1int, 1int));
    ratio_mul_value(1int, 1int, 93int, 200int);
    assert(ratio_pow(dp87_node(7), 1) == (93int, 200int));
    ratio_mul_value(93int, 200int, 93int, 200int);
    assert(ratio_pow(dp87_node(7), 2) == (8649int, 40000int));
    ratio_mul_value(8649int, 40000int, 93int, 200int);
    assert(ratio_pow(dp87_node(7), 3) == (804357int, 8000000int));
    ratio_mul_value(804357int, 8000000int, 1int, 3int);
    assert(ratio_mul(ratio_pow(dp87_node(7), 3), (1, 3)) == (804357int, 24000000int));
    assert(within_1e14((1634522953122687166118617528631307946854187008int, 48770074575026377584525834673605705518284800000int), (804357int, 24000000int))) by (nonlinear_arith);
}

/// The moment of degree 2 of row 8, exactly, stage by stage.
#[verifier::spinoff_prover]
proof fn stage_condition_8_2()
    ensures
        within_1e14(coupling_moment(8, 2), ratio_mul(ratio_pow(dp87_node(8), 3), (1, 3))),
{
    assert(ratio_sum(|j: int| ratio_mul(dp87_coupling(8, j), ratio_pow(dp87_node(j), 2)), 0) == (0int, 1int));
    assert(dp87_coupling(8, 0) == (39632708int, 573591083int));
    assert(dp87_node(0) == (0int, 1int));
    assert(ratio_pow(dp87_node(0), 0) == (1int, 1int));
    ratio_mul_value(1int, 1int, 0int, 1int);
    assert(ratio_pow(dp87_node(0), 1) == (0int, 1int));
    ratio_mul_value(0int, 1int, 0int, 1int);
    assert(ratio_pow(dp87_node(0), 2) == (0int, 1int));
    ratio_mul_value(39632708int, 573591083int, 0int, 1int);
    assert(ratio_mul(dp87_coupling(8, 0), ratio_pow(dp87_node(0), 2)) == (0int, 573591083int));
    ratio_add_value(0int, 1int, 0int, 573591083int);
    assert(ratio_sum(|j: int| ratio_mul(dp87_coupling(8, j), ratio_pow(dp87_node(j), 2)), 1) == (0int, 1int));
    assert(dp87_coupling(8, 1) == (0int, 1int));
    assert(dp87_node(1) == (1int, 18int));
    assert(ratio_pow(dp87_node(1), 0) == (1int, 1int));
    ratio_mul_value(1int, 1int, 1int, 18int);
    assert(ratio_pow(dp87_node(1), 1) == (1int, 18int));
    ratio_mul_value(1int, 18int, 1int, 18int);
    assert(ratio_pow(dp87_node(1), 2) == (1int, 324int));
    ratio_mul_value(0int, 1int, 1int, 324int);
    assert(ratio_mul(dp87_coupling(8, 1), ratio_pow(dp87_node(1), 2)) == (0int, 324int));
    ratio_add_value(0int, 1int, 0int, 324int);
    assert(ratio_sum(|j: int| ratio_mul(dp87_coupling(8, j), ratio_pow(dp87_node(j), 2)), 2) == (0int, 1int));
    assert(dp87_coupling(8, 2) == (0int, 1int));
    assert(dp87_node(2) == (1int, 12int));
    assert(ratio_pow(dp87_node(2), 0) == (1int, 1int));
    ratio_mul_value(1int, 1int, 1int, 12int);
    assert(ratio_pow(dp87_node(2), 1) == (1int, 12int));
    ratio_mul_value(1int, 12int, 1int, 12int);
    assert(ratio_pow(dp87_node(2), 2) == (1int, 144int));
    ratio_mul_value(0int, 1int, 1int, 144int);
    assert(ratio_mul(dp87_coupling(8, 2), ratio_pow(dp87_node(2), 2)) == (0int, 144int));
    ratio_add_value(0int, 1int, 0int, 144int);
    assert(ratio_sum(|j: int| ratio_mul(dp87_coupling(8, j), ratio_pow(dp87_node(j), 2)), 3) == (0int, 1int));
    assert(dp87_coupling(8, 3) == (-433636366int, 683701615int));
    assert(dp87_node(3) == (1int, 8int));
    assert(ratio_pow(dp87_node(3), 0) == (1int, 1int));
    ratio_mul_value(1int, 1int, 1int, 8int);
    assert(ratio_pow(dp87_node(3), 1) == (1int, 8int));
    ratio_mul_value(1int, 8int, 1int, 8int);
    assert(ratio_pow(dp87_node(3), 2) == (1int, 64int));
    ratio_mul_value(-433636366int, 683701615int, 1int, 64int);
    assert(ratio_mul(dp87_coupling(8, 3), ratio_pow(dp87_node(3), 2)) == (-433636366int, 43756903360int));
    ratio_add_value(0int, 1int, -433636366int, 43756903360int);
    assert(ratio_sum(|j: int| ratio_mul(dp87_coupling(8, j), ratio_pow(dp87_node(j), 2)), 4) == (-433636366int, 43756903360int));
    assert(dp87_coupling(8, 4) == (-421739975int, 2616292301int));
    assert(dp87_node(4) == (5int, 16int));
    assert(ratio_pow(dp87_node(4), 0) == (1int, 1int));
    ratio_mul_value(1int, 1int, 5int, 16int);
    assert(ratio_pow(dp87_node(4), 1) == (5int, 16int));
    ratio_mul_value(5int, 16int, 5int, 16int);
    assert(ratio_pow(dp87_node(4), 2) == (25int, 256int));
    ratio_mul_value(-421739975int, 2616292301int, 25int, 256int);
    assert(ratio_mul(dp87_coupling(8, 4), ratio_pow(dp87_node(4), 2)) == (-10543499375int, 669770829056int));
    ratio_add_value(-433636366int, 43756903360int, -10543499375int, 669770829056int);
    assert(ratio_sum(|j: int| ratio_mul(dp87_coupling(8, j), ratio_pow(dp87_node(j), 2)), 5) == (-751787871592746450496int, 29307097440350472028160int));
    assert(dp87_coupling(8, 5) == (100302831int, 723423059int));
    assert(dp87_node(5) == (3int, 8int));
    assert(ratio_pow(dp87_node(5), 0) == (1int, 1int));
    ratio_mul_value(1int, 1int, 3int, 8int);
    assert(ratio_pow(dp87_node(5), 1) == (3int, 8int));
    ratio_mul_value(3int, 8int, 3int, 8int);
    assert(ratio_pow(dp87_node(5), 2) == (9int, 64int));
    ratio_mul_value(100302831int, 723423059int, 9int, 64int);
    assert(ratio_mul(dp87_coupling(8, 5), ratio_pow(dp87_node(5), 2)) == (902725479int, 46299075776int));
    ratio_add_value(-751787871592746450496int, 29307097440350472028160int, 902725479int, 46299075776int);
    assert(ratio_sum(|j: int| ratio_mul(dp87_coupling(8, j), ratio_pow(dp87_node(j), 2)), 6) == (-8350820059410271933972499296256int, 1356891525165402144429148245852160int));
    assert(dp87_coupling(8, 6) == (790204164int, 839813087int));
    assert(dp87_node(6) == (59int, 400int));
    assert(ratio_pow(dp87_node(6), 0) == (1int, 1int));
    ratio_mul_value(1int, 1int, 59int, 400int);
    assert(ratio_pow(dp87_node(6), 1) == (59int, 400int));
    ratio_mul_value(59int, 400int, 59int, 400int);
    assert(ratio_pow(dp87_node(6), 2) == (3481int, 160000int));
    ratio_mul_value(790204164int, 839813087int, 3481int, 160000int);
    assert(ratio_mul(dp87_coupling(8, 6), ratio_pow(dp87_node(6), 2)) == (2750700694884int, 134370093920000int));
    ratio_add_value(-8350820059410271933972499296256int, 1356891525165402144429148245852160int, 2750700694884int, 134370093920000int);
    assert(ratio_sum(|j: int| ratio_mul(dp87_coupling(8, j), ratio_pow(dp87_node(j), 2)), 7) == (2610301985462704032135937040234733558368829440int, 182325641675727129681514054580757989634867200000int));
    assert(dp87_coupling(8, 7) == (800635310int, 3783071287int));
    assert(dp87_node(7) == (93int, 200int));
    assert(ratio_pow(dp87_node(7), 0) == (1int, 1int));
    ratio_mul_value(1int, 1int, 93int, 200int);
    assert(ratio_pow(dp87_node(7), 1) == (93int, 200int));
    ratio_mul_value(93int, 200int, 93int, 200int);
    assert(ratio_pow(dp87_node(7), 2) == (8649int, 40000int));
    ratio_mul_value(800635310int, 3783071287int, 8649int, 40000int);
    assert(ratio_mul(dp87_coupling(8, 7), ratio_pow(dp87_node(7), 2)) == (6924694796190int, 151322851480000int));
    ratio_add_value(2610301985462704032135937040234733558368829440int, 182325641675727129681514054580757989634867200000int, 6924694796190int, 151322851480000int);
    assert(ratio_sum(|j: int| ratio_mul(dp87_coupling(8, j), ratio_pow(dp87_node(j), 2)), 8) == (1657547761788032127674089213705793853520749146432287539200000int, 27590035996291754765802450982856654931340388735123456000000000int));
    assert(dp87_coupling(8, 8) == (0int, 1int));
    assert(dp87_node(8) == (5490023248int, 9719169821int));
    assert(ratio_pow(dp87_node(8), 0) == (1int, 1int));
    ratio_mul_value(1int, 1int, 5490023248int, 9719169821int);
    assert(ratio_pow(dp87_node(8), 1) == (5490023248int, 9719169821int));
    ratio_mul_value(5490023248int, 9719169821int, 5490023248int, 9719169821int);
    assert(ratio_pow(dp87_node(8), 2) == (30140355263580469504int, 94462262009437172041int));
    ratio_mul_value(0int, 1int, 30140355263580469504int, 94462262009437172041int);
    assert(ratio_mul(dp87_coupling(8, 8), ratio_pow(dp87_node(8), 2)) == (0int, 94462262009437172041int));
    ratio_add_value(1657547761788032127674089213705793853520749146432287539200000int, 27590035996291754765802450982856654931340388735123456000000000int, 0int, 94462262009437172041int);
    assert(ratio_sum(|j: int| ratio_mul(dp87_coupling(8, j), ratio_pow(dp87_node(j), 2)), 9) == (1657547761788032127674089213705793853520749146432287539200000int, 27590035996291754765802450982856654931340388735123456000000000int));
    assert(dp87_coupling(8, 9) == (0int, 1int));
    assert(dp87_node(9) == (13int, 20int));
    assert(ratio_pow(dp87_node(9), 0) == (1int, 1int));
    ratio_mul_value(1int, 1int, 13int, 20int);
    assert(ratio_pow(dp87_node(9), 1) == (13int, 20int));
    ratio_mul_value(13int, 20int, 13int, 20int);
    assert(ratio_pow(dp87_node(9), 2) == (169int, 400int));
    ratio_mul_value(0int, 1int, 169int, 400int);
    assert(ratio_mul(dp87_coupling(8, 9), ratio_pow(dp87_node(9), 2)) == (0int, 400int));
    ratio_add_value(1657547761788032127674089213705793853520749146432287539200000int, 27590035996291754765802450982856654931340388735123456000000000int, 0int, 400int);
    assert(ratio_sum(|j: int| ratio_mul(dp87_coupling(8, j), ratio_pow(dp87_node(j), 2)), 10) == (1657547761788032127674089213705793853520749146432287539200000int, 27590035996291754765802450982856654931340388735123456000000000int));
    assert(dp87_coupling(8, 10) == (0int, 1int));
    assert(dp87_node(10) == (1201146811int, 1299019798int));
    assert(ratio_pow(dp87_node(10), 0) == (1int, 1int));
    ratio_mul_value(1int, 1int, 1201146811int, 1299019798int);
    assert(ratio_pow(dp87_node(10), 1) == (1201146811int, 1299019798int));
    ratio_mul_value(1201146811int, 1299019798int, 1201146811int, 1299019798int);
    assert(ratio_pow(dp87_node(10), 2) == (1442753661575469721int, 1687452435595960804int));
    ratio_mul_value(0int, 1int, 1442753661575469721int, 1687452435595960804int);
    assert(ratio_mul(dp87_coupling(8, 10), ratio_pow(dp87_node(10), 2)) == (0int, 1687452435595960804int));
    ratio_add_value(1657547761788032127674089213705793853520749146432287539200000int, 27590035996291754765802450982856654931340388735123456000000000int, 0int, 1687452435595960804int);
    assert(ratio_sum(|j: int| ratio_mul(dp87_coupling(8, j), ratio_pow(dp87_node(j), 2)), 11) == (1657547761788032127674089213705793853520749146432287539200000int, 27590035996291754765802450982856654931340388735123456000000000int));
    assert(dp87_coupling(8, 11) == (0int, 1int));
    assert(dp87_node(11) == (1int, 1int));
    assert(ratio_pow(dp87_node(11), 0) == (1int, 1int));
    ratio_mul_value(1int, 1int, 1int, 1int);
    assert(ratio_pow(dp87_node(11), 1) == (1int, 1int));
    ratio_mul_value(1int, 1int, 1int, 1int);
    assert(ratio_pow(dp87_node(11), 2) == (1int, 1int));
    ratio_mul_value(0int, 1int, 1int, 1int);
    assert(ratio_mul(dp87_coupling(8, 11), ratio_pow(dp87_node(11), 2)) == (0int, 1int));
    ratio_add_value(1657547761788032127674089213705793853520749146432287539200000int, 27590035996291754765802450982856654931340388735123456000000000int, 0int, 1int);
    assert(ratio_sum(|j: int| ratio_mul(dp87_coupling(8, j), ratio_pow(dp87_node(j), 2)), 12) == (1657547761788032127674089213705793853520749146432287539200000int, 27590035996291754765802450982856654931340388735123456000000000int));
    assert(dp87_coupling(8, 12) == (0int, 1int));
    assert(dp87_node(12) == (1int, 1int));
    assert(ratio_pow(dp87_node(12), 0) == (1int, 1int));
    ratio_mul_value(1int, 1int, 1int, 1int);
    assert(ratio_pow(dp87_node(12), 1) == (1int, 1int));
    ratio_mul_value(1int, 1int, 1int, 1int);
    assert(ratio_pow(dp87_node(12), 2) == (1int, 1int));
    ratio_mul_value(0int, 1int, 1int, 1int);
    assert(ratio_mul(dp87_coupling(8, 12), ratio_pow(dp87_node(12), 2)) == (0int, 1int));
    ratio_add_value(1657547761788032127674089213705793853520749146432287539200000int, 27590035996291754765802450982856654931340388735123456000000000int, 0int, 1int);
    assert(ratio_sum(|j: int| ratio_mul(dp87_coupling(8, j), ratio_pow(dp87_node(j), 2)), 13) == (1657547761788032127674089213705793853520749146432287539200000int, 27590035996291754765802450982856654931340388735123456000000000int));
    assert(dp87_node(8) == (5490023248int, 9719169821int));
    assert(ratio_pow(dp87_node(8), 0) == (1int, 1int));
    ratio_mul_value(1int, 1int, 5490023248int, 9719169821int);
    assert(ratio_pow(dp87_node(8), 1) == (5490023248int, 9719169821int));
    ratio_mul_value(5490023248int, 9719169821int, 5490023248int, 9719169821int);
    assert(ratio_pow(dp87_node(8), 2) == (30140355263580469504int, 94462262009437172041int));
    ratio_mul_value(30140355263580469504int, 94462262009437172041int, 5490023248int, 9719169821int);
    assert(ratio_pow(dp87_node(8), 3) == (165471251100035945295715028992int, 918094766145516579696472174661int));
    ratio_mul_value(165471251100035945295715028992int, 918094766145516579696472174661int, 1int, 3int);
    assert(ratio_mul(ratio_pow(dp87_node(8), 3), (1, 3)) == (165471251100035945295715028992int, 2754284298436549739089416523983int));
    assert(within_1e14((1657547761788032127674089213705793853520749146432287539200000int, 27590035996291754765802450982856654931340388735123456000000000int), (165471251100035945295715028992int, 2754284298436549739089416523983int))) by (nonlinear_arith);
}

/// The moment of degree 2 of row 9, exactly, stage by stage.
#[verifier::spinoff_prover]
proof fn stage_condition_9_2()
    ensures
        within_1e14(coupling_moment(9, 2), ratio_mul(ratio_pow(dp87_node(9), 3), (1, 3))),
{
    assert(ratio_sum(|j: int| ratio_mul(dp87_coupling(9, j), ratio_pow(dp87_node(j), 2)), 0) == (0int, 1int));
    assert(dp87_coupling(9, 0) == (246121993int, 1340847787int));
    assert(dp87_node(0) == (0int, 1int));
    assert(ratio_pow(dp87_node(0), 0) == (1int, 1int));
    ratio_mul_value(1int, 1int, 0int, 1int);
    assert(ratio_pow(dp87_node(0), 1) == (0int, 1int));
    ratio_mul_value(0int, 1int, 0int, 1int);
    assert(ratio_pow(dp87_node(0), 2) == (0int, 1int));
    ratio_mul_value(246121993int, 1340847787int, 0int, 1int);
    assert(ratio_mul(dp87_coupling(9, 0), ratio_pow(dp87_node(0), 2)) == (0int, 1340847787int));
    ratio_add_value(0int, 1int, 0int, 1340847787int);
    assert(ratio_sum(|j: int| ratio_mul(dp87_coupling(9, j), ratio_pow(dp87_node(j), 2)), 1) == (0int, 1int));
    assert(dp87_coupling(9, 1) == (0int, 1int));
    assert(dp87_node(1) == (1int, 18int));
    assert(ratio_pow(dp87_node(1), 0) == (1int, 1int));
    ratio_mul_value(1int, 1int, 1int, 18int);
    assert(ratio_pow(dp87_node(1), 1) == (1int, 18int));
    ratio_mul_value(1int, 18int, 1int, 18int);
    assert(ratio_pow(dp87_node(1), 2) == (1int, 324int));
    ratio_mul_value(0int, 1int, 1int, 324int);
    assert(ratio_mul(dp87_coupling(9, 1), ratio_pow(dp87_node(1), 2)) == (0int, 324int));
    ratio_add_value(0int, 1int, 0int, 324int);
    assert(ratio_sum(|j: int| ratio_mul(dp87_coupling(9, j), ratio_pow(dp87_node(j), 2)), 2) == (0int, 1int));
    assert(dp87_coupling(9, 2) == (0int, 1int));
    assert(dp87_node(2) == (1int, 12int));
    assert(ratio_pow(dp87_node(2), 0) == (1int, 1int));
    ratio_mul_value(1int, 1int, 1int, 12int);
    assert(ratio_pow(dp87_node(2), 1) == (1int, 12int));
    ratio_mul_value(1int, 12int, 1int, 12int);
    assert(ratio_pow(dp87_node(2), 2) == (1int, 144int));
    ratio_mul_value(0int, 1int, 1int, 144int);
    assert(ratio_mul(dp87_coupling(9, 2), ratio_pow(dp87_node(2), 2)) == (0int, 144int));
    ratio_add_value(0int, 1int, 0int, 144int);
    assert(ratio_sum(|j: int| ratio_mul(dp87_coupling(9, j), ratio_pow(dp87_node(j), 2)), 3) == (0int, 1int));
    assert(dp87_coupling(9, 3) == (-37695042795int, 15268766246int));
    assert(dp87_node(3) == (1int, 8int));
    assert(ratio_pow(dp87_node(3), 0) == (1int, 1int));
    ratio_mul_value(1int, 1int, 1int, 8int);
    assert(ratio_pow(dp87_node(3), 1) == (1int, 8int));
    ratio_mul_value(1int, 8int, 1int, 8int);
    assert(ratio_pow(dp87_node(3), 2) == (1int, 64int));
    ratio_mul_value(-37695042795int, 15268766246int, 1int, 64int);
    assert(ratio_mul(dp87_coupling(9, 3), ratio_pow(dp87_node(3), 2)) == (-37695042795int, 977201039744int));
    ratio_add_value(0int, 1int, -37695042795int, 977201039744int);
    assert(ratio_sum(|j: int| ratio_mul(dp87_coupling(9, j), ratio_pow(dp87_node(j), 2)), 4) == (-37695042795int, 977201039744int));
    assert(dp87_coupling(9, 4) == (-309121744int, 1061227803int));
    assert(dp87_node(4) == (5int, 16int));
    assert(ratio_pow(dp87_node(4), 0) == (1int, 1int));
    ratio_mul_value(1int, 1int, 5int, 16int);
    assert(ratio_pow(dp87_node(4), 1) == (5int, 16int));
    ratio_mul_value(5int, 16int, 5int, 16int);
    assert(ratio_pow(dp87_node(4), 2) == (25int, 256int));
    ratio_mul_value(-309121744int, 1061227803int, 25int, 256int);
    assert(ratio_mul(dp87_coupling(9, 4), ratio_pow(dp87_node(4), 2)) == (-7728043600int, 271674317568int));
    ratio_add_value(-37695042795int, 977201039744int, -7728043600int, 271674317568int);
    assert(ratio_sum(|j: int| ratio_mul(dp87_coupling(9, j), ratio_pow(dp87_node(j), 2)), 5) == (-17792627268135145160960int, 265480425599191245422592int));
    assert(dp87_coupling(9, 5) == (-12992083int, 490766935int));
    assert(dp87_node(5) == (3int, 8int));
    assert(ratio_pow(dp87_node(5), 0) == (1int, 1int));
    ratio_mul_value(1int, 1int, 3int, 8int);
    assert(ratio_pow(dp87_node(5), 1) == (3int, 8int));
    ratio_mul_value(3int, 8int, 3int, 8int);
    assert(ratio_pow(dp87_node(5), 2) == (9int, 64int));
    ratio_mul_value(-12992083int, 490766935int, 9int, 64int);
    assert(ratio_mul(dp87_coupling(9, 5), ratio_pow(dp87_node(5), 2)) == (-116928747int, 31409083840int));
    ratio_add_value(-17792627268135145160960int, 265480425599191245422592int, -116928747int, 31409083840int);
    assert(ratio_sum(|j: int| ratio_mul(dp87_coupling(9, j), ratio_pow(dp87_node(j), 2)), 6) == (-589892415117067091351796102938624int, 8338496945523880063672208358113280int));
    assert(dp87_coupling(9, 6) == (6005943493int, 2108947869int));
    assert(dp87_node(6) == (59int, 400int));
    assert(ratio_pow(dp87_node(6), 0) == (1int, 1int));
    ratio_mul_value(1int, 1int, 59int, 400int);
    assert(ratio_pow(dp87_node(6), 1) == (59int, 400int));
    ratio_mul_value(59int, 400int, 59int, 400int);
    assert(ratio_pow(dp87_node(6), 2) == (3481int, 160000int));
    ratio_mul_value(6005943493int, 2108947869int, 3481int, 160000int);
    assert(ratio_mul(dp87_coupling(9, 6), ratio_pow(dp87_node(6), 2)) == (20906689299133int, 337431659040000int));
    ratio_add_value(-589892415117067091351796102938624int, 8338496945523880063672208358113280int, 20906689299133int, 337431659040000int);
    assert(ratio_sum(|j: int| ratio_mul(dp87_coupling(9, j), ratio_pow(dp87_node(j), 2)), 7) == (-24718011426227015083933922125652841097341173760int, 2813672858228095351822894101018718514656051200000int));
    assert(dp87_coupling(9, 7) == (393006217int, 1396673457int));
    assert(dp87_node(7) == (93int, 200int));
    assert(ratio_pow(dp87_node(7), 0) == (1int, 1int));
    ratio_mul_value(1int, 1int, 93int, 200int);
    assert(ratio_pow(dp87_node(7), 1) == (93int, 200int));
    ratio_mul_value(93int, 200int, 93int, 200int);
    assert(ratio_pow(dp87_node(7), 2) == (8649int, 40000int));
    ratio_mul_value(393006217int, 1396673457int, 8649int, 40000int);
    assert(ratio_mul(dp87_coupling(9, 7), ratio_pow(dp87_node(7), 2)) == (3399110770833int, 55866938280000int));
    ratio_add_value(-24718011426227015083933922125652841097341173760int, 2813672858228095351822894101018718514656051200000int, 3399110770833int, 55866938280000int);
    assert(ratio_sum(|j: int| ratio_mul(dp87_coupling(9, j), ratio_pow(dp87_node(j), 2)), 8) == (8183066099250232092909376452418491182622572175747239116800000int, 157191287910740193182244510232588832382982887818919936000000000int));
    assert(dp87_coupling(9, 8) == (123872331int, 1001029789int));
    assert(dp87_node(8) == (5490023248int, 9719169821int));
    assert(ratio_pow(dp87_node(8), 0) == (1int, 1int));
    ratio_mul_value(1int, 1int, 5490023248int, 9719169821int);
    assert(ratio_pow(dp87_node(8), 1) == (5490023248int, 9719169821int));
    ratio_mul_value(5490023248int, 9719169821int, 5490023248int, 9719169821int);
    assert(ratio_pow(dp87_node(8), 2) == (30140355263580469504int, 94462262009437172041int));
    ratio_mul_value(123872331int, 1001029789int, 30140355263580469504int, 94462262009437172041int);
    assert(ratio_mul(dp87_coupling(9, 8), ratio_pow(dp87_node(8), 2)) == (3733556063667832163534893824int, 94559538207769608336958929349int));
    ratio_add_value(8183066099250232092909376452418491182622572175747239116800000int, 157191287910740193182244510232588832382982887818919936000000000int, 3733556063667832163534893824int, 94559538207769608336958929349int);
    assert(ratio_sum(|j: int| ratio_mul(dp87_coupling(9, j), ratio_pow(dp87_node(j), 2)), 9) == (1360669437603656580502576999018372783990619029008254448654842141654796043356495622963200000int, 14863935595124150228540427695342509558061810868158965208298472292556523420111601664000000000int));
    assert(dp87_coupling(9, 9) == (0int, 1int));
    assert(dp87_node(9) == (13int, 20int));
    assert(ratio_pow(dp87_node(9), 0) == (1int, 1int));
    ratio_mul_value(1int, 1int, 13int, 20int);
    assert(ratio_pow(dp87_node(9), 1) == (13int, 20int));
    ratio_mul_value(13int, 20int, 13int, 20int);
    assert(ratio_pow(dp87_node(9), 2) == (169int, 400int));
    ratio_mul_value(0int, 1int, 169int, 400int);
    assert(ratio_mul(dp87_coupling(9, 9), ratio_pow(dp87_node(9), 2)) == (0int, 400int));
    ratio_add_value(1360669437603656580502576999018372783990619029008254448654842141654796043356495622963200000int, 14863935595124150228540427695342509558061810868158965208298472292556523420111601664000000000int, 0int, 400int);
    assert(ratio_sum(|j: int| ratio_mul(dp87_coupling(9, j), ratio_pow(dp87_node(j), 2)), 10) == (1360669437603656580502576999018372783990619029008254448654842141654796043356495622963200000int, 14863935595124150228540427695342509558061810868158965208298472292556523420111601664000000000int));
    assert(dp87_coupling(9, 10) == (0int, 1int));
    assert(dp87_node(10) == (1201146811int, 1299019798int));
    assert(ratio_pow(dp87_node(10), 0) == (1int, 1int));
    ratio_mul_value(1int, 1int, 1201146811int, 1299019798int);
    assert(ratio_pow(dp87_node(10), 1) == (1201146811int, 1299019798int));
    ratio_mul_value(1201146811int, 1299019798int, 1201146811int, 1299019798int);
    assert(ratio_pow(dp87_node(10), 2) == (1442753661575469721int, 1687452435595960804int));
    ratio_mul_value(0int, 1int, 1442753661575469721int, 1687452435595960804int);
    assert(ratio_mul(dp87_coupling(9, 10), ratio_pow(dp87_node(10), 2)) == (0int, 1687452435595960804int));
    ratio_add_value(1360669437603656580502576999018372783990619029008254448654842141654796043356495622963200000int, 14863935595124150228540427695342509558061810868158965208298472292556523420111601664000000000int, 0int, 1687452435595960804int);
    assert(ratio_sum(|j: int| ratio_mul(dp87_coupling(9, j), ratio_pow(dp87_node(j), 2)), 11) == (1360669437603656580502576999018372783990619029008254448654842141654796043356495622963200000int, 14863935595124150228540427695342509558061810868158965208298472292556523420111601664000000000int));
    assert(dp87_coupling(9, 11) == (0int, 1int));
    assert(dp87_node(11) == (1int, 1int));
    assert(ratio_pow(dp87_node(11), 0) == (1int, 1int));
    ratio_mul_value(1int, 1int, 1int, 1int);
    assert(ratio_pow(dp87_node(11), 1) == (1int, 1int));
    ratio_mul_value(1int, 1int, 1int, 1int);
    assert(ratio_pow(dp87_node(11), 2) == (1int, 1int));
    ratio_mul_value(0int, 1int, 1int, 1int);
    assert(ratio_mul(dp87_coupling(9, 11), ratio_pow(dp87_node(11), 2)) == (0int, 1int));
    ratio_add_value(1360669437603656580502576999018372783990619029008254448654842141654796043356495622963200000int, 14863935595124150228540427695342509558061810868158965208298472292556523420111601664000000000int, 0int, 1int);
    assert(ratio_sum(|j: int| ratio_mul(dp87_coupling(9, j), ratio_pow(dp87_node(j), 2)), 12) == (1360669437603656580502576999018372783990619029008254448654842141654796043356495622963200000int, 14863935595124150228540427695342509558061810868158965208298472292556523420111601664000000000int));
    assert(dp87_coupling(9, 12) == (0int, 1int));
    assert(dp87_node(12) == (1int, 1int));
    assert(ratio_pow(dp87_node(12), 0) == (1int, 1int));
    ratio_mul_value(1int, 1int, 1int, 1int);
    assert(ratio_pow(dp87_node(12), 1) == (1int, 1int));
    ratio_mul_value(1int, 1int, 1int, 1int);
    assert(ratio_pow(dp87_node(12), 2) == (1int, 1int));
    ratio_mul_value(0int, 1int, 1int, 1int);
    assert(ratio_mul(dp87_coupling(9, 12), ratio_pow(dp87_node(12), 2)) == (0int, 1int));
    ratio_add_value(1360669437603656580502576999018372783990619029008254448654842141654796043356495622963200000int, 14863935595124150228540427695342509558061810868158965208298472292556523420111601664000000000int, 0int, 1int);
    assert(ratio_sum(|j: int| ratio_mul(dp87_coupling(9, j), ratio_pow(dp87_node(j), 2)), 13) == (1360669437603656580502576999018372783990619029008254448654842141654796043356495622963200000int, 14863935595124150228540427695342509558061810868158965208298472292556523420111601664000000000int));
    assert(dp87_node(9) == (13int, 20int));
    assert(ratio_pow(dp87_node(9), 0) == (1int, 1int));
    ratio_mul_value(1int, 1int, 13int, 20int);
    assert(ratio_pow(dp87_node(9), 1) == (13int, 20int));
    ratio_mul_value(13int, 20int, 13int, 20int);
    assert(ratio_pow(dp87_node(9), 2) == (169int, 400int));
    ratio_mul_value(169int, 400int, 13int, 20int);
    assert(ratio_pow(dp87_node(9), 3) == (2197int, 8000int));
    ratio_mul_value(2197int, 8000int, 1int, 3int);
    assert(ratio_mul(ratio_pow(dp87_node(9), 3), (1, 3)) == (2197int, 24000int));
    assert(within_1e14((1360669437603656580502576999018372783990619029008254448654842141654796043356495622963200000int, 14863935595124150228540427695342509558061810868158965208298472292556523420111601664000000000int), (2197int, 24000int))) by (nonlinear_arith);
}

/// The moment of degree 2 of row 10, exactly, stage by stage.
#[verifier::spinoff_prover]
proof fn stage_condition_10_2()
    ensures
        within_1e14(coupling_moment(10, 2), ratio_mul(ratio_pow(dp87_node(10), 3), (1, 3))),
{
    assert(ratio_sum(|j: int| ratio_mul(dp87_coupling(10, j), ratio_pow(dp87_node(j), 2)), 0) == (0int, 1int));
    assert(dp87_coupling(10, 0) == (-1028468189int, 846180014int));
    assert(dp87_node(0) == (0int, 1int));
    assert(ratio_pow(dp87_node(0), 0) == (1int, 1int));
    ratio_mul_value(1int, 1int, 0int, 1int);
    assert(ratio_pow(dp87_node(0), 1) == (0int, 1int));
    ratio_mul_value(0int, 1int, 0int, 1int);
    assert(ratio_pow(dp87_node(0), 2) == (0int, 1int));
    ratio_mul_value(-1028468189int, 846180014int, 0int, 1int);
    assert(ratio_mul(dp87_coupling(10, 0), ratio_pow(dp87_node(0), 2)) == (0int, 846180014int));
    ratio_add_value(0int, 1int, 0int, 846180014int);
    assert(ratio_sum(|j: int| ratio_mul(dp87_coupling(10, j), ratio_pow(dp87_node(j), 2)), 1) == (0int, 1int));
    assert(dp87_coupling(10, 1) == (0int, 1int));
    assert(dp87_node(1) == (1int, 18int));
    assert(ratio_pow(dp87_node(1), 0) == (1int, 1int));
    ratio_mul_value(1int, 1int, 1int, 18int);
    assert(ratio_pow(dp87_node(1), 1) == (1int, 18int));
    ratio_mul_value(1int, 18int, 1int, 18int);
    assert(ratio_pow(dp87_node(1), 2) == (1int, 324int));
    ratio_mul_value(0int, 1int, 1int, 324int);
    assert(ratio_mul(dp87_coupling(10, 1), ratio_pow(dp87_node(1), 2)) == (0int, 324int));
    ratio_add_value(0int, 1int, 0int, 324int);
    assert(ratio_sum(|j: int| ratio_mul(dp87_coupling(10, j), ratio_pow(dp87_node(j), 2)), 2) == (0int, 1int));
    assert(dp87_coupling(10, 2) == (0int, 1int));
    assert(dp87_node(2) == (1int, 12int));
    assert(ratio_pow(dp87_node(2), 0) == (1int, 1int));
    ratio_mul_value(1int, 1int, 1int, 12int);
    assert(ratio_pow(dp87_node(2), 1) == (1int, 12int));
    ratio_mul_value(1int, 12int, 1int, 12int);
    assert(ratio_pow(dp87_node(2), 2) == (1int, 144int));
    ratio_mul_value(0int, 1int, 1int, 144int);
    assert(ratio_mul(dp87_coupling(10, 2), ratio_pow(dp87_node(2), 2)) == (0int, 144int));
    ratio_add_value(0int, 1int, 0int, 144int);
    assert(ratio_sum(|j: int| ratio_mul(dp87_coupling(10, j), ratio_pow(dp87_node(j), 2)), 3) == (0int, 1int));
    assert(dp87_coupling(10, 3) == (8478235783int, 508512852int));
    assert(dp87_node(3) == (1int, 8int));
    assert(ratio_pow(dp87_node(3), 0) == (1int, 1int));
    ratio_mul_value(1int, 1int, 1int, 8int);
    assert(ratio_pow(dp87_node(3), 1) == (1int, 8int));
    ratio_mul_value(1int, 8int, 1int, 8int);
    assert(ratio_pow(dp87_node(3), 2) == (1int, 64int));
    ratio_mul_value(8478235783int, 508512852int, 1int, 64int);
    assert(ratio_mul(dp87_coupling(10, 3), ratio_pow(dp87_node(3), 2)) == (8478235783int, 32544822528int));
    ratio_add_value(0int, 1int, 8478235783int, 32544822528int);
    assert(ratio_sum(|j: int| ratio_mul(dp87_coupling(10, j), ratio_pow(dp87_node(j), 2)), 4) == (8478235783int, 32544822528int));
    assert(dp87_coupling(10, 4) == (1311729495int, 1432422823int));
    assert(dp87_node(4) == (5int, 16int));
    assert(ratio_pow(dp87_node(4), 0) == (1int, 1int));
    ratio_mul_value(1int, 1int, 5int, 16int);
    assert(ratio_pow(dp87_node(4), 1) == (5int, 16int));
    ratio_mul_value(5int, 16int, 5int, 16int);
    assert(ratio_pow(dp87_node(4), 2) == (25int, 256int));
    ratio_mul_value(1311729495int, 1432422823int, 25int, 256int);
    assert(ratio_mul(dp87_coupling(10, 4), ratio_pow(dp87_node(4), 2)) == (32793237375int, 366700242688int));
    ratio_add_value(8478235783int, 32544822528int, 32793237375int, 366700242688int);
    assert(ratio_sum(|j: int| ratio_mul(dp87_coupling(10, j), ratio_pow(dp87_node(j), 2)), 5) == (4176221209680137288704int, 11934194319255489675264int));
    assert(dp87_coupling(10, 5) == (-10304129995int, 1701304382int));
    assert(dp87_node(5) == (3int, 8int));
    assert(ratio_pow(dp87_node(5), 0) == (1int, 1int));
    ratio_mul_value(1int, 1int, 3int, 8int);
    assert(ratio_pow(dp87_node(5), 1) == (3int, 8int));
    ratio_mul_value(3int, 8int, 3int, 8int);
    assert(ratio_pow(dp87_node(5), 2) == (9int, 64int));
    ratio_mul_value(-10304129995int, 1701304382int, 9int, 64int);
    assert(ratio_mul(dp87_coupling(10, 5), ratio_pow(dp87_node(5), 2)) == (-92737169955int, 108883480448int));
    ratio_add_value(4176221209680137288704int, 11934194319255489675264int, -92737169955int, 108883480448int);
    assert(ratio_sum(|j: int| ratio_mul(dp87_coupling(10, j), ratio_pow(dp87_node(j), 2)), 6) == (-652021906430061738273147612233728int, 1299436613823287779973273613238272int));
    assert(dp87_coupling(10, 6) == (-48777925059int, 3047939560int));
    assert(dp87_node(6) == (59int, 400int));
    assert(ratio_pow(dp87_node(6), 0) == (1int, 1int));
    ratio_mul_value(1int, 1int, 59int, 400int);
    assert(ratio_pow(dp87_node(6), 1) == (59int, 400int));
    ratio_mul_value(59int, 400int, 59int, 400int);
    assert(ratio_pow(dp87_node(6), 2) == (3481int, 160000int));
    ratio_mul_value(-48777925059int, 3047939560int, 3481int, 160000int);
    assert(ratio_mul(dp87_coupling(10, 6), ratio_pow(dp87_node(6), 2)) == (-169795957130379int, 487670329600000int));
    ratio_add_value(-652021906430061738273147612233728int, 1299436613823287779973273613238272int, -169795957130379int, 487670329600000int);
    assert(ratio_sum(|j: int| ratio_mul(dp87_coupling(10, j), ratio_pow(dp87_node(j), 2)), 7) == (-538610821589552391012648695935250829683445465088int, 633696681757510667815218622158891029574451200000int));
    assert(dp87_coupling(10, 7) == (15336726248int, 1032824649int));
    assert(dp87_node(7) == (93int, 200int));
    assert(ratio_pow(dp87_node(7), 0) == (1int, 1int));
    ratio_mul_value(1int, 1int, 93int, 200int);
    assert(ratio_pow(dp87_node(7), 1) == (93int, 200int));
    ratio_mul_value(93int, 200int, 93int, 200int);
    assert(ratio_pow(dp87_node(7), 2) == (8649int, 40000int));
    ratio_mul_value(15336726248int, 1032824649int, 8649int, 40000int);
    assert(ratio_mul(dp87_coupling(10, 7), ratio_pow(dp87_node(7), 2)) == (132647345318952int, 41312985960000int));
    ratio_add_value(-538610821589552391012648695935250829683445465088int, 633696681757510667815218622158891029574451200000int, 132647345318952int, 41312985960000int);
    assert(ratio_sum(|j: int| ratio_mul(dp87_coupling(10, j), ratio_pow(dp87_node(j), 2)), 8) == (61806561262329305122197257587349346596399509433288144977920000int, 26179902116346626344000350811580809993979247200305152000000000int));
    assert(dp87_coupling(10, 8) == (-45442868181int, 3398467696int));
    assert(dp87_node(8) == (5490023248int, 9719169821int));
    assert(ratio_pow(dp87_node(8), 0) == (1int, 1int));
    ratio_mul_value(1int, 1int, 5490023248int, 9719169821int);
    assert(ratio_pow(dp87_node(8), 1) == (5490023248int, 9719169821int));
    ratio_mul_value(5490023248int, 9719169821int, 5490023248int, 9719169821int);
    assert(ratio_pow(dp87_node(8), 2) == (30140355263580469504int, 94462262009437172041int));
    ratio_mul_value(-45442868181int, 3398467696int, 30140355263580469504int, 94462262009437172041int);
    assert(ratio_mul(dp87_coupling(10, 8), ratio_pow(dp87_node(8), 2)) == (-1369664191171396785756362452224int, 321026945930160276322932887536int));
    ratio_add_value(61806561262329305122197257587349346596399509433288144977920000int, 26179902116346626344000350811580809993979247200305152000000000int, -1369664191171396785756362452224int, 321026945930160276322932887536int);
    assert(ratio_sum(|j: int| ratio_mul(dp87_coupling(10, j), ratio_pow(dp87_node(j), 2)), 9) == (-16016102856641312411502187419611479463139136644765501290582114422988918565064355484794880000int, 8404454021161297002919265157615948780329536479397832968590192541796038515697385472000000000int));
    assert(dp87_coupling(10, 9) == (3065993473int, 597172653int));
    assert(dp87_node(9) == (13int, 20int));
    assert(ratio_pow(dp87_node(9), 0) == (1int, 1int));
    ratio_mul_value(1int, 1int, 13int, 20int);
    assert(ratio_pow(dp87_node(9), 1) == (13int, 20int));
    ratio_mul_value(13int, 20int, 13int, 20int);
    assert(ratio_pow(dp87_node(9), 2) == (169int, 400int));
    ratio_mul_value(3065993473int, 597172653int, 169int, 400int);
    assert(ratio_mul(dp87_coupling(10, 9), ratio_pow(dp87_node(9), 2)) == (518152896937int, 238869061200int));
    ratio_add_value(-16016102856641312411502187419611479463139136644765501290582114422988918565064355484794880000int, 8404454021161297002919265157615948780329536479397832968590192541796038515697385472000000000int, 518152896937int, 238869061200int);
    assert(ratio_sum(|j: int| ratio_mul(dp87_coupling(10, j), ratio_pow(dp87_node(j), 2)), 10) == (529040744789996262135437396676907200898435592992753982566316720567886134258856118917553239097344000000int, 2007564041933363948861698527593591715304601405464913502521548379986061482123675930991158886400000000000int));
    assert(dp87_coupling(10, 10) == (0int, 1int));
    assert(dp87_node(10) == (1201146811int, 1299019798int));
    assert(ratio_pow(dp87_node(10), 0) == (1int, 1int));
    ratio_mul_value(1int, 1int, 1201146811int, 1299019798int);
    assert(ratio_pow(dp87_node(10), 1) == (1201146811int, 1299019798int));
    ratio_mul_value(1201146811int, 1299019798int, 1201146811int, 1299019798int);
    assert(ratio_pow(dp87_node(10), 2) == (1442753661575469721int, 1687452435595960804int));
    ratio_mul_value(0int, 1int, 1442753661575469721int, 1687452435595960804int);
    assert(ratio_mul(dp87_coupling(10, 10), ratio_pow(dp87_node(10), 2)) == (0int, 1687452435595960804int));
    ratio_add_value(529040744789996262135437396676907200898435592992753982566316720567886134258856118917553239097344000000int, 2007564041933363948861698527593591715304601405464913502521548379986061482123675930991158886400000000000int, 0int, 1687452435595960804int);
    assert(ratio_sum(|j: int| ratio_mul(dp87_coupling(10, j), ratio_pow(dp87_node(j), 2)), 11) == (529040744789996262135437396676907200898435592992753982566316720567886134258856118917553239097344000000int, 2007564041933363948861698527593591715304601405464913502521548379986061482123675930991158886400000000000int));
    assert(dp87_coupling(10, 11) == (0int, 1int));
    assert(dp87_node(11) == (1int, 1int));
    assert(ratio_pow(dp87_node(11), 0) == (1int, 1int));
    ratio_mul_value(1int, 1int, 1int, 1int);
    assert(ratio_pow(dp87_node(11), 1) == (1int, 1int));
    ratio_mul_value(1int, 1int, 1int, 1int);
    assert(ratio_pow(dp87_node(11), 2) == (1int, 1int));
    ratio_mul_value(0int, 1int, 1int, 1int);
    assert(ratio_mul(dp87_coupling(10, 11), ratio_pow(dp87_node(11), 2)) == (0int, 1int));
    ratio_add_value(529040744789996262135437396676907200898435592992753982566316720567886134258856118917553239097344000000int, 2007564041933363948861698527593591715304601405464913502521548379986061482123675930991158886400000000000int, 0int, 1int);
    assert(ratio_sum(|j: int| ratio_mul(dp87_coupling(10, j), ratio_pow(dp87_node(j), 2)), 12) == (529040744789996262135437396676907200898435592992753982566316720567886134258856118917553239097344000000int, 2007564041933363948861698527593591715304601405464913502521548379986061482123675930991158886400000000000int));
    assert(dp87_coupling(10, 12) == (0int, 1int));
    assert(dp87_node(12) == (1int, 1int));
    assert(ratio_pow(dp87_node(12), 0) == (1int, 1int));
    ratio_mul_value(1int, 1int, 1int, 1int);
    assert(ratio_pow(dp87_node(12), 1) == (1int, 1int));
    ratio_mul_value(1int, 1int, 1int, 1int);
    assert(ratio_pow(dp87_node(12), 2) == (1int, 1int));
    ratio_mul_value(0int, 1int, 1int, 1int);
    assert(ratio_mul(dp87_coupling(10, 12), ratio_pow(dp87_node(12), 2)) == (0int, 1int));
    ratio_add_value(529040744789996262135437396676907200898435592992753982566316720567886134258856118917553239097344000000int, 2007564041933363948861698527593591715304601405464913502521548379986061482123675930991158886400000000000int, 0int, 1int);
    assert(ratio_sum(|j: int| ratio_mul(dp87_coupling(10, j), ratio_pow(dp87_node(j), 2)), 13) == (529040744789996262135437396676907200898435592992753982566316720567886134258856118917553239097344000000int, 2007564041933363948861698527593591715304601405464913502521548379986061482123675930991158886400000000000int));
    assert(dp87_node(10) == (1201146811int, 1299019798int));
    assert(ratio_pow(dp87_node(10), 0) == (1int, 1int));
    ratio_mul_value(1int, 1int, 1201146811int, 1299019798int);
    assert(ratio_pow(dp87_node(10), 1) == (1201146811int, 1299019798int));
    ratio_mul_value(1201146811int, 1299019798int, 1201146811int, 1299019798int);
    assert(ratio_pow(dp87_node(10), 2) == (1442753661575469721int, 1687452435595960804int));
    ratio_mul_value(1442753661575469721int, 1687452435595960804int, 1201146811int, 1299019798int);
    assert(ratio_pow(dp87_node(10), 3) == (1732958959659948691206209731int, 2192034122022473013227997592int));
    ratio_mul_value(1732958959659948691206209731int, 2192034122022473013227997592int, 1int, 3int);
    assert(ratio_mul(ratio_pow(dp87_node(10), 3), (1, 3)) == (1732958959659948691206209731int, 6576102366067419039683992776int));
    assert(within_1e14((529040744789996262135437396676907200898435592992753982566316720567886134258856118917553239097344000000int, 2007564041933363948861698527593591715304601405464913502521548379986061482123675930991158886400000000000int), (1732958959659948691206209731int, 6576102366067419039683992776int))) by (nonlinear_arith);
}

/// The moment of degree 2 of row 11, exactly, stage by stage.
#[verifier::spinoff_prover]
proof fn stage_condition_11_2()
    ensures
        within_1e14(coupling_moment(11, 2), ratio_mul(ratio_pow(dp87_node(11), 3), (1, 3))),
{
    assert(ratio_sum(|j: int| ratio_mul(dp87_coupling(11, j), ratio_pow(dp87_node(j), 2)), 0) == (0int, 1int));
    assert(dp87_coupling(11, 0) == (185892177int, 718116043int));
    assert(dp87_node(0) == (0int, 1int));
    assert(ratio_pow(dp87_node(0), 0) == (1int, 1int));
    ratio_mul_value(1int, 1int, 0int, 1int);
    assert(ratio_pow(dp87_node(0), 1) == (0int, 1int));
    ratio_mul_value(0int, 1int, 0int, 1int);
    assert(ratio_pow(dp87_node(0), 2) == (0int, 1int));
    ratio_mul_value(185892177int, 718116043int, 0int, 1int);
    assert(ratio_mul(dp87_coupling(11, 0), ratio_pow(dp87_node(0), 2)) == (0int, 718116043int));
    ratio_add_value(0int, 1int, 0int, 718116043int);
    assert(ratio_sum(|j: int| ratio_mul(dp87_coupling(11, j), ratio_pow(dp87_node(j), 2)), 1) == (0int, 1int));
    assert(dp87_coupling(11, 1) == (0int, 1int));
    assert(dp87_node(1) == (1int, 18int));
    assert(ratio_pow(dp87_node(1), 0) == (1int, 1int));
    ratio_mul_value(1int, 1int, 1int, 18int);
    assert(ratio_pow(dp87_node(1), 1) == (1int, 18int));
    ratio_mul_value(1int, 18int, 1int, 18int);
    assert(ratio_pow(dp87_node(1), 2) == (1int, 324int));
    ratio_mul_value(0int, 1int, 1int, 324int);
    assert(ratio_mul(dp87_coupling(11, 1), ratio_pow(dp87_node(1), 2)) == (0int, 324int));
    ratio_add_value(0int, 1int, 0int, 324int);
    assert(ratio_sum(|j: int| ratio_mul(dp87_coupling(11, j), ratio_pow(dp87_node(j), 2)), 2) == (0int, 1int));
    assert(dp87_coupling(11, 2) == (0int, 1int));
    assert(dp87_node(2) == (1int, 12int));
    assert(ratio_pow(dp87_node(2), 0) == (1int, 1int));
    ratio_mul_value(1int, 1int, 1int, 12int);
    assert(ratio_pow(dp87_node(2), 1) == (1int, 12int));
    ratio_mul_value(1int, 12int, 1int, 12int);
    assert(ratio_pow(dp87_node(2), 2) == (1int, 144int));
    ratio_mul_value(0int, 1int, 1int, 144int);
    assert(ratio_mul(dp87_coupling(11, 2), ratio_pow(dp87_node(2), 2)) == (0int, 144int));
    ratio_add_value(0int, 1int, 0int, 144int);
    assert(ratio_sum(|j: int| ratio_mul(dp87_coupling(11, j), ratio_pow(dp87_node(j), 2)), 3) == (0int, 1int));
    assert(dp87_coupling(11, 3) == (-3185094517int, 667107341int));
    assert(dp87_node(3) == (1int, 8int));
    assert(ratio_pow(dp87_node(3), 0) == (1int, 1int));
    ratio_mul_value(1int, 1int, 1int, 8int);
    assert(ratio_pow(dp87_node(3), 1) == (1int, 8int));
    ratio_mul_value(1int, 8int, 1int, 8int);
    assert(ratio_pow(dp87_node(3), 2) == (1int, 64int));
    ratio_mul_value(-3185094517int, 667107341int, 1int, 64int);
    assert(ratio_mul(dp87_coupling(11, 3), ratio_pow(dp87_node(3), 2)) == (-3185094517int, 42694869824int));
    ratio_add_value(0int, 1int, -3185094517int, 42694869824int);
    assert(ratio_sum(|j: int| ratio_mul(dp87_coupling(11, j), ratio_pow(dp87_node(j), 2)), 4) == (-3185094517int, 42694869824int));
    assert(dp87_coupling(11, 4) == (-477755414int, 1098053517int));
    assert(dp87_node(4) == (5int, 16int));
    assert(ratio_pow(dp87_node(4), 0) == (1int, 1int));
    ratio_mul_value(1int, 1int, 5int, 16int);
    assert(ratio_pow(dp87_node(4), 1) == (5int, 16int));
    ratio_mul_value(5int, 16int, 5int, 16int);
    assert(ratio_pow(dp87_node(4), 2) == (25int, 256int));
    ratio_mul_value(-477755414int, 1098053517int, 25int, 256int);
    assert(ratio_mul(dp87_coupling(11, 4), ratio_pow(dp87_node(4), 2)) == (-11943885350int, 281101700352int));
    ratio_add_value(-3185094517int, 42694869824int, -11943885350int, 281101700352int);
    assert(ratio_sum(|j: int| ratio_mul(dp87_coupling(11, j), ratio_pow(dp87_node(j), 2)), 5) == (-1405278114721562848384int, 12001600503833694978048int));
    assert(dp87_coupling(11, 5) == (-703635378int, 230739211int));
    assert(dp87_node(5) == (3int, 8int));
    assert(ratio_pow(dp87_node(5), 0) == (1int, 1int));
    ratio_mul_value(1int, 1int, 3int, 8int);
    assert(ratio_pow(dp87_node(5), 1) == (3int, 8int));
    ratio_mul_value(3int, 8int, 3int, 8int);
    assert(ratio_pow(dp87_node(5), 2) == (9int, 64int));
    ratio_mul_value(-703635378int, 230739211int, 9int, 64int);
    assert(ratio_mul(dp87_coupling(11, 5), ratio_pow(dp87_node(5), 2)) == (-6332718402int, 14767309504int));
    ratio_add_value(-1405278114721562848384int, 12001600503833694978048int, -6332718402int, 14767309504int);
    assert(ratio_sum(|j: int| ratio_mul(dp87_coupling(11, j), ratio_pow(dp87_node(j), 2)), 6) == (-96754933223371049099813909880832int, 177231349183474512284765301768192int));
    assert(dp87_coupling(11, 6) == (5731566787int, 1027545527int));
    assert(dp87_node(6) == (59int, 400int));
    assert(ratio_pow(dp87_node(6), 0) == (1int, 1int));
    ratio_mul_value(1int, 1int, 59int, 400int);
    assert(ratio_pow(dp87_node(6), 1) == (59int, 400int));
    ratio_mul_value(59int, 400int, 59int, 400int);
    assert(ratio_pow(dp87_node(6), 2) == (3481int, 160000int));
    ratio_mul_value(5731566787int, 1027545527int, 3481int, 160000int);
    assert(ratio_mul(dp87_coupling(11, 6), ratio_pow(dp87_node(6), 2)) == (19951583985547int, 164407284320000int));
    ratio_add_value(-96754933223371049099813909880832int, 177231349183474512284765301768192int, 19951583985547int, 164407284320000int);
    assert(ratio_sum(|j: int| ratio_mul(dp87_coupling(11, j), ratio_pow(dp87_node(j), 2)), 7) == (-12371169667711479684250015828407085632481918976int, 29138124815624693986674741772273740876349440000int));
    assert(dp87_coupling(11, 7) == (5232866602int, 850066563int));
    assert(dp87_node(7) == (93int, 200int));
    assert(ratio_pow(dp87_node(7), 0) == (1int, 1int));
    ratio_mul_value(1int, 1int, 93int, 200int);
    assert(ratio_pow(dp87_node(7), 1) == (93int, 200int));
    ratio_mul_value(93int, 200int, 93int, 200int);
    assert(ratio_pow(dp87_node(7), 2) == (8649int, 40000int));
    ratio_mul_value(5232866602int, 850066563int, 8649int, 40000int);
    assert(ratio_mul(dp87_coupling(11, 7), ratio_pow(dp87_node(7), 2)) == (45259063240698int, 34002662520000int));
    ratio_add_value(-12371169667711479684250015828407085632481918976int, 29138124815624693986674741772273740876349440000int, 45259063240698int, 34002662520000int);
    assert(ratio_sum(|j: int| ratio_mul(dp87_coupling(11, j), ratio_pow(dp87_node(j), 2)), 8) == (898111526556855791936476444066721524733095955487365529600000int, 990773824571323692607174621490770704076439057910988800000000int));
    assert(dp87_coupling(11, 8) == (-4093664535int, 808688257int));
    assert(dp87_node(8) == (5490023248int, 9719169821int));
    assert(ratio_pow(dp87_node(8), 0) == (1int, 1int));
    ratio_mul_value(1int, 1int, 5490023248int, 9719169821int);
    assert(ratio_pow(dp87_node(8), 1) == (5490023248int, 9719169821int));
    ratio_mul_value(5490023248int, 9719169821int, 5490023248int, 9719169821int);
    assert(ratio_pow(dp87_node(8), 2) == (30140355263580469504int, 94462262009437172041int));
    ratio_mul_value(-4093664535int, 808688257int, 30140355263580469504int, 94462262009437172041int);
    assert(ratio_mul(dp87_coupling(11, 8), ratio_pow(dp87_node(8), 2)) == (-123384503414819945127173840640int, 76390522016689064208845422537int));
    ratio_add_value(898111526556855791936476444066721524733095955487365529600000int, 990773824571323692607174621490770704076439057910988800000000int, -123384503414819945127173840640int, 76390522016689064208845422537int);
    assert(ratio_sum(|j: int| ratio_mul(dp87_coupling(11, j), ratio_pow(dp87_node(j), 2)), 9) == (-53638927998250987848415296525197937065441773140576347892635681354246928761744051404800000int, 75685729659474931083943781982667465859886442207648464836354701782233868471474585600000000int));
    assert(dp87_coupling(11, 9) == (3962137247int, 1805957418int));
    assert(dp87_node(9) == (13int, 20int));
    assert(ratio_pow(dp87_node(9), 0) == (1int, 1int));
    ratio_mul_value(1int, 1int, 13int, 20int);
    assert(ratio_pow(dp87_node(9), 1) == (13int, 20int));
    ratio_mul_value(13int, 20int, 13int, 20int);
    assert(ratio_pow(dp87_node(9), 2) == (169int, 400int));
    ratio_mul_value(3962137247int, 1805957418int, 169int, 400int);
    assert(ratio_mul(dp87_coupling(11, 9), ratio_pow(dp87_node(9), 2)) == (669601194743int, 722382967200int));
    ratio_add_value(-53638927998250987848415296525197937065441773140576347892635681354246928761744051404800000int, 75685729659474931083943781982667465859886442207648464836354701782233868471474585600000000int, 669601194743int, 722382967200int);
    assert(ratio_sum(|j: int| ratio_mul(dp87_coupling(11, j), ratio_pow(dp87_node(j), 2)), 10) == (11931407040176419391596958718099717113203436880430229638151301769034659019542412031972071178240000000int, 54674081966108546310434821506629222958769467577012416563010771905121230150758339705118392320000000000int));
    assert(dp87_coupling(11, 10) == (65686358int, 487910083int));
    assert(dp87_node(10) == (1201146811int, 1299019798int));
    assert(ratio_pow(dp87_node(10), 0) == (1int, 1int));
    ratio_mul_value(1int, 1int, 1201146811int, 1299019798int);
    assert(ratio_pow(dp87_node(10), 1) == (1201146811int, 1299019798int));
    ratio_mul_value(1201146811int, 1299019798int, 1201146811int, 1299019798int);
    assert(ratio_pow(dp87_node(10), 2) == (1442753661575469721int, 1687452435595960804int));
    ratio_mul_value(65686358int, 487910083int, 1442753661575469721int, 1687452435595960804int);
    assert(ratio_mul(dp87_coupling(11, 10), ratio_pow(dp87_node(10), 2)) == (94769233520057148111766118int, 823325057910177390344386732int));
    ratio_add_value(11931407040176419391596958718099717113203436880430229638151301769034659019542412031972071178240000000int, 54674081966108546310434821506629222958769467577012416563010771905121230150758339705118392320000000000int, 94769233520057148111766118int, 823325057910177390344386732int);
    assert(ratio_sum(|j: int| ratio_mul(dp87_coupling(11, j), ratio_pow(dp87_node(j), 2)), 11) == (15004847233644034780115129257594925695179099021379696109145056261730675201281470740553000529225313929923699901952876871680000000int, 45014541700932104202613662662664283495535540070715625797853360855539114783829749340350610217589922135605211604178698240000000000int));
    assert(dp87_coupling(11, 11) == (0int, 1int));
    assert(dp87_node(11) == (1int, 1int));
    assert(ratio_pow(dp87_node(11), 0) == (1int, 1int));
    ratio_mul_value(1int, 1int, 1int, 1int);
    assert(ratio_pow(dp87_node(11), 1) == (1int, 1int));
    ratio_mul_value(1int, 1int, 1int, 1int);
    assert(ratio_pow(dp87_node(11), 2) == (1int, 1int));
    ratio_mul_value(0int, 1int, 1int, 1int);
    assert(ratio_mul(dp87_coupling(11, 11), ratio_pow(dp87_node(11), 2)) == (0int, 1int));
    ratio_add_value(15004847233644034780115129257594925695179099021379696109145056261730675201281470740553000529225313929923699901952876871680000000int, 45014541700932104202613662662664283495535540070715625797853360855539114783829749340350610217589922135605211604178698240000000000int, 0int, 1int);
    assert(ratio_sum(|j: int| ratio_mul(dp87_coupling(11, j), ratio_pow(dp87_node(j), 2)), 12) == (15004847233644034780115129257594925695179099021379696109145056261730675201281470740553000529225313929923699901952876871680000000int, 45014541700932104202613662662664283495535540070715625797853360855539114783829749340350610217589922135605211604178698240000000000int));
    assert(dp87_coupling(11, 12) == (0int, 1int));
    assert(dp87_node(12) == (1int, 1int));
    assert(ratio_pow(dp87_node(12), 0) == (1int, 1int));
    ratio_mul_value(1int, 1int, 1int, 1int);
    assert(ratio_pow(dp87_node(12), 1) == (1int, 1int));
    ratio_mul_value(1int, 1int, 1int, 1int);
    assert(ratio_pow(dp87_node(12), 2) == (1int, 1int));
    ratio_mul_value(0int, 1int, 1int, 1int);
    assert(ratio_mul(dp87_coupling(11, 12), ratio_pow(dp87_node(12), 2)) == (0int, 1int));
    ratio_add_value(15004847233644034780115129257594925695179099021379696109145056261730675201281470740553000529225313929923699901952876871680000000int, 45014541700932104202613662662664283495535540070715625797853360855539114783829749340350610217589922135605211604178698240000000000int, 0int, 1int);
    assert(ratio_sum(|j: int| ratio_mul(dp87_coupling(11, j), ratio_pow(dp87_node(j), 2)), 13) == (15004847233644034780115129257594925695179099021379696109145056261730675201281470740553000529225313929923699901952876871680000000int, 45014541700932104202613662662664283495535540070715625797853360855539114783829749340350610217589922135605211604178698240000000000int));
    assert(dp87_node(11) == (1int, 1int));
    assert(ratio_pow(dp87_node(11), 0) == (1int, 1int));
    ratio_mul_value(1int, 1int, 1int, 1int);
    assert(ratio_pow(dp87_node(11), 1) == (1int, 1int));
    ratio_mul_value(1int, 1int, 1int, 1int);
    assert(ratio_pow(dp87_node(11), 2) == (1int, 1int));
    ratio_mul_value(1int, 1int, 1int, 1int);
    assert(ratio_pow(dp87_node(11), 3) == (1int, 1int));
    ratio_mul_value(1int, 1int, 1int, 3int);
    assert(ratio_mul(ratio_pow(dp87_node(11), 3), (1, 3)) == (1int, 3int));
    assert(within_1e14((15004847233644034780115129257594925695179099021379696109145056261730675201281470740553000529225313929923699901952876871680000000int, 45014541700932104202613662662664283495535540070715625797853360855539114783829749340350610217589922135605211604178698240000000000int), (1int, 3int))) by (nonlinear_arith);
}

/// The moment of degree 2 of row 12, exactly, stage by stage.
#[verifier::spinoff_prover]
proof fn stage_condition_12_2()
    ensures
        within_1e14(coupling_moment(12, 2), ratio_mul(ratio_pow(dp87_node(12), 3), (1, 3))),
{
    assert(ratio_sum(|j: int| ratio_mul(dp87_coupling(12, j), ratio_pow(dp87_node(j), 2)), 0) == (0int, 1int));
    assert(dp87_coupling(12, 0) == (403863854int, 491063109int));
    assert(dp87_node(0) == (0int, 1int));
    assert(ratio_pow(dp87_node(0), 0) == (1int, 1int));
    ratio_mul_value(1int, 1int, 0int, 1int);
    assert(ratio_pow(dp87_node(0), 1) == (0int, 1int));
    ratio_mul_value(0int, 1int, 0int, 1int);
    assert(ratio_pow(dp87_node(0), 2) == (0int, 1int));
    ratio_mul_value(403863854int, 491063109int, 0int, 1int);
    assert(ratio_mul(dp87_coupling(12, 0), ratio_pow(dp87_node(0), 2)) == (0int, 491063109int));
    ratio_add_value(0int, 1int, 0int, 491063109int);
    assert(ratio_sum(|j: int| ratio_mul(dp87_coupling(12, j), ratio_pow(dp87_node(j), 2)), 1) == (0int, 1int));
    assert(dp87_coupling(12, 1) == (0int, 1int));
    assert(dp87_node(1) == (1int, 18int));
    assert(ratio_pow(dp87_node(1), 0) == (1int, 1int));
    ratio_mul_value(1int, 1int, 1int, 18int);
    assert(ratio_pow(dp87_node(1), 1) == (1int, 18int));
    ratio_mul_value(1int, 18int, 1int, 18int);
    assert(ratio_pow(dp87_node(1), 2) == (1int, 324int));
    ratio_mul_value(0int, 1int, 1int, 324int);
    assert(ratio_mul(dp87_coupling(12, 1), ratio_pow(dp87_node(1), 2)) == (0int, 324int));
    ratio_add_value(0int, 1int, 0int, 324int);
    assert(ratio_sum(|j: int| ratio_mul(dp87_coupling(12, j), ratio_pow(dp87_node(j), 2)), 2) == (0int, 1int));
    assert(dp87_coupling(12, 2) == (0int, 1int));
    assert(dp87_node(2) == (1int, 12int));
    assert(ratio_pow(dp87_node(2), 0) == (1int, 1int));
    ratio_mul_value(1int, 1int, 1int, 12int);
    assert(ratio_pow(dp87_node(2), 1) == (1int, 12int));
    ratio_mul_value(1int, 12int, 1int, 12int);
    assert(ratio_pow(dp87_node(2), 2) == (1int, 144int));
    ratio_mul_value(0int, 1int, 1int, 144int);
    assert(ratio_mul(dp87_coupling(12, 2), ratio_pow(dp87_node(2), 2)) == (0int, 144int));
    ratio_add_value(0int, 1int, 0int, 144int);
    assert(ratio_sum(|j: int| ratio_mul(dp87_coupling(12, j), ratio_pow(dp87_node(j), 2)), 3) == (0int, 1int));
    assert(dp87_coupling(12, 3) == (-5068492393int, 434740067int));
    assert(dp87_node(3) == (1int, 8int));
    assert(ratio_pow(dp87_node(3), 0) == (1int, 1int));
    ratio_mul_value(1int, 1int, 1int, 8int);
    assert(ratio_pow(dp87_node(3), 1) == (1int, 8int));
    ratio_mul_value(1int, 8int, 1int, 8int);
    assert(ratio_pow(dp87_node(3), 2) == (1int, 64int));
    ratio_mul_value(-5068492393int, 434740067int, 1int, 64int);
    assert(ratio_mul(dp87_coupling(12, 3), ratio_pow(dp87_node(3), 2)) == (-5068492393int, 27823364288int));
    ratio_add_value(0int, 1int, -5068492393int, 27823364288int);
    assert(ratio_sum(|j: int| ratio_mul(dp87_coupling(12, j), ratio_pow(dp87_node(j), 2)), 4) == (-5068492393int, 27823364288int));
    assert(dp87_coupling(12, 4) == (-411421997int, 543043805int));
    assert(dp87_node(4) == (5int, 16int));
    assert(ratio_pow(dp87_node(4), 0) == (1int, 1int));
    ratio_mul_value(1int, 1int, 5int, 16int);
    assert(ratio_pow(dp87_node(4), 1) == (5int, 16int));
    ratio_mul_value(5int, 16int, 5int, 16int);
    assert(ratio_pow(dp87_node(4), 2) == (25int, 256int));
    ratio_mul_value(-411421997int, 543043805int, 25int, 256int);
    assert(ratio_mul(dp87_coupling(12, 4), ratio_pow(dp87_node(4), 2)) == (-10285549925int, 139019214080int));
    ratio_add_value(-5068492393int, 27823364288int, -10285549925int, 139019214080int);
    assert(ratio_sum(|j: int| ratio_mul(dp87_coupling(12, j), ratio_pow(dp87_node(j), 2)), 5) == (-990796431511004571840int, 3867982236379298775040int));
    assert(dp87_coupling(12, 5) == (652783627int, 914296604int));
    assert(dp87_node(5) == (3int, 8int));
    assert(ratio_pow(dp87_node(5), 0) == (1int, 1int));
    ratio_mul_value(1int, 1int, 3int, 8int);
    assert(ratio_pow(dp87_node(5), 1) == (3int, 8int));
    ratio_mul_value(3int, 8int, 3int, 8int);
    assert(ratio_pow(dp87_node(5), 2) == (9int, 64int));
    ratio_mul_value(652783627int, 914296604int, 9int, 64int);
    assert(ratio_mul(dp87_coupling(12, 5), ratio_pow(dp87_node(5), 2)) == (5875052643int, 58514982656int));
    ratio_add_value(-990796431511004571840int, 3867982236379298775040int, 5875052643int, 58514982656int);
    assert(ratio_sum(|j: int| ratio_mul(dp87_coupling(12, j), ratio_pow(dp87_node(j), 2)), 6) == (-35251836744575874375568891576320int, 226334913475450760058907645706240int));
    assert(dp87_coupling(12, 6) == (11173962825int, 925320556int));
    assert(dp87_node(6) == (59int, 400int));
    assert(ratio_pow(dp87_node(6), 0) == (1int, 1int));
    ratio_mul_value(1int, 1int, 59int, 400int);
    assert(ratio_pow(dp87_node(6), 1) == (59int, 400int));
    ratio_mul_value(59int, 400int, 59int, 400int);
    assert(ratio_pow(dp87_node(6), 2) == (3481int, 160000int));
    ratio_mul_value(11173962825int, 925320556int, 3481int, 160000int);
    assert(ratio_mul(dp87_coupling(12, 6), ratio_pow(dp87_node(6), 2)) == (38896564593825int, 148051288960000int));
    ratio_add_value(-35251836744575874375568891576320int, 226334913475450760058907645706240int, 38896564593825int, 148051288960000int);
    assert(ratio_sum(|j: int| ratio_mul(dp87_coupling(12, j), ratio_pow(dp87_node(j), 2)), 7) == (3584570713593714422217483072130259857440768000int, 33509175676690558343732962476407841515110400000int));
    assert(dp87_coupling(12, 7) == (-13158990841int, 6184727034int));
    assert(dp87_node(7) == (93int, 200int));
    assert(ratio_pow(dp87_node(7), 0) == (1int, 1int));
    ratio_mul_value(1int, 1int, 93int, 200int);
    assert(ratio_pow(dp87_node(7), 1) == (93int, 200int));
    ratio_mul_value(93int, 200int, 93int, 200int);
    assert(ratio_pow(dp87_node(7), 2) == (8649int, 40000int));
    ratio_mul_value(-13158990841int, 6184727034int, 8649int, 40000int);
    assert(ratio_mul(dp87_coupling(12, 7), ratio_pow(dp87_node(7), 2)) == (-113812111783809int, 247389081360000int));
    ratio_add_value(3584570713593714422217483072130259857440768000int, 33509175676690558343732962476407841515110400000int, -113812111783809int, 247389081360000int);
    assert(ratio_sum(|j: int| ratio_mul(dp87_coupling(12, j), ratio_pow(dp87_node(j), 2)), 8) == (-2926966391992890741657495613221098121068550716038683033600000int, 8289804187787333593641580700189886585123632414982144000000000int));
    assert(dp87_coupling(12, 8) == (3936647629int, 1978049680int));
    assert(dp87_node(8) == (5490023248int, 9719169821int));
    assert(ratio_pow(dp87_node(8), 0) == (1int, 1int));
    ratio_mul_value(1int, 1int, 5490023248int, 9719169821int);
    assert(ratio_pow(dp87_node(8), 1) == (5490023248int, 9719169821int));
    ratio_mul_value(5490023248int, 9719169821int, 5490023248int, 9719169821int);
    assert(ratio_pow(dp87_node(8), 2) == (30140355263580469504int, 94462262009437172041int));
    ratio_mul_value(3936647629int, 1978049680int, 30140355263580469504int, 94462262009437172041int);
    assert(ratio_mul(dp87_coupling(12, 8), ratio_pow(dp87_node(8), 2)) == (118651958085591725323628406016int, 186851047139843355135804996880int));
    ratio_add_value(-2926966391992890741657495613221098121068550716038683033600000int, 8289804187787333593641580700189886585123632414982144000000000int, 118651958085591725323628406016int, 186851047139843355135804996880int);
    assert(ratio_sum(|j: int| ratio_mul(dp87_coupling(12, j), ratio_pow(dp87_node(j), 2)), 9) == (436694763740104609251170621278598185868897457425118289839885889253023056484821368832000000int, 1548958593072321926349229484662788492647422273143289702502892036584036931175710720000000000int));
    assert(dp87_coupling(12, 9) == (-160528059int, 685178525int));
    assert(dp87_node(9) == (13int, 20int));
    assert(ratio_pow(dp87_node(9), 0) == (1int, 1int));
    ratio_mul_value(1int, 1int, 13int, 20int);
    assert(ratio_pow(dp87_node(9), 1) == (13int, 20int));
    ratio_mul_value(13int, 20int, 13int, 20int);
    assert(ratio_pow(dp87_node(9), 2) == (169int, 400int));
    ratio_mul_value(-160528059int, 685178525int, 169int, 400int);
    assert(ratio_mul(dp87_coupling(12, 9), ratio_pow(dp87_node(9), 2)) == (-27129241971int, 274071410000int));
    ratio_add_value(436694763740104609251170621278598185868897457425118289839885889253023056484821368832000000int, 1548958593072321926349229484662788492647422273143289702502892036584036931175710720000000000int, -27129241971int, 274071410000int);
    assert(ratio_sum(|j: int| ratio_mul(dp87_coupling(12, j), ratio_pow(dp87_node(j), 2)), 10) == (77663477163348597962230288985576985267904528064397978019052637518902553671438506513137664000000000000int, 424525265634947502328449477275103816711653655265786540803448149544358585219399994782515200000000000000int));
    assert(dp87_coupling(12, 10) == (248638103int, 1413531060int));
    assert(dp87_node(10) == (1201146811int, 1299019798int));
    assert(ratio_pow(dp87_node(10), 0) == (1int, 1int));
    ratio_mul_value(1int, 1int, 1201146811int, 1299019798int);
    assert(ratio_pow(dp87_node(10), 1) == (1201146811int, 1299019798int));
    ratio_mul_value(1201146811int, 1299019798int, 1201146811int, 1299019798int);
    assert(ratio_pow(dp87_node(10), 2) == (1442753661575469721int, 1687452435595960804int));
    ratio_mul_value(248638103int, 1413531060int, 1442753661575469721int, 1687452435595960804int);
    assert(ratio_mul(dp87_coupling(12, 10), ratio_pow(dp87_node(10), 2)) == (358723533510428782763379263int, 2385266429987540206996572240int));
    ratio_add_value(77663477163348597962230288985576985267904528064397978019052637518902553671438506513137664000000000000int, 424525265634947502328449477275103816711653655265786540803448149544358585219399994782515200000000000000int, 358723533510428782763379263int, 2385266429987540206996572240int);
    assert(ratio_sum(|j: int| ratio_mul(dp87_coupling(12, j), ratio_pow(dp87_node(j), 2)), 11) == (337535288266861137152626171321431022208735050991617656052111294725156975895752602271657520557419312622737673903144960000000000000int, 1012605864800583415181860741925940662618793090102311708233213501139807459103468812578219903421473130062530685698048000000000000000int));
    assert(dp87_coupling(12, 11) == (0int, 1int));
    assert(dp87_node(11) == (1int, 1int));
    assert(ratio_pow(dp87_node(11), 0) == (1int, 1int));
    ratio_mul_value(1int, 1int, 1int, 1int);
    assert(ratio_pow(dp87_node(11), 1) == (1int, 1int));
    ratio_mul_value(1int, 1int, 1int, 1int);
    assert(ratio_pow(dp87_node(11), 2) == (1int, 1int));
    ratio_mul_value(0int, 1int, 1int, 1int);
    assert(ratio_mul(dp87_coupling(12, 11), ratio_pow(dp87_node(11), 2)) == (0int, 1int));
    ratio_add_value(337535288266861137152626171321431022208735050991617656052111294725156975895752602271657520557419312622737673903144960000000000000int, 1012605864800583415181860741925940662618793090102311708233213501139807459103468812578219903421473130062530685698048000000000000000int, 0int, 1int);
    assert(ratio_sum(|j: int| ratio_mul(dp87_coupling(12, j), ratio_pow(dp87_node(j), 2)), 12) == (337535288266861137152626171321431022208735050991617656052111294725156975895752602271657520557419312622737673903144960000000000000int, 1012605864800583415181860741925940662618793090102311708233213501139807459103468812578219903421473130062530685698048000000000000000int));
    assert(dp87_coupling(12, 12) == (0int, 1int));
    assert(dp87_node(12) == (1int, 1int));
    assert(ratio_pow(dp87_node(12), 0) == (1int, 1int));
    ratio_mul_value(1int, 1int, 1int, 1int);
    assert(ratio_pow(dp87_node(12), 1) == (1int, 1int));
    ratio_mul_value(1int, 1int, 1int, 1int);
    assert(ratio_pow(dp87_node(12), 2) == (1int, 1int));
    ratio_mul_value(0int, 1int, 1int, 1int);
    assert(ratio_mul(dp87_coupling(12, 12), ratio_pow(dp87_node(12), 2)) == (0int, 1int));
    ratio_add_value(337535288266861137152626171321431022208735050991617656052111294725156975895752602271657520557419312622737673903144960000000000000int, 1012605864800583415181860741925940662618793090102311708233213501139807459103468812578219903421473130062530685698048000000000000000int, 0int, 1int);
    assert(ratio_sum(|j: int| ratio_mul(dp87_coupling(12, j), ratio_pow(dp87_node(j), 2)), 13) == (337535288266861137152626171321431022208735050991617656052111294725156975895752602271657520557419312622737673903144960000000000000int, 1012605864800583415181860741925940662618793090102311708233213501139807459103468812578219903421473130062530685698048000000000000000int));
    assert(dp87_node(12) == (1int, 1int));
    assert(ratio_pow(dp87_node(12), 0) == (1int, 1int));
    ratio_mul_value(1int, 1int, 1int, 1int);
    assert(ratio_pow(dp87_node(12), 1) == (1int, 1int));
    ratio_mul_value(1int, 1int, 1int, 1int);
    assert(ratio_pow(dp87_node(12), 2) == (1int, 1int));
    ratio_mul_value(1int, 1int, 1int, 1int);
    assert(ratio_pow(dp87_node(12), 3) == (1int, 1int));
    ratio_mul_value(1int, 1int, 1int, 3int);
    assert(ratio_mul(ratio_pow(dp87_node(12), 3), (1, 3)) == (1int, 3int));
    assert(within_1e14((337535288266861137152626171321431022208735050991617656052111294725156975895752602271657520557419312622737673903144960000000000000int, 1012605864800583415181860741925940662618793090102311708233213501139807459103468812578219903421473130062530685698048000000000000000int), (1int, 3int))) by (nonlinear_arith);
}

/// The moment of degree 3 of row 5, exactly, stage by stage.
#[verifier::spinoff_prover]
proof fn stage_condition_5_3()
    ensures
        within_1e14(coupling_moment(5, 3), ratio_mul(ratio_pow(dp87_node(5), 4), (1, 4))),
{
    assert(ratio_sum(|j: int| ratio_mul(dp87_coupling(5, j), ratio_pow(dp87_node(j), 3)), 0) == (0int, 1int));
    assert(dp87_coupling(5, 0) == (3int, 80int));
    assert(dp87_node(0) == (0int, 1int));
    assert(ratio_pow(dp87_node(0), 0) == (1int, 1int));
    ratio_mul_value(1int, 1int, 0int, 1int);
    assert(ratio_pow(dp87_node(0), 1) == (0int, 1int));
    ratio_mul_value(0int, 1int, 0int, 1int);
    assert(ratio_pow(dp87_node(0), 2) == (0int, 1int));
    ratio_mul_value(0int, 1int, 0int, 1int);
    assert(ratio_pow(dp87_node(0), 3) == (0int, 1int));
    ratio_mul_value(3int, 80int, 0int, 1int);
    assert(ratio_mul(dp87_coupling(5, 0), ratio_pow(dp87_node(0), 3)) == (0int, 80int));
    ratio_add_value(0int, 1int, 0int, 80int);
    assert(ratio_sum(|j: int| ratio_mul(dp87_coupling(5, j), ratio_pow(dp87_node(j), 3)), 1) == (0int, 1int));
    assert(dp87_coupling(5, 1) == (0int, 1int));
    assert(dp87_node(1) == (1int, 18int));
    assert(ratio_pow(dp87_node(1), 0) == (1int, 1int));
    ratio_mul_value(1int, 1int, 1int, 18int);
    assert(ratio_pow(dp87_node(1), 1) == (1int, 18int));
    ratio_mul_value(1int, 18int, 1int, 18int);
    assert(ratio_pow(dp87_node(1), 2) == (1int, 324int));
    ratio_mul_value(1int, 324int, 1int, 18int);
    assert(ratio_pow(dp87_node(1), 3) == (1int, 5832int));
    ratio_mul_value(0int, 1int, 1int, 5832int);
    assert(ratio_mul(dp87_coupling(5, 1), ratio_pow(dp87_node(1), 3)) == (0int, 5832int));
    ratio_add_value(0int, 1int, 0int, 5832int);
    assert(ratio_sum(|j: int| ratio_mul(dp87_coupling(5, j), ratio_pow(dp87_node(j), 3)), 2) == (0int, 1int));
    assert(dp87_coupling(5, 2) == (0int, 1int));
    assert(dp87_node(2) == (1int, 12int));
    assert(ratio_pow(dp87_node(2), 0) == (1int, 1int));
    ratio_mul_value(1int, 1int, 1int, 12int);
    assert(ratio_pow(dp87_node(2), 1) == (1int, 12int));
    ratio_mul_value(1int, 12int, 1int, 12int);
    assert(ratio_pow(dp87_node(2), 2) == (1int, 144int));
    ratio_mul_value(1int, 144int, 1int, 12int);
    assert(ratio_pow(dp87_node(2), 3) == (1int, 1728int));
    ratio_mul_value(0int, 1int, 1int, 1728int);
    assert(ratio_mul(dp87_coupling(5, 2), ratio_pow(dp87_node(2), 3)) == (0int, 1728int));
    ratio_add_value(0int, 1int, 0int, 1728int);
    assert(ratio_sum(|j: int| ratio_mul(dp87_coupling(5, j), ratio_pow(dp87_node(j), 3)), 3) == (0int, 1int));
    assert(dp87_coupling(5, 3) == (3int, 16int));
    assert(dp87_node(3) == (1int, 8int));
    assert(ratio_pow(dp87_node(3), 0) == (1int, 1int));
    ratio_mul_value(1int, 1int, 1int, 8int);
    assert(ratio_pow(dp87_node(3), 1) == (1int, 8int));
    ratio_mul_value(1int, 8int, 1int, 8int);
    assert(ratio_pow(dp87_node(3), 2) == (1int, 64int));
    ratio_mul_value(1int, 64int, 1int, 8int);
    assert(ratio_pow(dp87_node(3), 3) == (1int, 512int));
    ratio_mul_value(3int, 16int, 1int, 512int);
    assert(ratio_mul(dp87_coupling(5, 3), ratio_pow(dp87_node(3), 3)) == (3int, 8192int));
    ratio_add_value(0int, 1int, 3int, 8192int);
    assert(ratio_sum(|j: int| ratio_mul(dp87_coupling(5, j), ratio_pow(dp87_node(j), 3)), 4) == (3int, 8192int));
    assert(dp87_coupling(5, 4) == (3int, 20int));
    assert(dp87_node(4) == (5int, 16int));
    assert(ratio_pow(dp87_node(4), 0) == (1int, 1int));
    ratio_mul_value(1int, 1int, 5int, 16int);
    assert(ratio_pow(dp87_node(4), 1) == (5int, 16int));
    ratio_mul_value(5int, 16int, 5int, 16int);
    assert(ratio_pow(dp87_node(4), 2) == (25int, 256int));
    ratio_mul_value(25int, 256int, 5int, 16int);
    assert(ratio_pow(dp87_node(4), 3) == (125int, 4096int));
    ratio_mul_value(3int, 20int, 125int, 4096int);
    assert(ratio_mul(dp87_coupling(5, 4), ratio_pow(dp87_node(4), 3)) == (375int, 81920int));
    ratio_add_value(3int, 8192int, 375int, 81920int);
    assert(ratio_sum(|j: int| ratio_mul(dp87_coupling(5, j), ratio_pow(dp87_node(j), 3)), 5) == (3317760int, 671088640int));
    assert(dp87_coupling(5, 5) == (0int, 1int));
    assert(dp87_node(5) == (3int, 8int));
    assert(ratio_pow(dp87_node(5), 0) == (1int, 1int));
    ratio_mul_value(1int, 1int, 3int, 8int);
    assert(ratio_pow(dp87_node(5), 1) == (3int, 8int));
    ratio_mul_value(3int, 8int, 3int, 8int);
    assert(ratio_pow(dp87_node(5), 2) == (9int, 64int));
    ratio_mul_value(9int, 64int, 3int, 8int);
    assert(ratio_pow(dp87_node(5), 3) == (27int, 512int));
    ratio_mul_value(0int, 1int, 27int, 512int);
    assert(ratio_mul(dp87_coupling(5, 5), ratio_pow(dp87_node(5), 3)) == (0int, 512int));
    ratio_add_value(3317760int, 671088640int, 0int, 512int);
    assert(ratio_sum(|j: int| ratio_mul(dp87_coupling(5, j), ratio_pow(dp87_node(j), 3)), 6) == (3317760int, 671088640int));
    assert(dp87_coupling(5, 6) == (0int, 1int));
    assert(dp87_node(6) == (59int, 400int));
    assert(ratio_pow(dp87_node(6), 0) == (1int, 1int));
    ratio_mul_value(1int, 1int, 59int, 400int);
    assert(ratio_pow(dp87_node(6), 1) == (59int, 400int));
    ratio_mul_value(59int, 400int, 59int, 400int);
    assert(ratio_pow(dp87_node(6), 2) == (3481int, 160000int));
    ratio_mul_value(3481int, 160000int, 59int, 400int);
    assert(ratio_pow(dp87_node(6), 3) == (205379int, 64000000int));
    ratio_mul_value(0int, 1int, 205379int, 64000000int);
    assert(ratio_mul(dp87_coupling(5, 6), ratio_pow(dp87_node(6), 3)) == (0int, 64000000int));
    ratio_add_value(3317760int, 671088640int, 0int, 64000000int);
    assert(ratio_sum(|j: int| ratio_mul(dp87_coupling(5, j), ratio_pow(dp87_node(j), 3)), 7) == (3317760int, 671088640int));
    assert(dp87_coupling(5, 7) == (0int, 1int));
    assert(dp87_node(7) == (93int, 200int));
    assert(ratio_pow(dp87_node(7), 0) == (1int, 1int));
    ratio_mul_value(1int, 1int, 93int, 200int);
    assert(ratio_pow(dp87_node(7), 1) == (93int, 200int));
    ratio_mul_value(93int, 200int, 93int, 200int);
    assert(ratio_pow(dp87_node(7), 2) == (8649int, 40000int));
    ratio_mul_value(8649int, 40000int, 93int, 200int);
    assert(ratio_pow(dp87_node(7), 3) == (804357int, 8000000int));
    ratio_mul_value(0int, 1int, 804357int, 8000000int);
    assert(ratio_mul(dp87_coupling(5, 7), ratio_pow(dp87_node(7), 3)) == (0int, 8000000int));
    ratio_add_value(3317760int, 671088640int, 0int, 8000000int);
    assert(ratio_sum(|j: int| ratio_mul(dp87_coupling(5, j), ratio_pow(dp87_node(j), 3)), 8) == (3317760int, 671088640int));
    assert(dp87_coupling(5, 8) == (0int, 1int));
    assert(dp87_node(8) == (5490023248int, 9719169821int));
    assert(ratio_pow(dp87_node(8), 0) == (1int, 1int));
    ratio_mul_value(1int, 1int, 5490023248int, 9719169821int);
    assert(ratio_pow(dp87_node(8), 1) == (5490023248int, 9719169821int));
    ratio_mul_value(5490023248int, 9719169821int, 5490023248int, 9719169821int);
    assert(ratio_pow(dp87_node(8), 2) == (30140355263580469504int, 94462262009437172041int));
    ratio_mul_value(30140355263580469504int, 94462262009437172041int, 5490023248int, 9719169821int);
    assert(ratio_pow(dp87_node(8), 3) == (165471251100035945295715028992int, 918094766145516579696472174661int));
    ratio_mul_value(0int, 1int, 165471251100035945295715028992int, 918094766145516579696472174661int);
    assert(ratio_mul(dp87_coupling(5, 8), ratio_pow(dp87_node(8), 3)) == (0int, 918094766145516579696472174661int));
    ratio_add_value(3317760int, 671088640int, 0int, 918094766145516579696472174661int);
    assert(ratio_sum(|j: int| ratio_mul(dp87_coupling(5, j), ratio_pow(dp87_node(j), 3)), 9) == (3317760int, 671088640int));
    assert(dp87_coupling(5, 9) == (0int, 1int));
    assert(dp87_node(9) == (13int, 20int));
    assert(ratio_pow(dp87_node(9), 0) == (1int, 1int));
    ratio_mul_value(1int, 1int, 13int, 20int);
    assert(ratio_pow(dp87_node(9), 1) == (13int, 20int));
    ratio_mul_value(13int, 20int, 13int, 20int);
    assert(ratio_pow(dp87_node(9), 2) == (169int, 400int));
    ratio_mul_value(169int, 400int, 13int, 20int);
    assert(ratio_pow(dp87_node(9), 3) == (2197int, 8000int));
    ratio_mul_value(0int, 1int, 2197int, 8000int);
    assert(ratio_mul(dp87_coupling(5, 9), ratio_pow(dp87_node(9), 3)) == (0int, 8000int));
    ratio_add_value(3317760int, 671088640int, 0int, 8000int);
    assert(ratio_sum(|j: int| ratio_mul(dp87_coupling(5, j), ratio_pow(dp87_node(j), 3)), 10) == (3317760int, 671088640int));
    assert(dp87_coupling(5, 10) == (0int, 1int));
    assert(dp87_node(10) == (1201146811int, 1299019798int));
    assert(ratio_pow(dp87_node(10), 0) == (1int, 1int));
    ratio_mul_value(1int, 1int, 1201146811int, 1299019798int);
    assert(ratio_pow(dp87_node(10), 1) == (1201146811int, 1299019798int));
    ratio_mul_value(1201146811int, 1299019798int, 1201146811int, 1299019798int);
    assert(ratio_pow(dp87_node(10), 2) == (1442753661575469721int, 1687452435595960804int));
    ratio_mul_value(1442753661575469721int, 1687452435595960804int, 1201146811int, 1299019798int);
    assert(ratio_pow(dp87_node(10), 3) == (1732958959659948691206209731int, 2192034122022473013227997592int));
    ratio_mul_value(0int, 1int, 1732958959659948691206209731int, 2192034122022473013227997592int);
    assert(ratio_mul(dp87_coupling(5, 10), ratio_pow(dp87_node(10), 3)) == (0int, 2192034122022473013227997592int));
    ratio_add_value(3317760int, 671088640int, 0int, 2192034122022473013227997592int);
    assert(ratio_sum(|j: int| ratio_mul(dp87_coupling(5, j), ratio_pow(dp87_node(j), 3)), 11) == (3317760int, 671088640int));
    assert(dp87_coupling(5, 11) == (0int, 1int));
    assert(dp87_node(11) == (1int, 1int));
    assert(ratio_pow(dp87_node(11), 0) == (1int, 1int));
    ratio_mul_value(1int, 1int, 1int, 1int);
    assert(ratio_pow(dp87_node(11), 1) == (1int, 1int));
    ratio_mul_value(1int, 1int, 1int, 1int);
    assert(ratio_pow(dp87_node(11), 2) == (1int, 1int));
    ratio_mul_value(1int, 1int, 1int, 1int);
    assert(ratio_pow(dp87_node(11), 3) == (1int, 1int));
    ratio_mul_value(0int, 1int, 1int, 1int);
    assert(ratio_mul(dp87_coupling(5, 11), ratio_pow(dp87_node(11), 3)) == (0int, 1int));
    ratio_add_value(3317760int, 671088640int, 0int, 1int);
    assert(ratio_sum(|j: int| ratio_mul(dp87_coupling(5, j), ratio_pow(dp87_node(j), 3)), 12) == (3317760int, 671088640int));
    assert(dp87_coupling(5, 12) == (0int, 1int));
    assert(dp87_node(12) == (1int, 1int));
    assert(ratio_pow(dp87_node(12), 0) == (1int, 1int));
    ratio_mul_value(1int, 1int, 1int, 1int);
    assert(ratio_pow(dp87_node(12), 1) == (1int, 1int));
    ratio_mul_value(1int, 1int, 1int, 1int);
    assert(ratio_pow(dp87_node(12), 2) == (1int, 1int));
    ratio_mul_value(1int, 1int, 1int, 1int);
    assert(ratio_pow(dp87_node(12), 3) == (1int, 1int));
    ratio_mul_value(0int, 1int, 1int, 1int);
    assert(ratio_mul(dp87_coupling(5, 12), ratio_pow(dp87_node(12), 3)) == (0int, 1int));
    ratio_add_value(3317760int, 671088640int, 0int, 1int);
    assert(ratio_sum(|j: int| ratio_mul(dp87_coupling(5, j), ratio_pow(dp87_node(j), 3)), 13) == (3317760int, 671088640int));
    assert(dp87_node(5) == (3int, 8int));
    assert(ratio_pow(dp87_node(5), 0) == (1int, 1int));
    ratio_mul_value(1int, 1int, 3int, 8int);
    assert(ratio_pow(dp87_node(5), 1) == (3int, 8int));
    ratio_mul_value(3int, 8int, 3int, 8int);
    assert(ratio_pow(dp87_node(5), 2) == (9int, 64int));
    ratio_mul_value(9int, 64int, 3int, 8int);
    assert(ratio_pow(dp87_node(5), 3) == (27int, 512int));
    ratio_mul_value(27int, 512int, 3int, 8int);
    assert(ratio_pow(dp87_node(5), 4) == (81int, 4096int));
    ratio_mul_value(81int, 4096int, 1int, 4int);
    assert(ratio_mul(ratio_pow(dp87_node(5), 4), (1, 4)) == (81int, 16384int));
    assert(within_1e14((3317760int, 671088640int), (81int, 16384int))) by (nonlinear_arith);
}

/// The moment of degree 3 of row 6, exactly, stage by stage.
#[verifier::spinoff_prover]
proof fn stage_condition_6_3()
    ensures
        within_1e14(coupling_moment(6, 3), ratio_mul(ratio_pow(dp87_node(6), 4), (1, 4))),
{
    assert(ratio_sum(|j: int| ratio_mul(dp87_coupling(6, j), ratio_pow(dp87_node(j), 3)), 0) == (0int, 1int));
    assert(dp87_coupling(6, 0) == (29443841int, 614563906int));
    assert(dp87_node(0) == (0int, 1int));
    assert(ratio_pow(dp87_node(0), 0) == (1int, 1int));
    ratio_mul_value(1int, 1int, 0int, 1int);
    assert(ratio_pow(dp87_node(0), 1) == (0int, 1int));
    ratio_mul_value(0int, 1int, 0int, 1int);
    assert(ratio_pow(dp87_node(0), 2) == (0int, 1int));
    ratio_mul_value(0int, 1int, 0int, 1int);
    assert(ratio_pow(dp87_node(0), 3) == (0int, 1int));
    ratio_mul_value(29443841int, 614563906int, 0int, 1int);
    assert(ratio_mul(dp87_coupling(6, 0), ratio_pow(dp87_node(0), 3)) == (0int, 614563906int));
    ratio_add_value(0int, 1int, 0int, 614563906int);
    assert(ratio_sum(|j: int| ratio_mul(dp87_coupling(6, j), ratio_pow(dp87_node(j), 3)), 1) == (0int, 1int));
    assert(dp87_coupling(6, 1) == (0int, 1int));
    assert(dp87_node(1) == (1int, 18int));
    assert(ratio_pow(dp87_node(1), 0) == (1int, 1int));
    ratio_mul_value(1int, 1int, 1int, 18int);
    assert(ratio_pow(dp87_node(1), 1) == (1int, 18int));
    ratio_mul_value(1int, 18int, 1int, 18int);
    assert(ratio_pow(dp87_node(1), 2) == (1int, 324int));
    ratio_mul_value(1int, 324int, 1int, 18int);
    assert(ratio_pow(dp87_node(1), 3) == (1int, 5832int));
    ratio_mul_value(0int, 1int, 1int, 5832int);
    assert(ratio_mul(dp87_coupling(6, 1), ratio_pow(dp87_node(1), 3)) == (0int, 5832int));
    ratio_add_value(0int, 1int, 0int, 5832int);
    assert(ratio_sum(|j: int| ratio_mul(dp87_coupling(6, j), ratio_pow(dp87_node(j), 3)), 2) == (0int, 1int));
    assert(dp87_coupling(6, 2) == (0int, 1int));
    assert(dp87_node(2) == (1int, 12int));
    assert(ratio_pow(dp87_node(2), 0) == (1int, 1int));
    ratio_mul_value(1int, 1int, 1int, 12int);
    assert(ratio_pow(dp87_node(2), 1) == (1int, 12int));
    ratio_mul_value(1int, 12int, 1int, 12int);
    assert(ratio_pow(dp87_node(2), 2) == (1int, 144int));
    ratio_mul_value(1int, 144int, 1int, 12int);
    assert(ratio_pow(dp87_node(2), 3) == (1int, 1728int));
    ratio_mul_value(0int, 1int, 1int, 1728int);
    assert(ratio_mul(dp87_coupling(6, 2), ratio_pow(dp87_node(2), 3)) == (0int, 1728int));
    ratio_add_value(0int, 1int, 0int, 1728int);
    assert(ratio_sum(|j: int| ratio_mul(dp87_coupling(6, j), ratio_pow(dp87_node(j), 3)), 3) == (0int, 1int));
    assert(dp87_coupling(6, 3) == (77736538int, 692538347int));
    assert(dp87_node(3) == (1int, 8int));
    assert(ratio_pow(dp87_node(3), 0) == (1int, 1int));
    ratio_mul_value(1int, 1int, 1int, 8int);
    assert(ratio_pow(dp87_node(3), 1) == (1int, 8int));
    ratio_mul_value(1int, 8int, 1int, 8int);
    assert(ratio_pow(dp87_node(3), 2) == (1int, 64int));
    ratio_mul_value(1int, 64int, 1int, 8int);
    assert(ratio_pow(dp87_node(3), 3) == (1int, 512int));
    ratio_mul_value(77736538int, 692538347int, 1int, 512int);
    assert(ratio_mul(dp87_coupling(6, 3), ratio_pow(dp87_node(3), 3)) == (77736538int, 354579633664int));
    ratio_add_value(0int, 1int, 77736538int, 354579633664int);
    assert(ratio_sum(|j: int| ratio_mul(dp87_coupling(6, j), ratio_pow(dp87_node(j), 3)), 4) == (77736538int, 354579633664int));
    assert(dp87_coupling(6, 4) == (-28693883int, 1125000000int));
    assert(dp87_node(4) == (5int, 16int));
    assert(ratio_pow(dp87_node(4), 0) == (1int, 1int));
    ratio_mul_value(1int, 1int, 5int, 16int);
    assert(ratio_pow(dp87_node(4), 1) == (5int, 16int));
    ratio_mul_value(5int, 16int, 5int, 16int);
    assert(ratio_pow(dp87_node(4), 2) == (25int, 256int));
    ratio_mul_value(25int, 256int, 5int, 16int);
    assert(ratio_pow(dp87_node(4), 3) == (125int, 4096int));
    ratio_mul_value(-28693883int, 1125000000int, 125int, 4096int);
    assert(ratio_mul(dp87_coupling(6, 4), ratio_pow(dp87_node(4), 3)) == (-3586735375int, 4608000000000int));
    ratio_add_value(77736538int, 354579633664int, -3586735375int, 4608000000000int);
    assert(ratio_sum(|j: int| ratio_mul(dp87_coupling(6, j), ratio_pow(dp87_node(j), 3)), 5) == (-913573348213209664000int, 1633902951923712000000000int));
    assert(dp87_coupling(6, 5) == (23124283int, 1800000000int));
    assert(dp87_node(5) == (3int, 8int));
    assert(ratio_pow(dp87_node(5), 0) == (1int, 1int));
    ratio_mul_value(1int, 1int, 3int, 8int);
    assert(ratio_pow(dp87_node(5), 1) == (3int, 8int));
    ratio_mul_value(3int, 8int, 3int, 8int);
    assert(ratio_pow(dp87_node(5), 2) == (9int, 64int));
    ratio_mul_value(9int, 64int, 3int, 8int);
    assert(ratio_pow(dp87_node(5), 3) == (27int, 512int));
    ratio_mul_value(23124283int, 1800000000int, 27int, 512int);
    assert(ratio_mul(dp87_coupling(6, 5), ratio_pow(dp87_node(5), 3)) == (624355641int, 921600000000int));
    ratio_add_value(-913573348213209664000int, 1633902951923712000000000int, 624355641int, 921600000000int);
    assert(ratio_sum(|j: int| ratio_mul(dp87_coupling(6, j), ratio_pow(dp87_node(j), 3)), 6) == (178187327166827362516992000000000int, 1505804960492892979200000000000000000int));
    assert(dp87_coupling(6, 6) == (0int, 1int));
    assert(dp87_node(6) == (59int, 400int));
    assert(ratio_pow(dp87_node(6), 0) == (1int, 1int));
    ratio_mul_value(1int, 1int, 59int, 400int);
    assert(ratio_pow(dp87_node(6), 1) == (59int, 400int));
    ratio_mul_value(59int, 400int, 59int, 400int);
    assert(ratio_pow(dp87_node(6), 2) == (3481int, 160000int));
    ratio_mul_value(3481int, 160000int, 59int, 400int);
    assert(ratio_pow(dp87_node(6), 3) == (205379int, 64000000int));
    ratio_mul_value(0int, 1int, 205379int, 64000000int);
    assert(ratio_mul(dp87_coupling(6, 6), ratio_pow(dp87_node(6), 3)) == (0int, 64000000int));
    ratio_add_value(178187327166827362516992000000000int, 1505804960492892979200000000000000000int, 0int, 64000000int);
    assert(ratio_sum(|j: int| ratio_mul(dp87_coupling(6, j), ratio_pow(dp87_node(j), 3)), 7) == (178187327166827362516992000000000int, 1505804960492892979200000000000000000int));
    assert(dp87_coupling(6, 7) == (0int, 1int));
    assert(dp87_node(7) == (93int, 200int));
    assert(ratio_pow(dp87_node(7), 0) == (1int, 1int));
    ratio_mul_value(1int, 1int, 93int, 200int);
    assert(ratio_pow(dp87_node(7), 1) == (93int, 200int));
    ratio_mul_value(93int, 200int, 93int, 200int);
    assert(ratio_pow(dp87_node(7), 2) == (8649int, 40000int));
    ratio_mul_value(8649int, 40000int, 93int, 200int);
    assert(ratio_pow(dp87_node(7), 3) == (804357int, 8000000int));
    ratio_mul_value(0int, 1int, 804357int, 8000000int);
    assert(ratio_mul(dp87_coupling(6, 7), ratio_pow(dp87_node(7), 3)) == (0int, 8000000int));
    ratio_add_value(178187327166827362516992000000000int, 1505804960492892979200000000000000000int, 0int, 8000000int);
    assert(ratio_sum(|j: int| ratio_mul(dp87_coupling(6, j), ratio_pow(dp87_node(j), 3)), 8) == (178187327166827362516992000000000int, 1505804960492892979200000000000000000int));
    assert(dp87_coupling(6, 8) == (0int, 1int));
    assert(dp87_node(8) == (5490023248int, 9719169821int));
    assert(ratio_pow(dp87_node(8), 0) == (1int, 1int));
    ratio_mul_value(1int, 1int, 5490023248int, 9719169821int);
    assert(ratio_pow(dp87_node(8), 1) == (5490023248int, 9719169821int));
    ratio_mul_value(5490023248int, 9719169821int, 5490023248int, 9719169821int);
    assert(ratio_pow(dp87_node(8), 2) == (30140355263580469504int, 94462262009437172041int));
    ratio_mul_value(30140355263580469504int, 94462262009437172041int, 5490023248int, 9719169821int);
    assert(ratio_pow(dp87_node(8), 3) == (165471251100035945295715028992int, 918094766145516579696472174661int));
    ratio_mul_value(0int, 1int, 165471251100035945295715028992int, 918094766145516579696472174661int);
    assert(ratio_mul(dp87_coupling(6, 8), ratio_pow(dp87_node(8), 3)) == (0int, 918094766145516579696472174661int));
    ratio_add_value(178187327166827362516992000000000int, 1505804960492892979200000000000000000int, 0int, 918094766145516579696472174661int);
    assert(ratio_sum(|j: int| ratio_mul(dp87_coupling(6, j), ratio_pow(dp87_node(j), 3)), 9) == (178187327166827362516992000000000int, 1505804960492892979200000000000000000int));
    assert(dp87_coupling(6, 9) == (0int, 1int));
    assert(dp87_node(9) == (13int, 20int));
    assert(ratio_pow(dp87_node(9), 0) == (1int, 1int));
    ratio_mul_value(1int, 1int, 13int, 20int);
    assert(ratio_pow(dp87_node(9), 1) == (13int, 20int));
    ratio_mul_value(13int, 20int, 13int, 20int);
    assert(ratio_pow(dp87_node(9), 2) == (169int, 400int));
    ratio_mul_value(169int, 400int, 13int, 20int);
    assert(ratio_pow(dp87_node(9), 3) == (2197int, 8000int));
    ratio_mul_value(0int, 1int, 2197int, 8000int);
    assert(ratio_mul(dp87_coupling(6, 9), ratio_pow(dp87_node(9), 3)) == (0int, 8000int));
    ratio_add_value(178187327166827362516992000000000int, 1505804960492892979200000000000000000int, 0int, 8000int);
    assert(ratio_sum(|j: int| ratio_mul(dp87_coupling(6, j), ratio_pow(dp87_node(j), 3)), 10) == (178187327166827362516992000000000int, 1505804960492892979200000000000000000int));
    assert(dp87_coupling(6, 10) == (0int, 1int));
    assert(dp87_node(10) == (1201146811int, 1299019798int));
    assert(ratio_pow(dp87_node(10), 0) == (1int, 1int));
    ratio_mul_value(1int, 1int, 1201146811int, 1299019798int);
    assert(ratio_pow(dp87_node(10), 1) == (1201146811int, 1299019798int));
    ratio_mul_value(1201146811int, 1299019798int, 1201146811int, 1299019798int);
    assert(ratio_pow(dp87_node(10), 2) == (1442753661575469721int, 1687452435595960804int));
    ratio_mul_value(1442753661575469721int, 1687452435595960804int, 1201146811int, 1299019798int);
    assert(ratio_pow(dp87_node(10), 3) == (1732958959659948691206209731int, 2192034122022473013227997592int));
    ratio_mul_value(0int, 1int, 1732958959659948691206209731int, 2192034122022473013227997592int);
    assert(ratio_mul(dp87_coupling(6, 10), ratio_pow(dp87_node(10), 3)) == (0int, 2192034122022473013227997592int));
    ratio_add_value(178187327166827362516992000000000int, 1505804960492892979200000000000000000int, 0int, 2192034122022473013227997592int);
    assert(ratio_sum(|j: int| ratio_mul(dp87_coupling(6, j), ratio_pow(dp87_node(j), 3)), 11) == (178187327166827362516992000000000int, 1505804960492892979200000000000000000int));
    assert(dp87_coupling(6, 11) == (0int, 1int));
    assert(dp87_node(11) == (1int, 1int));
    assert(ratio_pow(dp87_node(11), 0) == (1int, 1int));
    ratio_mul_value(1int, 1int, 1int, 1int);
    assert(ratio_pow(dp87_node(11), 1) == (1int, 1int));
    ratio_mul_value(1int, 1int, 1int, 1int);
    assert(ratio_pow(dp87_node(11), 2) == (1int, 1int));
    ratio_mul_value(1int, 1int, 1int, 1int);
    assert(ratio_pow(dp87_node(11), 3) == (1int, 1int));
    ratio_mul_value(0int, 1int, 1int, 1int);
    assert(ratio_mul(dp87_coupling(6, 11), ratio_pow(dp87_node(11), 3)) == (0int, 1int));
    ratio_add_value(178187327166827362516992000000000int, 1505804960492892979200000000000000000int, 0int, 1int);
    assert(ratio_sum(|j: int| ratio_mul(dp87_coupling(6, j), ratio_pow(dp87_node(j), 3)), 12) == (178187327166827362516992000000000int, 1505804960492892979200000000000000000int));
    assert(dp87_coupling(6, 12) == (0int, 1int));
    assert(dp87_node(12) == (1int, 1int));
    assert(ratio_pow(dp87_node(12), 0) == (1int, 1int));
    ratio_mul_value(1int, 1int, 1int, 1int);
    assert(ratio_pow(dp87_node(12), 1) == (1int, 1int));
    ratio_mul_value(1int, 1int, 1int, 1int);
    assert(ratio_pow(dp87_node(12), 2) == (1int, 1int));
    ratio_mul_value(1int, 1int, 1int, 1int);
    assert(ratio_pow(dp87_node(12), 3) == (1int, 1int));
    ratio_mul_value(0int, 1int, 1int, 1int);
    assert(ratio_mul(dp87_coupling(6, 12), ratio_pow(dp87_node(12), 3)) == (0int, 1int));
    ratio_add_value(178187327166827362516992000000000int, 1505804960492892979200000000000000000int, 0int, 1int);
    assert(ratio_sum(|j: int| ratio_mul(dp87_coupling(6, j), ratio_pow(dp87_node(j), 3)), 13) == (178187327166827362516992000000000int, 1505804960492892979200000000000000000int));
    assert(dp87_node(6) == (59int, 400int));
    assert(ratio_pow(dp87_node(6), 0) == (1int, 1int));
    ratio_mul_value(1int, 1int, 59int, 400int);
    assert(ratio_pow(dp87_node(6), 1) == (59int, 400int));
    ratio_mul_value(59int, 400int, 59int, 400int);
    assert(ratio_pow(dp87_node(6), 2) == (3481int, 160000int));
    ratio_mul_value(3481int, 160000int, 59int, 400int);
    assert(ratio_pow(dp87_node(6), 3) == (205379int, 64000000int));
    ratio_mul_value(205379int, 64000000int, 59int, 400int);
    assert(ratio_pow(dp87_node(6), 4) == (12117361int, 25600000000int));
    ratio_mul_value(12117361int, 25600000000int, 1int, 4int);
    assert(ratio_mul(ratio_pow(dp87_node(6), 4), (1, 4)) == (12117361int, 102400000000int));
    assert(within_1e14((178187327166827362516992000000000int, 1505804960492892979200000000000000000int), (12117361int, 102400000000int))) by (nonlinear_arith);
}

/// The moment of degree 3 of row 7, exactly, stage by stage.
#[verifier::spinoff_prover]
proof fn stage_condition_7_3()
    ensures
        within_1e14(coupling_moment(7, 3), ratio_mul(ratio_pow(dp87_node(7), 4), (1, 4))),
{
    assert(ratio_sum(|j: int| ratio_mul(dp87_coupling(7, j), ratio_pow(dp87_node(j), 3)), 0) == (0int, 1int));
    assert(dp87_coupling(7, 0) == (16016141int, 946692911int));
    assert(dp87_node(0) == (0int, 1int));
    assert(ratio_pow(dp87_node(0), 0) == (1int, 1int));
    ratio_mul_value(1int, 1int, 0int, 1int);
    assert(ratio_pow(dp87_node(0), 1) == (0int, 1int));
    ratio_mul_value(0int, 1int, 0int, 1int);
    assert(ratio_pow(dp87_node(0), 2) == (0int, 1int));
    ratio_mul_value(0int, 1int, 0int, 1int);
    assert(ratio_pow(dp87_node(0), 3) == (0int, 1int));
    ratio_mul_value(16016141int, 946692911int, 0int, 1int);
    assert(ratio_mul(dp87_coupling(7, 0), ratio_pow(dp87_node(0), 3)) == (0int, 946692911int));
    ratio_add_value(0int, 1int, 0int, 946692911int);
    assert(ratio_sum(|j: int| ratio_mul(dp87_coupling(7, j), ratio_pow(dp87_node(j), 3)), 1) == (0int, 1int));
    assert(dp87_coupling(7, 1) == (0int, 1int));
    assert(dp87_node(1) == (1int, 18int));
    assert(ratio_pow(dp87_node(1), 0) == (1int, 1int));
    ratio_mul_value(1int, 1int, 1int, 18int);
    assert(ratio_pow(dp87_node(1), 1) == (1int, 18int));
    ratio_mul_value(1int, 18int, 1int, 18int);
    assert(ratio_pow(dp87_node(1), 2) == (1int, 324int));
    ratio_mul_value(1int, 324int, 1int, 18int);
    assert(ratio_pow(dp87_node(1), 3) == (1int, 5832int));
    ratio_mul_value(0int, 1int, 1int, 5832int);
    assert(ratio_mul(dp87_coupling(7, 1), ratio_pow(dp87_node(1), 3)) == (0int, 5832int));
    ratio_add_value(0int, 1int, 0int, 5832int);
    assert(ratio_sum(|j: int| ratio_mul(dp87_coupling(7, j), ratio_pow(dp87_node(j), 3)), 2) == (0int, 1int));
    assert(dp87_coupling(7, 2) == (0int, 1int));
    assert(dp87_node(2) == (1int, 12int));
    assert(ratio_pow(dp87_node(2), 0) == (1int, 1int));
    ratio_mul_value(1int, 1int, 1int, 12int);
    assert(ratio_pow(dp87_node(2), 1) == (1int, 12int));
    ratio_mul_value(1int, 12int, 1int, 12int);
    assert(ratio_pow(dp87_node(2), 2) == (1int, 144int));
    ratio_mul_value(1int, 144int, 1int, 12int);
    assert(ratio_pow(dp87_node(2), 3) == (1int, 1728int));
    ratio_mul_value(0int, 1int, 1int, 1728int);
    assert(ratio_mul(dp87_coupling(7, 2), ratio_pow(dp87_node(2), 3)) == (0int, 1728int));
    ratio_add_value(0int, 1int, 0int, 1728int);
    assert(ratio_sum(|j: int| ratio_mul(dp87_coupling(7, j), ratio_pow(dp87_node(j), 3)), 3) == (0int, 1int));
    assert(dp87_coupling(7, 3) == (61564180int, 158732637int));
    assert(dp87_node(3) == (1int, 8int));
    assert(ratio_pow(dp87_node(3), 0) == (1int, 1int));
    ratio_mul_value(1int, 1int, 1int, 8int);
    assert(ratio_pow(dp87_node(3), 1) == (1int, 8int));
    ratio_mul_value(1int, 8int, 1int, 8int);
    assert(ratio_pow(dp87_node(3), 2) == (1int, 64int));
    ratio_mul_value(1int, 64int, 1int, 8int);
    assert(ratio_pow(dp87_node(3), 3) == (1int, 512int));
    ratio_mul_value(61564180int, 158732637int, 1int, 512int);
    assert(ratio_mul(dp87_coupling(7, 3), ratio_pow(dp87_node(3), 3)) == (61564180int, 81271110144int));
    ratio_add_value(0int, 1int, 61564180int, 81271110144int);
    assert(ratio_sum(|j: int| ratio_mul(dp87_coupling(7, j), ratio_pow(dp87_node(j), 3)), 4) == (61564180int, 81271110144int));
    assert(dp87_coupling(7, 4) == (22789713int, 633445777int));
    assert(dp87_node(4) == (5int, 16int));
    assert(ratio_pow(dp87_node(4), 0) == (1int, 1int));
    ratio_mul_value(1int, 1int, 5int, 16int);
    assert(ratio_pow(dp87_node(4), 1) == (5int, 16int));
    ratio_mul_value(5int, 16int, 5int, 16int);
    assert(ratio_pow(dp87_node(4), 2) == (25int, 256int));
    ratio_mul_value(25int, 256int, 5int, 16int);
    assert(ratio_pow(dp87_node(4), 3) == (125int, 4096int));
    ratio_mul_value(22789713int, 633445777int, 125int, 4096int);
    assert(ratio_mul(dp87_coupling(7, 4), ratio_pow(dp87_node(4), 3)) == (2848714125int, 2594593902592int));
    ratio_add_value(61564180int, 81271110144int, 2848714125int, 2594593902592int);
    assert(ratio_sum(|j: int| ratio_mul(dp87_coupling(7, j), ratio_pow(dp87_node(j), 3)), 5) == (391252205467719938560int, 210865526836505239093248int));
    assert(dp87_coupling(7, 5) == (545815736int, 2771057229int));
    assert(dp87_node(5) == (3int, 8int));
    assert(ratio_pow(dp87_node(5), 0) == (1int, 1int));
    ratio_mul_value(1int, 1int, 3int, 8int);
    assert(ratio_pow(dp87_node(5), 1) == (3int, 8int));
    ratio_mul_value(3int, 8int, 3int, 8int);
    assert(ratio_pow(dp87_node(5), 2) == (9int, 64int));
    ratio_mul_value(9int, 64int, 3int, 8int);
    assert(ratio_pow(dp87_node(5), 3) == (27int, 512int));
    ratio_mul_value(545815736int, 2771057229int, 27int, 512int);
    assert(ratio_mul(dp87_coupling(7, 5), ratio_pow(dp87_node(5), 3)) == (14737024872int, 1418781301248int));
    ratio_add_value(391252205467719938560int, 210865526836505239093248int, 14737024872int, 1418781301248int);
    assert(ratio_sum(|j: int| ratio_mul(dp87_coupling(7, j), ratio_pow(dp87_node(j), 3)), 6) == (3662631826826602740965293914587136int, 299172066553441968069487757050773504int));
    assert(dp87_coupling(7, 6) == (-180193667int, 1043307555int));
    assert(dp87_node(6) == (59int, 400int));
    assert(ratio_pow(dp87_node(6), 0) == (1int, 1int));
    ratio_mul_value(1int, 1int, 59int, 400int);
    assert(ratio_pow(dp87_node(6), 1) == (59int, 400int));
    ratio_mul_value(59int, 400int, 59int, 400int);
    assert(ratio_pow(dp87_node(6), 2) == (3481int, 160000int));
    ratio_mul_value(3481int, 160000int, 59int, 400int);
    assert(ratio_pow(dp87_node(6), 3) == (205379int, 64000000int));
    ratio_mul_value(-180193667int, 1043307555int, 205379int, 64000000int);
    assert(ratio_mul(dp87_coupling(7, 6), ratio_pow(dp87_node(6), 3)) == (-37007995134793int, 66771683520000000int));
    ratio_add_value(3662631826826602740965293914587136int, 299172066553441968069487757050773504int, -37007995134793int, 66771683520000000int);
    assert(ratio_sum(|j: int| ratio_mul(dp87_coupling(7, j), ratio_pow(dp87_node(j), 3)), 7) == (233488334807669616182455278801107452636889327075328int, 19976222545930804258621781882308896980289454080000000int));
    assert(dp87_coupling(7, 7) == (0int, 1int));
    assert(dp87_node(7) == (93int, 200int));
    assert(ratio_pow(dp87_node(7), 0) == (1int, 1int));
    ratio_mul_value(1int, 1int, 93int, 200int);
    assert(ratio_pow(dp87_node(7), 1) == (93int, 200int));
    ratio_mul_value(93int, 200int, 93int, 200int);
    assert(ratio_pow(dp87_node(7), 2) == (8649int, 40000int));
    ratio_mul_value(8649int, 40000int, 93int, 200int);
    assert(ratio_pow(dp87_node(7), 3) == (804357int, 8000000int));
    ratio_mul_value(0int, 1int, 804357int, 8000000int);
    assert(ratio_mul(dp87_coupling(7, 7), ratio_pow(dp87_node(7), 3)) == (0int, 8000000int));
    ratio_add_value(233488334807669616182455278801107452636889327075328int, 19976222545930804258621781882308896980289454080000000int, 0int, 8000000int);
    assert(ratio_sum(|j: int| ratio_mul(dp87_coupling(7, j), ratio_pow(dp87_node(j), 3)), 8) == (233488334807669616182455278801107452636889327075328int, 19976222545930804258621781882308896980289454080000000int));
    assert(dp87_coupling(7, 8) == (0int, 1int));
    assert(dp87_node(8) == (5490023248int, 9719169821int));
    assert(ratio_pow(dp87_node(8), 0) == (1int, 1int));
    ratio_mul_value(1int, 1int, 5490023248int, 9719169821int);
    assert(ratio_pow(dp87_node(8), 1) == (5490023248int, 9719169821int));
    ratio_mul_value(5490023248int, 9719169821int, 5490023248int, 9719169821int);
    assert(ratio_pow(dp87_node(8), 2) == (30140355263580469504int, 94462262009437172041int));
    ratio_mul_value(30140355263580469504int, 94462262009437172041int, 5490023248int, 9719169821int);
    assert(ratio_pow(dp87_node(8), 3) == (165471251100035945295715028992int, 918094766145516579696472174661int));
    ratio_mul_value(0int, 1int, 165471251100035945295715028992int, 918094766145516579696472174661int);
    assert(ratio_mul(dp87_coupling(7, 8), ratio_pow(dp87_node(8), 3)) == (0int, 918094766145516579696472174661int));
    ratio_add_value(233488334807669616182455278801107452636889327075328int, 19976222545930804258621781882308896980289454080000000int, 0int, 918094766145516579696472174661int);
    assert(ratio_sum(|j: int| ratio_mul(dp87_coupling(7, j), ratio_pow(dp87_node(j), 3)), 9) == (233488334807669616182455278801107452636889327075328int, 19976222545930804258621781882308896980289454080000000int));
    assert(dp87_coupling(7, 9) == (0int, 1int));
    assert(dp87_node(9) == (13int, 20int));
    assert(ratio_pow(dp87_node(9), 0) == (1int, 1int));
    ratio_mul_value(1int, 1int, 13int, 20int);
    assert(ratio_pow(dp87_node(9), 1) == (13int, 20int));
    ratio_mul_value(13int, 20int, 13int, 20int);
    assert(ratio_pow(dp87_node(9), 2) == (169int, 400int));
    ratio_mul_value(169int, 400int, 13int, 20int);
    assert(ratio_pow(dp87_node(9), 3) == (2197int, 8000int));
    ratio_mul_value(0int, 1int, 2197int, 8000int);
    assert(ratio_mul(dp87_coupling(7, 9), ratio_pow(dp87_node(9), 3)) == (0int, 8000int));
    ratio_add_value(233488334807669616182455278801107452636889327075328int, 19976222545930804258621781882308896980289454080000000int, 0int, 8000int);
    assert(ratio_sum(|j: int| ratio_mul(dp87_coupling(7, j), ratio_pow(dp87_node(j), 3)), 10) == (233488334807669616182455278801107452636889327075328int, 19976222545930804258621781882308896980289454080000000int));
    assert(dp87_coupling(7, 10) == (0int, 1int));
    assert(dp87_node(10) == (1201146811int, 1299019798int));
    assert(ratio_pow(dp87_node(10), 0) == (1int, 1int));
    ratio_mul_value(1int, 1int, 1201146811int, 1299019798int);
    assert(ratio_pow(dp87_node(10), 1) == (1201146811int, 1299019798int));
    ratio_mul_value(1201146811int, 1299019798int, 1201146811int, 1299019798int);
    assert(ratio_pow(dp87_node(10), 2) == (1442753661575469721int, 1687452435595960804int));
    ratio_mul_value(1442753661575469721int, 1687452435595960804int, 1201146811int, 1299019798int);
    assert(ratio_pow(dp87_node(10), 3) == (1732958959659948691206209731int, 2192034122022473013227997592int));
    ratio_mul_value(0int, 1int, 1732958959659948691206209731int, 2192034122022473013227997592int);
    assert(ratio_mul(dp87_coupling(7, 10), ratio_pow(dp87_node(10), 3)) == (0int, 2192034122022473013227997592int));
    ratio_add_value(233488334807669616182455278801107452636889327075328int, 19976222545930804258621781882308896980289454080000000int, 0int, 2192034122022473013227997592int);
    assert(ratio_sum(|j: int| ratio_mul(dp87_coupling(7, j), ratio_pow(dp87_node(j), 3)), 11) == (233488334807669616182455278801107452636889327075328int, 19976222545930804258621781882308896980289454080000000int));
    assert(dp87_coupling(7, 11) == (0int, 1int));
    assert(dp87_node(11) == (1int, 1int));
    assert(ratio_pow(dp87_node(11), 0) == (1int, 1int));
    ratio_mul_value(1int, 1int, 1int, 1int);
    assert(ratio_pow(dp87_node(11), 1) == (1int, 1int));
    ratio_mul_value(1int, 1int, 1int, 1int);
    assert(ratio_pow(dp87_node(11), 2) == (1int, 1int));
    ratio_mul_value(1int, 1int, 1int, 1int);
    assert(ratio_pow(dp87_node(11), 3) == (1int, 1int));
    ratio_mul_value(0int, 1int, 1int, 1int);
    assert(ratio_mul(dp87_coupling(7, 11), ratio_pow(dp87_node(11), 3)) == (0int, 1int));
    ratio_add_value(233488334807669616182455278801107452636889327075328int, 19976222545930804258621781882308896980289454080000000int, 0int, 1int);
    assert(ratio_sum(|j: int| ratio_mul(dp87_coupling(7, j), ratio_pow(dp87_node(j), 3)), 12) == (233488334807669616182455278801107452636889327075328int, 19976222545930804258621781882308896980289454080000000int));
    assert(dp87_coupling(7, 12) == (0int, 1int));
    assert(dp87_node(12) == (1int, 1int));
    assert(ratio_pow(dp87_node(12), 0) == (1int, 1int));
    ratio_mul_value(1int, 1int, 1int, 1int);
    assert(ratio_pow(dp87_node(12), 1) == (1int, 1int));
    ratio_mul_value(1int, 1int, 1int, 1int);
    assert(ratio_pow(dp87_node(12), 2) == (1int, 1int));
    ratio_mul_value(1int, 1int, 1int, 1int);
    assert(ratio_pow(dp87_node(12), 3) == (1int, 1int));
    ratio_mul_value(0int, 1int, 1int, 1int);
    assert(ratio_mul(dp87_coupling(7, 12), ratio_pow(dp87_node(12), 3)) == (0int, 1int));
    ratio_add_value(233488334807669616182455278801107452636889327075328int, 19976222545930804258621781882308896980289454080000000int, 0int, 1int);
    assert(ratio_sum(|j: int| ratio_mul(dp87_coupling(7, j), ratio_pow(dp87_node(j), 3)), 13) == (233488334807669616182455278801107452636889327075328int, 19976222545930804258621781882308896980289454080000000int));
    assert(dp87_node(7) == (93int, 200int));
    assert(ratio_pow(dp87_node(7), 0) == (1int, 1int));
    ratio_mul_value(1int, 1int, 93int, 200int);
    assert(ratio_pow(dp87_node(7), 1) == (93int, 200int));
    ratio_mul_value(93int, 200int, 93int, 200int);
    assert(ratio_pow(dp87_node(7), 2) == (8649int, 40000int));
    ratio_mul_value(8649int, 40000int, 93int, 200int);
    assert(ratio_pow(dp87_node(7), 3) == (804357int, 8000000int));
    ratio_mul_value(804357int, 8000000int, 93int, 200int);
    assert(ratio_pow(dp87_node(7), 4) == (74805201int, 1600000000int));
    ratio_mul_value(74805201int, 1600000000int, 1int, 4int);
    assert(ratio_mul(ratio_pow(dp87_node(7), 4), (1, 4)) == (74805201int, 6400000000int));
    assert(within_1e14((233488334807669616182455278801107452636889327075328int, 19976222545930804258621781882308896980289454080000000int), (74805201int, 6400000000int))) by (nonlinear_arith);
}

/// The moment of degree 3 of row 8, exactly, stage by stage.
#[verifier::spinoff_prover]
proof fn stage_condition_8_3()
    ensures
        within_1e14(coupling_moment(8, 3), ratio_mul(ratio_pow(dp87_node(8), 4), (1, 4))),
{
    assert(ratio_sum(|j: int| ratio_mul(dp87_coupling(8, j), ratio_pow(dp87_node(j), 3)), 0) == (0int, 1int));
    assert(dp87_coupling(8, 0) == (39632708int, 573591083int));
    assert(dp87_node(0) == (0int, 1int));
    assert(ratio_pow(dp87_node(0), 0) == (1int, 1int));
    ratio_mul_value(1int, 1int, 0int, 1int);
    assert(ratio_pow(dp87_node(0), 1) == (0int, 1int));
    ratio_mul_value(0int, 1int, 0int, 1int);
    assert(ratio_pow(dp87_node(0), 2) == (0int, 1int));
    ratio_mul_value(0int, 1int, 0int, 1int);
    assert(ratio_pow(dp87_node(0), 3) == (0int, 1int));
    ratio_mul_value(39632708int, 573591083int, 0int, 1int);
    assert(ratio_mul(dp87_coupling(8, 0), ratio_pow(dp87_node(0), 3)) == (0int, 573591083int));
    ratio_add_value(0int, 1int, 0int, 573591083int);
    assert(ratio_sum(|j: int| ratio_mul(dp87_coupling(8, j), ratio_pow(dp87_node(j), 3)), 1) == (0int, 1int));
    assert(dp87_coupling(8, 1) == (0int, 1int));
    assert(dp87_node(1) == (1int, 18int));
    assert(ratio_pow(dp87_node(1), 0) == (1int, 1int));
    ratio_mul_value(1int, 1int, 1int, 18int);
    assert(ratio_pow(dp87_node(1), 1) == (1int, 18int));
    ratio_mul_value(1int, 18int, 1int, 18int);
    assert(ratio_pow(dp87_node(1), 2) == (1int, 324int));
    ratio_mul_value(1int, 324int, 1int, 18int);
    assert(ratio_pow(dp87_node(1), 3) == (1int, 5832int));
    ratio_mul_value(0int, 1int, 1int, 5832int);
    assert(ratio_mul(dp87_coupling(8, 1), ratio_pow(dp87_node(1), 3)) == (0int, 5832int));
    ratio_add_value(0int, 1int, 0int, 5832int);
    assert(ratio_sum(|j: int| ratio_mul(dp87_coupling(8, j), ratio_pow(dp87_node(j), 3)), 2) == (0int, 1int));
    assert(dp87_coupling(8, 2) == (0int, 1int));
    assert(dp87_node(2) == (1int, 12int));
    assert(ratio_pow(dp87_node(2), 0) == (1int, 1int));
    ratio_mul_value(1int, 1int, 1int, 12int);
    assert(ratio_pow(dp87_node(2), 1) == (1int, 12int));
    ratio_mul_value(1int, 12int, 1int, 12int);
    assert(ratio_pow(dp87_node(2), 2) == (1int, 144int));
    ratio_mul_value(1int, 144int, 1int, 12int);
    assert(ratio_pow(dp87_node(2), 3) == (1int, 1728int));
    ratio_mul_value(0int, 1int, 1int, 1728int);
    assert(ratio_mul(dp87_coupling(8, 2), ratio_pow(dp87_node(2), 3)) == (0int, 1728int));
    ratio_add_value(0int, 1int, 0int, 1728int);
    assert(ratio_sum(|j: int| ratio_mul(dp87_coupling(8, j), ratio_pow(dp87_node(j), 3)), 3) == (0int, 1int));
    assert(dp87_coupling(8, 3) == (-433636366int, 683701615int));
    assert(dp87_node(3) == (1int, 8int));
    assert(ratio_pow(dp87_node(3), 0) == (1int, 1int));
    ratio_mul_value(1int, 1int, 1int, 8int);
    assert(ratio_pow(dp87_node(3), 1) == (1int, 8int));
    ratio_mul_value(1int, 8int, 1int, 8int);
    assert(ratio_pow(dp87_node(3), 2) == (1int, 64int));
    ratio_mul_value(1int, 64int, 1int, 8int);
    assert(ratio_pow(dp87_node(3), 3) == (1int, 512int));
    ratio_mul_value(-433636366int, 683701615int, 1int, 512int);
    assert(ratio_mul(dp87_coupling(8, 3), ratio_pow(dp87_node(3), 3)) == (-433636366int, 350055226880int));
    ratio_add_value(0int, 1int, -433636366int, 350055226880int);
    assert(ratio_sum(|j: int| ratio_mul(dp87_coupling(8, j), ratio_pow(dp87_node(j), 3)), 4) == (-433636366int, 350055226880int));
    assert(dp87_coupling(8, 4) == (-421739975int, 2616292301int));
    assert(dp87_node(4) == (5int, 16int));
    assert(ratio_pow(dp87_node(4), 0) == (1int, 1int));
    ratio_mul_value(1int, 1int, 5int, 16int);
    assert(ratio_pow(dp87_node(4), 1) == (5int, 16int));
    ratio_mul_value(5int, 16int, 5int, 16int);
    assert(ratio_pow(dp87_node(4), 2) == (25int, 256int));
    ratio_mul_value(25int, 256int, 5int, 16int);
    assert(ratio_pow(dp87_node(4), 3) == (125int, 4096int));
    ratio_mul_value(-421739975int, 2616292301int, 125int, 4096int);
    assert(ratio_mul(dp87_coupling(8, 4), ratio_pow(dp87_node(4), 3)) == (-52717496875int, 10716333264896int));
    ratio_add_value(-433636366int, 350055226880int, -52717496875int, 10716333264896int);
    assert(ratio_sum(|j: int| ratio_mul(dp87_coupling(8, j), ratio_pow(dp87_node(j), 3)), 5) == (-23101027142958232807936int, 3751308472364860419604480int));
    assert(dp87_coupling(8, 5) == (100302831int, 723423059int));
    assert(dp87_node(5) == (3int, 8int));
    assert(ratio_pow(dp87_node(5), 0) == (1int, 1int));
    ratio_mul_value(1int, 1int, 3int, 8int);
    assert(ratio_pow(dp87_node(5), 1) == (3int, 8int));
    ratio_mul_value(3int, 8int, 3int, 8int);
    assert(ratio_pow(dp87_node(5), 2) == (9int, 64int));
    ratio_mul_value(9int, 64int, 3int, 8int);
    assert(ratio_pow(dp87_node(5), 3) == (27int, 512int));
    ratio_mul_value(100302831int, 723423059int, 27int, 512int);
    assert(ratio_mul(dp87_coupling(8, 5), ratio_pow(dp87_node(5), 3)) == (2708176437int, 370392606208int));
    ratio_add_value(-23101027142958232807936int, 3751308472364860419604480int, 2708176437int, 370392606208int);
    assert(ratio_sum(|j: int| ratio_mul(dp87_coupling(8, j), ratio_pow(dp87_node(j), 3)), 6) == (1602755563214932610545360650371072int, 1389456921769371795895447803752611840int));
    assert(dp87_coupling(8, 6) == (790204164int, 839813087int));
    assert(dp87_node(6) == (59int, 400int));
    assert(ratio_pow(dp87_node(6), 0) == (1int, 1int));
    ratio_mul_value(1int, 1int, 59int, 400int);
    assert(ratio_pow(dp87_node(6), 1) == (59int, 400int));
    ratio_mul_value(59int, 400int, 59int, 400int);
    assert(ratio_pow(dp87_node(6), 2) == (3481int, 160000int));
    ratio_mul_value(3481int, 160000int, 59int, 400int);
    assert(ratio_pow(dp87_node(6), 3) == (205379int, 64000000int));
    ratio_mul_value(790204164int, 839813087int, 205379int, 64000000int);
    assert(ratio_mul(dp87_coupling(8, 6), ratio_pow(dp87_node(6), 3)) == (162291340998156int, 53748037568000000int));
    ratio_add_value(1602755563214932610545360650371072int, 1389456921769371795895447803752611840int, 162291340998156int, 53748037568000000int);
    assert(ratio_sum(|j: int| ratio_mul(dp87_coupling(8, j), ratio_pow(dp87_node(j), 3)), 7) == (311641793317118479729888155479138293012390519767040int, 74680582830377832317548156756278472554441605120000000int));
    assert(dp87_coupling(8, 7) == (800635310int, 3783071287int));
    assert(dp87_node(7) == (93int, 200int));
    assert(ratio_pow(dp87_node(7), 0) == (1int, 1int));
    ratio_mul_value(1int, 1int, 93int, 200int);
    assert(ratio_pow(dp87_node(7), 1) == (93int, 200int));
    ratio_mul_value(93int, 200int, 93int, 200int);
    assert(ratio_pow(dp87_node(7), 2) == (8649int, 40000int));
    ratio_mul_value(8649int, 40000int, 93int, 200int);
    assert(ratio_pow(dp87_node(7), 3) == (804357int, 8000000int));
    ratio_mul_value(800635310int, 3783071287int, 804357int, 8000000int);
    assert(ratio_mul(dp87_coupling(8, 7), ratio_pow(dp87_node(7), 3)) == (643996616045670int, 30264570296000000int));
    ratio_add_value(311641793317118479729888155479138293012390519767040int, 74680582830377832317548156756278472554441605120000000int, 643996616045670int, 30264570296000000int);
    assert(ratio_sum(|j: int| ratio_mul(dp87_coupling(8, j), ratio_pow(dp87_node(j), 3)), 8) == (57525747588099123481725657143739455828147445792943181649674240000000int, 2260175748816220550414536784515617171975404645181313515520000000000000int));
    assert(dp87_coupling(8, 8) == (0int, 1int));
    assert(dp87_node(8) == (5490023248int, 9719169821int));
    assert(ratio_pow(dp87_node(8), 0) == (1int, 1int));
    ratio_mul_value(1int, 1int, 5490023248int, 9719169821int);
    assert(ratio_pow(dp87_node(8), 1) == (5490023248int, 9719169821int));
    ratio_mul_value(5490023248int, 9719169821int, 5490023248int, 9719169821int);
    assert(ratio_pow(dp87_node(8), 2) == (30140355263580469504int, 94462262009437172041int));
    ratio_mul_value(30140355263580469504int, 94462262009437172041int, 5490023248int, 9719169821int);
    assert(ratio_pow(dp87_node(8), 3) == (165471251100035945295715028992int, 918094766145516579696472174661int));
    ratio_mul_value(0int, 1int, 165471251100035945295715028992int, 918094766145516579696472174661int);
    assert(ratio_mul(dp87_coupling(8, 8), ratio_pow(dp87_node(8), 3)) == (0int, 918094766145516579696472174661int));
    ratio_add_value(57525747588099123481725657143739455828147445792943181649674240000000int, 2260175748816220550414536784515617171975404645181313515520000000000000int, 0int, 918094766145516579696472174661int);
    assert(ratio_sum(|j: int| ratio_mul(dp87_coupling(8, j), ratio_pow(dp87_node(j), 3)), 9) == (57525747588099123481725657143739455828147445792943181649674240000000int, 2260175748816220550414536784515617171975404645181313515520000000000000int));
    assert(dp87_coupling(8, 9) == (0int, 1int));
    assert(dp87_node(9) == (13int, 20int));
    assert(ratio_pow(dp87_node(9), 0) == (1int, 1int));
    ratio_mul_value(1int, 1int, 13int, 20int);
    assert(ratio_pow(dp87_node(9), 1) == (13int, 20int));
    ratio_mul_value(13int, 20int, 13int, 20int);
    assert(ratio_pow(dp87_node(9), 2) == (169int, 400int));
    ratio_mul_value(169int, 400int, 13int, 20int);
    assert(ratio_pow(dp87_node(9), 3) == (2197int, 8000int));
    ratio_mul_value(0int, 1int, 2197int, 8000int);
    assert(ratio_mul(dp87_coupling(8, 9), ratio_pow(dp87_node(9), 3)) == (0int, 8000int));
    ratio_add_value(57525747588099123481725657143739455828147445792943181649674240000000int, 2260175748816220550414536784515617171975404645181313515520000000000000int, 0int, 8000int);
    assert(ratio_sum(|j: int| ratio_mul(dp87_coupling(8, j), ratio_pow(dp87_node(j), 3)), 10) == (57525747588099123481725657143739455828147445792943181649674240000000int, 2260175748816220550414536784515617171975404645181313515520000000000000int));
    assert(dp87_coupling(8, 10) == (0int, 1int));
    assert(dp87_node(10) == (1201146811int, 1299019798int));
    assert(ratio_pow(dp87_node(10), 0) == (1int, 1int));
    ratio_mul_value(1int, 1int, 1201146811int, 1299019798int);
    assert(ratio_pow(dp87_node(10), 1) == (1201146811int, 1299019798int));
    ratio_mul_value(1201146811int, 1299019798int, 1201146811int, 1299019798int);
    assert(ratio_pow(dp87_node(10), 2) == (1442753661575469721int, 1687452435595960804int));
    ratio_mul_value(1442753661575469721int, 1687452435595960804int, 1201146811int, 1299019798int);
    assert(ratio_pow(dp87_node(10), 3) == (1732958959659948691206209731int, 2192034122022473013227997592int));
    ratio_mul_value(0int, 1int, 1732958959659948691206209731int, 2192034122022473013227997592int);
    assert(ratio_mul(dp87_coupling(8, 10), ratio_pow(dp87_node(10), 3)) == (0int, 2192034122022473013227997592int));
    ratio_add_value(57525747588099123481725657143739455828147445792943181649674240000000int, 2260175748816220550414536784515617171975404645181313515520000000000000int, 0int, 2192034122022473013227997592int);
    assert(ratio_sum(|j: int| ratio_mul(dp87_coupling(8, j), ratio_pow(dp87_node(j), 3)), 11) == (57525747588099123481725657143739455828147445792943181649674240000000int, 2260175748816220550414536784515617171975404645181313515520000000000000int));
    assert(dp87_coupling(8, 11) == (0int, 1int));
    assert(dp87_node(11) == (1int, 1int));
    assert(ratio_pow(dp87_node(11), 0) == (1int, 1int));
    ratio_mul_value(1int, 1int, 1int, 1int);
    assert(ratio_pow(dp87_node(11), 1) == (1int, 1int));
    ratio_mul_value(1int, 1int, 1int, 1int);
    assert(ratio_pow(dp87_node(11), 2) == (1int, 1int));
    ratio_mul_value(1int, 1int, 1int, 1int);
    assert(ratio_pow(dp87_node(11), 3) == (1int, 1int));
    ratio_mul_value(0int, 1int, 1int, 1int);
    assert(ratio_mul(dp87_coupling(8, 11), ratio_pow(dp87_node(11), 3)) == (0int, 1int));
    ratio_add_value(57525747588099123481725657143739455828147445792943181649674240000000int, 2260175748816220550414536784515617171975404645181313515520000000000000int, 0int, 1int);
    assert(ratio_sum(|j: int| ratio_mul(dp87_coupling(8, j), ratio_pow(dp87_node(j), 3)), 12) == (57525747588099123481725657143739455828147445792943181649674240000000int, 2260175748816220550414536784515617171975404645181313515520000000000000int));
    assert(dp87_coupling(8, 12) == (0int, 1int));
    assert(dp87_node(12) == (1int, 1int));
    assert(ratio_pow(dp87_node(12), 0) == (1int, 1int));
    ratio_mul_value(1int, 1int, 1int, 1int);
    assert(ratio_pow(dp87_node(12), 1) == (1int, 1int));
    ratio_mul_value(1int, 1int, 1int, 1int);
    assert(ratio_pow(dp87_node(12), 2) == (1int, 1int));
    ratio_mul_value(1int, 1int, 1int, 1int);
    assert(ratio_pow(dp87_node(12), 3) == (1int, 1int));
    ratio_mul_value(0int, 1int, 1int, 1int);
    assert(ratio_mul(dp87_coupling(8, 12), ratio_pow(dp87_node(12), 3)) == (0int, 1int));
    ratio_add_value(57525747588099123481725657143739455828147445792943181649674240000000int, 2260175748816220550414536784515617171975404645181313515520000000000000int, 0int, 1int);
    assert(ratio_sum(|j: int| ratio_mul(dp87_coupling(8, j), ratio_pow(dp87_node(j), 3)), 13) == (57525747588099123481725657143739455828147445792943181649674240000000int, 2260175748816220550414536784515617171975404645181313515520000000000000int));
    assert(dp87_node(8) == (5490023248int, 9719169821int));
    assert(ratio_pow(dp87_node(8), 0) == (1int, 1int));
    ratio_mul_value(1int, 1int, 5490023248int, 9719169821int);
    assert(ratio_pow(dp87_node(8), 1) == (5490023248int, 9719169821int));
    ratio_mul_value(5490023248int, 9719169821int, 5490023248int, 9719169821int);
    assert(ratio_pow(dp87_node(8), 2) == (30140355263580469504int, 94462262009437172041int));
    ratio_mul_value(30140355263580469504int, 94462262009437172041int, 5490023248int, 9719169821int);
    assert(ratio_pow(dp87_node(8), 3) == (165471251100035945295715028992int, 918094766145516579696472174661int));
    ratio_mul_value(165471251100035945295715028992int, 918094766145516579696472174661int, 5490023248int, 9719169821int);
    assert(ratio_pow(dp87_node(8), 4) == (908441015414842913309131743949074006016int, 8923118943939557235841093700131432105681int));
    ratio_mul_value(908441015414842913309131743949074006016int, 8923118943939557235841093700131432105681int, 1int, 4int);
    assert(ratio_mul(ratio_pow(dp87_node(8), 4), (1, 4)) == (908441015414842913309131743949074006016int, 35692475775758228943364374800525728422724int));
    assert(within_1e14((57525747588099123481725657143739455828147445792943181649674240000000int, 2260175748816220550414536784515617171975404645181313515520000000000000int), (908441015414842913309131743949074006016int, 35692475775758228943364374800525728422724int))) by (nonlinear_arith);
}

/// The moment of degree 3 of row 9, exactly, stage by stage.
#[verifier::spinoff_prover]
proof fn stage_condition_9_3()
    ensures
        within_1e14(coupling_moment(9, 3), ratio_mul(ratio_pow(dp87_node(9), 4), (1, 4))),
{
    assert(ratio_sum(|j: int| ratio_mul(dp87_coupling(9, j), ratio_pow(dp87_node(j), 3)), 0) == (0int, 1int));
    assert(dp87_coupling(9, 0) == (246121993int, 1340847787int));
    assert(dp87_node(0) == (0int, 1int));
    assert(ratio_pow(dp87_node(0), 0) == (1int, 1int));
    ratio_mul_value(1int, 1int, 0int, 1int);
    assert(ratio_pow(dp87_node(0), 1) == (0int, 1int));
    ratio_mul_value(0int, 1int, 0int, 1int);
    assert(ratio_pow(dp87_node(0), 2) == (0int, 1int));
    ratio_mul_value(0int, 1int, 0int, 1int);
    assert(ratio_pow(dp87_node(0), 3) == (0int, 1int));
    ratio_mul_value(246121993int, 1340847787int, 0int, 1int);
    assert(ratio_mul(dp87_coupling(9, 0), ratio_pow(dp87_node(0), 3)) == (0int, 1340847787int));
    ratio_add_value(0int, 1int, 0int, 1340847787int);
    assert(ratio_sum(|j: int| ratio_mul(dp87_coupling(9, j), ratio_pow(dp87_node(j), 3)), 1) == (0int, 1int));
    assert(dp87_coupling(9, 1) == (0int, 1int));
    assert(dp87_node(1) == (1int, 18int));
    assert(ratio_pow(dp87_node(1), 0) == (1int, 1int));
    ratio_mul_value(1int, 1int, 1int, 18int);
    assert(ratio_pow(dp87_node(1), 1) == (1int, 18int));
    ratio_mul_value(1int, 18int, 1int, 18int);
    assert(ratio_pow(dp87_node(1), 2) == (1int, 324int));
    ratio_mul_value(1int, 324int, 1int, 18int);
    assert(ratio_pow(dp87_node(1), 3) == (1int, 5832int));
    ratio_mul_value(0int, 1int, 1int, 5832int);
    assert(ratio_mul(dp87_coupling(9, 1), ratio_pow(dp87_node(1), 3)) == (0int, 5832int));
    ratio_add_value(0int, 1int, 0int, 5832int);
    assert(ratio_sum(|j: int| ratio_mul(dp87_coupling(9, j), ratio_pow(dp87_node(j), 3)), 2) == (0int, 1int));
    assert(dp87_coupling(9, 2) == (0int, 1int));
    assert(dp87_node(2) == (1int, 12int));
    assert(ratio_pow(dp87_node(2), 0) == (1int, 1int));
    ratio_mul_value(1int, 1int, 1int, 12int);
    assert(ratio_pow(dp87_node(2), 1) == (1int, 12int));
    ratio_mul_value(1int, 12int, 1int, 12int);
    assert(ratio_pow(dp87_node(2), 2) == (1int, 144int));
    ratio_mul_value(1int, 144int, 1int, 12int);
    assert(ratio_pow(dp87_node(2), 3) == (1int, 1728int));
    ratio_mul_value(0int, 1int, 1int, 1728int);
    assert(ratio_mul(dp87_coupling(9, 2), ratio_pow(dp87_node(2), 3)) == (0int, 1728int));
    ratio_add_value(0int, 1int, 0int, 1728int);
    assert(ratio_sum(|j: int| ratio_mul(dp87_coupling(9, j), ratio_pow(dp87_node(j), 3)), 3) == (0int, 1int));
    assert(dp87_coupling(9, 3) == (-37695042795int, 15268766246int));
    assert(dp87_node(3) == (1int, 8int));
    assert(ratio_pow(dp87_node(3), 0) == (1int, 1int));
    ratio_mul_value(1int, 1int, 1int, 8int);
    assert(ratio_pow(dp87_node(3), 1) == (1int, 8int));
    ratio_mul_value(1int, 8int, 1int, 8int);
    assert(ratio_pow(dp87_node(3), 2) == (1int, 64int));
    ratio_mul_value(1int, 64int, 1int, 8int);
    assert(ratio_pow(dp87_node(3), 3) == (1int, 512int));
    ratio_mul_value(-37695042795int, 15268766246int, 1int, 512int);
    assert(ratio_mul(dp87_coupling(9, 3), ratio_pow(dp87_node(3), 3)) == (-37695042795int, 7817608317952int));
    ratio_add_value(0int, 1int, -37695042795int, 7817608317952int);
    assert(ratio_sum(|j: int| ratio_mul(dp87_coupling(9, j), ratio_pow(dp87_node(j), 3)), 4) == (-37695042795int, 7817608317952int));
    assert(dp87_coupling(9, 4) == (-309121744int, 1061227803int));
    assert(dp87_node(4) == (5int, 16int));
    assert(ratio_pow(dp87_node(4), 0) == (1int, 1int));
    ratio_mul_value(1int, 1int, 5int, 16int);
    assert(ratio_pow(dp87_node(4), 1) == (5int, 16int));
    ratio_mul_value(5int, 16int, 5int, 16int);
    assert(ratio_pow(dp87_node(4), 2) == (25int, 256int));
    ratio_mul_value(25int, 256int, 5int, 16int);
    assert(ratio_pow(dp87_node(4), 3) == (125int, 4096int));
    ratio_mul_value(-309121744int, 1061227803int, 125int, 4096int);
    assert(ratio_mul(dp87_coupling(9, 4), ratio_pow(dp87_node(4), 3)) == (-38640218000int, 4346789081088int));
    ratio_add_value(-37695042795int, 7817608317952int, -38640218000int, 4346789081088int);
    assert(ratio_sum(|j: int| ratio_mul(dp87_coupling(9, j), ratio_pow(dp87_node(j), 3)), 5) == (-465926490076729478696960int, 33981494476696479414091776int));
    assert(dp87_coupling(9, 5) == (-12992083int, 490766935int));
    assert(dp87_node(5) == (3int, 8int));
    assert(ratio_pow(dp87_node(5), 0) == (1int, 1int));
    ratio_mul_value(1int, 1int, 3int, 8int);
    assert(ratio_pow(dp87_node(5), 1) == (3int, 8int));
    ratio_mul_value(3int, 8int, 3int, 8int);
    assert(ratio_pow(dp87_node(5), 2) == (9int, 64int));
    ratio_mul_value(9int, 64int, 3int, 8int);
    assert(ratio_pow(dp87_node(5), 3) == (27int, 512int));
    ratio_mul_value(-12992083int, 490766935int, 27int, 512int);
    assert(ratio_mul(dp87_coupling(9, 5), ratio_pow(dp87_node(5), 3)) == (-350786241int, 251272670720int));
    ratio_add_value(-465926490076729478696960int, 33981494476696479414091776int, -350786241int, 251272670720int);
    assert(ratio_sum(|j: int| ratio_mul(dp87_coupling(9, j), ratio_pow(dp87_node(j), 3)), 6) == (-128994834231818013946741621277065216int, 8538620872216453185200341358707998720int));
    assert(dp87_coupling(9, 6) == (6005943493int, 2108947869int));
    assert(dp87_node(6) == (59int, 400int));
    assert(ratio_pow(dp87_node(6), 0) == (1int, 1int));
    ratio_mul_value(1int, 1int, 59int, 400int);
    assert(ratio_pow(dp87_node(6), 1) == (59int, 400int));
    ratio_mul_value(59int, 400int, 59int, 400int);
    assert(ratio_pow(dp87_node(6), 2) == (3481int, 160000int));
    ratio_mul_value(3481int, 160000int, 59int, 400int);
    assert(ratio_pow(dp87_node(6), 3) == (205379int, 64000000int));
    ratio_mul_value(6005943493int, 2108947869int, 205379int, 64000000int);
    assert(ratio_mul(dp87_coupling(9, 6), ratio_pow(dp87_node(6), 3)) == (1233494668648847int, 134972663616000000int));
    ratio_add_value(-128994834231818013946741621277065216int, 8538620872216453185200341358707998720int, 1233494668648847int, 134972663616000000int);
    assert(ratio_sum(|j: int| ratio_mul(dp87_coupling(9, j), ratio_pow(dp87_node(j), 3)), 7) == (-6878433045480091677671486810291914055217947250524160int, 1152480402730227856106657423777267103603118571520000000int));
    assert(dp87_coupling(9, 7) == (393006217int, 1396673457int));
    assert(dp87_node(7) == (93int, 200int));
    assert(ratio_pow(dp87_node(7), 0) == (1int, 1int));
    ratio_mul_value(1int, 1int, 93int, 200int);
    assert(ratio_pow(dp87_node(7), 1) == (93int, 200int));
    ratio_mul_value(93int, 200int, 93int, 200int);
    assert(ratio_pow(dp87_node(7), 2) == (8649int, 40000int));
    ratio_mul_value(8649int, 40000int, 93int, 200int);
    assert(ratio_pow(dp87_node(7), 3) == (804357int, 8000000int));
    ratio_mul_value(393006217int, 1396673457int, 804357int, 8000000int);
    assert(ratio_mul(dp87_coupling(9, 7), ratio_pow(dp87_node(7), 3)) == (316117301687469int, 11173387656000000int));
    ratio_add_value(-6878433045480091677671486810291914055217947250524160int, 1152480402730227856106657423777267103603118571520000000int, 316117301687469int, 11173387656000000int);
    assert(ratio_sum(|j: int| ratio_mul(dp87_coupling(9, j), ratio_pow(dp87_node(j), 3)), 8) == (287463596275777468026957005396588088152654142260144399890513920000000int, 12877110305647836625489470278253677148813958170125921157120000000000000int));
    assert(dp87_coupling(9, 8) == (123872331int, 1001029789int));
    assert(dp87_node(8) == (5490023248int, 9719169821int));
    assert(ratio_pow(dp87_node(8), 0) == (1int, 1int));
    ratio_mul_value(1int, 1int, 5490023248int, 9719169821int);
    assert(ratio_pow(dp87_node(8), 1) == (5490023248int, 9719169821int));
    ratio_mul_value(5490023248int, 9719169821int, 5490023248int, 9719169821int);
    assert(ratio_pow(dp87_node(8), 2) == (30140355263580469504int, 94462262009437172041int));
    ratio_mul_value(30140355263580469504int, 94462262009437172041int, 5490023248int, 9719169821int);
    assert(ratio_pow(dp87_node(8), 3) == (165471251100035945295715028992int, 918094766145516579696472174661int));
    ratio_mul_value(123872331int, 1001029789int, 165471251100035945295715028992int, 918094766145516579696472174661int);
    assert(ratio_mul(dp87_coupling(9, 8), ratio_pow(dp87_node(8), 3)) == (20497309587247766727568704952971620352int, 919040210036650805069561225045271976529int));
    ratio_add_value(287463596275777468026957005396588088152654142260144399890513920000000int, 12877110305647836625489470278253677148813958170125921157120000000000000int, 20497309587247766727568704952971620352int, 919040210036650805069561225045271976529int);
    assert(ratio_sum(|j: int| ratio_mul(dp87_coupling(9, j), ratio_pow(dp87_node(j), 3)), 9) == (528136720423183935750888076225676475223493537429812047295592805764516420854062235895991318062227783680000000int, 11834582159967708418007070944051650654627299282323081173654199555376746116008213163599641161236480000000000000int));
    assert(dp87_coupling(9, 9) == (0int, 1int));
    assert(dp87_node(9) == (13int, 20int));
    assert(ratio_pow(dp87_node(9), 0) == (1int, 1int));
    ratio_mul_value(1int, 1int, 13int, 20int);
    assert(ratio_pow(dp87_node(9), 1) == (13int, 20int));
    ratio_mul_value(13int, 20int, 13int, 20int);
    assert(ratio_pow(dp87_node(9), 2) == (169int, 400int));
    ratio_mul_value(169int, 400int, 13int, 20int);
    assert(ratio_pow(dp87_node(9), 3) == (2197int, 8000int));
    ratio_mul_value(0int, 1int, 2197int, 8000int);
    assert(ratio_mul(dp87_coupling(9, 9), ratio_pow(dp87_node(9), 3)) == (0int, 8000int));
    ratio_add_value(528136720423183935750888076225676475223493537429812047295592805764516420854062235895991318062227783680000000int, 11834582159967708418007070944051650654627299282323081173654199555376746116008213163599641161236480000000000000int, 0int, 8000int);
    assert(ratio_sum(|j: int| ratio_mul(dp87_coupling(9, j), ratio_pow(dp87_node(j), 3)), 10) == (528136720423183935750888076225676475223493537429812047295592805764516420854062235895991318062227783680000000int, 11834582159967708418007070944051650654627299282323081173654199555376746116008213163599641161236480000000000000int));
    assert(dp87_coupling(9, 10) == (0int, 1int));
    assert(dp87_node(10) == (1201146811int, 1299019798int));
    assert(ratio_pow(dp87_node(10), 0) == (1int, 1int));
    ratio_mul_value(1int, 1int, 1201146811int, 1299019798int);
    assert(ratio_pow(dp87_node(10), 1) == (1201146811int, 1299019798int));
    ratio_mul_value(1201146811int, 1299019798int, 1201146811int, 1299019798int);
    assert(ratio_pow(dp87_node(10), 2) == (1442753661575469721int, 1687452435595960804int));
    ratio_mul_value(1442753661575469721int, 1687452435595960804int, 1201146811int, 1299019798int);
    assert(ratio_pow(dp87_node(10), 3) == (1732958959659948691206209731int, 2192034122022473013227997592int));
    ratio_mul_value(0int, 1int, 1732958959659948691206209731int, 2192034122022473013227997592int);
    assert(ratio_mul(dp87_coupling(9, 10), ratio_pow(dp87_node(10), 3)) == (0int, 2192034122022473013227997592int));
    ratio_add_value(528136720423183935750888076225676475223493537429812047295592805764516420854062235895991318062227783680000000int, 11834582159967708418007070944051650654627299282323081173654199555376746116008213163599641161236480000000000000int, 0int, 2192034122022473013227997592int);
    assert(ratio_sum(|j: int| ratio_mul(dp87_coupling(9, j), ratio_pow(dp87_node(j), 3)), 11) == (528136720423183935750888076225676475223493537429812047295592805764516420854062235895991318062227783680000000int, 11834582159967708418007070944051650654627299282323081173654199555376746116008213163599641161236480000000000000int));
    assert(dp87_coupling(9, 11) == (0int, 1int));
    assert(dp87_node(11) == (1int, 1int));
    assert(ratio_pow(dp87_node(11), 0) == (1int, 1int));
    ratio_mul_value(1int, 1int, 1int, 1int);
    assert(ratio_pow(dp87_node(11), 1) == (1int, 1int));
    ratio_mul_value(1int, 1int, 1int, 1int);
    assert(ratio_pow(dp87_node(11), 2) == (1int, 1int));
    ratio_mul_value(1int, 1int, 1int, 1int);
    assert(ratio_pow(dp87_node(11), 3) == (1int, 1int));
    ratio_mul_value(0int, 1int, 1int, 1int);
    assert(ratio_mul(dp87_coupling(9, 11), ratio_pow(dp87_node(11), 3)) == (0int, 1int));
    ratio_add_value(528136720423183935750888076225676475223493537429812047295592805764516420854062235895991318062227783680000000int, 11834582159967708418007070944051650654627299282323081173654199555376746116008213163599641161236480000000000000int, 0int, 1int);
    assert(ratio_sum(|j: int| ratio_mul(dp87_coupling(9, j), ratio_pow(dp87_node(j), 3)), 12) == (528136720423183935750888076225676475223493537429812047295592805764516420854062235895991318062227783680000000int, 11834582159967708418007070944051650654627299282323081173654199555376746116008213163599641161236480000000000000int));
    assert(dp87_coupling(9, 12) == (0int, 1int));
    assert(dp87_node(12) == (1int, 1int));
    assert(ratio_pow(dp87_node(12), 0) == (1int, 1int));
    ratio_mul_value(1int, 1int, 1int, 1int);
    assert(ratio_pow(dp87_node(12), 1) == (1int, 1int));
    ratio_mul_value(1int, 1int, 1int, 1int);
    assert(ratio_pow(dp87_node(12), 2) == (1int, 1int));
    ratio_mul_value(1int, 1int, 1int, 1int);
    assert(ratio_pow(dp87_node(12), 3) == (1int, 1int));
    ratio_mul_value(0int, 1int, 1int, 1int);
    assert(ratio_mul(dp87_coupling(9, 12), ratio_pow(dp87_node(12), 3)) == (0int, 1int));
    ratio_add_value(528136720423183935750888076225676475223493537429812047295592805764516420854062235895991318062227783680000000int, 11834582159967708418007070944051650654627299282323081173654199555376746116008213163599641161236480000000000000int, 0int, 1int);
    assert(ratio_sum(|j: int| ratio_mul(dp87_coupling(9, j), ratio_pow(dp87_node(j), 3)), 13) == (528136720423183935750888076225676475223493537429812047295592805764516420854062235895991318062227783680000000int, 11834582159967708418007070944051650654627299282323081173654199555376746116008213163599641161236480000000000000int));
    assert(dp87_node(9) == (13int, 20int));
    assert(ratio_pow(dp87_node(9), 0) == (1int, 1int));
    ratio_mul_value(1int, 1int, 13int, 20int);
    assert(ratio_pow(dp87_node(9), 1) == (13int, 20int));
    ratio_mul_value(13int, 20int, 13int, 20int);
    assert(ratio_pow(dp87_node(9), 2) == (169int, 400int));
    ratio_mul_value(169int, 400int, 13int, 20int);
    assert(ratio_pow(dp87_node(9), 3) == (2197int, 8000int));
    ratio_mul_value(2197int, 8000int, 13int, 20int);
    assert(ratio_pow(dp87_node(9), 4) == (28561int, 160000int));
    ratio_mul_value(28561int, 160000int, 1int, 4int);
    assert(ratio_mul(ratio_pow(dp87_node(9), 4), (1, 4)) == (28561int, 640000int));
    assert(within_1e14((528136720423183935750888076225676475223493537429812047295592805764516420854062235895991318062227783680000000int, 11834582159967708418007070944051650654627299282323081173654199555376746116008213163599641161236480000000000000int), (28561int, 640000int))) by (nonlinear_arith);
}

/// The moment of degree 3 of row 10, exactly, stage by stage.
#[verifier::spinoff_prover]
proof fn stage_condition_10_3()
    ensures
        within_1e14(coupling_moment(10, 3), ratio_mul(ratio_pow(dp87_node(10), 4), (1, 4))),
{
    assert(ratio_sum(|j: int| ratio_mul(dp87_coupling(10, j), ratio_pow(dp87_node(j), 3)), 0) == (0int, 1int));
    assert(dp87_coupling(10, 0) == (-1028468189int, 846180014int));
    assert(dp87_node(0) == (0int, 1int));
    assert(ratio_pow(dp87_node(0), 0) == (1int, 1int));
    ratio_mul_value(1int, 1int, 0int, 1int);
    assert(ratio_pow(dp87_node(0), 1) == (0int, 1int));
    ratio_mul_value(0int, 1int, 0int, 1int);
    assert(ratio_pow(dp87_node(0), 2) == (0int, 1int));
    ratio_mul_value(0int, 1int, 0int, 1int);
    assert(ratio_pow(dp87_node(0), 3) == (0int, 1int));
    ratio_mul_value(-1028468189int, 846180014int, 0int, 1int);
    assert(ratio_mul(dp87_coupling(10, 0), ratio_pow(dp87_node(0), 3)) == (0int, 846180014int));
    ratio_add_value(0int, 1int, 0int, 846180014int);
    assert(ratio_sum(|j: int| ratio_mul(dp87_coupling(10, j), ratio_pow(dp87_node(j), 3)), 1) == (0int, 1int));
    assert(dp87_coupling(10, 1) == (0int, 1int));
    assert(dp87_node(1) == (1int, 18int));
    assert(ratio_pow(dp87_node(1), 0) == (1int, 1int));
    ratio_mul_value(1int, 1int, 1int, 18int);
    assert(ratio_pow(dp87_node(1), 1) == (1int, 18int));
    ratio_mul_value(1int, 18int, 1int, 18int);
    assert(ratio_pow(dp87_node(1), 2) == (1int, 324int));
    ratio_mul_value(1int, 324int, 1int, 18int);
    assert(ratio_pow(dp87_node(1), 3) == (1int, 5832int));
    ratio_mul_value(0int, 1int, 1int, 5832int);
    assert(ratio_mul(dp87_coupling(10, 1), ratio_pow(dp87_node(1), 3)) == (0int, 5832int));
    ratio_add_value(0int, 1int, 0int, 5832int);
    assert(ratio_sum(|j: int| ratio_mul(dp87_coupling(10, j), ratio_pow(dp87_node(j), 3)), 2) == (0int, 1int));
    assert(dp87_coupling(10, 2) == (0int, 1int));
    assert(dp87_node(2) == (1int, 12int));
    assert(ratio_pow(dp87_node(2), 0) == (1int, 1int));
    ratio_mul_value(1int, 1int, 1int, 12int);
    assert(ratio_pow(dp87_node(2), 1) == (1int, 12int));
    ratio_mul_value(1int, 12int, 1int, 12int);
    assert(ratio_pow(dp87_node(2), 2) == (1int, 144int));
    ratio_mul_value(1int, 144int, 1int, 12int);
    assert(ratio_pow(dp87_node(2), 3) == (1int, 1728int));
    ratio_mul_value(0int, 1int, 1int, 1728int);
    assert(ratio_mul(dp87_coupling(10, 2), ratio_pow(dp87_node(2), 3)) == (0int, 1728int));
    ratio_add_value(0int, 1int, 0int, 1728int);
    assert(ratio_sum(|j: int| ratio_mul(dp87_coupling(10, j), ratio_pow(dp87_node(j), 3)), 3) == (0int, 1int));
    assert(dp87_coupling(10, 3) == (8478235783int, 508512852int));
    assert(dp87_node(3) == (1int, 8int));
    assert(ratio_pow(dp87_node(3), 0) == (1int, 1int));
    ratio_mul_value(1int, 1int, 1int, 8int);
    assert(ratio_pow(dp87_node(3), 1) == (1int, 8int));
    ratio_mul_value(1int, 8int, 1int, 8int);
    assert(ratio_pow(dp87_node(3), 2) == (1int, 64int));
    ratio_mul_value(1int, 64int, 1int, 8int);
    assert(ratio_pow(dp87_node(3), 3) == (1int, 512int));
    ratio_mul_value(8478235783int, 508512852int, 1int, 512int);
    assert(ratio_mul(dp87_coupling(10, 3), ratio_pow(dp87_node(3), 3)) == (8478235783int, 260358580224int));
    ratio_add_value(0int, 1int, 8478235783int, 260358580224int);
    assert(ratio_sum(|j: int| ratio_mul(dp87_coupling(10, j), ratio_pow(dp87_node(j), 3)), 4) == (8478235783int, 260358580224int));
    assert(dp87_coupling(10, 4) == (1311729495int, 1432422823int));
    assert(dp87_node(4) == (5int, 16int));
    assert(ratio_pow(dp87_node(4), 0) == (1int, 1int));
    ratio_mul_value(1int, 1int, 5int, 16int);
    assert(ratio_pow(dp87_node(4), 1) == (5int, 16int));
    ratio_mul_value(5int, 16int, 5int, 16int);
    assert(ratio_pow(dp87_node(4), 2) == (25int, 256int));
    ratio_mul_value(25int, 256int, 5int, 16int);
    assert(ratio_pow(dp87_node(4), 3) == (125int, 4096int));
    ratio_mul_value(1311729495int, 1432422823int, 125int, 4096int);
    assert(ratio_mul(dp87_coupling(10, 4), ratio_pow(dp87_node(4), 3)) == (163966186875int, 5867203883008int));
    ratio_add_value(8478235783int, 260358580224int, 163966186875int, 5867203883008int);
    assert(ratio_sum(|j: int| ratio_mul(dp87_coupling(10, j), ratio_pow(dp87_node(j), 3)), 5) == (92433541526593034635264int, 1527576872864702678433792int));
    assert(dp87_coupling(10, 5) == (-10304129995int, 1701304382int));
    assert(dp87_node(5) == (3int, 8int));
    assert(ratio_pow(dp87_node(5), 0) == (1int, 1int));
    ratio_mul_value(1int, 1int, 3int, 8int);
    assert(ratio_pow(dp87_node(5), 1) == (3int, 8int));
    ratio_mul_value(3int, 8int, 3int, 8int);
    assert(ratio_pow(dp87_node(5), 2) == (9int, 64int));
    ratio_mul_value(9int, 64int, 3int, 8int);
    assert(ratio_pow(dp87_node(5), 3) == (27int, 512int));
    ratio_mul_value(-10304129995int, 1701304382int, 27int, 512int);
    assert(ratio_mul(dp87_coupling(10, 5), ratio_pow(dp87_node(5), 3)) == (-278211509865int, 871067843584int));
    ratio_add_value(92433541526593034635264int, 1527576872864702678433792int, -278211509865int, 871067843584int);
    assert(ratio_sum(|j: int| ratio_mul(dp87_coupling(10, j), ratio_pow(dp87_node(j), 3)), 6) == (-344473582542142569961280809314811904int, 1330623092555046686692632179955990528int));
    assert(dp87_coupling(10, 6) == (-48777925059int, 3047939560int));
    assert(dp87_node(6) == (59int, 400int));
    assert(ratio_pow(dp87_node(6), 0) == (1int, 1int));
    ratio_mul_value(1int, 1int, 59int, 400int);
    assert(ratio_pow(dp87_node(6), 1) == (59int, 400int));
    ratio_mul_value(59int, 400int, 59int, 400int);
    assert(ratio_pow(dp87_node(6), 2) == (3481int, 160000int));
    ratio_mul_value(3481int, 160000int, 59int, 400int);
    assert(ratio_pow(dp87_node(6), 3) == (205379int, 64000000int));
    ratio_mul_value(-48777925059int, 3047939560int, 205379int, 64000000int);
    assert(ratio_mul(dp87_coupling(10, 6), ratio_pow(dp87_node(6), 3)) == (-10017961470692361int, 195068131840000000int));
    ratio_add_value(-344473582542142569961280809314811904int, 1330623092555046686692632179955990528int, -10017961470692361int, 195068131840000000int);
    assert(ratio_sum(|j: int| ratio_mul(dp87_coupling(10, j), ratio_pow(dp87_node(j), 3)), 7) == (-80525949087957762289606004197410045468208889077956608int, 259562160847876369537113547636281765713695211520000000int));
    assert(dp87_coupling(10, 7) == (15336726248int, 1032824649int));
    assert(dp87_node(7) == (93int, 200int));
    assert(ratio_pow(dp87_node(7), 0) == (1int, 1int));
    ratio_mul_value(1int, 1int, 93int, 200int);
    assert(ratio_pow(dp87_node(7), 1) == (93int, 200int));
    ratio_mul_value(93int, 200int, 93int, 200int);
    assert(ratio_pow(dp87_node(7), 2) == (8649int, 40000int));
    ratio_mul_value(8649int, 40000int, 93int, 200int);
    assert(ratio_pow(dp87_node(7), 3) == (804357int, 8000000int));
    ratio_mul_value(15336726248int, 1032824649int, 804357int, 8000000int);
    assert(ratio_mul(dp87_coupling(10, 7), ratio_pow(dp87_node(7), 3)) == (12336203114662536int, 8262597192000000int));
    ratio_add_value(-80525949087957762289606004197410045468208889077956608int, 259562160847876369537113547636281765713695211520000000int, 12336203114662536int, 8262597192000000int);
    assert(ratio_sum(|j: int| ratio_mul(dp87_coupling(10, j), ratio_pow(dp87_node(j), 3)), 8) == (2536658056282815858261561442222067063617241784563837705580969984000000int, 2144657581371115630100508738484699954706779930648998051840000000000000int));
    assert(dp87_coupling(10, 8) == (-45442868181int, 3398467696int));
    assert(dp87_node(8) == (5490023248int, 9719169821int));
    assert(ratio_pow(dp87_node(8), 0) == (1int, 1int));
    ratio_mul_value(1int, 1int, 5490023248int, 9719169821int);
    assert(ratio_pow(dp87_node(8), 1) == (5490023248int, 9719169821int));
    ratio_mul_value(5490023248int, 9719169821int, 5490023248int, 9719169821int);
    assert(ratio_pow(dp87_node(8), 2) == (30140355263580469504int, 94462262009437172041int));
    ratio_mul_value(30140355263580469504int, 94462262009437172041int, 5490023248int, 9719169821int);
    assert(ratio_pow(dp87_node(8), 3) == (165471251100035945295715028992int, 918094766145516579696472174661int));
    ratio_mul_value(-45442868181int, 3398467696int, 165471251100035945295715028992int, 918094766145516579696472174661int);
    assert(ratio_mul(dp87_coupling(10, 8), ratio_pow(dp87_node(8), 3)) == (-7519488251484084706434905126624049303552int, 3120115404612212531330870170748278251056int));
    ratio_add_value(2536658056282815858261561442222067063617241784563837705580969984000000int, 2144657581371115630100508738484699954706779930648998051840000000000000int, -7519488251484084706434905126624049303552int, 3120115404612212531330870170748278251056int);
    assert(ratio_sum(|j: int| ratio_mul(dp87_coupling(10, j), ratio_pow(dp87_node(j), 3)), 9) == (-8212061608934689797369541422264108612227150730559201797179867098225781354245500017970823442112127696896000000int, 6691579157254387564870915753525062671897443482458685967656602850820369504593482846049586422743040000000000000int));
    assert(dp87_coupling(10, 9) == (3065993473int, 597172653int));
    assert(dp87_node(9) == (13int, 20int));
    assert(ratio_pow(dp87_node(9), 0) == (1int, 1int));
    ratio_mul_value(1int, 1int, 13int, 20int);
    assert(ratio_pow(dp87_node(9), 1) == (13int, 20int));
    ratio_mul_value(13int, 20int, 13int, 20int);
    assert(ratio_pow(dp87_node(9), 2) == (169int, 400int));
    ratio_mul_value(169int, 400int, 13int, 20int);
    assert(ratio_pow(dp87_node(9), 3) == (2197int, 8000int));
    ratio_mul_value(3065993473int, 597172653int, 2197int, 8000int);
    assert(ratio_mul(dp87_coupling(10, 9), ratio_pow(dp87_node(9), 3)) == (6735987660181int, 4777381224000int));
    ratio_add_value(-8212061608934689797369541422264108612227150730559201797179867098225781354245500017970823442112127696896000000int, 6691579157254387564870915753525062671897443482458685967656602850820369504593482846049586422743040000000000000int, 6735987660181int, 4777381224000int);
    assert(ratio_sum(|j: int| ratio_mul(dp87_coupling(10, j), ratio_pow(dp87_node(j), 3)), 10) == (5842245689534112265073370377671251356865157703811158722000904854913463421078756175397639794670106171561576759296000000000int, 31968224624776854544033394904576446222146118946699299697594925739134106267987086701483376748977925872680960000000000000000int));
    assert(dp87_coupling(10, 10) == (0int, 1int));
    assert(dp87_node(10) == (1201146811int, 1299019798int));
    assert(ratio_pow(dp87_node(10), 0) == (1int, 1int));
    ratio_mul_value(1int, 1int, 1201146811int, 1299019798int);
    assert(ratio_pow(dp87_node(10), 1) == (1201146811int, 1299019798int));
    ratio_mul_value(1201146811int, 1299019798int, 1201146811int, 1299019798int);
    assert(ratio_pow(dp87_node(10), 2) == (1442753661575469721int, 1687452435595960804int));
    ratio_mul_value(1442753661575469721int, 1687452435595960804int, 1201146811int, 1299019798int);
    assert(ratio_pow(dp87_node(10), 3) == (1732958959659948691206209731int, 2192034122022473013227997592int));
    ratio_mul_value(0int, 1int, 1732958959659948691206209731int, 2192034122022473013227997592int);
    assert(ratio_mul(dp87_coupling(10, 10), ratio_pow(dp87_node(10), 3)) == (0int, 2192034122022473013227997592int));
    ratio_add_value(5842245689534112265073370377671251356865157703811158722000904854913463421078756175397639794670106171561576759296000000000int, 31968224624776854544033394904576446222146118946699299697594925739134106267987086701483376748977925872680960000000000000000int, 0int, 2192034122022473013227997592int);
    assert(ratio_sum(|j: int| ratio_mul(dp87_coupling(10, j), ratio_pow(dp87_node(j), 3)), 11) == (5842245689534112265073370377671251356865157703811158722000904854913463421078756175397639794670106171561576759296000000000int, 31968224624776854544033394904576446222146118946699299697594925739134106267987086701483376748977925872680960000000000000000int));
    assert(dp87_coupling(10, 11) == (0int, 1int));
    assert(dp87_node(11) == (1int, 1int));
    assert(ratio_pow(dp87_node(11), 0) == (1int, 1int));
    ratio_mul_value(1int, 1int, 1int, 1int);
    assert(ratio_pow(dp87_node(11), 1) == (1int, 1int));
    ratio_mul_value(1int, 1int, 1int, 1int);
    assert(ratio_pow(dp87_node(11), 2) == (1int, 1int));
    ratio_mul_value(1int, 1int, 1int, 1int);
    assert(ratio_pow(dp87_node(11), 3) == (1int, 1int));
    ratio_mul_value(0int, 1int, 1int, 1int);
    assert(ratio_mul(dp87_coupling(10, 11), ratio_pow(dp87_node(11), 3)) == (0int, 1int));
    ratio_add_value(5842245689534112265073370377671251356865157703811158722000904854913463421078756175397639794670106171561576759296000000000int, 31968224624776854544033394904576446222146118946699299697594925739134106267987086701483376748977925872680960000000000000000int, 0int, 1int);
    assert(ratio_sum(|j: int| ratio_mul(dp87_coupling(10, j), ratio_pow(dp87_node(j), 3)), 12) == (5842245689534112265073370377671251356865157703811158722000904854913463421078756175397639794670106171561576759296000000000int, 31968224624776854544033394904576446222146118946699299697594925739134106267987086701483376748977925872680960000000000000000int));
    assert(dp87_coupling(10, 12) == (0int, 1int));
    assert(dp87_node(12) == (1int, 1int));
    assert(ratio_pow(dp87_node(12), 0) == (1int, 1int));
    ratio_mul_value(1int, 1int, 1int, 1int);
    assert(ratio_pow(dp87_node(12), 1) == (1int, 1int));
    ratio_mul_value(1int, 1int, 1int, 1int);
    assert(ratio_pow(dp87_node(12), 2) == (1int, 1int));
    ratio_mul_value(1int, 1int, 1int, 1int);
    assert(ratio_pow(dp87_node(12), 3) == (1int, 1int));
    ratio_mul_value(0int, 1int, 1int, 1int);
    assert(ratio_mul(dp87_coupling(10, 12), ratio_pow(dp87_node(12), 3)) == (0int, 1int));
    ratio_add_value(5842245689534112265073370377671251356865157703811158722000904854913463421078756175397639794670106171561576759296000000000int, 31968224624776854544033394904576446222146118946699299697594925739134106267987086701483376748977925872680960000000000000000int, 0int, 1int);
    assert(ratio_sum(|j: int| ratio_mul(dp87_coupling(10, j), ratio_pow(dp87_node(j), 3)), 13) == (5842245689534112265073370377671251356865157703811158722000904854913463421078756175397639794670106171561576759296000000000int, 31968224624776854544033394904576446222146118946699299697594925739134106267987086701483376748977925872680960000000000000000int));
    assert(dp87_node(10) == (1201146811int, 1299019798int));
    assert(ratio_pow(dp87_node(10), 0) == (1int, 1int));
    ratio_mul_value(1int, 1int, 1201146811int, 1299019798int);
    assert(ratio_pow(dp87_node(10), 1) == (1201146811int, 1299019798int));
    ratio_mul_value(1201146811int, 1299019798int, 1201146811int, 1299019798int);
    assert(ratio_pow(dp87_node(10), 2) == (1442753661575469721int, 1687452435595960804int));
    ratio_mul_value(1442753661575469721int, 1687452435595960804int, 1201146811int, 1299019798int);
    assert(ratio_pow(dp87_node(10), 3) == (1732958959659948691206209731int, 2192034122022473013227997592int));
    ratio_mul_value(1732958959659948691206209731int, 2192034122022473013227997592int, 1201146811int, 1299019798int);
    assert(ratio_pow(dp87_node(10), 4) == (2081538127989425014865962561787817841int, 2847495722398740245103884759904326416int));
    ratio_mul_value(2081538127989425014865962561787817841int, 2847495722398740245103884759904326416int, 1int, 4int);
    assert(ratio_mul(ratio_pow(dp87_node(10), 4), (1, 4)) == (2081538127989425014865962561787817841int, 11389982889594960980415539039617305664int));
    assert(within_1e14((5842245689534112265073370377671251356865157703811158722000904854913463421078756175397639794670106171561576759296000000000int, 31968224624776854544033394904576446222146118946699299697594925739134106267987086701483376748977925872680960000000000000000int), (2081538127989425014865962561787817841int, 11389982889594960980415539039617305664int))) by (nonlinear_arith);
}

/// The moment of degree 3 of row 11, exactly, stage by stage.
#[verifier::spinoff_prover]
proof fn stage_condition_11_3()
    ensures
        within_1e14(coupling_moment(11, 3), ratio_mul(ratio_pow(dp87_node(11), 4), (1, 4))),
{
    assert(ratio_sum(|j: int| ratio_mul(dp87_coupling(11, j), ratio_pow(dp87_node(j), 3)), 0) == (0int, 1int));
    assert(dp87_coupling(11, 0) == (185892177int, 718116043int));
    assert(dp87_node(0) == (0int, 1int));
    assert(ratio_pow(dp87_node(0), 0) == (1int, 1int));
    ratio_mul_value(1int, 1int, 0int, 1int);
    assert(ratio_pow(dp87_node(0), 1) == (0int, 1int));
    ratio_mul_value(0int, 1int, 0int, 1int);
    assert(ratio_pow(dp87_node(0), 2) == (0int, 1int));
    ratio_mul_value(0int, 1int, 0int, 1int);
    assert(ratio_pow(dp87_node(0), 3) == (0int, 1int));
    ratio_mul_value(185892177int, 718116043int, 0int, 1int);
    assert(ratio_mul(dp87_coupling(11, 0), ratio_pow(dp87_node(0), 3)) == (0int, 718116043int));
    ratio_add_value(0int, 1int, 0int, 718116043int);
    assert(ratio_sum(|j: int| ratio_mul(dp87_coupling(11, j), ratio_pow(dp87_node(j), 3)), 1) == (0int, 1int));
    assert(dp87_coupling(11, 1) == (0int, 1int));
    assert(dp87_node(1) == (1int, 18int));
    assert(ratio_pow(dp87_node(1), 0) == (1int, 1int));
    ratio_mul_value(1int, 1int, 1int, 18int);
    assert(ratio_pow(dp87_node(1), 1) == (1int, 18int));
    ratio_mul_value(1int, 18int, 1int, 18int);
    assert(ratio_pow(dp87_node(1), 2) == (1int, 324int));
    ratio_mul_value(1int, 324int, 1int, 18int);
    assert(ratio_pow(dp87_node(1), 3) == (1int, 5832int));
    ratio_mul_value(0int, 1int, 1int, 5832int);
    assert(ratio_mul(dp87_coupling(11, 1), ratio_pow(dp87_node(1), 3)) == (0int, 5832int));
    ratio_add_value(0int, 1int, 0int, 5832int);
    assert(ratio_sum(|j: int| ratio_mul(dp87_coupling(11, j), ratio_pow(dp87_node(j), 3)), 2) == (0int, 1int));
    assert(dp87_coupling(11, 2) == (0int, 1int));
    assert(dp87_node(2) == (1int, 12int));
    assert(ratio_pow(dp87_node(2), 0) == (1int, 1int));
    ratio_mul_value(1int, 1int, 1int, 12int);
    assert(ratio_pow(dp87_node(2), 1) == (1int, 12int));
    ratio_mul_value(1int, 12int, 1int, 12int);
    assert(ratio_pow(dp87_node(2), 2) == (1int, 144int));
    ratio_mul_value(1int, 144int, 1int, 12int);
    assert(ratio_pow(dp87_node(2), 3) == (1int, 1728int));
    ratio_mul_value(0int, 1int, 1int, 1728int);
    assert(ratio_mul(dp87_coupling(11, 2), ratio_pow(dp87_node(2), 3)) == (0int, 1728int));
    ratio_add_value(0int, 1int, 0int, 1728int);
    assert(ratio_sum(|j: int| ratio_mul(dp87_coupling(11, j), ratio_pow(dp87_node(j), 3)), 3) == (0int, 1int));
    assert(dp87_coupling(11, 3) == (-3185094517int, 667107341int));
    assert(dp87_node(3) == (1int, 8int));
    assert(ratio_pow(dp87_node(3), 0) == (1int, 1int));
    ratio_mul_value(1int, 1int, 1int, 8int);
    assert(ratio_pow(dp87_node(3), 1) == (1int, 8int));
    ratio_mul_value(1int, 8int, 1int, 8int);
    assert(ratio_pow(dp87_node(3), 2) == (1int, 64int));
    ratio_mul_value(1int, 64int, 1int, 8int);
    assert(ratio_pow(dp87_node(3), 3) == (1int, 512int));
    ratio_mul_value(-3185094517int, 667107341int, 1int, 512int);
    assert(ratio_mul(dp87_coupling(11, 3), ratio_pow(dp87_node(3), 3)) == (-3185094517int, 341558958592int));
    ratio_add_value(0int, 1int, -3185094517int, 341558958592int);
    assert(ratio_sum(|j: int| ratio_mul(dp87_coupling(11, j), ratio_pow(dp87_node(j), 3)), 4) == (-3185094517int, 341558958592int));
    assert(dp87_coupling(11, 4) == (-477755414int, 1098053517int));
    assert(dp87_node(4) == (5int, 16int));
    assert(ratio_pow(dp87_node(4), 0) == (1int, 1int));
    ratio_mul_value(1int, 1int, 5int, 16int);
    assert(ratio_pow(dp87_node(4), 1) == (5int, 16int));
    ratio_mul_value(5int, 16int, 5int, 16int);
    assert(ratio_pow(dp87_node(4), 2) == (25int, 256int));
    ratio_mul_value(25int, 256int, 5int, 16int);
    assert(ratio_pow(dp87_node(4), 3) == (125int, 4096int));
    ratio_mul_value(-477755414int, 1098053517int, 125int, 4096int);
    assert(ratio_mul(dp87_coupling(11, 4), ratio_pow(dp87_node(4), 3)) == (-59719426750int, 4497627205632int));
    ratio_add_value(-3185094517int, 341558958592int, -59719426750int, 4497627205632int);
    assert(ratio_sum(|j: int| ratio_mul(dp87_coupling(11, j), ratio_pow(dp87_node(j), 3)), 5) == (-34723072960609741855744int, 1536204864490712957190144int));
    assert(dp87_coupling(11, 5) == (-703635378int, 230739211int));
    assert(dp87_node(5) == (3int, 8int));
    assert(ratio_pow(dp87_node(5), 0) == (1int, 1int));
    ratio_mul_value(1int, 1int, 3int, 8int);
    assert(ratio_pow(dp87_node(5), 1) == (3int, 8int));
    ratio_mul_value(3int, 8int, 3int, 8int);
    assert(ratio_pow(dp87_node(5), 2) == (9int, 64int));
    ratio_mul_value(9int, 64int, 3int, 8int);
    assert(ratio_pow(dp87_node(5), 3) == (27int, 512int));
    ratio_mul_value(-703635378int, 230739211int, 27int, 512int);
    assert(ratio_mul(dp87_coupling(11, 5), ratio_pow(dp87_node(5), 3)) == (-18998155206int, 118138476032int));
    ratio_add_value(-34723072960609741855744int, 1536204864490712957190144int, -18998155206int, 118138476032int);
    assert(ratio_sum(|j: int| ratio_mul(dp87_coupling(11, j), ratio_pow(dp87_node(j), 3)), 6) == (-33287189366521144174624109111017472int, 181484901563877900579599669010628608int));
    assert(dp87_coupling(11, 6) == (5731566787int, 1027545527int));
    assert(dp87_node(6) == (59int, 400int));
    assert(ratio_pow(dp87_node(6), 0) == (1int, 1int));
    ratio_mul_value(1int, 1int, 59int, 400int);
    assert(ratio_pow(dp87_node(6), 1) == (59int, 400int));
    ratio_mul_value(59int, 400int, 59int, 400int);
    assert(ratio_pow(dp87_node(6), 2) == (3481int, 160000int));
    ratio_mul_value(3481int, 160000int, 59int, 400int);
    assert(ratio_pow(dp87_node(6), 3) == (205379int, 64000000int));
    ratio_mul_value(5731566787int, 1027545527int, 205379int, 64000000int);
    assert(ratio_mul(dp87_coupling(11, 6), ratio_pow(dp87_node(6), 3)) == (1177143455147273int, 65762913728000000int));
    ratio_add_value(-33287189366521144174624109111017472int, 181484901563877900579599669010628608int, 1177143455147273int, 65762913728000000int);
    assert(ratio_sum(|j: int| ratio_mul(dp87_coupling(11, j), ratio_pow(dp87_node(j), 3)), 7) == (-1975428798474163014849221607348613612039492669014016int, 11934975924479874656941974229923324262952730624000000int));
    assert(dp87_coupling(11, 7) == (5232866602int, 850066563int));
    assert(dp87_node(7) == (93int, 200int));
    assert(ratio_pow(dp87_node(7), 0) == (1int, 1int));
    ratio_mul_value(1int, 1int, 93int, 200int);
    assert(ratio_pow(dp87_node(7), 1) == (93int, 200int));
    ratio_mul_value(93int, 200int, 93int, 200int);
    assert(ratio_pow(dp87_node(7), 2) == (8649int, 40000int));
    ratio_mul_value(8649int, 40000int, 93int, 200int);
    assert(ratio_pow(dp87_node(7), 3) == (804357int, 8000000int));
    ratio_mul_value(5232866602int, 850066563int, 804357int, 8000000int);
    assert(ratio_mul(dp87_coupling(11, 7), ratio_pow(dp87_node(7), 3)) == (4209092881384914int, 6800532504000000int));
    ratio_add_value(-1975428798474163014849221607348613612039492669014016int, 11934975924479874656941974229923324262952730624000000int, 4209092881384914int, 6800532504000000int);
    assert(ratio_sum(|j: int| ratio_mul(dp87_coupling(11, j), ratio_pow(dp87_node(j), 3)), 8) == (36801454449867362182625261235084512271774201317039745659830272000000int, 81164191708882836898379744992523936077941887624068202496000000000000int));
    assert(dp87_coupling(11, 8) == (-4093664535int, 808688257int));
    assert(dp87_node(8) == (5490023248int, 9719169821int));
    assert(ratio_pow(dp87_node(8), 0) == (1int, 1int));
    ratio_mul_value(1int, 1int, 5490023248int, 9719169821int);
    assert(ratio_pow(dp87_node(8), 1) == (5490023248int, 9719169821int));
    ratio_mul_value(5490023248int, 9719169821int, 5490023248int, 9719169821int);
    assert(ratio_pow(dp87_node(8), 2) == (30140355263580469504int, 94462262009437172041int));
    ratio_mul_value(30140355263580469504int, 94462262009437172041int, 5490023248int, 9719169821int);
    assert(ratio_pow(dp87_node(8), 3) == (165471251100035945295715028992int, 918094766145516579696472174661int));
    ratio_mul_value(-4093664535int, 808688257int, 165471251100035945295715028992int, 918094766145516579696472174661int);
    assert(ratio_mul(dp87_coupling(11, 8), ratio_pow(dp87_node(8), 3)) == (-677383792190296886482268701651047198720int, 742452456195040411199341671975603655877int));
    ratio_add_value(36801454449867362182625261235084512271774201317039745659830272000000int, 81164191708882836898379744992523936077941887624068202496000000000000int, -677383792190296886482268701651047198720int, 742452456195040411199341671975603655877int);
    assert(ratio_sum(|j: int| ratio_mul(dp87_coupling(11, j), ratio_pow(dp87_node(j), 3)), 9) == (-27655977721969386382624743667250298226668609793136236393328594021635705813426397183337343018604691456000000int, 60260553489345196597012170629656181085303285644626950128802064073797003543514250586685536468992000000000000int));
    assert(dp87_coupling(11, 9) == (3962137247int, 1805957418int));
    assert(dp87_node(9) == (13int, 20int));
    assert(ratio_pow(dp87_node(9), 0) == (1int, 1int));
    ratio_mul_value(1int, 1int, 13int, 20int);
    assert(ratio_pow(dp87_node(9), 1) == (13int, 20int));
    ratio_mul_value(13int, 20int, 13int, 20int);
    assert(ratio_pow(dp87_node(9), 2) == (169int, 400int));
    ratio_mul_value(169int, 400int, 13int, 20int);
    assert(ratio_pow(dp87_node(9), 3) == (2197int, 8000int));
    ratio_mul_value(3962137247int, 1805957418int, 2197int, 8000int);
    assert(ratio_mul(dp87_coupling(11, 9), ratio_pow(dp87_node(9), 3)) == (8704815531659int, 14447659344000int));
    ratio_add_value(-27655977721969386382624743667250298226668609793136236393328594021635705813426397183337343018604691456000000int, 60260553489345196597012170629656181085303285644626950128802064073797003543514250586685536468992000000000000int, 8704815531659int, 14447659344000int);
    assert(ratio_sum(|j: int| ratio_mul(dp87_coupling(11, j), ratio_pow(dp87_node(j), 3)), 10) == (124992857008153175854523638560730596785124529790598234629101097230258203552092100239882965838096993691302363136000000000int, 870623948694949934056339889479274488164438075917495619422609144542279983804654773085884772955885035061248000000000000000int));
    assert(dp87_coupling(11, 10) == (65686358int, 487910083int));
    assert(dp87_node(10) == (1201146811int, 1299019798int));
    assert(ratio_pow(dp87_node(10), 0) == (1int, 1int));
    ratio_mul_value(1int, 1int, 1201146811int, 1299019798int);
    assert(ratio_pow(dp87_node(10), 1) == (1201146811int, 1299019798int));
    ratio_mul_value(1201146811int, 1299019798int, 1201146811int, 1299019798int);
    assert(ratio_pow(dp87_node(10), 2) == (1442753661575469721int, 1687452435595960804int));
    ratio_mul_value(1442753661575469721int, 1687452435595960804int, 1201146811int, 1299019798int);
    assert(ratio_pow(dp87_node(10), 3) == (1732958959659948691206209731int, 2192034122022473013227997592int));
    ratio_mul_value(65686358int, 487910083int, 1732958959659948691206209731int, 2192034122022473013227997592int);
    assert(ratio_mul(dp87_coupling(11, 10), ratio_pow(dp87_node(10), 3)) == (113831762623530947992202544213549698int, 1069515550414816935749332403036520136int));
    ratio_add_value(124992857008153175854523638560730596785124529790598234629101097230258203552092100239882965838096993691302363136000000000int, 870623948694949934056339889479274488164438075917495619422609144542279983804654773085884772955885035061248000000000000000int, 113831762623530947992202544213549698int, 1069515550414816935749332403036520136int);
    assert(ratio_sum(|j: int| ratio_mul(dp87_coupling(11, j), ratio_pow(dp87_node(j), 3)), 11) == (232786462923200179862867957944514586196399075023221044800055174201181731052265174701771752995084786162678486995238356329285882294035922029952106496000000000int, 931145851692800719532353205123799351144514169283095796017616863446028361314829450601130704685816488751520610909162830537742259499745545289728000000000000000int));
    assert(dp87_coupling(11, 11) == (0int, 1int));
    assert(dp87_node(11) == (1int, 1int));
    assert(ratio_pow(dp87_node(11), 0) == (1int, 1int));
    ratio_mul_value(1int, 1int, 1int, 1int);
    assert(ratio_pow(dp87_node(11), 1) == (1int, 1int));
    ratio_mul_value(1int, 1int, 1int, 1int);
    assert(ratio_pow(dp87_node(11), 2) == (1int, 1int));
    ratio_mul_value(1int, 1int, 1int, 1int);
    assert(ratio_pow(dp87_node(11), 3) == (1int, 1int));
    ratio_mul_value(0int, 1int, 1int, 1int);
    assert(ratio_mul(dp87_coupling(11, 11), ratio_pow(dp87_node(11), 3)) == (0int, 1int));
    ratio_add_value(232786462923200179862867957944514586196399075023221044800055174201181731052265174701771752995084786162678486995238356329285882294035922029952106496000000000int, 931145851692800719532353205123799351144514169283095796017616863446028361314829450601130704685816488751520610909162830537742259499745545289728000000000000000int, 0int, 1int);
    assert(ratio_sum(|j: int| ratio_mul(dp87_coupling(11, j), ratio_pow(dp87_node(j), 3)), 12) == (232786462923200179862867957944514586196399075023221044800055174201181731052265174701771752995084786162678486995238356329285882294035922029952106496000000000int, 931145851692800719532353205123799351144514169283095796017616863446028361314829450601130704685816488751520610909162830537742259499745545289728000000000000000int));
    assert(dp87_coupling(11, 12) == (0int, 1int));
    assert(dp87_node(12) == (1int, 1int));
    assert(ratio_pow(dp87_node(12), 0) == (1int, 1int));
    ratio_mul_value(1int, 1int, 1int, 1int);
    assert(ratio_pow(dp87_node(12), 1) == (1int, 1int));
    ratio_mul_value(1int, 1int, 1int, 1int);
    assert(ratio_pow(dp87_node(12), 2) == (1int, 1int));
    ratio_mul_value(1int, 1int, 1int, 1int);
    assert(ratio_pow(dp87_node(12), 3) == (1int, 1int));
    ratio_mul_value(0int, 1int, 1int, 1int);
    assert(ratio_mul(dp87_coupling(11, 12), ratio_pow(dp87_node(12), 3)) == (0int, 1int));
    ratio_add_value(232786462923200179862867957944514586196399075023221044800055174201181731052265174701771752995084786162678486995238356329285882294035922029952106496000000000int, 931145851692800719532353205123799351144514169283095796017616863446028361314829450601130704685816488751520610909162830537742259499745545289728000000000000000int, 0int, 1int);
    assert(ratio_sum(|j: int| ratio_mul(dp87_coupling(11, j), ratio_pow(dp87_node(j), 3)), 13) == (232786462923200179862867957944514586196399075023221044800055174201181731052265174701771752995084786162678486995238356329285882294035922029952106496000000000int, 931145851692800719532353205123799351144514169283095796017616863446028361314829450601130704685816488751520610909162830537742259499745545289728000000000000000int));
    assert(dp87_node(11) == (1int, 1int));
    assert(ratio_pow(dp87_node(11), 0) == (1int, 1int));
    ratio_mul_value(1int, 1int, 1int, 1int);
    assert(ratio_pow(dp87_node(11), 1) == (1int, 1int));
    ratio_mul_value(1int, 1int, 1int, 1int);
    assert(ratio_pow(dp87_node(11), 2) == (1int, 1int));
    ratio_mul_value(1int, 1int, 1int, 1int);
    assert(ratio_pow(dp87_node(11), 3) == (1int, 1int));
    ratio_mul_value(1int, 1int, 1int, 1int);
    assert(ratio_pow(dp87_node(11), 4) == (1int, 1int));
    ratio_mul_value(1int, 1int, 1int, 4int);
    assert(ratio_mul(ratio_pow(dp87_node(11), 4), (1, 4)) == (1int, 4int));
    assert(within_1e14((232786462923200179862867957944514586196399075023221044800055174201181731052265174701771752995084786162678486995238356329285882294035922029952106496000000000int, 931145851692800719532353205123799351144514169283095796017616863446028361314829450601130704685816488751520610909162830537742259499745545289728000000000000000int), (1int, 4int))) by (nonlinear_arith);
}

/// The moment of degree 3 of row 12, exactly, stage by stage.
#[verifier::spinoff_prover]
proof fn stage_condition_12_3()
    ensures
        within_1e14(coupling_moment(12, 3), ratio_mul(ratio_pow(dp87_node(12), 4), (1, 4))),
{
    assert(ratio_sum(|j: int| ratio_mul(dp87_coupling(12, j), ratio_pow(dp87_node(j), 3)), 0) == (0int, 1int));
    assert(dp87_coupling(12, 0) == (403863854int, 491063109int));
    assert(dp87_node(0) == (0int, 1int));
    assert(ratio_pow(dp87_node(0), 0) == (1int, 1int));
    ratio_mul_value(1int, 1int, 0int, 1int);
    assert(ratio_pow(dp87_node(0), 1) == (0int, 1int));
    ratio_mul_value(0int, 1int, 0int, 1int);
    assert(ratio_pow(dp87_node(0), 2) == (0int, 1int));
    ratio_mul_value(0int, 1int, 0int, 1int);
    assert(ratio_pow(dp87_node(0), 3) == (0int, 1int));
    ratio_mul_value(403863854int, 491063109int, 0int, 1int);
    assert(ratio_mul(dp87_coupling(12, 0), ratio_pow(dp87_node(0), 3)) == (0int, 491063109int));
    ratio_add_value(0int, 1int, 0int, 491063109int);
    assert(ratio_sum(|j: int| ratio_mul(dp87_coupling(12, j), ratio_pow(dp87_node(j), 3)), 1) == (0int, 1int));
    assert(dp87_coupling(12, 1) == (0int, 1int));
    assert(dp87_node(1) == (1int, 18int));
    assert(ratio_pow(dp87_node(1), 0) == (1int, 1int));
    ratio_mul_value(1int, 1int, 1int, 18int);
    assert(ratio_pow(dp87_node(1), 1) == (1int, 18int));
    ratio_mul_value(1int, 18int, 1int, 18int);
    assert(ratio_pow(dp87_node(1), 2) == (1int, 324int));
    ratio_mul_value(1int, 324int, 1int, 18int);
    assert(ratio_pow(dp87_node(1), 3) == (1int, 5832int));
    ratio_mul_value(0int, 1int, 1int, 5832int);
    assert(ratio_mul(dp87_coupling(12, 1), ratio_pow(dp87_node(1), 3)) == (0int, 5832int));
    ratio_add_value(0int, 1int, 0int, 5832int);
    assert(ratio_sum(|j: int| ratio_mul(dp87_coupling(12, j), ratio_pow(dp87_node(j), 3)), 2) == (0int, 1int));
    assert(dp87_coupling(12, 2) == (0int, 1int));
    assert(dp87_node(2) == (1int, 12int));
    assert(ratio_pow(dp87_node(2), 0) == (1int, 1int));
    ratio_mul_value(1int, 1int, 1int, 12int);
    assert(ratio_pow(dp87_node(2), 1) == (1int, 12int));
    ratio_mul_value(1int, 12int, 1int, 12int);
    assert(ratio_pow(dp87_node(2), 2) == (1int, 144int));
    ratio_mul_value(1int, 144int, 1int, 12int);
    assert(ratio_pow(dp87_node(2), 3) == (1int, 1728int));
    ratio_mul_value(0int, 1int, 1int, 1728int);
    assert(ratio_mul(dp87_coupling(12, 2), ratio_pow(dp87_node(2), 3)) == (0int, 1728int));
    ratio_add_value(0int, 1int, 0int, 1728int);
    assert(ratio_sum(|j: int| ratio_mul(dp87_coupling(12, j), ratio_pow(dp87_node(j), 3)), 3) == (0int, 1int));
    assert(dp87_coupling(12, 3) == (-5068492393int, 434740067int));
    assert(dp87_node(3) == (1int, 8int));
    assert(ratio_pow(dp87_node(3), 0) == (1int, 1int));
    ratio_mul_value(1int, 1int, 1int, 8int);
    assert(ratio_pow(dp87_node(3), 1) == (1int, 8int));
    ratio_mul_value(1int, 8int, 1int, 8int);
    assert(ratio_pow(dp87_node(3), 2) == (1int, 64int));
    ratio_mul_value(1int, 64int, 1int, 8int);
    assert(ratio_pow(dp87_node(3), 3) == (1int, 512int));
    ratio_mul_value(-5068492393int, 434740067int, 1int, 512int);
    assert(ratio_mul(dp87_coupling(12, 3), ratio_pow(dp87_node(3), 3)) == (-5068492393int, 222586914304int));
    ratio_add_value(0int, 1int, -5068492393int, 222586914304int);
    assert(ratio_sum(|j: int| ratio_mul(dp87_coupling(12, j), ratio_pow(dp87_node(j), 3)), 4) == (-5068492393int, 222586914304int));
    assert(dp87_coupling(12, 4) == (-411421997int, 543043805int));
    assert(dp87_node(4) == (5int, 16int));
    assert(ratio_pow(dp87_node(4), 0) == (1int, 1int));
    ratio_mul_value(1int, 1int, 5int, 16int);
    assert(ratio_pow(dp87_node(4), 1) == (5int, 16int));
    ratio_mul_value(5int, 16int, 5int, 16int);
    assert(ratio_pow(dp87_node(4), 2) == (25int, 256int));
    ratio_mul_value(25int, 256int, 5int, 16int);
    assert(ratio_pow(dp87_node(4), 3) == (125int, 4096int));
    ratio_mul_value(-411421997int, 543043805int, 125int, 4096int);
    assert(ratio_mul(dp87_coupling(12, 4), ratio_pow(dp87_node(4), 3)) == (-51427749625int, 2224307425280int));
    ratio_add_value(-5068492393int, 222586914304int, -51427749625int, 2224307425280int);
    assert(ratio_sum(|j: int| ratio_mul(dp87_coupling(12, j), ratio_pow(dp87_node(j), 3)), 5) == (-22721029363352539031040int, 495101726256550243205120int));
    assert(dp87_coupling(12, 5) == (652783627int, 914296604int));
    assert(dp87_node(5) == (3int, 8int));
    assert(ratio_pow(dp87_node(5), 0) == (1int, 1int));
    ratio_mul_value(1int, 1int, 3int, 8int);
    assert(ratio_pow(dp87_node(5), 1) == (3int, 8int));
    ratio_mul_value(3int, 8int, 3int, 8int);
    assert(ratio_pow(dp87_node(5), 2) == (9int, 64int));
    ratio_mul_value(9int, 64int, 3int, 8int);
    assert(ratio_pow(dp87_node(5), 3) == (27int, 512int));
    ratio_mul_value(652783627int, 914296604int, 27int, 512int);
    assert(ratio_mul(dp87_coupling(12, 5), ratio_pow(dp87_node(5), 3)) == (17625157929int, 468119861248int));
    ratio_add_value(-22721029363352539031040int, 495101726256550243205120int, 17625157929int, 468119861248int);
    assert(ratio_sum(|j: int| ratio_mul(dp87_coupling(12, j), ratio_pow(dp87_node(j), 3)), 6) == (-1909918996792100340105350023741440int, 231766951398861578300321429203189760int));
    assert(dp87_coupling(12, 6) == (11173962825int, 925320556int));
    assert(dp87_node(6) == (59int, 400int));
    assert(ratio_pow(dp87_node(6), 0) == (1int, 1int));
    ratio_mul_value(1int, 1int, 59int, 400int);
    assert(ratio_pow(dp87_node(6), 1) == (59int, 400int));
    ratio_mul_value(59int, 400int, 59int, 400int);
    assert(ratio_pow(dp87_node(6), 2) == (3481int, 160000int));
    ratio_mul_value(3481int, 160000int, 59int, 400int);
    assert(ratio_pow(dp87_node(6), 3) == (205379int, 64000000int));
    ratio_mul_value(11173962825int, 925320556int, 205379int, 64000000int);
    assert(ratio_mul(dp87_coupling(12, 6), ratio_pow(dp87_node(6), 3)) == (2294897311035675int, 59220515584000000int));
    ratio_add_value(-1909918996792100340105350023741440int, 231766951398861578300321429203189760int, 2294897311035675int, 59220515584000000int);
    assert(ratio_sum(|j: int| ratio_mul(dp87_coupling(12, j), ratio_pow(dp87_node(j), 3)), 7) == (418774965838479186294477403837186302326958194688000int, 13725358357172452697593021430336651884589219840000000int));
    assert(dp87_coupling(12, 7) == (-13158990841int, 6184727034int));
    assert(dp87_node(7) == (93int, 200int));
    assert(ratio_pow(dp87_node(7), 0) == (1int, 1int));
    ratio_mul_value(1int, 1int, 93int, 200int);
    assert(ratio_pow(dp87_node(7), 1) == (93int, 200int));
    ratio_mul_value(93int, 200int, 93int, 200int);
    assert(ratio_pow(dp87_node(7), 2) == (8649int, 40000int));
    ratio_mul_value(8649int, 40000int, 93int, 200int);
    assert(ratio_pow(dp87_node(7), 3) == (804357int, 8000000int));
    ratio_mul_value(-13158990841int, 6184727034int, 804357int, 8000000int);
    assert(ratio_mul(dp87_coupling(12, 7), ratio_pow(dp87_node(7), 3)) == (-10584526395894237int, 49477816272000000int));
    ratio_add_value(418774965838479186294477403837186302326958194688000int, 13725358357172452697593021430336651884589219840000000int, -10584526395894237int, 49477816272000000int);
    assert(ratio_sum(|j: int| ratio_mul(dp87_coupling(12, j), ratio_pow(dp87_node(j), 3)), 8) == (-124556347005530036818430897404824584645192764070859416618926080000000int, 679100759063538367991118290959555509053327967435337236480000000000000int));
    assert(dp87_coupling(12, 8) == (3936647629int, 1978049680int));
    assert(dp87_node(8) == (5490023248int, 9719169821int));
    assert(ratio_pow(dp87_node(8), 0) == (1int, 1int));
    ratio_mul_value(1int, 1int, 5490023248int, 9719169821int);
    assert(ratio_pow(dp87_node(8), 1) == (5490023248int, 9719169821int));
    ratio_mul_value(5490023248int, 9719169821int, 5490023248int, 9719169821int);
    assert(ratio_pow(dp87_node(8), 2) == (30140355263580469504int, 94462262009437172041int));
    ratio_mul_value(30140355263580469504int, 94462262009437172041int, 5490023248int, 9719169821int);
    assert(ratio_pow(dp87_node(8), 3) == (165471251100035945295715028992int, 918094766145516579696472174661int));
    ratio_mul_value(3936647629int, 1978049680int, 165471251100035945295715028992int, 918094766145516579696472174661int);
    assert(ratio_mul(dp87_coupling(12, 8), ratio_pow(dp87_node(8), 3)) == (651402008310620145863150272741023059968int, 1816037058383813903903301282217095158480int));
    ratio_add_value(-124556347005530036818430897404824584645192764070859416618926080000000int, 679100759063538367991118290959555509053327967435337236480000000000000int, 651402008310620145863150272741023059968int, 1816037058383813903903301282217095158480int);
    assert(ratio_sum(|j: int| ratio_mul(dp87_coupling(12, j), ratio_pow(dp87_node(j), 3)), 9) == (216168656280299133736048057306630295742316512836854657223370754662219515009197030182501774127634841600000000int, 1233272144835963366356583703669797378412126777391307168581728374553706469116511983865870837350400000000000000int));
    assert(dp87_coupling(12, 9) == (-160528059int, 685178525int));
    assert(dp87_node(9) == (13int, 20int));
    assert(ratio_pow(dp87_node(9), 0) == (1int, 1int));
    ratio_mul_value(1int, 1int, 13int, 20int);
    assert(ratio_pow(dp87_node(9), 1) == (13int, 20int));
    ratio_mul_value(13int, 20int, 13int, 20int);
    assert(ratio_pow(dp87_node(9), 2) == (169int, 400int));
    ratio_mul_value(169int, 400int, 13int, 20int);
    assert(ratio_pow(dp87_node(9), 3) == (2197int, 8000int));
    ratio_mul_value(-160528059int, 685178525int, 2197int, 8000int);
    assert(ratio_mul(dp87_coupling(12, 9), ratio_pow(dp87_node(9), 3)) == (-352680145623int, 5481428200000int));
    ratio_add_value(216168656280299133736048057306630295742316512836854657223370754662219515009197030182501774127634841600000000int, 1233272144835963366356583703669797378412126777391307168581728374553706469116511983865870837350400000000000000int, -352680145623int, 5481428200000int);
    assert(ratio_sum(|j: int| ratio_mul(dp87_coupling(12, j), ratio_pow(dp87_node(j), 3)), 10) == (749962368857401668602211938320726531130981158430093201135790380146139238999327261974976417836800000571473920000000000000int, 6760092712978333970513909168956070838314302939567833548726039917018849054337677874000329425410095841280000000000000000000int));
    assert(dp87_coupling(12, 10) == (248638103int, 1413531060int));
    assert(dp87_node(10) == (1201146811int, 1299019798int));
    assert(ratio_pow(dp87_node(10), 0) == (1int, 1int));
    ratio_mul_value(1int, 1int, 1201146811int, 1299019798int);
    assert(ratio_pow(dp87_node(10), 1) == (1201146811int, 1299019798int));
    ratio_mul_value(1201146811int, 1299019798int, 1201146811int, 1299019798int);
    assert(ratio_pow(dp87_node(10), 2) == (1442753661575469721int, 1687452435595960804int));
    ratio_mul_value(1442753661575469721int, 1687452435595960804int, 1201146811int, 1299019798int);
    assert(ratio_pow(dp87_node(10), 3) == (1732958959659948691206209731int, 2192034122022473013227997592int));
    ratio_mul_value(248638103int, 1413531060int, 1732958959659948691206209731int, 2192034122022473013227997592int);
    assert(ratio_mul(dp87_coupling(12, 10), ratio_pow(dp87_node(10), 3)) == (430879628306703167658844769335980293int, 3098508316058595622209565457897207520int));
    ratio_add_value(749962368857401668602211938320726531130981158430093201135790380146139238999327261974976417836800000571473920000000000000int, 6760092712978333970513909168956070838314302939567833548726039917018849054337677874000329425410095841280000000000000000000int, 430879628306703167658844769335980293int, 3098508316058595622209565457897207520int);
    assert(ratio_sum(|j: int| ratio_mul(dp87_coupling(12, j), ratio_pow(dp87_node(j), 3)), 11) == (5236550872122620161965913781050043724587361147454568079568350369755701945096901018556861467666045544826558425361925848264166436688448033547878400000000000000int, 20946203488490480774173961230027907106219177876706572478211878817566196481225648743817835557491151254730223917456737066506859737677142425600000000000000000000int));
    assert(dp87_coupling(12, 11) == (0int, 1int));
    assert(dp87_node(11) == (1int, 1int));
    assert(ratio_pow(dp87_node(11), 0) == (1int, 1int));
    ratio_mul_value(1int, 1int, 1int, 1int);
    assert(ratio_pow(dp87_node(11), 1) == (1int, 1int));
    ratio_mul_value(1int, 1int, 1int, 1int);
    assert(ratio_pow(dp87_node(11), 2) == (1int, 1int));
    ratio_mul_value(1int, 1int, 1int, 1int);
    assert(ratio_pow(dp87_node(11), 3) == (1int, 1int));
    ratio_mul_value(0int, 1int, 1int, 1int);
    assert(ratio_mul(dp87_coupling(12, 11), ratio_pow(dp87_node(11), 3)) == (0int, 1int));
    ratio_add_value(5236550872122620161965913781050043724587361147454568079568350369755701945096901018556861467666045544826558425361925848264166436688448033547878400000000000000int, 20946203488490480774173961230027907106219177876706572478211878817566196481225648743817835557491151254730223917456737066506859737677142425600000000000000000000int, 0int, 1int);
    assert(ratio_sum(|j: int| ratio_mul(dp87_coupling(12, j), ratio_pow(dp87_node(j), 3)), 12) == (5236550872122620161965913781050043724587361147454568079568350369755701945096901018556861467666045544826558425361925848264166436688448033547878400000000000000int, 20946203488490480774173961230027907106219177876706572478211878817566196481225648743817835557491151254730223917456737066506859737677142425600000000000000000000int));
    assert(dp87_coupling(12, 12) == (0int, 1int));
    assert(dp87_node(12) == (1int, 1int));
    assert(ratio_pow(dp87_node(12), 0) == (1int, 1int));
    ratio_mul_value(1int, 1int, 1int, 1int);
    assert(ratio_pow(dp87_node(12), 1) == (1int, 1int));
    ratio_mul_value(1int, 1int, 1int, 1int);
    assert(ratio_pow(dp87_node(12), 2) == (1int, 1int));
    ratio_mul_value(1int, 1int, 1int, 1int);
    assert(ratio_pow(dp87_node(12), 3) == (1int, 1int));
    ratio_mul_value(0int, 1int, 1int, 1int);
    assert(ratio_mul(dp87_coupling(12, 12), ratio_pow(dp87_node(12), 3)) == (0int, 1int));
    ratio_add_value(5236550872122620161965913781050043724587361147454568079568350369755701945096901018556861467666045544826558425361925848264166436688448033547878400000000000000int, 20946203488490480774173961230027907106219177876706572478211878817566196481225648743817835557491151254730223917456737066506859737677142425600000000000000000000int, 0int, 1int);
    assert(ratio_sum(|j: int| ratio_mul(dp87_coupling(12, j), ratio_pow(dp87_node(j), 3)), 13) == (5236550872122620161965913781050043724587361147454568079568350369755701945096901018556861467666045544826558425361925848264166436688448033547878400000000000000int, 20946203488490480774173961230027907106219177876706572478211878817566196481225648743817835557491151254730223917456737066506859737677142425600000000000000000000int));
    assert(dp87_node(12) == (1int, 1int));
    assert(ratio_pow(dp87_node(12), 0) == (1int, 1int));
    ratio_mul_value(1int, 1int, 1int, 1int);
    assert(ratio_pow(dp87_node(12), 1) == (1int, 1int));
    ratio_mul_value(1int, 1int, 1int, 1int);
    assert(ratio_pow(dp87_node(12), 2) == (1int, 1int));
    ratio_mul_value(1int, 1int, 1int, 1int);
    assert(ratio_pow(dp87_node(12), 3) == (1int, 1int));
    ratio_mul_value(1int, 1int, 1int, 1int);
    assert(ratio_pow(dp87_node(12), 4) == (1int, 1int));
    ratio_mul_value(1int, 1int, 1int, 4int);
    assert(ratio_mul(ratio_pow(dp87_node(12), 4), (1, 4)) == (1int, 4int));
    assert(within_1e14((5236550872122620161965913781050043724587361147454568079568350369755701945096901018556861467666045544826558425361925848264166436688448033547878400000000000000int, 20946203488490480774173961230027907106219177876706572478211878817566196481225648743817835557491151254730223917456737066506859737677142425600000000000000000000int), (1int, 4int))) by (nonlinear_arith);
}

/// The stage order conditions: Σ_j a_ij c_j^k = c_i^(k+1)/(k + 1) within
/// 1e-14 for k = 1 and k = 2 on every stage from the third on, and for k = 3
/// on every stage from the sixth on.  A coefficient moved to another column
/// of its row keeps the row sum but breaks them.
pub proof fn lemma_dp87_stage_conditions(i: int, k: nat)
    requires
        2 <= i < 13,
        1 <= k <= 3,
        k == 3 ==> i >= 5,
    ensures
        within_1e14(coupling_moment(i, k), ratio_mul(ratio_pow(dp87_node(i), k + 1 as nat), (1int, k + 1 as int))),
{
    if i == 2 && k == 1 {
        stage_condition_2_1();
    } else if i == 3 && k == 1 {
        stage_condition_3_1();
    } else if i == 4 && k == 1 {
        stage_condition_4_1();
    } else if i == 5 && k == 1 {
        stage_condition_5_1();
    } else if i == 6 && k == 1 {
        stage_condition_6_1();
    } else if i == 7 && k == 1 {
        stage_condition_7_1();
    } else if i == 8 && k == 1 {
        stage_condition_8_1();
    } else if i == 9 && k == 1 {
        stage_condition_9_1();
    } else if i == 10 && k == 1 {
        stage_condition_10_1();
    } else if i == 11 && k == 1 {
        stage_condition_11_1();
    } else if i == 12 && k == 1 {
        stage_condition_12_1();
    } else if i == 2 && k == 2 {
        stage_condition_2_2();
    } else if i == 3 && k == 2 {
        stage_condition_3_2();
    } else if i == 4 && k == 2 {
        stage_condition_4_2();
    } else if i == 5 && k == 2 {
        stage_condition_5_2();
    } else if i == 6 && k == 2 {
        stage_condition_6_2();
    } else if i == 7 && k == 2 {
        stage_condition_7_2();
    } else if i == 8 && k == 2 {
        stage_condition_8_2();
    } else if i == 9 && k == 2 {
        stage_condition_9_2();
    } else if i == 10 && k == 2 {
        stage_condition_10_2();
    } else if i == 11 && k == 2 {
        stage_condition_11_2();
    } else if i == 12 && k == 2 {
        stage_condition_12_2();
    } else if i == 5 && k == 3 {
        stage_condition_5_3();
    } else if i == 6 && k == 3 {
        stage_condition_6_3();
    } else if i == 7 && k == 3 {
        stage_condition_7_3();
    } else if i == 8 && k == 3 {
        stage_condition_8_3();
    } else if i == 9 && k == 3 {
        stage_condition_9_3();
    } else if i == 10 && k == 3 {
        stage_condition_10_3();
    } else if i == 11 && k == 3 {
        stage_condition_11_3();
    } else if i == 12 && k == 3 {
        stage_condition_12_3();
    }
}

/// Column 0 weighted by the eighth-order weights, exactly, stage by stage.
#[verifier::spinoff_prover]
proof fn column_condition_0()
    ensures
        within_1e14(weighted_column(0), ratio_mul(dp87_weight8(0), one_minus(dp87_node(0)))),
{
    assert(ratio_sum(|i: int| ratio_mul(dp87_weight8(i), dp87_coupling(i, 0)), 0) == (0int, 1int));
    assert(dp87_weight8(0) == (14005451int, 335480064int));
    assert(dp87_coupling(0, 0) == (0int, 1int));
    ratio_mul_value(14005451int, 335480064int, 0int, 1int);
    assert(ratio_mul(dp87_weight8(0), dp87_coupling(0, 0)) == (0int, 335480064int));
    ratio_add_value(0int, 1int, 0int, 335480064int);
    assert(ratio_sum(|i: int| ratio_mul(dp87_weight8(i), dp87_coupling(i, 0)), 1) == (0int, 1int));
    assert(dp87_weight8(1) == (0int, 1int));
    assert(dp87_coupling(1, 0) == (1int, 18int));
    ratio_mul_value(0int, 1int, 1int, 18int);
    assert(ratio_mul(dp87_weight8(1), dp87_coupling(1, 0)) == (0int, 18int));
    ratio_add_value(0int, 1int, 0int, 18int);
    assert(ratio_sum(|i: int| ratio_mul(dp87_weight8(i), dp87_coupling(i, 0)), 2) == (0int, 1int));
    assert(dp87_weight8(2) == (0int, 1int));
    assert(dp87_coupling(2, 0) == (1int, 48int));
    ratio_mul_value(0int, 1int, 1int, 48int);
    assert(ratio_mul(dp87_weight8(2), dp87_coupling(2, 0)) == (0int, 48int));
    ratio_add_value(0int, 1int, 0int, 48int);
    assert(ratio_sum(|i: int| ratio_mul(dp87_weight8(i), dp87_coupling(i, 0)), 3) == (0int, 1int));
    assert(dp87_weight8(3) == (0int, 1int));
    assert(dp87_coupling(3, 0) == (1int, 32int));
    ratio_mul_value(0int, 1int, 1int, 32int);
    assert(ratio_mul(dp87_weight8(3), dp87_coupling(3, 0)) == (0int, 32int));
    ratio_add_value(0int, 1int, 0int, 32int);
    assert(ratio_sum(|i: int| ratio_mul(dp87_weight8(i), dp87_coupling(i, 0)), 4) == (0int, 1int));
    assert(dp87_weight8(4) == (0int, 1int));
    assert(dp87_coupling(4, 0) == (5int, 16int));
    ratio_mul_value(0int, 1int, 5int, 16int);
    assert(ratio_mul(dp87_weight8(4), dp87_coupling(4, 0)) == (0int, 16int));
    ratio_add_value(0int, 1int, 0int, 16int);
    assert(ratio_sum(|i: int| ratio_mul(dp87_weight8(i), dp87_coupling(i, 0)), 5) == (0int, 1int));
    assert(dp87_weight8(5) == (-59238493int, 1068277825int));
    assert(dp87_coupling(5, 0) == (3int, 80int));
    ratio_mul_value(-59238493int, 1068277825int, 3int, 80int);
    assert(ratio_mul(dp87_weight8(5), dp87_coupling(5, 0)) == (-177715479int, 85462226000int));
    ratio_add_value(0int, 1int, -177715479int, 85462226000int);
    assert(ratio_sum(|i: int| ratio_mul(dp87_weight8(i), dp87_coupling(i, 0)), 6) == (-177715479int, 85462226000int));
    assert(dp87_weight8(6) == (181606767int, 758867731int));
    assert(dp87_coupling(6, 0) == (29443841int, 614563906int));
    ratio_mul_value(181606767int, 758867731int, 29443841int, 614563906int);
    assert(ratio_mul(dp87_weight8(6), dp87_coupling(6, 0)) == (5347200772072047int, 466372716900717286int));
    ratio_add_value(-177715479int, 85462226000int, 5347200772072047int, 466372716900717286int);
    assert(ratio_sum(|i: int| ratio_mul(dp87_weight8(i), dp87_coupling(i, 0)), 7) == (374102030073653401071552006int, 39857250532003120258238636000int));
    assert(dp87_weight8(7) == (561292985int, 797845732int));
    assert(dp87_coupling(7, 0) == (16016141int, 946692911int));
    ratio_mul_value(561292985int, 797845732int, 16016141int, 946692911int);
    assert(ratio_mul(dp87_weight8(7), dp87_coupling(7, 0)) == (8989747590070885int, 755314898556005852int));
    ratio_add_value(374102030073653401071552006int, 39857250532003120258238636000int, 8989747590070885int, 755314898556005852int);
    assert(ratio_sum(|i: int| ratio_mul(dp87_weight8(i), dp87_coupling(i, 0)), 8) == (640871458811603918501685672934463859771199112int, 30104775142301247053957097155839560828497872000int));
    assert(dp87_weight8(8) == (-1041891430int, 1371343529int));
    assert(dp87_coupling(8, 0) == (39632708int, 573591083int));
    ratio_mul_value(-1041891430int, 1371343529int, 39632708int, 573591083int);
    assert(ratio_mul(dp87_weight8(8), dp87_coupling(8, 0)) == (-41292978812892440int, 786590419964151907int));
    ratio_add_value(640871458811603918501685672934463859771199112int, 30104775142301247053957097155839560828497872000int, -41292978812892440int, 786590419964151907int);
    assert(ratio_sum(|i: int| ratio_mul(dp87_weight8(i), dp87_coupling(i, 0)), 9) == (-739012492188278177576860501102052207876178881887382569376173416int, 23680127722109098907650572375386415567851117035927091234241904000int));
    assert(dp87_weight8(9) == (760417239int, 1151165299int));
    assert(dp87_coupling(9, 0) == (246121993int, 1340847787int));
    ratio_mul_value(760417239int, 1151165299int, 246121993int, 1340847787int);
    assert(ratio_mul(dp87_weight8(9), dp87_coupling(9, 0)) == (187155406374237327int, 1543537443635343313int));
    ratio_add_value(-739012492188278177576860501102052207876178881887382569376173416int, 23680127722109098907650572375386415567851117035927091234241904000int, 187155406374237327int, 1543537443635343313int);
    assert(ratio_sum(|i: int| ratio_mul(dp87_weight8(i), dp87_coupling(i, 0)), 10) == (3291170473818292266171232885679553858363829497826174830136468081537719374966640792int, 36551163809142703894176995869221779721860591116401946526486120714827982330787952000int));
    assert(dp87_weight8(10) == (118820643int, 751138087int));
    assert(dp87_coupling(10, 0) == (-1028468189int, 846180014int));
    ratio_mul_value(118820643int, 751138087int, -1028468189int, 846180014int);
    assert(ratio_mul(dp87_weight8(10), dp87_coupling(10, 0)) == (-122203251522025527int, 635598036973593218int));
    ratio_add_value(3291170473818292266171232885679553858363829497826174830136468081537719374966640792int, 36551163809142703894176995869221779721860591116401946526486120714827982330787952000int, -122203251522025527int, 635598036973593218int);
    assert(ratio_sum(|i: int| ratio_mul(dp87_weight8(i), dp87_coupling(i, 0)), 11) == (-2374809571887065250886075506672470699996107482362285819316723754939930337630000269040816004717355344int, 23231847966191346633456833316410388909527557654477522451211584007789126146377360257541254663309536000int));
    assert(dp87_weight8(11) == (-528747749int, 2220607170int));
    assert(dp87_coupling(11, 0) == (185892177int, 718116043int));
    ratio_mul_value(-528747749int, 2220607170int, 185892177int, 718116043int);
    assert(ratio_mul(dp87_weight8(11), dp87_coupling(11, 0)) == (-98290070145459573int, 1594653633977828310int));
    ratio_add_value(-2374809571887065250886075506672470699996107482362285819316723754939930337630000269040816004717355344int, 23231847966191346633456833316410388909527557654477522451211584007789126146377360257541254663309536000int, -98290070145459573int, 1594653633977828310int);
    assert(ratio_sum(|i: int| ratio_mul(dp87_weight8(i), dp87_coupling(i, 0)), 12) == (-6070458680020639077443537507207156120838698003040658953323803994699423050291258721803521504256443930692072229081116640int, 37046750783307450717162080211906549973258293981175614493368937401160910949975415379726964199117473188647870593764160000int));
    assert(dp87_weight8(12) == (1int, 4int));
    assert(dp87_coupling(12, 0) == (403863854int, 491063109int));
    ratio_mul_value(1int, 4int, 403863854int, 491063109int);
    assert(ratio_mul(dp87_weight8(12), dp87_coupling(12, 0)) == (403863854int, 1964252436int));
    ratio_add_value(-6070458680020639077443537507207156120838698003040658953323803994699423050291258721803521504256443930692072229081116640int, 37046750783307450717162080211906549973258293981175614493368937401160910949975415379726964199117473188647870593764160000int, 403863854int, 1964252436int);
    assert(ratio_sum(|i: int| ratio_mul(dp87_weight8(i), dp87_coupling(i, 0)), 13) == (3037930299656181075402880456048691993053968629161637363998744209342716756078717006698591801061501761149680025030328622952504960int, 72769170471996568208135563063064836989328338809728338912396841136961828561468283799740554443001285760966267360014017689493760000int));
    assert(dp87_weight8(0) == (14005451int, 335480064int));
    assert(dp87_node(0) == (0int, 1int));
    assert(one_minus(dp87_node(0)) == (1int, 1int));
    ratio_mul_value(14005451int, 335480064int, 1int, 1int);
    assert(ratio_mul(dp87_weight8(0), one_minus(dp87_node(0))) == (14005451int, 335480064int));
    assert(within_1e14((3037930299656181075402880456048691993053968629161637363998744209342716756078717006698591801061501761149680025030328622952504960int, 72769170471996568208135563063064836989328338809728338912396841136961828561468283799740554443001285760966267360014017689493760000int), (14005451int, 335480064int))) by (nonlinear_arith);
}

/// Column 1 weighted by the eighth-order weights, exactly, stage by stage.
#[verifier::spinoff_prover]
proof fn column_condition_1()
    ensures
        within_1e14(weighted_column(1), ratio_mul(dp87_weight8(1), one_minus(dp87_node(1)))),
{
    assert(ratio_sum(|i: int| ratio_mul(dp87_weight8(i), dp87_coupling(i, 1)), 0) == (0int, 1int));
    assert(dp87_weight8(0) == (14005451int, 335480064int));
    assert(dp87_coupling(0, 1) == (0int, 1int));
    ratio_mul_value(14005451int, 335480064int, 0int, 1int);
    assert(ratio_mul(dp87_weight8(0), dp87_coupling(0, 1)) == (0int, 335480064int));
    ratio_add_value(0int, 1int, 0int, 335480064int);
    assert(ratio_sum(|i: int| ratio_mul(dp87_weight8(i), dp87_coupling(i, 1)), 1) == (0int, 1int));
    assert(dp87_weight8(1) == (0int, 1int));
    assert(dp87_coupling(1, 1) == (0int, 1int));
    ratio_mul_value(0int, 1int, 0int, 1int);
    assert(ratio_mul(dp87_weight8(1), dp87_coupling(1, 1)) == (0int, 1int));
    ratio_add_value(0int, 1int, 0int, 1int);
    assert(ratio_sum(|i: int| ratio_mul(dp87_weight8(i), dp87_coupling(i, 1)), 2) == (0int, 1int));
    assert(dp87_weight8(2) == (0int, 1int));
    assert(dp87_coupling(2, 1) == (1int, 16int));
    ratio_mul_value(0int, 1int, 1int, 16int);
    assert(ratio_mul(dp87_weight8(2), dp87_coupling(2, 1)) == (0int, 16int));
    ratio_add_value(0int, 1int, 0int, 16int);
    assert(ratio_sum(|i: int| ratio_mul(dp87_weight8(i), dp87_coupling(i, 1)), 3) == (0int, 1int));
    assert(dp87_weight8(3) == (0int, 1int));
    assert(dp87_coupling(3, 1) == (0int, 1int));
    ratio_mul_value(0int, 1int, 0int, 1int);
    assert(ratio_mul(dp87_weight8(3), dp87_coupling(3, 1)) == (0int, 1int));
    ratio_add_value(0int, 1int, 0int, 1int);
    assert(ratio_sum(|i: int| ratio_mul(dp87_weight8(i), dp87_coupling(i, 1)), 4) == (0int, 1int));
    assert(dp87_weight8(4) == (0int, 1int));
    assert(dp87_coupling(4, 1) == (0int, 1int));
    ratio_mul_value(0int, 1int, 0int, 1int);
    assert(ratio_mul(dp87_weight8(4), dp87_coupling(4, 1)) == (0int, 1int));
    ratio_add_value(0int, 1int, 0int, 1int);
    assert(ratio_sum(|i: int| ratio_mul(dp87_weight8(i), dp87_coupling(i, 1)), 5) == (0int, 1int));
    assert(dp87_weight8(5) == (-59238493int, 1068277825int));
    assert(dp87_coupling(5, 1) == (0int, 1int));
    ratio_mul_value(-59238493int, 1068277825int, 0int, 1int);
    assert(ratio_mul(dp87_weight8(5), dp87_coupling(5, 1)) == (0int, 1068277825int));
    ratio_add_value(0int, 1int, 0int, 1068277825int);
    assert(ratio_sum(|i: int| ratio_mul(dp87_weight8(i), dp87_coupling(i, 1)), 6) == (0int, 1int));
    assert(dp87_weight8(6) == (181606767int, 758867731int));
    assert(dp87_coupling(6, 1) == (0int, 1int));
    ratio_mul_value(181606767int, 758867731int, 0int, 1int);
    assert(ratio_mul(dp87_weight8(6), dp87_coupling(6, 1)) == (0int, 758867731int));
    ratio_add_value(0int, 1int, 0int, 758867731int);
    assert(ratio_sum(|i: int| ratio_mul(dp87_weight8(i), dp87_coupling(i, 1)), 7) == (0int, 1int));
    assert(dp87_weight8(7) == (561292985int, 797845732int));
    assert(dp87_coupling(7, 1) == (0int, 1int));
    ratio_mul_value(561292985int, 797845732int, 0int, 1int);
    assert(ratio_mul(dp87_weight8(7), dp87_coupling(7, 1)) == (0int, 797845732int));
    ratio_add_value(0int, 1int, 0int, 797845732int);
    assert(ratio_sum(|i: int| ratio_mul(dp87_weight8(i), dp87_coupling(i, 1)), 8) == (0int, 1int));
    assert(dp87_weight8(8) == (-1041891430int, 1371343529int));
    assert(dp87_coupling(8, 1) == (0int, 1int));
    ratio_mul_value(-1041891430int, 1371343529int, 0int, 1int);
    assert(ratio_mul(dp87_weight8(8), dp87_coupling(8, 1)) == (0int, 1371343529int));
    ratio_add_value(0int, 1int, 0int, 1371343529int);
    assert(ratio_sum(|i: int| ratio_mul(dp87_weight8(i), dp87_coupling(i, 1)), 9) == (0int, 1int));
    assert(dp87_weight8(9) == (760417239int, 1151165299int));
    assert(dp87_coupling(9, 1) == (0int, 1int));
    ratio_mul_value(760417239int, 1151165299int, 0int, 1int);
    assert(ratio_mul(dp87_weight8(9), dp87_coupling(9, 1)) == (0int, 1151165299int));
    ratio_add_value(0int, 1int, 0int, 1151165299int);
    assert(ratio_sum(|i: int| ratio_mul(dp87_weight8(i), dp87_coupling(i, 1)), 10) == (0int, 1int));
    assert(dp87_weight8(10) == (118820643int, 751138087int));
    assert(dp87_coupling(10, 1) == (0int, 1int));
    ratio_mul_value(118820643int, 751138087int, 0int, 1int);
    assert(ratio_mul(dp87_weight8(10), dp87_coupling(10, 1)) == (0int, 751138087int));
    ratio_add_value(0int, 1int, 0int, 751138087int);
    assert(ratio_sum(|i: int| ratio_mul(dp87_weight8(i), dp87_coupling(i, 1)), 11) == (0int, 1int));
    assert(dp87_weight8(11) == (-528747749int, 2220607170int));
    assert(dp87_coupling(11, 1) == (0int, 1int));
    ratio_mul_value(-528747749int, 2220607170int, 0int, 1int);
    assert(ratio_mul(dp87_weight8(11), dp87_coupling(11, 1)) == (0int, 2220607170int));
    ratio_add_value(0int, 1int, 0int, 2220607170int);
    assert(ratio_sum(|i: int| ratio_mul(dp87_weight8(i), dp87_coupling(i, 1)), 12) == (0int, 1int));
    assert(dp87_weight8(12) == (1int, 4int));
    assert(dp87_coupling(12, 1) == (0int, 1int));
    ratio_mul_value(1int, 4int, 0int, 1int);
    assert(ratio_mul(dp87_weight8(12), dp87_coupling(12, 1)) == (0int, 4int));
    ratio_add_value(0int, 1int, 0int, 4int);
    assert(ratio_sum(|i: int| ratio_mul(dp87_weight8(i), dp87_coupling(i, 1)), 13) == (0int, 1int));
    assert(dp87_weight8(1) == (0int, 1int));
    assert(dp87_node(1) == (1int, 18int));
    assert(one_minus(dp87_node(1)) == (17int, 18int));
    ratio_mul_value(0int, 1int, 17int, 18int);
    assert(ratio_mul(dp87_weight8(1), one_minus(dp87_node(1))) == (0int, 18int));
    assert(within_1e14((0int, 1int), (0int, 18int))) by (nonlinear_arith);
}

/// Column 2 weighted by the eighth-order weights, exactly, stage by stage.
#[verifier::spinoff_prover]
proof fn column_condition_2()
    ensures
        within_1e14(weighted_column(2), ratio_mul(dp87_weight8(2), one_minus(dp87_node(2)))),
{
    assert(ratio_sum(|i: int| ratio_mul(dp87_weight8(i), dp87_coupling(i, 2)), 0) == (0int, 1int));
    assert(dp87_weight8(0) == (14005451int, 335480064int));
    assert(dp87_coupling(0, 2) == (0int, 1int));
    ratio_mul_value(14005451int, 335480064int, 0int, 1int);
    assert(ratio_mul(dp87_weight8(0), dp87_coupling(0, 2)) == (0int, 335480064int));
    ratio_add_value(0int, 1int, 0int, 335480064int);
    assert(ratio_sum(|i: int| ratio_mul(dp87_weight8(i), dp87_coupling(i, 2)), 1) == (0int, 1int));
    assert(dp87_weight8(1) == (0int, 1int));
    assert(dp87_coupling(1, 2) == (0int, 1int));
    ratio_mul_value(0int, 1int, 0int, 1int);
    assert(ratio_mul(dp87_weight8(1), dp87_coupling(1, 2)) == (0int, 1int));
    ratio_add_value(0int, 1int, 0int, 1int);
    assert(ratio_sum(|i: int| ratio_mul(dp87_weight8(i), dp87_coupling(i, 2)), 2) == (0int, 1int));
    assert(dp87_weight8(2) == (0int, 1int));
    assert(dp87_coupling(2, 2) == (0int, 1int));
    ratio_mul_value(0int, 1int, 0int, 1int);
    assert(ratio_mul(dp87_weight8(2), dp87_coupling(2, 2)) == (0int, 1int));
    ratio_add_value(0int, 1int, 0int, 1int);
    assert(ratio_sum(|i: int| ratio_mul(dp87_weight8(i), dp87_coupling(i, 2)), 3) == (0int, 1int));
    assert(dp87_weight8(3) == (0int, 1int));
    assert(dp87_coupling(3, 2) == (3int, 32int));
    ratio_mul_value(0int, 1int, 3int, 32int);
    assert(ratio_mul(dp87_weight8(3), dp87_coupling(3, 2)) == (0int, 32int));
    ratio_add_value(0int, 1int, 0int, 32int);
    assert(ratio_sum(|i: int| ratio_mul(dp87_weight8(i), dp87_coupling(i, 2)), 4) == (0int, 1int));
    assert(dp87_weight8(4) == (0int, 1int));
    assert(dp87_coupling(4, 2) == (-75int, 64int));
    ratio_mul_value(0int, 1int, -75int, 64int);
    assert(ratio_mul(dp87_weight8(4), dp87_coupling(4, 2)) == (0int, 64int));
    ratio_add_value(0int, 1int, 0int, 64int);
    assert(ratio_sum(|i: int| ratio_mul(dp87_weight8(i), dp87_coupling(i, 2)), 5) == (0int, 1int));
    assert(dp87_weight8(5) == (-59238493int, 1068277825int));
    assert(dp87_coupling(5, 2) == (0int, 1int));
    ratio_mul_value(-59238493int, 1068277825int, 0int, 1int);
    assert(ratio_mul(dp87_weight8(5), dp87_coupling(5, 2)) == (0int, 1068277825int));
    ratio_add_value(0int, 1int, 0int, 1068277825int);
    assert(ratio_sum(|i: int| ratio_mul(dp87_weight8(i), dp87_coupling(i, 2)), 6) == (0int, 1int));
    assert(dp87_weight8(6) == (181606767int, 758867731int));
    assert(dp87_coupling(6, 2) == (0int, 1int));
    ratio_mul_value(181606767int, 758867731int, 0int, 1int);
    assert(ratio_mul(dp87_weight8(6), dp87_coupling(6, 2)) == (0int, 758867731int));
    ratio_add_value(0int, 1int, 0int, 758867731int);
    assert(ratio_sum(|i: int| ratio_mul(dp87_weight8(i), dp87_coupling(i, 2)), 7) == (0int, 1int));
    assert(dp87_weight8(7) == (561292985int, 797845732int));
    assert(dp87_coupling(7, 2) == (0int, 1int));
    ratio_mul_value(561292985int, 797845732int, 0int, 1int);
    assert(ratio_mul(dp87_weight8(7), dp87_coupling(7, 2)) == (0int, 797845732int));
    ratio_add_value(0int, 1int, 0int, 797845732int);
    assert(ratio_sum(|i: int| ratio_mul(dp87_weight8(i), dp87_coupling(i, 2)), 8) == (0int, 1int));
    assert(dp87_weight8(8) == (-1041891430int, 1371343529int));
    assert(dp87_coupling(8, 2) == (0int, 1int));
    ratio_mul_value(-1041891430int, 1371343529int, 0int, 1int);
    assert(ratio_mul(dp87_weight8(8), dp87_coupling(8, 2)) == (0int, 1371343529int));
    ratio_add_value(0int, 1int, 0int, 1371343529int);
    assert(ratio_sum(|i: int| ratio_mul(dp87_weight8(i), dp87_coupling(i, 2)), 9) == (0int, 1int));
    assert(dp87_weight8(9) == (760417239int, 1151165299int));
    assert(dp87_coupling(9, 2) == (0int, 1int));
    ratio_mul_value(760417239int, 1151165299int, 0int, 1int);
    assert(ratio_mul(dp87_weight8(9), dp87_coupling(9, 2)) == (0int, 1151165299int));
    ratio_add_value(0int, 1int, 0int, 1151165299int);
    assert(ratio_sum(|i: int| ratio_mul(dp87_weight8(i), dp87_coupling(i, 2)), 10) == (0int, 1int));
    assert(dp87_weight8(10) == (118820643int, 751138087int));
    assert(dp87_coupling(10, 2) == (0int, 1int));
    ratio_mul_value(118820643int, 751138087int, 0int, 1int);
    assert(ratio_mul(dp87_weight8(10), dp87_coupling(10, 2)) == (0int, 751138087int));
    ratio_add_value(0int, 1int, 0int, 751138087int);
    assert(ratio_sum(|i: int| ratio_mul(dp87_weight8(i), dp87_coupling(i, 2)), 11) == (0int, 1int));
    assert(dp87_weight8(11) == (-528747749int, 2220607170int));
    assert(dp87_coupling(11, 2) == (0int, 1int));
    ratio_mul_value(-528747749int, 2220607170int, 0int, 1int);
    assert(ratio_mul(dp87_weight8(11), dp87_coupling(11, 2)) == (0int, 2220607170int));
    ratio_add_value(0int, 1int, 0int, 2220607170int);
    assert(ratio_sum(|i: int| ratio_mul(dp87_weight8(i), dp87_coupling(i, 2)), 12) == (0int, 1int));
    assert(dp87_weight8(12) == (1int, 4int));
    assert(dp87_coupling(12, 2) == (0int, 1int));
    ratio_mul_value(1int, 4int, 0int, 1int);
    assert(ratio_mul(dp87_weight8(12), dp87_coupling(12, 2)) == (0int, 4int));
    ratio_add_value(0int, 1int, 0int, 4int);
    assert(ratio_sum(|i: int| ratio_mul(dp87_weight8(i), dp87_coupling(i, 2)), 13) == (0int, 1int));
    assert(dp87_weight8(2) == (0int, 1int));
    assert(dp87_node(2) == (1int, 12int));
    assert(one_minus(dp87_node(2)) == (11int, 12int));
    ratio_mul_value(0int, 1int, 11int, 12int);
    assert(ratio_mul(dp87_weight8(2), one_minus(dp87_node(2))) == (0int, 12int));
    assert(within_1e14((0int, 1int), (0int, 12int))) by (nonlinear_arith);
}

/// Column 3 weighted by the eighth-order weights, exactly, stage by stage.
#[verifier::spinoff_prover]
proof fn column_condition_3()
    ensures
        within_1e14(weighted_column(3), ratio_mul(dp87_weight8(3), one_minus(dp87_node(3)))),
{
    assert(ratio_sum(|i: int| ratio_mul(dp87_weight8(i), dp87_coupling(i, 3)), 0) == (0int, 1int));
    assert(dp87_weight8(0) == (14005451int, 335480064int));
    assert(dp87_coupling(0, 3) == (0int, 1int));
    ratio_mul_value(14005451int, 335480064int, 0int, 1int);
    assert(ratio_mul(dp87_weight8(0), dp87_coupling(0, 3)) == (0int, 335480064int));
    ratio_add_value(0int, 1int, 0int, 335480064int);
    assert(ratio_sum(|i: int| ratio_mul(dp87_weight8(i), dp87_coupling(i, 3)), 1) == (0int, 1int));
    assert(dp87_weight8(1) == (0int, 1int));
    assert(dp87_coupling(1, 3) == (0int, 1int));
    ratio_mul_value(0int, 1int, 0int, 1int);
    assert(ratio_mul(dp87_weight8(1), dp87_coupling(1, 3)) == (0int, 1int));
    ratio_add_value(0int, 1int, 0int, 1int);
    assert(ratio_sum(|i: int| ratio_mul(dp87_weight8(i), dp87_coupling(i, 3)), 2) == (0int, 1int));
    assert(dp87_weight8(2) == (0int, 1int));
    assert(dp87_coupling(2, 3) == (0int, 1int));
    ratio_mul_value(0int, 1int, 0int, 1int);
    assert(ratio_mul(dp87_weight8(2), dp87_coupling(2, 3)) == (0int, 1int));
    ratio_add_value(0int, 1int, 0int, 1int);
    assert(ratio_sum(|i: int| ratio_mul(dp87_weight8(i), dp87_coupling(i, 3)), 3) == (0int, 1int));
    assert(dp87_weight8(3) == (0int, 1int));
    assert(dp87_coupling(3, 3) == (0int, 1int));
    ratio_mul_value(0int, 1int, 0int, 1int);
    assert(ratio_mul(dp87_weight8(3), dp87_coupling(3, 3)) == (0int, 1int));
    ratio_add_value(0int, 1int, 0int, 1int);
    assert(ratio_sum(|i: int| ratio_mul(dp87_weight8(i), dp87_coupling(i, 3)), 4) == (0int, 1int));
    assert(dp87_weight8(4) == (0int, 1int));
    assert(dp87_coupling(4, 3) == (75int, 64int));
    ratio_mul_value(0int, 1int, 75int, 64int);
    assert(ratio_mul(dp87_weight8(4), dp87_coupling(4, 3)) == (0int, 64int));
    ratio_add_value(0int, 1int, 0int, 64int);
    assert(ratio_sum(|i: int| ratio_mul(dp87_weight8(i), dp87_coupling(i, 3)), 5) == (0int, 1int));
    assert(dp87_weight8(5) == (-59238493int, 1068277825int));
    assert(dp87_coupling(5, 3) == (3int, 16int));
    ratio_mul_value(-59238493int, 1068277825int, 3int, 16int);
    assert(ratio_mul(dp87_weight8(5), dp87_coupling(5, 3)) == (-177715479int, 17092445200int));
    ratio_add_value(0int, 1int, -177715479int, 17092445200int);
    assert(ratio_sum(|i: int| ratio_mul(dp87_weight8(i), dp87_coupling(i, 3)), 6) == (-177715479int, 17092445200int));
    assert(dp87_weight8(6) == (181606767int, 758867731int));
    assert(dp87_coupling(6, 3) == (77736538int, 692538347int));
    ratio_mul_value(181606767int, 758867731int, 77736538int, 692538347int);
    assert(ratio_mul(dp87_weight8(6), dp87_coupling(6, 3)) == (14117481343952646int, 525545004018380657int));
    ratio_add_value(-177715479int, 17092445200int, 14117481343952646int, 525545004018380657int);
    assert(ratio_sum(|i: int| ratio_mul(dp87_weight8(i), dp87_coupling(i, 3)), 7) == (147904794108349509886909497int, 8982849181317951172512496400int));
    assert(dp87_weight8(7) == (561292985int, 797845732int));
    assert(dp87_coupling(7, 3) == (61564180int, 158732637int));
    ratio_mul_value(561292985int, 797845732int, 61564180int, 158732637int);
    assert(ratio_mul(dp87_weight8(7), dp87_coupling(7, 3)) == (34555542361277300int, 126644156959555284int));
    ratio_add_value(147904794108349509886909497int, 8982849181317951172512496400int, 34555542361277300int, 126644156959555284int);
    assert(ratio_sum(|i: int| ratio_mul(dp87_weight8(i), dp87_coupling(i, 3)), 8) == (329138503370126098577704805438941497927852148int, 1137625361662843291200769637669399876650977600int));
    assert(dp87_weight8(8) == (-1041891430int, 1371343529int));
    assert(dp87_coupling(8, 3) == (-433636366int, 683701615int));
    ratio_mul_value(-1041891430int, 1371343529int, -433636366int, 683701615int);
    assert(ratio_mul(dp87_weight8(8), dp87_coupling(8, 3)) == (451802013471743380int, 937589785497099335int));
    ratio_add_value(329138503370126098577704805438941497927852148int, 1137625361662843291200769637669399876650977600int, 451802013471743380int, 937589785497099335int);
    assert(ratio_sum(|i: int| ratio_mul(dp87_weight8(i), dp87_coupling(i, 3)), 9) == (822578327749425694889149020843776314528156441159771414077409580int, 1066625918817525294647355890682094469801866236556098992059896000int));
    assert(dp87_weight8(9) == (760417239int, 1151165299int));
    assert(dp87_coupling(9, 3) == (-37695042795int, 15268766246int));
    ratio_mul_value(760417239int, 1151165299int, -37695042795int, 15268766246int);
    assert(ratio_mul(dp87_weight8(9), dp87_coupling(9, 3)) == (-28663960366160743005int, 17576873860937697554int));
    ratio_add_value(822578327749425694889149020843776314528156441159771414077409580int, 1066625918817525294647355890682094469801866236556098992059896000int, -28663960366160743005int, 17576873860937697554int);
    assert(ratio_sum(|i: int| ratio_mul(dp87_weight8(i), dp87_coupling(i, 3)), 10) == (-16115367554912608474962430438617438604937373791379434366772156803748027893205312680int, 18747949231862414976484103714171078767571073408469609631763772965354989900694384000int));
    assert(dp87_weight8(10) == (118820643int, 751138087int));
    assert(dp87_coupling(10, 3) == (8478235783int, 508512852int));
    ratio_mul_value(118820643int, 751138087int, 8478235783int, 508512852int);
    assert(ratio_mul(dp87_weight8(10), dp87_coupling(10, 3)) == (1007389427241668469int, 381963370866194124int));
    ratio_add_value(-16115367554912608474962430438617438604937373791379434366772156803748027893205312680int, 18747949231862414976484103714171078767571073408469609631763772965354989900694384000int, 1007389427241668469int, 381963370866194124int);
    assert(ratio_sum(|i: int| ratio_mul(dp87_weight8(i), dp87_coupling(i, 3)), 11) == (12731005724619639882997696212987005810077082096737968887657073501793330474696368579850168849179403680int, 7161029885430442862445876435174430819218457872827664176321977461369469087445740078774898940599616000int));
    assert(dp87_weight8(11) == (-528747749int, 2220607170int));
    assert(dp87_coupling(11, 3) == (-3185094517int, 667107341int));
    ratio_mul_value(-528747749int, 2220607170int, -3185094517int, 667107341int);
    assert(ratio_mul(dp87_weight8(11), dp87_coupling(11, 3)) == (1684111556215992233int, 1481383344584234970int));
    ratio_add_value(12731005724619639882997696212987005810077082096737968887657073501793330474696368579850168849179403680int, 7161029885430442862445876435174430819218457872827664176321977461369469087445740078774898940599616000int, 1684111556215992233int, 1481383344584234970int);
    assert(ratio_sum(|i: int| ratio_mul(dp87_weight8(i), dp87_coupling(i, 3)), 12) == (30919473024719575699920553977808729963786750573343695265640181249363413717719843503418328099667879882791510772385217600int, 10608230402346610407254562675377278295998339124605743052006590787639680148748866787670172547438367234510152435771520000int));
    assert(dp87_weight8(12) == (1int, 4int));
    assert(dp87_coupling(12, 3) == (-5068492393int, 434740067int));
    ratio_mul_value(1int, 4int, -5068492393int, 434740067int);
    assert(ratio_mul(dp87_weight8(12), dp87_coupling(12, 3)) == (-5068492393int, 1738960268int));
    ratio_add_value(30919473024719575699920553977808729963786750573343695265640181249363413717719843503418328099667879882791510772385217600int, 10608230402346610407254562675377278295998339124605743052006590787639680148748866787670172547438367234510152435771520000int, -5068492393int, 1738960268int);
    assert(ratio_sum(|i: int| ratio_mul(dp87_weight8(i), dp87_coupling(i, 3)), 13) == (-214524248810732728337745346121827581807960028016054020510925764373054221001378408852484220541106485209113043200int, 18447291183470409462690983454196868866719855131679288332056519053840229278902609253783222348699665799606193528430095205967360000int));
    assert(dp87_weight8(3) == (0int, 1int));
    assert(dp87_node(3) == (1int, 8int));
    assert(one_minus(dp87_node(3)) == (7int, 8int));
    ratio_mul_value(0int, 1int, 7int, 8int);
    assert(ratio_mul(dp87_weight8(3), one_minus(dp87_node(3))) == (0int, 8int));
    assert(within_1e14((-214524248810732728337745346121827581807960028016054020510925764373054221001378408852484220541106485209113043200int, 18447291183470409462690983454196868866719855131679288332056519053840229278902609253783222348699665799606193528430095205967360000int), (0int, 8int))) by (nonlinear_arith);
}

/// Column 4 weighted by the eighth-order weights, exactly, stage by stage.
#[verifier::spinoff_prover]
proof fn column_condition_4()
    ensures
        within_1e14(weighted_column(4), ratio_mul(dp87_weight8(4), one_minus(dp87_node(4)))),
{
    assert(ratio_sum(|i: int| ratio_mul(dp87_weight8(i), dp87_coupling(i, 4)), 0) == (0int, 1int));
    assert(dp87_weight8(0) == (14005451int, 335480064int));
    assert(dp87_coupling(0, 4) == (0int, 1int));
    ratio_mul_value(14005451int, 335480064int, 0int, 1int);
    assert(ratio_mul(dp87_weight8(0), dp87_coupling(0, 4)) == (0int, 335480064int));
    ratio_add_value(0int, 1int, 0int, 335480064int);
    assert(ratio_sum(|i: int| ratio_mul(dp87_weight8(i), dp87_coupling(i, 4)), 1) == (0int, 1int));
    assert(dp87_weight8(1) == (0int, 1int));
    assert(dp87_coupling(1, 4) == (0int, 1int));
    ratio_mul_value(0int, 1int, 0int, 1int);
    assert(ratio_mul(dp87_weight8(1), dp87_coupling(1, 4)) == (0int, 1int));
    ratio_add_value(0int, 1int, 0int, 1int);
    assert(ratio_sum(|i: int| ratio_mul(dp87_weight8(i), dp87_coupling(i, 4)), 2) == (0int, 1int));
    assert(dp87_weight8(2) == (0int, 1int));
    assert(dp87_coupling(2, 4) == (0int, 1int));
    ratio_mul_value(0int, 1int, 0int, 1int);
    assert(ratio_mul(dp87_weight8(2), dp87_coupling(2, 4)) == (0int, 1int));
    ratio_add_value(0int, 1int, 0int, 1int);
    assert(ratio_sum(|i: int| ratio_mul(dp87_weight8(i), dp87_coupling(i, 4)), 3) == (0int, 1int));
    assert(dp87_weight8(3) == (0int, 1int));
    assert(dp87_coupling(3, 4) == (0int, 1int));
    ratio_mul_value(0int, 1int, 0int, 1int);
    assert(ratio_mul(dp87_weight8(3), dp87_coupling(3, 4)) == (0int, 1int));
    ratio_add_value(0int, 1int, 0int, 1int);
    assert(ratio_sum(|i: int| ratio_mul(dp87_weight8(i), dp87_coupling(i, 4)), 4) == (0int, 1int));
    assert(dp87_weight8(4) == (0int, 1int));
    assert(dp87_coupling(4, 4) == (0int, 1int));
    ratio_mul_value(0int, 1int, 0int, 1int);
    assert(ratio_mul(dp87_weight8(4), dp87_coupling(4, 4)) == (0int, 1int));
    ratio_add_value(0int, 1int, 0int, 1int);
    assert(ratio_sum(|i: int| ratio_mul(dp87_weight8(i), dp87_coupling(i, 4)), 5) == (0int, 1int));
    assert(dp87_weight8(5) == (-59238493int, 1068277825int));
    assert(dp87_coupling(5, 4) == (3int, 20int));
    ratio_mul_value(-59238493int, 1068277825int, 3int, 20int);
    assert(ratio_mul(dp87_weight8(5), dp87_coupling(5, 4)) == (-177715479int, 21365556500int));
    ratio_add_value(0int, 1int, -177715479int, 21365556500int);
    assert(ratio_sum(|i: int| ratio_mul(dp87_weight8(i), dp87_coupling(i, 4)), 6) == (-177715479int, 21365556500int));
    assert(dp87_weight8(6) == (181606767int, 758867731int));
    assert(dp87_coupling(6, 4) == (-28693883int, 1125000000int));
    ratio_mul_value(181606767int, 758867731int, -28693883int, 1125000000int);
    assert(ratio_mul(dp87_weight8(6), dp87_coupling(6, 4)) == (-5211003324306261int, 853726197375000000int));
    ratio_add_value(-177715479int, 21365556500int, -5211003324306261int, 853726197375000000int);
    assert(ratio_sum(|i: int| ratio_mul(dp87_weight8(i), dp87_coupling(i, 4)), 7) == (-263056346048499910324246500int, 18240335305545714187500000000int));
    assert(dp87_weight8(7) == (561292985int, 797845732int));
    assert(dp87_coupling(7, 4) == (22789713int, 633445777int));
    ratio_mul_value(561292985int, 797845732int, 22789713int, 633445777int);
    assert(ratio_mul(dp87_weight8(7), dp87_coupling(7, 4)) == (12791706037063305int, 505392009632873764int));
    ratio_add_value(-263056346048499910324246500int, 18240335305545714187500000000int, 12791706037063305int, 505392009632873764int);
    assert(ratio_sum(|i: int| ratio_mul(dp87_weight8(i), dp87_coupling(i, 4)), 8) == (100378431869876015195346426527352844581174000int, 9218519716447206996003233899411326750000000000int));
    assert(dp87_weight8(8) == (-1041891430int, 1371343529int));
    assert(dp87_coupling(8, 4) == (-421739975int, 2616292301int));
    ratio_mul_value(-1041891430int, 1371343529int, -421739975int, 2616292301int);
    assert(ratio_mul(dp87_weight8(8), dp87_coupling(8, 4)) == (439407265640914250int, 3587835516948870229int));
    ratio_add_value(100378431869876015195346426527352844581174000int, 9218519716447206996003233899411326750000000000int, 439407265640914250int, 3587835516948870229int);
    assert(ratio_sum(|i: int| ratio_mul(dp87_weight8(i), dp87_coupling(i, 4)), 9) == (4410825844859296956649071015092318774179929866058511482468846000int, 33074532452362717513650349003871120241205841578466325750000000000int));
    assert(dp87_weight8(9) == (760417239int, 1151165299int));
    assert(dp87_coupling(9, 4) == (-309121744int, 1061227803int));
    ratio_mul_value(760417239int, 1151165299int, -309121744int, 1061227803int);
    assert(ratio_mul(dp87_weight8(9), dp87_coupling(9, 4)) == (-235061503087344816int, 1221648621147608097int));
    ratio_add_value(4410825844859296956649071015092318774179929866058511482468846000int, 33074532452362717513650349003871120241205841578466325750000000000int, -235061503087344816int, 1221648621147608097int);
    assert(ratio_sum(|i: int| ratio_mul(dp87_weight8(i), dp87_coupling(i, 4)), 10) == (-2386070000668951555982791936766803276745516758675019375485799872888570780153938000int, 40405456965530730836821501422686377244241565433540425408105181272539597750000000000int));
    assert(dp87_weight8(10) == (118820643int, 751138087int));
    assert(dp87_coupling(10, 4) == (1311729495int, 1432422823int));
    ratio_mul_value(118820643int, 751138087int, 1311729495int, 1432422823int);
    assert(ratio_mul(dp87_weight8(10), dp87_coupling(10, 4)) == (155860542037965285int, 1075947339043359601int));
    ratio_add_value(-2386070000668951555982791936766803276745516758675019375485799872888570780153938000int, 40405456965530730836821501422686377244241565433540425408105181272539597750000000000int, 155860542037965285int, 1075947339043359601int);
    assert(ratio_sum(|i: int| ratio_mul(dp87_weight8(i), dp87_coupling(i, 4)), 11) == (3730330755948354025368052154761245378549105388293750875526005221476896500691526254405393279741262000int, 43474143904893769058851420916047098237400479066857995891592463685367316797252876465140497750000000000int));
    assert(dp87_weight8(11) == (-528747749int, 2220607170int));
    assert(dp87_coupling(11, 4) == (-477755414int, 1098053517int));
    ratio_mul_value(-528747749int, 2220607170int, -477755414int, 1098053517int);
    assert(ratio_mul(dp87_weight8(11), dp87_coupling(11, 4)) == (252612099725063086int, 2438345512893916890int));
    ratio_add_value(3730330755948354025368052154761245378549105388293750875526005221476896500691526254405393279741262000int, 43474143904893769058851420916047098237400479066857995891592463685367316797252876465140497750000000000int, 252612099725063086int, 2438345512893916890int);
    assert(ratio_sum(|i: int| ratio_mul(dp87_weight8(i), dp87_coupling(i, 4)), 12) == (20077930035941610324440104413437289521340914646519885433173705189237006952063442783812261329667302650960409431715180000int, 106004983717402148136289919882933059925142341829224660155534724119283489269125255596910809011431185161731997500000000000int));
    assert(dp87_weight8(12) == (1int, 4int));
    assert(dp87_coupling(12, 4) == (-411421997int, 543043805int));
    ratio_mul_value(1int, 4int, -411421997int, 543043805int);
    assert(ratio_mul(dp87_weight8(12), dp87_coupling(12, 4)) == (-411421997int, 2172175220int));
    ratio_add_value(20077930035941610324440104413437289521340914646519885433173705189237006952063442783812261329667302650960409431715180000int, 106004983717402148136289919882933059925142341829224660155534724119283489269125255596910809011431185161731997500000000000int, -411421997int, 2172175220int);
    assert(ratio_sum(|i: int| ratio_mul(dp87_weight8(i), dp87_coupling(i, 4)), 13) == (-124677271828125210409500336817330688267657538432353642155991644817931660881901048364660035821623011406160400000int, 230261398827444428956418146705492493688169249894211278602773873581443919545529791283775967884783517143545937250601950000000000000int));
    assert(dp87_weight8(4) == (0int, 1int));
    assert(dp87_node(4) == (5int, 16int));
    assert(one_minus(dp87_node(4)) == (11int, 16int));
    ratio_mul_value(0int, 1int, 11int, 16int);
    assert(ratio_mul(dp87_weight8(4), one_minus(dp87_node(4))) == (0int, 16int));
    assert(within_1e14((-124677271828125210409500336817330688267657538432353642155991644817931660881901048364660035821623011406160400000int, 230261398827444428956418146705492493688169249894211278602773873581443919545529791283775967884783517143545937250601950000000000000int), (0int, 16int))) by (nonlinear_arith);
}

/// Column 5 weighted by the eighth-order weights, exactly, stage by stage.
#[verifier::spinoff_prover]
proof fn column_condition_5()
    ensures
        within_1e14(weighted_column(5), ratio_mul(dp87_weight8(5), one_minus(dp87_node(5)))),
{
    assert(ratio_sum(|i: int| ratio_mul(dp87_weight8(i), dp87_coupling(i, 5)), 0) == (0int, 1int));
    assert(dp87_weight8(0) == (14005451int, 335480064int));
    assert(dp87_coupling(0, 5) == (0int, 1int));
    ratio_mul_value(14005451int, 335480064int, 0int, 1int);
    assert(ratio_mul(dp87_weight8(0), dp87_coupling(0, 5)) == (0int, 335480064int));
    ratio_add_value(0int, 1int, 0int, 335480064int);
    assert(ratio_sum(|i: int| ratio_mul(dp87_weight8(i), dp87_coupling(i, 5)), 1) == (0int, 1int));
    assert(dp87_weight8(1) == (0int, 1int));
    assert(dp87_coupling(1, 5) == (0int, 1int));
    ratio_mul_value(0int, 1int, 0int, 1int);
    assert(ratio_mul(dp87_weight8(1), dp87_coupling(1, 5)) == (0int, 1int));
    ratio_add_value(0int, 1int, 0int, 1int);
    assert(ratio_sum(|i: int| ratio_mul(dp87_weight8(i), dp87_coupling(i, 5)), 2) == (0int, 1int));
    assert(dp87_weight8(2) == (0int, 1int));
    assert(dp87_coupling(2, 5) == (0int, 1int));
    ratio_mul_value(0int, 1int, 0int, 1int);
    assert(ratio_mul(dp87_weight8(2), dp87_coupling(2, 5)) == (0int, 1int));
    ratio_add_value(0int, 1int, 0int, 1int);
    assert(ratio_sum(|i: int| ratio_mul(dp87_weight8(i), dp87_coupling(i, 5)), 3) == (0int, 1int));
    assert(dp87_weight8(3) == (0int, 1int));
    assert(dp87_coupling(3, 5) == (0int, 1int));
    ratio_mul_value(0int, 1int, 0int, 1int);
    assert(ratio_mul(dp87_weight8(3), dp87_coupling(3, 5)) == (0int, 1int));
    ratio_add_value(0int, 1int, 0int, 1int);
    assert(ratio_sum(|i: int| ratio_mul(dp87_weight8(i), dp87_coupling(i, 5)), 4) == (0int, 1int));
    assert(dp87_weight8(4) == (0int, 1int));
    assert(dp87_coupling(4, 5) == (0int, 1int));
    ratio_mul_value(0int, 1int, 0int, 1int);
    assert(ratio_mul(dp87_weight8(4), dp87_coupling(4, 5)) == (0int, 1int));
    ratio_add_value(0int, 1int, 0int, 1int);
    assert(ratio_sum(|i: int| ratio_mul(dp87_weight8(i), dp87_coupling(i, 5)), 5) == (0int, 1int));
    assert(dp87_weight8(5) == (-59238493int, 1068277825int));
    assert(dp87_coupling(5, 5) == (0int, 1int));
    ratio_mul_value(-59238493int, 1068277825int, 0int, 1int);
    assert(ratio_mul(dp87_weight8(5), dp87_coupling(5, 5)) == (0int, 1068277825int));
    ratio_add_value(0int, 1int, 0int, 1068277825int);
    assert(ratio_sum(|i: int| ratio_mul(dp87_weight8(i), dp87_coupling(i, 5)), 6) == (0int, 1int));
    assert(dp87_weight8(6) == (181606767int, 758867731int));
    assert(dp87_coupling(6, 5) == (23124283int, 1800000000int));
    ratio_mul_value(181606767int, 758867731int, 23124283int, 1800000000int);
    assert(ratio_mul(dp87_weight8(6), dp87_coupling(6, 5)) == (4199526274823061int, 1365961915800000000int));
    ratio_add_value(0int, 1int, 4199526274823061int, 1365961915800000000int);
    assert(ratio_sum(|i: int| ratio_mul(dp87_weight8(i), dp87_coupling(i, 5)), 7) == (4199526274823061int, 1365961915800000000int));
    assert(dp87_weight8(7) == (561292985int, 797845732int));
    assert(dp87_coupling(7, 5) == (545815736int, 2771057229int));
    ratio_mul_value(561292985int, 797845732int, 545815736int, 2771057229int);
    assert(ratio_mul(dp87_weight8(7), dp87_coupling(7, 5)) == (306362543719411960int, 2210876183285396628int));
    ratio_add_value(4199526274823061int, 1365961915800000000int, 306362543719411960int, 2210876183285396628int);
    assert(ratio_sum(|i: int| ratio_mul(dp87_weight8(i), dp87_coupling(i, 5)), 8) == (427764199770416767273121033906038308int, 3019972666917112316145739922400000000int));
    assert(dp87_weight8(8) == (-1041891430int, 1371343529int));
    assert(dp87_coupling(8, 5) == (100302831int, 723423059int));
    ratio_mul_value(-1041891430int, 1371343529int, 100302831int, 723423059int);
    assert(ratio_mul(dp87_weight8(8), dp87_coupling(8, 5)) == (-104504660023638330int, 992061530689035211int));
    ratio_add_value(427764199770416767273121033906038308int, 3019972666917112316145739922400000000int, -104504660023638330int, 992061530689035211int);
    assert(ratio_sum(|i: int| ratio_mul(dp87_weight8(i), dp87_coupling(i, 5)), 9) == (108767189961356721253491804953023373919210907726862988int, 2995998706580838331300851654664403886182007626400000000int));
    assert(dp87_weight8(9) == (760417239int, 1151165299int));
    assert(dp87_coupling(9, 5) == (-12992083int, 490766935int));
    ratio_mul_value(760417239int, 1151165299int, -12992083int, 490766935int);
    assert(ratio_mul(dp87_weight8(9), dp87_coupling(9, 5)) == (-9879403883718837int, 564953865468588565int));
    ratio_add_value(108767189961356721253491804953023373919210907726862988int, 2995998706580838331300851654664403886182007626400000000int, -9879403883718837int, 564953865468588565int);
    assert(ratio_sum(|i: int| ratio_mul(dp87_weight8(i), dp87_coupling(i, 5)), 10) == (31849763147413395193071067057459627537284702981387885452788262698532220int, 1692601050221736284867137710255560913556613875600606318473832116000000000int));
    assert(dp87_weight8(10) == (118820643int, 751138087int));
    assert(dp87_coupling(10, 5) == (-10304129995int, 1701304382int));
    ratio_mul_value(118820643int, 751138087int, -10304129995int, 1701304382int);
    assert(ratio_mul(dp87_weight8(10), dp87_coupling(10, 5)) == (-1224343351561486785int, 1277914518900197234int));
    ratio_add_value(31849763147413395193071067057459627537284702981387885452788262698532220int, 1692601050221736284867137710255560913556613875600606318473832116000000000int, -1224343351561486785int, 1277914518900197234int);
    assert(ratio_sum(|i: int| ratio_mul(dp87_weight8(i), dp87_coupling(i, 5)), 11) == (-2031623567935360997475394615454823151612860002375542133985603152077257804544933019696120520int, 2162999456784078701274201071355692205936489254052437697201927560744126860203567144000000000int));
    assert(dp87_weight8(11) == (-528747749int, 2220607170int));
    assert(dp87_coupling(11, 5) == (-703635378int, 230739211int));
    ratio_mul_value(-528747749int, 2220607170int, -703635378int, 230739211int);
    assert(ratio_mul(dp87_weight8(11), dp87_coupling(11, 5)) == (372045622234264122int, 512381146346742870int));
    ratio_add_value(-2031623567935360997475394615454823151612860002375542133985603152077257804544933019696120520int, 2162999456784078701274201071355692205936489254052437697201927560744126860203567144000000000int, 372045622234264122int, 512381146346742870int);
    assert(ratio_sum(|i: int| ratio_mul(dp87_weight8(i), dp87_coupling(i, 5)), 12) == (-236231133892172259773181375941156795765286869941221160579963129875947332785823891732498956741707708970692400int, 1108280141214408358966819224361346482539953873531122493060226014607047665345003409681740679748263280000000000int));
    assert(dp87_weight8(12) == (1int, 4int));
    assert(dp87_coupling(12, 5) == (652783627int, 914296604int));
    ratio_mul_value(1int, 4int, 652783627int, 914296604int);
    assert(ratio_mul(dp87_weight8(12), dp87_coupling(12, 5)) == (652783627int, 3657186416int));
    ratio_add_value(-236231133892172259773181375941156795765286869941221160579963129875947332785823891732498956741707708970692400int, 1108280141214408358966819224361346482539953873531122493060226014607047665345003409681740679748263280000000000int, 652783627int, 3657186416int);
    assert(ratio_sum(|i: int| ratio_mul(dp87_weight8(i), dp87_coupling(i, 5)), 13) == (-140474163592715923949023943264261333322770203115847308523659173108214795849953042112936293730428303020781027394438400int, 4053187077571895993890303062061972631414500483544603134851912850510712299564260423361744897209954767207604480000000000int));
    assert(dp87_weight8(5) == (-59238493int, 1068277825int));
    assert(dp87_node(5) == (3int, 8int));
    assert(one_minus(dp87_node(5)) == (5int, 8int));
    ratio_mul_value(-59238493int, 1068277825int, 5int, 8int);
    assert(ratio_mul(dp87_weight8(5), one_minus(dp87_node(5))) == (-296192465int, 8546222600int));
    assert(within_1e14((-140474163592715923949023943264261333322770203115847308523659173108214795849953042112936293730428303020781027394438400int, 4053187077571895993890303062061972631414500483544603134851912850510712299564260423361744897209954767207604480000000000int), (-296192465int, 8546222600int))) by (nonlinear_arith);
}

/// Column 6 weighted by the eighth-order weights, exactly, stage by stage.
#[verifier::spinoff_prover]
proof fn column_condition_6()
    ensures
        within_1e14(weighted_column(6), ratio_mul(dp87_weight8(6), one_minus(dp87_node(6)))),
{
    assert(ratio_sum(|i: int| ratio_mul(dp87_weight8(i), dp87_coupling(i, 6)), 0) == (0int, 1int));
    assert(dp87_weight8(0) == (14005451int, 335480064int));
    assert(dp87_coupling(0, 6) == (0int, 1int));
    ratio_mul_value(14005451int, 335480064int, 0int, 1int);
    assert(ratio_mul(dp87_weight8(0), dp87_coupling(0, 6)) == (0int, 335480064int));
    ratio_add_value(0int, 1int, 0int, 335480064int);
    assert(ratio_sum(|i: int| ratio_mul(dp87_weight8(i), dp87_coupling(i, 6)), 1) == (0int, 1int));
    assert(dp87_weight8(1) == (0int, 1int));
    assert(dp87_coupling(1, 6) == (0int, 1int));
    ratio_mul_value(0int, 1int, 0int, 1int);
    assert(ratio_mul(dp87_weight8(1), dp87_coupling(1, 6)) == (0int, 1int));
    ratio_add_value(0int, 1int, 0int, 1int);
    assert(ratio_sum(|i: int| ratio_mul(dp87_weight8(i), dp87_coupling(i, 6)), 2) == (0int, 1int));
    assert(dp87_weight8(2) == (0int, 1int));
    assert(dp87_coupling(2, 6) == (0int, 1int));
    ratio_mul_value(0int, 1int, 0int, 1int);
    assert(ratio_mul(dp87_weight8(2), dp87_coupling(2, 6)) == (0int, 1int));
    ratio_add_value(0int, 1int, 0int, 1int);
    assert(ratio_sum(|i: int| ratio_mul(dp87_weight8(i), dp87_coupling(i, 6)), 3) == (0int, 1int));
    assert(dp87_weight8(3) == (0int, 1int));
    assert(dp87_coupling(3, 6) == (0int, 1int));
    ratio_mul_value(0int, 1int, 0int, 1int);
    assert(ratio_mul(dp87_weight8(3), dp87_coupling(3, 6)) == (0int, 1int));
    ratio_add_value(0int, 1int, 0int, 1int);
    assert(ratio_sum(|i: int| ratio_mul(dp87_weight8(i), dp87_coupling(i, 6)), 4) == (0int, 1int));
    assert(dp87_weight8(4) == (0int, 1int));
    assert(dp87_coupling(4, 6) == (0int, 1int));
    ratio_mul_value(0int, 1int, 0int, 1int);
    assert(ratio_mul(dp87_weight8(4), dp87_coupling(4, 6)) == (0int, 1int));
    ratio_add_value(0int, 1int, 0int, 1int);
    assert(ratio_sum(|i: int| ratio_mul(dp87_weight8(i), dp87_coupling(i, 6)), 5) == (0int, 1int));
    assert(dp87_weight8(5) == (-59238493int, 1068277825int));
    assert(dp87_coupling(5, 6) == (0int, 1int));
    ratio_mul_value(-59238493int, 1068277825int, 0int, 1int);
    assert(ratio_mul(dp87_weight8(5), dp87_coupling(5, 6)) == (0int, 1068277825int));
    ratio_add_value(0int, 1int, 0int, 1068277825int);
    assert(ratio_sum(|i: int| ratio_mul(dp87_weight8(i), dp87_coupling(i, 6)), 6) == (0int, 1int));
    assert(dp87_weight8(6) == (181606767int, 758867731int));
    assert(dp87_coupling(6, 6) == (0int, 1int));
    ratio_mul_value(181606767int, 758867731int, 0int, 1int);
    assert(ratio_mul(dp87_weight8(6), dp87_coupling(6, 6)) == (0int, 758867731int));
    ratio_add_value(0int, 1int, 0int, 758867731int);
    assert(ratio_sum(|i: int| ratio_mul(dp87_weight8(i), dp87_coupling(i, 6)), 7) == (0int, 1int));
    assert(dp87_weight8(7) == (561292985int, 797845732int));
    assert(dp87_coupling(7, 6) == (-180193667int, 1043307555int));
    ratio_mul_value(561292985int, 797845732int, -180193667int, 1043307555int);
    assert(ratio_mul(dp87_weight8(7), dp87_coupling(7, 6)) == (-101141441228525995int, 832398479920105260int));
    ratio_add_value(0int, 1int, -101141441228525995int, 832398479920105260int);
    assert(ratio_sum(|i: int| ratio_mul(dp87_weight8(i), dp87_coupling(i, 6)), 8) == (-101141441228525995int, 832398479920105260int));
    assert(dp87_weight8(8) == (-1041891430int, 1371343529int));
    assert(dp87_coupling(8, 6) == (790204164int, 839813087int));
    ratio_mul_value(-1041891430int, 1371343529int, 790204164int, 839813087int);
    assert(ratio_mul(dp87_weight8(8), dp87_coupling(8, 6)) == (-823306946421914520int, 1151672242426964023int));
    ratio_add_value(-101141441228525995int, 832398479920105260int, -823306946421914520int, 1151672242426964023int);
    assert(ratio_sum(|i: int| ratio_mul(dp87_weight8(i), dp87_coupling(i, 6)), 9) == (-801801241131216714369237120307653085int, 958650223962383809385965780393060980int));
    assert(dp87_weight8(9) == (760417239int, 1151165299int));
    assert(dp87_coupling(9, 6) == (6005943493int, 2108947869int));
    ratio_mul_value(760417239int, 1151165299int, 6005943493int, 2108947869int);
    assert(ratio_mul(dp87_weight8(9), dp87_coupling(9, 6)) == (4567022968537075827int, 2427747604192797831int));
    ratio_add_value(-801801241131216714369237120307653085int, 958650223962383809385965780393060980int, 4567022968537075827int, 2427747604192797831int);
    assert(ratio_sum(|i: int| ratio_mul(dp87_weight8(i), dp87_coupling(i, 6)), 10) == (2431606549434295519237497838178431527290932343406471825int, 2327360784483566363232782958614375616720896404394734380int));
    assert(dp87_weight8(10) == (118820643int, 751138087int));
    assert(dp87_coupling(10, 6) == (-48777925059int, 3047939560int));
    ratio_mul_value(118820643int, 751138087int, -48777925059int, 3047939560int);
    assert(ratio_mul(dp87_weight8(10), dp87_coupling(10, 6)) == (-5795824419716192937int, 2289423490390021720int));
    ratio_add_value(2431606549434295519237497838178431527290932343406471825int, 2327360784483566363232782958614375616720896404394734380int, -5795824419716192937int, 2289423490390021720int);
    assert(ratio_sum(|i: int| ratio_mul(dp87_weight8(i), dp87_coupling(i, 6)), 11) == (-7921997314538587845811793269831138300363665109349065952601837692629035060int, 5328314450609225607183835508245644158509524596837388897466436061830733600int));
    assert(dp87_weight8(11) == (-528747749int, 2220607170int));
    assert(dp87_coupling(11, 6) == (5731566787int, 1027545527int));
    ratio_mul_value(-528747749int, 2220607170int, 5731566787int, 1027545527int);
    assert(ratio_mul(dp87_weight8(11), dp87_coupling(11, 6)) == (-3030553036869412463int, 2281774964757628590int));
    ratio_add_value(-7921997314538587845811793269831138300363665109349065952601837692629035060int, 5328314450609225607183835508245644158509524596837388897466436061830733600int, -3030553036869412463int, 2281774964757628590int);
    assert(ratio_sum(|i: int| ratio_mul(dp87_weight8(i), dp87_coupling(i, 6)), 12) == (-34223954682880278317488273744560723083142385289126094221685089370035358727797115053841222200int, 12158014517756428902191466645971709569843961538059055187242706245861274460083561916033624000int));
    assert(dp87_weight8(12) == (1int, 4int));
    assert(dp87_coupling(12, 6) == (11173962825int, 925320556int));
    ratio_mul_value(1int, 4int, 11173962825int, 925320556int);
    assert(ratio_mul(dp87_weight8(12), dp87_coupling(12, 6)) == (11173962825int, 3701282224int));
    ratio_add_value(-34223954682880278317488273744560723083142385289126094221685089370035358727797115053841222200int, 12158014517756428902191466645971709569843961538059055187242706245861274460083561916033624000int, 11173962825int, 3701282224int);
    assert(ratio_sum(|i: int| ratio_mul(dp87_weight8(i), dp87_coupling(i, 6)), 13) == (9180687144494307701151033395126797698911782545400192279601277232485959413436950616080167378733627200int, 45000243013705802657401110141223989837754141294557680426776420201460108729092485274418633097499776000int));
    assert(dp87_weight8(6) == (181606767int, 758867731int));
    assert(dp87_node(6) == (59int, 400int));
    assert(one_minus(dp87_node(6)) == (341int, 400int));
    ratio_mul_value(181606767int, 758867731int, 341int, 400int);
    assert(ratio_mul(dp87_weight8(6), one_minus(dp87_node(6))) == (61927907547int, 303547092400int));
    assert(within_1e14((9180687144494307701151033395126797698911782545400192279601277232485959413436950616080167378733627200int, 45000243013705802657401110141223989837754141294557680426776420201460108729092485274418633097499776000int), (61927907547int, 303547092400int))) by (nonlinear_arith);
}

/// Column 7 weighted by the eighth-order weights, exactly, stage by stage.
#[verifier::spinoff_prover]
proof fn column_condition_7()
    ensures
        within_1e14(weighted_column(7), ratio_mul(dp87_weight8(7), one_minus(dp87_node(7)))),
{
    assert(ratio_sum(|i: int| ratio_mul(dp87_weight8(i), dp87_coupling(i, 7)), 0) == (0int, 1int));
    assert(dp87_weight8(0) == (14005451int, 335480064int));
    assert(dp87_coupling(0, 7) == (0int, 1int));
    ratio_mul_value(14005451int, 335480064int, 0int, 1int);
    assert(ratio_mul(dp87_weight8(0), dp87_coupling(0, 7)) == (0int, 335480064int));
    ratio_add_value(0int, 1int, 0int, 335480064int);
    assert(ratio_sum(|i: int| ratio_mul(dp87_weight8(i), dp87_coupling(i, 7)), 1) == (0int, 1int));
    assert(dp87_weight8(1) == (0int, 1int));
    assert(dp87_coupling(1, 7) == (0int, 1int));
    ratio_mul_value(0int, 1int, 0int, 1int);
    assert(ratio_mul(dp87_weight8(1), dp87_coupling(1, 7)) == (0int, 1int));
    ratio_add_value(0int, 1int, 0int, 1int);
    assert(ratio_sum(|i: int| ratio_mul(dp87_weight8(i), dp87_coupling(i, 7)), 2) == (0int, 1int));
    assert(dp87_weight8(2) == (0int, 1int));
    assert(dp87_coupling(2, 7) == (0int, 1int));
    ratio_mul_value(0int, 1int, 0int, 1int);
    assert(ratio_mul(dp87_weight8(2), dp87_coupling(2, 7)) == (0int, 1int));
    ratio_add_value(0int, 1int, 0int, 1int);
    assert(ratio_sum(|i: int| ratio_mul(dp87_weight8(i), dp87_coupling(i, 7)), 3) == (0int, 1int));
    assert(dp87_weight8(3) == (0int, 1int));
    assert(dp87_coupling(3, 7) == (0int, 1int));
    ratio_mul_value(0int, 1int, 0int, 1int);
    assert(ratio_mul(dp87_weight8(3), dp87_coupling(3, 7)) == (0int, 1int));
    ratio_add_value(0int, 1int, 0int, 1int);
    assert(ratio_sum(|i: int| ratio_mul(dp87_weight8(i), dp87_coupling(i, 7)), 4) == (0int, 1int));
    assert(dp87_weight8(4) == (0int, 1int));
    assert(dp87_coupling(4, 7) == (0int, 1int));
    ratio_mul_value(0int, 1int, 0int, 1int);
    assert(ratio_mul(dp87_weight8(4), dp87_coupling(4, 7)) == (0int, 1int));
    ratio_add_value(0int, 1int, 0int, 1int);
    assert(ratio_sum(|i: int| ratio_mul(dp87_weight8(i), dp87_coupling(i, 7)), 5) == (0int, 1int));
    assert(dp87_weight8(5) == (-59238493int, 1068277825int));
    assert(dp87_coupling(5, 7) == (0int, 1int));
    ratio_mul_value(-59238493int, 1068277825int, 0int, 1int);
    assert(ratio_mul(dp87_weight8(5), dp87_coupling(5, 7)) == (0int, 1068277825int));
    ratio_add_value(0int, 1int, 0int, 1068277825int);
    assert(ratio_sum(|i: int| ratio_mul(dp87_weight8(i), dp87_coupling(i, 7)), 6) == (0int, 1int));
    assert(dp87_weight8(6) == (181606767int, 758867731int));
    assert(dp87_coupling(6, 7) == (0int, 1int));
    ratio_mul_value(181606767int, 758867731int, 0int, 1int);
    assert(ratio_mul(dp87_weight8(6), dp87_coupling(6, 7)) == (0int, 758867731int));
    ratio_add_value(0int, 1int, 0int, 758867731int);
    assert(ratio_sum(|i: int| ratio_mul(dp87_weight8(i), dp87_coupling(i, 7)), 7) == (0int, 1int));
    assert(dp87_weight8(7) == (561292985int, 797845732int));
    assert(dp87_coupling(7, 7) == (0int, 1int));
    ratio_mul_value(561292985int, 797845732int, 0int, 1int);
    assert(ratio_mul(dp87_weight8(7), dp87_coupling(7, 7)) == (0int, 797845732int));
    ratio_add_value(0int, 1int, 0int, 797845732int);
    assert(ratio_sum(|i: int| ratio_mul(dp87_weight8(i), dp87_coupling(i, 7)), 8) == (0int, 1int));
    assert(dp87_weight8(8) == (-1041891430int, 1371343529int));
    assert(dp87_coupling(8, 7) == (800635310int, 3783071287int));
    ratio_mul_value(-1041891430int, 1371343529int, 800635310int, 3783071287int);
    assert(ratio_mul(dp87_weight8(8), dp87_coupling(8, 7)) == (-834175068044393300int, 5187890329173151823int));
    ratio_add_value(0int, 1int, -834175068044393300int, 5187890329173151823int);
    assert(ratio_sum(|i: int| ratio_mul(dp87_weight8(i), dp87_coupling(i, 7)), 9) == (-834175068044393300int, 5187890329173151823int));
    assert(dp87_weight8(9) == (760417239int, 1151165299int));
    assert(dp87_coupling(9, 7) == (393006217int, 1396673457int));
    ratio_mul_value(760417239int, 1151165299int, 393006217int, 1396673457int);
    assert(ratio_mul(dp87_weight8(9), dp87_coupling(9, 7)) == (298848702440974863int, 1607802017732768643int));
    ratio_add_value(-834175068044393300int, 5187890329173151823int, 298848702440974863int, 1607802017732768643int);
    assert(ratio_sum(|i: int| ratio_mul(dp87_weight8(i), dp87_coupling(i, 7)), 10) == (209205935735333256802030432226333349int, 8341100539020910799807660764372686189int));
    assert(dp87_weight8(10) == (118820643int, 751138087int));
    assert(dp87_coupling(10, 7) == (15336726248int, 1032824649int));
    ratio_mul_value(118820643int, 751138087int, 15336726248int, 1032824649int);
    assert(ratio_mul(dp87_weight8(10), dp87_coupling(10, 7)) == (1822319674302337464int, 775793931056306463int));
    ratio_add_value(209205935735333256802030432226333349int, 8341100539020910799807660764372686189int, 1822319674302337464int, 775793931056306463int);
    assert(ratio_sum(|i: int| ratio_mul(dp87_weight8(i), dp87_coupling(i, 7)), 11) == (15362452312876064840994532438633573409109652844591219283int, 6470975176502909149462800158482821425539421332111539507int));
    assert(dp87_weight8(11) == (-528747749int, 2220607170int));
    assert(dp87_coupling(11, 7) == (5232866602int, 850066563int));
    ratio_mul_value(-528747749int, 2220607170int, 5232866602int, 850066563int);
    assert(ratio_mul(dp87_weight8(11), dp87_coupling(11, 7)) == (-2766866436624778898int, 1887663904775056710int));
    ratio_add_value(15362452312876064840994532438633573409109652844591219283int, 6470975176502909149462800158482821425539421332111539507int, -2766866436624778898int, 1887663904775056710int);
    assert(ratio_sum(|i: int| ratio_mul(dp87_weight8(i), dp87_coupling(i, 7)), 12) == (11094822691746229851291719537896502186868310153852641453198245826103615644int, 12215026269379943283224282920745037567289763543270643102204042491330441970int));
    assert(dp87_weight8(12) == (1int, 4int));
    assert(dp87_coupling(12, 7) == (-13158990841int, 6184727034int));
    ratio_mul_value(1int, 4int, -13158990841int, 6184727034int);
    assert(ratio_mul(dp87_weight8(12), dp87_coupling(12, 7)) == (-13158990841int, 24738908136int));
    ratio_add_value(11094822691746229851291719537896502186868310153852641453198245826103615644int, 12215026269379943283224282920745037567289763543270643102204042491330441970int, -13158990841int, 24738908136int);
    assert(ratio_sum(|i: int| ratio_mul(dp87_weight8(i), dp87_coupling(i, 7)), 13) == (113736380554973153302398982682621260032491310766762423625534124831730670446656482814int, 302186412757017206564575765060785253055050378790134300691067866320864380316108867920int));
    assert(dp87_weight8(7) == (561292985int, 797845732int));
    assert(dp87_node(7) == (93int, 200int));
    assert(one_minus(dp87_node(7)) == (107int, 200int));
    ratio_mul_value(561292985int, 797845732int, 107int, 200int);
    assert(ratio_mul(dp87_weight8(7), one_minus(dp87_node(7))) == (60058349395int, 159569146400int));
    assert(within_1e14((113736380554973153302398982682621260032491310766762423625534124831730670446656482814int, 302186412757017206564575765060785253055050378790134300691067866320864380316108867920int), (60058349395int, 159569146400int))) by (nonlinear_arith);
}

/// Column 8 weighted by the eighth-order weights, exactly, stage by stage.
#[verifier::spinoff_prover]
proof fn column_condition_8()
    ensures
        within_1e14(weighted_column(8), ratio_mul(dp87_weight8(8), one_minus(dp87_node(8)))),
{
    assert(ratio_sum(|i: int| ratio_mul(dp87_weight8(i), dp87_coupling(i, 8)), 0) == (0int, 1int));
    assert(dp87_weight8(0) == (14005451int, 335480064int));
    assert(dp87_coupling(0, 8) == (0int, 1int));
    ratio_mul_value(14005451int, 335480064int, 0int, 1int);
    assert(ratio_mul(dp87_weight8(0), dp87_coupling(0, 8)) == (0int, 335480064int));
    ratio_add_value(0int, 1int, 0int, 335480064int);
    assert(ratio_sum(|i: int| ratio_mul(dp87_weight8(i), dp87_coupling(i, 8)), 1) == (0int, 1int));
    assert(dp87_weight8(1) == (0int, 1int));
    assert(dp87_coupling(1, 8) == (0int, 1int));
    ratio_mul_value(0int, 1int, 0int, 1int);
    assert(ratio_mul(dp87_weight8(1), dp87_coupling(1, 8)) == (0int, 1int));
    ratio_add_value(0int, 1int, 0int, 1int);
    assert(ratio_sum(|i: int| ratio_mul(dp87_weight8(i), dp87_coupling(i, 8)), 2) == (0int, 1int));
    assert(dp87_weight8(2) == (0int, 1int));
    assert(dp87_coupling(2, 8) == (0int, 1int));
    ratio_mul_value(0int, 1int, 0int, 1int);
    assert(ratio_mul(dp87_weight8(2), dp87_coupling(2, 8)) == (0int, 1int));
    ratio_add_value(0int, 1int, 0int, 1int);
    assert(ratio_sum(|i: int| ratio_mul(dp87_weight8(i), dp87_coupling(i, 8)), 3) == (0int, 1int));
    assert(dp87_weight8(3) == (0int, 1int));
    assert(dp87_coupling(3, 8) == (0int, 1int));
    ratio_mul_value(0int, 1int, 0int, 1int);
    assert(ratio_mul(dp87_weight8(3), dp87_coupling(3, 8)) == (0int, 1int));
    ratio_add_value(0int, 1int, 0int, 1int);
    assert(ratio_sum(|i: int| ratio_mul(dp87_weight8(i), dp87_coupling(i, 8)), 4) == (0int, 1int));
    assert(dp87_weight8(4) == (0int, 1int));
    assert(dp87_coupling(4, 8) == (0int, 1int));
    ratio_mul_value(0int, 1int, 0int, 1int);
    assert(ratio_mul(dp87_weight8(4), dp87_coupling(4, 8)) == (0int, 1int));
    ratio_add_value(0int, 1int, 0int, 1int);
    assert(ratio_sum(|i: int| ratio_mul(dp87_weight8(i), dp87_coupling(i, 8)), 5) == (0int, 1int));
    assert(dp87_weight8(5) == (-59238493int, 1068277825int));
    assert(dp87_coupling(5, 8) == (0int, 1int));
    ratio_mul_value(-59238493int, 1068277825int, 0int, 1int);
    assert(ratio_mul(dp87_weight8(5), dp87_coupling(5, 8)) == (0int, 1068277825int));
    ratio_add_value(0int, 1int, 0int, 1068277825int);
    assert(ratio_sum(|i: int| ratio_mul(dp87_weight8(i), dp87_coupling(i, 8)), 6) == (0int, 1int));
    assert(dp87_weight8(6) == (181606767int, 758867731int));
    assert(dp87_coupling(6, 8) == (0int, 1int));
    ratio_mul_value(181606767int, 758867731int, 0int, 1int);
    assert(ratio_mul(dp87_weight8(6), dp87_coupling(6, 8)) == (0int, 758867731int));
    ratio_add_value(0int, 1int, 0int, 758867731int);
    assert(ratio_sum(|i: int| ratio_mul(dp87_weight8(i), dp87_coupling(i, 8)), 7) == (0int, 1int));
    assert(dp87_weight8(7) == (561292985int, 797845732int));
    assert(dp87_coupling(7, 8) == (0int, 1int));
    ratio_mul_value(561292985int, 797845732int, 0int, 1int);
    assert(ratio_mul(dp87_weight8(7), dp87_coupling(7, 8)) == (0int, 797845732int));
    ratio_add_value(0int, 1int, 0int, 797845732int);
    assert(ratio_sum(|i: int| ratio_mul(dp87_weight8(i), dp87_coupling(i, 8)), 8) == (0int, 1int));
    assert(dp87_weight8(8) == (-1041891430int, 1371343529int));
    assert(dp87_coupling(8, 8) == (0int, 1int));
    ratio_mul_value(-1041891430int, 1371343529int, 0int, 1int);
    assert(ratio_mul(dp87_weight8(8), dp87_coupling(8, 8)) == (0int, 1371343529int));
    ratio_add_value(0int, 1int, 0int, 1371343529int);
    assert(ratio_sum(|i: int| ratio_mul(dp87_weight8(i), dp87_coupling(i, 8)), 9) == (0int, 1int));
    assert(dp87_weight8(9) == (760417239int, 1151165299int));
    assert(dp87_coupling(9, 8) == (123872331int, 1001029789int));
    ratio_mul_value(760417239int, 1151165299int, 123872331int, 1001029789int);
    assert(ratio_mul(dp87_weight8(9), dp87_coupling(9, 8)) == (94194655927514109int, 1152350756362091911int));
    ratio_add_value(0int, 1int, 94194655927514109int, 1152350756362091911int);
    assert(ratio_sum(|i: int| ratio_mul(dp87_weight8(i), dp87_coupling(i, 8)), 10) == (94194655927514109int, 1152350756362091911int));
    assert(dp87_weight8(10) == (118820643int, 751138087int));
    assert(dp87_coupling(10, 8) == (-45442868181int, 3398467696int));
    ratio_mul_value(118820643int, 751138087int, -45442868181int, 3398467696int);
    assert(ratio_mul(dp87_weight8(10), dp87_coupling(10, 8)) == (-5399550817030660383int, 2552718523904737552int));
    ratio_add_value(94194655927514109int, 1152350756362091911int, -5399550817030660383int, 2552718523904737552int);
    assert(ratio_sum(|i: int| ratio_mul(dp87_weight8(i), dp87_coupling(i, 8)), 11) == (-5981724024981834387606060300250340745int, 2941627121801147118594554914157141872int));
    assert(dp87_weight8(11) == (-528747749int, 2220607170int));
    assert(dp87_coupling(11, 8) == (-4093664535int, 808688257int));
    ratio_mul_value(-528747749int, 2220607170int, -4093664535int, 808688257int);
    assert(ratio_mul(dp87_weight8(11), dp87_coupling(11, 8)) == (2164515908042381715int, 1795778941789002690int));
    ratio_add_value(-5981724024981834387606060300250340745int, 2941627121801147118594554914157141872int, 2164515908042381715int, 1795778941789002690int);
    assert(ratio_sum(|i: int| ratio_mul(dp87_weight8(i), dp87_coupling(i, 8)), 12) == (-4374655338988224694202165806395329554464420338187933570int, 5282512039925893697292993953768310985109621571719635680int));
    assert(dp87_weight8(12) == (1int, 4int));
    assert(dp87_coupling(12, 8) == (3936647629int, 1978049680int));
    ratio_mul_value(1int, 4int, 3936647629int, 1978049680int);
    assert(ratio_mul(dp87_weight8(12), dp87_coupling(12, 8)) == (3936647629int, 7912198720int));
    ratio_add_value(-4374655338988224694202165806395329554464420338187933570int, 5282512039925893697292993953768310985109621571719635680int, 3936647629int, 7912198720int);
    assert(ratio_sum(|i: int| ratio_mul(dp87_weight8(i), dp87_coupling(i, 8)), 13) == (-13817753876445574761384259348175537259945110819955177859583227680int, 41796285000686245006577694225973369352946286859444489626162329600int));
    assert(dp87_weight8(8) == (-1041891430int, 1371343529int));
    assert(dp87_node(8) == (5490023248int, 9719169821int));
    assert(one_minus(dp87_node(8)) == (4229146573int, 9719169821int));
    ratio_mul_value(-1041891430int, 1371343529int, 4229146573int, 9719169821int);
    assert(ratio_mul(dp87_weight8(8), one_minus(dp87_node(8))) == (-4406311570622569390int, 13328320641280438309int));
    assert(within_1e14((-13817753876445574761384259348175537259945110819955177859583227680int, 41796285000686245006577694225973369352946286859444489626162329600int), (-4406311570622569390int, 13328320641280438309int))) by (nonlinear_arith);
}

/// Column 9 weighted by the eighth-order weights, exactly, stage by stage.
#[verifier::spinoff_prover]
proof fn column_condition_9()
    ensures
        within_1e14(weighted_column(9), ratio_mul(dp87_weight8(9), one_minus(dp87_node(9)))),
{
    assert(ratio_sum(|i: int| ratio_mul(dp87_weight8(i), dp87_coupling(i, 9)), 0) == (0int, 1int));
    assert(dp87_weight8(0) == (14005451int, 335480064int));
    assert(dp87_coupling(0, 9) == (0int, 1int));
    ratio_mul_value(14005451int, 335480064int, 0int, 1int);
    assert(ratio_mul(dp87_weight8(0), dp87_coupling(0, 9)) == (0int, 335480064int));
    ratio_add_value(0int, 1int, 0int, 335480064int);
    assert(ratio_sum(|i: int| ratio_mul(dp87_weight8(i), dp87_coupling(i, 9)), 1) == (0int, 1int));
    assert(dp87_weight8(1) == (0int, 1int));
    assert(dp87_coupling(1, 9) == (0int, 1int));
    ratio_mul_value(0int, 1int, 0int, 1int);
    assert(ratio_mul(dp87_weight8(1), dp87_coupling(1, 9)) == (0int, 1int));
    ratio_add_value(0int, 1int, 0int, 1int);
    assert(ratio_sum(|i: int| ratio_mul(dp87_weight8(i), dp87_coupling(i, 9)), 2) == (0int, 1int));
    assert(dp87_weight8(2) == (0int, 1int));
    assert(dp87_coupling(2, 9) == (0int, 1int));
    ratio_mul_value(0int, 1int, 0int, 1int);
    assert(ratio_mul(dp87_weight8(2), dp87_coupling(2, 9)) == (0int, 1int));
    ratio_add_value(0int, 1int, 0int, 1int);
    assert(ratio_sum(|i: int| ratio_mul(dp87_weight8(i), dp87_coupling(i, 9)), 3) == (0int, 1int));
    assert(dp87_weight8(3) == (0int, 1int));
    assert(dp87_coupling(3, 9) == (0int, 1int));
    ratio_mul_value(0int, 1int, 0int, 1int);
    assert(ratio_mul(dp87_weight8(3), dp87_coupling(3, 9)) == (0int, 1int));
    ratio_add_value(0int, 1int, 0int, 1int);
    assert(ratio_sum(|i: int| ratio_mul(dp87_weight8(i), dp87_coupling(i, 9)), 4) == (0int, 1int));
    assert(dp87_weight8(4) == (0int, 1int));
    assert(dp87_coupling(4, 9) == (0int, 1int));
    ratio_mul_value(0int, 1int, 0int, 1int);
    assert(ratio_mul(dp87_weight8(4), dp87_coupling(4, 9)) == (0int, 1int));
    ratio_add_value(0int, 1int, 0int, 1int);
    assert(ratio_sum(|i: int| ratio_mul(dp87_weight8(i), dp87_coupling(i, 9)), 5) == (0int, 1int));
    assert(dp87_weight8(5) == (-59238493int, 1068277825int));
    assert(dp87_coupling(5, 9) == (0int, 1int));
    ratio_mul_value(-59238493int, 1068277825int, 0int, 1int);
    assert(ratio_mul(dp87_weight8(5), dp87_coupling(5, 9)) == (0int, 1068277825int));
    ratio_add_value(0int, 1int, 0int, 1068277825int);
    assert(ratio_sum(|i: int| ratio_mul(dp87_weight8(i), dp87_coupling(i, 9)), 6) == (0int, 1int));
    assert(dp87_weight8(6) == (181606767int, 758867731int));
    assert(dp87_coupling(6, 9) == (0int, 1int));
    ratio_mul_value(181606767int, 758867731int, 0int, 1int);
    assert(ratio_mul(dp87_weight8(6), dp87_coupling(6, 9)) == (0int, 758867731int));
    ratio_add_value(0int, 1int, 0int, 758867731int);
    assert(ratio_sum(|i: int| ratio_mul(dp87_weight8(i), dp87_coupling(i, 9)), 7) == (0int, 1int));
    assert(dp87_weight8(7) == (561292985int, 797845732int));
    assert(dp87_coupling(7, 9) == (0int, 1int));
    ratio_mul_value(561292985int, 797845732int, 0int, 1int);
    assert(ratio_mul(dp87_weight8(7), dp87_coupling(7, 9)) == (0int, 797845732int));
    ratio_add_value(0int, 1int, 0int, 797845732int);
    assert(ratio_sum(|i: int| ratio_mul(dp87_weight8(i), dp87_coupling(i, 9)), 8) == (0int, 1int));
    assert(dp87_weight8(8) == (-1041891430int, 1371343529int));
    assert(dp87_coupling(8, 9) == (0int, 1int));
    ratio_mul_value(-1041891430int, 1371343529int, 0int, 1int);
    assert(ratio_mul(dp87_weight8(8), dp87_coupling(8, 9)) == (0int, 1371343529int));
    ratio_add_value(0int, 1int, 0int, 1371343529int);
    assert(ratio_sum(|i: int| ratio_mul(dp87_weight8(i), dp87_coupling(i, 9)), 9) == (0int, 1int));
    assert(dp87_weight8(9) == (760417239int, 1151165299int));
    assert(dp87_coupling(9, 9) == (0int, 1int));
    ratio_mul_value(760417239int, 1151165299int, 0int, 1int);
    assert(ratio_mul(dp87_weight8(9), dp87_coupling(9, 9)) == (0int, 1151165299int));
    ratio_add_value(0int, 1int, 0int, 1151165299int);
    assert(ratio_sum(|i: int| ratio_mul(dp87_weight8(i), dp87_coupling(i, 9)), 10) == (0int, 1int));
    assert(dp87_weight8(10) == (118820643int, 751138087int));
    assert(dp87_coupling(10, 9) == (3065993473int, 597172653int));
    ratio_mul_value(118820643int, 751138087int, 3065993473int, 597172653int);
    assert(ratio_mul(dp87_weight8(10), dp87_coupling(10, 9)) == (364303315895663139int, 448559124183134811int));
    ratio_add_value(0int, 1int, 364303315895663139int, 448559124183134811int);
    assert(ratio_sum(|i: int| ratio_mul(dp87_weight8(i), dp87_coupling(i, 9)), 11) == (364303315895663139int, 448559124183134811int));
    assert(dp87_weight8(11) == (-528747749int, 2220607170int));
    assert(dp87_coupling(11, 9) == (3962137247int, 1805957418int));
    ratio_mul_value(-528747749int, 2220607170int, 3962137247int, 1805957418int);
    assert(ratio_mul(dp87_weight8(11), dp87_coupling(11, 9)) == (-2094971150580307003int, 4010321991125487060int));
    ratio_add_value(364303315895663139int, 448559124183134811int, -2094971150580307003int, 4010321991125487060int);
    assert(ratio_sum(|i: int| ratio_mul(dp87_weight8(i), dp87_coupling(i, 9)), 12) == (521255174683076353291065347747099907int, 1798866520031613809600845190016045660int));
    assert(dp87_weight8(12) == (1int, 4int));
    assert(dp87_coupling(12, 9) == (-160528059int, 685178525int));
    ratio_mul_value(1int, 4int, -160528059int, 685178525int);
    assert(ratio_mul(dp87_weight8(12), dp87_coupling(12, 9)) == (-160528059int, 2740714100int));
    ratio_add_value(521255174683076353291065347747099907int, 1798866520031613809600845190016045660int, -160528059int, 2740714100int);
    assert(ratio_sum(|i: int| ratio_mul(dp87_weight8(i), dp87_coupling(i, 9)), 13) == (1139842856091110809348584959479117960568414760int, 4930178835468576413727751784194155566605806000int));
    assert(dp87_weight8(9) == (760417239int, 1151165299int));
    assert(dp87_node(9) == (13int, 20int));
    assert(one_minus(dp87_node(9)) == (7int, 20int));
    ratio_mul_value(760417239int, 1151165299int, 7int, 20int);
    assert(ratio_mul(dp87_weight8(9), one_minus(dp87_node(9))) == (5322920673int, 23023305980int));
    assert(within_1e14((1139842856091110809348584959479117960568414760int, 4930178835468576413727751784194155566605806000int), (5322920673int, 23023305980int))) by (nonlinear_arith);
}

/// Column 10 weighted by the eighth-order weights, exactly, stage by stage.
#[verifier::spinoff_prover]
proof fn column_condition_10()
    ensures
        within_1e14(weighted_column(10), ratio_mul(dp87_weight8(10), one_minus(dp87_node(10)))),
{
    assert(ratio_sum(|i: int| ratio_mul(dp87_weight8(i), dp87_coupling(i, 10)), 0) == (0int, 1int));
    assert(dp87_weight8(0) == (14005451int, 335480064int));
    assert(dp87_coupling(0, 10) == (0int, 1int));
    ratio_mul_value(14005451int, 335480064int, 0int, 1int);
    assert(ratio_mul(dp87_weight8(0), dp87_coupling(0, 10)) == (0int, 335480064int));
    ratio_add_value(0int, 1int, 0int, 335480064int);
    assert(ratio_sum(|i: int| ratio_mul(dp87_weight8(i), dp87_coupling(i, 10)), 1) == (0int, 1int));
    assert(dp87_weight8(1) == (0int, 1int));
    assert(dp87_coupling(1, 10) == (0int, 1int));
    ratio_mul_value(0int, 1int, 0int, 1int);
    assert(ratio_mul(dp87_weight8(1), dp87_coupling(1, 10)) == (0int, 1int));
    ratio_add_value(0int, 1int, 0int, 1int);
    assert(ratio_sum(|i: int| ratio_mul(dp87_weight8(i), dp87_coupling(i, 10)), 2) == (0int, 1int));
    assert(dp87_weight8(2) == (0int, 1int));
    assert(dp87_coupling(2, 10) == (0int, 1int));
    ratio_mul_value(0int, 1int, 0int, 1int);
    assert(ratio_mul(dp87_weight8(2), dp87_coupling(2, 10)) == (0int, 1int));
    ratio_add_value(0int, 1int, 0int, 1int);
    assert(ratio_sum(|i: int| ratio_mul(dp87_weight8(i), dp87_coupling(i, 10)), 3) == (0int, 1int));
    assert(dp87_weight8(3) == (0int, 1int));
    assert(dp87_coupling(3, 10) == (0int, 1int));
    ratio_mul_value(0int, 1int, 0int, 1int);
    assert(ratio_mul(dp87_weight8(3), dp87_coupling(3, 10)) == (0int, 1int));
    ratio_add_value(0int, 1int, 0int, 1int);
    assert(ratio_sum(|i: int| ratio_mul(dp87_weight8(i), dp87_coupling(i, 10)), 4) == (0int, 1int));
    assert(dp87_weight8(4) == (0int, 1int));
    assert(dp87_coupling(4, 10) == (0int, 1int));
    ratio_mul_value(0int, 1int, 0int, 1int);
    assert(ratio_mul(dp87_weight8(4), dp87_coupling(4, 10)) == (0int, 1int));
    ratio_add_value(0int, 1int, 0int, 1int);
    assert(ratio_sum(|i: int| ratio_mul(dp87_weight8(i), dp87_coupling(i, 10)), 5) == (0int, 1int));
    assert(dp87_weight8(5) == (-59238493int, 1068277825int));
    assert(dp87_coupling(5, 10) == (0int, 1int));
    ratio_mul_value(-59238493int, 1068277825int, 0int, 1int);
    assert(ratio_mul(dp87_weight8(5), dp87_coupling(5, 10)) == (0int, 1068277825int));
    ratio_add_value(0int, 1int, 0int, 1068277825int);
    assert(ratio_sum(|i: int| ratio_mul(dp87_weight8(i), dp87_coupling(i, 10)), 6) == (0int, 1int));
    assert(dp87_weight8(6) == (181606767int, 758867731int));
    assert(dp87_coupling(6, 10) == (0int, 1int));
    ratio_mul_value(181606767int, 758867731int, 0int, 1int);
    assert(ratio_mul(dp87_weight8(6), dp87_coupling(6, 10)) == (0int, 758867731int));
    ratio_add_value(0int, 1int, 0int, 758867731int);
    assert(ratio_sum(|i: int| ratio_mul(dp87_weight8(i), dp87_coupling(i, 10)), 7) == (0int, 1int));
    assert(dp87_weight8(7) == (561292985int, 797845732int));
    assert(dp87_coupling(7, 10) == (0int, 1int));
    ratio_mul_value(561292985int, 797845732int, 0int, 1int);
    assert(ratio_mul(dp87_weight8(7), dp87_coupling(7, 10)) == (0int, 797845732int));
    ratio_add_value(0int, 1int, 0int, 797845732int);
    assert(ratio_sum(|i: int| ratio_mul(dp87_weight8(i), dp87_coupling(i, 10)), 8) == (0int, 1int));
    assert(dp87_weight8(8) == (-1041891430int, 1371343529int));
    assert(dp87_coupling(8, 10) == (0int, 1int));
    ratio_mul_value(-1041891430int, 1371343529int, 0int, 1int);
    assert(ratio_mul(dp87_weight8(8), dp87_coupling(8, 10)) == (0int, 1371343529int));
    ratio_add_value(0int, 1int, 0int, 1371343529int);
    assert(ratio_sum(|i: int| ratio_mul(dp87_weight8(i), dp87_coupling(i, 10)), 9) == (0int, 1int));
    assert(dp87_weight8(9) == (760417239int, 1151165299int));
    assert(dp87_coupling(9, 10) == (0int, 1int));
    ratio_mul_value(760417239int, 1151165299int, 0int, 1int);
    assert(ratio_mul(dp87_weight8(9), dp87_coupling(9, 10)) == (0int, 1151165299int));
    ratio_add_value(0int, 1int, 0int, 1151165299int);
    assert(ratio_sum(|i: int| ratio_mul(dp87_weight8(i), dp87_coupling(i, 10)), 10) == (0int, 1int));
    assert(dp87_weight8(10) == (118820643int, 751138087int));
    assert(dp87_coupling(10, 10) == (0int, 1int));
    ratio_mul_value(118820643int, 751138087int, 0int, 1int);
    assert(ratio_mul(dp87_weight8(10), dp87_coupling(10, 10)) == (0int, 751138087int));
    ratio_add_value(0int, 1int, 0int, 751138087int);
    assert(ratio_sum(|i: int| ratio_mul(dp87_weight8(i), dp87_coupling(i, 10)), 11) == (0int, 1int));
    assert(dp87_weight8(11) == (-528747749int, 2220607170int));
    assert(dp87_coupling(11, 10) == (65686358int, 487910083int));
    ratio_mul_value(-528747749int, 2220607170int, 65686358int, 487910083int);
    assert(ratio_mul(dp87_weight8(11), dp87_coupling(11, 10)) == (-34731513932508142int, 1083456628625095110int));
    ratio_add_value(0int, 1int, -34731513932508142int, 1083456628625095110int);
    assert(ratio_sum(|i: int| ratio_mul(dp87_weight8(i), dp87_coupling(i, 10)), 12) == (-34731513932508142int, 1083456628625095110int));
    assert(dp87_weight8(12) == (1int, 4int));
    assert(dp87_coupling(12, 10) == (248638103int, 1413531060int));
    ratio_mul_value(1int, 4int, 248638103int, 1413531060int);
    assert(ratio_mul(dp87_weight8(12), dp87_coupling(12, 10)) == (248638103int, 5654124240int));
    ratio_add_value(-34731513932508142int, 1083456628625095110int, 248638103int, 5654124240int);
    assert(ratio_sum(|i: int| ratio_mul(dp87_weight8(i), dp87_coupling(i, 10)), 13) == (73012306006427136665414250int, 6125998386897828133756466400int));
    assert(dp87_weight8(10) == (118820643int, 751138087int));
    assert(dp87_node(10) == (1201146811int, 1299019798int));
    assert(one_minus(dp87_node(10)) == (97872987int, 1299019798int));
    ratio_mul_value(118820643int, 751138087int, 97872987int, 1299019798int);
    assert(ratio_mul(dp87_weight8(10), one_minus(dp87_node(10))) == (11629331247670641int, 975743246044846426int));
    assert(within_1e14((73012306006427136665414250int, 6125998386897828133756466400int), (11629331247670641int, 975743246044846426int))) by (nonlinear_arith);
}

/// Column 11 weighted by the eighth-order weights, exactly, stage by stage.
#[verifier::spinoff_prover]
proof fn column_condition_11()
    ensures
        within_1e14(weighted_column(11), ratio_mul(dp87_weight8(11), one_minus(dp87_node(11)))),
{
    assert(ratio_sum(|i: int| ratio_mul(dp87_weight8(i), dp87_coupling(i, 11)), 0) == (0int, 1int));
    assert(dp87_weight8(0) == (14005451int, 335480064int));
    assert(dp87_coupling(0, 11) == (0int, 1int));
    ratio_mul_value(14005451int, 335480064int, 0int, 1int);
    assert(ratio_mul(dp87_weight8(0), dp87_coupling(0, 11)) == (0int, 335480064int));
    ratio_add_value(0int, 1int, 0int, 335480064int);
    assert(ratio_sum(|i: int| ratio_mul(dp87_weight8(i), dp87_coupling(i, 11)), 1) == (0int, 1int));
    assert(dp87_weight8(1) == (0int, 1int));
    assert(dp87_coupling(1, 11) == (0int, 1int));
    ratio_mul_value(0int, 1int, 0int, 1int);
    assert(ratio_mul(dp87_weight8(1), dp87_coupling(1, 11)) == (0int, 1int));
    ratio_add_value(0int, 1int, 0int, 1int);
    assert(ratio_sum(|i: int| ratio_mul(dp87_weight8(i), dp87_coupling(i, 11)), 2) == (0int, 1int));
    assert(dp87_weight8(2) == (0int, 1int));
    assert(dp87_coupling(2, 11) == (0int, 1int));
    ratio_mul_value(0int, 1int, 0int, 1int);
    assert(ratio_mul(dp87_weight8(2), dp87_coupling(2, 11)) == (0int, 1int));
    ratio_add_value(0int, 1int, 0int, 1int);
    assert(ratio_sum(|i: int| ratio_mul(dp87_weight8(i), dp87_coupling(i, 11)), 3) == (0int, 1int));
    assert(dp87_weight8(3) == (0int, 1int));
    assert(dp87_coupling(3, 11) == (0int, 1int));
    ratio_mul_value(0int, 1int, 0int, 1int);
    assert(ratio_mul(dp87_weight8(3), dp87_coupling(3, 11)) == (0int, 1int));
    ratio_add_value(0int, 1int, 0int, 1int);
    assert(ratio_sum(|i: int| ratio_mul(dp87_weight8(i), dp87_coupling(i, 11)), 4) == (0int, 1int));
    assert(dp87_weight8(4) == (0int, 1int));
    assert(dp87_coupling(4, 11) == (0int, 1int));
    ratio_mul_value(0int, 1int, 0int, 1int);
    assert(ratio_mul(dp87_weight8(4), dp87_coupling(4, 11)) == (0int, 1int));
    ratio_add_value(0int, 1int, 0int, 1int);
    assert(ratio_sum(|i: int| ratio_mul(dp87_weight8(i), dp87_coupling(i, 11)), 5) == (0int, 1int));
    assert(dp87_weight8(5) == (-59238493int, 1068277825int));
    assert(dp87_coupling(5, 11) == (0int, 1int));
    ratio_mul_value(-59238493int, 1068277825int, 0int, 1int);
    assert(ratio_mul(dp87_weight8(5), dp87_coupling(5, 11)) == (0int, 1068277825int));
    ratio_add_value(0int, 1int, 0int, 1068277825int);
    assert(ratio_sum(|i: int| ratio_mul(dp87_weight8(i), dp87_coupling(i, 11)), 6) == (0int, 1int));
    assert(dp87_weight8(6) == (181606767int, 758867731int));
    assert(dp87_coupling(6, 11) == (0int, 1int));
    ratio_mul_value(181606767int, 758867731int, 0int, 1int);
    assert(ratio_mul(dp87_weight8(6), dp87_coupling(6, 11)) == (0int, 758867731int));
    ratio_add_value(0int, 1int, 0int, 758867731int);
    assert(ratio_sum(|i: int| ratio_mul(dp87_weight8(i), dp87_coupling(i, 11)), 7) == (0int, 1int));
    assert(dp87_weight8(7) == (561292985int, 797845732int));
    assert(dp87_coupling(7, 11) == (0int, 1int));
    ratio_mul_value(561292985int, 797845732int, 0int, 1int);
    assert(ratio_mul(dp87_weight8(7), dp87_coupling(7, 11)) == (0int, 797845732int));
    ratio_add_value(0int, 1int, 0int, 797845732int);
    assert(ratio_sum(|i: int| ratio_mul(dp87_weight8(i), dp87_coupling(i, 11)), 8) == (0int, 1int));
    assert(dp87_weight8(8) == (-1041891430int, 1371343529int));
    assert(dp87_coupling(8, 11) == (0int, 1int));
    ratio_mul_value(-1041891430int, 1371343529int, 0int, 1int);
    assert(ratio_mul(dp87_weight8(8), dp87_coupling(8, 11)) == (0int, 1371343529int));
    ratio_add_value(0int, 1int, 0int, 1371343529int);
    assert(ratio_sum(|i: int| ratio_mul(dp87_weight8(i), dp87_coupling(i, 11)), 9) == (0int, 1int));
    assert(dp87_weight8(9) == (760417239int, 1151165299int));
    assert(dp87_coupling(9, 11) == (0int, 1int));
    ratio_mul_value(760417239int, 1151165299int, 0int, 1int);
    assert(ratio_mul(dp87_weight8(9), dp87_coupling(9, 11)) == (0int, 1151165299int));
    ratio_add_value(0int, 1int, 0int, 1151165299int);
    assert(ratio_sum(|i: int| ratio_mul(dp87_weight8(i), dp87_coupling(i, 11)), 10) == (0int, 1int));
    assert(dp87_weight8(10) == (118820643int, 751138087int));
    assert(dp87_coupling(10, 11) == (0int, 1int));
    ratio_mul_value(118820643int, 751138087int, 0int, 1int);
    assert(ratio_mul(dp87_weight8(10), dp87_coupling(10, 11)) == (0int, 751138087int));
    ratio_add_value(0int, 1int, 0int, 751138087int);
    assert(ratio_sum(|i: int| ratio_mul(dp87_weight8(i), dp87_coupling(i, 11)), 11) == (0int, 1int));
    assert(dp87_weight8(11) == (-528747749int, 2220607170int));
    assert(dp87_coupling(11, 11) == (0int, 1int));
    ratio_mul_value(-528747749int, 2220607170int, 0int, 1int);
    assert(ratio_mul(dp87_weight8(11), dp87_coupling(11, 11)) == (0int, 2220607170int));
    ratio_add_value(0int, 1int, 0int, 2220607170int);
    assert(ratio_sum(|i: int| ratio_mul(dp87_weight8(i), dp87_coupling(i, 11)), 12) == (0int, 1int));
    assert(dp87_weight8(12) == (1int, 4int));
    assert(dp87_coupling(12, 11) == (0int, 1int));
    ratio_mul_value(1int, 4int, 0int, 1int);
    assert(ratio_mul(dp87_weight8(12), dp87_coupling(12, 11)) == (0int, 4int));
    ratio_add_value(0int, 1int, 0int, 4int);
    assert(ratio_sum(|i: int| ratio_mul(dp87_weight8(i), dp87_coupling(i, 11)), 13) == (0int, 1int));
    assert(dp87_weight8(11) == (-528747749int, 2220607170int));
    assert(dp87_node(11) == (1int, 1int));
    assert(one_minus(dp87_node(11)) == (0int, 1int));
    ratio_mul_value(-528747749int, 2220607170int, 0int, 1int);
    assert(ratio_mul(dp87_weight8(11), one_minus(dp87_node(11))) == (0int, 2220607170int));
    assert(within_1e14((0int, 1int), (0int, 2220607170int))) by (nonlinear_arith);
}

/// Column 12 weighted by the eighth-order weights, exactly, stage by stage.
#[verifier::spinoff_prover]
proof fn column_condition_12()
    ensures
        within_1e14(weighted_column(12), ratio_mul(dp87_weight8(12), one_minus(dp87_node(12)))),
{
    assert(ratio_sum(|i: int| ratio_mul(dp87_weight8(i), dp87_coupling(i, 12)), 0) == (0int, 1int));
    assert(dp87_weight8(0) == (14005451int, 335480064int));
    assert(dp87_coupling(0, 12) == (0int, 1int));
    ratio_mul_value(14005451int, 335480064int, 0int, 1int);
    assert(ratio_mul(dp87_weight8(0), dp87_coupling(0, 12)) == (0int, 335480064int));
    ratio_add_value(0int, 1int, 0int, 335480064int);
    assert(ratio_sum(|i: int| ratio_mul(dp87_weight8(i), dp87_coupling(i, 12)), 1) == (0int, 1int));
    assert(dp87_weight8(1) == (0int, 1int));
    assert(dp87_coupling(1, 12) == (0int, 1int));
    ratio_mul_value(0int, 1int, 0int, 1int);
    assert(ratio_mul(dp87_weight8(1), dp87_coupling(1, 12)) == (0int, 1int));
    ratio_add_value(0int, 1int, 0int, 1int);
    assert(ratio_sum(|i: int| ratio_mul(dp87_weight8(i), dp87_coupling(i, 12)), 2) == (0int, 1int));
    assert(dp87_weight8(2) == (0int, 1int));
    assert(dp87_coupling(2, 12) == (0int, 1int));
    ratio_mul_value(0int, 1int, 0int, 1int);
    assert(ratio_mul(dp87_weight8(2), dp87_coupling(2, 12)) == (0int, 1int));
    ratio_add_value(0int, 1int, 0int, 1int);
    assert(ratio_sum(|i: int| ratio_mul(dp87_weight8(i), dp87_coupling(i, 12)), 3) == (0int, 1int));
    assert(dp87_weight8(3) == (0int, 1int));
    assert(dp87_coupling(3, 12) == (0int, 1int));
    ratio_mul_value(0int, 1int, 0int, 1int);
    assert(ratio_mul(dp87_weight8(3), dp87_coupling(3, 12)) == (0int, 1int));
    ratio_add_value(0int, 1int, 0int, 1int);
    assert(ratio_sum(|i: int| ratio_mul(dp87_weight8(i), dp87_coupling(i, 12)), 4) == (0int, 1int));
    assert(dp87_weight8(4) == (0int, 1int));
    assert(dp87_coupling(4, 12) == (0int, 1int));
    ratio_mul_value(0int, 1int, 0int, 1int);
    assert(ratio_mul(dp87_weight8(4), dp87_coupling(4, 12)) == (0int, 1int));
    ratio_add_value(0int, 1int, 0int, 1int);
    assert(ratio_sum(|i: int| ratio_mul(dp87_weight8(i), dp87_coupling(i, 12)), 5) == (0int, 1int));
    assert(dp87_weight8(5) == (-59238493int, 1068277825int));
    assert(dp87_coupling(5, 12) == (0int, 1int));
    ratio_mul_value(-59238493int, 1068277825int, 0int, 1int);
    assert(ratio_mul(dp87_weight8(5), dp87_coupling(5, 12)) == (0int, 1068277825int));
    ratio_add_value(0int, 1int, 0int, 1068277825int);
    assert(ratio_sum(|i: int| ratio_mul(dp87_weight8(i), dp87_coupling(i, 12)), 6) == (0int, 1int));
    assert(dp87_weight8(6) == (181606767int, 758867731int));
    assert(dp87_coupling(6, 12) == (0int, 1int));
    ratio_mul_value(181606767int, 758867731int, 0int, 1int);
    assert(ratio_mul(dp87_weight8(6), dp87_coupling(6, 12)) == (0int, 758867731int));
    ratio_add_value(0int, 1int, 0int, 758867731int);
    assert(ratio_sum(|i: int| ratio_mul(dp87_weight8(i), dp87_coupling(i, 12)), 7) == (0int, 1int));
    assert(dp87_weight8(7) == (561292985int, 797845732int));
    assert(dp87_coupling(7, 12) == (0int, 1int));
    ratio_mul_value(561292985int, 797845732int, 0int, 1int);
    assert(ratio_mul(dp87_weight8(7), dp87_coupling(7, 12)) == (0int, 797845732int));
    ratio_add_value(0int, 1int, 0int, 797845732int);
    assert(ratio_sum(|i: int| ratio_mul(dp87_weight8(i), dp87_coupling(i, 12)), 8) == (0int, 1int));
    assert(dp87_weight8(8) == (-1041891430int, 1371343529int));
    assert(dp87_coupling(8, 12) == (0int, 1int));
    ratio_mul_value(-1041891430int, 1371343529int, 0int, 1int);
    assert(ratio_mul(dp87_weight8(8), dp87_coupling(8, 12)) == (0int, 1371343529int));
    ratio_add_value(0int, 1int, 0int, 1371343529int);
    assert(ratio_sum(|i: int| ratio_mul(dp87_weight8(i), dp87_coupling(i, 12)), 9) == (0int, 1int));
    assert(dp87_weight8(9) == (760417239int, 1151165299int));
    assert(dp87_coupling(9, 12) == (0int, 1int));
    ratio_mul_value(760417239int, 1151165299int, 0int, 1int);
    assert(ratio_mul(dp87_weight8(9), dp87_coupling(9, 12)) == (0int, 1151165299int));
    ratio_add_value(0int, 1int, 0int, 1151165299int);
    assert(ratio_sum(|i: int| ratio_mul(dp87_weight8(i), dp87_coupling(i, 12)), 10) == (0int, 1int));
    assert(dp87_weight8(10) == (118820643int, 751138087int));
    assert(dp87_coupling(10, 12) == (0int, 1int));
    ratio_mul_value(118820643int, 751138087int, 0int, 1int);
    assert(ratio_mul(dp87_weight8(10), dp87_coupling(10, 12)) == (0int, 751138087int));
    ratio_add_value(0int, 1int, 0int, 751138087int);
    assert(ratio_sum(|i: int| ratio_mul(dp87_weight8(i), dp87_coupling(i, 12)), 11) == (0int, 1int));
    assert(dp87_weight8(11) == (-528747749int, 2220607170int));
    assert(dp87_coupling(11, 12) == (0int, 1int));
    ratio_mul_value(-528747749int, 2220607170int, 0int, 1int);
    assert(ratio_mul(dp87_weight8(11), dp87_coupling(11, 12)) == (0int, 2220607170int));
    ratio_add_value(0int, 1int, 0int, 2220607170int);
    assert(ratio_sum(|i: int| ratio_mul(dp87_weight8(i), dp87_coupling(i, 12)), 12) == (0int, 1int));
    assert(dp87_weight8(12) == (1int, 4int));
    assert(dp87_coupling(12, 12) == (0int, 1int));
    ratio_mul_value(1int, 4int, 0int, 1int);
    assert(ratio_mul(dp87_weight8(12), dp87_coupling(12, 12)) == (0int, 4int));
    ratio_add_value(0int, 1int, 0int, 4int);
    assert(ratio_sum(|i: int| ratio_mul(dp87_weight8(i), dp87_coupling(i, 12)), 13) == (0int, 1int));
    assert(dp87_weight8(12) == (1int, 4int));
    assert(dp87_node(12) == (1int, 1int));
    assert(one_minus(dp87_node(12)) == (0int, 1int));
    ratio_mul_value(1int, 4int, 0int, 1int);
    assert(ratio_mul(dp87_weight8(12), one_minus(dp87_node(12))) == (0int, 4int));
    assert(within_1e14((0int, 1int), (0int, 4int))) by (nonlinear_arith);
}

/// The column simplifying conditions: Σ_i b_i a_ij = b_j (1 - c_j) within
/// 1e-14 for every stage `j`.
pub proof fn lemma_dp87_column_conditions(j: int)
    requires
        0 <= j < 13,
    ensures
        within_1e14(weighted_column(j), ratio_mul(dp87_weight8(j), one_minus(dp87_node(j)))),
{
    if j == 0 {
        column_condition_0();
    } else if j == 1 {
        column_condition_1();
    } else if j == 2 {
        column_condition_2();
    } else if j == 3 {
        column_condition_3();
    } else if j == 4 {
        column_condition_4();
    } else if j == 5 {
        column_condition_5();
    } else if j == 6 {
        column_condition_6();
    } else if j == 7 {
        column_condition_7();
    } else if j == 8 {
        column_condition_8();
    } else if j == 9 {
        column_condition_9();
    } else if j == 10 {
        column_condition_10();
    } else if j == 11 {
        column_condition_11();
    } else if j == 12 {
        column_condition_12();
    }
}

} // verus!
