//! Classification of the eigenmodes of a linearized aircraft model.
//!
//! The eigenvalues and the quantities derived from them (period, time
//! constant, damping) are floating-point values computed by the caller. This
//! module holds the decisions made from them: which eigenvalues are reported
//! as modes, in which order, and which kind of motion each mode is.

use vstd::prelude::*;

verus! {

/// The axis of motion that a set of eigenvalues belongs to.
#[derive(Debug, Clone, Copy, PartialEq, Eq, Structural)]
pub enum Axis {
    Longitudinal,
    Lateral,
}

/// The classical aircraft modes.
#[derive(Debug, Clone, Copy, PartialEq, Eq, Structural)]
pub enum ModeKind {
    ShortPeriod,
    Phugoid,
    DutchRoll,
    RollSubsidence,
    Spiral,
    Unclassified,
}

/// How an eigenvalue is treated by the modal analysis.
///
/// An eigenvalue whose imaginary part is below the numerical threshold in
/// magnitude is `Aperiodic`; otherwise it is `Oscillatory` when its imaginary
/// part is positive and `Conjugate` when it is negative. A conjugate
/// eigenvalue describes the same mode as its partner and is not reported.
#[derive(Debug, Clone, Copy, PartialEq, Eq, Structural)]
pub enum EigenvalueClass {
    Aperiodic,
    Oscillatory,
    Conjugate,
}

/// Classifies an oscillatory mode from its axis and whether its period is
/// shorter than the short-period/phugoid split (15 s).
pub fn classify_complex_mode(axis: Axis, period_below_split: bool) -> (kind: ModeKind)
    ensures
        kind == (match axis {
            Axis::Longitudinal => if period_below_split {
                ModeKind::ShortPeriod
            } else {
                ModeKind::Phugoid
            },
            Axis::Lateral => ModeKind::DutchRoll,
        }),
{
    match axis {
        Axis::Longitudinal => {
            if period_below_split {
                ModeKind::ShortPeriod
            } else {
                ModeKind::Phugoid
            }
        },
        Axis::Lateral => ModeKind::DutchRoll,
    }
}

/// Classifies an aperiodic mode from its axis, its stability, and how its
/// time constant compares with the roll-subsidence limit (below 1 s) and the
/// spiral limit (above 20 s).
pub fn classify_real_mode(
    axis: Axis,
    stable: bool,
    time_constant_below_roll_limit: bool,
    time_constant_above_spiral_limit: bool,
) -> (kind: ModeKind)
    ensures
        kind == (if axis != Axis::Lateral || !stable {
            ModeKind::Unclassified
        } else if time_constant_below_roll_limit {
            ModeKind::RollSubsidence
        } else if time_constant_above_spiral_limit {
            ModeKind::Spiral
        } else {
            ModeKind::Unclassified
        }),
        axis == Axis::Longitudinal ==> kind == ModeKind::Unclassified,
        !stable ==> kind == ModeKind::Unclassified,
{
    if axis != Axis::Lateral || !stable {
        return ModeKind::Unclassified;
    }
    if time_constant_below_roll_limit {
        ModeKind::RollSubsidence
    } else if time_constant_above_spiral_limit {
        ModeKind::Spiral
    } else {
        ModeKind::Unclassified
    }
}

/// The positions, in increasing order, at which `class` occurs in `classes`.
pub open spec fn positions_of(classes: Seq<EigenvalueClass>, class: EigenvalueClass) -> Seq<usize>
    decreases classes.len(),
{
    if classes.len() == 0 {
        seq![]
    } else {
        let earlier = positions_of(classes.drop_last(), class);
        if classes.last() == class {
            earlier.push((classes.len() - 1) as usize)
        } else {
            earlier
        }
    }
}

/// The order in which the eigenvalues are reported as modes: every
/// oscillatory eigenvalue in input order, then every aperiodic one in input
/// order. Conjugate eigenvalues are left out.
pub open spec fn report_order(classes: Seq<EigenvalueClass>) -> Seq<usize> {
    positions_of(classes, EigenvalueClass::Oscillatory) + positions_of(
        classes,
        EigenvalueClass::Aperiodic,
    )
}

fn collect_positions(classes: &Vec<EigenvalueClass>, class: EigenvalueClass, out: &mut Vec<usize>)
    ensures
        final(out)@ == old(out)@ + positions_of(classes@, class),
{
    let ghost start = out@;
    let mut i: usize = 0;
    while i < classes.len()
        invariant
            i <= classes.len(),
            out@ == start + positions_of(classes@.take(i as int), class),
        decreases classes.len() - i,
    {
        assert(classes@.take(i + 1).drop_last() =~= classes@.take(i as int));
        if classes[i] == class {
            out.push(i);
        }
        i = i + 1;
    }
    assert(classes@.take(classes.len() as int) =~= classes@);
}

/// Lists the indices of the eigenvalues to report as modes, in report order:
/// the oscillatory ones first, then the aperiodic ones, each group in input
/// order.
pub fn modes_in_report_order(classes: &Vec<EigenvalueClass>) -> (order: Vec<usize>)
    ensures
        order@ == report_order(classes@),
        forall|j: int|
            0 <= j < order.len() ==> (#[trigger] order@[j]) < classes.len() && classes@[order@[j]
                as int] != EigenvalueClass::Conjugate,
        forall|k: int|
            0 <= k < classes.len() && classes@[k] != EigenvalueClass::Conjugate ==> order@.contains(
                k as usize,
            ),
        forall|i: int, j: int|
            0 <= i < j < order.len() && classes@[order@[i] as int] == classes@[order@[j] as int]
                ==> order@[i] < order@[j],
        forall|i: int, j: int|
            0 <= i < j < order.len() ==> !(classes@[order@[i] as int]
                == EigenvalueClass::Aperiodic && classes@[order@[j] as int]
                == EigenvalueClass::Oscillatory),
{
    let n = classes.len();
    let mut order: Vec<usize> = Vec::new();
    collect_positions(classes, EigenvalueClass::Oscillatory, &mut order);
    collect_positions(classes, EigenvalueClass::Aperiodic, &mut order);
    proof {
        assert(classes@.len() == n);
        lemma_report_order(classes@);
        let r = order@;
        assert forall|j: int| 0 <= j < r.len() implies (#[trigger] r[j]) < classes.len()
            && classes@[r[j] as int] != EigenvalueClass::Conjugate by {
            assert(r[j] < classes.len());
            let k = r[j] as int;
            assert(k as usize == r[j]);
            assert(report_order(classes@).contains(k as usize));
        }
        assert forall|i: int, j: int|
            0 <= i < j < r.len() implies !(classes@[r[i] as int] == EigenvalueClass::Aperiodic
            && classes@[r[j] as int] == EigenvalueClass::Oscillatory) by {
            assert(r[i] < classes.len() && r[j] < classes.len());
        }
    }
    order
}

/// An index belongs to `positions_of(classes, class)` exactly when it is a
/// position of `classes` holding `class`, and the positions are increasing.
pub proof fn lemma_positions_of(classes: Seq<EigenvalueClass>, class: EigenvalueClass)
    requires
        classes.len() <= usize::MAX,
    ensures
        forall|k: int|
            0 <= k < classes.len() ==> (#[trigger] positions_of(classes, class).contains(
                k as usize,
            ) <==> classes[k] == class),
        forall|j: int|
            0 <= j < positions_of(classes, class).len() ==> {
                &&& (#[trigger] positions_of(classes, class)[j]) < classes.len()
                &&& classes[positions_of(classes, class)[j] as int] == class
            },
        forall|i: int, j: int|
            0 <= i < j < positions_of(classes, class).len() ==> positions_of(classes, class)[i]
                < positions_of(classes, class)[j],
    decreases classes.len(),
{
    if classes.len() > 0 {
        let prefix = classes.drop_last();
        lemma_positions_of(prefix, class);
        let p = positions_of(classes, class);
        let q = positions_of(prefix, class);
        assert forall|k: int| 0 <= k < classes.len() implies (#[trigger] p.contains(k as usize)
            <==> classes[k] == class) by {
            if k < classes.len() - 1 {
                assert(prefix[k] == classes[k]);
                if classes.last() == class {
                    if p.contains(k as usize) {
                        let w = choose|w: int| 0 <= w < p.len() && p[w] == k as usize;
                        if w < q.len() {
                            assert(q[w] == k as usize);
                            assert(q.contains(k as usize));
                        }
                    }
                    if q.contains(k as usize) {
                        let w = choose|w: int| 0 <= w < q.len() && q[w] == k as usize;
                        assert(p[w] == k as usize);
                    }
                }
            } else {
                if classes.last() == class {
                    assert(p[p.len() - 1] == k as usize);
                } else {
                    if p.contains(k as usize) {
                        let w = choose|w: int| 0 <= w < p.len() && p[w] == k as usize;
                        assert(q[w] < prefix.len());
                    }
                }
            }
        }
    }
}

/// Every eigenvalue except a conjugate one is reported exactly once, every
/// oscillatory mode is reported before every aperiodic one, and a conjugate
/// eigenvalue is never reported.
pub proof fn lemma_report_order(classes: Seq<EigenvalueClass>)
    requires
        classes.len() <= usize::MAX,
    ensures
        forall|k: int|
            0 <= k < classes.len() ==> (#[trigger] report_order(classes).contains(k as usize)
                <==> classes[k] != EigenvalueClass::Conjugate),
        forall|i: int, j: int|
            0 <= i < j < report_order(classes).len() ==> report_order(classes)[i]
                != report_order(classes)[j],
        forall|i: int, j: int|
            0 <= i < report_order(classes).len() && 0 <= j < report_order(classes).len()
                && classes[report_order(classes)[i] as int] == EigenvalueClass::Oscillatory
                && classes[report_order(classes)[j] as int] == EigenvalueClass::Aperiodic ==> i
                < j,
        forall|j: int|
            0 <= j < report_order(classes).len() ==> (#[trigger] report_order(classes)[j])
                < classes.len(),
        forall|i: int, j: int|
            0 <= i < j < report_order(classes).len() && classes[report_order(classes)[i] as int]
                == classes[report_order(classes)[j] as int] ==> report_order(classes)[i]
                < report_order(classes)[j],
{
    lemma_positions_of(classes, EigenvalueClass::Oscillatory);
    lemma_positions_of(classes, EigenvalueClass::Aperiodic);
    let o = positions_of(classes, EigenvalueClass::Oscillatory);
    let a = positions_of(classes, EigenvalueClass::Aperiodic);
    let r = report_order(classes);
    assert forall|j: int| 0 <= j < r.len() implies (#[trigger] r[j]) < classes.len() && (
    j < o.len() ==> classes[r[j] as int] == EigenvalueClass::Oscillatory) && (j >= o.len()
        ==> classes[r[j] as int] == EigenvalueClass::Aperiodic) by {
        if j < o.len() {
            assert(r[j] == o[j]);
        } else {
            assert(r[j] == a[j - o.len()]);
        }
    }
    assert forall|k: int| 0 <= k < classes.len() implies (#[trigger] r.contains(k as usize)
        <==> classes[k] != EigenvalueClass::Conjugate) by {
        if r.contains(k as usize) {
            let w = choose|w: int| 0 <= w < r.len() && r[w] == k as usize;
            if w < o.len() {
                assert(r[w] == o[w]);
            } else {
                assert(r[w] == a[w - o.len()]);
            }
        }
        if classes[k] == EigenvalueClass::Oscillatory {
            assert(o.contains(k as usize));
            let w = choose|w: int| 0 <= w < o.len() && o[w] == k as usize;
            assert(r[w] == k as usize);
        }
        if classes[k] == EigenvalueClass::Aperiodic {
            assert(a.contains(k as usize));
            let w = choose|w: int| 0 <= w < a.len() && a[w] == k as usize;
            assert(r[w + o.len()] == k as usize);
        }
    }
    assert forall|i: int, j: int| 0 <= i < j < r.len() implies r[i] != r[j] by {
        if j < o.len() {
            assert(r[i] == o[i] && r[j] == o[j]);
        } else if i >= o.len() {
            assert(r[i] == a[i - o.len()] && r[j] == a[j - o.len()]);
        } else {
            assert(r[i] == o[i] && r[j] == a[j - o.len()]);
        }
    }
    assert forall|i: int, j: int|
        0 <= i < j < r.len() && classes[r[i] as int] == classes[r[j] as int] implies r[i]
        < r[j] by {
        if j < o.len() {
            assert(r[i] == o[i] && r[j] == o[j]);
        } else if i >= o.len() {
            assert(r[i] == a[i - o.len()] && r[j] == a[j - o.len()]);
        } else {
            assert(r[i] == o[i] && r[j] == a[j - o.len()]);
            assert(classes[r[i] as int] == EigenvalueClass::Oscillatory);
            assert(classes[r[j] as int] == EigenvalueClass::Aperiodic);
        }
    }
}

} // verus!
