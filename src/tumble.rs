use vstd::prelude::*;

verus! {

/// An axis of the frame that an entity's transform is expressed in.
#[derive(Clone, Copy, Debug, PartialEq, Eq, Structural)]
pub enum Axis {
    X,
    Y,
}

/// A rotation by `angle` nanoradians about `axis`; a positive angle turns
/// counter-clockwise when looking down the axis towards the origin.
#[derive(Clone, Copy, Debug, PartialEq, Eq, Structural)]
pub struct Turn {
    pub axis: Axis,
    pub angle: i128,
}

/// The turns of one tumble update after `dt` nanoseconds, in the order they
/// are applied. Each axis turns at one radian per second: about `Y` the angle
/// falls, about `X` it rises.
pub open spec fn spec_tumble(dt: nat) -> Seq<Turn> {
    seq![Turn { axis: Axis::Y, angle: (-dt) as i128 }, Turn { axis: Axis::X, angle: dt as i128 }]
}

/// Sum of the angles, in nanoradians, of the turns in `turns` about `axis`.
pub open spec fn total_turn(turns: Seq<Turn>, axis: Axis) -> int
    decreases turns.len(),
{
    if turns.len() == 0 {
        0
    } else {
        total_turn(turns.drop_last(), axis) + if turns.last().axis == axis {
            turns.last().angle as int
        } else {
            0
        }
    }
}

/// The turns to apply to each tumbling entity after a frame that lasted
/// `elapsed_nanos` nanoseconds.
pub fn tumble_turns(elapsed_nanos: u64) -> (r: Vec<Turn>)
    ensures
        r@ == spec_tumble(elapsed_nanos as nat),
        total_turn(r@, Axis::Y) == -(elapsed_nanos as int),
        total_turn(r@, Axis::X) == elapsed_nanos as int,
{
    let angle: i128 = elapsed_nanos as i128;
    let mut turns: Vec<Turn> = Vec::new();
    turns.push(Turn { axis: Axis::Y, angle: -angle });
    turns.push(Turn { axis: Axis::X, angle: angle });
    assert(turns@ =~= spec_tumble(elapsed_nanos as nat));
    proof {
        lemma_tumble_totals(elapsed_nanos);
    }
    turns
}

/// One update after `dt` nanoseconds turns by exactly `-dt` nanoradians about
/// `Y` and `+dt` nanoradians about `X`.
pub proof fn lemma_tumble_totals(dt: u64)
    ensures
        total_turn(spec_tumble(dt as nat), Axis::Y) == -(dt as int),
        total_turn(spec_tumble(dt as nat), Axis::X) == dt as int,
{
    let turns = spec_tumble(dt as nat);
    let first = turns.drop_last();
    assert(first =~= seq![Turn { axis: Axis::Y, angle: (-dt) as i128 }]);
    assert(first.drop_last() =~= Seq::<Turn>::empty());
    assert(total_turn(first.drop_last(), Axis::Y) == 0);
    assert(total_turn(first.drop_last(), Axis::X) == 0);
    assert(total_turn(first, Axis::Y) == -(dt as int));
    assert(total_turn(first, Axis::X) == 0);
}

/// An update after no elapsed time turns nothing: every one of its turns has
/// angle zero, so the orientation is left as it was.
pub proof fn tumble_without_elapsed_time_turns_nothing()
    ensures
        forall|i: int| 0 <= i < spec_tumble(0).len() ==> #[trigger] spec_tumble(0)[i].angle == 0,
        total_turn(spec_tumble(0), Axis::X) == 0,
        total_turn(spec_tumble(0), Axis::Y) == 0,
{
    lemma_tumble_totals(0);
}

/// The total turned about each axis is additive over the turns applied.
pub proof fn lemma_total_turn_concat(a: Seq<Turn>, b: Seq<Turn>, axis: Axis)
    ensures
        total_turn(a + b, axis) == total_turn(a, axis) + total_turn(b, axis),
    decreases b.len(),
{
    if b.len() == 0 {
        assert(a + b =~= a);
    } else {
        assert((a + b).drop_last() =~= a + b.drop_last());
        assert((a + b).last() == b.last());
        lemma_total_turn_concat(a, b.drop_last(), axis);
    }
}

/// Two updates after `dt1` and then `dt2` nanoseconds turn, about each axis,
/// by as much as one update after `dt1 + dt2` nanoseconds.
pub proof fn tumble_updates_add_up(dt1: u64, dt2: u64)
    requires
        dt1 + dt2 <= u64::MAX,
    ensures
        forall|axis: Axis|
            #[trigger] total_turn(spec_tumble(dt1 as nat) + spec_tumble(dt2 as nat), axis)
                == total_turn(spec_tumble((dt1 + dt2) as nat), axis),
{
    lemma_tumble_totals(dt1);
    lemma_tumble_totals(dt2);
    lemma_tumble_totals((dt1 + dt2) as u64);
    assert forall|axis: Axis|
        #[trigger] total_turn(spec_tumble(dt1 as nat) + spec_tumble(dt2 as nat), axis)
            == total_turn(spec_tumble((dt1 + dt2) as nat), axis) by {
        lemma_total_turn_concat(spec_tumble(dt1 as nat), spec_tumble(dt2 as nat), axis);
    }
}

} // verus!
