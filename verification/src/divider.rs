//! The dividers between panes: one for each split of the layout, and which pane and
//! which axis dragging it is about.

use vstd::prelude::*;

use crate::dialog_grid::{first_hit, hit_button};

verus! {

/// A pane.
#[derive(Debug, Clone, Copy, PartialEq, Eq, Structural)]
pub struct PaneId {
    pub value: u64,
}

/// How a split lays its parts out: beside each other, or one above the other.
#[derive(Debug, Clone, Copy, PartialEq, Eq, Structural)]
pub enum SplitDirection {
    Horizontal,
    Vertical,
}

/// The share of the first part of a split, as the bits of a 32-bit floating-point
/// number.
#[derive(Debug, Clone, Copy, PartialEq, Eq, Structural)]
pub struct Ratio {
    pub bits: u32,
}

/// A layout of panes.
#[derive(Debug)]
pub enum LayoutNode {
    Leaf(PaneId),
    Split {
        direction: SplitDirection,
        ratio: Ratio,
        first: Box<LayoutNode>,
        second: Box<LayoutNode>,
    },
}

/// A step from an area to one of the two parts that a split cuts it into.
#[derive(Debug, Clone, Copy, PartialEq, Eq, Structural)]
pub struct Cut {
    pub direction: SplitDirection,
    pub ratio: Ratio,
    /// Whether it is the second part.
    pub second: bool,
}

/// A divider.
#[derive(Debug, PartialEq, Eq)]
pub struct Divider {
    /// How the area that is split comes about from the whole.
    pub parent: Vec<Cut>,
    pub direction: SplitDirection,
    pub ratio: Ratio,
    /// The first pane of the first part.
    pub first_pane: PaneId,
}

/// What a divider amounts to.
#[verifier::ext_equal]
pub struct DividerModel {
    pub parent: Seq<Cut>,
    pub direction: SplitDirection,
    pub ratio: Ratio,
    pub first_pane: PaneId,
}

impl View for Divider {
    type V = DividerModel;

    open spec fn view(&self) -> DividerModel {
        DividerModel {
            parent: self.parent@,
            direction: self.direction,
            ratio: self.ratio,
            first_pane: self.first_pane,
        }
    }
}

/// What dividers amount to.
pub open spec fn models(dividers: Seq<Divider>) -> Seq<DividerModel> {
    Seq::new(dividers.len(), |i: int| dividers[i]@)
}

/// The first pane of a layout.
pub open spec fn first_leaf(node: LayoutNode) -> PaneId
    decreases node,
{
    match node {
        LayoutNode::Leaf(id) => id,
        LayoutNode::Split { first, .. } => first_leaf(*first),
    }
}

/// The panes of a layout, from first to last.
pub open spec fn leaves(node: LayoutNode) -> Seq<PaneId>
    decreases node,
{
    match node {
        LayoutNode::Leaf(id) => seq![id],
        LayoutNode::Split { first, second, .. } => leaves(*first) + leaves(*second),
    }
}

/// The dividers of a layout in an area: that of its own split, then those of its
/// first part, then those of its second.
pub open spec fn dividers(node: LayoutNode, area: Seq<Cut>) -> Seq<DividerModel>
    decreases node,
{
    match node {
        LayoutNode::Leaf(_) => Seq::empty(),
        LayoutNode::Split { direction, ratio, first, second } => seq![
            DividerModel { parent: area, direction, ratio, first_pane: first_leaf(*first) },
        ] + dividers(*first, area.push(Cut { direction, ratio, second: false })) + dividers(
            *second,
            area.push(Cut { direction, ratio, second: true }),
        ),
    }
}

fn first_leaf_of(node: &LayoutNode) -> (r: PaneId)
    ensures
        r == first_leaf(*node),
    decreases node,
{
    match node {
        LayoutNode::Leaf(id) => *id,
        LayoutNode::Split { first, .. } => first_leaf_of(first),
    }
}

fn copy_cuts(cuts: &Vec<Cut>) -> (r: Vec<Cut>)
    ensures
        r@ == cuts@,
{
    let mut out: Vec<Cut> = Vec::new();
    let mut i: usize = 0;
    while i < cuts.len()
        invariant
            i <= cuts@.len(),
            out@ == cuts@.take(i as int),
        decreases cuts@.len() - i,
    {
        out.push(cuts[i]);
        i += 1;
        proof {
            assert(out@ =~= cuts@.take(i as int));
        }
    }
    proof {
        assert(cuts@.take(cuts@.len() as int) =~= cuts@);
    }
    out
}

fn collect_dividers_inner(node: &LayoutNode, area: &mut Vec<Cut>, out: &mut Vec<Divider>)
    ensures
        final(area)@ == old(area)@,
        models(final(out)@) == models(old(out)@) + dividers(*node, old(area)@),
    decreases node,
{
    match node {
        LayoutNode::Leaf(_) => {
            proof {
                assert(models(out@) =~= models(old(out)@) + dividers(*node, old(area)@));
            }
        },
        LayoutNode::Split { direction, ratio, first, second } => {
            let ghost here = area@;
            let divider = Divider {
                parent: copy_cuts(area),
                direction: *direction,
                ratio: *ratio,
                first_pane: first_leaf_of(first),
            };
            let ghost own = divider@;
            out.push(divider);
            proof {
                assert(models(out@) =~= models(old(out)@).push(own));
            }
            area.push(Cut { direction: *direction, ratio: *ratio, second: false });
            let ghost left = area@;
            collect_dividers_inner(first, area, out);
            let _ = area.pop();
            proof {
                assert(area@ =~= here);
            }
            area.push(Cut { direction: *direction, ratio: *ratio, second: true });
            let ghost right = area@;
            collect_dividers_inner(second, area, out);
            let _ = area.pop();
            proof {
                assert(area@ =~= here);
                assert(models(out@) =~= models(old(out)@) + (seq![own] + dividers(**first, left)
                    + dividers(**second, right)));
            }
        },
    }
}

/// The dividers of a layout.
pub fn collect_dividers(node: &LayoutNode) -> (r: Vec<Divider>)
    ensures
        models(r@) == dividers(*node, Seq::empty()),
{
    let mut out: Vec<Divider> = Vec::new();
    let mut area: Vec<Cut> = Vec::new();
    proof {
        assert(models(out@) =~= Seq::<DividerModel>::empty());
        assert(area@ =~= Seq::<Cut>::empty());
    }
    collect_dividers_inner(node, &mut area, &mut out);
    proof {
        assert(models(out@) =~= dividers(*node, Seq::empty()));
    }
    out
}

/// The divider under the pointer, where there is one: the first of those that it is
/// close to.
pub fn hit_test_divider(hits: &[bool]) -> (r: Option<usize>)
    ensures
        match (r, first_hit(hits@)) {
            (Some(i), Some(j)) => i == j && i < hits@.len(),
            (None, None) => true,
            _ => false,
        },
{
    hit_button(hits)
}

/// The axis along which a divider is dragged.
#[derive(Debug, Clone, Copy, PartialEq, Eq, Structural)]
pub enum Axis {
    X,
    Y,
}

/// A divider that is being dragged.
#[derive(Debug, Clone, Copy, PartialEq, Eq, Structural)]
pub struct DividerDrag {
    pub first_pane: PaneId,
    pub direction: SplitDirection,
    /// The axis on which the area that is split is measured.
    pub axis: Axis,
}

/// A divider begins to be dragged: one between parts that lie beside each other moves
/// along the area's width, any other along its height.
pub fn start_drag(divider: &Divider) -> (r: DividerDrag)
    ensures
        r.first_pane == divider.first_pane,
        r.direction == divider.direction,
        r.axis == match divider.direction {
            SplitDirection::Horizontal => Axis::X,
            SplitDirection::Vertical => Axis::Y,
        },
{
    let axis = match divider.direction {
        SplitDirection::Horizontal => Axis::X,
        SplitDirection::Vertical => Axis::Y,
    };
    DividerDrag { first_pane: divider.first_pane, direction: divider.direction, axis }
}

/// A layout has one divider fewer than panes.
pub proof fn one_divider_per_split(node: LayoutNode, area: Seq<Cut>)
    ensures
        dividers(node, area).len() + 1 == leaves(node).len(),
    decreases node,
{
    match node {
        LayoutNode::Leaf(_) => {},
        LayoutNode::Split { direction, ratio, first, second } => {
            one_divider_per_split(*first, area.push(Cut { direction, ratio, second: false }));
            one_divider_per_split(*second, area.push(Cut { direction, ratio, second: true }));
        },
    }
}

/// The first pane of a layout is the first of its panes.
pub proof fn first_leaf_is_first(node: LayoutNode)
    ensures
        leaves(node).len() > 0,
        leaves(node)[0] == first_leaf(node),
    decreases node,
{
    match node {
        LayoutNode::Leaf(_) => {},
        LayoutNode::Split { first, second, .. } => {
            first_leaf_is_first(*first);
            first_leaf_is_first(*second);
        },
    }
}

/// Every divider is about a pane of the layout.
pub proof fn dividers_name_panes(node: LayoutNode, area: Seq<Cut>, i: int)
    requires
        0 <= i < dividers(node, area).len(),
    ensures
        leaves(node).contains(dividers(node, area)[i].first_pane),
    decreases node,
{
    match node {
        LayoutNode::Leaf(_) => {},
        LayoutNode::Split { direction, ratio, first, second } => {
            let left = area.push(Cut { direction, ratio, second: false });
            let right = area.push(Cut { direction, ratio, second: true });
            let n = dividers(*first, left).len();
            let all = dividers(node, area);
            if i == 0 {
                first_leaf_is_first(*first);
                assert(leaves(node)[0] == all[0].first_pane);
            } else if i <= n {
                dividers_name_panes(*first, left, i - 1);
                let pane = dividers(*first, left)[i - 1].first_pane;
                assert(all[i].first_pane == pane);
                let k = choose|k: int| 0 <= k < leaves(*first).len() && leaves(*first)[k] == pane;
                assert(leaves(node)[k] == pane);
            } else {
                dividers_name_panes(*second, right, i - 1 - n);
                let pane = dividers(*second, right)[i - 1 - n].first_pane;
                assert(all[i].first_pane == pane);
                let k = choose|k: int|
                    0 <= k < leaves(*second).len() && leaves(*second)[k] == pane;
                assert(leaves(node)[leaves(*first).len() + k] == pane);
            }
        },
    }
}

/// A split has its own divider, where it is cut and in its direction, then those of its
/// first part and then those of its second; a pane has none.
pub proof fn splits_are_divided_where_they_are_cut(
    direction: SplitDirection,
    ratio: Ratio,
    first: LayoutNode,
    second: LayoutNode,
    area: Seq<Cut>,
    pane: PaneId,
)
    ensures
        ({
            let node = LayoutNode::Split {
                direction,
                ratio,
                first: Box::new(first),
                second: Box::new(second),
            };
            let all = dividers(node, area);
            let a = dividers(first, area.push(Cut { direction, ratio, second: false }));
            let b = dividers(second, area.push(Cut { direction, ratio, second: true }));
            &&& dividers(LayoutNode::Leaf(pane), area).len() == 0
            &&& all.len() == 1 + a.len() + b.len()
            &&& all[0].parent == area
            &&& all[0].direction == direction
            &&& all[0].ratio == ratio
            &&& all[0].first_pane == leaves(first)[0]
            &&& all.subrange(1, 1 + a.len() as int) == a
            &&& all.skip(1 + a.len() as int) == b
        }),
{
    let node = LayoutNode::Split {
        direction,
        ratio,
        first: Box::new(first),
        second: Box::new(second),
    };
    first_leaf_is_first(first);
    let all = dividers(node, area);
    let a = dividers(first, area.push(Cut { direction, ratio, second: false }));
    let b = dividers(second, area.push(Cut { direction, ratio, second: true }));
    assert(all.subrange(1, 1 + a.len() as int) =~= a);
    assert(all.skip(1 + a.len() as int) =~= b);
}

/// The function collects the dividers that the laws speak of, and a drag is along the
/// split.
pub proof fn divider_functions(
    node: &LayoutNode,
    found: Vec<Divider>,
    divider: &Divider,
    drag: DividerDrag,
)
    requires
        call_ensures(collect_dividers, (node,), found),
        call_ensures(start_drag, (divider,), drag),
    ensures
        models(found@) == dividers(*node, Seq::empty()),
        drag.first_pane == divider.first_pane,
        drag.direction == divider.direction,
        divider.direction == SplitDirection::Horizontal ==> drag.axis == Axis::X,
        divider.direction == SplitDirection::Vertical ==> drag.axis == Axis::Y,
{
}

} // verus!
