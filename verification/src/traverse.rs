//! Point classification: descending the BSP tree to the containing leaf.
//!
//! At every branch the query point's signed distance from the splitting
//! plane picks the front or back child; the tree navigator resolves the
//! child id. A well-formed tree is acyclic, but a corrupted file could
//! encode a cycle, so descent is bounded by the total branch count: a
//! longer walk must revisit a branch and is reported as
//! [`Error::TraversalOverrun`] instead of looping.

use vstd::prelude::*;

use crate::bsp::Bsp;
use crate::error::Error;
use crate::fp::{front_side, spec_front_side};
use crate::records::{Branch, Leaf, LeafType, Node, Vec3};

verus! {

/// The leaf reached from branch `b` within `fuel` descents, under the
/// front/back decisions of [`spec_front_side`]; `Err(TraversalOverrun)`
/// when `fuel` descents do not reach a leaf.
pub open spec fn spec_traverse(bsp: Bsp, b: Branch, p: Vec3<i16>, fuel: nat) -> Result<
    Option<Leaf>,
    Error,
> decreases fuel,
{
    if fuel == 0 {
        Err(Error::TraversalOverrun)
    } else {
        match bsp.spec_plane_at(b.plane_id as int) {
            Err(e) => Err(e),
            Ok(plane) => {
                let child: int = if spec_front_side(plane, p) {
                    b.front_id as int
                } else {
                    b.back_id as int
                };
                match bsp.spec_node(child) {
                    Err(e) => Err(e),
                    Ok(None) => Ok(None),
                    Ok(Some(Node::Leaf(l))) => Ok(Some(l)),
                    Ok(Some(Node::Branch(b2))) => spec_traverse(bsp, b2, p, (fuel - 1) as nat),
                }
            },
        }
    }
}

/// Law: once the walk settles within some number of descents — the
/// result is not the overrun error — more fuel cannot change the
/// outcome. With [`Branch::traverse`]'s contract this pins the
/// classification down: whenever the walk finishes at all, it finishes
/// within `branch_count` descents with this very result.
pub proof fn lemma_traverse_settled(bsp: Bsp, b: Branch, p: Vec3<i16>, fuel: nat)
    requires
        spec_traverse(bsp, b, p, fuel) != Err::<Option<Leaf>, Error>(Error::TraversalOverrun),
    ensures
        spec_traverse(bsp, b, p, fuel + 1) == spec_traverse(bsp, b, p, fuel),
    decreases fuel,
{
    if fuel == 0 {
        // The walk cannot have settled without any fuel.
    } else {
        match bsp.spec_plane_at(b.plane_id as int) {
            Err(_) => {},
            Ok(plane) => {
                let child: int = if spec_front_side(plane, p) {
                    b.front_id as int
                } else {
                    b.back_id as int
                };
                match bsp.spec_node(child) {
                    Err(_) => {},
                    Ok(None) => {},
                    Ok(Some(Node::Leaf(_))) => {},
                    Ok(Some(Node::Branch(b2))) => {
                        lemma_traverse_settled(bsp, b2, p, (fuel - 1) as nat);
                    },
                }
            },
        }
    }
}

impl Branch {
    /// Classifies `position`: walks down from this branch to the leaf
    /// containing it, `Ok(None)` when the walk reaches an id that
    /// resolves to no node.
    ///
    /// The walk performs at most `branch_count` descents for any input,
    /// including adversarially cyclic ids; exceeding that bound returns
    /// [`Error::TraversalOverrun`].
    pub fn traverse(&self, bsp: &Bsp, position: &Vec3<i16>) -> (r: Result<Option<Leaf>, Error>)
        ensures
            r == spec_traverse(*bsp, *self, *position, bsp.spec_branch_count() as nat),
            r matches Ok(Some(l)) ==> l.leaf_type != LeafType::Invalid,
    {
        let mut node: Branch = *self;
        let mut fuel: usize = bsp.branch_count();
        loop
            invariant
                spec_traverse(*bsp, node, *position, fuel as nat) == spec_traverse(
                    *bsp,
                    *self,
                    *position,
                    bsp.spec_branch_count() as nat,
                ),
            decreases fuel,
        {
            if fuel == 0 {
                return Err(Error::TraversalOverrun);
            }
            let plane = match node.plane(bsp) {
                Ok(p) => p,
                Err(e) => {
                    return Err(e);
                },
            };
            let child_id: i32 = if front_side(&plane, position) {
                node.front_id as i32
            } else {
                node.back_id as i32
            };
            match bsp.node(child_id) {
                Err(e) => {
                    return Err(e);
                },
                Ok(None) => {
                    return Ok(None);
                },
                Ok(Some(Node::Leaf(l))) => {
                    return Ok(Some(l));
                },
                Ok(Some(Node::Branch(b2))) => {
                    node = b2;
                    fuel = fuel - 1;
                },
            }
        }
    }
}

impl Bsp {
    /// Classifies `position` against a model's primary hull: resolves the
    /// model's root and walks to the containing leaf.
    pub fn classify_point(&self, model: &crate::records::Model, position: &Vec3<i16>) -> (r:
        Result<Option<Leaf>, Error>)
        ensures
            r == (match self.spec_node(model.hulls.hull0 as int) {
                Err(e) => Err::<Option<Leaf>, Error>(e),
                Ok(None) => Ok::<Option<Leaf>, Error>(None),
                Ok(Some(Node::Leaf(l))) => Ok::<Option<Leaf>, Error>(Some(l)),
                Ok(Some(Node::Branch(b))) => spec_traverse(
                    *self,
                    b,
                    *position,
                    self.spec_branch_count() as nat,
                ),
            }),
            r matches Ok(Some(l)) ==> l.leaf_type != LeafType::Invalid,
    {
        match self.node(model.hulls.hull0) {
            Err(e) => Err(e),
            Ok(None) => Ok(None),
            Ok(Some(Node::Leaf(l))) => Ok(Some(l)),
            Ok(Some(Node::Branch(b))) => b.traverse(self, position),
        }
    }
}

} // verus!
