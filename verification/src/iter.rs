//! Range decoding: a leaf's faces and a face's edges.
//!
//! Both go through an indirection lump (`lfaces` / `ledges`) that maps a
//! local range onto the global record arrays. The whole range is decoded
//! up front — failing on the first reference that leaves its target
//! array — and handed out through a [`ValueIter`].

use vstd::prelude::*;

use crate::bsp::Bsp;
use crate::error::Error;
use crate::fp::spec_single_neg;
use crate::records::{Edge, Face, Leaf, Plane, Vec3};

verus! {

/// Hands out decoded records one at a time.
pub struct ValueIter<T> {
    items: Vec<T>,
    pos: usize,
}

impl<T> ValueIter<T> {
    /// The records not yet handed out.
    pub closed spec fn remaining(self) -> Seq<T> {
        if self.pos <= self.items@.len() {
            self.items@.skip(self.pos as int)
        } else {
            Seq::empty()
        }
    }

    pub(crate) fn new(items: Vec<T>) -> (it: Self)
        ensures
            it.remaining() == items@,
    {
        let it = ValueIter { items, pos: 0 };
        proof {
            assert(it.remaining() =~= it.items@);
        }
        it
    }
}

impl<T: Copy> ValueIter<T> {
    /// The next record, or `None` once all have been handed out.
    pub fn next(&mut self) -> (r: Option<T>)
        ensures
            old(self).remaining().len() > 0 ==> r == Some(old(self).remaining()[0])
                && final(self).remaining() == old(self).remaining().skip(1),
            old(self).remaining().len() == 0 ==> r == None::<T>
                && final(self).remaining() == old(self).remaining(),
    {
        if self.pos < self.items.len() {
            let v = self.items[self.pos];
            self.pos = self.pos + 1;
            proof {
                assert(self.remaining() =~= old(self).remaining().skip(1));
            }
            Some(v)
        } else {
            None
        }
    }
}

/// The faces referenced by `n` consecutive face-indirection records
/// starting at `start`, in order; the first failing reference decides
/// the error.
pub open spec fn spec_faces_from(bsp: Bsp, start: int, n: nat) -> Result<Seq<Face>, Error>
    decreases n,
{
    if n == 0 {
        Ok(Seq::empty())
    } else {
        match bsp.spec_lface_at(start) {
            Err(e) => Err(e),
            Ok(fr) => match bsp.spec_face_at(fr.0 as int) {
                Err(e) => Err(e),
                Ok(f) => match spec_faces_from(bsp, start + 1, (n - 1) as nat) {
                    Ok(rest) => Ok(seq![f] + rest),
                    Err(e) => Err(e),
                },
            },
        }
    }
}

/// The edges referenced by `n` consecutive edge-indirection records
/// starting at `start`, in order; the first failing reference decides
/// the error.
pub open spec fn spec_edges_from(bsp: Bsp, start: int, n: nat) -> Result<Seq<Edge>, Error>
    decreases n,
{
    if n == 0 {
        Ok(Seq::empty())
    } else {
        match bsp.spec_ledge_at(start) {
            Err(e) => Err(e),
            Ok(er) => match bsp.spec_edge_at(er.0 as int) {
                Err(e) => Err(e),
                Ok(ed) => match spec_edges_from(bsp, start + 1, (n - 1) as nat) {
                    Ok(rest) => Ok(seq![ed] + rest),
                    Err(e) => Err(e),
                },
            },
        }
    }
}

impl Leaf {
    /// Decodes this leaf's faces through the face-indirection lump.
    pub fn faces(&self, bsp: &Bsp) -> (r: Result<ValueIter<Face>, Error>)
        ensures
            (match r {
                Ok(it) => spec_faces_from(
                    *bsp,
                    self.face_index_id as int,
                    self.face_index_len as nat,
                ) == Ok::<Seq<Face>, Error>(it.remaining()),
                Err(e) => spec_faces_from(
                    *bsp,
                    self.face_index_id as int,
                    self.face_index_len as nat,
                ) == Err::<Seq<Face>, Error>(e),
            }),
    {
        let start = self.face_index_id as usize;
        let n = self.face_index_len as usize;
        let mut acc: Vec<Face> = Vec::new();
        let mut k: usize = 0;
        while k < n
            invariant
                k <= n,
                start == self.face_index_id as usize,
                n == self.face_index_len as usize,
                acc@.len() == k,
                (match spec_faces_from(*bsp, start + k, (n - k) as nat) {
                    Ok(rest) => spec_faces_from(*bsp, start as int, n as nat) == Ok::<
                        Seq<Face>,
                        Error,
                    >(acc@ + rest),
                    Err(e) => spec_faces_from(*bsp, start as int, n as nat) == Err::<
                        Seq<Face>,
                        Error,
                    >(e),
                }),
            decreases n - k,
        {
            let fr = match bsp.lface(start + k) {
                Ok(fr) => fr,
                Err(e) => {
                    return Err(e);
                },
            };
            let f = match bsp.face(fr.0 as usize) {
                Ok(f) => f,
                Err(e) => {
                    return Err(e);
                },
            };
            let ghost pre = acc@;
            acc.push(f);
            k = k + 1;
            proof {
                match spec_faces_from(*bsp, start + k, (n - k) as nat) {
                    Ok(rest) => {
                        assert(pre + (seq![f] + rest) =~= acc@ + rest);
                    },
                    Err(e) => {},
                }
            }
        }
        proof {
            assert(acc@ + Seq::<Face>::empty() =~= acc@);
        }
        Ok(ValueIter::new(acc))
    }
}

impl Face {
    /// Decodes this face's edges through the edge-indirection lump.
    pub fn edges(&self, bsp: &Bsp) -> (r: Result<ValueIter<Edge>, Error>)
        ensures
            (match r {
                Ok(it) => spec_edges_from(*bsp, self.ledge_id as int, self.ledge_len as nat)
                    == Ok::<Seq<Edge>, Error>(it.remaining()),
                Err(e) => spec_edges_from(*bsp, self.ledge_id as int, self.ledge_len as nat)
                    == Err::<Seq<Edge>, Error>(e),
            }),
    {
        let start = self.ledge_id as usize;
        let n = self.ledge_len as usize;
        let mut acc: Vec<Edge> = Vec::new();
        let mut k: usize = 0;
        while k < n
            invariant
                k <= n,
                start == self.ledge_id as usize,
                n == self.ledge_len as usize,
                acc@.len() == k,
                (match spec_edges_from(*bsp, start + k, (n - k) as nat) {
                    Ok(rest) => spec_edges_from(*bsp, start as int, n as nat) == Ok::<
                        Seq<Edge>,
                        Error,
                    >(acc@ + rest),
                    Err(e) => spec_edges_from(*bsp, start as int, n as nat) == Err::<
                        Seq<Edge>,
                        Error,
                    >(e),
                }),
            decreases n - k,
        {
            if start > usize::MAX - k {
                // The reference index exceeds any possible record count.
                proof {
                    assert(bsp.spec_ledge_at(start + k) == Err::<crate::records::EdgeRef, Error>(
                        Error::IndexOutOfRange,
                    ));
                }
                return Err(Error::IndexOutOfRange);
            }
            let er = match bsp.ledge(start + k) {
                Ok(er) => er,
                Err(e) => {
                    return Err(e);
                },
            };
            let ed = if er.0 < 0 {
                return Err(Error::IndexOutOfRange);
            } else {
                match bsp.edge(er.0 as usize) {
                    Ok(ed) => ed,
                    Err(e) => {
                        return Err(e);
                    },
                }
            };
            let ghost pre = acc@;
            acc.push(ed);
            k = k + 1;
            proof {
                match spec_edges_from(*bsp, start + k, (n - k) as nat) {
                    Ok(rest) => {
                        assert(pre + (seq![ed] + rest) =~= acc@ + rest);
                    },
                    Err(e) => {},
                }
            }
        }
        proof {
            assert(acc@ + Seq::<Edge>::empty() =~= acc@);
        }
        Ok(ValueIter::new(acc))
    }

    /// The effective splitting plane of this face: the referenced plane,
    /// with `normal` and `distance` both negated when the side flag is
    /// nonzero, so the half-space matches the face's winding.
    pub fn plane(&self, bsp: &Bsp) -> (r: Result<Plane, Error>)
        ensures
            r == (match bsp.spec_plane_at(self.plane_id as int) {
                Err(e) => Err::<Plane, Error>(e),
                Ok(p) => Ok::<Plane, Error>(
                    if self.side == 0 {
                        p
                    } else {
                        Plane {
                            normal: Vec3 {
                                x: spec_single_neg(p.normal.x),
                                y: spec_single_neg(p.normal.y),
                                z: spec_single_neg(p.normal.z),
                            },
                            distance: spec_single_neg(p.distance),
                            plane_type: p.plane_type,
                        }
                    },
                ),
            }),
    {
        let p = match bsp.plane(self.plane_id as usize) {
            Ok(p) => p,
            Err(e) => {
                return Err(e);
            },
        };
        if self.side == 0 {
            Ok(p)
        } else {
            Ok(
                Plane {
                    normal: Vec3 {
                        x: crate::fp::single_neg(p.normal.x),
                        y: crate::fp::single_neg(p.normal.y),
                        z: crate::fp::single_neg(p.normal.z),
                    },
                    distance: crate::fp::single_neg(p.distance),
                    plane_type: p.plane_type,
                },
            )
        }
    }
}

} // verus!
