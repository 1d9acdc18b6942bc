//! The potential-visibility decoder.
//!
//! A leaf's `vis_index` either points into the vislist lump, where a
//! run-length-encoded bitstream describes which leaves it can see, or is
//! negative — the sentinel meaning "this leaf sees every leaf".
//!
//! The decoder is a forward-only state machine with a byte cursor, a leaf
//! counter starting at 1, and an optional bit cursor. A zero byte is
//! followed by a skip count `k`, standing for `8 * k` leaves that are not
//! visible; a nonzero byte is consumed over eight bit slots (least
//! significant first, after an initial offset of one bit), each slot
//! advancing the leaf counter by one and emitting the leaf when its bit
//! is set. Emitted indices are resolved like the tree navigator resolves
//! leaves: an index outside the leaf array or one that reaches an
//! `Invalid` leaf is skipped, never emitted. A cursor that runs past the
//! vislist surfaces [`Error::VisDecodeOverrun`]; decoding stops once the
//! leaf counter exceeds the leaf count.
//!
//! [`spec_vis_rest`] states, from any machine state, the exact sequence
//! of leaf indices still to be emitted — or the error the stream runs
//! into.

use vstd::prelude::*;

use crate::bsp::Bsp;
use crate::error::Error;
use crate::records::{Leaf, LeafType};

verus! {

/// `x`, floored at zero; measures for the decoder's termination.
pub open spec fn clip0(x: int) -> int {
    if x < 0 {
        0
    } else {
        x
    }
}

/// Ordering phase of the bit cursor: picking a byte apart comes after
/// starting it.
pub open spec fn bit_phase(bit: Option<u8>) -> int {
    if bit is Some {
        0
    } else {
        1
    }
}

/// How the visibility decoder resolves leaf index `i`: an index outside
/// the leaf array or one whose leaf is `Invalid` resolves to no leaf; a
/// leaf whose raw type is unknown is an error.
pub open spec fn spec_resolve_vis(bsp: Bsp, i: int) -> Result<Option<Leaf>, Error> {
    if 0 <= i < bsp.spec_leaf_count() {
        bsp.spec_leaf_at(i)
    } else {
        Ok(None)
    }
}

/// Resolves leaf index `i` for the visibility decoder.
fn resolve_vis(bsp: &Bsp, i: usize) -> (r: Result<Option<Leaf>, Error>)
    ensures
        r == spec_resolve_vis(*bsp, i as int),
        r matches Ok(Some(l)) ==> l.leaf_type != LeafType::Invalid,
{
    if i >= bsp.leaf_count() {
        Ok(None)
    } else {
        bsp.leaf(i)
    }
}

/// The exact sequence of leaf indices the decoder still emits from the
/// state `(all, bi, c, bit)` — sentinel mode, byte cursor, leaf counter,
/// bit cursor — or the error the stream runs into first.
pub open spec fn spec_vis_rest(bsp: Bsp, all: bool, bi: int, c: int, bit: Option<u8>) -> Result<
    Seq<int>,
    Error,
>
    decreases
            clip0(bsp.spec_leaf_count() + 1 - c),
            clip0(bsp.spec_vis_len() + 2 - bi),
            bit_phase(bit),
{
    let n = bsp.spec_leaf_count();
    let vl = bsp.spec_vis_len();
    if c > n {
        Ok(Seq::empty())
    } else if all {
        match spec_resolve_vis(bsp, c) {
            Err(e) => Err(e),
            Ok(None) => spec_vis_rest(bsp, all, bi, c + 1, bit),
            Ok(Some(_)) => match spec_vis_rest(bsp, all, bi, c + 1, bit) {
                Err(e) => Err(e),
                Ok(s) => Ok(seq![c] + s),
            },
        }
    } else {
        match bit {
            Some(b) => {
                if !(0 <= bi < vl) {
                    Err(Error::VisDecodeOverrun)
                } else if b >= 8 {
                    spec_vis_rest(bsp, all, bi + 1, c, None)
                } else {
                    let visible = b < 7 && (bsp.spec_vis_byte(bi) >> ((b + 1) as u8)) & 1 == 1;
                    if !visible {
                        spec_vis_rest(bsp, all, bi, c + 1, Some((b + 1) as u8))
                    } else {
                        match spec_resolve_vis(bsp, c) {
                            Err(e) => Err(e),
                            Ok(None) => spec_vis_rest(bsp, all, bi, c + 1, Some((b + 1) as u8)),
                            Ok(Some(_)) => match spec_vis_rest(
                                bsp,
                                all,
                                bi,
                                c + 1,
                                Some((b + 1) as u8),
                            ) {
                                Err(e) => Err(e),
                                Ok(s) => Ok(seq![c] + s),
                            },
                        }
                    }
                }
            },
            None => {
                if !(0 <= bi < vl) {
                    Err(Error::VisDecodeOverrun)
                } else if bsp.spec_vis_byte(bi) == 0 {
                    if bi + 1 >= vl {
                        Err(Error::VisDecodeOverrun)
                    } else {
                        spec_vis_rest(
                            bsp,
                            all,
                            bi + 2,
                            c + 8 * (bsp.spec_vis_byte(bi + 1) as int),
                            None,
                        )
                    }
                } else {
                    spec_vis_rest(bsp, all, bi, c, Some(0))
                }
            },
        }
    }
}

/// Leaf index `i` resolves to a real leaf for the visibility decoder.
pub open spec fn spec_vis_resolvable(bsp: Bsp, i: int) -> bool {
    spec_resolve_vis(bsp, i) matches Ok(Some(_))
}

/// Law: from any state, the decoder emits indices no smaller than the
/// leaf counter, in strictly ascending order.
pub proof fn lemma_vis_rest_ascending(
    bsp: Bsp,
    all: bool,
    bi: int,
    c: int,
    bit: Option<u8>,
    s: Seq<int>,
)
    requires
        spec_vis_rest(bsp, all, bi, c, bit) == Ok::<Seq<int>, Error>(s),
    ensures
        forall|j: int| 0 <= j < s.len() ==> #[trigger] s[j] >= c,
        forall|j1: int, j2: int| #![trigger s[j1], s[j2]] 0 <= j1 < j2 < s.len() ==> s[j1] < s[j2],
    decreases
            clip0(bsp.spec_leaf_count() + 1 - c),
            clip0(bsp.spec_vis_len() + 2 - bi),
            bit_phase(bit),
{
    let n = bsp.spec_leaf_count();
    let vl = bsp.spec_vis_len();
    if c > n {
        // Nothing is emitted.
    } else if all {
        match spec_resolve_vis(bsp, c) {
            Err(_) => {},
            Ok(None) => {
                lemma_vis_rest_ascending(bsp, all, bi, c + 1, bit, s);
            },
            Ok(Some(_)) => {
                match spec_vis_rest(bsp, all, bi, c + 1, bit) {
                    Ok(s1) => {
                        lemma_vis_rest_ascending(bsp, all, bi, c + 1, bit, s1);
                        lemma_cons_ascending(c, s1, s);
                    },
                    Err(_) => {},
                }
            },
        }
    } else {
        match bit {
            Some(b) => {
                if !(0 <= bi < vl) {
                } else if b >= 8 {
                    lemma_vis_rest_ascending(bsp, all, bi + 1, c, None, s);
                } else {
                    let visible = b < 7 && (bsp.spec_vis_byte(bi) >> ((b + 1) as u8)) & 1 == 1;
                    if !visible {
                        lemma_vis_rest_ascending(bsp, all, bi, c + 1, Some((b + 1) as u8), s);
                    } else {
                        match spec_resolve_vis(bsp, c) {
                            Err(_) => {},
                            Ok(None) => {
                                lemma_vis_rest_ascending(bsp, all, bi, c + 1, Some((b + 1) as u8), s);
                            },
                            Ok(Some(_)) => {
                                match spec_vis_rest(bsp, all, bi, c + 1, Some((b + 1) as u8)) {
                                    Ok(s1) => {
                                        lemma_vis_rest_ascending(
                                            bsp,
                                            all,
                                            bi,
                                            c + 1,
                                            Some((b + 1) as u8),
                                            s1,
                                        );
                                        lemma_cons_ascending(c, s1, s);
                                    },
                                    Err(_) => {},
                                }
                            },
                        }
                    }
                }
            },
            None => {
                if !(0 <= bi < vl) {
                } else if bsp.spec_vis_byte(bi) == 0 {
                    if bi + 1 >= vl {
                    } else {
                        lemma_vis_rest_ascending(
                            bsp,
                            all,
                            bi + 2,
                            c + 8 * (bsp.spec_vis_byte(bi + 1) as int),
                            None,
                            s,
                        );
                    }
                } else {
                    lemma_vis_rest_ascending(bsp, all, bi, c, Some(0), s);
                }
            },
        }
    }
}

/// Prepending `c` to a strictly ascending sequence whose members all
/// exceed `c` keeps it strictly ascending with every member at least `c`.
proof fn lemma_cons_ascending(c: int, s1: Seq<int>, s: Seq<int>)
    requires
        s == seq![c] + s1,
        forall|j: int| 0 <= j < s1.len() ==> #[trigger] s1[j] >= c + 1,
        forall|j1: int, j2: int| #![trigger s1[j1], s1[j2]] 0 <= j1 < j2 < s1.len() ==> s1[j1]
            < s1[j2],
    ensures
        forall|j: int| 0 <= j < s.len() ==> #[trigger] s[j] >= c,
        forall|j1: int, j2: int| #![trigger s[j1], s[j2]] 0 <= j1 < j2 < s.len() ==> s[j1] < s[j2],
{
    assert forall|j: int| 0 <= j < s.len() implies #[trigger] s[j] >= c by {
        if j == 0 {
            assert(s[0] == c);
        } else {
            assert(s[j] == s1[j - 1]);
        }
    }
    assert forall|j1: int, j2: int| #![trigger s[j1], s[j2]] 0 <= j1 < j2 < s.len() implies s[j1]
        < s[j2] by {
        if j1 == 0 {
            assert(s[j2] == s1[j2 - 1]);
        } else {
            assert(s[j1] == s1[j1 - 1]);
            assert(s[j2] == s1[j2 - 1]);
        }
    }
}

/// Law: a zero byte with skip count `k` hides the next `8 * k` leaf
/// slots — from such a state every index still emitted is at least the
/// counter advanced by `8 * k`.
pub proof fn lemma_skip_run_hides_leaves(bsp: Bsp, bi: int, c: int, s: Seq<int>)
    requires
        0 <= bi,
        bi + 1 < bsp.spec_vis_len(),
        bsp.spec_vis_byte(bi) == 0,
        spec_vis_rest(bsp, false, bi, c, None) == Ok::<Seq<int>, Error>(s),
    ensures
        forall|j: int| 0 <= j < s.len() ==> #[trigger] s[j] >= c + 8 * (bsp.spec_vis_byte(bi + 1) as int),
{
    let n = bsp.spec_leaf_count();
    if c > n {
        // Nothing is emitted at all.
    } else {
        lemma_vis_rest_ascending(
            bsp,
            false,
            bi + 2,
            c + 8 * (bsp.spec_vis_byte(bi + 1) as int),
            None,
            s,
        );
    }
}

/// Law: in sentinel mode the decoder emits exactly the resolvable leaf
/// indices from the counter through the leaf count — every index that
/// resolves to a real leaf, and no other. With
/// [`lemma_vis_rest_ascending`], they come in ascending order.
pub proof fn lemma_sentinel_emits_all_resolvable(
    bsp: Bsp,
    bi: int,
    c: int,
    bit: Option<u8>,
    s: Seq<int>,
)
    requires
        spec_vis_rest(bsp, true, bi, c, bit) == Ok::<Seq<int>, Error>(s),
    ensures
        forall|i: int| #[trigger] s.contains(i) <==> (c <= i <= bsp.spec_leaf_count()
            && spec_vis_resolvable(bsp, i)),
    decreases clip0(bsp.spec_leaf_count() + 1 - c),
{
    let n = bsp.spec_leaf_count();
    if c > n {
        assert(forall|i: int| !s.contains(i));
    } else {
        match spec_resolve_vis(bsp, c) {
            Err(_) => {},
            Ok(None) => {
                lemma_sentinel_emits_all_resolvable(bsp, bi, c + 1, bit, s);
                assert(!spec_vis_resolvable(bsp, c));
            },
            Ok(Some(_)) => {
                match spec_vis_rest(bsp, true, bi, c + 1, bit) {
                    Ok(s1) => {
                        lemma_sentinel_emits_all_resolvable(bsp, bi, c + 1, bit, s1);
                        assert(s == seq![c] + s1);
                        assert forall|i: int| #[trigger] s.contains(i) implies (c <= i <= n
                            && spec_vis_resolvable(bsp, i)) by {
                            let j = choose|j: int| 0 <= j < s.len() && s[j] == i;
                            if j == 0 {
                                assert(i == c);
                            } else {
                                assert(s1[j - 1] == i);
                                assert(s1.contains(i));
                            }
                        }
                        assert forall|i: int| (c <= i <= n && spec_vis_resolvable(bsp, i)) implies #[trigger] s.contains(
                            i,
                        ) by {
                            if i == c {
                                assert(s[0] == c);
                            } else {
                                assert(s1.contains(i));
                                let j = choose|j: int| 0 <= j < s1.len() && s1[j] == i;
                                assert(s[j + 1] == i);
                            }
                        }
                    },
                    Err(_) => {},
                }
            },
        }
    }
}

/// The visibility decoder's state: a single-pass, forward-only walk over
/// one leaf's visibility data.
pub struct VisibilityIterator {
    /// Sentinel mode: the leaf sees every leaf in the map.
    pub all: bool,
    /// Byte cursor, relative to the start of the vislist lump.
    pub byte_index: usize,
    /// The next leaf index to consider; leaf counting starts at 1.
    pub counter: usize,
    /// Bit slot inside the current nonzero byte, when mid-byte.
    pub bit: Option<u8>,
}

impl Leaf {
    /// Starts decoding this leaf's potential-visibility set. A negative
    /// `vis_index` is the sentinel: every leaf is visible.
    pub fn visible_leaves(&self) -> (it: VisibilityIterator)
        ensures
            it.all == (self.vis_index < 0),
            it.byte_index as int == (if self.vis_index >= 0 {
                self.vis_index as int
            } else {
                0
            }),
            it.counter == 1,
            it.bit is None,
    {
        if self.vis_index < 0 {
            VisibilityIterator { all: true, byte_index: 0, counter: 1, bit: None }
        } else {
            VisibilityIterator {
                all: false,
                byte_index: self.vis_index as usize,
                counter: 1,
                bit: None,
            }
        }
    }
}

impl VisibilityIterator {
    /// What this iterator still emits, per [`spec_vis_rest`].
    pub open spec fn spec_rest(self, bsp: Bsp) -> Result<Seq<int>, Error> {
        spec_vis_rest(bsp, self.all, self.byte_index as int, self.counter as int, self.bit)
    }

    /// The next visible leaf, with its index, decoded lazily against
    /// `bsp`; `Ok(None)` once the leaf counter has passed the leaf
    /// count. On `Ok(None)` and on errors the state is left unchanged,
    /// so the outcome repeats.
    pub fn next(&mut self, bsp: &Bsp) -> (r: Result<Option<(usize, Leaf)>, Error>)
        ensures
            (match r {
                Err(e) => old(self).spec_rest(*bsp) == Err::<Seq<int>, Error>(e) && *final(self)
                    == *old(self),
                Ok(None) => old(self).spec_rest(*bsp) == Ok::<Seq<int>, Error>(Seq::empty())
                    && *final(self) == *old(self),
                Ok(Some((idx, l))) => {
                    &&& spec_resolve_vis(*bsp, idx as int) == Ok::<Option<Leaf>, Error>(Some(l))
                    &&& (final(self).spec_rest(*bsp) matches Ok(s1) ==> old(self).spec_rest(*bsp)
                        == Ok::<Seq<int>, Error>(seq![idx as int] + s1))
                    &&& (final(self).spec_rest(*bsp) matches Err(e) ==> old(self).spec_rest(*bsp)
                        == Err::<Seq<int>, Error>(e))
                    &&& l.leaf_type != LeafType::Invalid
                },
            }),
    {
        let n = bsp.leaf_count();
        let all = self.all;
        let mut bi = self.byte_index;
        let mut c = self.counter;
        let mut bit = self.bit;
        loop
            invariant
                *self == *old(self),
                all == old(self).all,
                n == bsp.spec_leaf_count(),
                n <= 0x7fff_ffff,
                spec_vis_rest(*bsp, all, bi as int, c as int, bit) == old(self).spec_rest(*bsp),
            decreases
                    clip0(n + 1 - c),
                    clip0(bsp.spec_vis_len() + 2 - bi),
                    bit_phase(bit),
        {
            if c > n {
                return Ok(None);
            }
            if all {
                match resolve_vis(bsp, c) {
                    Err(e) => {
                        return Err(e);
                    },
                    Ok(None) => {
                        c = c + 1;
                    },
                    Ok(Some(l)) => {
                        let idx = c;
                        self.byte_index = bi;
                        self.counter = c + 1;
                        self.bit = bit;
                        return Ok(Some((idx, l)));
                    },
                }
            } else {
                match bit {
                    Some(b) => {
                        let byte = match bsp.vis_byte(bi) {
                            Some(x) => x,
                            None => {
                                return Err(Error::VisDecodeOverrun);
                            },
                        };
                        if b >= 8 {
                            bi = bi + 1;
                            bit = None;
                        } else {
                            let visible = b < 7 && (byte >> (b + 1)) & 1 == 1;
                            if !visible {
                                c = c + 1;
                                bit = Some(b + 1);
                            } else {
                                match resolve_vis(bsp, c) {
                                    Err(e) => {
                                        return Err(e);
                                    },
                                    Ok(None) => {
                                        c = c + 1;
                                        bit = Some(b + 1);
                                    },
                                    Ok(Some(l)) => {
                                        let idx = c;
                                        self.byte_index = bi;
                                        self.counter = c + 1;
                                        self.bit = Some(b + 1);
                                        return Ok(Some((idx, l)));
                                    },
                                }
                            }
                        }
                    },
                    None => {
                        let byte = match bsp.vis_byte(bi) {
                            Some(x) => x,
                            None => {
                                return Err(Error::VisDecodeOverrun);
                            },
                        };
                        if byte == 0 {
                            let k = match bsp.vis_byte(bi + 1) {
                                Some(x) => x,
                                None => {
                                    return Err(Error::VisDecodeOverrun);
                                },
                            };
                            c = c + 8 * (k as usize);
                            bi = bi + 2;
                        } else {
                            bit = Some(0);
                        }
                    },
                }
            }
        }
    }
}

} // verus!
