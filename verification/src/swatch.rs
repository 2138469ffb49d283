use vstd::prelude::*;

use crate::color::Rgb;

verus! {

/// The overlay glyph a swatch may display.
#[derive(Clone, Copy, PartialEq, Eq, Structural, Debug)]
pub enum Glyph {
    /// No overlay: an ordinary palette entry that is not selected.
    Empty,
    /// The "add a color" cross, carried only by the distinguished add swatch.
    Plus,
    /// The check mark on the currently selected swatch.
    Check,
}

/// One entry of the palette: a color, an overlay glyph, and a stable
/// identity. The identity keeps two swatches of the same color
/// distinguishable, so selection and removal act on the swatch that was
/// clicked, never on an equal-looking neighbour.
#[derive(Clone, Copy, PartialEq, Eq, Structural, Debug)]
pub struct Swatch {
    pub id: u64,
    pub color: Rgb,
    pub symbol: Glyph,
}

/// No two swatches of the sequence share an identity.
pub open spec fn ids_unique(s: Seq<Swatch>) -> bool {
    forall|i: int, j: int| 0 <= i < j < s.len() ==> s[i].id != s[j].id
}

/// Some swatch of the sequence has the identity `id`.
pub open spec fn has_id(s: Seq<Swatch>, id: u64) -> bool {
    exists|i: int| 0 <= i < s.len() && s[i].id == id
}

/// An index at which `id` occurs; under `ids_unique` it is the only one.
pub open spec fn index_of_id(s: Seq<Swatch>, id: u64) -> int {
    choose|i: int| 0 <= i < s.len() && s[i].id == id
}

/// The swatch of the sequence that carries the identity `id`.
pub open spec fn swatch_with_id(s: Seq<Swatch>, id: u64) -> Swatch {
    s[index_of_id(s, id)]
}

/// In a sequence of pairwise distinct identities, the index of an identity
/// is the one place where it occurs.
pub proof fn lemma_index_of_id(s: Seq<Swatch>, id: u64, i: int)
    requires
        ids_unique(s),
        0 <= i < s.len(),
        s[i].id == id,
    ensures
        has_id(s, id),
        index_of_id(s, id) == i,
{
    assert(has_id(s, id));
    let j = index_of_id(s, id);
    assert(0 <= j < s.len() && s[j].id == id);
    if i < j {
        assert(s[i].id != s[j].id);
    } else if j < i {
        assert(s[j].id != s[i].id);
    }
}

/// The position of the first swatch whose identity is `id`.
pub fn position_of(swatches: &Vec<Swatch>, id: u64) -> (idx: usize)
    requires
        has_id(swatches@, id),
    ensures
        idx < swatches@.len(),
        swatches@[idx as int].id == id,
        forall|j: int| 0 <= j < idx ==> swatches@[j].id != id,
{
    let mut i: usize = 0;
    while i < swatches.len()
        invariant
            i <= swatches@.len(),
            has_id(swatches@, id),
            forall|j: int| 0 <= j < i ==> swatches@[j].id != id,
        decreases swatches@.len() - i,
    {
        if swatches[i].id == id {
            return i;
        }
        i = i + 1;
    }
    proof {
        let j = choose|j: int| 0 <= j < swatches@.len() && swatches@[j].id == id;
        assert(false);
    }
    0
}

} // verus!
