use vstd::prelude::*;

use crate::button::KeyboardColorButton;
use crate::color::Rgb;
use crate::swatch::{has_id, index_of_id, lemma_index_of_id, swatch_with_id, Glyph, Swatch};

verus! {

/// Law: a well-formed control never has an empty palette, and the Remove
/// action is offered exactly while more than one swatch remains — it is
/// hidden exactly when the palette is down to its last swatch.
pub proof fn lemma_palette_never_empty(c: KeyboardColorButton)
    requires
        c.wf(),
    ensures
        c.swatches@.len() >= 1,
        c.remove_visible <==> c.swatches@.len() > 1,
{
}

/// Law: the add swatch is never a member of the palette, and never carries
/// the check mark.
pub proof fn lemma_add_swatch_apart(c: KeyboardColorButton)
    requires
        c.wf(),
    ensures
        forall|i: int|
            0 <= i < c.swatches@.len() ==> #[trigger] c.swatches@[i].id != c.add_swatch.id,
        c.add_swatch.symbol != Glyph::Check,
{
}

/// Law: at most one swatch carries the check mark; while a swatch is
/// selected the mark stands on it and on it alone, and while nothing is
/// selected no swatch carries it.
pub proof fn lemma_one_check_mark(c: KeyboardColorButton)
    requires
        c.wf(),
    ensures
        forall|i: int, j: int|
            #![trigger c.swatches@[i], c.swatches@[j]]
            0 <= i < c.swatches@.len() && 0 <= j < c.swatches@.len() && c.swatches@[i].symbol
                == Glyph::Check && c.swatches@[j].symbol == Glyph::Check ==> i == j,
        match c.selected {
            Some(id) => has_id(c.swatches@, id) && swatch_with_id(c.swatches@, id).symbol
                == Glyph::Check && forall|i: int|
                #![trigger c.swatches@[i]]
                0 <= i < c.swatches@.len() && c.swatches@[i].symbol == Glyph::Check
                    ==> c.swatches@[i].id == id,
            None => forall|i: int|
                0 <= i < c.swatches@.len() ==> #[trigger] c.swatches@[i].symbol != Glyph::Check,
        },
{
    assert forall|i: int, j: int|
        0 <= i < c.swatches@.len() && 0 <= j < c.swatches@.len() && c.swatches@[i].symbol
            == Glyph::Check && c.swatches@[j].symbol == Glyph::Check implies i == j by {
        match c.selected {
            Some(id) => {
                assert(c.swatches@[i].id == id);
                assert(c.swatches@[j].id == id);
                if i < j {
                    assert(c.swatches@[i].id != c.swatches@[j].id);
                } else if j < i {
                    assert(c.swatches@[j].id != c.swatches@[i].id);
                }
            },
            None => {
                assert(c.swatches@[i].symbol == Glyph::Empty);
            },
        }
    }
    match c.selected {
        Some(id) => {
            let k = index_of_id(c.swatches@, id);
            assert(0 <= k < c.swatches@.len() && c.swatches@[k].id == id);
        },
        None => {},
    }
}

/// Law: clicking the swatch that is already selected is a no-op on the
/// collection and the selection — so also on the grid layout, a function
/// of the collection and the add swatch — while the swatch's color is
/// still returned for a fresh hardware push.
pub proof fn lemma_reselect_is_noop(
    pre: KeyboardColorButton,
    post: KeyboardColorButton,
    id: u64,
    pushed: Rgb,
)
    requires
        pre.wf(),
        pre.selected == Some(id),
        KeyboardColorButton::select_post(pre, post, id, pushed),
    ensures
        post.swatches@ == pre.swatches@,
        post.selected == pre.selected,
        post.add_swatch == pre.add_swatch,
        pushed == swatch_with_id(pre.swatches@, id).color,
        post.rgb == pushed,
{
    assert forall|i: int| 0 <= i < pre.swatches@.len() implies post.swatches@[i]
        == pre.swatches@[i] by {
        assert(pre.swatches@[i].symbol == (if pre.swatches@[i].id == id {
            Glyph::Check
        } else {
            Glyph::Empty
        }));
    }
    assert(post.swatches@ =~= pre.swatches@);
}

/// Law: selecting a swatch and then confirming an edit with `color` yields
/// a palette of exactly the same swatches in the same order, where the
/// edited swatch now reads back `color` and every other swatch keeps the
/// color it had before the selection.
pub proof fn lemma_select_edit_round_trip(
    s0: KeyboardColorButton,
    s1: KeyboardColorButton,
    s2: KeyboardColorButton,
    id: u64,
    color: Rgb,
    pushed: Rgb,
)
    requires
        s0.wf(),
        has_id(s0.swatches@, id),
        KeyboardColorButton::select_post(s0, s1, id, pushed),
        s1.wf(),
        KeyboardColorButton::edit_post(s1, s2, color),
    ensures
        s2.swatches@.len() == s0.swatches@.len(),
        forall|i: int|
            0 <= i < s0.swatches@.len() ==> #[trigger] s2.swatches@[i].id == s0.swatches@[i].id,
        has_id(s2.swatches@, id),
        swatch_with_id(s2.swatches@, id).color == color,
        forall|i: int|
            #![trigger s2.swatches@[i]]
            0 <= i < s0.swatches@.len() && s0.swatches@[i].id != id ==> s2.swatches@[i].color
                == s0.swatches@[i].color,
{
    let k = index_of_id(s0.swatches@, id);
    assert(0 <= k < s0.swatches@.len() && s0.swatches@[k].id == id);
    assert(s1.swatches@[k].id == id);
    lemma_index_of_id(s1.swatches@, id, k);
    assert(s2.swatches@ == s1.swatches@.update(k, (Swatch { color: color, ..s1.swatches@[k] })));
    assert(s2.swatches@[k].id == id && s2.swatches@[k].color == color);
    assert forall|a: int, b: int| 0 <= a < b < s2.swatches@.len() implies s2.swatches@[a].id != s2
        .swatches@[b].id by {
        assert(s2.swatches@[a].id == s0.swatches@[a].id);
        assert(s2.swatches@[b].id == s0.swatches@[b].id);
    }
    lemma_index_of_id(s2.swatches@, id, k);
}

} // verus!
