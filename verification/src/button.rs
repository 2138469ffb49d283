use vstd::prelude::*;

use crate::color::Rgb;
use crate::swatch::{
    has_id, ids_unique, index_of_id, lemma_index_of_id, position_of, swatch_with_id, Glyph, Swatch,
};

verus! {

/// The five colors the palette is seeded with: white, blue, red, yellow,
/// green, in display order.
pub open spec fn default_colors() -> Seq<Rgb> {
    seq![
        Rgb { r: 255, g: 255, b: 255 },
        Rgb { r: 0, g: 0, b: 255 },
        Rgb { r: 255, g: 0, b: 0 },
        Rgb { r: 255, g: 255, b: 0 },
        Rgb { r: 0, g: 255, b: 0 },
    ]
}

/// One cell of the rendered grid: which swatch it shows and where it sits.
#[derive(Clone, Copy, PartialEq, Eq, Structural, Debug)]
pub struct GridCell {
    pub swatch: Swatch,
    pub col: usize,
    pub row: usize,
}

/// The palette control: the ordered user swatches, the distinguished add
/// swatch, the current selection, the summary color the collapsed control
/// displays, and whether the Remove action is offered.
///
/// Every hardware push is returned to the caller as a color to apply, so
/// the state machine itself never performs a side effect: the surrounding
/// shell pushes the color to the board, best effort, after the state here
/// has already been committed.
pub struct KeyboardColorButton {
    pub swatches: Vec<Swatch>,
    pub add_swatch: Swatch,
    pub selected: Option<u64>,
    pub rgb: Rgb,
    pub remove_visible: bool,
    pub next_id: u64,
}

impl KeyboardColorButton {
    /// Well-formedness: the collection never empties, identities are
    /// pairwise distinct and fresh below `next_id`, the add swatch carries
    /// the cross and an identity no member shares, exactly the selected
    /// swatch carries the check mark, and Remove is offered exactly while
    /// more than one swatch remains.
    pub open spec fn wf(&self) -> bool {
        &&& 1 <= self.swatches@.len()
        &&& ids_unique(self.swatches@)
        &&& 1 <= self.next_id
        &&& forall|i: int|
            0 <= i < self.swatches@.len() ==> 1 <= #[trigger] self.swatches@[i].id
                < self.next_id
        &&& self.add_swatch.id == 0
        &&& self.add_swatch.symbol == Glyph::Plus
        &&& match self.selected {
            Some(id) => has_id(self.swatches@, id) && forall|i: int|
                0 <= i < self.swatches@.len() ==> #[trigger] self.swatches@[i].symbol == (
                if self.swatches@[i].id == id {
                    Glyph::Check
                } else {
                    Glyph::Empty
                }),
            None => forall|i: int|
                0 <= i < self.swatches@.len() ==> #[trigger] self.swatches@[i].symbol
                    == Glyph::Empty,
        }
        &&& self.remove_visible == (self.swatches@.len() > 1)
    }

    /// How a click on a member swatch changes the control: the clicked
    /// swatch becomes the one selected and the one checked, identities and
    /// colors stay as they were, the clicked color is pushed and becomes
    /// the summary color.
    pub open spec fn select_post(pre: Self, post: Self, id: u64, pushed: Rgb) -> bool {
        &&& post.swatches@.len() == pre.swatches@.len()
        &&& forall|i: int|
            0 <= i < pre.swatches@.len() ==> #[trigger] post.swatches@[i] == (Swatch {
                symbol: if pre.swatches@[i].id == id {
                    Glyph::Check
                } else {
                    Glyph::Empty
                },
                ..pre.swatches@[i]
            })
        &&& post.selected == Some(id)
        &&& pushed == swatch_with_id(pre.swatches@, id).color
        &&& post.rgb == pushed
        &&& post.add_swatch == pre.add_swatch
        &&& post.next_id == pre.next_id
        &&& post.remove_visible == pre.remove_visible
    }

    /// How appending a color changes the control: one new swatch at the
    /// end, unselected and with a fresh identity, everything before it
    /// untouched, and the Remove action offered.
    pub open spec fn add_post(pre: Self, post: Self, color: Rgb) -> bool {
        &&& post.swatches@.len() == pre.swatches@.len() + 1
        &&& forall|i: int|
            0 <= i < pre.swatches@.len() ==> #[trigger] post.swatches@[i] == pre.swatches@[i]
        &&& post.swatches@.last() == (Swatch {
            id: pre.next_id,
            color: color,
            symbol: Glyph::Empty,
        })
        &&& post.selected == pre.selected
        &&& post.rgb == pre.rgb
        &&& post.add_swatch == pre.add_swatch
        &&& post.next_id == pre.next_id + 1
        &&& post.remove_visible == true
    }

    /// How clicking Remove changes the control: the selected swatch leaves
    /// the collection, the swatch now standing at the clamped index
    /// (one less than the removed swatch's index, and no less than zero)
    /// becomes the selection and carries the check mark, the other swatches
    /// keep their identities, colors and order, nothing is pushed to
    /// hardware, and Remove stays offered exactly while more than one
    /// swatch remains.
    pub open spec fn remove_post(pre: Self, post: Self) -> bool {
        let idx = index_of_id(pre.swatches@, pre.selected->Some_0);
        let new_idx = if idx == 0 {
            0int
        } else {
            idx - 1
        };
        &&& post.swatches@.len() == pre.swatches@.len() - 1
        &&& forall|i: int|
            0 <= i < post.swatches@.len() ==> #[trigger] post.swatches@[i].id
                == pre.swatches@.remove(idx)[i].id && post.swatches@[i].color
                == pre.swatches@.remove(idx)[i].color
        &&& !has_id(post.swatches@, pre.selected->Some_0)
        &&& post.selected == Some(post.swatches@[new_idx].id)
        &&& post.rgb == pre.rgb
        &&& post.add_swatch == pre.add_swatch
        &&& post.next_id == pre.next_id
        &&& post.remove_visible == (post.swatches@.len() > 1)
    }

    /// How confirming the edit chooser with `color` changes the control:
    /// the selected swatch now shows that color and nothing else moves, not
    /// the selection, not the summary color, and no push happens on this
    /// path.
    pub open spec fn edit_post(pre: Self, post: Self, color: Rgb) -> bool {
        let idx = index_of_id(pre.swatches@, pre.selected->Some_0);
        &&& post.swatches@ == pre.swatches@.update(
            idx,
            (Swatch { color: color, ..pre.swatches@[idx] }),
        )
        &&& post.selected == pre.selected
        &&& post.rgb == pre.rgb
        &&& post.add_swatch == pre.add_swatch
        &&& post.next_id == pre.next_id
        &&& post.remove_visible == pre.remove_visible
    }

    /// A fresh control around a palette of the five default colors, nothing
    /// selected, the summary color seeded from the hardware color where it
    /// could be read and black where it could not.
    pub fn new(hardware_color: Option<Rgb>) -> (r: KeyboardColorButton)
        ensures
            r.wf(),
            r.swatches@.len() == default_colors().len(),
            forall|i: int|
                0 <= i < default_colors().len() ==> #[trigger] r.swatches@[i].color
                    == default_colors()[i] && r.swatches@[i].symbol == Glyph::Empty,
            r.selected is None,
            r.rgb == (match hardware_color {
                Some(c) => c,
                None => Rgb { r: 0, g: 0, b: 0 },
            }),
            r.remove_visible,
    {
        let mut swatches: Vec<Swatch> = Vec::new();
        swatches.push(Swatch { id: 1, color: Rgb::new(255, 255, 255), symbol: Glyph::Empty });
        swatches.push(Swatch { id: 2, color: Rgb::new(0, 0, 255), symbol: Glyph::Empty });
        swatches.push(Swatch { id: 3, color: Rgb::new(255, 0, 0), symbol: Glyph::Empty });
        swatches.push(Swatch { id: 4, color: Rgb::new(255, 255, 0), symbol: Glyph::Empty });
        swatches.push(Swatch { id: 5, color: Rgb::new(0, 255, 0), symbol: Glyph::Empty });
        let rgb = match hardware_color {
            Some(c) => c,
            None => Rgb::black(),
        };
        let r = KeyboardColorButton {
            swatches,
            add_swatch: Swatch { id: 0, color: Rgb::black(), symbol: Glyph::Plus },
            selected: None,
            rgb,
            remove_visible: true,
            next_id: 6,
        };
        proof {
            assert(r.swatches@.len() == 5);
            assert(r.swatches@[0].id == 1 && r.swatches@[0].color == default_colors()[0]);
            assert(r.swatches@[1].id == 2 && r.swatches@[1].color == default_colors()[1]);
            assert(r.swatches@[2].id == 3 && r.swatches@[2].color == default_colors()[2]);
            assert(r.swatches@[3].id == 4 && r.swatches@[3].color == default_colors()[3]);
            assert(r.swatches@[4].id == 5 && r.swatches@[4].color == default_colors()[4]);
        }
        r
    }

    /// Append a new swatch showing `color`, with no overlay glyph and a
    /// fresh identity. The selection does not move. Once a swatch has been
    /// added the palette holds at least two, so the Remove action is
    /// offered.
    pub fn add_color(&mut self, color: Rgb)
        requires
            old(self).wf(),
            old(self).next_id < u64::MAX,
        ensures
            final(self).wf(),
            Self::add_post(*old(self), *final(self), color),
            !has_id(old(self).swatches@, final(self).swatches@.last().id),
    {
        let s = Swatch { id: self.next_id, color, symbol: Glyph::Empty };
        self.swatches.push(s);
        self.next_id = self.next_id + 1;
        self.remove_visible = true;
        proof {
            let pre = *old(self);
            let post = *self;
            let m = post.swatches@.len() - 1;
            assert(post.swatches@[m].id == pre.next_id);
            assert forall|a: int, b: int| 0 <= a < b < post.swatches@.len() implies post
                .swatches@[a].id != post.swatches@[b].id by {
                assert(post.swatches@[a] == pre.swatches@[a]);
                if b < m {
                    assert(post.swatches@[b] == pre.swatches@[b]);
                }
            }
            match pre.selected {
                Some(sel) => {
                    let k = choose|k: int|
                        0 <= k < pre.swatches@.len() && pre.swatches@[k].id == sel;
                    assert(post.swatches@[k] == pre.swatches@[k]);
                    assert(has_id(post.swatches@, sel));
                    assert(sel < pre.next_id);
                },
                None => {},
            }
        }
    }

    /// A member swatch was clicked: it becomes the selection, it alone
    /// carries the check mark, its color is the summary color, and the
    /// returned color is pushed to the hardware.
    ///
    /// Clicking the already-selected swatch leaves the collection exactly
    /// as it was, yet still returns its color, so the shell re-pushes it.
    pub fn circle_clicked(&mut self, id: u64) -> (pushed: Rgb)
        requires
            old(self).wf(),
            has_id(old(self).swatches@, id),
        ensures
            final(self).wf(),
            Self::select_post(*old(self), *final(self), id, pushed),
    {
        let idx = position_of(&self.swatches, id);
        proof {
            lemma_index_of_id(self.swatches@, id, idx as int);
        }
        let color = self.swatches[idx].color;
        let n = self.swatches.len();
        let mut i: usize = 0;
        while i < n
            invariant
                i <= n,
                n == self.swatches@.len(),
                self.swatches@.len() == old(self).swatches@.len(),
                forall|j: int|
                    0 <= j < i ==> #[trigger] self.swatches@[j] == (Swatch {
                        symbol: if old(self).swatches@[j].id == id {
                            Glyph::Check
                        } else {
                            Glyph::Empty
                        },
                        ..old(self).swatches@[j]
                    }),
                forall|j: int|
                    i <= j < n ==> #[trigger] self.swatches@[j] == old(self).swatches@[j],
                self.selected == old(self).selected,
                self.rgb == old(self).rgb,
                self.add_swatch == old(self).add_swatch,
                self.next_id == old(self).next_id,
                self.remove_visible == old(self).remove_visible,
            decreases n - i,
        {
            let s = self.swatches[i];
            if s.id == id {
                self.swatches[i] = Swatch { symbol: Glyph::Check, ..s };
            } else {
                self.swatches[i] = Swatch { symbol: Glyph::Empty, ..s };
            }
            i = i + 1;
        }
        self.selected = Some(id);
        self.rgb = color;
        proof {
            assert(self.swatches@[idx as int].id == id);
            assert forall|a: int, b: int| 0 <= a < b < self.swatches@.len() implies self
                .swatches@[a].id != self.swatches@[b].id by {
                assert(self.swatches@[a].id == old(self).swatches@[a].id);
                assert(self.swatches@[b].id == old(self).swatches@[b].id);
            }
        }
        color
    }

    /// Remove was clicked while a swatch was selected. The shell offers
    /// Remove only while more than one swatch remains, so the collection
    /// never empties and the clamped re-selection index is always in
    /// bounds.
    pub fn remove_clicked(&mut self)
        requires
            old(self).wf(),
            old(self).selected is Some,
            old(self).swatches@.len() >= 2,
        ensures
            final(self).wf(),
            Self::remove_post(*old(self), *final(self)),
    {
        let id = self.selected.unwrap();
        let idx = position_of(&self.swatches, id);
        proof {
            lemma_index_of_id(self.swatches@, id, idx as int);
            old(self).swatches@.remove_ensures(idx as int);
        }
        self.swatches.remove(idx);
        let new_idx = if idx == 0 {
            0
        } else {
            idx - 1
        };
        let s = self.swatches[new_idx];
        self.swatches[new_idx] = Swatch { symbol: Glyph::Check, ..s };
        self.selected = Some(s.id);
        self.remove_visible = self.swatches.len() > 1;
        proof {
            let pre = *old(self);
            let post = *self;
            let rem = pre.swatches@.remove(idx as int);
            assert forall|i: int| 0 <= i < post.swatches@.len() implies #[trigger] post
                .swatches@[i].id == rem[i].id && post.swatches@[i].color == rem[i].color by {
                if i != new_idx {
                    assert(post.swatches@[i] == rem[i]);
                }
            }
            assert forall|a: int, b: int| 0 <= a < b < post.swatches@.len() implies post
                .swatches@[a].id != post.swatches@[b].id by {
                let oa = if a < idx {
                    a
                } else {
                    a + 1
                };
                let ob = if b < idx {
                    b
                } else {
                    b + 1
                };
                assert(post.swatches@[a].id == pre.swatches@[oa].id);
                assert(post.swatches@[b].id == pre.swatches@[ob].id);
            }
            assert forall|i: int| 0 <= i < post.swatches@.len() implies #[trigger] post
                .swatches@[i].symbol == (if post.swatches@[i].id == post.selected->Some_0 {
                Glyph::Check
            } else {
                Glyph::Empty
            }) by {
                let oi = if i < idx {
                    i
                } else {
                    i + 1
                };
                assert(rem[i] == pre.swatches@[oi]);
                assert(pre.swatches@[oi].id != id);
                if i != new_idx {
                    assert(post.swatches@[i] == rem[i]);
                    assert(post.swatches@[i].id != post.swatches@[new_idx as int].id);
                }
            }
            assert(has_id(post.swatches@, post.selected->Some_0)) by {
                assert(post.swatches@[new_idx as int].id == post.selected->Some_0);
            }
        }
    }

    /// The edit chooser, opened for the selected swatch, was confirmed with
    /// `color`: the selected swatch takes that color in place.
    pub fn edit_confirmed(&mut self, color: Rgb)
        requires
            old(self).wf(),
            old(self).selected is Some,
        ensures
            final(self).wf(),
            Self::edit_post(*old(self), *final(self), color),
    {
        let id = self.selected.unwrap();
        let idx = position_of(&self.swatches, id);
        proof {
            lemma_index_of_id(self.swatches@, id, idx as int);
        }
        let s = self.swatches[idx];
        self.swatches[idx] = Swatch { color, ..s };
        proof {
            let pre = *old(self);
            let post = *self;
            assert forall|a: int, b: int| 0 <= a < b < post.swatches@.len() implies post
                .swatches@[a].id != post.swatches@[b].id by {
                assert(post.swatches@[a].id == pre.swatches@[a].id);
                assert(post.swatches@[b].id == pre.swatches@[b].id);
            }
            assert(has_id(post.swatches@, id)) by {
                assert(post.swatches@[idx as int].id == id);
            }
        }
    }

    /// The edit chooser, opened for the selected swatch, was cancelled: the
    /// selected swatch's color is returned so the shell re-asserts it on
    /// the hardware. Nothing changes in the control itself.
    pub fn edit_cancelled(&self) -> (push: Rgb)
        requires
            self.wf(),
            self.selected is Some,
        ensures
            push == swatch_with_id(self.swatches@, self.selected->Some_0).color,
    {
        let id = self.selected.unwrap();
        let idx = position_of(&self.swatches, id);
        proof {
            lemma_index_of_id(self.swatches@, id, idx as int);
        }
        self.swatches[idx].color
    }

    /// The add chooser was cancelled. If a swatch is selected its color is
    /// returned, and the shell re-asserts it on the hardware even though
    /// nothing was added; with no selection there is nothing to push.
    pub fn add_cancelled(&self) -> (push: Option<Rgb>)
        requires
            self.wf(),
        ensures
            match self.selected {
                Some(id) => push == Some(swatch_with_id(self.swatches@, id).color),
                None => push is None,
            },
    {
        match self.selected {
            Some(id) => {
                let idx = position_of(&self.swatches, id);
                proof {
                    lemma_index_of_id(self.swatches@, id, idx as int);
                }
                Some(self.swatches[idx].color)
            },
            None => None,
        }
    }

    /// The color of the selected swatch, used to pre-seed the edit chooser;
    /// none while nothing is selected.
    pub fn selected_color(&self) -> (c: Option<Rgb>)
        requires
            self.wf(),
        ensures
            match self.selected {
                Some(id) => c == Some(swatch_with_id(self.swatches@, id).color),
                None => c is None,
            },
    {
        match self.selected {
            Some(id) => {
                let idx = position_of(&self.swatches, id);
                proof {
                    lemma_index_of_id(self.swatches@, id, idx as int);
                }
                Some(self.swatches[idx].color)
            },
            None => None,
        }
    }

    /// Whether some member swatch carries the identity `id`; the shell
    /// checks this before reporting a click.
    pub fn contains_id(&self, id: u64) -> (found: bool)
        ensures
            found == has_id(self.swatches@, id),
    {
        let mut i: usize = 0;
        while i < self.swatches.len()
            invariant
                i <= self.swatches@.len(),
                forall|j: int| 0 <= j < i ==> self.swatches@[j].id != id,
            decreases self.swatches@.len() - i,
        {
            if self.swatches[i].id == id {
                return true;
            }
            i = i + 1;
        }
        false
    }

    /// Where each swatch of the grid sits: the members in display order,
    /// then the add swatch, flowed into rows of three, the cell at position
    /// `i` standing in column `i mod 3` of row `i div 3`.
    pub fn grid_layout(&self) -> (cells: Vec<GridCell>)
        ensures
            cells@.len() == self.swatches@.len() + 1,
            forall|i: int|
                0 <= i < self.swatches@.len() ==> #[trigger] cells@[i].swatch
                    == self.swatches@[i],
            cells@.last().swatch == self.add_swatch,
            forall|i: int|
                0 <= i < cells@.len() ==> #[trigger] cells@[i].col == i % 3 && cells@[i].row == i
                    / 3,
    {
        let mut cells: Vec<GridCell> = Vec::new();
        let n = self.swatches.len();
        let mut i: usize = 0;
        while i < n
            invariant
                i <= n,
                n == self.swatches@.len(),
                cells@.len() == i,
                forall|j: int|
                    0 <= j < i ==> #[trigger] cells@[j].swatch == self.swatches@[j],
                forall|j: int|
                    0 <= j < i ==> #[trigger] cells@[j].col == j % 3 && cells@[j].row == j / 3,
            decreases n - i,
        {
            cells.push(GridCell { swatch: self.swatches[i], col: i % 3, row: i / 3 });
            i = i + 1;
        }
        cells.push(GridCell { swatch: self.add_swatch, col: n % 3, row: n / 3 });
        cells
    }

    /// The summary color the collapsed control displays.
    pub fn rgb(&self) -> (c: Rgb)
        ensures
            c == self.rgb,
    {
        self.rgb
    }

    /// Write the summary color. A pure display property: no swatch, no
    /// selection and no hardware state is touched by writing it.
    pub fn set_rgb(&mut self, rgb: Rgb)
        ensures
            *final(self) == (KeyboardColorButton { rgb, ..*old(self) }),
    {
        self.rgb = rgb;
    }
}

} // verus!
