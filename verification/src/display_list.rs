//! The display list: an ordered sequence of drawing commands describing one
//! frame's content at a given layout size.
//!
//! A list is built append-only through `DisplayListBuilder`, whose invariant
//! guarantees that every finalized list is push/pop-balanced: stacking-context
//! pushes and pops match, and no prefix pops more than it pushed.

use vstd::prelude::*;
use crate::geometry::{Frac, LayoutRect, LayoutSize};

verus! {

/// A solid colour, 8 bits per channel.
#[derive(Clone, Copy, Debug, PartialEq, Eq, Structural)]
pub struct Color {
    pub r: u8,
    pub g: u8,
    pub b: u8,
    pub a: u8,
}

impl Color {
    pub open spec fn spec_white() -> Color {
        Color { r: 255, g: 255, b: 255, a: 255 }
    }

    pub fn white() -> (c: Color)
        ensures
            c == Color::spec_white(),
    {
        Color { r: 255, g: 255, b: 255, a: 255 }
    }
}

/// One drawing command.
#[derive(Clone, Copy, Debug, PartialEq, Eq, Structural)]
pub enum DisplayItem {
    /// Open a stacking context covering `bounds`: no transform, normal
    /// blending, scrollable policy.
    PushStackingContext { bounds: LayoutRect },
    /// A solid rectangle clipped to a rounded-rectangle region of the same
    /// bounds; with `clip_radius` equal to half the rectangle's extent in
    /// each axis the visible shape is the inscribed ellipse.
    ClippedRect { rect: LayoutRect, clip_radius_x: Frac, clip_radius_y: Frac, color: Color },
    /// Close the innermost open stacking context.
    PopStackingContext,
}

pub open spec fn spec_push_count(s: Seq<DisplayItem>) -> int
    decreases s.len(),
{
    if s.len() == 0 {
        0
    } else {
        spec_push_count(s.drop_last()) + if s.last() is PushStackingContext {
            1int
        } else {
            0int
        }
    }
}

pub open spec fn spec_pop_count(s: Seq<DisplayItem>) -> int
    decreases s.len(),
{
    if s.len() == 0 {
        0
    } else {
        spec_pop_count(s.drop_last()) + if s.last() is PopStackingContext {
            1int
        } else {
            0int
        }
    }
}

/// Every stacking-context push has exactly one matching pop, and no prefix
/// closes a context it has not opened.
pub open spec fn spec_balanced(s: Seq<DisplayItem>) -> bool {
    &&& spec_push_count(s) == spec_pop_count(s)
    &&& forall|i: int|
        0 <= i <= s.len() ==> spec_push_count(#[trigger] s.take(i)) >= spec_pop_count(s.take(i))
}

/// Appending one item adjusts the counts by at most one.
proof fn lemma_counts_push(s: Seq<DisplayItem>, it: DisplayItem)
    ensures
        spec_push_count(s.push(it)) == spec_push_count(s) + if it is PushStackingContext {
            1int
        } else {
            0int
        },
        spec_pop_count(s.push(it)) == spec_pop_count(s) + if it is PopStackingContext {
            1int
        } else {
            0int
        },
{
    assert(s.push(it).drop_last() =~= s);
    assert(s.push(it).last() == it);
}

/// Appends drawing commands; maintains the balance invariant structurally.
pub struct DisplayListBuilder {
    pub items: Vec<DisplayItem>,
    pub open_contexts: usize,
}

impl DisplayListBuilder {
    pub open spec fn wf(self) -> bool {
        &&& self.open_contexts == spec_push_count(self.items@) - spec_pop_count(self.items@)
        &&& forall|i: int|
            0 <= i <= self.items@.len() ==> spec_push_count(#[trigger] self.items@.take(i))
                >= spec_pop_count(self.items@.take(i))
    }

    pub fn new() -> (b: DisplayListBuilder)
        ensures
            b.wf(),
            b.items@ == Seq::<DisplayItem>::empty(),
            b.open_contexts == 0,
    {
        let b = DisplayListBuilder { items: Vec::new(), open_contexts: 0 };
        proof {
            assert(b.items@ =~= Seq::<DisplayItem>::empty());
            assert forall|i: int| 0 <= i <= b.items@.len() implies spec_push_count(
                #[trigger] b.items@.take(i),
            ) >= spec_pop_count(b.items@.take(i)) by {
                assert(b.items@.take(i) =~= Seq::<DisplayItem>::empty());
            }
        }
        b
    }

    /// Appending `it` keeps every old prefix, and adds the whole new list as
    /// the one new prefix.
    proof fn lemma_prefixes_after_push(self, it: DisplayItem)
        requires
            self.wf(),
            !(it is PopStackingContext) || self.open_contexts > 0,
        ensures
            forall|i: int|
                0 <= i <= self.items@.push(it).len() ==> spec_push_count(
                    #[trigger] self.items@.push(it).take(i),
                ) >= spec_pop_count(self.items@.push(it).take(i)),
    {
        let s = self.items@;
        let t = s.push(it);
        lemma_counts_push(s, it);
        assert forall|i: int| 0 <= i <= t.len() implies spec_push_count(#[trigger] t.take(i))
            >= spec_pop_count(t.take(i)) by {
            if i <= s.len() {
                assert(t.take(i) =~= s.take(i));
            } else {
                assert(t.take(i) =~= t);
                assert(s.take(s.len() as int) =~= s);
            }
        }
    }

    pub fn push_stacking_context(&mut self, bounds: LayoutRect)
        requires
            old(self).wf(),
            old(self).open_contexts < usize::MAX,
        ensures
            final(self).wf(),
            final(self).items@ == old(self).items@.push(
                DisplayItem::PushStackingContext { bounds },
            ),
            final(self).open_contexts == old(self).open_contexts + 1,
    {
        let it = DisplayItem::PushStackingContext { bounds };
        proof {
            lemma_counts_push(self.items@, it);
            self.lemma_prefixes_after_push(it);
        }
        self.items.push(it);
        self.open_contexts = self.open_contexts + 1;
    }

    pub fn pop_stacking_context(&mut self)
        requires
            old(self).wf(),
            old(self).open_contexts > 0,
        ensures
            final(self).wf(),
            final(self).items@ == old(self).items@.push(DisplayItem::PopStackingContext),
            final(self).open_contexts == old(self).open_contexts - 1,
    {
        let it = DisplayItem::PopStackingContext;
        proof {
            lemma_counts_push(self.items@, it);
            self.lemma_prefixes_after_push(it);
        }
        self.items.push(it);
        self.open_contexts = self.open_contexts - 1;
    }

    /// The finished list; only a builder with no open context may finish,
    /// so the result is always balanced.
    pub fn finalize(self) -> (list: Vec<DisplayItem>)
        requires
            self.wf(),
            self.open_contexts == 0,
        ensures
            list@ == self.items@,
            spec_balanced(list@),
    {
        self.items
    }
}

/// Push one clipped primitive: a rectangle clipped to a rounded-rectangle
/// region whose corner radius is half the rectangle's extent in each axis,
/// so the visible shape is the ellipse inscribed in `rect`.
pub fn push_ellipse(builder: &mut DisplayListBuilder, rect: LayoutRect, color: Color)
    requires
        old(builder).wf(),
        rect.size.wf(),
    ensures
        final(builder).wf(),
        final(builder).items@ == old(builder).items@.push(spec_ellipse_item(rect, color)),
        final(builder).open_contexts == old(builder).open_contexts,
{
    let it = DisplayItem::ClippedRect {
        rect,
        clip_radius_x: rect.size.width.half(),
        clip_radius_y: rect.size.height.half(),
        color,
    };
    proof {
        lemma_counts_push(builder.items@, it);
        builder.lemma_prefixes_after_push(it);
    }
    builder.items.push(it);
}

/// The clipped primitive that `push_ellipse` appends.
pub open spec fn spec_ellipse_item(rect: LayoutRect, color: Color) -> DisplayItem {
    DisplayItem::ClippedRect {
        rect,
        clip_radius_x: rect.size.width.spec_half(),
        clip_radius_y: rect.size.height.spec_half(),
        color,
    }
}

/// The scene for one frame at a given layout size: one stacking context
/// covering the whole layout, one white ellipse inscribed in it.
pub open spec fn spec_scene(layout_size: LayoutSize) -> Seq<DisplayItem> {
    seq![
        DisplayItem::PushStackingContext { bounds: LayoutRect::spec_from_origin(layout_size) },
        spec_ellipse_item(LayoutRect::spec_from_origin(layout_size), Color::spec_white()),
        DisplayItem::PopStackingContext,
    ]
}

/// Build the frame's visual content at `layout_size` into `builder`.
pub fn render(builder: &mut DisplayListBuilder, layout_size: LayoutSize)
    requires
        old(builder).wf(),
        old(builder).open_contexts < usize::MAX,
        layout_size.wf(),
    ensures
        final(builder).wf(),
        final(builder).items@ == old(builder).items@ + spec_scene(layout_size),
        final(builder).open_contexts == old(builder).open_contexts,
{
    let bounds = LayoutRect::from_origin(layout_size);
    builder.push_stacking_context(bounds);
    push_ellipse(builder, bounds, Color::white());
    builder.pop_stacking_context();
    proof {
        assert(builder.items@ =~= old(builder).items@ + spec_scene(layout_size));
    }
}

/// The scene is push/pop-balanced for every layout size.
pub proof fn lemma_scene_balanced(layout_size: LayoutSize)
    ensures
        spec_push_count(spec_scene(layout_size)) == 1,
        spec_pop_count(spec_scene(layout_size)) == 1,
        spec_balanced(spec_scene(layout_size)),
{
    let s = spec_scene(layout_size);
    assert(s.drop_last() =~= s.take(2));
    assert(s.take(2).drop_last() =~= s.take(1));
    assert(s.take(1).drop_last() =~= s.take(0));
    assert(s.take(0) =~= Seq::<DisplayItem>::empty());
    assert(spec_push_count(s.take(0)) == 0);
    assert(spec_push_count(s.take(1)) == 1);
    assert(spec_push_count(s.take(2)) == 1);
    assert(spec_push_count(s) == 1);
    assert(spec_pop_count(s.take(0)) == 0);
    assert(spec_pop_count(s.take(1)) == 0);
    assert(spec_pop_count(s.take(2)) == 0);
    assert(spec_pop_count(s) == 1);
    assert forall|i: int| 0 <= i <= s.len() implies spec_push_count(#[trigger] s.take(i))
        >= spec_pop_count(s.take(i)) by {
        if i == 3 {
            assert(s.take(3) =~= s);
        }
    }
}

} // verus!
