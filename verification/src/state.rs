//! The drawing state: the shapes on the surface, in the order they were added.

use crate::color::{is_generated_color, rgb_string, rgb_text, sample_channel};
use crate::scalar::Scalar;
use vstd::prelude::*;

verus! {

/// One filled circle. The position is in the surface's buffer space.
#[derive(Debug)]
pub struct Shape {
    pub x: Scalar,
    pub y: Scalar,
    pub radius: Scalar,
    pub color: String,
}

/// What a shape is, to the contracts: the encodings of its three numbers and
/// the text of its fill style.
pub struct ShapeModel {
    pub x: u64,
    pub y: u64,
    pub radius: u64,
    pub color: Seq<char>,
}

impl View for Shape {
    type V = ShapeModel;

    open spec fn view(&self) -> ShapeModel {
        ShapeModel { x: self.x.bits, y: self.y.bits, radius: self.radius.bits, color: self.color@ }
    }
}

impl Shape {
    /// A shape with the same position, radius and fill style.
    pub fn duplicate(&self) -> (copy: Shape)
        ensures
            copy@ == self@,
    {
        Shape { x: self.x, y: self.y, radius: self.radius, color: self.color.clone() }
    }
}

/// The shapes of a drawing. Later shapes are painted over earlier ones, so
/// the order is part of the value; the same shape may occur more than once.
#[derive(Debug)]
pub struct DrawingState {
    pub shapes: Vec<Shape>,
}

impl View for DrawingState {
    type V = Seq<ShapeModel>;

    open spec fn view(&self) -> Seq<ShapeModel> {
        self.shapes@.map_values(|s: Shape| s@)
    }
}

/// Whether `after` is `before` with one shape added behind all others, at
/// `(x, y)`, with `radius` and a generated colour.
pub open spec fn shape_added(
    before: Seq<ShapeModel>,
    after: Seq<ShapeModel>,
    x: u64,
    y: u64,
    radius: u64,
) -> bool {
    &&& after.len() == before.len() + 1
    &&& after.drop_last() == before
    &&& after.last().x == x
    &&& after.last().y == y
    &&& after.last().radius == radius
    &&& is_generated_color(after.last().color)
}

/// What clearing leaves of any state: nothing.
pub open spec fn cleared(before: Seq<ShapeModel>) -> Seq<ShapeModel> {
    Seq::empty()
}

impl DrawingState {
    /// The empty drawing.
    pub fn new() -> (state: DrawingState)
        ensures
            state@ == Seq::<ShapeModel>::empty(),
    {
        let state = DrawingState { shapes: Vec::new() };
        assert(state@ =~= Seq::<ShapeModel>::empty());
        state
    }

    /// Adds `shape` behind all others.
    pub fn push_shape(&mut self, shape: Shape)
        ensures
            final(self)@ == old(self)@.push(shape@),
    {
        self.shapes.push(shape);
        assert(self@ =~= old(self)@.push(shape@));
    }

    /// Adds a circle at `(x, y)` with the given radius and the colour with
    /// channels `r`, `g` and `b`, behind all others.
    pub fn add_colored_shape(&mut self, x: Scalar, y: Scalar, radius: Scalar, r: u8, g: u8, b: u8)
        ensures
            final(self)@ == old(self)@.push(
                ShapeModel {
                    x: x.bits,
                    y: y.bits,
                    radius: radius.bits,
                    color: rgb_text(r as nat, g as nat, b as nat),
                },
            ),
    {
        let color = rgb_string(r, g, b);
        self.push_shape(Shape { x, y, radius, color });
    }

    /// Adds a circle at `(x, y)` with the given radius and a freshly drawn
    /// colour, behind all others. Every position is accepted, on the surface
    /// or off it.
    pub fn add_shape(&mut self, x: Scalar, y: Scalar, radius: Scalar)
        ensures
            shape_added(old(self)@, final(self)@, x.bits, y.bits, radius.bits),
    {
        let r = sample_channel();
        let g = sample_channel();
        let b = sample_channel();
        self.add_colored_shape(x, y, radius, r, g, b);
        proof {
            assert(self@.drop_last() =~= old(self)@);
        }
    }

    /// Removes every shape.
    pub fn clear_shapes(&mut self)
        ensures
            final(self)@ == cleared(old(self)@),
    {
        self.shapes.clear();
        assert(self@ =~= Seq::<ShapeModel>::empty());
    }

    /// A copy of the drawing that shares nothing with it.
    pub fn snapshot(&self) -> (copy: DrawingState)
        ensures
            copy@ == self@,
    {
        let mut copy = DrawingState::new();
        let mut i: usize = 0;
        while i < self.shapes.len()
            invariant
                i <= self.shapes.len(),
                copy@ == self@.take(i as int),
            decreases self.shapes.len() - i,
        {
            copy.push_shape(self.shapes[i].duplicate());
            i = i + 1;
            assert(copy@ =~= self@.take(i as int));
        }
        assert(self@.take(i as int) =~= self@);
        copy
    }
}

impl Default for DrawingState {
    fn default() -> (state: DrawingState)
        ensures
            state@ == Seq::<ShapeModel>::empty(),
    {
        DrawingState::new()
    }
}

/// Clearing twice leaves what clearing once leaves, and clearing the empty
/// drawing changes nothing.
pub proof fn lemma_clear_idempotent(state: Seq<ShapeModel>)
    ensures
        cleared(cleared(state)) == cleared(state),
        cleared(Seq::<ShapeModel>::empty()) == Seq::<ShapeModel>::empty(),
        cleared(state).len() == 0,
{
}

/// Whether step `i` of a run is an addition: `states[i + 1]` is `states[i]`
/// after a shape was added at `points[i]`, given as position and radius.
pub open spec fn is_addition_step(
    states: Seq<Seq<ShapeModel>>,
    points: Seq<(u64, u64, u64)>,
    i: int,
) -> bool {
    shape_added(states[i], states[i + 1], points[i].0, points[i].1, points[i].2)
}

/// Whether `states` is a run of additions at `points`, one state before the
/// first addition and one after each.
pub open spec fn is_addition_run(
    states: Seq<Seq<ShapeModel>>,
    points: Seq<(u64, u64, u64)>,
) -> bool {
    &&& states.len() == points.len() + 1
    &&& forall|i: int| 0 <= i < points.len() ==> #[trigger] is_addition_step(states, points, i)
}

/// However many shapes are added, one after another, the drawing grows by
/// exactly that many, keeps what it held, and holds the added shapes in the
/// order of the additions.
pub proof fn lemma_additions_counted_in_order(
    states: Seq<Seq<ShapeModel>>,
    points: Seq<(u64, u64, u64)>,
)
    requires
        is_addition_run(states, points),
    ensures
        states.last().len() == states[0].len() + points.len(),
        states.last().take(states[0].len() as int) == states[0],
        forall|i: int|
            #![trigger points[i]]
            0 <= i < points.len() ==> {
                let shape = states.last()[states[0].len() + i];
                shape.x == points[i].0 && shape.y == points[i].1 && shape.radius == points[i].2
            },
    decreases points.len(),
{
    let first = states[0];
    if points.len() == 0 {
        assert(first.take(first.len() as int) =~= first);
    } else {
        let n = points.len() as int;
        let earlier = states.drop_last();
        let earlier_points = points.drop_last();
        assert forall|i: int| 0 <= i < earlier_points.len() implies #[trigger] is_addition_step(
            earlier,
            earlier_points,
            i,
        ) by {
            assert(is_addition_step(states, points, i));
        }
        lemma_additions_counted_in_order(earlier, earlier_points);
        let before = states[n - 1];
        let after = states[n];
        assert(is_addition_step(states, points, n - 1));
        assert(earlier.last() == before);
        assert(earlier[0] == first);
        assert(after.drop_last() == before);
        assert(after.len() == first.len() + n);
        assert(after.take(first.len() as int) =~= before.take(first.len() as int));
        assert forall|i: int| #![trigger points[i]] 0 <= i < points.len() implies {
            let shape = states.last()[first.len() + i];
            shape.x == points[i].0 && shape.y == points[i].1 && shape.radius == points[i].2
        } by {
            if i < n - 1 {
                assert(after[first.len() + i] == after.drop_last()[first.len() + i]);
                assert(earlier_points[i] == points[i]);
            } else {
                assert(after[first.len() + i] == after.last());
            }
        }
    }
}

/// One change to a drawing.
pub enum Edit {
    /// A circle is added at `(x, y)` with `radius`.
    Add { x: u64, y: u64, radius: u64 },
    /// Every shape is removed.
    Clear,
}

/// Whether step `i` of a run makes the change `edits[i]`: `states[i + 1]`
/// is `states[i]` after it.
pub open spec fn is_edit_step(states: Seq<Seq<ShapeModel>>, edits: Seq<Edit>, i: int) -> bool {
    match edits[i] {
        Edit::Add { x, y, radius } => shape_added(states[i], states[i + 1], x, y, radius),
        Edit::Clear => states[i + 1] == cleared(states[i]),
    }
}

/// Whether `states` is a run of the changes `edits`, one state before the
/// first change and one after each.
pub open spec fn is_edit_run(states: Seq<Seq<ShapeModel>>, edits: Seq<Edit>) -> bool {
    &&& states.len() == edits.len() + 1
    &&& forall|i: int| 0 <= i < edits.len() ==> #[trigger] is_edit_step(states, edits, i)
}

/// What is left of `initial` after the changes `edits`: all of it, or
/// nothing once the drawing was cleared.
pub open spec fn kept_shapes(initial: Seq<ShapeModel>, edits: Seq<Edit>) -> Seq<ShapeModel>
    decreases edits.len(),
{
    if edits.len() == 0 {
        initial
    } else if edits.last() is Clear {
        Seq::empty()
    } else {
        kept_shapes(initial, edits.drop_last())
    }
}

/// The additions among `edits` that no later clearing has undone, in order.
pub open spec fn standing_additions(edits: Seq<Edit>) -> Seq<Edit>
    decreases edits.len(),
{
    if edits.len() == 0 || edits.last() is Clear {
        Seq::empty()
    } else {
        standing_additions(edits.drop_last()).push(edits.last())
    }
}

/// Additions and clearings may come in any order and from any caller: the
/// drawing always holds what it held at first, unless it was cleared since,
/// followed by exactly the circles added since it was last cleared, in the
/// order they were added.
pub proof fn lemma_drawing_follows_edits(states: Seq<Seq<ShapeModel>>, edits: Seq<Edit>)
    requires
        is_edit_run(states, edits),
    ensures
        states.last().len() == kept_shapes(states[0], edits).len() + standing_additions(
            edits,
        ).len(),
        states.last().take(kept_shapes(states[0], edits).len() as int) == kept_shapes(
            states[0],
            edits,
        ),
        forall|i: int|
            #![trigger standing_additions(edits)[i]]
            0 <= i < standing_additions(edits).len() ==> {
                let shape = states.last()[kept_shapes(states[0], edits).len() + i];
                let edit = standing_additions(edits)[i];
                edit is Add && shape.x == edit->x && shape.y == edit->y && shape.radius
                    == edit->radius
            },
    decreases edits.len(),
{
    let first = states[0];
    let kept = kept_shapes(first, edits);
    let standing = standing_additions(edits);
    if edits.len() == 0 {
        assert(first.take(first.len() as int) =~= first);
    } else {
        let n = edits.len() as int;
        let earlier = states.drop_last();
        let earlier_edits = edits.drop_last();
        assert forall|i: int| 0 <= i < earlier_edits.len() implies #[trigger] is_edit_step(
            earlier,
            earlier_edits,
            i,
        ) by {
            assert(is_edit_step(states, edits, i));
        }
        lemma_drawing_follows_edits(earlier, earlier_edits);
        let before = states[n - 1];
        let after = states[n];
        assert(is_edit_step(states, edits, n - 1));
        assert(earlier.last() == before);
        assert(earlier[0] == first);
        if edits.last() is Clear {
            assert(after.take(0) =~= Seq::<ShapeModel>::empty());
        } else {
            let earlier_standing = standing_additions(earlier_edits);
            assert(after.drop_last() == before);
            assert(after.take(kept.len() as int) =~= before.take(kept.len() as int));
            assert forall|i: int| #![trigger standing[i]] 0 <= i < standing.len() implies {
                let shape = after[kept.len() + i];
                let edit = standing[i];
                edit is Add && shape.x == edit->x && shape.y == edit->y && shape.radius
                    == edit->radius
            } by {
                if i < standing.len() - 1 {
                    assert(after[kept.len() + i] == after.drop_last()[kept.len() + i]);
                    assert(standing[i] == earlier_standing[i]);
                } else {
                    assert(after[kept.len() + i] == after.last());
                    assert(standing[i] == edits[n - 1]);
                }
            }
        }
    }
}

} // verus!
