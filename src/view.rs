//! The view tree and its traversal into drawable primitives.
use vstd::prelude::*;
use crate::component::{Attached, Component};
use crate::geometry::Rect;
use crate::transform::Transform;
use vstd::view::View as _;

verus! {

broadcast use vstd::std_specs::vec::group_vec_axioms;

/// An RGBA colour, one byte per channel.
#[derive(Clone, Copy, Debug, PartialEq, Eq, Structural)]
pub struct Color {
    pub r: u8,
    pub g: u8,
    pub b: u8,
    pub a: u8,
}

impl Color {
    pub fn new(r: u8, g: u8, b: u8, a: u8) -> (c: Color)
        ensures
            c == (Color { r, g, b, a }),
    {
        Color { r, g, b, a }
    }
}

impl Default for Color {
    /// Fully transparent black.
    fn default() -> (c: Self)
        ensures
            c == (Color { r: 0, g: 0, b: 0, a: 0 }),
    {
        Color { r: 0, g: 0, b: 0, a: 0 }
    }
}

/// A filled rectangle to draw.
#[derive(Clone, Copy, Debug, PartialEq, Eq, Structural)]
pub struct Primitive {
    pub rect: Rect,
    pub color: Color,
}

/// The primitives of a frame, in the order they are painted: a later one
/// paints over an earlier one.
#[derive(Debug)]
pub struct Batch {
    pub items: Vec<Primitive>,
}

impl Batch {
    pub fn new() -> (b: Batch)
        ensures
            b.items@ == Seq::<Primitive>::empty(),
    {
        Batch { items: Vec::new() }
    }

    /// Appends a filled rectangle.
    pub fn add_rect(&mut self, rect: &Rect, color: Color)
        ensures
            final(self).items@ == old(self).items@.push(Primitive { rect: *rect, color }),
    {
        self.items.push(Primitive { rect: *rect, color });
    }
}

impl Default for Batch {
    fn default() -> (b: Self)
        ensures
            b.items@ == Seq::<Primitive>::empty(),
    {
        Batch::new()
    }
}

/// A node of the interface: its own rectangle, derived from its parent's,
/// the views painted over it, and its attached behaviour.
#[derive(Debug)]
pub struct View {
    /// A label for later lookup; not necessarily unique.
    pub id: String,
    /// Painted after this view, in this order.
    pub children: Vec<View>,
    pub components: Vec<Attached>,
    pub color: Color,
    pub transform: Transform,
}

impl View {
    /// The primitives this view and its descendants give inside `parent`:
    /// the view itself first, then each child's in order.
    pub open spec fn emitted(self, parent: Rect) -> Seq<Primitive>
        decreases self,
    {
        let r = self.transform.rect_spec(parent);
        seq![Primitive { rect: r, color: self.color }].add(
            self.children_emitted(r, self.children.len() as nat),
        )
    }

    /// The primitives of the first `k` children inside `r`, in order.
    pub open spec fn children_emitted(self, r: Rect, k: nat) -> Seq<Primitive>
        decreases self, k,
    {
        if k == 0 || k > self.children.len() {
            Seq::empty()
        } else {
            self.children_emitted(r, (k - 1) as nat).add(self.children[k - 1].emitted(r))
        }
    }

    /// The number of views in the tree rooted here.
    pub open spec fn node_count(self) -> nat
        decreases self,
    {
        1 + self.children_count(self.children.len() as nat)
    }

    /// The number of views in the trees of the first `k` children.
    pub open spec fn children_count(self, k: nat) -> nat
        decreases self, k,
    {
        if k == 0 || k > self.children.len() {
            0
        } else {
            self.children_count((k - 1) as nat) + self.children[k - 1].node_count()
        }
    }

    /// True when every rectangle of the tree, resolved inside `parent`, can be
    /// held in a `Rect`.
    pub open spec fn layout_fits(self, parent: Rect) -> bool
        decreases self,
    {
        self.transform.fits(parent) && self.children_fit(
            self.transform.rect_spec(parent),
            self.children.len() as nat,
        )
    }

    /// `layout_fits` for each of the first `k` children inside `r`.
    pub open spec fn children_fit(self, r: Rect, k: nat) -> bool
        decreases self, k,
    {
        if k == 0 || k > self.children.len() {
            true
        } else {
            self.children_fit(r, (k - 1) as nat) && self.children[k - 1].layout_fits(r)
        }
    }

    /// A view with no label, children or components, the default colour and
    /// the default transform.
    pub fn new() -> (v: Self)
        ensures
            v.id@ == Seq::<char>::empty(),
            v.children@ == Seq::<View>::empty(),
            v.components@ == Seq::<Attached>::empty(),
            v.color == (Color { r: 0, g: 0, b: 0, a: 0 }),
            v.transform == Transform::default_spec(),
    {
        View {
            id: String::new(),
            children: Vec::new(),
            components: Vec::new(),
            color: Color::default(),
            transform: Transform::default(),
        }
    }

    /// Appends `view` as the last child.
    pub fn child(&mut self, view: View) -> (r: &mut Self)
        ensures
            r.children@ == old(self).children@.push(view),
            r.components@ == old(self).components@,
            r.id == old(self).id,
            r.color == old(self).color,
            r.transform == old(self).transform,
            *final(self) == *final(r),
    {
        self.children.push(view);
        self
    }

    /// Appends `component` after those already attached.
    pub fn component(&mut self, component: Attached) -> (r: &mut Self)
        ensures
            r.components@ == old(self).components@.push(component),
            r.children@ == old(self).children@,
            r.id == old(self).id,
            r.color == old(self).color,
            r.transform == old(self).transform,
            *final(self) == *final(r),
    {
        self.components.push(component);
        self
    }

    /// Appends to `batch` this view's primitive and then, child by child, the
    /// primitives of its descendants: pre-order, each child resolved inside
    /// its parent's rectangle.
    pub fn process_batch(&mut self, batch: &mut Batch, parent: &Rect)
        requires
            old(self).layout_fits(*parent),
        ensures
            *final(self) == *old(self),
            final(batch).items@ == old(batch).items@ + old(self).emitted(*parent),
    {
        self.emit(batch, parent);
    }

    fn emit(&self, batch: &mut Batch, parent: &Rect)
        requires
            self.layout_fits(*parent),
        ensures
            final(batch).items@ == old(batch).items@ + self.emitted(*parent),
        decreases self,
    {
        let rect = self.transform.get_rect(parent);
        let ghost start = batch.items@;
        batch.add_rect(&rect, self.color);
        let n = self.children.len();
        let mut i: usize = 0;
        while i < n
            invariant
                n == self.children.len(),
                i <= n,
                rect == self.transform.rect_spec(*parent),
                self.children_fit(rect, n as nat),
                batch.items@ == start.push(Primitive { rect, color: self.color }) + self.children_emitted(rect, i as nat),
            decreases n - i,
        {
            proof {
                self.lemma_children_fit_each(rect, n as nat, i as int);
            }
            self.children[i].emit(batch, &rect);
            i = i + 1;
            assert(batch.items@ == start.push(Primitive { rect, color: self.color }) + self.children_emitted(rect, i as nat));
        }
        assert(start.push(Primitive { rect, color: self.color }) + self.children_emitted(rect, n as nat)
            =~= start + self.emitted(*parent));
    }

    proof fn lemma_children_fit_each(self, r: Rect, k: nat, i: int)
        requires
            self.children_fit(r, k),
            0 <= i < k <= self.children.len(),
        ensures
            self.children[i].layout_fits(r),
        decreases k,
    {
        if i < k - 1 {
            self.lemma_children_fit_each(r, (k - 1) as nat, i);
        }
    }

    /// Tells whether `process_batch` can resolve this tree inside `parent`.
    pub fn fits(&self, parent: &Rect) -> (ok: bool)
        ensures
            ok == self.layout_fits(*parent),
        decreases self,
    {
        if !self.transform.fits_in(parent) {
            return false;
        }
        let rect = self.transform.get_rect(parent);
        let n = self.children.len();
        let mut i: usize = 0;
        while i < n
            invariant
                n == self.children.len(),
                i <= n,
                rect == self.transform.rect_spec(*parent),
                self.transform.fits(*parent),
                self.children_fit(rect, i as nat),
            decreases n - i,
        {
            if !self.children[i].fits(&rect) {
                proof {
                    if self.children_fit(rect, n as nat) {
                        self.lemma_children_fit_each(rect, n as nat, i as int);
                    }
                }
                return false;
            }
            i = i + 1;
        }
        true
    }

    /// True when this tree holds the same values as `other`: the same label,
    /// colour, transform and components, and children that are, one by one,
    /// the same trees.
    pub open spec fn same_tree(self, other: View) -> bool
        decreases self,
    {
        &&& self.id == other.id
        &&& self.color == other.color
        &&& self.transform == other.transform
        &&& self.components@ == other.components@
        &&& self.children.len() == other.children.len()
        &&& self.children_same(other, self.children.len() as nat)
    }

    /// `same_tree` for each of the first `k` children against those of `other`.
    pub open spec fn children_same(self, other: View, k: nat) -> bool
        decreases self, k,
    {
        if k == 0 || k > self.children.len() {
            true
        } else {
            self.children_same(other, (k - 1) as nat) && self.children[k - 1].same_tree(
                other.children[k - 1],
            )
        }
    }

    proof fn lemma_children_same(self, other: View, k: nat)
        requires
            k <= self.children.len(),
            forall|j: int| 0 <= j < k ==> #[trigger] self.children[j].same_tree(other.children[j]),
        ensures
            self.children_same(other, k),
        decreases k,
    {
        if k > 0 {
            self.lemma_children_same(other, (k - 1) as nat);
            assert(self.children[k - 1].same_tree(other.children[k - 1]));
        }
    }

    /// Gives each attached component its turn, in the order they were
    /// attached, and returns how many there were. No built-in component
    /// changes on its turn.
    pub fn process_components(&mut self) -> (n: usize)
        ensures
            n == old(self).components.len(),
            final(self).components@ == old(self).components@,
            final(self).children == old(self).children,
            final(self).id == old(self).id,
            final(self).color == old(self).color,
            final(self).transform == old(self).transform,
    {
        let n = self.components.len();
        let mut i: usize = 0;
        while i < n
            invariant
                n == self.components.len(),
                i <= n,
                self.components@ == old(self).components@,
                self.children == old(self).children,
                self.id == old(self).id,
                self.color == old(self).color,
                self.transform == old(self).transform,
            decreases n - i,
        {
            let mut c = self.components.remove(i);
            c.process();
            self.components.insert(i, c);
            assert(self.components@ =~= old(self).components@);
            i = i + 1;
        }
        n
    }

    /// One logic pass over the tree: this view's components, then each
    /// child's tree in order. The tree is left as it was.
    pub fn process_tree(&mut self)
        ensures
            final(self).same_tree(*old(self)),
    {
        let mut tree = View::new();
        std::mem::swap(self, &mut tree);
        *self = tree.processed();
    }

    /// `process_tree` on an owned tree, handing the tree back.
    fn processed(self) -> (r: View)
        ensures
            r.same_tree(self),
        decreases self,
    {
        let ghost orig = self;
        let mut v = self;
        v.process_components();
        let n = v.children.len();
        let mut i: usize = 0;
        while i < n
            invariant
                n == v.children.len(),
                n == orig.children.len(),
                orig == self,
                i <= n,
                v.id == orig.id,
                v.color == orig.color,
                v.transform == orig.transform,
                v.components@ == orig.components@,
                forall|j: int| 0 <= j < i ==> #[trigger] v.children[j].same_tree(orig.children[j]),
                forall|j: int| i <= j < n ==> #[trigger] v.children[j] == orig.children[j],
            decreases n - i,
        {
            let c = v.children.remove(i);
            assert(c == orig.children[i as int]);
            assert(decreases_to!(orig => orig.children[i as int]));
            let c2 = c.processed();
            v.children.insert(i, c2);
            i = i + 1;
        }
        proof {
            v.lemma_children_same(orig, n as nat);
        }
        v
    }
}

impl Default for View {
    fn default() -> (v: Self)
        ensures
            v.id@ == Seq::<char>::empty(),
            v.children@ == Seq::<View>::empty(),
            v.components@ == Seq::<Attached>::empty(),
            v.color == (Color { r: 0, g: 0, b: 0, a: 0 }),
            v.transform == Transform::default_spec(),
    {
        View::new()
    }
}

/// Describes the whole interface: gives the root view of the tree.
pub trait VStructure {
    fn root(&self) -> View;
}

/// The tree shown on a drawing surface.
#[derive(Debug)]
pub struct Window {
    pub root: View,
}

impl Window {
    pub fn new(root: View) -> (w: Window)
        ensures
            w.root == root,
    {
        Window { root }
    }

    /// The primitives of one frame on a surface whose rectangle is
    /// `surface`, or `None` when some view's rectangle cannot be held in a
    /// `Rect`.
    pub fn render(&mut self, surface: &Rect) -> (r: Option<Batch>)
        ensures
            final(self).root == old(self).root,
            r is Some <==> old(self).root.layout_fits(*surface),
            r matches Some(b) ==> b.items@ == old(self).root.emitted(*surface),
    {
        if !self.root.fits(surface) {
            return None;
        }
        let mut batch = Batch::new();
        self.root.process_batch(&mut batch, surface);
        assert(batch.items@ =~= self.root.emitted(*surface));
        Some(batch)
    }
}

} // verus!
