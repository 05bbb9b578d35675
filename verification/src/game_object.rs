//! Game objects: a tree of objects, each holding at most one component of each kind.
use crate::bits::{bits_of, bv_from_elem, bv_get, bv_set, uniform_bits};
use crate::component::{component_index, Component, ComponentType, COMPONENT_TYPE_COUNT};
use bit_vec::BitVec;
use vstd::prelude::*;

verus! {

/// A game object with its components and child objects. The kind of each component
/// is asked of it once, when it is added, and recorded beside it.
pub struct GameObject<C> {
    components: Vec<C>,
    component_types: Vec<ComponentType>,
    active_components: BitVec,
    pub children: Vec<GameObject<C>>,
}

impl<C> GameObject<C> {
    /// The components, in the order they were added.
    pub closed spec fn components(&self) -> Seq<C> {
        self.components@
    }

    /// The kind of each component, position by position.
    pub closed spec fn types(&self) -> Seq<ComponentType> {
        self.component_types@
    }

    /// The child objects, in the order they were added.
    pub closed spec fn child_objects(&self) -> Seq<GameObject<C>> {
        self.children@
    }

    /// Which kinds the object holds, one bit per kind.
    pub closed spec fn active(&self) -> Seq<bool> {
        bits_of(self.active_components)
    }

    /// One kind per component, no kind twice, `LENGTH_OF_ENUM` never, and the bit of a
    /// kind set exactly when the object holds a component of that kind.
    pub open spec fn wf(&self) -> bool {
        &&& self.components().len() == self.types().len()
        &&& self.active().len() == COMPONENT_TYPE_COUNT
        &&& forall|k: int| 0 <= k < self.types().len() ==> #[trigger] self.types()[k] != ComponentType::LENGTH_OF_ENUM
        &&& forall|j: int, k: int|
            0 <= j < self.types().len() && 0 <= k < self.types().len() && j != k ==> #[trigger] self.types()[j]
                != #[trigger] self.types()[k]
        &&& forall|t: ComponentType|
            t != ComponentType::LENGTH_OF_ENUM ==> self.active()[component_index(t)] == #[trigger] self.types().contains(t)
    }

    /// An object with no component and no child.
    pub fn new() -> (g: Self)
        ensures
            g.wf(),
            g.components().len() == 0,
            g.child_objects().len() == 0,
    {
        let g = GameObject {
            components: Vec::new(),
            component_types: Vec::new(),
            active_components: bv_from_elem(COMPONENT_TYPE_COUNT, false),
            children: Vec::new(),
        };
        assert(g.active() == uniform_bits(2, false));
        g
    }

    /// Appends a child object.
    pub fn add_child(&mut self, child: GameObject<C>)
        ensures
            final(self).child_objects() == old(self).child_objects().push(child),
            final(self).components() == old(self).components(),
            final(self).types() == old(self).types(),
            final(self).active() == old(self).active(),
    {
        self.children.push(child);
    }

    /// Whether the object holds a component of kind `component_type`.
    pub fn has_component(&self, component_type: ComponentType) -> (r: bool)
        requires
            self.wf(),
            component_type != ComponentType::LENGTH_OF_ENUM,
        ensures
            r == self.types().contains(component_type),
    {
        match bv_get(&self.active_components, component_type.index()) {
            Some(b) => b,
            None => false,
        }
    }

    /// The component of kind `component_type`, if the object holds one.
    pub fn get_component(&self, component_type: ComponentType) -> (r: Option<&C>)
        requires
            self.wf(),
            component_type != ComponentType::LENGTH_OF_ENUM,
        ensures
            r.is_some() == self.types().contains(component_type),
            r matches Some(c) ==> exists|k: int|
                0 <= k < self.types().len() && self.types()[k] == component_type && self.components()[k] == *c,
    {
        if self.has_component(component_type) {
            let n = self.components.len();
            let mut i: usize = 0;
            while i < n
                invariant
                    n == self.components@.len(),
                    n == self.component_types@.len(),
                    0 <= i <= n,
                    forall|k: int| 0 <= k < i ==> self.component_types@[k] != component_type,
                decreases n - i,
            {
                if self.component_types[i] == component_type {
                    assert(self.types()[i as int] == component_type && self.components()[i as int] == self.components@[i as int]);
                    return Some(&self.components[i]);
                }
                i = i + 1;
            }
            assert(!self.types().contains(component_type));
        }
        None
    }
}

impl<C: Component> GameObject<C> {
    /// Adds `component` unless the object already holds one of its kind (or its kind is
    /// `LENGTH_OF_ENUM`). Returns the component's kind and whether it was added.
    pub fn add_component(&mut self, component: C) -> (r: (ComponentType, bool))
        requires
            old(self).wf(),
        ensures
            final(self).wf(),
            r.1 == (r.0 != ComponentType::LENGTH_OF_ENUM && !old(self).types().contains(r.0)),
            r.1 ==> final(self).components() == old(self).components().push(component),
            r.1 ==> final(self).types() == old(self).types().push(r.0),
            !r.1 ==> final(self).components() == old(self).components(),
            !r.1 ==> final(self).types() == old(self).types(),
            final(self).child_objects() == old(self).child_objects(),
    {
        let component_type = component.get_component_type();
        if component_type == ComponentType::LENGTH_OF_ENUM {
            return (component_type, false);
        }
        if self.has_component(component_type) {
            return (component_type, false);
        }
        let ghost old_types = self.types();
        self.components.push(component);
        self.component_types.push(component_type);
        bv_set(&mut self.active_components, component_type.index(), true);
        assert forall|t: ComponentType| t != ComponentType::LENGTH_OF_ENUM implies self.active()[component_index(t)]
            == #[trigger] self.types().contains(t) by {
            if t == component_type {
                assert(self.types()[old_types.len() as int] == t);
            } else {
                assert(component_index(t) != component_index(component_type));
                if old_types.contains(t) {
                    let k = choose|k: int| 0 <= k < old_types.len() && old_types[k] == t;
                    assert(self.types()[k] == t);
                }
                if self.types().contains(t) {
                    let k = choose|k: int| 0 <= k < self.types().len() && self.types()[k] == t;
                    assert(old_types[k] == t);
                }
            }
        }
        (component_type, true)
    }
}

/// Component law: adding a component of a kind the object does not hold makes the
/// object hold that kind, and leaves whether it holds any other kind unchanged.
pub proof fn law_added_kind_is_held(types: Seq<ComponentType>, t: ComponentType)
    ensures
        types.push(t).contains(t),
        forall|u: ComponentType| u != t ==> (#[trigger] types.push(t).contains(u) == types.contains(u)),
{
    assert(types.push(t)[types.len() as int] == t);
    assert forall|u: ComponentType| u != t implies (#[trigger] types.push(t).contains(u) == types.contains(u)) by {
        if types.contains(u) {
            let k = choose|k: int| 0 <= k < types.len() && types[k] == u;
            assert(types.push(t)[k] == u);
        }
        if types.push(t).contains(u) {
            let k = choose|k: int| 0 <= k < types.push(t).len() && types.push(t)[k] == u;
            assert(types[k] == u);
        }
    }
}

} // verus!
