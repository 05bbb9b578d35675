//! The kinds of components a game object can hold.
use vstd::prelude::*;

verus! {

/// The kinds of components. `LENGTH_OF_ENUM` counts the others and names no kind.
#[allow(non_camel_case_types)]
#[derive(Clone, Copy, PartialEq, Eq, Structural, Debug)]
pub enum ComponentType {
    DRAW,
    TRANSFORM,
    LENGTH_OF_ENUM,
}

/// The number of component kinds.
pub const COMPONENT_TYPE_COUNT: usize = 2;

/// Position of a component kind in a game object's bit set (`LENGTH_OF_ENUM` maps to the count).
pub open spec fn component_index(t: ComponentType) -> int {
    match t {
        ComponentType::DRAW => 0,
        ComponentType::TRANSFORM => 1,
        ComponentType::LENGTH_OF_ENUM => 2,
    }
}

impl ComponentType {
    /// Position of this kind in a game object's bit set.
    pub fn index(&self) -> (r: usize)
        ensures
            r == component_index(*self),
    {
        match self {
            ComponentType::DRAW => 0,
            ComponentType::TRANSFORM => 1,
            ComponentType::LENGTH_OF_ENUM => 2,
        }
    }
}

/// A component of a game object, implemented by the game's component types.
pub trait Component {
    /// The kind of every component of the implementing type.
    fn get_component_type_static() -> ComponentType;

    /// The kind of this component.
    fn get_component_type(&self) -> ComponentType;
}

} // verus!
