use vstd::prelude::*;

verus! {

/// The four resources of the similarity kernel. Their slots are fixed and
/// shared with the kernel source.
#[derive(Clone, Copy, Debug, PartialEq, Eq, Structural)]
pub enum Binding {
    InputA,
    InputB,
    Output,
    Params,
}

/// How the kernel reaches a bound buffer.
#[derive(Clone, Copy, Debug, PartialEq, Eq, Structural)]
pub enum Access {
    ReadOnlyStorage,
    ReadWriteStorage,
    Uniform,
}

/// Number of bindings in the layout.
pub const BINDING_COUNT: u32 = 4;

pub open spec fn spec_slot(b: Binding) -> u32 {
    match b {
        Binding::InputA => 0,
        Binding::InputB => 1,
        Binding::Output => 2,
        Binding::Params => 3,
    }
}

pub open spec fn spec_access(b: Binding) -> Access {
    match b {
        Binding::InputA => Access::ReadOnlyStorage,
        Binding::InputB => Access::ReadOnlyStorage,
        Binding::Output => Access::ReadWriteStorage,
        Binding::Params => Access::Uniform,
    }
}

/// The resource at `slot`, if any.
pub open spec fn spec_binding_at(slot: u32) -> Option<Binding> {
    if slot == 0 {
        Some(Binding::InputA)
    } else if slot == 1 {
        Some(Binding::InputB)
    } else if slot == 2 {
        Some(Binding::Output)
    } else if slot == 3 {
        Some(Binding::Params)
    } else {
        None
    }
}

impl Binding {
    /// Positional slot of this resource in the bind group.
    pub fn slot(self) -> (r: u32)
        ensures
            r == spec_slot(self),
            r < BINDING_COUNT,
    {
        match self {
            Binding::InputA => 0,
            Binding::InputB => 1,
            Binding::Output => 2,
            Binding::Params => 3,
        }
    }

    /// The resource bound at `slot`, if the layout has one there.
    pub fn from_slot(slot: u32) -> (r: Option<Binding>)
        ensures
            r == spec_binding_at(slot),
            r is Some <==> slot < BINDING_COUNT,
            r matches Some(b) ==> spec_slot(b) == slot,
    {
        match slot {
            0 => Some(Binding::InputA),
            1 => Some(Binding::InputB),
            2 => Some(Binding::Output),
            3 => Some(Binding::Params),
            _ => None,
        }
    }

    /// How the kernel accesses this resource.
    pub fn access(self) -> (r: Access)
        ensures
            r == spec_access(self),
    {
        match self {
            Binding::InputA => Access::ReadOnlyStorage,
            Binding::InputB => Access::ReadOnlyStorage,
            Binding::Output => Access::ReadWriteStorage,
            Binding::Params => Access::Uniform,
        }
    }
}

/// The layout in slot order.
pub fn layout() -> (r: Vec<Binding>)
    ensures
        r@.len() == BINDING_COUNT,
        forall|i: int| 0 <= i < r@.len() ==> spec_slot(#[trigger] r@[i]) == i,
{
    vec![Binding::InputA, Binding::InputB, Binding::Output, Binding::Params]
}

/// The slot table is a bijection between the four resources and the slots
/// below the binding count: distinct resources never share a slot, each such
/// slot names a resource, and looking a resource up by its slot gives it back.
pub proof fn lemma_slots_bijective()
    ensures
        forall|a: Binding, b: Binding| #[trigger] spec_slot(a) == #[trigger] spec_slot(b) ==> a == b,
        forall|b: Binding| #[trigger] spec_slot(b) < BINDING_COUNT,
        forall|s: u32|
            #![trigger spec_binding_at(s)]
            s < BINDING_COUNT ==> spec_binding_at(s) is Some && spec_slot(spec_binding_at(s)->0)
                == s,
        forall|b: Binding| #[trigger] spec_binding_at(spec_slot(b)) == Some(b),
{
}

} // verus!
