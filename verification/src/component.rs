//! The components an application registers: some render into the frame,
//! some draw into the overlay.

use vstd::prelude::*;

verus! {

/// A registered component, by the part it plays.
pub enum Component<R, G> {
    Render(R),
    Gui(G),
}

/// The render components among a sequence of components, in their order.
pub open spec fn render_part<R, G>(storage: Seq<Component<R, G>>) -> Seq<R>
    decreases storage.len(),
{
    if storage.len() == 0 {
        Seq::empty()
    } else {
        let before = render_part(storage.drop_last());
        match storage.last() {
            Component::Render(component) => before.push(component),
            Component::Gui(_) => before,
        }
    }
}

/// The overlay components among a sequence of components, in their order.
pub open spec fn gui_part<R, G>(storage: Seq<Component<R, G>>) -> Seq<G>
    decreases storage.len(),
{
    if storage.len() == 0 {
        Seq::empty()
    } else {
        let before = gui_part(storage.drop_last());
        match storage.last() {
            Component::Render(_) => before,
            Component::Gui(component) => before.push(component),
        }
    }
}

/// The components of an application, in the order of registration.
pub struct ComponentRegistry<R, G> {
    storage: Vec<Component<R, G>>,
}

impl<R, G> View for ComponentRegistry<R, G> {
    type V = Seq<Component<R, G>>;

    closed spec fn view(&self) -> Seq<Component<R, G>> {
        self.storage@
    }
}

impl<R, G> ComponentRegistry<R, G> {
    /// A registry without components.
    pub fn new() -> (registry: Self)
        ensures
            registry@ == Seq::<Component<R, G>>::empty(),
    {
        ComponentRegistry { storage: Vec::new() }
    }

    /// Adds a component after those already registered.
    pub fn register(self, component: Component<R, G>) -> (registry: Self)
        ensures
            registry@ == self@.push(component),
    {
        let mut registry = self;
        registry.storage.push(component);
        registry
    }

    /// The number of registered components.
    pub fn len(&self) -> (count: usize)
        ensures
            count == self@.len(),
    {
        self.storage.len()
    }

    /// The render components, in the order of registration.
    pub fn render_components(&self) -> (components: Vec<&R>)
        ensures
            components@.map_values(|component: &R| *component) == render_part(self@),
    {
        let mut components: Vec<&R> = Vec::new();
        let mut i: usize = 0;
        proof {
            assert(self.storage@.subrange(0, 0) =~= Seq::<Component<R, G>>::empty());
            assert(components@.map_values(|component: &R| *component) =~= Seq::<R>::empty());
        }
        while i < self.storage.len()
            invariant
                i <= self.storage@.len(),
                components@.map_values(|component: &R| *component) == render_part(
                    self.storage@.subrange(0, i as int),
                ),
            decreases self.storage@.len() - i,
        {
            let ghost done = self.storage@.subrange(0, i as int);
            let ghost next = self.storage@.subrange(0, i + 1);
            let ghost listed = components@;
            proof {
                assert(next.drop_last() =~= done);
                assert(next.last() == self.storage@[i as int]);
            }
            match &self.storage[i] {
                Component::Render(component) => {
                    components.push(component);
                    proof {
                        assert(components@.map_values(|component: &R| *component)
                            =~= listed.map_values(|component: &R| *component).push(*component));
                    }
                },
                Component::Gui(_) => {},
            }
            i += 1;
        }
        proof {
            assert(self.storage@.subrange(0, self.storage@.len() as int) =~= self.storage@);
        }
        components
    }

    /// The overlay components, in the order of registration.
    pub fn gui_components(&self) -> (components: Vec<&G>)
        ensures
            components@.map_values(|component: &G| *component) == gui_part(self@),
    {
        let mut components: Vec<&G> = Vec::new();
        let mut i: usize = 0;
        proof {
            assert(self.storage@.subrange(0, 0) =~= Seq::<Component<R, G>>::empty());
            assert(components@.map_values(|component: &G| *component) =~= Seq::<G>::empty());
        }
        while i < self.storage.len()
            invariant
                i <= self.storage@.len(),
                components@.map_values(|component: &G| *component) == gui_part(
                    self.storage@.subrange(0, i as int),
                ),
            decreases self.storage@.len() - i,
        {
            let ghost done = self.storage@.subrange(0, i as int);
            let ghost next = self.storage@.subrange(0, i + 1);
            let ghost listed = components@;
            proof {
                assert(next.drop_last() =~= done);
                assert(next.last() == self.storage@[i as int]);
            }
            match &self.storage[i] {
                Component::Render(_) => {},
                Component::Gui(component) => {
                    components.push(component);
                    proof {
                        assert(components@.map_values(|component: &G| *component)
                            =~= listed.map_values(|component: &G| *component).push(*component));
                    }
                },
            }
            i += 1;
        }
        proof {
            assert(self.storage@.subrange(0, self.storage@.len() as int) =~= self.storage@);
        }
        components
    }
}

} // verus!
