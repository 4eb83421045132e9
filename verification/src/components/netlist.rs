use vstd::prelude::*;
use vstd::std_specs::convert::IntoSpec;
use crate::components::Component;

verus! {

/// The largest node id among the first `count` elements; 0 where there is
/// none.
pub open spec fn max_node_of(components: Seq<Component>, count: int) -> usize
    decreases count,
{
    if count <= 0 {
        0
    } else {
        let rest = max_node_of(components, count - 1);
        let node = components[count - 1].max_node_spec();
        if node > rest {
            node
        } else {
            rest
        }
    }
}

/// A circuit: its elements, in the order in which they were added.
#[derive(Debug)]
pub struct Netlist {
    components: Vec<Component>,
}

impl View for Netlist {
    type V = Seq<Component>;

    closed spec fn view(&self) -> Seq<Component> {
        self.components@
    }
}

impl Netlist {
    /// The number of nodes besides the ground: the largest node id in use.
    pub open spec fn num_nodes(&self) -> usize {
        max_node_of(self@, self@.len() as int)
    }

    pub fn new() -> (netlist: Self)
        ensures
            netlist@ == Seq::<Component>::empty(),
    {
        Self { components: Vec::new() }
    }

    /// Adds a single component to the netlist.
    pub fn add_component<C: Into<Component>>(&mut self, component: C) -> (netlist: &mut Self)
        ensures
            C::obeys_into_spec() ==> netlist@ == old(self)@.push(component.into_spec()),
            netlist@.len() == old(self)@.len() + 1,
            netlist@.take(old(self)@.len() as int) == old(self)@,
            final(self)@ == final(netlist)@,
    {
        let c: Component = component.into();
        self.components.push(c);
        proof {
            assert(self.components@.take(old(self)@.len() as int) =~= old(self)@);
        }
        self
    }

    /// Adds multiple components to the netlist, in their order.
    pub fn add_components(&mut self, components: Vec<Component>) -> (netlist: &mut Self)
        ensures
            netlist@ == old(self)@ + components@,
            final(self)@ == final(netlist)@,
    {
        let mut components = components;
        self.components.append(&mut components);
        self
    }

    /// Gets all the components in the netlist in the order they were added.
    pub fn get_components(&self) -> (components: &Vec<Component>)
        ensures
            components@ == self@,
    {
        &self.components
    }

    /// Gets a mutable reference to the components of the netlist, in the
    /// order they were added.
    pub fn get_components_mut(&mut self) -> (components: &mut Vec<Component>)
        ensures
            components@ == old(self)@,
            final(self)@ == final(components)@,
    {
        &mut self.components
    }

    pub fn get_num_nodes(&self) -> (nodes: usize)
        ensures
            nodes == self.num_nodes(),
    {
        let mut nodes: usize = 0;
        let mut i: usize = 0;
        while i < self.components.len()
            invariant
                i <= self.components@.len(),
                nodes == max_node_of(self.components@, i as int),
            decreases self.components@.len() - i,
        {
            let node = self.components[i].max_node();
            if node > nodes {
                nodes = node;
            }
            i += 1;
        }
        nodes
    }
}

impl Default for Netlist {
    fn default() -> (netlist: Self)
        ensures
            netlist@ == Seq::<Component>::empty(),
    {
        Self::new()
    }
}

} // verus!
