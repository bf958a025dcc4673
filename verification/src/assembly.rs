//! The assembly tree of a crate design: numbered components and their children.
//!
//! Every component is a node with a number, a name and a list of children.
//! What a component is and where it sits is the caller's business: the tree
//! carries it along as the node's payload and never looks inside.

use vstd::prelude::*;

verus! {

/// The number of a component in an assembly.
#[derive(Clone, Copy, Debug, PartialEq, Eq, Hash, Structural)]
pub struct ComponentId(pub u32);

/// A component of the assembly.
#[derive(Debug)]
pub struct AssemblyNode<P> {
    /// The component's number.
    pub id: ComponentId,
    /// The component's name.
    pub name: String,
    /// What the caller knows of the component.
    pub payload: P,
    /// The components directly below this one.
    pub children: Vec<ComponentId>,
}

/// What a node holds, as mathematical values.
pub ghost struct NodeView<P> {
    pub id: ComponentId,
    pub name: Seq<char>,
    pub payload: P,
    pub children: Seq<ComponentId>,
}

impl<P> View for AssemblyNode<P> {
    type V = NodeView<P>;

    open spec fn view(&self) -> NodeView<P> {
        NodeView {
            id: self.id,
            name: self.name@,
            payload: self.payload,
            children: self.children@,
        }
    }
}

/// The name of the root component.
pub open spec fn root_name() -> Seq<char> {
    "CrateAssembly"@
}

/// The node that `create_node` appends to `nodes`.
pub open spec fn created_node<P>(nodes: Seq<NodeView<P>>, name: Seq<char>, payload: P) -> NodeView<
    P,
> {
    NodeView { id: ComponentId(nodes.len() as u32), name, payload, children: Seq::empty() }
}

/// `nodes` with `child` appended to the children of `parent`, or as they are
/// when no node has the number `parent`.
pub open spec fn with_child<P>(
    nodes: Seq<NodeView<P>>,
    parent: ComponentId,
    child: ComponentId,
) -> Seq<NodeView<P>> {
    if parent.0 < nodes.len() {
        nodes.update(
            parent.0 as int,
            NodeView {
                children: nodes[parent.0 as int].children.push(child),
                ..nodes[parent.0 as int]
            },
        )
    } else {
        nodes
    }
}

/// Every node's number is its place in `nodes`.
pub open spec fn numbered_by_place<P>(nodes: Seq<NodeView<P>>) -> bool {
    forall|i: int| 0 <= i < nodes.len() ==> (#[trigger] nodes[i]).id == ComponentId(i as u32)
}

/// The complete assembly: the root component and everything created below it.
pub struct CrateAssembly<P> {
    nodes: Vec<AssemblyNode<P>>,
    root_id: ComponentId,
    next_id: u32,
}

impl<P> View for CrateAssembly<P> {
    type V = Seq<NodeView<P>>;

    closed spec fn view(&self) -> Seq<NodeView<P>> {
        self.nodes@.map_values(|node: AssemblyNode<P>| node@)
    }
}

impl<P> CrateAssembly<P> {
    /// The number that the next node gets.
    pub closed spec fn next_id(&self) -> u32 {
        self.next_id
    }

    /// The number of the root.
    pub closed spec fn spec_root_id(&self) -> ComponentId {
        self.root_id
    }

    /// The assembly's invariant: the root is node zero, every node's number
    /// is its place, and the next number is the number of nodes.
    pub open spec fn wf(&self) -> bool {
        &&& self@.len() >= 1
        &&& self@.len() == self.next_id()
        &&& self.spec_root_id() == ComponentId(0)
        &&& numbered_by_place(self@)
    }

    /// An assembly that holds only the root component, named `CrateAssembly`,
    /// with the given payload.
    pub fn new(root_payload: P) -> (assembly: CrateAssembly<P>)
        ensures
            assembly.wf(),
            assembly@ == seq![
                NodeView {
                    id: ComponentId(0),
                    name: root_name(),
                    payload: root_payload,
                    children: Seq::empty(),
                },
            ],
    {
        let root = AssemblyNode {
            id: ComponentId(0),
            name: "CrateAssembly".to_owned(),
            payload: root_payload,
            children: Vec::new(),
        };
        let mut nodes: Vec<AssemblyNode<P>> = Vec::new();
        nodes.push(root);
        let assembly = CrateAssembly { nodes, root_id: ComponentId(0), next_id: 1 };
        assembly
    }

    /// The number of the root component.
    #[verifier::when_used_as_spec(spec_root_id)]
    pub fn root_id(&self) -> (id: ComponentId)
        ensures
            id == self.spec_root_id(),
    {
        self.root_id
    }

    /// The number of nodes.
    pub fn len(&self) -> (n: usize)
        ensures
            n == self@.len(),
    {
        self.nodes.len()
    }

    /// Whether another node can be numbered.
    pub fn has_room(&self) -> (room: bool)
        ensures
            room == (self.next_id() < u32::MAX),
    {
        self.next_id < u32::MAX
    }

    /// Creates a node without children and returns its number, which is the
    /// number of nodes so far.
    pub fn create_node(&mut self, name: String, payload: P) -> (id: ComponentId)
        requires
            old(self).wf(),
            old(self).next_id() < u32::MAX,
        ensures
            final(self).wf(),
            id == ComponentId(old(self)@.len() as u32),
            final(self)@ == old(self)@.push(created_node(old(self)@, name@, payload)),
    {
        let id = ComponentId(self.next_id);
        self.next_id = self.next_id + 1;
        let node = AssemblyNode { id, name, payload, children: Vec::new() };
        self.nodes.push(node);
        assert(self@ =~= old(self)@.push(created_node(old(self)@, name@, payload)));
        id
    }

    /// Appends `child` to the children of `parent`. Nothing is asked of
    /// `child`; when no node has the number `parent`, nothing changes.
    pub fn add_child(&mut self, parent: ComponentId, child: ComponentId)
        requires
            old(self).wf(),
        ensures
            final(self).wf(),
            final(self)@ == with_child(old(self)@, parent, child),
    {
        let at = parent.0 as usize;
        if at < self.nodes.len() {
            self.nodes[at].children.push(child);
        }
        assert(self@ =~= with_child(old(self)@, parent, child));
    }

    /// The node with the number `id`, if there is one.
    pub fn get_node(&self, id: ComponentId) -> (found: Option<&AssemblyNode<P>>)
        requires
            self.wf(),
        ensures
            found is Some <==> id.0 < self@.len(),
            found is Some ==> found->0@ == self@[id.0 as int] && found->0.id == id,
    {
        let at = id.0 as usize;
        if at < self.nodes.len() {
            assert(self@[at as int].id == ComponentId(at as u32));
            Some(&self.nodes[at])
        } else {
            None
        }
    }
}

} // verus!
