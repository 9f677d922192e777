//! The graph of layers: which layer feeds which, and the evaluation of one
//! layer at a time.
//!
//! The layers stand in the order in which they were added, and a layer's
//! place in that order is its index. The edges are kept in a `petgraph` graph
//! without weights, whose node `i` stands for the layer with index `i`.
//! Verus cannot look inside that graph, so what it holds is given by two
//! functions, the number of its nodes and the list of its edges, and every
//! call into `petgraph` goes through a function whose contract is stated over
//! those two and taken on trust.

use petgraph::graph::Graph;
use petgraph::Directed;
use vstd::prelude::*;
use crate::error::{ElementKind, Error};
use crate::layer::{
    conclude,
    cycle,
    erased_all,
    lemma_conclude_is_cycle,
    lemma_mistyped_input_fails,
    lemma_missing_input_fails,
    needs_input,
    same_rules,
    Element,
    ElementRef,
    InteractiveLayer,
    Typed,
};

verus! {

/// `petgraph::graph::Graph`, of which Verus sees no more than that it is a
/// type.
#[verifier::external_type_specification]
#[verifier::external_body]
#[verifier::reject_recursive_types(N)]
#[verifier::reject_recursive_types(E)]
#[verifier::reject_recursive_types(Ty)]
#[verifier::reject_recursive_types(Ix)]
pub struct ExGraph<N, E, Ty, Ix>(Graph<N, E, Ty, Ix>);

/// `petgraph::Directed`, the mark of a graph whose edges have a direction.
#[verifier::external_type_specification]
#[verifier::external_body]
pub struct ExDirected(Directed);

/// The number of nodes of a wiring graph. Its nodes are numbered from 0 in the
/// order in which they were added.
pub uninterp spec fn wired_nodes(wiring: Graph<(), (), Directed, u32>) -> nat;

/// The edges of a wiring graph in the order in which they were added, each as
/// the pair of the node it leaves and the node it enters.
pub uninterp spec fn wired_edges(wiring: Graph<(), (), Directed, u32>) -> Seq<(usize, usize)>;

/// The nodes from which the edges into `node` come, one for each such edge, in
/// the order in which those edges stand in `edges`.
pub open spec fn incoming(edges: Seq<(usize, usize)>, node: usize) -> Seq<usize>
    decreases edges.len(),
{
    if edges.len() == 0 {
        Seq::empty()
    } else if edges.last().1 == node {
        incoming(edges.drop_last(), node).push(edges.last().0)
    } else {
        incoming(edges.drop_last(), node)
    }
}

/// The edges into a node keep their order when edges are added behind: the
/// nodes that come in over `first + second` are those that come in over
/// `first`, then those that come in over `second`.
pub proof fn lemma_incoming_append(first: Seq<(usize, usize)>, second: Seq<(usize, usize)>, node: usize)
    ensures
        incoming(first + second, node) == incoming(first, node) + incoming(second, node),
    decreases second.len(),
{
    if second.len() > 0 {
        lemma_incoming_append(first, second.drop_last(), node);
        assert((first + second).drop_last() == first + second.drop_last());
    }
}

/// Only an edge that enters a node brings something in: where no edge of
/// `edges` enters `node`, nothing comes in.
pub proof fn lemma_incoming_none(edges: Seq<(usize, usize)>, node: usize)
    requires
        forall|i: int| 0 <= i < edges.len() ==> (#[trigger] edges[i]).1 != node,
    ensures
        incoming(edges, node) == Seq::<usize>::empty(),
    decreases edges.len(),
{
    if edges.len() > 0 {
        lemma_incoming_none(edges.drop_last(), node);
    }
}

/// Where every edge of `edges` enters `node`, what comes in is the node that
/// each edge comes from, edge by edge.
pub proof fn lemma_incoming_all(edges: Seq<(usize, usize)>, node: usize)
    requires
        forall|i: int| 0 <= i < edges.len() ==> (#[trigger] edges[i]).1 == node,
    ensures
        incoming(edges, node) == edges.map_values(|edge: (usize, usize)| edge.0),
    decreases edges.len(),
{
    if edges.len() > 0 {
        lemma_incoming_all(edges.drop_last(), node);
    }
}

/// What comes in over edges is where edges come from: where every edge of
/// `edges` leaves a node below `bound`, every node that comes in is below
/// `bound`.
pub proof fn lemma_incoming_bounded(edges: Seq<(usize, usize)>, node: usize, bound: nat)
    requires
        forall|i: int| 0 <= i < edges.len() ==> (#[trigger] edges[i]).0 < bound,
    ensures
        forall|j: int|
            0 <= j < incoming(edges, node).len() ==> (#[trigger] incoming(edges, node)[j]) < bound,
    decreases edges.len(),
{
    if edges.len() > 0 {
        lemma_incoming_bounded(edges.drop_last(), node, bound);
        let rest = incoming(edges.drop_last(), node);
        assert forall|j: int| 0 <= j < incoming(edges, node).len() implies (#[trigger] incoming(
            edges,
            node,
        )[j]) < bound by {
            if j < rest.len() {
                assert(incoming(edges, node)[j] == rest[j]);
            }
        }
    }
}

/// `Graph::new`. The contract claims that the new graph has no nodes and no
/// edges.
#[verifier::external_body]
fn wiring_new() -> (wiring: Graph<(), (), Directed, u32>)
    ensures
        wired_nodes(wiring) == 0,
        wired_edges(wiring) == Seq::<(usize, usize)>::empty(),
{
    Graph::new()
}

/// `Graph::add_node`. The contract claims that the call adds one node, whose
/// index is the number of nodes before, and leaves the edges as they were. A
/// graph with `u32::MAX` nodes is full, and the call would panic.
#[verifier::external_body]
fn wiring_add_node(wiring: &mut Graph<(), (), Directed, u32>) -> (index: usize)
    requires
        wired_nodes(*old(wiring)) < u32::MAX,
    ensures
        index == wired_nodes(*old(wiring)),
        wired_nodes(*final(wiring)) == wired_nodes(*old(wiring)) + 1,
        wired_edges(*final(wiring)) == wired_edges(*old(wiring)),
{
    wiring.add_node(()).index()
}

/// `Graph::add_edge`. The contract claims that the call adds the edge from
/// `from` to `to` behind the edges that are there, and leaves the nodes as
/// they were. With a node that does not exist, or in a graph with `u32::MAX`
/// edges, the call would panic.
#[verifier::external_body]
fn wiring_add_edge(wiring: &mut Graph<(), (), Directed, u32>, from: usize, to: usize)
    requires
        from < wired_nodes(*old(wiring)),
        to < wired_nodes(*old(wiring)),
        wired_edges(*old(wiring)).len() < u32::MAX,
    ensures
        wired_nodes(*final(wiring)) == wired_nodes(*old(wiring)),
        wired_edges(*final(wiring)) == wired_edges(*old(wiring)).push((from, to)),
{
    wiring.add_edge(petgraph::graph::NodeIndex::new(from), petgraph::graph::NodeIndex::new(to), ());
}

/// `Graph::edge_count`. The contract claims that the call returns the number
/// of edges.
#[verifier::external_body]
fn wiring_edge_count(wiring: &Graph<(), (), Directed, u32>) -> (count: usize)
    ensures
        count == wired_edges(*wiring).len(),
{
    wiring.edge_count()
}

/// `Graph::neighbors_directed` with `Direction::Incoming`, collected. The
/// contract claims that the call lists, for each edge into `node`, the node
/// that the edge comes from, and lists them in the reverse of the order in
/// which the edges were added: the most recent edge first.
#[verifier::external_body]
fn wiring_incoming(wiring: &Graph<(), (), Directed, u32>, node: usize) -> (newest_first: Vec<usize>)
    requires
        node < wired_nodes(*wiring),
    ensures
        newest_first@ == incoming(wired_edges(*wiring), node).reverse(),
{
    wiring.neighbors_directed(petgraph::graph::NodeIndex::new(node), petgraph::Direction::Incoming)
        .map(|parent| parent.index())
        .collect()
}

/// The edges that wiring a new node adds: one from each parent to the node, in
/// the order of `parents`, then one from the node to each child, in the order
/// of `children`.
pub open spec fn new_edges(node: usize, parents: Seq<usize>, children: Seq<usize>) -> Seq<(usize, usize)> {
    parents.map_values(|parent: usize| (parent, node)) + children.map_values(
        |child: usize| (node, child),
    )
}

/// A directed graph of layers.
pub struct InteractiveLayerGraph<L: InteractiveLayer> {
    layers: Vec<L>,
    wiring: Graph<(), (), Directed, u32>,
    selected_layer: usize,
}

impl<L: InteractiveLayer> InteractiveLayerGraph<L> {
    /// The layers, each at its index.
    pub closed spec fn layers(&self) -> Seq<L> {
        self.layers@
    }

    /// The edges in the order in which they were added, each as the pair of
    /// the index of the parent and the index of the child.
    pub closed spec fn edges(&self) -> Seq<(usize, usize)> {
        wired_edges(self.wiring)
    }

    /// The index of the layer that the host has in focus.
    pub closed spec fn selected(&self) -> usize {
        self.selected_layer
    }

    /// The invariant of the graph: the wiring has one node for each layer,
    /// and every edge joins two layers of the graph.
    pub closed spec fn wf(&self) -> bool {
        &&& wired_nodes(self.wiring) == self.layers@.len()
        &&& forall|i: int|
            0 <= i < wired_edges(self.wiring).len() ==> {
                &&& (#[trigger] wired_edges(self.wiring)[i]).0 < self.layers@.len()
                &&& wired_edges(self.wiring)[i].1 < self.layers@.len()
            }
    }

    /// The parents of a layer: for each edge into it the index of the layer
    /// that the edge comes from, in the order in which the edges were added.
    pub open spec fn parents(&self, layer: usize) -> Seq<usize> {
        incoming(self.edges(), layer)
    }

    /// Whether `inputs` are the inputs of a layer: one for each of its
    /// parents, in the order of `parents`, each being what the cached slot of
    /// that parent holds.
    pub open spec fn gathers(&self, layer: usize, inputs: Seq<Option<Element>>) -> bool {
        &&& inputs.len() == self.parents(layer).len()
        &&& forall|slot: int|
            0 <= slot < inputs.len() ==> self.layers()[self.parents(layer)[slot] as int].holds(
                #[trigger] inputs[slot],
            )
    }

    /// Whether evaluating a layer may take the graph from the state `self` to
    /// the state `after` and end with `result`.
    ///
    /// The edges, the selection and every other layer stay as they are. The
    /// layer itself goes through one evaluation cycle on its inputs and
    /// keeps its rules.
    pub open spec fn evaluates(&self, layer: usize, result: Result<(), Error>, after: Self) -> bool {
        &&& after.wf()
        &&& after.edges() == self.edges()
        &&& after.selected() == self.selected()
        &&& after.layers().len() == self.layers().len()
        &&& forall|other: int|
            0 <= other < self.layers().len() && other != layer ==> after.layers()[other]
                == self.layers()[other]
        &&& same_rules(&self.layers()[layer as int], &after.layers()[layer as int])
        &&& exists|inputs: Seq<Option<Element>>|
            {
                &&& #[trigger] self.gathers(layer, inputs)
                &&& cycle(
                    self.layers()[layer as int],
                    inputs,
                    result,
                    after.layers()[layer as int],
                )
            }
    }

    /// Evaluating a layer before its parent leaves the graph as it was: where
    /// a layer works on a single input, and it has no parent or its first
    /// parent holds nothing, its evaluation fails with `MissingInput` for
    /// edge 0 and no layer changes.
    pub proof fn lemma_evaluation_before_parent<A: Typed>(
        self,
        layer: usize,
        result: Result<(), Error>,
        after: Self,
    )
        requires
            layer < self.layers().len(),
            self.evaluates(layer, result, after),
            needs_input::<L, A>(self.layers()[layer as int]),
            self.parents(layer).len() > 0 ==> forall|value: Option<Element>| #[trigger]
                self.layers()[self.parents(layer)[0] as int].holds(value) ==> value is None,
        ensures
            result == Err::<(), Error>(Error::MissingInput { edge: 0 }),
            after.layers() == self.layers(),
    {
        let inputs = choose|inputs: Seq<Option<Element>>| #[trigger]
            self.gathers(layer, inputs) && cycle(
                self.layers()[layer as int],
                inputs,
                result,
                after.layers()[layer as int],
            );
        lemma_missing_input_fails::<L, A>(
            self.layers()[layer as int],
            inputs,
            result,
            after.layers()[layer as int],
        );
    }

    /// Evaluating a layer behind a parent of the wrong type leaves the graph
    /// as it was: where a layer works on a single input of type `A`, and its
    /// first parent holds only elements of one other kind, its evaluation
    /// fails with `TypeMismatch` at edge 0, naming the kind of `A` as expected
    /// and the parent's kind as found, and no layer changes.
    pub proof fn lemma_evaluation_behind_other_type<A: Typed>(
        self,
        layer: usize,
        found: ElementKind,
        result: Result<(), Error>,
        after: Self,
    )
        requires
            layer < self.layers().len(),
            self.evaluates(layer, result, after),
            needs_input::<L, A>(self.layers()[layer as int]),
            found != A::type_kind(),
            self.parents(layer).len() > 0,
            forall|value: Option<Element>| #[trigger]
                self.layers()[self.parents(layer)[0] as int].holds(value) ==> value is Some
                    && value->Some_0.kind() == found,
        ensures
            result == Err::<(), Error>(
                Error::TypeMismatch { expected: A::type_kind(), found, at_edge: Some(0usize) },
            ),
            after.layers() == self.layers(),
    {
        let inputs = choose|inputs: Seq<Option<Element>>| #[trigger]
            self.gathers(layer, inputs) && cycle(
                self.layers()[layer as int],
                inputs,
                result,
                after.layers()[layer as int],
            );
        lemma_mistyped_input_fails::<L, A>(
            self.layers()[layer as int],
            inputs,
            result,
            after.layers()[layer as int],
        );
    }

    /// An empty graph.
    pub fn new() -> (graph: Self)
        ensures
            graph.wf(),
            graph.layers().len() == 0,
            graph.edges().len() == 0,
            graph.selected() == 0,
    {
        InteractiveLayerGraph { layers: Vec::new(), wiring: wiring_new(), selected_layer: 0 }
    }

    /// Adds `layer` to the graph and returns its index, which is the number
    /// of layers that were there. Then adds an edge from each of
    /// `parent_nodes` to the new layer, and an edge from the new layer to each
    /// of `child_nodes`, in that order.
    ///
    /// A parent or child must be a layer of the graph, the new one included,
    /// and the graph must have room for the layer and the edges.
    pub fn add_layer_with_children(&mut self, layer: L, parent_nodes: Vec<usize>, child_nodes: Vec<usize>) -> (index: usize)
        requires
            old(self).wf(),
            old(self).layers().len() < u32::MAX,
            old(self).edges().len() + parent_nodes@.len() + child_nodes@.len() <= u32::MAX,
            forall|i: int|
                0 <= i < parent_nodes@.len() ==> parent_nodes@[i] <= old(self).layers().len(),
            forall|i: int| 0 <= i < child_nodes@.len() ==> child_nodes@[i] <= old(self).layers().len(),
        ensures
            final(self).wf(),
            index == old(self).layers().len(),
            final(self).layers() == old(self).layers().push(layer),
            final(self).edges() == old(self).edges() + new_edges(
                index,
                parent_nodes@,
                child_nodes@,
            ),
            final(self).selected() == old(self).selected(),
    {
        let ghost before = wired_edges(self.wiring);
        let ghost layers = self.layers@.push(layer);
        let ghost selected = self.selected_layer;
        let index = wiring_add_node(&mut self.wiring);
        self.layers.push(layer);
        let ghost to_node = parent_nodes@.map_values(|parent: usize| (parent, index));
        let ghost from_node = child_nodes@.map_values(|child: usize| (index, child));
        let mut i: usize = 0;
        while i < parent_nodes.len()
            invariant
                i <= parent_nodes.len(),
                wired_nodes(self.wiring) == index + 1,
                self.layers@ == layers,
                self.selected_layer == selected,
                wired_edges(self.wiring) == before + to_node.take(i as int),
                before.len() + parent_nodes@.len() + child_nodes@.len() <= u32::MAX,
                to_node == parent_nodes@.map_values(|parent: usize| (parent, index)),
                forall|i: int| 0 <= i < parent_nodes@.len() ==> parent_nodes@[i] <= index,
            decreases parent_nodes.len() - i,
        {
            wiring_add_edge(&mut self.wiring, parent_nodes[i], index);
            i += 1;
        }
        let mut j: usize = 0;
        while j < child_nodes.len()
            invariant
                j <= child_nodes.len(),
                wired_nodes(self.wiring) == index + 1,
                self.layers@ == layers,
                self.selected_layer == selected,
                wired_edges(self.wiring) == before + to_node + from_node.take(j as int),
                before.len() + parent_nodes@.len() + child_nodes@.len() <= u32::MAX,
                to_node.len() == parent_nodes@.len(),
                from_node == child_nodes@.map_values(|child: usize| (index, child)),
                forall|i: int| 0 <= i < child_nodes@.len() ==> child_nodes@[i] <= index,
            decreases child_nodes.len() - j,
        {
            wiring_add_edge(&mut self.wiring, index, child_nodes[j]);
            j += 1;
        }
        index
    }

    /// Adds `layer` to the graph and returns its index, which is the number
    /// of layers that were there. Then adds an edge from each of
    /// `parent_nodes` to the new layer, in that order: these are the parents
    /// of the new layer, and the order of its inputs. The parents of the other
    /// layers stay as they were.
    ///
    /// A parent must be a layer of the graph, the new one included, and the
    /// graph must have room for the layer and the edges.
    pub fn add_layer(&mut self, layer: L, parent_nodes: Vec<usize>) -> (index: usize)
        requires
            old(self).wf(),
            old(self).layers().len() < u32::MAX,
            old(self).edges().len() + parent_nodes@.len() <= u32::MAX,
            forall|i: int|
                0 <= i < parent_nodes@.len() ==> parent_nodes@[i] <= old(self).layers().len(),
        ensures
            final(self).wf(),
            index == old(self).layers().len(),
            final(self).layers() == old(self).layers().push(layer),
            final(self).edges() == old(self).edges() + new_edges(
                index,
                parent_nodes@,
                Seq::<usize>::empty(),
            ),
            final(self).selected() == old(self).selected(),
            final(self).parents(index) == parent_nodes@,
            forall|other: usize|
                other < index ==> final(self).parents(other) == old(self).parents(other),
    {
        let index = self.add_layer_with_children(layer, parent_nodes, Vec::new());
        proof {
            let added = new_edges(index, parent_nodes@, Seq::<usize>::empty());
            lemma_incoming_none(old(self).edges(), index);
            lemma_incoming_all(added, index);
            lemma_incoming_append(old(self).edges(), added, index);
            assert forall|other: usize| other < index implies self.parents(other) == old(
                self,
            ).parents(other) by {
                lemma_incoming_none(added, other);
                lemma_incoming_append(old(self).edges(), added, other);
            }
        }
        index
    }

    /// Evaluates one layer: gathers what the cached slots of its parents
    /// hold, in the order in which the edges from them were added, has the
    /// layer compute on that, and on success has it commit what it computed.
    ///
    /// Fails with the failure of the layer, and then every cached slot holds
    /// what it held before. Nothing but the cached slot of the evaluated
    /// layer ever changes.
    pub fn compute_layer(&mut self, layer: usize) -> (result: Result<(), Error>)
        requires
            old(self).wf(),
            layer < old(self).layers().len(),
        ensures
            old(self).evaluates(layer, result, *final(self)),
    {
        let newest_first = wiring_incoming(&self.wiring, layer);
        let ghost parents = incoming(wired_edges(self.wiring), layer);
        proof {
            lemma_incoming_bounded(wired_edges(self.wiring), layer, self.layers@.len());
        }
        let count = newest_first.len();
        let mut input: Vec<Option<ElementRef<'_>>> = Vec::new();
        let mut taken: usize = 0;
        while taken < count
            invariant
                taken <= count,
                count == newest_first@.len(),
                newest_first@ == parents.reverse(),
                forall|j: int| 0 <= j < parents.len() ==> (#[trigger] parents[j]) < self.layers@.len(),
                input@.len() == taken,
                forall|j: int|
                    0 <= j < taken ==> self.layers@[parents[j] as int].holds(
                        #[trigger] erased_all(input@)[j],
                    ),
            decreases count - taken,
        {
            let parent = newest_first[count - 1 - taken];
            let shared = self.layers[parent].output();
            let ghost gathered = input@;
            input.push(shared);
            assert forall|j: int| 0 <= j <= taken implies self.layers@[parents[j] as int].holds(
                #[trigger] erased_all(input@)[j],
            ) by {
                if j < taken {
                    assert(erased_all(input@)[j] == erased_all(gathered)[j]);
                }
            }
            taken += 1;
        }
        let ghost inputs = erased_all(input@);
        assert(self.gathers(layer, inputs));
        let computed = self.layers[layer].compute(input.as_slice());
        let result = conclude(&mut self.layers[layer], computed);
        proof {
            lemma_conclude_is_cycle(
                old(self).layers()[layer as int],
                inputs,
                computed,
                result,
                self.layers()[layer as int],
            );
        }
        result
    }

    /// The number of layers.
    pub fn len(&self) -> (len: usize)
        ensures
            len == self.layers().len(),
    {
        self.layers.len()
    }

    /// The number of edges.
    pub fn edge_count(&self) -> (count: usize)
        ensures
            count == self.edges().len(),
    {
        wiring_edge_count(&self.wiring)
    }

    /// The layer with the given index.
    pub fn layer(&self, index: usize) -> (layer: &L)
        requires
            index < self.layers().len(),
        ensures
            *layer == self.layers()[index as int],
    {
        &self.layers[index]
    }

    /// The index of the layer that the host has in focus.
    pub fn selected_layer(&self) -> (index: usize)
        ensures
            index == self.selected(),
    {
        self.selected_layer
    }

    /// Puts the layer with the given index in the host's focus. This has no
    /// effect on any evaluation.
    pub fn select_layer(&mut self, index: usize)
        ensures
            final(self).selected() == index,
            final(self).layers() == old(self).layers(),
            final(self).edges() == old(self).edges(),
            final(self).wf() == old(self).wf(),
    {
        self.selected_layer = index;
    }
}

impl<L: InteractiveLayer> Default for InteractiveLayerGraph<L> {
    fn default() -> (graph: Self)
        ensures
            graph.wf(),
            graph.layers().len() == 0,
            graph.edges().len() == 0,
            graph.selected() == 0,
    {
        Self::new()
    }
}

} // verus!
