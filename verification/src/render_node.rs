//! The render graph: an ordered sequence of render nodes chained through a
//! ping/pong pair of offscreen targets, with the last node writing to the
//! presentation surface.

use vstd::prelude::*;

use crate::base_node::BaseNode;
use crate::fract_node::FractNode;
use crate::gpu;
use crate::texture::FrameTarget;

verus! {

/// A surface a node's render pass can write into: one of the two offscreen
/// targets of the graph's ping/pong pair, or the presentation surface handed
/// in fresh each frame.
#[derive(Clone, Copy, Debug, PartialEq, Eq, Structural)]
pub enum Target {
    Ping,
    Pong,
    Screen,
}

/// The target the node at position `i` of a graph of `n` nodes writes: the
/// last node writes the presentation surface, every other node writes the
/// offscreen target of its own parity.
pub open spec fn resolved_target(i: int, n: int) -> Target {
    if i == n - 1 {
        Target::Screen
    } else if i % 2 == 0 {
        Target::Ping
    } else {
        Target::Pong
    }
}

/// The offscreen target at a given ping/pong slot.
pub open spec fn offscreen_target(slot: int) -> Target {
    if slot % 2 == 0 {
        Target::Ping
    } else {
        Target::Pong
    }
}

/// Resolves the output target for the node at `idx` in a graph of `len` nodes.
pub fn resolve_target(idx: usize, len: usize) -> (t: Target)
    requires
        1 <= len,
        idx < len,
    ensures
        t == resolved_target(idx as int, len as int),
{
    if idx == len - 1 {
        Target::Screen
    } else if idx % 2 == 0 {
        Target::Ping
    } else {
        Target::Pong
    }
}

/// The ping/pong slot a node appended to a graph of `len` nodes is wired to
/// read: the slot the previously last node most recently wrote.
pub fn wire_source(len: usize) -> (slot: usize)
    requires
        1 <= len,
    ensures
        slot == (len - 1) % 2,
        slot < 2,
{
    (len - 1) % 2
}

/// One unit of GPU work in the graph: a closed set of node variants, each
/// carrying its own pipeline state.
pub enum RenderNode {
    Base(BaseNode),
    Fract(FractNode),
}

impl RenderNode {
    /// Whether this node variant reads a bound input texture.
    pub open spec fn needs_input(&self) -> bool {
        self is Fract
    }

    /// The ping/pong slot of the node's bound input texture, if the node
    /// takes an input and one has been bound.
    pub open spec fn input_slot(&self) -> Option<int> {
        match self {
            RenderNode::Base(_) => Option::None,
            RenderNode::Fract(f) => f.source_slot(),
        }
    }

    /// Whether executing the node issues its render pass: a node requiring an
    /// input that was never bound is skipped.
    pub open spec fn ready(&self) -> bool {
        match self {
            RenderNode::Base(_) => true,
            RenderNode::Fract(f) => f.is_bound(),
        }
    }

    /// Issues the node's render pass into `output` and submits it to `queue`,
    /// unless the node requires an input that has not been bound, in which
    /// case nothing is submitted.
    pub fn process(&self, device: &wgpu::Device, output: &wgpu::TextureView, queue: &wgpu::Queue) -> (submitted: bool)
        ensures
            submitted == self.ready(),
    {
        match self {
            RenderNode::Base(n) => {
                n.process(device, output, queue);
                true
            }
            RenderNode::Fract(n) => n.process(device, output, queue),
        }
    }

    /// Binds `texture` as the node's sole read input. On a variant that takes
    /// no input this does nothing. An input is bound at most once, before the
    /// node's first execution.
    pub fn set_bind_group(&mut self, device: &wgpu::Device, texture: &FrameTarget)
        requires
            old(self).input_slot() is None,
        ensures
            final(self).needs_input() == old(self).needs_input(),
            old(self).needs_input() ==> final(self).input_slot() == Option::Some(texture.slot as int),
            !old(self).needs_input() ==> *final(self) == *old(self),
            final(self).ready() == (old(self).ready() || old(self).needs_input()),
    {
        match self {
            RenderNode::Base(_) => {}
            RenderNode::Fract(f) => f.set_bind_group(device, texture),
        }
    }
}

/// The record of one node's execution during a traversal: the target the
/// graph resolved for it and whether its pass was submitted.
#[derive(Clone, Copy, Debug, PartialEq, Eq, Structural)]
pub struct NodeRun {
    pub target: Target,
    pub submitted: bool,
}

/// An ordered, append-only collection of render nodes plus the two reusable
/// offscreen frame targets their outputs are chained through.
pub struct RenderGraph {
    nodes: Vec<RenderNode>,
    textures: [FrameTarget; 2],
}

impl RenderGraph {
    /// The graph's node sequence, in insertion order, which is execution
    /// order.
    pub closed spec fn nodes_seq(&self) -> Seq<RenderNode> {
        self.nodes@
    }

    pub open spec fn len_spec(&self) -> int {
        self.nodes_seq().len() as int
    }

    /// The ping/pong pair is stored in slot order.
    pub closed spec fn tex_wf(&self) -> bool {
        self.textures[0].slot == 0 && self.textures[1].slot == 1
    }

    /// Every node that holds a bound input reads the ping/pong slot of the
    /// node immediately before it: slot `(i - 1) % 2` for the node at `i`.
    pub closed spec fn wiring_wf(&self) -> bool {
        forall|i: int|
            0 <= i < self.nodes_seq().len() ==> (#[trigger] self.nodes_seq()[i].input_slot() matches Option::Some(s)
                ==> i >= 1 && s == (i - 1) % 2)
    }

    /// A well-formed graph: the ping/pong pair in slot order, at least the
    /// default node present, and every bound input wired by the parity rule.
    pub open spec fn wf(&self) -> bool {
        self.tex_wf() && self.wiring_wf() && self.len_spec() >= 1
    }

    /// Builds a graph holding the ping/pong pair sized to the surface's
    /// current dimensions, and exactly the default node, which has no input.
    pub fn new(
        device: &wgpu::Device,
        config: &wgpu::SurfaceConfiguration,
        system_buffer: &wgpu::Buffer,
    ) -> (graph: RenderGraph)
        ensures
            graph.wf(),
            graph.len_spec() == 1,
            !graph.nodes_seq()[0].needs_input(),
            graph.nodes_seq()[0].ready(),
    {
        let base_node = BaseNode::new(device, config, system_buffer);
        let mut graph = RenderGraph {
            textures: [
                FrameTarget::create_2d_texture(device, config, 0, "ping_texture"),
                FrameTarget::create_2d_texture(device, config, 1, "pong_texture"),
            ],
            nodes: Vec::new(),
        };
        graph.add_node(device, RenderNode::Base(base_node), false);
        graph
    }

    /// Appends `node` after all current nodes. With `set_bg` the node is
    /// first wired to read the offscreen target the previously last node most
    /// recently wrote: slot `(len - 1) % 2` for the length before the append.
    pub fn add_node(&mut self, device: &wgpu::Device, node: RenderNode, set_bg: bool)
        requires
            old(self).tex_wf(),
            old(self).wiring_wf(),
            set_bg ==> old(self).len_spec() >= 1,
            node.input_slot() is None,
        ensures
            final(self).tex_wf(),
            final(self).wiring_wf(),
            final(self).len_spec() == old(self).len_spec() + 1,
            forall|i: int| 0 <= i < old(self).len_spec()
                ==> final(self).nodes_seq()[i] == old(self).nodes_seq()[i],
            final(self).nodes_seq().last().needs_input() == node.needs_input(),
            final(self).nodes_seq().last().input_slot() == (if set_bg && node.needs_input() {
                Option::Some((old(self).len_spec() - 1) % 2)
            } else {
                Option::<int>::None
            }),
            final(self).nodes_seq().last().ready() == (node.ready() || (set_bg && node.needs_input())),
            old(self).len_spec() >= 1 ==> final(self).wf(),
    {
        let mut node = node;
        if set_bg {
            let len = self.nodes.len();
            let slot = wire_source(len);
            node.set_bind_group(device, &self.textures[slot]);
        }
        self.nodes.push(node);
    }

    /// Drives every node in insertion order: the node at `i` writes the
    /// offscreen target of parity `i % 2`, except the last node, which writes
    /// the presentation target `output`. Nodes whose required input is
    /// unbound submit nothing. Returns the record of the traversal.
    pub fn process(&self, device: &wgpu::Device, output: &wgpu::TextureView, queue: &wgpu::Queue) -> (runs: Vec<NodeRun>)
        ensures
            runs@.len() == self.nodes_seq().len(),
            forall|i: int| 0 <= i < runs@.len()
                ==> (#[trigger] runs@[i]).target == resolved_target(i, self.len_spec()),
            forall|i: int| 0 <= i < runs@.len()
                ==> (#[trigger] runs@[i]).submitted == self.nodes_seq()[i].ready(),
    {
        let len = self.nodes.len();
        let mut runs: Vec<NodeRun> = Vec::new();
        let mut idx: usize = 0;
        while idx < len
            invariant
                idx <= len,
                len == self.nodes_seq().len(),
                runs@.len() == idx as int,
                forall|j: int| 0 <= j < idx as int
                    ==> (#[trigger] runs@[j]).target == resolved_target(j, len as int),
                forall|j: int| 0 <= j < idx as int
                    ==> (#[trigger] runs@[j]).submitted == self.nodes_seq()[j].ready(),
            decreases len - idx,
        {
            let target = resolve_target(idx, len);
            let out: &wgpu::TextureView = match target {
                Target::Screen => output,
                Target::Ping => &self.textures[0].view,
                Target::Pong => &self.textures[1].view,
            };
            let submitted = self.nodes[idx].process(device, out, queue);
            runs.push(NodeRun { target, submitted });
            idx = idx + 1;
        }
        runs
    }
}

/// A graph holding only the default node resolves that node's target to the
/// presentation surface, never to a ping/pong texture.
pub proof fn lemma_single_node_writes_screen()
    ensures
        resolved_target(0, 1) == Target::Screen,
{
}

/// Appending a node never disturbs the targets of settled nodes: in a graph
/// grown from `n` to `n + 1` nodes, every node before the formerly last one
/// keeps its offscreen target. Only the formerly last node changes, from the
/// screen to the offscreen target of its parity.
pub proof fn lemma_append_keeps_prior_targets(i: int, n: int)
    requires
        0 <= i < n - 1,
    ensures
        resolved_target(i, n) == resolved_target(i, n + 1),
        resolved_target(n - 1, n) == Target::Screen,
        resolved_target(n - 1, n + 1) == offscreen_target((n - 1) % 2),
{
}

/// A node wired at append time reads exactly the offscreen target that the
/// node immediately before it writes once the graph has grown past it: for a
/// well-formed graph of `n` nodes, the bound input slot `s` of the node at
/// `i` satisfies `offscreen_target(s) == resolved_target(i - 1, n)`.
pub proof fn lemma_wired_input_matches_previous_target(graph: &RenderGraph, i: int, s: int)
    requires
        graph.wf(),
        0 <= i < graph.len_spec(),
        graph.nodes_seq()[i].input_slot() == Option::Some(s),
    ensures
        1 <= i,
        offscreen_target(s) == resolved_target(i - 1, graph.len_spec()),
{
}

} // verus!
