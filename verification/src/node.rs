//! Scene nodes and the two passes that keep their poses in step with the
//! host's transforms.
//!
//! Each node carries two change marks. The local pass converts the poses
//! marked as changed into the host's local transforms; the host then
//! recomputes its global transforms; the global pass reads the global
//! transforms marked as changed back into global poses. Neither pass walks
//! the hierarchy.

use vstd::prelude::*;
use crate::global::Decomposition;
use crate::global::GlobalTransform2;
use crate::global::lemma_round_trip;
use crate::transform2::LocalTransform;
use crate::transform2::Transform2;
use crate::vector::Vec2;

verus! {

/// The host's spatial slots of a node: its local transform and the parts of
/// its global transform.
#[derive(Clone, Copy, Debug)]
pub struct SpatialBundle {
    pub transform: LocalTransform,
    pub global_transform: Decomposition,
}

impl Default for SpatialBundle {
    /// Both slots at the identity.
    fn default() -> (b: SpatialBundle)
        ensures
            b == (SpatialBundle {
                transform: LocalTransform::identity(),
                global_transform: Decomposition::identity(),
            }),
    {
        SpatialBundle {
            transform: LocalTransform::identity(),
            global_transform: Decomposition::identity(),
        }
    }
}

/// A pose together with the host's spatial slots: what a node that is placed
/// in the plane starts with.
#[derive(Clone, Copy, Debug)]
pub struct SpatialBundle2 {
    pub transform2: Transform2,
    pub spatial_bundle: SpatialBundle,
}

impl SpatialBundle2 {
    pub open spec fn spec_from_translation(translation: Vec2) -> SpatialBundle2 {
        SpatialBundle2 {
            transform2: Transform2::from_translation(translation),
            spatial_bundle: SpatialBundle {
                transform: LocalTransform::identity(),
                global_transform: Decomposition::identity(),
            },
        }
    }

    /// The bundle of a node moved by `translation`; the host's slots start
    /// at the identity and are filled by the first cycle.
    #[verifier::when_used_as_spec(spec_from_translation)]
    pub fn from_translation(translation: Vec2) -> (b: SpatialBundle2)
        ensures
            b == SpatialBundle2::spec_from_translation(translation),
    {
        SpatialBundle2 {
            transform2: Transform2::from_translation(translation),
            spatial_bundle: SpatialBundle::default(),
        }
    }
}

impl Default for SpatialBundle2 {
    /// The identity pose over identity slots.
    fn default() -> (b: SpatialBundle2)
        ensures
            b.transform2 == Transform2::identity(),
            b == SpatialBundle2::spec_from_translation(Vec2::zero()),
    {
        SpatialBundle2 { transform2: Transform2::identity(), spatial_bundle: SpatialBundle::default() }
    }
}

/// A scene node: the components that the two passes read and write, each of
/// which may be missing, and the two change marks.
#[derive(Clone, Copy, Debug)]
pub struct Node {
    /// The pose that the application authors.
    pub transform2: Option<Transform2>,
    /// Set when the pose was written since the last local pass.
    pub transform2_changed: bool,
    /// The host's local transform.
    pub transform: Option<LocalTransform>,
    /// The parts of the host's global transform.
    pub global_transform: Option<Decomposition>,
    /// Set when the host wrote its global transform since the last global
    /// pass.
    pub global_transform_changed: bool,
    /// The global pose, written by the global pass alone.
    pub global_transform2: Option<GlobalTransform2>,
}

impl Node {
    /// Whether the local pass writes this node: its pose changed, and it has
    /// both a pose and a local transform.
    pub open spec fn local_due(self) -> bool {
        self.transform2_changed && self.transform2.is_some() && self.transform.is_some()
    }

    /// Whether the global pass writes this node: its global transform
    /// changed, and it has both a global transform and a global pose.
    pub open spec fn global_due(self) -> bool {
        self.global_transform_changed && self.global_transform.is_some()
            && self.global_transform2.is_some()
    }

    /// This node after the local pass.
    pub open spec fn local_synced(self) -> Node {
        Node {
            transform: if self.local_due() {
                Some(self.transform2.unwrap().to_local())
            } else {
                self.transform
            },
            transform2_changed: false,
            ..self
        }
    }

    /// This node after the global pass.
    pub open spec fn global_synced(self) -> Node {
        Node {
            global_transform2: if self.global_due() {
                Some(GlobalTransform2::holding(self.global_transform.unwrap().pose()))
            } else {
                self.global_transform2
            },
            global_transform_changed: false,
            ..self
        }
    }

    /// Whether the global pose is in step with the host: where the node has
    /// both a global transform and a global pose, either the global
    /// transform is marked as changed, or the global pose is the one read
    /// from it.
    pub open spec fn in_step(self) -> bool {
        self.global_transform.is_some() && self.global_transform2.is_some()
            ==> self.global_transform_changed || self.global_transform2.unwrap()
            == GlobalTransform2::holding(self.global_transform.unwrap().pose())
    }

    pub open spec fn spec_spawn(bundle: SpatialBundle2, with_global: bool) -> Node {
        Node {
            transform2: Some(bundle.transform2),
            transform2_changed: true,
            transform: Some(bundle.spatial_bundle.transform),
            global_transform: Some(bundle.spatial_bundle.global_transform),
            global_transform_changed: true,
            global_transform2: if with_global {
                Some(GlobalTransform2::holding(Transform2::identity()))
            } else {
                None
            },
        }
    }

    /// A new node with the bundle's components, all marked as changed. A
    /// node `with_global` also gets a global pose, which starts at the identity.
    #[verifier::when_used_as_spec(spec_spawn)]
    pub fn spawn(bundle: SpatialBundle2, with_global: bool) -> (node: Node)
        ensures
            node == Node::spec_spawn(bundle, with_global),
    {
        Node {
            transform2: Some(bundle.transform2),
            transform2_changed: true,
            transform: Some(bundle.spatial_bundle.transform),
            global_transform: Some(bundle.spatial_bundle.global_transform),
            global_transform_changed: true,
            global_transform2: if with_global {
                Some(GlobalTransform2::default())
            } else {
                None
            },
        }
    }

    pub open spec fn spec_with_transform2(self, pose: Transform2) -> Node {
        Node { transform2: Some(pose), transform2_changed: true, ..self }
    }

    /// Gives the node a new pose and marks the pose as changed.
    pub fn set_transform2(&mut self, pose: Transform2)
        ensures
            *final(self) == old(self).spec_with_transform2(pose),
    {
        self.transform2 = Some(pose);
        self.transform2_changed = true;
    }

    pub open spec fn spec_with_global_transform(self, parts: Decomposition) -> Node {
        Node { global_transform: Some(parts), global_transform_changed: true, ..self }
    }

    /// Records the global transform that the host computed and marks it as
    /// changed.
    pub fn set_global_transform(&mut self, parts: Decomposition)
        ensures
            *final(self) == old(self).spec_with_global_transform(parts),
    {
        self.global_transform = Some(parts);
        self.global_transform_changed = true;
    }
}

/// How many of the nodes the local pass writes.
pub open spec fn local_due_count(nodes: Seq<Node>) -> nat
    decreases nodes.len(),
{
    if nodes.len() == 0 {
        0
    } else {
        local_due_count(nodes.drop_last()) + if nodes.last().local_due() {
            1nat
        } else {
            0nat
        }
    }
}

/// How many of the nodes the global pass writes.
pub open spec fn global_due_count(nodes: Seq<Node>) -> nat
    decreases nodes.len(),
{
    if nodes.len() == 0 {
        0
    } else {
        global_due_count(nodes.drop_last()) + if nodes.last().global_due() {
            1nat
        } else {
            0nat
        }
    }
}

/// The nodes after the local pass.
pub open spec fn local_synced(nodes: Seq<Node>) -> Seq<Node> {
    Seq::new(nodes.len(), |i: int| nodes[i].local_synced())
}

/// The nodes after the global pass.
pub open spec fn global_synced(nodes: Seq<Node>) -> Seq<Node> {
    Seq::new(nodes.len(), |i: int| nodes[i].global_synced())
}

/// A count of due nodes is at most the number of nodes.
pub proof fn lemma_due_counts_bounded(nodes: Seq<Node>)
    ensures
        local_due_count(nodes) <= nodes.len(),
        global_due_count(nodes) <= nodes.len(),
    decreases nodes.len(),
{
    if nodes.len() > 0 {
        lemma_due_counts_bounded(nodes.drop_last());
    }
}

/// The local pass: converts every changed pose into the host's local
/// transform, clears the change marks, and returns how many local
/// transforms it wrote. Nodes without a pose or without a local transform
/// are skipped.
pub fn update_transform_from_transform2(nodes: &mut Vec<Node>) -> (written: usize)
    ensures
        final(nodes)@ == local_synced(old(nodes)@),
        written == local_due_count(old(nodes)@),
{
    let ghost before = nodes@;
    let mut written: usize = 0;
    let mut i: usize = 0;
    while i < nodes.len()
        invariant
            i <= nodes.len(),
            nodes.len() == before.len(),
            written == local_due_count(before.subrange(0, i as int)),
            forall|j: int| 0 <= j < i ==> nodes@[j] == #[trigger] before[j].local_synced(),
            forall|j: int| i <= j < nodes.len() ==> nodes@[j] == before[j],
        decreases nodes.len() - i,
    {
        let mut node: Node = nodes[i];
        proof {
            assert(before.subrange(0, i + 1).drop_last() =~= before.subrange(0, i as int));
            lemma_due_counts_bounded(before.subrange(0, i as int));
        }
        if node.transform2_changed {
            if let Some(pose) = node.transform2 {
                if node.transform.is_some() {
                    node.transform = Some(pose.to_local());
                    written = written + 1;
                }
            }
        }
        node.transform2_changed = false;
        nodes.set(i, node);
        i = i + 1;
    }
    assert(before.subrange(0, i as int) =~= before);
    assert(nodes@ =~= local_synced(before));
    written
}

/// The global pass: reads every changed global transform back into the
/// node's global pose, clears the change marks, and returns how many global
/// poses it wrote. Nodes without a global transform or without a global pose
/// are skipped.
pub fn update_global_transform_2(nodes: &mut Vec<Node>) -> (written: usize)
    ensures
        final(nodes)@ == global_synced(old(nodes)@),
        written == global_due_count(old(nodes)@),
{
    let ghost before = nodes@;
    let mut written: usize = 0;
    let mut i: usize = 0;
    while i < nodes.len()
        invariant
            i <= nodes.len(),
            nodes.len() == before.len(),
            written == global_due_count(before.subrange(0, i as int)),
            forall|j: int| 0 <= j < i ==> nodes@[j] == #[trigger] before[j].global_synced(),
            forall|j: int| i <= j < nodes.len() ==> nodes@[j] == before[j],
        decreases nodes.len() - i,
    {
        let mut node: Node = nodes[i];
        proof {
            assert(before.subrange(0, i + 1).drop_last() =~= before.subrange(0, i as int));
            lemma_due_counts_bounded(before.subrange(0, i as int));
        }
        if node.global_transform_changed {
            if let Some(parts) = node.global_transform {
                if node.global_transform2.is_some() {
                    node.global_transform2 = Some(GlobalTransform2::from_decomposition(&parts));
                    written = written + 1;
                }
            }
        }
        node.global_transform_changed = false;
        nodes.set(i, node);
        i = i + 1;
    }
    assert(before.subrange(0, i as int) =~= before);
    assert(nodes@ =~= global_synced(before));
    written
}

/// Where no pose is marked as changed, the local pass writes nothing and
/// leaves every node as it was.
pub proof fn lemma_local_sync_idle(nodes: Seq<Node>)
    requires
        forall|i: int| 0 <= i < nodes.len() ==> !(#[trigger] nodes[i]).transform2_changed,
    ensures
        local_due_count(nodes) == 0,
        local_synced(nodes) == nodes,
    decreases nodes.len(),
{
    if nodes.len() > 0 {
        lemma_local_sync_idle(nodes.drop_last());
    }
    assert(local_synced(nodes) =~= nodes);
}

/// Where no global transform is marked as changed, the global pass writes
/// nothing and leaves every node as it was.
pub proof fn lemma_global_sync_idle(nodes: Seq<Node>)
    requires
        forall|i: int| 0 <= i < nodes.len() ==> !(#[trigger] nodes[i]).global_transform_changed,
    ensures
        global_due_count(nodes) == 0,
        global_synced(nodes) == nodes,
    decreases nodes.len(),
{
    if nodes.len() > 0 {
        lemma_global_sync_idle(nodes.drop_last());
    }
    assert(global_synced(nodes) =~= nodes);
}

/// Right after a local pass a second one has nothing to write, and right
/// after a global pass a second one has nothing to write: a pass runs only
/// for what changed since it last ran.
pub proof fn lemma_sync_settles(nodes: Seq<Node>)
    ensures
        local_due_count(local_synced(nodes)) == 0,
        local_synced(local_synced(nodes)) == local_synced(nodes),
        global_due_count(global_synced(nodes)) == 0,
        global_synced(global_synced(nodes)) == global_synced(nodes),
{
    lemma_local_sync_idle(local_synced(nodes));
    lemma_global_sync_idle(global_synced(nodes));
}

/// Each pass writes its own slot only: the local pass leaves poses, global
/// transforms and global poses alone, and the global pass leaves poses and
/// local transforms alone.
pub proof fn lemma_passes_write_their_own_slots(nodes: Seq<Node>, i: int)
    requires
        0 <= i < nodes.len(),
    ensures
        local_synced(nodes)[i].transform2 == nodes[i].transform2,
        local_synced(nodes)[i].global_transform == nodes[i].global_transform,
        local_synced(nodes)[i].global_transform_changed == nodes[i].global_transform_changed,
        local_synced(nodes)[i].global_transform2 == nodes[i].global_transform2,
        global_synced(nodes)[i].transform2 == nodes[i].transform2,
        global_synced(nodes)[i].transform2_changed == nodes[i].transform2_changed,
        global_synced(nodes)[i].transform == nodes[i].transform,
        global_synced(nodes)[i].global_transform == nodes[i].global_transform,
{
}

/// A node's global pose stays in step with the host through everything that
/// the library does to a node: a new node is in step, and a new pose, a new
/// global transform and either pass keep it so. After the global pass a node
/// with both components holds the pose read from its global transform.
pub proof fn lemma_global_pose_in_step(
    node: Node,
    bundle: SpatialBundle2,
    with_global: bool,
    pose: Transform2,
    parts: Decomposition,
)
    requires
        node.in_step(),
    ensures
        Node::spawn(bundle, with_global).in_step(),
        node.spec_with_transform2(pose).in_step(),
        node.spec_with_global_transform(parts).in_step(),
        node.local_synced().in_step(),
        node.global_synced().in_step(),
        node.global_transform.is_some() && node.global_transform2.is_some()
            ==> node.global_synced().global_transform2.unwrap()@
            == node.global_transform.unwrap().pose(),
{
    if node.global_transform.is_some() {
        GlobalTransform2::lemma_holding(node.global_transform.unwrap().pose());
    }
}

/// One full cycle on a node that has every component: the pose is changed,
/// the local pass runs, the host writes the global transform it computed
/// from the new local transforms, and the global pass runs. The node's local
/// transform is then the converted new pose, and its global pose is read
/// from the global transform that the host wrote in this cycle, whatever the
/// node held before.
pub proof fn lemma_cycle_reads_this_cycle(node: Node, pose: Transform2, host: Decomposition)
    requires
        node.transform.is_some(),
        node.global_transform2.is_some(),
    ensures
        ({
            let after = node.spec_with_transform2(pose).local_synced().spec_with_global_transform(
                host,
            ).global_synced();
            &&& after.transform == Some(pose.to_local())
            &&& after.global_transform2.unwrap()@ == host.pose()
            &&& !after.local_due()
            &&& !after.global_due()
        }),
{
    GlobalTransform2::lemma_holding(host.pose());
}

/// One full cycle on a node without a parent, where the host's global
/// transform has the parts of the node's own local transform: the global
/// pose is the new pose, bit for bit.
pub proof fn lemma_cycle_root(node: Node, pose: Transform2)
    requires
        node.transform.is_some(),
        node.global_transform2.is_some(),
    ensures
        ({
            let synced = node.spec_with_transform2(pose).local_synced();
            let host = Decomposition::of_local(synced.transform.unwrap());
            synced.spec_with_global_transform(host).global_synced().global_transform2.unwrap()@
                == pose
        }),
{
    lemma_round_trip(pose);
    GlobalTransform2::lemma_holding(pose);
}

} // verus!
