//! The descriptor tree: an ordered tree of parsed records whose depth-first
//! serialization reproduces the wire byte stream.

use vstd::prelude::*;

use crate::usb_proto::DescError;
use crate::usb_proto::DescriptorTypes;
use crate::usb_proto::DescV;

verus! {

broadcast use vstd::std_specs::vec::group_vec_axioms;

/// The mathematical view of a tree node: the parsed record and the views of
/// its children, in wire order.
#[verifier::ext_equal]
pub ghost struct NodeV {
    pub parsed: DescV,
    pub children: Seq<NodeV>,
}

/// A node of the descriptor tree. Children are ordered: their order is the
/// on-wire order of the records within this node's span.
#[derive(Debug)]
pub struct TreeNode {
    pub children: Vec<TreeNode>,
    pub parsed: DescriptorTypes,
}

/// The view of a sequence of tree nodes.
pub open spec fn children_view(s: Seq<TreeNode>) -> Seq<NodeV>
    decreases s,
{
    if s.len() == 0 {
        Seq::empty()
    } else {
        seq![node_view(s[0])] + children_view(s.drop_first())
    }
}

/// The view of one tree node.
pub open spec fn node_view(t: TreeNode) -> NodeV
    decreases t,
{
    NodeV { parsed: t.parsed@, children: children_view(t.children@) }
}

impl View for TreeNode {
    type V = NodeV;

    open spec fn view(&self) -> NodeV {
        node_view(*self)
    }
}

pub proof fn lemma_children_view_len(s: Seq<TreeNode>)
    ensures
        children_view(s).len() == s.len(),
    decreases s,
{
    if s.len() > 0 {
        lemma_children_view_len(s.drop_first());
    }
}

pub proof fn lemma_children_view_index(s: Seq<TreeNode>, i: int)
    requires
        0 <= i < s.len(),
    ensures
        children_view(s).len() == s.len(),
        children_view(s)[i] == node_view(s[i]),
    decreases s,
{
    lemma_children_view_len(s);
    if i > 0 {
        lemma_children_view_index(s.drop_first(), i - 1);
    }
}

impl NodeV {
    /// The depth-first wire image of the subtree: the node's own record
    /// bytes followed by each child's image, in order.
    pub open spec fn dfs_bytes(self) -> Seq<u8>
        decreases self,
    {
        self.parsed.wire() + dfs_children_bytes(self.children)
    }

    /// Whether every record in the subtree can be re-serialized.
    pub open spec fn tree_wf(self) -> bool
        decreases self,
    {
        self.parsed.wf() && forall|i: int|
            0 <= i < self.children.len() ==> (#[trigger] self.children[i]).tree_wf()
    }
}

/// The concatenated depth-first wire images of a run of subtrees.
pub open spec fn dfs_children_bytes(s: Seq<NodeV>) -> Seq<u8>
    decreases s,
{
    if s.len() == 0 {
        Seq::empty()
    } else {
        s[0].dfs_bytes() + dfs_children_bytes(s.drop_first())
    }
}

pub proof fn lemma_dfs_children_bytes_push(s: Seq<NodeV>, v: NodeV)
    ensures
        dfs_children_bytes(s.push(v)) == dfs_children_bytes(s) + v.dfs_bytes(),
    decreases s,
{
    reveal_with_fuel(dfs_children_bytes, 2);
    let p = s.push(v);
    if s.len() == 0 {
        assert(p[0] == v);
        assert(p.drop_first() =~= Seq::<NodeV>::empty());
        assert(dfs_children_bytes(s.push(v)) =~= dfs_children_bytes(s) + v.dfs_bytes());
    } else {
        assert(p[0] == s[0]);
        assert(p.drop_first() =~= s.drop_first().push(v));
        lemma_dfs_children_bytes_push(s.drop_first(), v);
        assert(dfs_children_bytes(s.push(v)) =~= dfs_children_bytes(s) + v.dfs_bytes());
    }
}

pub proof fn lemma_children_view_push(s: Seq<TreeNode>, t: TreeNode)
    ensures
        children_view(s.push(t)) == children_view(s).push(node_view(t)),
    decreases s,
{
    reveal_with_fuel(children_view, 2);
    let p = s.push(t);
    if s.len() == 0 {
        assert(p[0] == t);
        assert(p.drop_first() =~= Seq::<TreeNode>::empty());
        assert(children_view(s.push(t)) =~= children_view(s).push(node_view(t)));
    } else {
        assert(p[0] == s[0]);
        assert(p.drop_first() =~= s.drop_first().push(t));
        lemma_children_view_push(s.drop_first(), t);
        assert(children_view(s.push(t)) =~= children_view(s).push(node_view(t)));
    }
}

impl TreeNode {
    /// A fresh tree: a `Root` marker with no children.
    pub fn new() -> (r: TreeNode)
        ensures
            r@.parsed == DescV::Root,
            r@.children == Seq::<NodeV>::empty(),
    {
        let r = TreeNode { children: Vec::new(), parsed: DescriptorTypes::Root() };
        proof {
            assert(r.children@ =~= Seq::<TreeNode>::empty());
        }
        r
    }

    /// Serializes the subtree depth-first: this node's record bytes, then
    /// each child's, in order. This is the exact inverse of parsing: the
    /// appended bytes are the subtree's wire image.
    pub fn serialize(&self, buffer: &mut Vec<u8>) -> (r: Result<(), DescError>)
        requires
            self@.tree_wf(),
        ensures
            r is Ok,
            final(buffer)@ == old(buffer)@ + self@.dfs_bytes(),
        decreases *self,
    {
        match &self.parsed {
            DescriptorTypes::Root() => (),
            DescriptorTypes::Unknown(d) => d.serialize(buffer),
            DescriptorTypes::Device(d) => d.serialize(buffer),
            DescriptorTypes::CsDevice(d) => d.serialize(buffer),
            DescriptorTypes::Config(d) => d.serialize(buffer),
            DescriptorTypes::Interface(d) => d.serialize(buffer),
            DescriptorTypes::CsInterface(d) => d.serialize(buffer),
            DescriptorTypes::InterfaceAssociation(d) => d.serialize(buffer),
            DescriptorTypes::Endpoint(d) => d.serialize(buffer),
            DescriptorTypes::UacEndpoint(d) => d.serialize(buffer),
            DescriptorTypes::HidEndpoint(d) => d.serialize(buffer),
            DescriptorTypes::SsEpComp(d) => d.serialize(buffer),
            DescriptorTypes::SspIsochEpComp(d) => d.serialize(buffer),
            DescriptorTypes::CsEndpoint(d) => d.serialize(buffer),
            DescriptorTypes::UvcInputHeader(d) => d.serialize(buffer),
            DescriptorTypes::UacAcHeader(d) => d.serialize(buffer),
            DescriptorTypes::UacInputTerminal(d) => d.serialize(buffer),
            DescriptorTypes::UacOutputTerminal(d) => d.serialize(buffer),
            DescriptorTypes::UacFeatureUnit(d) => {
                let _ = d.serialize(buffer);
            },
            DescriptorTypes::UacAsGeneral(d) => d.serialize(buffer),
            DescriptorTypes::UacFormatTypeI(d) => {
                let _ = d.serialize(buffer);
            },
            DescriptorTypes::UacFormatTypeUnknown(d) => d.serialize(buffer),
            DescriptorTypes::UacIsoEndpointDescriptor(d) => d.serialize(buffer),
            DescriptorTypes::DescriptorUvcFormatUncompressed(d) => d.serialize(buffer),
            DescriptorTypes::DescriptorUvcFormatMjpeg(d) => d.serialize(buffer),
            DescriptorTypes::DescriptorUvcFrameUncompressed(d) => d.serialize(buffer),
            DescriptorTypes::DescriptorUvcFrameMjpeg(d) => d.serialize(buffer),
            DescriptorTypes::UvcFormatFrameBased(d) => d.serialize(buffer),
            DescriptorTypes::UvcFrameFrameBased(d) => d.serialize(buffer),
            DescriptorTypes::DescriptorUvcVsInterfaceUnknown(d) => d.serialize(buffer),
            DescriptorTypes::DescriptorUvcVcInterfaceUnknown(d) => d.serialize(buffer),
            DescriptorTypes::DescriptorUacInterfaceUnknown(d) => d.serialize(buffer),
            DescriptorTypes::UvcHeaderDescriptor(d) => d.serialize(buffer),
            DescriptorTypes::UvcVcInputTerminal(d) => d.serialize(buffer),
            DescriptorTypes::UvcVcProcessingUnit(d) => d.serialize(buffer),
            DescriptorTypes::UvcVcExtensionUnit(d) => d.serialize(buffer),
            DescriptorTypes::UvcVcOutputTerminal(d) => d.serialize(buffer),
        }
        let ghost after_own = buffer@;
        proof {
            assert(after_own =~= old(buffer)@ + self@.parsed.wire());
        }
        let mut i: usize = 0;
        while i < self.children.len()
            invariant
                i <= self.children@.len(),
                self@.tree_wf(),
                after_own == old(buffer)@ + self@.parsed.wire(),
                buffer@ == after_own + dfs_children_bytes(
                    children_view(self.children@).take(i as int),
                ),
            decreases self.children@.len() - i,
        {
            proof {
                lemma_children_view_index(self.children@, i as int);
                assert(self@.children[i as int].tree_wf());
            }
            let child = &self.children[i];
            let _ = child.serialize(buffer);
            proof {
                let cv = children_view(self.children@);
                assert(cv.take(i + 1) =~= cv.take(i as int).push(cv[i as int]));
                lemma_dfs_children_bytes_push(cv.take(i as int), cv[i as int]);
                assert(buffer@ =~= after_own + dfs_children_bytes(cv.take(i + 1)));
            }
            i = i + 1;
        }
        proof {
            lemma_children_view_len(self.children@);
            let cv = children_view(self.children@);
            assert(cv.take(cv.len() as int) =~= cv);
            assert(buffer@ =~= old(buffer)@ + self@.dfs_bytes());
        }
        Ok(())
    }

    /// A copy of this node's record with no children.
    pub fn shallow_clone(&self) -> (r: TreeNode)
        ensures
            r@.parsed == self@.parsed,
            r@.children == Seq::<NodeV>::empty(),
    {
        let r = TreeNode { children: Vec::new(), parsed: self.parsed.clone() };
        proof {
            assert(r.children@ =~= Seq::<TreeNode>::empty());
        }
        r
    }

    /// A copy of the whole subtree, equal to the original under the view.
    pub fn deep_clone(&self) -> (r: TreeNode)
        ensures
            r@ == self@,
        decreases *self,
    {
        let mut children: Vec<TreeNode> = Vec::new();
        let mut i: usize = 0;
        proof {
            assert(children_view(children@) =~= children_view(self.children@).take(0));
        }
        while i < self.children.len()
            invariant
                i <= self.children@.len(),
                children_view(children@) == children_view(self.children@).take(i as int),
            decreases self.children@.len() - i,
        {
            let ghost prev = children@;
            let c = self.children[i].deep_clone();
            children.push(c);
            proof {
                lemma_children_view_push(prev, c);
                lemma_children_view_index(self.children@, i as int);
                assert(children_view(children@) =~= children_view(self.children@).take(i + 1));
            }
            i = i + 1;
        }
        let r = TreeNode { children, parsed: self.parsed.clone() };
        proof {
            lemma_children_view_len(self.children@);
            assert(children_view(r.children@) =~= children_view(self.children@));
            assert(r@ =~= self@);
        }
        r
    }
}

impl Clone for TreeNode {
    fn clone(&self) -> (res: Self)
        ensures
            res@ == self@,
    {
        self.deep_clone()
    }
}

} // verus!
