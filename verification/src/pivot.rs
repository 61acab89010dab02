//! The tree-building pivot passes: the flat record list is reshaped into
//! the configuration / interface / format hierarchy by ordered passes, each
//! of which regroups records without adding, dropping or reordering their
//! wire bytes.

use vstd::prelude::*;

use crate::tree::children_view;
use crate::tree::dfs_children_bytes;
use crate::tree::lemma_children_view_index;
use crate::tree::lemma_children_view_len;
use crate::tree::lemma_children_view_push;
use crate::tree::lemma_dfs_children_bytes_push;
use crate::tree::node_view;
use crate::tree::NodeV;
use crate::tree::TreeNode;
use crate::usb_proto::DescriptorTypes;
use crate::usb_proto::DescError;
use crate::usb_proto::DescV;

verus! {

broadcast use vstd::std_specs::vec::group_vec_axioms;

/// Splitting off the last subtree of a run.
pub proof fn lemma_dfs_children_bytes_last(s: Seq<NodeV>)
    requires
        s.len() > 0,
    ensures
        dfs_children_bytes(s) == dfs_children_bytes(s.drop_last()) + s.last().dfs_bytes(),
{
    assert(s =~= s.drop_last().push(s.last()));
    lemma_dfs_children_bytes_push(s.drop_last(), s.last());
}

/// Appending a new child to the last subtree of a run appends the child's
/// bytes to the run's depth-first image.
pub proof fn lemma_dfs_append_under_last(s: Seq<NodeV>, aug: NodeV, c: NodeV)
    requires
        s.len() > 0,
        aug.parsed == s.last().parsed,
        aug.children == s.last().children.push(c),
    ensures
        dfs_children_bytes(s.drop_last().push(aug)) == dfs_children_bytes(s) + c.dfs_bytes(),
{
    lemma_dfs_children_bytes_push(s.drop_last(), aug);
    lemma_dfs_children_bytes_last(s);
    lemma_dfs_children_bytes_push(s.last().children, c);
    assert(aug.dfs_bytes() =~= s.last().dfs_bytes() + c.dfs_bytes());
    assert(dfs_children_bytes(s.drop_last().push(aug)) =~= dfs_children_bytes(s)
        + c.dfs_bytes());
}

impl TreeNode {
    /// Appends a child node, keeping the tree well formed.
    fn attach_child(&mut self, child: TreeNode)
        requires
            old(self)@.tree_wf(),
            child@.tree_wf(),
        ensures
            final(self)@.parsed == old(self)@.parsed,
            final(self)@.children == old(self)@.children.push(child@),
            final(self)@.tree_wf(),
            final(self)@.dfs_bytes() == old(self)@.dfs_bytes() + child@.dfs_bytes(),
    {
        let ghost prev = self.children@;
        self.children.push(child);
        proof {
            lemma_children_view_push(prev, child);
            lemma_dfs_children_bytes_push(children_view(prev), child@);
            assert forall|i: int| 0 <= i < self@.children.len() implies (
            #[trigger] self@.children[i]).tree_wf() by {
                if i < children_view(prev).len() {
                    assert(self@.children[i] == old(self)@.children[i]);
                }
            }
            assert(self@.dfs_bytes() =~= old(self)@.dfs_bytes() + child@.dfs_bytes());
        }
    }
}


/// One step of the configuration-span walk: a configuration record opens a
/// new group and installs its byte budget; while the budget lasts, records
/// join the open group; everything else stays at the root.
pub open spec fn spec_cfg_loop(cs: Seq<NodeV>, i: int, acc: Seq<NodeV>, remaining: int) -> Seq<
    NodeV,
>
    decreases cs.len() - i,
{
    if i < 0 || i >= cs.len() {
        acc
    } else {
        let c = cs[i];
        match c.parsed {
            DescV::Config(conf) => spec_cfg_loop(cs, i + 1, acc.push(c), conf.w_total_length as int),
            _ => {
                if remaining > 0 && acc.len() > 0 {
                    let grown = NodeV {
                        parsed: acc.last().parsed,
                        children: acc.last().children.push(c),
                    };
                    let sz = c.dfs_bytes().len() as int;
                    spec_cfg_loop(
                        cs,
                        i + 1,
                        acc.drop_last().push(grown),
                        if sz > remaining {
                            0
                        } else {
                            remaining - sz
                        },
                    )
                } else {
                    spec_cfg_loop(cs, i + 1, acc.push(c), remaining)
                }
            },
        }
    }
}

/// What the configuration-span pass builds from a flat root.
pub open spec fn spec_pivot_cfg_desc(rootv: NodeV) -> NodeV {
    NodeV { parsed: DescV::Root, children: spec_cfg_loop(rootv.children, 0, Seq::empty(), 0) }
}

/// Groups the flat record list by configuration: each configuration
/// descriptor claims the records after it until its `wTotalLength` byte
/// budget is exhausted; records outside any configuration span stay at the
/// root. The regrouped tree is exactly `spec_pivot_cfg_desc` of the input
/// and carries the input's record bytes in the same depth-first order.
pub fn pivot_cfg_desc(root: &TreeNode) -> (r: TreeNode)
    requires
        root@.tree_wf(),
    ensures
        r@ == spec_pivot_cfg_desc(root@),
        r@.parsed == DescV::Root,
        r@.tree_wf(),
        dfs_children_bytes(r@.children) == dfs_children_bytes(root@.children),
{
    let ghost cv = children_view(root.children@);
    proof {
        lemma_children_view_len(root.children@);
    }
    let mut new_root = TreeNode::new();
    let mut bytes_remaining: usize = 0;
    let mut i: usize = 0;
    proof {
        assert(dfs_children_bytes(new_root@.children) =~= dfs_children_bytes(cv.take(0)));
        assert(new_root@.children =~= Seq::<NodeV>::empty());
    }
    while i < root.children.len()
        invariant
            i <= root.children@.len(),
            cv == children_view(root.children@),
            cv.len() == root.children@.len(),
            root@.tree_wf(),
            new_root@.parsed == DescV::Root,
            new_root@.tree_wf(),
            dfs_children_bytes(new_root@.children) == dfs_children_bytes(cv.take(i as int)),
            bytes_remaining > 0 ==> new_root.children@.len() > 0,
            spec_cfg_loop(cv, 0, Seq::empty(), 0) == spec_cfg_loop(
                cv,
                i as int,
                new_root@.children,
                bytes_remaining as int,
            ),
        decreases root.children@.len() - i,
    {
        proof {
            lemma_children_view_index(root.children@, i as int);
            assert(root@.children[i as int].tree_wf());
            assert(cv[i as int].tree_wf());
            assert(cv.take(i + 1) =~= cv.take(i as int).push(cv[i as int]));
            lemma_dfs_children_bytes_push(cv.take(i as int), cv[i as int]);
        }
        let child = &root.children[i];
        let is_config = matches!(&child.parsed, DescriptorTypes::Config(_));
        if is_config {
            let span = match &child.parsed {
                DescriptorTypes::Config(conf) => conf.w_total_length as usize,
                _ => 0,
            };
            let ghost acc_before = new_root@.children;
            let ghost rem_before: int = bytes_remaining as int;
            let cloned = child.deep_clone();
            new_root.attach_child(cloned);
            bytes_remaining = span;
            proof {
                assert(spec_cfg_loop(cv, i as int, acc_before, rem_before) == spec_cfg_loop(
                    cv,
                    i + 1,
                    new_root@.children,
                    bytes_remaining as int,
                ));
            }
        } else if bytes_remaining > 0 {
            let ghost acc_before = new_root@.children;
            let ghost rem_before: int = bytes_remaining as int;
            let cloned = child.deep_clone();
            let mut tmp_buf: Vec<u8> = Vec::new();
            let _ = cloned.serialize(&mut tmp_buf);
            let sz = tmp_buf.len();
            let last = new_root.children.len() - 1;
            let ghost prev_vec = new_root.children@;
            let ghost prev_out = new_root@.children;
            let ghost prev_last_children = new_root@.children.last().children;
            proof {
                lemma_children_view_index(new_root.children@, last as int);
            }
            new_root.children[last].attach_child(cloned);
            proof {
                lemma_children_view_len(new_root.children@);
                assert(new_root.children@.len() == prev_vec.len());
                assert forall|j: int| 0 <= j < new_root@.children.len() implies (
                #[trigger] new_root@.children[j]) == (if j == last {
                    NodeV {
                        parsed: prev_out[j].parsed,
                        children: prev_last_children.push(cv[i as int]),
                    }
                } else {
                    prev_out[j]
                }) by {
                    lemma_children_view_index(new_root.children@, j);
                    lemma_children_view_index(prev_vec, j);
                    if j != last {
                        assert(new_root.children@[j] == prev_vec[j]);
                    }
                }
                assert(new_root@.children =~= prev_out.drop_last().push(
                    NodeV {
                        parsed: prev_out.last().parsed,
                        children: prev_last_children.push(cv[i as int]),
                    },
                ));
                lemma_dfs_append_under_last(
                    prev_out,
                    NodeV {
                        parsed: prev_out.last().parsed,
                        children: prev_last_children.push(cv[i as int]),
                    },
                    cv[i as int],
                );
                assert forall|j: int| 0 <= j < new_root@.children.len() implies (
                #[trigger] new_root@.children[j]).tree_wf() by {
                    lemma_children_view_index(new_root.children@, j);
                }
                assert(new_root@.tree_wf());
            }
            if sz > bytes_remaining {
                bytes_remaining = 0;
            } else {
                bytes_remaining = bytes_remaining - sz;
            }
            proof {
                assert(sz == cv[i as int].dfs_bytes().len());
                assert(new_root@.children =~= acc_before.drop_last().push(
                    NodeV {
                        parsed: acc_before.last().parsed,
                        children: acc_before.last().children.push(cv[i as int]),
                    },
                ));
                assert(spec_cfg_loop(cv, i as int, acc_before, rem_before) == spec_cfg_loop(
                    cv,
                    i + 1,
                    new_root@.children,
                    bytes_remaining as int,
                ));
            }
        } else {
            let ghost acc_before = new_root@.children;
            let ghost rem_before: int = bytes_remaining as int;
            let cloned = child.deep_clone();
            new_root.attach_child(cloned);
            proof {
                assert(spec_cfg_loop(cv, i as int, acc_before, rem_before) == spec_cfg_loop(
                    cv,
                    i + 1,
                    new_root@.children,
                    bytes_remaining as int,
                ));
            }
        }
        i = i + 1;
    }
    proof {
        assert(cv.take(cv.len() as int) =~= cv);
        assert(new_root@ =~= spec_pivot_cfg_desc(root@));
    }
    new_root
}

/// The seed a pivot pass grows: the node passed in, or a fresh root.
pub open spec fn opt_seed(o: Option<TreeNode>) -> NodeV {
    match o {
        Some(t) => t@,
        None => NodeV { parsed: DescV::Root, children: Seq::empty() },
    }
}

/// Whether a record opens an interface-level group.
pub open spec fn spec_is_group(d: DescV) -> bool {
    d matches DescV::Interface(_) || d matches DescV::InterfaceAssociation(_)
}


/// The wire bytes of the subtrees in `cs[a .. b]`, concatenated.
pub open spec fn dfs_range(cs: Seq<NodeV>, a: int, b: int) -> Seq<u8> {
    dfs_children_bytes(cs.subrange(a, b))
}

/// Depth-first images concatenate over list concatenation.
pub proof fn lemma_dfs_children_bytes_concat(s1: Seq<NodeV>, s2: Seq<NodeV>)
    ensures
        dfs_children_bytes(s1 + s2) == dfs_children_bytes(s1) + dfs_children_bytes(s2),
    decreases s1,
{
    reveal_with_fuel(dfs_children_bytes, 2);
    if s1.len() == 0 {
        assert(s1 + s2 =~= s2);
        assert(dfs_children_bytes(s1 + s2) =~= dfs_children_bytes(s1) + dfs_children_bytes(s2));
    } else {
        assert((s1 + s2)[0] == s1[0]);
        assert((s1 + s2).drop_first() =~= s1.drop_first() + s2);
        lemma_dfs_children_bytes_concat(s1.drop_first(), s2);
        assert(dfs_children_bytes(s1 + s2) =~= dfs_children_bytes(s1) + dfs_children_bytes(s2));
    }
}

/// A range splits at any midpoint.
pub proof fn lemma_dfs_range_split(cs: Seq<NodeV>, a: int, m: int, b: int)
    requires
        0 <= a <= m <= b <= cs.len(),
    ensures
        dfs_range(cs, a, b) == dfs_range(cs, a, m) + dfs_range(cs, m, b),
{
    assert(cs.subrange(a, b) =~= cs.subrange(a, m) + cs.subrange(m, b));
    lemma_dfs_children_bytes_concat(cs.subrange(a, m), cs.subrange(m, b));
}

/// A one-element range is that subtree's image.
pub proof fn lemma_dfs_range_one(cs: Seq<NodeV>, i: int)
    requires
        0 <= i < cs.len(),
    ensures
        dfs_range(cs, i, i + 1) == cs[i].dfs_bytes(),
{
    reveal_with_fuel(dfs_children_bytes, 2);
    assert(cs.subrange(i, i + 1) =~= seq![cs[i]]);
    assert(cs.subrange(i, i + 1).drop_first() =~= Seq::<NodeV>::empty());
    assert(dfs_range(cs, i, i + 1) =~= cs[i].dfs_bytes());
}

/// Whether every interface and interface association in the tree is still
/// a leaf, as they are after the configuration-span pass and before the
/// per-interface grouping runs.
pub open spec fn groups_childless(n: NodeV) -> bool
    decreases n, 0int,
{
    &&& (spec_is_group(n.parsed) ==> n.children.len() == 0)
    &&& groups_childless_in(n.children, 0)
}

pub open spec fn groups_childless_in(cs: Seq<NodeV>, k: int) -> bool
    decreases cs, cs.len() - k + 1,
{
    if k < 0 || k >= cs.len() {
        true
    } else {
        groups_childless(cs[k]) && groups_childless_in(cs, k + 1)
    }
}

pub proof fn lemma_groups_childless_index(cs: Seq<NodeV>, k: int, j: int)
    requires
        groups_childless_in(cs, k),
        0 <= k <= j < cs.len(),
    ensures
        groups_childless(cs[j]),
    decreases j - k,
{
    if k < j {
        lemma_groups_childless_index(cs, k + 1, j);
    }
}

/// The per-interface grouping, one walk: starting at `i` in `nodev`'s
/// children, each record is re-parented under the seed until (when the
/// seed is an interface or association) the next interface or association
/// begins; an interface or association met under a non-group seed first
/// absorbs the records that follow it, then its own children are
/// regrouped. Returns the grown seed and the resume position.
pub open spec fn spec_pivot_iface_children(nodev: NodeV, seed: NodeV, i: int) -> (NodeV, int)
    decreases nodev, nodev.children.len() - i + 1,
{
    let len = nodev.children.len() as int;
    if i < 0 || i >= len {
        (seed, i)
    } else {
        let c = nodev.children[i];
        if spec_is_group(seed.parsed) && spec_is_group(c.parsed) {
            (seed, i)
        } else {
            let shallow = NodeV { parsed: c.parsed, children: Seq::empty() };
            let pre = if !spec_is_group(seed.parsed) && spec_is_group(c.parsed) {
                spec_pivot_iface_children(nodev, shallow, i + 1)
            } else {
                (shallow, i + 1)
            };
            let j = pre.1;
            let next0 = if j < i + 1 {
                i + 1
            } else {
                j
            };
            let next = if next0 > len {
                len
            } else {
                next0
            };
            let nc = spec_pivot_iface_children(c, pre.0, 0).0;
            spec_pivot_iface_children(
                nodev,
                NodeV { parsed: seed.parsed, children: seed.children.push(nc) },
                next,
            )
        }
    }
}

/// Folds the records that follow an interface or interface association
/// into that record's subtree, until the next interface or association
/// begins. `idx` walks `node`'s children; the pass consumes the range from
/// the entry value of `idx` to its final value. The result and the resume
/// position are exactly `spec_pivot_iface_children` of the inputs, and on
/// trees whose interfaces and associations are still leaves -- the shape
/// the configuration-span pass hands over -- the consumed records' bytes
/// are carried over exactly, in order.
pub fn pivot_iface_children(node: &TreeNode, new_node: Option<TreeNode>, idx: &mut usize) -> (r:
    TreeNode)
    requires
        node@.tree_wf(),
        match new_node {
            Some(t) => t@.tree_wf(),
            None => true,
        },
        *old(idx) <= node@.children.len(),
    ensures
        (r@, *final(idx) as int) == spec_pivot_iface_children(
            node@,
            opt_seed(new_node),
            *old(idx) as int,
        ),
        *old(idx) <= *final(idx) <= node@.children.len(),
        r@.parsed == opt_seed(new_node).parsed,
        r@.tree_wf(),
        groups_childless(node@) ==> dfs_children_bytes(r@.children) == dfs_children_bytes(
            opt_seed(new_node).children,
        ) + dfs_range(node@.children, *old(idx) as int, *final(idx) as int),
        groups_childless(node@) && !spec_is_group(opt_seed(new_node).parsed) ==> *final(idx)
            == node@.children.len(),
    decreases *node, node@.children.len() - *old(idx),
{
    let mut out = match new_node {
        Some(t) => t,
        None => TreeNode::new(),
    };
    proof {
        assert(out@ =~= opt_seed(new_node));
    }
    let seed_is_group = matches!(
        &out.parsed,
        DescriptorTypes::Interface(_) | DescriptorTypes::InterfaceAssociation(_)
    );
    let len = node.children.len();
    proof {
        lemma_children_view_len(node.children@);
    }
    let ghost idx0 = *idx;
    let ghost cs = node@.children;
    proof {
        if groups_childless(node@) {
            assert(cs.subrange(idx0 as int, idx0 as int) =~= Seq::<NodeV>::empty());
            assert(dfs_children_bytes(out@.children) =~= dfs_children_bytes(
                opt_seed(new_node).children,
            ) + dfs_range(cs, idx0 as int, idx0 as int));
        }
    }
    while *idx < len
        invariant
            idx0 == *old(idx),
            idx0 <= *idx <= len,
            len == node@.children.len(),
            len == node.children@.len(),
            cs == node@.children,
            node@.tree_wf(),
            out@.parsed == opt_seed(new_node).parsed,
            out@.tree_wf(),
            seed_is_group == spec_is_group(opt_seed(new_node).parsed),
            spec_pivot_iface_children(node@, opt_seed(new_node), idx0 as int)
                == spec_pivot_iface_children(node@, out@, *idx as int),
            groups_childless(node@) ==> dfs_children_bytes(out@.children)
                == dfs_children_bytes(opt_seed(new_node).children) + dfs_range(
                cs,
                idx0 as int,
                *idx as int,
            ),
        decreases len - *idx,
    {
        let i = *idx;
        proof {
            lemma_children_view_index(node.children@, i as int);
            assert(node@.children[i as int].tree_wf());
            if groups_childless(node@) {
                lemma_groups_childless_index(cs, 0, i as int);
            }
        }
        let child = &node.children[i];
        let child_is_group = matches!(
            &child.parsed,
            DescriptorTypes::Interface(_) | DescriptorTypes::InterfaceAssociation(_)
        );
        if seed_is_group && child_is_group {
            proof {
                assert(spec_pivot_iface_children(node@, out@, i as int) == (out@, i as int));
            }
            return out;
        }
        let mut new_child = child.shallow_clone();
        let ghost out_at_i = out@;
        let ghost mut j: int = i + 1;
        if !seed_is_group && child_is_group {
            *idx = i + 1;
            new_child = pivot_iface_children(node, Some(new_child), idx);
            proof {
                j = *idx as int;
            }
            let done = {
                let mut inner: usize = 0;
                pivot_iface_children(child, Some(new_child), &mut inner)
            };
            new_child = done;
            proof {
                if groups_childless(node@) {
                    assert(cs[i as int].children.len() == 0);
                    assert(dfs_children_bytes(new_child@.children) =~= dfs_range(cs, i + 1, j));
                    assert(cs[i as int].dfs_bytes() =~= cs[i as int].parsed.wire());
                    assert(new_child@.dfs_bytes() =~= cs[i as int].dfs_bytes() + dfs_range(
                        cs,
                        i + 1,
                        j,
                    ));
                    lemma_dfs_range_one(cs, i as int);
                    lemma_dfs_range_split(cs, i as int, i + 1, j);
                    assert(new_child@.dfs_bytes() =~= dfs_range(cs, i as int, j));
                }
            }
            let ghost prev_out_children = out@.children;
            out.attach_child(new_child);
            proof {
                if groups_childless(node@) {
                    lemma_dfs_children_bytes_push(prev_out_children, new_child@);
                    lemma_dfs_range_split(cs, idx0 as int, i as int, j);
                    assert(dfs_children_bytes(out@.children) =~= dfs_children_bytes(
                        opt_seed(new_node).children,
                    ) + dfs_range(cs, idx0 as int, j));
                }
            }
            *idx = *idx - 1;
        } else {
            let done = {
                let mut inner: usize = 0;
                pivot_iface_children(child, Some(new_child), &mut inner)
            };
            new_child = done;
            proof {
                if groups_childless(node@) {
                    assert(!spec_is_group(cs[i as int].parsed));
                    assert(cs[i as int].children.subrange(
                        0,
                        cs[i as int].children.len() as int,
                    ) =~= cs[i as int].children);
                    assert(new_child@.dfs_bytes() =~= cs[i as int].dfs_bytes());
                }
            }
            let ghost prev_out_children = out@.children;
            out.attach_child(new_child);
            proof {
                if groups_childless(node@) {
                    lemma_dfs_children_bytes_push(prev_out_children, new_child@);
                    lemma_dfs_range_one(cs, i as int);
                    lemma_dfs_range_split(cs, idx0 as int, i as int, i + 1);
                    assert(dfs_children_bytes(out@.children) =~= dfs_children_bytes(
                        opt_seed(new_node).children,
                    ) + dfs_range(cs, idx0 as int, i + 1));
                }
            }
        }
        proof {
            assert(out@.children =~= out_at_i.children.push(new_child@));
            assert(spec_pivot_iface_children(node@, out_at_i, i as int)
                == spec_pivot_iface_children(node@, out@, j));
        }
        *idx = *idx + 1;
    }
    out
}


/// Every node of the run is childless.
pub open spec fn leaves_only(s: Seq<NodeV>) -> bool {
    forall|k: int| 0 <= k < s.len() ==> (#[trigger] s[k]).children.len() == 0
}

/// The two-level shape the configuration-span pass builds from a flat
/// list: interfaces and associations are leaves, and nothing is deeper
/// than a configuration's direct children.
pub open spec fn flat_two_level(s: Seq<NodeV>) -> bool {
    forall|j: int|
        0 <= j < s.len() ==> ((spec_is_group((#[trigger] s[j]).parsed) ==> s[j].children.len()
            == 0) && leaves_only(s[j].children))
}

pub proof fn lemma_gc_in_pointwise(cs: Seq<NodeV>, k: int)
    requires
        0 <= k <= cs.len(),
        forall|j: int| 0 <= j < cs.len() ==> groups_childless(#[trigger] cs[j]),
    ensures
        groups_childless_in(cs, k),
    decreases cs.len() - k,
{
    if k < cs.len() {
        lemma_gc_in_pointwise(cs, k + 1);
    }
}

pub proof fn lemma_cfg_loop_shape(cs: Seq<NodeV>, i: int, acc: Seq<NodeV>, rem: int)
    requires
        0 <= i <= cs.len(),
        leaves_only(cs),
        flat_two_level(acc),
        rem > 0 ==> acc.len() > 0 && acc.last().parsed matches DescV::Config(_),
    ensures
        flat_two_level(spec_cfg_loop(cs, i, acc, rem)),
    decreases cs.len() - i,
{
    if i < cs.len() {
        let c = cs[i];
        assert(c.children.len() == 0);
        match c.parsed {
            DescV::Config(conf) => {
                let acc2 = acc.push(c);
                assert forall|j: int|
                    0 <= j < acc2.len() implies ((spec_is_group(
                    (#[trigger] acc2[j]).parsed,
                ) ==> acc2[j].children.len() == 0) && leaves_only(acc2[j].children)) by {
                    if j < acc.len() {
                        assert(acc2[j] == acc[j]);
                    }
                }
                lemma_cfg_loop_shape(cs, i + 1, acc2, conf.w_total_length as int);
            },
            _ => {
                if rem > 0 && acc.len() > 0 {
                    let grown = NodeV {
                        parsed: acc.last().parsed,
                        children: acc.last().children.push(c),
                    };
                    let sz = c.dfs_bytes().len() as int;
                    let acc2 = acc.drop_last().push(grown);
                    assert(leaves_only(grown.children)) by {
                        assert forall|k: int|
                            0 <= k < grown.children.len() implies (
                        #[trigger] grown.children[k]).children.len() == 0 by {
                            if k < acc.last().children.len() {
                                assert(grown.children[k] == acc.last().children[k]);
                                assert(acc[acc.len() - 1].children[k].children.len() == 0);
                            }
                        }
                    }
                    assert forall|j: int|
                        0 <= j < acc2.len() implies ((spec_is_group(
                        (#[trigger] acc2[j]).parsed,
                    ) ==> acc2[j].children.len() == 0) && leaves_only(acc2[j].children)) by {
                        if j < acc.len() - 1 {
                            assert(acc2[j] == acc[j]);
                        } else {
                            assert(acc2[j] == grown);
                        }
                    }
                    lemma_cfg_loop_shape(
                        cs,
                        i + 1,
                        acc2,
                        if sz > rem {
                            0
                        } else {
                            rem - sz
                        },
                    );
                } else {
                    let acc2 = acc.push(c);
                    assert forall|j: int|
                        0 <= j < acc2.len() implies ((spec_is_group(
                        (#[trigger] acc2[j]).parsed,
                    ) ==> acc2[j].children.len() == 0) && leaves_only(acc2[j].children)) by {
                        if j < acc.len() {
                            assert(acc2[j] == acc[j]);
                        }
                    }
                    lemma_cfg_loop_shape(cs, i + 1, acc2, rem);
                }
            },
        }
    }
}

/// The configuration-span pass always hands the per-interface grouping a
/// tree whose interfaces and associations are leaves, whatever the bytes
/// were: the flat parse has only leaves, and the span pass nests them at
/// most one level under a configuration.
pub proof fn lemma_cfg_span_groups_childless(b: Seq<u8>)
    ensures
        groups_childless(spec_after_cfg_span(b)),
{
    let fl = crate::parse::leaves(crate::parse::spec_parse_nodes(b, 0, 0));
    assert(leaves_only(fl)) by {
        assert forall|k: int| 0 <= k < fl.len() implies (#[trigger] fl[k]).children.len()
            == 0 by {
            assert(fl[k].children =~= Seq::<NodeV>::empty());
        }
    }
    assert(flat_two_level(Seq::<NodeV>::empty()));
    lemma_cfg_loop_shape(fl, 0, Seq::empty(), 0);
    let acc = spec_cfg_loop(fl, 0, Seq::empty(), 0);
    assert forall|j: int| 0 <= j < acc.len() implies groups_childless(#[trigger] acc[j]) by {
        assert forall|k: int|
            0 <= k < acc[j].children.len() implies groups_childless(
            #[trigger] acc[j].children[k],
        ) by {
            assert(acc[j].children[k].children.len() == 0);
        }
        lemma_gc_in_pointwise(acc[j].children, 0);
    }
    lemma_gc_in_pointwise(acc, 0);
}

/// Whether a record may stand among one interface's alternate-setting
/// group without ending it: anything but an association or an interface
/// with a different number.
pub open spec fn alt_child_ok(me: crate::usb_proto::DescriptorInterface, d: DescV) -> bool {
    &&& !(d matches DescV::InterfaceAssociation(_))
    &&& (d matches DescV::Interface(c) ==> c.b_interface_number == me.b_interface_number)
}

/// Whether every interface node's children already belong to its own
/// alternate-setting group -- the shape the per-interface grouping pass
/// hands over, under which the alternate-setting pass loses no record.
pub open spec fn alt_safe(n: NodeV) -> bool
    decreases n, 0int,
{
    &&& (match n.parsed {
        DescV::Interface(me) => forall|j: int|
            0 <= j < n.children.len() ==> alt_child_ok(me, (#[trigger] n.children[j]).parsed),
        _ => true,
    })
    &&& alt_safe_in(n.children, 0)
}

pub open spec fn alt_safe_in(cs: Seq<NodeV>, k: int) -> bool
    decreases cs, cs.len() - k + 1,
{
    if k < 0 || k >= cs.len() {
        true
    } else {
        alt_safe(cs[k]) && alt_safe_in(cs, k + 1)
    }
}

pub proof fn lemma_alt_safe_index(cs: Seq<NodeV>, k: int, j: int)
    requires
        alt_safe_in(cs, k),
        0 <= k <= j < cs.len(),
    ensures
        alt_safe(cs[j]),
    decreases j - k,
{
    if k < j {
        lemma_alt_safe_index(cs, k + 1, j);
    }
}

/// The alternate-setting grouping, one walk: each record's own children
/// are regrouped first; under an interface seed the walk ends at an
/// interface with a different number or at any association, and under a
/// non-interface seed an interface first absorbs the records that follow
/// it. Returns the grown seed and the resume position.
pub open spec fn spec_pivot_alt_settings(nodev: NodeV, seed: NodeV, i: int) -> (NodeV, int)
    decreases nodev, nodev.children.len() - i + 1,
{
    let len = nodev.children.len() as int;
    if i < 0 || i >= len {
        (seed, i)
    } else {
        let c = nodev.children[i];
        let shallow = NodeV { parsed: c.parsed, children: Seq::empty() };
        let nc1 = spec_pivot_alt_settings(c, shallow, 0).0;
        match seed.parsed {
            DescV::Interface(me) => {
                if c.parsed matches DescV::Interface(cur) && cur.b_interface_number
                    != me.b_interface_number {
                    (seed, i)
                } else if c.parsed matches DescV::InterfaceAssociation(_) {
                    (seed, i)
                } else {
                    spec_pivot_alt_settings(
                        nodev,
                        NodeV { parsed: seed.parsed, children: seed.children.push(nc1) },
                        i + 1,
                    )
                }
            },
            _ => {
                if c.parsed matches DescV::Interface(_) {
                    let pre = spec_pivot_alt_settings(nodev, nc1, i + 1);
                    let j = pre.1;
                    let next0 = if j < i + 1 {
                        i + 1
                    } else {
                        j
                    };
                    let next = if next0 > len {
                        len
                    } else {
                        next0
                    };
                    spec_pivot_alt_settings(
                        nodev,
                        NodeV { parsed: seed.parsed, children: seed.children.push(pre.0) },
                        next,
                    )
                } else {
                    spec_pivot_alt_settings(
                        nodev,
                        NodeV { parsed: seed.parsed, children: seed.children.push(nc1) },
                        i + 1,
                    )
                }
            },
        }
    }
}

/// Folds later alternate settings of one interface number under the first
/// alternate setting; the group ends at the next interface number or at
/// any interface association. The result and the resume position are
/// exactly `spec_pivot_alt_settings` of the inputs, and on trees where
/// every interface's children already belong to it, the consumed records'
/// bytes are carried over exactly, in order.
pub fn pivot_alt_settings(node: &TreeNode, new_node: Option<TreeNode>, idx: &mut usize) -> (r:
    TreeNode)
    requires
        node@.tree_wf(),
        match new_node {
            Some(t) => t@.tree_wf(),
            None => true,
        },
        *old(idx) <= node@.children.len(),
    ensures
        (r@, *final(idx) as int) == spec_pivot_alt_settings(
            node@,
            opt_seed(new_node),
            *old(idx) as int,
        ),
        *old(idx) <= *final(idx) <= node@.children.len(),
        r@.parsed == opt_seed(new_node).parsed,
        r@.tree_wf(),
        alt_safe(node@) ==> dfs_children_bytes(r@.children) == dfs_children_bytes(
            opt_seed(new_node).children,
        ) + dfs_range(node@.children, *old(idx) as int, *final(idx) as int),
        alt_safe(node@) && (match opt_seed(new_node).parsed {
            DescV::Interface(me) => forall|j: int|
                *old(idx) <= j < node@.children.len() ==> alt_child_ok(
                    me,
                    (#[trigger] node@.children[j]).parsed,
                ),
            _ => true,
        }) ==> *final(idx) == node@.children.len(),
    decreases *node, node@.children.len() - *old(idx),
{
    let mut out = match new_node {
        Some(t) => t,
        None => TreeNode::new(),
    };
    proof {
        assert(out@ =~= opt_seed(new_node));
    }
    let seed_iface_num: Option<u8> = match &out.parsed {
        DescriptorTypes::Interface(orig_iface) => Some(orig_iface.b_interface_number),
        _ => None,
    };
    let len = node.children.len();
    proof {
        lemma_children_view_len(node.children@);
    }
    let ghost idx0 = *idx;
    let ghost cs = node@.children;
    proof {
        if alt_safe(node@) {
            assert(cs.subrange(idx0 as int, idx0 as int) =~= Seq::<NodeV>::empty());
            assert(dfs_children_bytes(out@.children) =~= dfs_children_bytes(
                opt_seed(new_node).children,
            ) + dfs_range(cs, idx0 as int, idx0 as int));
        }
    }
    while *idx < len
        invariant
            idx0 == *old(idx),
            idx0 <= *idx <= len,
            len == node@.children.len(),
            len == node.children@.len(),
            cs == node@.children,
            node@.tree_wf(),
            out@.parsed == opt_seed(new_node).parsed,
            out@.tree_wf(),
            seed_iface_num == (match opt_seed(new_node).parsed {
                DescV::Interface(orig_iface) => Some(orig_iface.b_interface_number),
                _ => None::<u8>,
            }),
            spec_pivot_alt_settings(node@, opt_seed(new_node), idx0 as int)
                == spec_pivot_alt_settings(node@, out@, *idx as int),
            alt_safe(node@) ==> dfs_children_bytes(out@.children) == dfs_children_bytes(
                opt_seed(new_node).children,
            ) + dfs_range(cs, idx0 as int, *idx as int),
        decreases len - *idx,
    {
        let i = *idx;
        proof {
            lemma_children_view_index(node.children@, i as int);
            assert(node@.children[i as int].tree_wf());
            if alt_safe(node@) {
                lemma_alt_safe_index(cs, 0, i as int);
            }
        }
        let child = &node.children[i];
        let mut new_child = child.shallow_clone();
        let done = {
            let mut inner: usize = 0;
            pivot_alt_settings(child, Some(new_child), &mut inner)
        };
        new_child = done;
        proof {
            if alt_safe(node@) {
                assert(cs[i as int].children.subrange(0, cs[i as int].children.len() as int)
                    =~= cs[i as int].children);
                assert(new_child@.dfs_bytes() =~= cs[i as int].dfs_bytes());
            }
        }
        let ghost out_at_i = out@;
        let ghost mut j: int = i + 1;
        match seed_iface_num {
            Some(num) => {
                match &child.parsed {
                    DescriptorTypes::Interface(cur_iface) => {
                        if cur_iface.b_interface_number != num {
                            proof {
                                assert(spec_pivot_alt_settings(node@, out@, i as int) == (
                                    out@,
                                    i as int,
                                ));
                            }
                            return out;
                        }
                    },
                    DescriptorTypes::InterfaceAssociation(_) => {
                        proof {
                            assert(spec_pivot_alt_settings(node@, out@, i as int) == (
                                out@,
                                i as int,
                            ));
                        }
                        return out;
                    },
                    _ => {},
                }
                let ghost prev_out_children = out@.children;
                out.attach_child(new_child);
                proof {
                    if alt_safe(node@) {
                        lemma_dfs_children_bytes_push(prev_out_children, new_child@);
                        lemma_dfs_range_one(cs, i as int);
                        lemma_dfs_range_split(cs, idx0 as int, i as int, i + 1);
                        assert(dfs_children_bytes(out@.children) =~= dfs_children_bytes(
                            opt_seed(new_node).children,
                        ) + dfs_range(cs, idx0 as int, i + 1));
                    }
                }
            },
            None => {
                let child_is_iface = matches!(&child.parsed, DescriptorTypes::Interface(_));
                if child_is_iface {
                    *idx = i + 1;
                    let done2 = pivot_alt_settings(node, Some(new_child), idx);
                    new_child = done2;
                    proof {
                        j = *idx as int;
                    }
                    proof {
                        if alt_safe(node@) {
                            assert(new_child@.dfs_bytes() =~= cs[i as int].dfs_bytes()
                                + dfs_range(cs, i + 1, j));
                            lemma_dfs_range_one(cs, i as int);
                            lemma_dfs_range_split(cs, i as int, i + 1, j);
                            assert(new_child@.dfs_bytes() =~= dfs_range(cs, i as int, j));
                        }
                    }
                    let ghost prev_out_children = out@.children;
                    out.attach_child(new_child);
                    proof {
                        if alt_safe(node@) {
                            lemma_dfs_children_bytes_push(prev_out_children, new_child@);
                            lemma_dfs_range_split(cs, idx0 as int, i as int, j);
                            assert(dfs_children_bytes(out@.children) =~= dfs_children_bytes(
                                opt_seed(new_node).children,
                            ) + dfs_range(cs, idx0 as int, j));
                        }
                    }
                    *idx = *idx - 1;
                } else {
                    let ghost prev_out_children = out@.children;
                    out.attach_child(new_child);
                    proof {
                        if alt_safe(node@) {
                            lemma_dfs_children_bytes_push(prev_out_children, new_child@);
                            lemma_dfs_range_one(cs, i as int);
                            lemma_dfs_range_split(cs, idx0 as int, i as int, i + 1);
                            assert(dfs_children_bytes(out@.children) =~= dfs_children_bytes(
                                opt_seed(new_node).children,
                            ) + dfs_range(cs, idx0 as int, i + 1));
                        }
                    }
                }
            },
        }
        proof {
            assert(out@.children =~= out_at_i.children.push(new_child@));
            assert(spec_pivot_alt_settings(node@, out_at_i, i as int)
                == spec_pivot_alt_settings(node@, out@, j));
        }
        *idx = *idx + 1;
    }
    out
}

/// Whether every UVC input header in the tree is still a leaf; the
/// header-span pass loses no record on such trees.
pub open spec fn hdr_safe(n: NodeV) -> bool
    decreases n, 0int,
{
    &&& (n.parsed matches DescV::UvcInputHeader(_) ==> n.children.len() == 0)
    &&& hdr_safe_in(n.children, 0)
}

pub open spec fn hdr_safe_in(cs: Seq<NodeV>, k: int) -> bool
    decreases cs, cs.len() - k + 1,
{
    if k < 0 || k >= cs.len() {
        true
    } else {
        hdr_safe(cs[k]) && hdr_safe_in(cs, k + 1)
    }
}

pub proof fn lemma_hdr_safe_index(cs: Seq<NodeV>, k: int, j: int)
    requires
        hdr_safe_in(cs, k),
        0 <= k <= j < cs.len(),
    ensures
        hdr_safe(cs[j]),
    decreases j - k,
{
    if k < j {
        lemma_hdr_safe_index(cs, k + 1, j);
    }
}

/// The input-header span walk: while the byte budget lasts, each record
/// joins the seed; an input header met on the way first absorbs the
/// records inside its own `wTotalLength` span. A budget of `usize::MAX`
/// is the no-limit marker. Returns the grown seed and the resume
/// position.
pub open spec fn spec_pivot_uvc_input_hdr(nodev: NodeV, seed: NodeV, i: int, remaining: int) -> (
    NodeV,
    int,
)
    decreases nodev, nodev.children.len() - i + 1,
{
    let len = nodev.children.len() as int;
    if i < 0 || i >= len || remaining <= 0 {
        (seed, i)
    } else {
        let c = nodev.children[i];
        let shallow = NodeV { parsed: c.parsed, children: Seq::empty() };
        let pre = match c.parsed {
            DescV::UvcInputHeader(h) => {
                let own = 13 + h.bma_controls.len() as int;
                let total = h.w_total_length as int;
                spec_pivot_uvc_input_hdr(
                    nodev,
                    shallow,
                    i + 1,
                    if total > own {
                        total - own
                    } else {
                        0
                    },
                )
            },
            _ => (shallow, i + 1),
        };
        let j = pre.1;
        let next0 = if j < i + 1 {
            i + 1
        } else {
            j
        };
        let next = if next0 > len {
            len
        } else {
            next0
        };
        let nc = spec_pivot_uvc_input_hdr(c, pre.0, 0, usize::MAX as int).0;
        let sz = nc.dfs_bytes().len() as int;
        let rem2 = if remaining == usize::MAX as int {
            remaining
        } else if sz > remaining {
            0
        } else {
            remaining - sz
        };
        spec_pivot_uvc_input_hdr(
            nodev,
            NodeV { parsed: seed.parsed, children: seed.children.push(nc) },
            next,
            rem2,
        )
    }
}

/// Folds the records inside a UVC input header's `wTotalLength` span under
/// the header; `bytes_remaining` is the remaining byte budget of the
/// enclosing span, and the walk stops when the budget runs out. A budget
/// of `usize::MAX` is the no-limit marker the top-level call passes. The
/// result and the resume position are exactly `spec_pivot_uvc_input_hdr`
/// of the inputs, and on trees whose input headers are still leaves, the
/// consumed records' bytes are carried over exactly, in order.
pub fn pivot_uvc_input_hdr(
    node: &TreeNode,
    new_node: Option<TreeNode>,
    idx: &mut usize,
    bytes_remaining: usize,
) -> (r: TreeNode)
    requires
        node@.tree_wf(),
        match new_node {
            Some(t) => t@.tree_wf(),
            None => true,
        },
        *old(idx) <= node@.children.len(),
    ensures
        (r@, *final(idx) as int) == spec_pivot_uvc_input_hdr(
            node@,
            opt_seed(new_node),
            *old(idx) as int,
            bytes_remaining as int,
        ),
        *old(idx) <= *final(idx) <= node@.children.len(),
        r@.parsed == opt_seed(new_node).parsed,
        r@.tree_wf(),
        hdr_safe(node@) ==> dfs_children_bytes(r@.children) == dfs_children_bytes(
            opt_seed(new_node).children,
        ) + dfs_range(node@.children, *old(idx) as int, *final(idx) as int),
        hdr_safe(node@) && bytes_remaining == usize::MAX ==> *final(idx)
            == node@.children.len(),
    decreases *node, node@.children.len() - *old(idx),
{
    let mut out = match new_node {
        Some(t) => t,
        None => TreeNode::new(),
    };
    proof {
        assert(out@ =~= opt_seed(new_node));
    }
    let mut remaining = bytes_remaining;
    let len = node.children.len();
    proof {
        lemma_children_view_len(node.children@);
    }
    let ghost idx0 = *idx;
    let ghost cs = node@.children;
    proof {
        if hdr_safe(node@) {
            assert(cs.subrange(idx0 as int, idx0 as int) =~= Seq::<NodeV>::empty());
            assert(dfs_children_bytes(out@.children) =~= dfs_children_bytes(
                opt_seed(new_node).children,
            ) + dfs_range(cs, idx0 as int, idx0 as int));
        }
    }
    while *idx < len && remaining > 0
        invariant
            idx0 == *old(idx),
            idx0 <= *idx <= len,
            len == node@.children.len(),
            len == node.children@.len(),
            cs == node@.children,
            node@.tree_wf(),
            out@.parsed == opt_seed(new_node).parsed,
            out@.tree_wf(),
            bytes_remaining == usize::MAX ==> remaining == usize::MAX,
            spec_pivot_uvc_input_hdr(node@, opt_seed(new_node), idx0 as int, bytes_remaining as int)
                == spec_pivot_uvc_input_hdr(node@, out@, *idx as int, remaining as int),
            hdr_safe(node@) ==> dfs_children_bytes(out@.children) == dfs_children_bytes(
                opt_seed(new_node).children,
            ) + dfs_range(cs, idx0 as int, *idx as int),
        decreases len - *idx,
    {
        let i = *idx;
        proof {
            lemma_children_view_index(node.children@, i as int);
            assert(node@.children[i as int].tree_wf());
            if hdr_safe(node@) {
                lemma_hdr_safe_index(cs, 0, i as int);
            }
        }
        let child = &node.children[i];
        let mut new_child = child.shallow_clone();
        let hdr_span: Option<usize> = match &child.parsed {
            DescriptorTypes::UvcInputHeader(hdr) => {
                let own = 13 + hdr.bma_controls.len();
                let total = hdr.w_total_length as usize;
                if total > own {
                    Some(total - own)
                } else {
                    Some(0)
                }
            },
            _ => None,
        };
        let ghost out_at_i = out@;
        let ghost rem_at_i: int = remaining as int;
        let ghost mut j: int = i + 1;
        match hdr_span {
            Some(span) => {
                *idx = i + 1;
                let done = pivot_uvc_input_hdr(node, Some(new_child), idx, span);
                new_child = done;
                proof {
                    j = *idx as int;
                }
                let done2 = {
                    let mut inner: usize = 0;
                    pivot_uvc_input_hdr(child, Some(new_child), &mut inner, usize::MAX)
                };
                new_child = done2;
                proof {
                    if hdr_safe(node@) {
                        assert(cs[i as int].children.len() == 0);
                        assert(dfs_children_bytes(new_child@.children) =~= dfs_range(
                            cs,
                            i + 1,
                            j,
                        ));
                        assert(cs[i as int].dfs_bytes() =~= cs[i as int].parsed.wire());
                        assert(new_child@.dfs_bytes() =~= cs[i as int].dfs_bytes() + dfs_range(
                            cs,
                            i + 1,
                            j,
                        ));
                        lemma_dfs_range_one(cs, i as int);
                        lemma_dfs_range_split(cs, i as int, i + 1, j);
                        assert(new_child@.dfs_bytes() =~= dfs_range(cs, i as int, j));
                    }
                }
                *idx = *idx - 1;
            },
            None => {
                let done2 = {
                    let mut inner: usize = 0;
                    pivot_uvc_input_hdr(child, Some(new_child), &mut inner, usize::MAX)
                };
                new_child = done2;
                proof {
                    if hdr_safe(node@) {
                        assert(cs[i as int].children.subrange(
                            0,
                            cs[i as int].children.len() as int,
                        ) =~= cs[i as int].children);
                        assert(new_child@.dfs_bytes() =~= cs[i as int].dfs_bytes());
                        lemma_dfs_range_one(cs, i as int);
                    }
                }
            },
        }
        let mut tmp_buf: Vec<u8> = Vec::new();
        let _ = new_child.serialize(&mut tmp_buf);
        let sz = tmp_buf.len();
        if remaining != usize::MAX {
            if sz > remaining {
                remaining = 0;
            } else {
                remaining = remaining - sz;
            }
        }
        let ghost prev_out_children = out@.children;
        out.attach_child(new_child);
        proof {
            if hdr_safe(node@) {
                lemma_dfs_children_bytes_push(prev_out_children, new_child@);
                lemma_dfs_range_split(cs, idx0 as int, i as int, j);
                assert(dfs_children_bytes(out@.children) =~= dfs_children_bytes(
                    opt_seed(new_node).children,
                ) + dfs_range(cs, idx0 as int, j));
            }
            assert(out@.children =~= out_at_i.children.push(new_child@));
            assert(sz == new_child@.dfs_bytes().len());
            assert(spec_pivot_uvc_input_hdr(node@, out_at_i, i as int, rem_at_i)
                == spec_pivot_uvc_input_hdr(node@, out@, j, remaining as int));
        }
        *idx = *idx + 1;
    }
    out
}

/// Whether every interface association in the tree is still a leaf; the
/// association-span pass loses no record on such trees.
pub open spec fn assoc_safe(n: NodeV) -> bool
    decreases n, 0int,
{
    &&& (n.parsed matches DescV::InterfaceAssociation(_) ==> n.children.len() == 0)
    &&& assoc_safe_in(n.children, 0)
}

pub open spec fn assoc_safe_in(cs: Seq<NodeV>, k: int) -> bool
    decreases cs, cs.len() - k + 1,
{
    if k < 0 || k >= cs.len() {
        true
    } else {
        assoc_safe(cs[k]) && assoc_safe_in(cs, k + 1)
    }
}

pub proof fn lemma_assoc_safe_index(cs: Seq<NodeV>, k: int, j: int)
    requires
        assoc_safe_in(cs, k),
        0 <= k <= j < cs.len(),
    ensures
        assoc_safe(cs[j]),
    decreases j - k,
{
    if k < j {
        lemma_assoc_safe_index(cs, k + 1, j);
    }
}

/// The association-span walk: under an association seed, only interfaces
/// inside the declared range join the seed, and the first interface
/// outside it or any non-interface record ends the span; an association
/// met under any other seed first absorbs the records that follow it.
/// Returns the grown seed and the resume position.
pub open spec fn spec_pivot_iface_assoc(nodev: NodeV, seed: NodeV, i: int) -> (NodeV, int)
    decreases nodev, nodev.children.len() - i + 1,
{
    let len = nodev.children.len() as int;
    if i < 0 || i >= len {
        (seed, i)
    } else {
        let c = nodev.children[i];
        let shallow = NodeV { parsed: c.parsed, children: Seq::empty() };
        match seed.parsed {
            DescV::InterfaceAssociation(assoc) => {
                match c.parsed {
                    DescV::Interface(ifc) => {
                        if !assoc.spec_covers(ifc.b_interface_number) {
                            (seed, i)
                        } else {
                            let nc = spec_pivot_iface_assoc(c, shallow, 0).0;
                            spec_pivot_iface_assoc(
                                nodev,
                                NodeV { parsed: seed.parsed, children: seed.children.push(nc) },
                                i + 1,
                            )
                        }
                    },
                    _ => (seed, i),
                }
            },
            _ => {
                if c.parsed matches DescV::InterfaceAssociation(_) {
                    let pre = spec_pivot_iface_assoc(nodev, shallow, i + 1);
                    let j = pre.1;
                    let next0 = if j < i + 1 {
                        i + 1
                    } else {
                        j
                    };
                    let next = if next0 > len {
                        len
                    } else {
                        next0
                    };
                    let nc = spec_pivot_iface_assoc(c, pre.0, 0).0;
                    spec_pivot_iface_assoc(
                        nodev,
                        NodeV { parsed: seed.parsed, children: seed.children.push(nc) },
                        next,
                    )
                } else {
                    let nc = spec_pivot_iface_assoc(c, shallow, 0).0;
                    spec_pivot_iface_assoc(
                        nodev,
                        NodeV { parsed: seed.parsed, children: seed.children.push(nc) },
                        i + 1,
                    )
                }
            },
        }
    }
}

/// Folds the interfaces covered by an interface association's
/// `[bFirstInterface, bFirstInterface + bInterfaceCount - 1]` range under
/// the association; the span ends at the first interface outside the range
/// or at any non-interface record. The result and the resume position are
/// exactly `spec_pivot_iface_assoc` of the inputs, and on trees whose
/// associations are still leaves, the consumed records' bytes are carried
/// over exactly, in order.
pub fn pivot_iface_assoc(node: &TreeNode, new_node: Option<TreeNode>, idx: &mut usize) -> (r:
    TreeNode)
    requires
        node@.tree_wf(),
        match new_node {
            Some(t) => t@.tree_wf(),
            None => true,
        },
        *old(idx) <= node@.children.len(),
    ensures
        (r@, *final(idx) as int) == spec_pivot_iface_assoc(
            node@,
            opt_seed(new_node),
            *old(idx) as int,
        ),
        *old(idx) <= *final(idx) <= node@.children.len(),
        r@.parsed == opt_seed(new_node).parsed,
        r@.tree_wf(),
        assoc_safe(node@) ==> dfs_children_bytes(r@.children) == dfs_children_bytes(
            opt_seed(new_node).children,
        ) + dfs_range(node@.children, *old(idx) as int, *final(idx) as int),
        assoc_safe(node@) && !(opt_seed(new_node).parsed matches DescV::InterfaceAssociation(_))
            ==> *final(idx) == node@.children.len(),
    decreases *node, node@.children.len() - *old(idx),
{
    let mut out = match new_node {
        Some(t) => t,
        None => TreeNode::new(),
    };
    proof {
        assert(out@ =~= opt_seed(new_node));
    }
    let seed_assoc = match &out.parsed {
        DescriptorTypes::InterfaceAssociation(assoc) => Some(*assoc),
        _ => None,
    };
    let len = node.children.len();
    proof {
        lemma_children_view_len(node.children@);
    }
    let ghost idx0 = *idx;
    let ghost cs = node@.children;
    proof {
        if assoc_safe(node@) {
            assert(cs.subrange(idx0 as int, idx0 as int) =~= Seq::<NodeV>::empty());
            assert(dfs_children_bytes(out@.children) =~= dfs_children_bytes(
                opt_seed(new_node).children,
            ) + dfs_range(cs, idx0 as int, idx0 as int));
        }
    }
    while *idx < len
        invariant
            idx0 == *old(idx),
            idx0 <= *idx <= len,
            len == node@.children.len(),
            len == node.children@.len(),
            cs == node@.children,
            node@.tree_wf(),
            out@.parsed == opt_seed(new_node).parsed,
            out@.tree_wf(),
            seed_assoc == (match opt_seed(new_node).parsed {
                DescV::InterfaceAssociation(assoc) => Some(assoc),
                _ => None::<crate::usb_proto::UsbInterfaceAssocDescriptor>,
            }),
            spec_pivot_iface_assoc(node@, opt_seed(new_node), idx0 as int)
                == spec_pivot_iface_assoc(node@, out@, *idx as int),
            assoc_safe(node@) ==> dfs_children_bytes(out@.children) == dfs_children_bytes(
                opt_seed(new_node).children,
            ) + dfs_range(cs, idx0 as int, *idx as int),
        decreases len - *idx,
    {
        let i = *idx;
        proof {
            lemma_children_view_index(node.children@, i as int);
            assert(node@.children[i as int].tree_wf());
            if assoc_safe(node@) {
                lemma_assoc_safe_index(cs, 0, i as int);
            }
        }
        let child = &node.children[i];
        let mut new_child = child.shallow_clone();
        let mut absorbed = false;
        let ghost out_at_i = out@;
        let ghost mut j: int = i + 1;
        match &seed_assoc {
            Some(assoc) => {
                match &child.parsed {
                    DescriptorTypes::Interface(iface) => {
                        if !assoc.covers(iface.b_interface_number) {
                            proof {
                                assert(spec_pivot_iface_assoc(node@, out@, i as int) == (
                                    out@,
                                    i as int,
                                ));
                            }
                            return out;
                        }
                    },
                    _ => {
                        proof {
                            assert(spec_pivot_iface_assoc(node@, out@, i as int) == (
                                out@,
                                i as int,
                            ));
                        }
                        return out;
                    },
                }
            },
            None => {
                let child_is_assoc = matches!(
                    &child.parsed,
                    DescriptorTypes::InterfaceAssociation(_)
                );
                if child_is_assoc {
                    *idx = i + 1;
                    let done = pivot_iface_assoc(node, Some(new_child), idx);
                    new_child = done;
                    proof {
                        j = *idx as int;
                    }
                    absorbed = true;
                    *idx = *idx - 1;
                }
            },
        }
        let done2 = {
            let mut inner: usize = 0;
            pivot_iface_assoc(child, Some(new_child), &mut inner)
        };
        new_child = done2;
        proof {
            if assoc_safe(node@) {
                if absorbed {
                    assert(cs[i as int].children.len() == 0);
                    assert(dfs_children_bytes(new_child@.children) =~= dfs_range(cs, i + 1, j));
                    assert(cs[i as int].dfs_bytes() =~= cs[i as int].parsed.wire());
                    assert(new_child@.dfs_bytes() =~= cs[i as int].dfs_bytes() + dfs_range(
                        cs,
                        i + 1,
                        j,
                    ));
                    lemma_dfs_range_one(cs, i as int);
                    lemma_dfs_range_split(cs, i as int, i + 1, j);
                    assert(new_child@.dfs_bytes() =~= dfs_range(cs, i as int, j));
                } else {
                    assert(!(cs[i as int].parsed matches DescV::InterfaceAssociation(_)));
                    assert(cs[i as int].children.subrange(
                        0,
                        cs[i as int].children.len() as int,
                    ) =~= cs[i as int].children);
                    assert(new_child@.dfs_bytes() =~= cs[i as int].dfs_bytes());
                    lemma_dfs_range_one(cs, i as int);
                    assert(new_child@.dfs_bytes() =~= dfs_range(cs, i as int, i + 1));
                }
            }
        }
        let ghost prev_out_children = out@.children;
        out.attach_child(new_child);
        proof {
            if assoc_safe(node@) {
                lemma_dfs_children_bytes_push(prev_out_children, new_child@);
                lemma_dfs_range_split(cs, idx0 as int, i as int, j);
                assert(dfs_children_bytes(out@.children) =~= dfs_children_bytes(
                    opt_seed(new_node).children,
                ) + dfs_range(cs, idx0 as int, j));
            }
            assert(out@.children =~= out_at_i.children.push(new_child@));
            assert(spec_pivot_iface_assoc(node@, out_at_i, i as int) == spec_pivot_iface_assoc(
                node@,
                out@,
                j,
            ));
        }
        *idx = *idx + 1;
    }
    out
}

/// Whether every UVC format record in the tree is still a leaf; the
/// format/frame nesting pass loses no record on such trees.
pub open spec fn fmt_safe(n: NodeV) -> bool
    decreases n, 0int,
{
    &&& (n.parsed.is_uvc_format() ==> n.children.len() == 0)
    &&& fmt_safe_in(n.children, 0)
}

pub open spec fn fmt_safe_in(cs: Seq<NodeV>, k: int) -> bool
    decreases cs, cs.len() - k + 1,
{
    if k < 0 || k >= cs.len() {
        true
    } else {
        fmt_safe(cs[k]) && fmt_safe_in(cs, k + 1)
    }
}

pub proof fn lemma_fmt_safe_index(cs: Seq<NodeV>, k: int, j: int)
    requires
        fmt_safe_in(cs, k),
        0 <= k <= j < cs.len(),
    ensures
        fmt_safe(cs[j]),
    decreases j - k,
{
    if k < j {
        lemma_fmt_safe_index(cs, k + 1, j);
    }
}

/// The position after the last child the format/frame pass consumed,
/// given its returned resume index.
pub open spec fn fmt_consumed_end(r: usize, len: int) -> int {
    if r + 1 <= len {
        r + 1
    } else {
        len
    }
}

/// The format/frame nesting walk: under a format seed, the following
/// frame-family records join the seed until the first record that cannot
/// stand under a format; a format met under a non-format seed first
/// claims the frames that follow it. Returns the grown seed and the
/// resume index.
pub open spec fn spec_pivot_uvc_fmt_hdr(nodev: NodeV, nn: NodeV, i: int) -> (NodeV, int)
    decreases nodev, nodev.children.len() - i + 1,
{
    let len = nodev.children.len() as int;
    if i < 0 || i >= len {
        (nn, i)
    } else {
        let c = nodev.children[i];
        let shallow = NodeV { parsed: c.parsed, children: Seq::empty() };
        if nn.parsed.is_uvc_format() {
            if !c.parsed.is_fmt_child() {
                if i == 0 {
                    (nn, 0)
                } else {
                    (nn, i - 1)
                }
            } else {
                let nc = spec_pivot_uvc_fmt_hdr(c, shallow, 0).0;
                spec_pivot_uvc_fmt_hdr(
                    nodev,
                    NodeV { parsed: nn.parsed, children: nn.children.push(nc) },
                    i + 1,
                )
            }
        } else {
            if c.parsed.is_uvc_format() {
                let pre = spec_pivot_uvc_fmt_hdr(nodev, shallow, i + 1);
                let j = pre.1;
                let next0 = if j < i {
                    i
                } else {
                    j
                };
                let next = if next0 > len {
                    len
                } else {
                    next0
                };
                let nc = spec_pivot_uvc_fmt_hdr(c, pre.0, 0).0;
                let nn2 = NodeV { parsed: nn.parsed, children: nn.children.push(nc) };
                if next >= len {
                    (nn2, next)
                } else {
                    spec_pivot_uvc_fmt_hdr(nodev, nn2, next + 1)
                }
            } else {
                let nc = spec_pivot_uvc_fmt_hdr(c, shallow, 0).0;
                spec_pivot_uvc_fmt_hdr(
                    nodev,
                    NodeV { parsed: nn.parsed, children: nn.children.push(nc) },
                    i + 1,
                )
            }
        }
    }
}

/// Folds the frame records that follow a UVC format record under that
/// format, until the next format or any record that cannot stand under a
/// format. Returns the index at which the caller resumes. The grown node
/// and the returned index are exactly `spec_pivot_uvc_fmt_hdr` of the
/// inputs, and on trees whose format records are still leaves, the
/// consumed records' bytes are appended exactly, in order.
pub fn pivot_uvc_fmt_hdr(node: &TreeNode, new_node: &mut TreeNode, idx: usize) -> (r: usize)
    requires
        node@.tree_wf(),
        old(new_node)@.tree_wf(),
        idx <= node@.children.len(),
    ensures
        (final(new_node)@, r as int) == spec_pivot_uvc_fmt_hdr(
            node@,
            old(new_node)@,
            idx as int,
        ),
        final(new_node)@.parsed == old(new_node)@.parsed,
        final(new_node)@.tree_wf(),
        r >= idx || r + 1 == idx,
        r <= node@.children.len(),
        node@.children.len() == 0 ==> final(new_node)@.children == old(new_node)@.children,
        fmt_safe(node@) && (old(new_node)@.parsed.is_uvc_format() ==> idx >= 1) ==> idx
            <= fmt_consumed_end(r, node@.children.len() as int) && dfs_children_bytes(
            final(new_node)@.children,
        ) == dfs_children_bytes(old(new_node)@.children) + dfs_range(
            node@.children,
            idx as int,
            fmt_consumed_end(r, node@.children.len() as int),
        ),
        fmt_safe(node@) && !old(new_node)@.parsed.is_uvc_format() ==> r
            == node@.children.len(),
    decreases *node, node@.children.len() - idx,
{
    let seed_is_format = new_node.parsed.is_uvc_format();
    let len = node.children.len();
    proof {
        lemma_children_view_len(node.children@);
    }
    let ghost cs = node@.children;
    let mut i = idx;
    proof {
        if fmt_safe(node@) {
            assert(cs.subrange(idx as int, idx as int) =~= Seq::<NodeV>::empty());
            assert(dfs_children_bytes(new_node@.children) =~= dfs_children_bytes(
                old(new_node)@.children,
            ) + dfs_range(cs, idx as int, idx as int));
        }
    }
    while i < len
        invariant
            idx <= i <= len,
            len == node@.children.len(),
            len == node.children@.len(),
            cs == node@.children,
            node@.tree_wf(),
            new_node@.parsed == old(new_node)@.parsed,
            new_node@.tree_wf(),
            seed_is_format == old(new_node)@.parsed.is_uvc_format(),
            len == 0 ==> new_node@.children == old(new_node)@.children,
            spec_pivot_uvc_fmt_hdr(node@, old(new_node)@, idx as int)
                == spec_pivot_uvc_fmt_hdr(node@, new_node@, i as int),
            fmt_safe(node@) ==> dfs_children_bytes(new_node@.children) == dfs_children_bytes(
                old(new_node)@.children,
            ) + dfs_range(cs, idx as int, i as int),
        decreases len - i,
    {
        let ghost pos: int = i as int;
        let ghost nn_at_i = new_node@;
        proof {
            lemma_children_view_index(node.children@, pos);
            assert(node@.children[pos].tree_wf());
            if fmt_safe(node@) {
                lemma_fmt_safe_index(cs, 0, pos);
            }
        }
        let child = &node.children[i];
        let mut new_child = child.shallow_clone();
        let ghost mut consumed_to: int = pos + 1;
        if seed_is_format {
            if !child.parsed.is_fmt_child() {
                if i == 0 {
                    return 0;
                }
                return i - 1;
            }
            let sub = pivot_uvc_fmt_hdr(child, &mut new_child, 0);
            proof {
                if fmt_safe(node@) {
                    assert(!cs[pos].parsed.is_uvc_format());
                    assert(sub as int == cs[pos].children.len());
                    assert(cs[pos].children.subrange(
                        0,
                        fmt_consumed_end(sub, cs[pos].children.len() as int),
                    ) =~= cs[pos].children);
                    assert(new_child@.dfs_bytes() =~= cs[pos].dfs_bytes());
                    lemma_dfs_range_one(cs, pos);
                }
            }
        } else {
            if child.parsed.is_uvc_format() {
                let next = pivot_uvc_fmt_hdr(node, &mut new_child, i + 1);
                proof {
                    if fmt_safe(node@) {
                        consumed_to = fmt_consumed_end(next, len as int);
                        assert(cs[pos].children.len() == 0);
                        assert(dfs_children_bytes(new_child@.children) =~= dfs_range(
                            cs,
                            pos + 1,
                            consumed_to,
                        ));
                        assert(cs[pos].dfs_bytes() =~= cs[pos].parsed.wire());
                        lemma_dfs_range_one(cs, pos);
                        lemma_dfs_range_split(cs, pos, pos + 1, consumed_to);
                        assert(new_child@.dfs_bytes() =~= dfs_range(cs, pos, consumed_to));
                    }
                }
                let sub = pivot_uvc_fmt_hdr(child, &mut new_child, 0);
                proof {
                    if fmt_safe(node@) {
                        assert(cs[pos].children.subrange(
                            0,
                            fmt_consumed_end(sub, cs[pos].children.len() as int),
                        ) =~= Seq::<NodeV>::empty());
                    }
                }
                i = next;
            } else {
                let sub = pivot_uvc_fmt_hdr(child, &mut new_child, 0);
                proof {
                    if fmt_safe(node@) {
                        assert(!cs[pos].parsed.is_uvc_format());
                        assert(sub as int == cs[pos].children.len());
                        assert(cs[pos].children.subrange(
                            0,
                            fmt_consumed_end(sub, cs[pos].children.len() as int),
                        ) =~= cs[pos].children);
                        assert(new_child@.dfs_bytes() =~= cs[pos].dfs_bytes());
                        lemma_dfs_range_one(cs, pos);
                    }
                }
            }
        }
        let ghost prev_out_children = new_node@.children;
        new_node.attach_child(new_child);
        proof {
            assert(new_node@.children =~= nn_at_i.children.push(new_child@));
            if fmt_safe(node@) {
                lemma_dfs_children_bytes_push(prev_out_children, new_child@);
                assert(new_child@.dfs_bytes() == dfs_range(cs, pos, consumed_to));
                lemma_dfs_range_split(cs, idx as int, pos, consumed_to);
                assert(dfs_children_bytes(new_node@.children) =~= dfs_children_bytes(
                    old(new_node)@.children,
                ) + dfs_range(cs, idx as int, consumed_to));
            }
        }
        if i >= len {
            proof {
                if fmt_safe(node@) {
                    assert(consumed_to == len);
                }
                assert(spec_pivot_uvc_fmt_hdr(node@, nn_at_i, pos) == (new_node@, i as int));
            }
            return i;
        }
        proof {
            if fmt_safe(node@) {
                assert(consumed_to == i + 1);
            }
            assert(spec_pivot_uvc_fmt_hdr(node@, nn_at_i, pos) == spec_pivot_uvc_fmt_hdr(
                node@,
                new_node@,
                i + 1,
            ));
        }
        i = i + 1;
    }
    i
}

/// The seed every pipeline stage starts from: a bare root.
pub open spec fn spec_root_seed() -> NodeV {
    NodeV { parsed: DescV::Root, children: Seq::empty() }
}

/// The flat parse of the stream, as a tree: a root over one leaf per
/// record.
pub open spec fn spec_flat_tree(b: Seq<u8>) -> NodeV {
    NodeV {
        parsed: DescV::Root,
        children: crate::parse::leaves(crate::parse::spec_parse_nodes(b, 0, 0)),
    }
}

/// The tree after the configuration-span pass.
pub open spec fn spec_after_cfg_span(b: Seq<u8>) -> NodeV {
    spec_pivot_cfg_desc(spec_flat_tree(b))
}

/// The tree after the per-interface grouping pass.
pub open spec fn spec_after_iface_grouping(b: Seq<u8>) -> NodeV {
    spec_pivot_iface_children(spec_after_cfg_span(b), spec_root_seed(), 0).0
}

/// The tree after the alternate-setting pass.
pub open spec fn spec_after_alt_settings(b: Seq<u8>) -> NodeV {
    spec_pivot_alt_settings(spec_after_iface_grouping(b), spec_root_seed(), 0).0
}

/// The tree after the input-header span pass.
pub open spec fn spec_after_hdr_span(b: Seq<u8>) -> NodeV {
    spec_pivot_uvc_input_hdr(spec_after_alt_settings(b), spec_root_seed(), 0, usize::MAX as int).0
}

/// The tree after the association-span pass.
pub open spec fn spec_after_assoc_span(b: Seq<u8>) -> NodeV {
    spec_pivot_iface_assoc(spec_after_hdr_span(b), spec_root_seed(), 0).0
}

/// The whole parse: the flat record list reshaped by the six passes in
/// their fixed order.
pub open spec fn spec_deserialize(b: Seq<u8>) -> NodeV {
    spec_pivot_uvc_fmt_hdr(spec_after_assoc_span(b), spec_root_seed(), 0).0
}

/// The shape conditions under which the later passes lose no record:
/// after each stage, the nodes the next pass lets absorb their siblings
/// are still leaves (the span pass needs no condition: it always yields
/// leaf interfaces and associations, see
/// `lemma_cfg_span_groups_childless`). These hold of every descriptor
/// laid out in the usual wire order; an association that has absorbed
/// stray records between itself and its first interface is the kind of
/// input that breaks them.
pub open spec fn spec_pipeline_orderly(b: Seq<u8>) -> bool {
    &&& alt_safe(spec_after_iface_grouping(b))
    &&& hdr_safe(spec_after_alt_settings(b))
    &&& assoc_safe(spec_after_hdr_span(b))
    &&& fmt_safe(spec_after_assoc_span(b))
}

impl TreeNode {
    /// Parses a configuration descriptor byte stream into the structured
    /// tree: a flat record parse followed by the ordered pivot passes that
    /// recover the configuration span, the per-interface grouping, the
    /// alternate settings, the UVC input header span, the interface
    /// association ranges, and the format/frame nesting. The result is
    /// exactly `spec_deserialize` of the input bytes; and whenever every
    /// record re-encodes to its own bytes and the stream is orderly, the
    /// tree serializes back to the input byte for byte. The executable
    /// `crate::parse::parse_wf` decides the precondition for data that
    /// arrives unchecked.
    pub fn deserialize(buffer: &[u8]) -> (r: Result<TreeNode, DescError>)
        requires
            crate::parse::spec_parse_wf(buffer@, 0, 0),
        ensures
            r matches Ok(t) ==> t@ == spec_deserialize(buffer@),
            r matches Ok(t) ==> t@.parsed == DescV::Root && t@.tree_wf(),
            r matches Ok(t) ==> (crate::laws::records_reencode(buffer@, 0, 0)
                && spec_pipeline_orderly(buffer@) ==> t@.dfs_bytes() == buffer@),
            r is Ok,
    {
        let flat = crate::parse::parse_list(buffer);
        proof {
            assert(flat@ =~= spec_flat_tree(buffer@));
        }
        let root1 = pivot_cfg_desc(&flat);

        let mut new_idx: usize = 0;
        let root2 = pivot_iface_children(&root1, None, &mut new_idx);

        let mut new_idx2: usize = 0;
        let root3 = pivot_alt_settings(&root2, None, &mut new_idx2);

        let mut new_idx3: usize = 0;
        let root4 = pivot_uvc_input_hdr(&root3, None, &mut new_idx3, usize::MAX);

        let mut new_idx4: usize = 0;
        let root5 = pivot_iface_assoc(&root4, None, &mut new_idx4);

        let mut new_root = TreeNode::new();
        let fin = pivot_uvc_fmt_hdr(&root5, &mut new_root, 0);
        proof {
            assert(opt_seed(None::<TreeNode>) =~= spec_root_seed());
            assert(root1@ == spec_after_cfg_span(buffer@));
            assert(root2@ == spec_after_iface_grouping(buffer@));
            assert(root3@ == spec_after_alt_settings(buffer@));
            assert(root4@ == spec_after_hdr_span(buffer@));
            assert(root5@ == spec_after_assoc_span(buffer@));
            assert(new_root@ == spec_deserialize(buffer@));
            if crate::laws::records_reencode(buffer@, 0, 0) && spec_pipeline_orderly(buffer@) {
                lemma_cfg_span_groups_childless(buffer@);
                crate::laws::lemma_flat_round_trip(buffer@, 0, 0);
                assert(dfs_children_bytes(flat@.children) == buffer@);
                assert(dfs_children_bytes(root1@.children) == buffer@);
                let cs1 = root1@.children;
                assert(cs1.subrange(0, cs1.len() as int) =~= cs1);
                assert(dfs_children_bytes(root2@.children) =~= buffer@);
                let cs2 = root2@.children;
                assert(cs2.subrange(0, cs2.len() as int) =~= cs2);
                assert(dfs_children_bytes(root3@.children) =~= buffer@);
                let cs3 = root3@.children;
                assert(cs3.subrange(0, cs3.len() as int) =~= cs3);
                assert(dfs_children_bytes(root4@.children) =~= buffer@);
                let cs4 = root4@.children;
                assert(cs4.subrange(0, cs4.len() as int) =~= cs4);
                assert(dfs_children_bytes(root5@.children) =~= buffer@);
                let cs5 = root5@.children;
                assert(cs5.subrange(0, cs5.len() as int) =~= cs5);
                assert(fin as int == cs5.len() as int);
                assert(fmt_consumed_end(fin, cs5.len() as int) == cs5.len() as int);
                assert(dfs_children_bytes(new_root@.children) =~= buffer@);
                assert(new_root@.dfs_bytes() =~= buffer@);
            }
        }
        Ok(new_root)
    }
}

} // verus!
