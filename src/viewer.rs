use vstd::prelude::*;
use crate::name_map::NameMap;

verus! {

/// What the registry knows of one scene node: where the renderer keeps it,
/// its colour, and the last transform applied to it.
#[derive(Clone, Copy)]
pub struct NodeState<T, C> {
    pub node: usize,
    pub color: C,
    pub transform: Option<T>,
}

/// The abstract state of a viewer: the scene nodes by link name, and the
/// colours that highlighted links had before their first highlight.
pub struct SceneModel<T, C> {
    pub nodes: Map<Seq<char>, NodeState<T, C>>,
    pub originals: Map<Seq<char>, C>,
}

/// Highlighting link `n` with colour `c`: the node takes `c`, and its colour
/// before is remembered unless one is remembered already.
pub open spec fn after_set_color<T, C>(s: SceneModel<T, C>, n: Seq<char>, c: C) -> SceneModel<
    T,
    C,
> {
    if s.nodes.contains_key(n) {
        SceneModel {
            nodes: s.nodes.insert(n, NodeState { color: c, ..s.nodes[n] }),
            originals: if s.originals.contains_key(n) {
                s.originals
            } else {
                s.originals.insert(n, s.nodes[n].color)
            },
        }
    } else {
        s
    }
}

/// Resetting link `n`: the remembered colour, if any, goes back on the node.
pub open spec fn after_reset_color<T, C>(s: SceneModel<T, C>, n: Seq<char>) -> SceneModel<T, C> {
    if s.nodes.contains_key(n) && s.originals.contains_key(n) {
        SceneModel {
            nodes: s.nodes.insert(n, NodeState { color: s.originals[n], ..s.nodes[n] }),
            originals: s.originals,
        }
    } else {
        s
    }
}

/// The nodes after the first `k` pairs of names and transforms were applied
/// in order; a name with no node is skipped.
pub open spec fn after_transforms<T, C>(
    m: Map<Seq<char>, NodeState<T, C>>,
    names: Seq<String>,
    ts: Seq<T>,
    k: nat,
) -> Map<Seq<char>, NodeState<T, C>>
    decreases k,
{
    if k == 0 {
        m
    } else {
        let prev = after_transforms(m, names, ts, (k - 1) as nat);
        let n = names[k - 1]@;
        if prev.contains_key(n) {
            prev.insert(n, NodeState { transform: Some(ts[k - 1]), ..prev[n] })
        } else {
            prev
        }
    }
}

/// The nodes after the first `k` links were registered in order; a link
/// whose geometry could not be built (`None`) is left out.
pub open spec fn after_setup<T, C>(
    m: Map<Seq<char>, NodeState<T, C>>,
    names: Seq<String>,
    built: Seq<Option<(usize, C)>>,
    k: nat,
) -> Map<Seq<char>, NodeState<T, C>>
    decreases k,
{
    if k == 0 {
        m
    } else {
        let prev = after_setup(m, names, built, (k - 1) as nat);
        match built[k - 1] {
            Some((node, color)) => prev.insert(
                names[k - 1]@,
                NodeState { node, color, transform: None },
            ),
            None => prev,
        }
    }
}

/// Highlighting a link twice and then resetting it leaves the colour that the
/// link had before the first of the two highlights, not the first highlight
/// colour; where an earlier highlight is still remembered, that earlier
/// original colour comes back.
pub proof fn lemma_highlight_twice_then_reset<T, C>(s: SceneModel<T, C>, n: Seq<char>, c1: C, c2: C)
    requires
        s.nodes.contains_key(n),
    ensures
        after_reset_color(after_set_color(after_set_color(s, n, c1), n, c2), n).nodes[n].color
            == if s.originals.contains_key(n) {
            s.originals[n]
        } else {
            s.nodes[n].color
        },
{
}

/// Resetting a link that was never highlighted changes nothing.
pub proof fn lemma_reset_without_highlight<T, C>(s: SceneModel<T, C>, n: Seq<char>)
    requires
        !s.originals.contains_key(n),
    ensures
        after_reset_color(s, n) == s,
{
}

/// Applying transforms never adds or removes a node.
pub proof fn lemma_transforms_keep_nodes<T, C>(
    m: Map<Seq<char>, NodeState<T, C>>,
    names: Seq<String>,
    ts: Seq<T>,
    k: nat,
)
    requires
        k <= names.len(),
        k <= ts.len(),
    ensures
        after_transforms(m, names, ts, k).dom() == m.dom(),
    decreases k,
{
    if k > 0 {
        lemma_transforms_keep_nodes(m, names, ts, (k - 1) as nat);
        let prev = after_transforms(m, names, ts, (k - 1) as nat);
        let n = names[k - 1]@;
        if prev.contains_key(n) {
            assert(prev.insert(n, NodeState { transform: Some(ts[k - 1]), ..prev[n] }).dom()
                =~= prev.dom());
        }
    }
}

/// Applying transforms depends only on the pairs applied.
proof fn lemma_transforms_same_prefix<T, C>(
    m: Map<Seq<char>, NodeState<T, C>>,
    names1: Seq<String>,
    ts1: Seq<T>,
    names2: Seq<String>,
    ts2: Seq<T>,
    k: nat,
)
    requires
        k <= names1.len(),
        k <= ts1.len(),
        k <= names2.len(),
        k <= ts2.len(),
        forall|j: int| 0 <= j < k ==> #[trigger] names1[j]@ == names2[j]@,
        forall|j: int| 0 <= j < k ==> #[trigger] ts1[j] == ts2[j],
    ensures
        after_transforms(m, names1, ts1, k) == after_transforms(m, names2, ts2, k),
    decreases k,
{
    if k > 0 {
        lemma_transforms_same_prefix(m, names1, ts1, names2, ts2, (k - 1) as nat);
        assert(names1[k - 1]@ == names2[k - 1]@);
        assert(ts1[k - 1] == ts2[k - 1]);
    }
}

/// A pair whose name has no node is skipped without effect: every other
/// node ends as if that pair had not been given.
pub proof fn lemma_update_skips_unknown_name<T, C>(
    m: Map<Seq<char>, NodeState<T, C>>,
    names: Seq<String>,
    ts: Seq<T>,
    k: nat,
    i: int,
)
    requires
        0 <= i < k,
        k <= names.len(),
        k <= ts.len(),
        !m.contains_key(names[i]@),
    ensures
        after_transforms(m, names, ts, k) == after_transforms(
            m,
            names.remove(i),
            ts.remove(i),
            (k - 1) as nat,
        ),
    decreases k,
{
    if k - 1 == i {
        lemma_transforms_keep_nodes(m, names, ts, (k - 1) as nat);
        assert forall|j: int| 0 <= j < k - 1 implies #[trigger] names[j]@ == names.remove(i)[j]@ by {
            assert(names.remove(i)[j] == names[j]);
        }
        assert forall|j: int| 0 <= j < k - 1 implies #[trigger] ts[j] == ts.remove(i)[j] by {
            assert(ts.remove(i)[j] == ts[j]);
        }
        lemma_transforms_same_prefix(m, names, ts, names.remove(i), ts.remove(i), (k - 1) as nat);
    } else {
        lemma_update_skips_unknown_name(m, names, ts, (k - 1) as nat, i);
        assert(names.remove(i)[k - 2] == names[k - 1]);
        assert(ts.remove(i)[k - 2] == ts[k - 1]);
    }
}

/// Every link whose geometry was built is registered, whatever happened to
/// the other links.
pub proof fn lemma_setup_registers_built_links<T, C>(
    m: Map<Seq<char>, NodeState<T, C>>,
    names: Seq<String>,
    built: Seq<Option<(usize, C)>>,
    k: nat,
    i: int,
)
    requires
        0 <= i < k,
        k <= names.len(),
        k <= built.len(),
        built[i] is Some,
    ensures
        after_setup(m, names, built, k).contains_key(names[i]@),
    decreases k,
{
    if k - 1 > i {
        lemma_setup_registers_built_links(m, names, built, (k - 1) as nat, i);
    }
}

/// The registry of scene nodes by link name, with the colours to restore
/// after a temporary highlight.
pub struct Viewer<T, C> {
    scenes: NameMap<NodeState<T, C>>,
    original_colors: NameMap<C>,
}

impl<T: Copy, C: Copy> Viewer<T, C> {
    pub closed spec fn model(&self) -> SceneModel<T, C> {
        SceneModel { nodes: self.scenes.view(), originals: self.original_colors.view() }
    }

    pub closed spec fn wf(&self) -> bool {
        self.scenes.wf() && self.original_colors.wf()
    }

    /// An empty registry.
    pub fn new() -> (r: Self)
        ensures
            r.wf(),
            r.model().nodes == Map::<Seq<char>, NodeState<T, C>>::empty(),
            r.model().originals == Map::<Seq<char>, C>::empty(),
    {
        Viewer { scenes: NameMap::new(), original_colors: NameMap::new() }
    }

    /// The node registered under `name`, if any.
    pub fn get(&self, name: &str) -> (r: Option<NodeState<T, C>>)
        requires
            self.wf(),
        ensures
            match r {
                Some(s) => self.model().nodes.contains_key(name@) && self.model().nodes[name@]
                    == s,
                None => !self.model().nodes.contains_key(name@),
            },
    {
        self.scenes.get(name)
    }

    /// Registers the renderer's node `node`, of colour `color`, under `name`,
    /// replacing an earlier node of that name.
    pub fn insert_node(&mut self, name: &str, node: usize, color: C)
        requires
            old(self).wf(),
        ensures
            final(self).wf(),
            final(self).model().nodes == old(self).model().nodes.insert(
                name@,
                NodeState { node, color, transform: None },
            ),
            final(self).model().originals == old(self).model().originals,
    {
        self.scenes.insert(name, NodeState { node, color, transform: None });
    }

    /// Registers the geometry built for each link: `built[i]` is the node and
    /// colour made for `link_names[i]`, or `None` where none could be built.
    /// Links without geometry are skipped; the others are all registered.
    pub fn setup(&mut self, link_names: &Vec<String>, built: &Vec<Option<(usize, C)>>)
        requires
            old(self).wf(),
            link_names@.len() == built@.len(),
        ensures
            final(self).wf(),
            final(self).model().nodes == after_setup(
                old(self).model().nodes,
                link_names@,
                built@,
                built@.len(),
            ),
            final(self).model().originals == old(self).model().originals,
    {
        let n = built.len();
        let mut i: usize = 0;
        while i < n
            invariant
                self.wf(),
                n == built@.len(),
                n == link_names@.len(),
                i <= n,
                self.model().nodes == after_setup(
                    old(self).model().nodes,
                    link_names@,
                    built@,
                    i as nat,
                ),
                self.model().originals == old(self).model().originals,
            decreases n - i,
        {
            match built[i] {
                Some((node, color)) => {
                    self.insert_node(link_names[i].as_str(), node, color);
                },
                None => {},
            }
            i = i + 1;
        }
    }

    /// Applies `transforms[k]` to the node of `link_names[k]`, pair by pair.
    /// A name with no node is skipped. The result gives, for each pair, the
    /// renderer's node that took the transform, or `None` where it was skipped.
    pub fn update(&mut self, link_names: &Vec<String>, transforms: &Vec<T>) -> (r: Vec<
        Option<usize>,
    >)
        requires
            old(self).wf(),
        ensures
            final(self).wf(),
            r@.len() == if link_names@.len() < transforms@.len() {
                link_names@.len()
            } else {
                transforms@.len()
            },
            final(self).model().nodes == after_transforms(
                old(self).model().nodes,
                link_names@,
                transforms@,
                r@.len(),
            ),
            final(self).model().originals == old(self).model().originals,
            forall|k: int|
                0 <= k < r@.len() ==> #[trigger] r@[k] == if old(self).model().nodes.contains_key(
                    link_names@[k]@,
                ) {
                    Some(old(self).model().nodes[link_names@[k]@].node)
                } else {
                    None::<usize>
                },
    {
        let n = if link_names.len() < transforms.len() {
            link_names.len()
        } else {
            transforms.len()
        };
        let mut r: Vec<Option<usize>> = Vec::new();
        let mut i: usize = 0;
        while i < n
            invariant
                self.wf(),
                n <= link_names@.len(),
                n <= transforms@.len(),
                i <= n,
                r@.len() == i,
                self.model().nodes == after_transforms(
                    old(self).model().nodes,
                    link_names@,
                    transforms@,
                    i as nat,
                ),
                self.model().originals == old(self).model().originals,
                self.model().nodes.dom() == old(self).model().nodes.dom(),
                forall|m: Seq<char>|
                    #[trigger] self.model().nodes.contains_key(m) ==> self.model().nodes[m].node
                        == old(self).model().nodes[m].node,
                forall|k: int|
                    0 <= k < i ==> #[trigger] r@[k] == if old(
                        self,
                    ).model().nodes.contains_key(link_names@[k]@) {
                        Some(old(self).model().nodes[link_names@[k]@].node)
                    } else {
                        None::<usize>
                    },
            decreases n - i,
        {
            let name = link_names[i].as_str();
            match self.scenes.get(name) {
                Some(s) => {
                    self.scenes.insert(name, NodeState { transform: Some(transforms[i]), ..s });
                    r.push(Some(s.node));
                },
                None => {
                    r.push(None);
                },
            }
            assert(self.model().nodes.dom() =~= old(self).model().nodes.dom());
            i = i + 1;
        }
        r
    }

    /// Gives link `link_name` the colour `color` until it is reset. The colour
    /// it had before its first highlight is kept for the reset. The result is
    /// the renderer's node to recolour, or `None` where no node has that name.
    pub fn set_temporal_color(&mut self, link_name: &str, color: C) -> (r: Option<usize>)
        requires
            old(self).wf(),
        ensures
            final(self).wf(),
            final(self).model() == after_set_color(old(self).model(), link_name@, color),
            r == if old(self).model().nodes.contains_key(link_name@) {
                Some(old(self).model().nodes[link_name@].node)
            } else {
                None::<usize>
            },
    {
        match self.scenes.get(link_name) {
            Some(s) => {
                match self.original_colors.get(link_name) {
                    Some(_) => {},
                    None => {
                        self.original_colors.insert(link_name, s.color);
                    },
                }
                self.scenes.insert(link_name, NodeState { color, ..s });
                Some(s.node)
            },
            None => None,
        }
    }

    /// Puts back the colour that link `link_name` had before it was first
    /// highlighted. Where the link has no node or was never highlighted,
    /// nothing changes. The result is the renderer's node to recolour and
    /// the colour to give it.
    pub fn reset_temporal_color(&mut self, link_name: &str) -> (r: Option<(usize, C)>)
        requires
            old(self).wf(),
        ensures
            final(self).wf(),
            final(self).model() == after_reset_color(old(self).model(), link_name@),
            r == if old(self).model().nodes.contains_key(link_name@)
                && old(self).model().originals.contains_key(link_name@) {
                Some((old(self).model().nodes[link_name@].node, old(self).model().originals[link_name@]))
            } else {
                None::<(usize, C)>
            },
    {
        match self.original_colors.get(link_name) {
            Some(c) => match self.scenes.get(link_name) {
                Some(s) => {
                    self.scenes.insert(link_name, NodeState { color: c, ..s });
                    Some((s.node, c))
                },
                None => None,
            },
            None => None,
        }
    }
}

} // verus!
