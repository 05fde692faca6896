//! Killer arms: finding the bones of a loaded arm by name, the laser beams
//! that may catch the player, and the on-screen hints of where they come from.

use vstd::prelude::*;

use crate::text::{starts_with, starts_with_spec};

verus! {

/// One entity of a loaded scene: its name (if it has one that the search may
/// read) and its children, in order.
#[derive(Clone, Debug)]
pub struct SceneNode {
    pub name: Option<String>,
    pub children: Vec<usize>,
}

/// Every child of a node comes after it and lies within the list, so that
/// the nodes form a forest listed parents first.
pub open spec fn parents_first(nodes: Seq<SceneNode>) -> bool {
    forall|i: int, j: int|
        0 <= i < nodes.len() && 0 <= j < nodes[i].children@.len() ==> i
            < #[trigger] nodes[i].children@[j] < nodes.len()
}

/// The name of node `i`, if it has one.
pub open spec fn node_name(nodes: Seq<SceneNode>, i: int) -> Option<Seq<char>> {
    match nodes[i].name {
        Some(s) => Some(s@),
        None => None,
    }
}

/// The depth-first search for a descendant of `node` whose name starts with
/// `prefix`: the children are tried in order; a child whose name matches is
/// the answer, else its own descendants are searched; children without a
/// name are skipped together with their descendants.
pub open spec fn find_below(nodes: Seq<SceneNode>, prefix: Seq<char>, node: int) -> Option<int>
    decreases nodes.len() - node, nodes[node].children@.len() + 1,
{
    if 0 <= node < nodes.len() {
        find_among_children(nodes, prefix, node, 0)
    } else {
        None
    }
}

/// The search among the children of `node` from the `j`-th on.
pub open spec fn find_among_children(nodes: Seq<SceneNode>, prefix: Seq<char>, node: int, j: int) -> Option<int>
    decreases nodes.len() - node, nodes[node].children@.len() - j,
{
    if !(0 <= node < nodes.len()) || j < 0 || j >= nodes[node].children@.len() {
        None
    } else {
        let c: int = nodes[node].children@[j] as int;
        if !(node < c < nodes.len()) {
            None
        } else {
            match node_name(nodes, c) {
                None => find_among_children(nodes, prefix, node, j + 1),
                Some(n) => if starts_with_spec(n, prefix) {
                    Some(c)
                } else {
                    match find_below(nodes, prefix, c) {
                        Some(f) => Some(f),
                        None => find_among_children(nodes, prefix, node, j + 1),
                    }
                },
            }
        }
    }
}

/// A snapshot of part of a scene, listed parents first.
pub struct Hierarchy {
    nodes: Vec<SceneNode>,
}

impl Hierarchy {
    #[verifier::type_invariant]
    closed spec fn well_formed(&self) -> bool {
        parents_first(self.nodes@)
    }

    /// The nodes.
    pub closed spec fn nodes(&self) -> Seq<SceneNode> {
        self.nodes@
    }

    /// A hierarchy of `nodes`, if every child comes after its parent and
    /// within the list; `None` otherwise.
    pub fn new(nodes: Vec<SceneNode>) -> (h: Option<Hierarchy>)
        ensures
            h is Some <==> parents_first(nodes@),
            h matches Some(h) ==> h.nodes() == nodes@,
    {
        let n: usize = nodes.len();
        let mut i: usize = 0;
        while i < n
            invariant
                n == nodes@.len(),
                i <= n,
                forall|a: int, b: int|
                    0 <= a < i && 0 <= b < nodes@[a].children@.len() ==> a
                        < #[trigger] nodes@[a].children@[b] < n,
            decreases n - i,
        {
            let children = &nodes[i].children;
            let mut j: usize = 0;
            while j < children.len()
                invariant
                    n == nodes@.len(),
                    i < n,
                    children@ == nodes@[i as int].children@,
                    j <= children@.len(),
                    forall|a: int, b: int|
                        0 <= a < i && 0 <= b < nodes@[a].children@.len() ==> a
                            < #[trigger] nodes@[a].children@[b] < n,
                    forall|b: int| 0 <= b < j ==> i < #[trigger] children@[b] < n,
                decreases children@.len() - j,
            {
                let c: usize = children[j];
                if !(i < c && c < n) {
                    proof {
                        assert(!(i < nodes@[i as int].children@[j as int] < n));
                    }
                    return None;
                }
                j = j + 1;
            }
            i = i + 1;
        }
        Some(Hierarchy { nodes })
    }

    /// Number of nodes.
    pub fn len(&self) -> (n: usize)
        ensures
            n == self.nodes().len(),
    {
        self.nodes.len()
    }

    /// The search below `node`.
    fn find_from(&self, prefix: &str, node: usize) -> (r: Option<usize>)
        requires
            node < self.nodes().len(),
        ensures
            match r {
                Some(f) => find_below(self.nodes(), prefix@, node as int) == Some(f as int),
                None => find_below(self.nodes(), prefix@, node as int) is None,
            },
        decreases self.nodes().len() - node,
    {
        proof {
            use_type_invariant(self);
        }
        let children = &self.nodes[node].children;
        let mut j: usize = 0;
        while j < children.len()
            invariant
                node < self.nodes().len(),
                parents_first(self.nodes()),
                children@ == self.nodes()[node as int].children@,
                j <= children@.len(),
                find_below(self.nodes(), prefix@, node as int) == find_among_children(
                    self.nodes(),
                    prefix@,
                    node as int,
                    j as int,
                ),
            decreases children@.len() - j,
        {
            let c: usize = children[j];
            proof {
                assert(node < self.nodes()[node as int].children@[j as int] < self.nodes().len());
            }
            match &self.nodes[c].name {
                None => {},
                Some(n) => {
                    if starts_with(n.as_str(), prefix) {
                        return Some(c);
                    }
                    match self.find_from(prefix, c) {
                        Some(f) => {
                            return Some(f);
                        },
                        None => {},
                    }
                },
            }
            j = j + 1;
        }
        None
    }

}

/// Search the descendants of `root` in `hierarchy` depth-first for one whose
/// name starts with `look_for_name` (see `find_below`); `None` if there is
/// none or `root` is not a node.
pub fn find_entity(hierarchy: &Hierarchy, root: usize, look_for_name: &str) -> (r: Option<usize>)
    ensures
        match r {
            Some(f) => find_below(hierarchy.nodes(), look_for_name@, root as int) == Some(f as int),
            None => find_below(hierarchy.nodes(), look_for_name@, root as int) is None,
        },
{
    if root >= hierarchy.len() {
        return None;
    }
    hierarchy.find_from(look_for_name, root)
}

/// Guards that, of the beams fired in one frame, only the first that hits the
/// player is the one that catches them (so the game is ended once).
#[derive(Clone, Copy, PartialEq, Eq, Structural, Debug)]
pub struct BeamGuard {
    killing: bool,
}

/// The kill flags of beams fired in order, where `hits[i]` says whether the
/// `i`-th beam hits the player and `killing` whether an earlier beam already
/// catches them.
pub open spec fn kill_flags(hits: Seq<bool>, killing: bool) -> Seq<bool>
    decreases hits.len(),
{
    if hits.len() == 0 {
        Seq::empty()
    } else {
        seq![hits[0] && !killing] + kill_flags(hits.drop_first(), killing || hits[0])
    }
}

/// How many entries of `s` are true.
pub open spec fn count_true(s: Seq<bool>) -> nat
    decreases s.len(),
{
    if s.len() == 0 {
        0
    } else {
        (if s[0] { 1nat } else { 0nat }) + count_true(s.drop_first())
    }
}

impl BeamGuard {
    /// Whether a beam fired earlier in this frame already catches the player.
    pub closed spec fn catching(&self) -> bool {
        self.killing
    }

    /// No beam fired yet in this frame.
    pub fn new() -> (g: Self)
        ensures
            !g.catching(),
    {
        BeamGuard { killing: false }
    }

    /// A beam is fired; gives whether it is the one that catches the player.
    pub fn fire(&mut self, hits_player: bool) -> (kills: bool)
        ensures
            kills == (hits_player && !old(self).catching()),
            final(self).catching() == (old(self).catching() || hits_player),
    {
        let kills = hits_player && !self.killing;
        if hits_player {
            self.killing = true;
        }
        kills
    }
}

/// Whether a killer head may still fire its killing beam; armed with its
/// lasers, cleared when it fires.
#[derive(Clone, Copy, PartialEq, Eq, Structural, Debug)]
pub struct KillerTimer {
    pub can_kill: bool,
}

impl KillerTimer {
    /// Not armed.
    pub fn new() -> (k: Self)
        ensures
            !k.can_kill,
    {
        KillerTimer { can_kill: false }
    }

    /// The lasers are armed: the head may fire.
    pub fn arm(&mut self)
        ensures
            final(self).can_kill,
    {
        self.can_kill = true;
    }

    /// A frame of a killer head: it fires its beam when its laser is shown
    /// (the laser timer has finished), its ray hits something, its kill timer
    /// has just finished and it may still fire; firing clears it. Returns
    /// whether it fires.
    pub fn fire(&mut self, laser_finished: bool, ray_hit: bool, kill_just_finished: bool) -> (fires: bool)
        ensures
            fires == (laser_finished && ray_hit && kill_just_finished && old(self).can_kill),
            final(self).can_kill == (old(self).can_kill && !fires),
    {
        let fires = laser_finished && ray_hit && kill_just_finished && self.can_kill;
        if fires {
            self.can_kill = false;
        }
        fires
    }
}

/// How many beams a killer head fires over frames without being armed again,
/// where `frames[i]` says whether it would fire on frame `i` if it could.
pub open spec fn shots(can_kill: bool, frames: Seq<bool>) -> nat
    decreases frames.len(),
{
    if frames.len() == 0 {
        0
    } else {
        let fires = frames[0] && can_kill;
        (if fires { 1nat } else { 0nat }) + shots(can_kill && !fires, frames.drop_first())
    }
}

/// Once armed, a killer head fires at most one beam until it is armed again.
pub proof fn lemma_one_shot_per_arming(can_kill: bool, frames: Seq<bool>)
    ensures
        shots(can_kill, frames) <= 1,
        !can_kill ==> shots(can_kill, frames) == 0,
    decreases frames.len(),
{
    if frames.len() > 0 {
        let fires = frames[0] && can_kill;
        lemma_one_shot_per_arming(can_kill && !fires, frames.drop_first());
    }
}

/// Which edges of the screen show a dot hinting at a laser aimed at the player.
#[derive(Clone, Copy, PartialEq, Eq, Structural, Debug, Default)]
pub struct ShowDots {
    pub left: bool,
    pub right: bool,
    pub bottom: bool,
}

/// One of the hint dots on the screen.
#[derive(Clone, Copy, PartialEq, Eq, Structural, Debug)]
pub enum UIDot {
    Left,
    Right,
    Bottom,
}

impl ShowDots {
    pub open spec fn visible_spec(&self, dot: UIDot) -> bool {
        match dot {
            UIDot::Left => self.left,
            UIDot::Right => self.right,
            UIDot::Bottom => self.bottom,
        }
    }

    /// Whether `dot` is shown.
    pub fn visible(&self, dot: UIDot) -> (b: bool)
        ensures
            b == self.visible_spec(dot),
    {
        match dot {
            UIDot::Left => self.left,
            UIDot::Right => self.right,
            UIDot::Bottom => self.bottom,
        }
    }
}

/// Whether a killer arm's lasers are armed on this frame: its rise has just
/// finished while it is shown, and its laser timer is still paused.
pub fn arms_lasers(rise_just_finished: bool, shown: bool, laser_paused: bool) -> (b: bool)
    ensures
        b == (rise_just_finished && shown && laser_paused),
{
    rise_just_finished && shown && laser_paused
}

/// Of the beams fired in a frame, at most one catches the player; one does
/// exactly when some beam hits the player and no earlier one already caught
/// them, and it is the first beam that hits.
pub proof fn lemma_one_catch_per_frame(hits: Seq<bool>, killing: bool)
    ensures
        kill_flags(hits, killing).len() == hits.len(),
        count_true(kill_flags(hits, killing)) <= 1,
        killing ==> count_true(kill_flags(hits, killing)) == 0,
        !killing && (exists|i: int| 0 <= i < hits.len() && hits[i]) ==> count_true(
            kill_flags(hits, killing),
        ) == 1,
        forall|i: int|
            0 <= i < hits.len() ==> (#[trigger] kill_flags(hits, killing)[i] <==> (!killing
                && hits[i] && forall|j: int| 0 <= j < i ==> !hits[j])),
    decreases hits.len(),
{
    if hits.len() > 0 {
        let rest = hits.drop_first();
        lemma_one_catch_per_frame(rest, killing || hits[0]);
        let flags = kill_flags(hits, killing);
        assert(flags.drop_first() =~= kill_flags(rest, killing || hits[0]));
        assert forall|i: int|
            0 <= i < hits.len() implies (#[trigger] kill_flags(hits, killing)[i] <==> (!killing
                && hits[i] && forall|j: int| 0 <= j < i ==> !hits[j])) by {
            if i > 0 {
                assert(flags[i] == kill_flags(rest, killing || hits[0])[i - 1]);
                if !killing && hits[i] && forall|j: int| 0 <= j < i ==> !hits[j] {
                    assert(!hits[0]);
                    assert forall|j: int| 0 <= j < i - 1 implies !rest[j] by {
                        assert(rest[j] == hits[j + 1]);
                    }
                }
                if kill_flags(rest, killing || hits[0])[i - 1] {
                    assert forall|j: int| 0 <= j < i implies !hits[j] by {
                        if j > 0 {
                            assert(rest[j - 1] == hits[j]);
                        }
                    }
                }
            }
        }
        if !killing && (exists|i: int| 0 <= i < hits.len() && hits[i]) {
            if !hits[0] {
                let i: int = choose|i: int| 0 <= i < hits.len() && hits[i];
                assert(rest[i - 1]);
            }
        }
    }
}

/// Node `f` is a child of `a`, or a descendant of one of its children.
pub open spec fn is_descendant(nodes: Seq<SceneNode>, a: int, f: int) -> bool
    decreases f - a,
{
    0 <= a < f < nodes.len() && exists|j: int|
        #![trigger nodes[a].children@[j]]
        0 <= j < nodes[a].children@.len() && {
            let c = nodes[a].children@[j] as int;
            c == f || (a < c < f && is_descendant(nodes, c, f))
        }
}

/// Node `f` is a descendant of `node` and its name starts with `prefix`.
pub open spec fn found_below(nodes: Seq<SceneNode>, prefix: Seq<char>, node: int, f: int) -> bool {
    &&& is_descendant(nodes, node, f)
    &&& node_name(nodes, f) matches Some(n)
    &&& starts_with_spec(n, prefix)
}

/// A node found by the search is a descendant of the node searched from, and
/// its name starts with the prefix searched for.
pub proof fn lemma_found_below(nodes: Seq<SceneNode>, prefix: Seq<char>, node: int)
    requires
        parents_first(nodes),
    ensures
        find_below(nodes, prefix, node) matches Some(f) ==> found_below(nodes, prefix, node, f),
    decreases nodes.len() - node, nodes[node].children@.len() + 1,
{
    if 0 <= node < nodes.len() {
        lemma_found_among_children(nodes, prefix, node, 0);
    }
}

/// A node found among the children of `node` (from the `j`-th on) is a
/// descendant of `node`, and its name starts with the prefix.
pub proof fn lemma_found_among_children(nodes: Seq<SceneNode>, prefix: Seq<char>, node: int, j: int)
    requires
        parents_first(nodes),
    ensures
        find_among_children(nodes, prefix, node, j) matches Some(f) ==> found_below(nodes, prefix, node, f),
    decreases nodes.len() - node, nodes[node].children@.len() - j,
{
    if 0 <= node < nodes.len() && 0 <= j < nodes[node].children@.len() {
        let c: int = nodes[node].children@[j] as int;
        if node < c < nodes.len() {
            match node_name(nodes, c) {
                None => {
                    lemma_found_among_children(nodes, prefix, node, j + 1);
                },
                Some(n) => {
                    if starts_with_spec(n, prefix) {
                        assert(is_descendant(nodes, node, c));
                    } else {
                        lemma_found_below(nodes, prefix, c);
                        lemma_found_among_children(nodes, prefix, node, j + 1);
                        match find_below(nodes, prefix, c) {
                            Some(f) => {
                                assert(is_descendant(nodes, c, f));
                                assert(node < c < f);
                                assert(is_descendant(nodes, node, f));
                            },
                            None => {},
                        }
                    }
                },
            }
        }
    }
}

/// Node `f` is reached from `a` by going down through children that all
/// have names (`f` included).
pub open spec fn named_descendant(nodes: Seq<SceneNode>, a: int, f: int) -> bool
    decreases f - a,
{
    0 <= a < f < nodes.len() && exists|j: int|
        #![trigger nodes[a].children@[j]]
        0 <= j < nodes[a].children@.len() && {
            let c = nodes[a].children@[j] as int;
            &&& node_name(nodes, c) is Some
            &&& (c == f || (a < c < f && named_descendant(nodes, c, f)))
        }
}

/// The search is complete: where some node `f` below `node`, reached
/// through named nodes only, has a name that starts with `prefix`, the
/// search from `node` finds a node (whose name starts with `prefix`).
pub proof fn lemma_search_complete(nodes: Seq<SceneNode>, prefix: Seq<char>, node: int, f: int)
    requires
        parents_first(nodes),
        named_descendant(nodes, node, f),
        node_name(nodes, f) matches Some(n) && starts_with_spec(n, prefix),
    ensures
        find_below(nodes, prefix, node) is Some,
        find_below(nodes, prefix, node) matches Some(g) ==> found_below(nodes, prefix, node, g),
    decreases nodes.len() - node, nodes[node].children@.len() + 1,
{
    let jj: int = choose|jj: int|
        #![trigger nodes[node].children@[jj]]
        0 <= jj < nodes[node].children@.len() && {
            let c = nodes[node].children@[jj] as int;
            &&& node_name(nodes, c) is Some
            &&& (c == f || (node < c < f && named_descendant(nodes, c, f)))
        };
    lemma_search_complete_from(nodes, prefix, node, 0, jj, f);
    lemma_found_below(nodes, prefix, node);
}

/// The search among the children of `node` from the `j`-th on finds a node
/// where the `jj`-th child (`jj` not before `j`) has a name and either has a
/// name that starts with `prefix` or leads through named nodes to one that
/// has.
pub proof fn lemma_search_complete_from(
    nodes: Seq<SceneNode>,
    prefix: Seq<char>,
    node: int,
    j: int,
    jj: int,
    f: int,
)
    requires
        parents_first(nodes),
        0 <= node < nodes.len(),
        0 <= j <= jj < nodes[node].children@.len(),
        node_name(nodes, nodes[node].children@[jj] as int) is Some,
        nodes[node].children@[jj] as int == f || named_descendant(
            nodes,
            nodes[node].children@[jj] as int,
            f,
        ),
        node_name(nodes, f) matches Some(n) && starts_with_spec(n, prefix),
    ensures
        find_among_children(nodes, prefix, node, j) is Some,
    decreases nodes.len() - node, nodes[node].children@.len() - j,
{
    let c0: int = nodes[node].children@[j] as int;
    assert(node < c0 < nodes.len());
    match node_name(nodes, c0) {
        None => {
            lemma_search_complete_from(nodes, prefix, node, j + 1, jj, f);
        },
        Some(n0) => {
            if !starts_with_spec(n0, prefix) {
                if find_below(nodes, prefix, c0) is None {
                    if jj == j {
                        lemma_search_complete(nodes, prefix, c0, f);
                    } else {
                        lemma_search_complete_from(nodes, prefix, node, j + 1, jj, f);
                    }
                }
            }
        },
    }
}

} // verus!
