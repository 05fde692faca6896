//! The held item, and what a click at the crosshair does with it.

use vstd::prelude::*;

use crate::digging::Collectible;

verus! {

/// The one item held at a time, with the uses left where it has them.
#[derive(Clone, Copy, PartialEq, Eq, Structural, Debug)]
pub enum Inventory {
    Shovel(usize),
    MiningPick,
    Food(usize),
    Seeds(usize),
    Empty,
}

impl Default for Inventory {
    fn default() -> (i: Self)
        ensures
            i == Inventory::Empty,
    {
        Inventory::Empty
    }
}

/// The inventory after one use: a count, where there is one, goes down by
/// one and never below zero.
pub open spec fn decreased(i: Inventory) -> Inventory {
    match i {
        Inventory::Shovel(c) => Inventory::Shovel(if c > 0 { (c - 1) as usize } else { 0 }),
        Inventory::Seeds(c) => Inventory::Seeds(if c > 0 { (c - 1) as usize } else { 0 }),
        Inventory::Food(c) => Inventory::Food(if c > 0 { (c - 1) as usize } else { 0 }),
        _ => i,
    }
}

/// The uses handed back to a shovel when it is dropped (one for anything else).
pub open spec fn usage_spec(i: Inventory) -> usize {
    match i {
        Inventory::Shovel(c) => c,
        _ => 1,
    }
}

/// What the inventory becomes when `c` is picked up; the button is not
/// picked up.
pub open spec fn picked_spec(c: Collectible) -> Option<Inventory> {
    match c {
        Collectible::Shovel(n) => Some(Inventory::Shovel(n)),
        Collectible::MiningPick => Some(Inventory::MiningPick),
        Collectible::Food => Some(Inventory::Food(1)),
        Collectible::Seeds => Some(Inventory::Seeds(1)),
        Collectible::Button => None,
    }
}

/// The held tool that is used up, if the inventory holds one with no uses
/// left.
pub open spec fn depleted_spec(i: Inventory) -> Option<Collectible> {
    match i {
        Inventory::Shovel(c) => if c == 0 { Some(Collectible::Shovel(0)) } else { None },
        Inventory::Food(c) => if c == 0 { Some(Collectible::Food) } else { None },
        Inventory::Seeds(c) => if c == 0 { Some(Collectible::Seeds) } else { None },
        _ => None,
    }
}

/// The inventory after a click while eating: food goes down by one while
/// some is left.
pub open spec fn eaten_spec(i: Inventory, clicked: bool) -> Inventory {
    match i {
        Inventory::Food(c) => if clicked && c > 0 { Inventory::Food((c - 1) as usize) } else { i },
        _ => i,
    }
}

impl Inventory {
    /// Whether seeds are held.
    pub open spec fn is_seeds_spec(&self) -> bool {
        *self matches Inventory::Seeds(_)
    }

    /// Use the held item once.
    pub fn decrease(&mut self)
        ensures
            *final(self) == decreased(*old(self)),
    {
        match self {
            Inventory::Shovel(counter) => {
                if *counter > 0 {
                    *counter = *counter - 1;
                }
            },
            Inventory::Seeds(counter) => {
                if *counter > 0 {
                    *counter = *counter - 1;
                }
            },
            Inventory::Food(counter) => {
                if *counter > 0 {
                    *counter = *counter - 1;
                }
            },
            _ => {},
        }
    }

    /// Whether seeds are held.
    pub fn is_seeds(&self) -> (b: bool)
        ensures
            b == (*self matches Inventory::Seeds(_)),
    {
        match self {
            Inventory::Seeds(_) => true,
            _ => false,
        }
    }

    /// The uses to hand back to the held item when it is dropped.
    pub fn get_usage(&self) -> (u: usize)
        ensures
            u == usage_spec(*self),
    {
        match self {
            Inventory::Shovel(count) => *count,
            _ => 1,
        }
    }

    /// The inventory that picking up `c` gives, or `None` for the button.
    pub fn picked(c: &Collectible) -> (i: Option<Inventory>)
        ensures
            i == picked_spec(*c),
    {
        match c {
            Collectible::Shovel(count) => Some(Inventory::Shovel(*count)),
            Collectible::MiningPick => Some(Inventory::MiningPick),
            Collectible::Food => Some(Inventory::Food(1)),
            Collectible::Seeds => Some(Inventory::Seeds(1)),
            Collectible::Button => None,
        }
    }

    /// The kind of held tool that is used up, if any.
    pub fn depleted_tool(&self) -> (c: Option<Collectible>)
        ensures
            c == depleted_spec(*self),
    {
        match self {
            Inventory::Shovel(counter) if *counter == 0 => Some(Collectible::Shovel(0)),
            Inventory::Food(counter) if *counter == 0 => Some(Collectible::Food),
            Inventory::Seeds(counter) if *counter == 0 => Some(Collectible::Seeds),
            _ => None,
        }
    }

    /// Eat from the held food on a click.
    pub fn eat_food(&mut self, clicked: bool)
        ensures
            *final(self) == eaten_spec(*old(self), clicked),
    {
        if clicked {
            match self {
                Inventory::Food(counter) => {
                    if *counter > 0 {
                        *counter = *counter - 1;
                    }
                },
                _ => {},
            }
        }
    }
}

/// A collectible near the player, and whether it is in the hand.
#[derive(Clone, Copy, Debug)]
pub struct HeldTool {
    pub tool: Collectible,
    pub active: bool,
}

/// Indices of the tools that a used-up inventory removes: those in the hand
/// of the same kind as the used-up tool.
pub open spec fn removed_tools_spec(inv: Inventory, tools: Seq<HeldTool>) -> Seq<usize> {
    match depleted_spec(inv) {
        Some(kind) => Seq::new(tools.len(), |i: int| i as usize).filter(
            |i: usize| tools[i as int].active && tools[i as int].tool.same_kind(&kind),
        ),
        None => Seq::empty(),
    }
}

/// After a change of inventory: every tool in the hand of the kind that is
/// used up is to be removed, and the inventory is then emptied. Returns the
/// indices of the tools to remove, in order.
pub fn manage_inventory(inv: &mut Inventory, tools: &Vec<HeldTool>) -> (removed: Vec<usize>)
    ensures
        removed@ == removed_tools_spec(*old(inv), tools@),
        removed@.len() > 0 ==> *final(inv) == Inventory::Empty,
        removed@.len() == 0 ==> *final(inv) == *old(inv),
        forall|k: int| 0 <= k < removed@.len() ==> (removed@[k] as int) < tools@.len(),
{
    let mut removed: Vec<usize> = Vec::new();
    let check_for = match inv.depleted_tool() {
        Some(kind) => kind,
        None => {
            return removed;
        },
    };
    let ghost indices = Seq::new(tools@.len(), |i: int| i as usize);
    let ghost pred = |i: usize| tools@[i as int].active && tools@[i as int].tool.same_kind(&check_for);
    let mut i: usize = 0;
    while i < tools.len()
        invariant
            i <= tools@.len(),
            indices == Seq::new(tools@.len(), |j: int| j as usize),
            pred == (|i: usize| tools@[i as int].active && tools@[i as int].tool.same_kind(&check_for)),
            removed@ == indices.take(i as int).filter(pred),
            forall|k: int| 0 <= k < removed@.len() ==> (removed@[k] as int) < i,
        decreases tools@.len() - i,
    {
        let t = &tools[i];
        proof {
            assert(indices.take(i + 1).drop_last() =~= indices.take(i as int));
            reveal_with_fuel(Seq::<_>::filter, 1);
        }
        if t.active && t.tool == check_for {
            removed.push(i);
        }
        i = i + 1;
    }
    proof {
        assert(indices.take(tools@.len() as int) =~= indices);
    }
    if removed.len() > 0 {
        *inv = Inventory::Empty;
    }
    removed
}

/// A dropped tool keeps the uses it had in the hand (only a shovel has them).
pub open spec fn dropped_spec(tool: Collectible, usage: usize) -> Collectible {
    match tool {
        Collectible::Shovel(_) => Collectible::Shovel(usage),
        _ => tool,
    }
}

/// Put a tool back into the world with the uses it had in the hand.
pub fn drop_tool(tool: &mut Collectible, usage: usize)
    ensures
        *final(tool) == dropped_spec(*old(tool), usage),
{
    match tool {
        Collectible::Shovel(_) => {
            *tool = Collectible::Shovel(usage);
        },
        _ => {},
    }
}

/// What lies under the crosshair when the player clicks within reach.
#[derive(Clone, Copy, Debug)]
pub struct ClickTarget {
    /// The collectible hit, if one was.
    pub collectible: Option<Collectible>,
    /// The thing hit can be dug.
    pub diggable: bool,
    /// The thing hit, or one of its ancestors, can be mined.
    pub minable: bool,
    /// A tool is in the player's hand.
    pub tool_in_hand: bool,
}

/// What a tool in the hand does to the thing hit.
#[derive(Clone, Copy, PartialEq, Eq, Structural, Debug)]
pub enum ToolEffect {
    /// Seeds are planted where the ray hit.
    PlantSeeds,
    /// The minable thing loses a hit of life.
    HitMinable,
    /// The thing hit is removed.
    Remove,
}

/// Outcome of a click.
#[derive(Clone, Copy, PartialEq, Eq, Structural, Debug)]
pub enum ClickOutcome {
    /// The button was pressed; nothing is picked up.
    PressButton,
    /// The collectible was picked up; whatever was in the hand is dropped,
    /// keeping `drop_usage` uses.
    PickUp { drop_usage: usize },
    /// The held item was used, with this effect by the tool in the hand,
    /// or none if the hand is empty.
    Use { effect: Option<ToolEffect> },
}

/// The inventory and outcome of a click.
pub open spec fn click_spec(inv: Inventory, target: ClickTarget) -> (Inventory, ClickOutcome) {
    match target.collectible {
        Some(c) => match picked_spec(c) {
            Some(new_inv) => (new_inv, ClickOutcome::PickUp { drop_usage: usage_spec(inv) }),
            None => (inv, ClickOutcome::PressButton),
        },
        None => {
            let after = decreased(inv);
            let effect = if !target.tool_in_hand {
                None
            } else if target.diggable && (after matches Inventory::Seeds(_)) {
                Some(ToolEffect::PlantSeeds)
            } else if target.minable {
                Some(ToolEffect::HitMinable)
            } else {
                Some(ToolEffect::Remove)
            };
            (after, ClickOutcome::Use { effect })
        },
    }
}

/// A click on what is under the crosshair: a collectible is picked up (the
/// button is pressed instead), anything else is worked on with the held item,
/// which is used once.
pub fn click(inv: &mut Inventory, target: &ClickTarget) -> (o: ClickOutcome)
    ensures
        (*final(inv), o) == click_spec(*old(inv), *target),
{
    match &target.collectible {
        Some(c) => {
            let usage: usize = inv.get_usage();
            match Inventory::picked(c) {
                Some(new_inv) => {
                    *inv = new_inv;
                    ClickOutcome::PickUp { drop_usage: usage }
                },
                None => ClickOutcome::PressButton,
            }
        },
        None => {
            inv.decrease();
            let effect = if !target.tool_in_hand {
                None
            } else if target.diggable && inv.is_seeds() {
                Some(ToolEffect::PlantSeeds)
            } else if target.minable {
                Some(ToolEffect::HitMinable)
            } else {
                Some(ToolEffect::Remove)
            };
            ClickOutcome::Use { effect }
        },
    }
}

/// The parent of a mesh that a ray touches.
#[derive(Clone, Copy, PartialEq, Eq, Structural, Debug)]
pub struct RayParent {
    pub diggable: bool,
    /// The parent, or one of its ancestors, can be mined.
    pub minable: bool,
    pub collectable: bool,
}

/// A mesh that a ray touches.
#[derive(Clone, Copy, PartialEq, Eq, Structural, Debug)]
pub struct RayCandidate {
    /// The mesh blocks rays.
    pub blocker: bool,
    /// The mesh's parent, if it has one.
    pub parent: Option<RayParent>,
}

/// Whether the ray stops at a mesh, given the held item.
pub open spec fn ray_stops_spec(inv: Inventory, m: RayCandidate) -> bool {
    if m.blocker {
        true
    } else {
        match m.parent {
            Some(p) => (match inv {
                Inventory::Shovel(_) | Inventory::Seeds(_) => p.diggable,
                Inventory::MiningPick => p.minable,
                _ => false,
            }) || p.collectable,
            None => false,
        }
    }
}

/// Whether the crosshair ray stops at a mesh: blockers always stop it; with a
/// shovel or seeds diggable things do, with the pick minable things do, and
/// collectables always do.
pub fn ray_stops(inv: &Inventory, m: &RayCandidate) -> (b: bool)
    ensures
        b == ray_stops_spec(*inv, *m),
{
    if m.blocker {
        return true;
    }
    match &m.parent {
        Some(p) => {
            let by_tool = match inv {
                Inventory::Shovel(_) | Inventory::Seeds(_) => p.diggable,
                Inventory::MiningPick => p.minable,
                _ => false,
            };
            by_tool || p.collectable
        },
        None => false,
    }
}

/// Walk up a chain of entities (the entity hit first, then its parent, and
/// so on) to the first one that is marked, such as the first minable one.
pub fn first_marked(chain: &Vec<bool>) -> (r: Option<usize>)
    ensures
        match r {
            Some(i) => (i as int) < chain@.len() && chain@[i as int]
                && forall|j: int| 0 <= j < i ==> !chain@[j],
            None => forall|j: int| 0 <= j < chain@.len() ==> !chain@[j],
        },
{
    let mut i: usize = 0;
    while i < chain.len()
        invariant
            i <= chain@.len(),
            forall|j: int| 0 <= j < i ==> !chain@[j],
        decreases chain@.len() - i,
    {
        if chain[i] {
            return Some(i);
        }
        i = i + 1;
    }
    None
}

/// What the crosshair ray hit on a frame.
#[derive(Clone, Copy, PartialEq, Eq, Structural, Debug)]
pub struct RayHit {
    /// The hit is within interaction distance.
    pub within_reach: bool,
    /// The mesh hit has a parent.
    pub has_parent: bool,
    /// The mesh hit, or its parent, blocks rays.
    pub blocked: bool,
}

/// How the crosshair reacts to the ray.
#[derive(Clone, Copy, PartialEq, Eq, Structural, Debug)]
pub enum Aim {
    /// Small and dim: nothing to interact with.
    Idle,
    /// Left as it was.
    Unchanged,
    /// Large and green: a click interacts with the target.
    Target,
}

pub open spec fn aim_spec(hit: Option<RayHit>) -> Aim {
    match hit {
        None => Aim::Idle,
        Some(h) => if !h.within_reach {
            Aim::Idle
        } else if !h.has_parent {
            Aim::Unchanged
        } else if h.blocked {
            Aim::Idle
        } else {
            Aim::Target
        },
    }
}

/// The crosshair highlights a target within reach that is not blocked; a hit
/// without a parent leaves it as it was; anything else dims it. Clicks act
/// only on a highlighted target.
pub fn crosshair_aim(hit: Option<RayHit>) -> (a: Aim)
    ensures
        a == aim_spec(hit),
{
    match hit {
        None => Aim::Idle,
        Some(h) => {
            if !h.within_reach {
                Aim::Idle
            } else if !h.has_parent {
                Aim::Unchanged
            } else if h.blocked {
                Aim::Idle
            } else {
                Aim::Target
            }
        },
    }
}

/// A shovel keeps its uses through the hand: picked up with `n` uses, it is
/// held with `n` uses, and dropped again (whatever it held before) with `n`.
pub proof fn lemma_shovel_round_trip(n: usize, before: usize)
    ensures
        picked_spec(Collectible::Shovel(n)) == Some(Inventory::Shovel(n)),
        dropped_spec(Collectible::Shovel(before), usage_spec(Inventory::Shovel(n)))
            == Collectible::Shovel(n),
{
}

/// The inventory after `k` uses.
pub open spec fn uses(i: Inventory, k: nat) -> Inventory
    decreases k,
{
    if k == 0 {
        i
    } else {
        decreased(uses(i, (k - 1) as nat))
    }
}

/// A shovel with `n` uses left is used up after `n` uses and no sooner, and
/// stays used up; the same holds of seeds and food.
pub proof fn lemma_uses_deplete(n: usize, k: nat)
    ensures
        k < n ==> uses(Inventory::Shovel(n), k) == Inventory::Shovel((n - k) as usize)
            && depleted_spec(uses(Inventory::Shovel(n), k)) is None,
        k >= n ==> uses(Inventory::Shovel(n), k) == Inventory::Shovel(0)
            && depleted_spec(uses(Inventory::Shovel(n), k)) == Some(Collectible::Shovel(0)),
        k < n ==> uses(Inventory::Seeds(n), k) == Inventory::Seeds((n - k) as usize),
        k >= n ==> uses(Inventory::Seeds(n), k) == Inventory::Seeds(0),
        k < n ==> uses(Inventory::Food(n), k) == Inventory::Food((n - k) as usize),
        k >= n ==> uses(Inventory::Food(n), k) == Inventory::Food(0),
    decreases k,
{
    if k > 0 {
        lemma_uses_deplete(n, (k - 1) as nat);
    }
}

/// The mining pick and an empty hand are not worn by use.
pub proof fn lemma_unworn(k: nat)
    ensures
        uses(Inventory::MiningPick, k) == Inventory::MiningPick,
        uses(Inventory::Empty, k) == Inventory::Empty,
    decreases k,
{
    if k > 0 {
        lemma_unworn((k - 1) as nat);
    }
}

/// Whether inventory `i` holds an item of the kind of collectible `c` (a
/// shovel with its uses, a fresh pick, one portion of seeds or food).
pub open spec fn holds_picked(i: Inventory, c: Collectible) -> bool {
    match c {
        Collectible::Shovel(n) => i == Inventory::Shovel(n),
        Collectible::MiningPick => i == Inventory::MiningPick,
        Collectible::Seeds => i == Inventory::Seeds(1),
        Collectible::Food => i == Inventory::Food(1),
        Collectible::Button => false,
    }
}

/// Clicking a collectible other than the button puts it in the hand: the
/// inventory then holds that kind of item (whatever was held before), and
/// what was held is dropped with its uses (a shovel's count, one otherwise).
/// Clicking the button presses it and leaves the inventory as it was.
pub proof fn lemma_click_picks_up(inv: Inventory, target: ClickTarget)
    requires
        target.collectible is Some,
    ensures
        ({
            let c = target.collectible.unwrap();
            let (after, outcome) = click_spec(inv, target);
            if c is Button {
                after == inv && outcome == ClickOutcome::PressButton
            } else {
                holds_picked(after, c) && after.is_seeds_spec() == (c matches Collectible::Seeds)
                    && outcome == ClickOutcome::PickUp {
                    drop_usage: match inv {
                        Inventory::Shovel(k) => k,
                        _ => 1,
                    },
                }
            }
        }),
        picked_spec(target.collectible.unwrap()) matches Some(i) ==> holds_picked(
            i,
            target.collectible.unwrap(),
        ),
{
}

/// Clicking something that is not a collectible uses the held item once:
/// its count, where it has one, goes down by one (not below zero) and the
/// kind stays. With a tool in the hand, seeds on diggable ground are planted,
/// a minable thing is hit, and anything else is removed; with no tool in the
/// hand nothing else happens.
pub proof fn lemma_click_uses(inv: Inventory, target: ClickTarget)
    requires
        target.collectible is None,
    ensures
        ({
            let (after, outcome) = click_spec(inv, target);
            &&& match inv {
                Inventory::Shovel(n) => after == Inventory::Shovel(if n > 0 { (n - 1) as usize } else { 0 }),
                Inventory::Seeds(n) => after == Inventory::Seeds(if n > 0 { (n - 1) as usize } else { 0 }),
                Inventory::Food(n) => after == Inventory::Food(if n > 0 { (n - 1) as usize } else { 0 }),
                _ => after == inv,
            }
            &&& outcome == ClickOutcome::Use {
                effect: if !target.tool_in_hand {
                    None
                } else if target.diggable && (inv matches Inventory::Seeds(_)) {
                    Some(ToolEffect::PlantSeeds)
                } else if target.minable {
                    Some(ToolEffect::HitMinable)
                } else {
                    Some(ToolEffect::Remove)
                },
            }
        }),
{
}

/// What stops the crosshair ray: a blocker always; a collectable always,
/// whatever is held; ground that can be dug while a shovel or seeds are held;
/// something minable while the pick is held; nothing else, and never a mesh
/// without a parent that is no blocker.
pub proof fn lemma_ray_stops(inv: Inventory, m: RayCandidate)
    ensures
        m.blocker ==> ray_stops_spec(inv, m),
        !m.blocker && m.parent is None ==> !ray_stops_spec(inv, m),
        !m.blocker && (m.parent matches Some(p) && p.collectable) ==> ray_stops_spec(inv, m),
        !m.blocker && (m.parent matches Some(p) && !p.collectable) ==> ray_stops_spec(inv, m) == (
        match inv {
            Inventory::Shovel(_) | Inventory::Seeds(_) => m.parent.unwrap().diggable,
            Inventory::MiningPick => m.parent.unwrap().minable,
            _ => false,
        }),
{
}

/// An item with uses left is not used up, so managing the inventory removes
/// nothing and leaves it as it is; the pick and an empty hand are never used
/// up. An item with no use left is used up, and exactly the tools in the hand
/// of its kind are removed.
pub proof fn lemma_used_up_only_at_zero(inv: Inventory, tools: Seq<HeldTool>)
    requires
        tools.len() <= usize::MAX,
    ensures
        (match inv {
            Inventory::Shovel(n) => n > 0,
            Inventory::Seeds(n) => n > 0,
            Inventory::Food(n) => n > 0,
            _ => true,
        }) ==> depleted_spec(inv) is None && removed_tools_spec(inv, tools).len() == 0,
        inv == Inventory::Shovel(0) ==> depleted_spec(inv) matches Some(Collectible::Shovel(_)),
        inv == Inventory::Seeds(0) ==> depleted_spec(inv) == Some(Collectible::Seeds),
        inv == Inventory::Food(0) ==> depleted_spec(inv) == Some(Collectible::Food),
        depleted_spec(inv) matches Some(kind) ==> {
            &&& forall|k: int|
                0 <= k < removed_tools_spec(inv, tools).len() ==> {
                    let i = #[trigger] removed_tools_spec(inv, tools)[k] as int;
                    0 <= i < tools.len() && tools[i].active && tools[i].tool.same_kind(&kind)
                }
            &&& forall|i: int|
                0 <= i < tools.len() && tools[i].active && #[trigger] tools[i].tool.same_kind(&kind)
                    ==> removed_tools_spec(inv, tools).contains(i as usize)
        },
{
    match depleted_spec(inv) {
        Some(kind) => {
            let idx = Seq::new(tools.len(), |i: int| i as usize);
            let pred = |i: usize| tools[i as int].active && tools[i as int].tool.same_kind(&kind);
            assert(removed_tools_spec(inv, tools) == idx.filter(pred));
            assert forall|j: int| 0 <= j < idx.len() implies (idx[j] as int) == j by {
                assert(idx[j] == j as usize);
            }
            assert forall|k: int| 0 <= k < idx.filter(pred).len() implies {
                let i = #[trigger] idx.filter(pred)[k] as int;
                0 <= i < tools.len() && tools[i].active && tools[i].tool.same_kind(&kind)
            } by {
                let x = idx.filter(pred)[k];
                idx.lemma_filter_pred(pred, k);
                assert(idx.filter(pred).contains(x));
                idx.lemma_filter_contains_rev(pred, x);
                let j = choose|j: int| 0 <= j < idx.len() && idx[j] == x;
                assert((idx[j] as int) == j);
                assert(pred(x));
            }
            assert forall|i: int|
                0 <= i < tools.len() && tools[i].active && #[trigger] tools[i].tool.same_kind(&kind)
                implies idx.filter(pred).contains(i as usize) by {
                assert(idx[i] == i as usize);
                assert((idx[i] as int) == i);
                assert(pred(idx[i]));
                idx.lemma_filter_contains(pred, i);
            }
        },
        None => {},
    }
}

} // verus!
