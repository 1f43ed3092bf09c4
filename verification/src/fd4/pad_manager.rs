use vstd::prelude::*;

verus! {

/// Relative address of the game data that bounds the pad lookup of
/// [FD4PadManager::get_cs_pad].
pub const CS_PAD_LOOKUP_RVA: u32 = 0x3d5df27;

/// Relative address of the game's action polling function.
pub const POLL_INPUT_RVA: u32 = 0x2665050;

/// The pair of stick inputs polled for the mouse direction (x, y).
pub const DIRECTION_X_INPUT: i32 = 4;

/// See [DIRECTION_X_INPUT].
pub const DIRECTION_Y_INPUT: i32 = 5;

/// The pair of stick inputs summed for stick up/down and W/S movement.
pub const MOVEMENT_Y_INPUTS_FIRST: i32 = 417;

/// See [MOVEMENT_Y_INPUTS_FIRST].
pub const MOVEMENT_Y_INPUTS_SECOND: i32 = 418;

/// The pair of stick inputs summed for stick right/left and A/D movement.
pub const MOVEMENT_X_INPUTS_FIRST: i32 = 419;

/// See [MOVEMENT_X_INPUTS_FIRST].
pub const MOVEMENT_X_INPUTS_SECOND: i32 = 420;

/// Action inputs the game polls through its pads.
#[derive(Debug, Clone, Copy, PartialEq, Eq, Structural)]
pub enum ActionInput {
    Attack,
    StrongAttack,
    Guard,
    Skill,
    /// Also Dodge Roll and Dash. Stays true while held.
    BackstepHeld,
    /// Also Dodge Roll and Dash. Briefly true when tapped.
    BackstepTapped,
    Jump,
    UseItem,
    CameraReset,
    Crouch,
    LockOn,
}

/// The raw input code the game polls for an action.
pub open spec fn action_code(action: ActionInput) -> i32 {
    match action {
        ActionInput::Attack => 7,
        ActionInput::StrongAttack => 8,
        ActionInput::Guard => 9,
        ActionInput::Skill => 10,
        ActionInput::BackstepHeld => 12,
        ActionInput::BackstepTapped => 13,
        ActionInput::Jump => 14,
        ActionInput::UseItem => 15,
        ActionInput::CameraReset => 20,
        ActionInput::Crouch => 21,
        ActionInput::LockOn => 26,
    }
}

impl From<ActionInput> for i32 {
    fn from(action: ActionInput) -> (code: i32) {
        match action {
            ActionInput::Attack => 7,
            ActionInput::StrongAttack => 8,
            ActionInput::Guard => 9,
            ActionInput::Skill => 10,
            ActionInput::BackstepHeld => 12,
            ActionInput::BackstepTapped => 13,
            ActionInput::Jump => 14,
            ActionInput::UseItem => 15,
            ActionInput::CameraReset => 20,
            ActionInput::Crouch => 21,
            ActionInput::LockOn => 26,
        }
    }
}

impl vstd::std_specs::convert::FromSpecImpl<ActionInput> for i32 {
    open spec fn obeys_from_spec() -> bool {
        true
    }

    open spec fn from_spec(action: ActionInput) -> i32 {
        action_code(action)
    }
}

/// Distinct actions are polled under distinct input codes.
pub proof fn lemma_action_codes_distinct(a: ActionInput, b: ActionInput)
    ensures
        action_code(a) == action_code(b) ==> a == b,
{
}

/// A node of the pad manager's game pad tree.
#[derive(Clone, Copy)]
pub struct GamePadNode {
    /// The key the tree is ordered by.
    pub unk1: u64,
    /// Address of the node's `CSPad`, the layer where user inputs are read;
    /// keyboard, mouse and controller are already abstracted there.
    pub pad: u64,
    /// Set by the pad lookup when it picks this node.
    pub saturated: bool,
}

/// The length of the longest prefix of `nodes` whose keys are all at most `va`.
pub open spec fn prefix_at_most(nodes: Seq<GamePadNode>, va: u64) -> nat
    decreases nodes.len(),
{
    if nodes.len() == 0 {
        0
    } else if nodes[0].unk1 <= va {
        1 + prefix_at_most(nodes.drop_first(), va)
    } else {
        0
    }
}

/// The prefix of `nodes` with keys at most `va` ends at `i` when every key
/// before `i` is at most `va` and the node at `i`, if any, has a larger key.
proof fn lemma_prefix_at_most(nodes: Seq<GamePadNode>, va: u64, i: int)
    requires
        0 <= i <= nodes.len(),
        forall|j: int| 0 <= j < i ==> #[trigger] nodes[j].unk1 <= va,
        i == nodes.len() || nodes[i].unk1 > va,
    ensures
        prefix_at_most(nodes, va) == i,
    decreases i,
{
    if i > 0 {
        let rest = nodes.drop_first();
        assert forall|j: int| 0 <= j < i - 1 implies #[trigger] rest[j].unk1 <= va by {
            assert(rest[j] == nodes[j + 1]);
        }
        lemma_prefix_at_most(rest, va, i - 1);
    }
}

/// The node the pad lookup picks for `va`: the last of the leading nodes
/// whose keys are at most `va`, if there is one.
pub open spec fn picked_node(nodes: Seq<GamePadNode>, va: u64) -> Option<int> {
    let n = prefix_at_most(nodes, va);
    if n == 0 {
        None
    } else {
        Some(n - 1)
    }
}

/// The pad the lookup for `va` returns, and the nodes after it: where a
/// node is picked, its pad and the nodes with that node marked saturated;
/// otherwise nothing, and the nodes unchanged.
pub open spec fn pad_lookup(nodes: Seq<GamePadNode>, va: Option<u64>) -> (Option<u64>, Seq<
    GamePadNode,
>) {
    match va {
        None => (None, nodes),
        Some(va) => match picked_node(nodes, va) {
            None => (None, nodes),
            Some(k) => (
                Some(nodes[k].pad),
                nodes.update(k, GamePadNode { saturated: true, ..nodes[k] }),
            ),
        },
    }
}

/// `prefix_at_most` is the length of the longest prefix whose keys are all at
/// most `va`: every key before it is at most `va`, and the key at it, if
/// any, is larger.
pub proof fn lemma_prefix_at_most_bounds(nodes: Seq<GamePadNode>, va: u64)
    ensures
        prefix_at_most(nodes, va) <= nodes.len(),
        forall|j: int| 0 <= j < prefix_at_most(nodes, va) ==> #[trigger] nodes[j].unk1 <= va,
        prefix_at_most(nodes, va) == nodes.len() || nodes[prefix_at_most(nodes, va) as int].unk1
            > va,
    decreases nodes.len(),
{
    if nodes.len() > 0 && nodes[0].unk1 <= va {
        let rest = nodes.drop_first();
        lemma_prefix_at_most_bounds(rest, va);
        assert forall|j: int| 0 <= j < prefix_at_most(nodes, va) implies #[trigger] nodes[j].unk1
            <= va by {
            if j > 0 {
                assert(nodes[j] == rest[j - 1]);
            }
        }
        let n = prefix_at_most(nodes, va) as int;
        if n < nodes.len() {
            assert(nodes[n] == rest[n - 1]);
        }
    }
}

/// Nodes with the same keys in the same order have the same prefix.
proof fn lemma_prefix_depends_on_keys(a: Seq<GamePadNode>, b: Seq<GamePadNode>, va: u64)
    requires
        a.len() == b.len(),
        forall|i: int| 0 <= i < a.len() ==> #[trigger] a[i].unk1 == b[i].unk1,
    ensures
        prefix_at_most(a, va) == prefix_at_most(b, va),
    decreases a.len(),
{
    if a.len() > 0 {
        let ra = a.drop_first();
        let rb = b.drop_first();
        assert forall|i: int| 0 <= i < ra.len() implies #[trigger] ra[i].unk1 == rb[i].unk1 by {
            assert(ra[i] == a[i + 1]);
            assert(rb[i] == b[i + 1]);
        }
        lemma_prefix_depends_on_keys(ra, rb, va);
    }
}

/// The lookup picks the last node of the leading run of nodes whose keys are
/// at most `va`, and picks none exactly when there are no nodes or the first
/// key is larger than `va`.
pub proof fn lemma_lookup_picks_last_at_most(nodes: Seq<GamePadNode>, va: u64)
    ensures
        picked_node(nodes, va) is None <==> (nodes.len() == 0 || nodes[0].unk1 > va),
        picked_node(nodes, va) matches Some(k) ==> {
            &&& 0 <= k < nodes.len()
            &&& forall|j: int| 0 <= j <= k ==> #[trigger] nodes[j].unk1 <= va
            &&& (k + 1 == nodes.len() || nodes[k + 1].unk1 > va)
        },
{
    lemma_prefix_at_most_bounds(nodes, va);
    if nodes.len() > 0 && nodes[0].unk1 <= va {
        lemma_prefix_at_most_bounds(nodes.drop_first(), va);
    }
}

/// What the lookup returns, in terms of the nodes' keys: with no address,
/// or no nodes, or a first key above `va`, no pad and no change; otherwise,
/// for the node `k` that ends the leading run of keys at most `va`, that
/// node's pad, with that node (and no other) marked saturated.
pub proof fn lemma_lookup_result(nodes: Seq<GamePadNode>, va: u64, k: int)
    ensures
        pad_lookup(nodes, None) == (None::<u64>, nodes),
        (nodes.len() == 0 || nodes[0].unk1 > va) ==> pad_lookup(nodes, Some(va)) == (
        None::<u64>,
        nodes,
        ),
        (0 <= k < nodes.len() && (forall|j: int| 0 <= j <= k ==> #[trigger] nodes[j].unk1 <= va)
            && (k + 1 == nodes.len() || nodes[k + 1].unk1 > va)) ==> {
            let (pad, after) = pad_lookup(nodes, Some(va));
            &&& pad == Some(nodes[k].pad)
            &&& after.len() == nodes.len()
            &&& after[k].unk1 == nodes[k].unk1
            &&& after[k].pad == nodes[k].pad
            &&& after[k].saturated
            &&& forall|j: int| 0 <= j < nodes.len() && j != k ==> #[trigger] after[j] == nodes[j]
        },
{
    lemma_prefix_at_most_bounds(nodes, va);
    if 0 <= k < nodes.len() && (forall|j: int| 0 <= j <= k ==> #[trigger] nodes[j].unk1 <= va)
        && (k + 1 == nodes.len() || nodes[k + 1].unk1 > va) {
        lemma_prefix_at_most(nodes, va, k + 1);
    }
    if nodes.len() > 0 && nodes[0].unk1 > va {
        lemma_prefix_at_most(nodes, va, 0);
    }
}

/// The lookup changes no node's key or pad, and no node but the one it picks.
pub proof fn lemma_lookup_keeps_nodes(nodes: Seq<GamePadNode>, va: Option<u64>)
    ensures
        pad_lookup(nodes, va).1.len() == nodes.len(),
        forall|i: int|
            0 <= i < nodes.len() ==> (#[trigger] pad_lookup(nodes, va).1[i]).unk1 == nodes[i].unk1
                && pad_lookup(nodes, va).1[i].pad == nodes[i].pad,
        forall|i: int|
            0 <= i < nodes.len() && (va matches Some(v) ==> picked_node(nodes, v) != Some(i))
                ==> #[trigger] pad_lookup(nodes, va).1[i] == nodes[i],
{
    if let Some(v) = va {
        lemma_prefix_at_most_bounds(nodes, v);
    }
}

/// Repeating a lookup returns the same pad and changes nothing more.
pub proof fn lemma_lookup_repeatable(nodes: Seq<GamePadNode>, va: Option<u64>)
    ensures
        pad_lookup(pad_lookup(nodes, va).1, va) == pad_lookup(nodes, va),
{
    let after = pad_lookup(nodes, va).1;
    lemma_lookup_keeps_nodes(nodes, va);
    if let Some(v) = va {
        lemma_prefix_at_most_bounds(nodes, v);
        lemma_prefix_depends_on_keys(nodes, after, v);
        if let Some(k) = picked_node(nodes, v) {
            assert(after.update(k, GamePadNode { saturated: true, ..after[k] }) =~= after);
        }
    }
}

/// The pad manager (source of name: singleton reflection data).
pub struct FD4PadManager {
    /// The game pad nodes, in the order the tree iterates them.
    pub game_pad_tree: Vec<GamePadNode>,
}

impl FD4PadManager {
    /// Picks the pad to poll: walks the game pad nodes in order while their
    /// keys are at most `va`, marks the last node walked as saturated and
    /// returns the address of its pad. `va` is the resolved address of
    /// [CS_PAD_LOOKUP_RVA], `None` where it could not be resolved.
    pub fn get_cs_pad(&mut self, va: Option<u64>) -> (pad: Option<u64>)
        ensures
            pad == pad_lookup(old(self).game_pad_tree@, va).0,
            final(self).game_pad_tree@ == pad_lookup(old(self).game_pad_tree@, va).1,
    {
        let va = match va {
            Some(va) => va,
            None => return None,
        };
        let len = self.game_pad_tree.len();
        let mut i: usize = 0;
        while i < len && self.game_pad_tree[i].unk1 <= va
            invariant
                len == self.game_pad_tree@.len(),
                0 <= i <= len,
                forall|j: int| 0 <= j < i ==> #[trigger] self.game_pad_tree@[j].unk1 <= va,
            decreases len - i,
        {
            i = i + 1;
        }
        proof {
            lemma_prefix_at_most(self.game_pad_tree@, va, i as int);
        }
        if i == 0 {
            None
        } else {
            let mut node = self.game_pad_tree[i - 1];
            node.saturated = true;
            self.game_pad_tree.set(i - 1, node);
            Some(node.pad)
        }
    }
}

/// A node of a pad's input tree.
pub struct UserInputNode {
    input_code: i32,
    unk4: [u8; 28],
}

/// The in-game key assignment (source of name: RTTI).
pub struct CSInGameKeyAssign {}

} // verus!
