//! Fully qualified actor addresses, routing decisions and cross-node fan-out.
use vstd::prelude::*;
use crate::error::ActorError;

verus! {

/// Fully qualified actor address: a logical `name` paired with the `node`
/// that owns it. Two nodes cannot hold the same address, since their `node`
/// parts differ.
#[derive(Debug, Clone, PartialEq, Eq, Hash)]
pub struct Address {
    pub name: String,
    pub node: String,
}

/// The text of an address: `node:name`.
pub open spec fn address_text(node: Seq<char>, name: Seq<char>) -> Seq<char> {
    node + seq![':'] + name
}

impl Address {
    /// An address on `node` named `name`; each part is the `String` that the
    /// argument's `Into<String>` conversion gives (for a string slice, its
    /// own characters).
    pub fn new<N: Into<String>, M: Into<String>>(node: N, name: M) -> (r: Self)
        ensures
            call_ensures(<N as Into<String>>::into, (node,), r.node),
            call_ensures(<M as Into<String>>::into, (name,), r.name),
    {
        Address { name: name.into(), node: node.into() }
    }

    /// The address as text, `node:name`.
    pub fn to_string(&self) -> (s: String)
        ensures
            s@ == address_text(self.node@, self.name@),
    {
        proof {
            reveal_strlit(":");
        }
        let mut s = String::from_str(self.node.as_str());
        s.append(":");
        s.append(self.name.as_str());
        s
    }
}

/// Where a request for an address goes.
#[derive(Debug, PartialEq, Eq)]
pub enum Route {
    /// To the actor of this name on this node.
    Local(String),
    /// Through the broker to the address's node.
    Remote,
}

/// Decides where a request for `address` goes from the node `self_node`:
/// to the local actor of the address's name when the address is on this
/// node, otherwise through the broker, which must be configured.
pub fn route(address: &Address, self_node: &str, has_broker: bool) -> (r: Result<Route, ActorError>)
    ensures
        address.node@ == self_node@ ==> r == Ok::<Route, ActorError>(Route::Local(address.name)),
        address.node@ != self_node@ && has_broker ==> r == Ok::<Route, ActorError>(Route::Remote),
        address.node@ != self_node@ && !has_broker ==> r == Err::<Route, ActorError>(ActorError::InterNodeNotConfigured),
{
    if address.node.as_str().eq(self_node) {
        Ok(Route::Local(address.name.clone()))
    } else if has_broker {
        Ok(Route::Remote)
    } else {
        Err(ActorError::InterNodeNotConfigured)
    }
}

/// Whether the node named `node_name` accepts an actor at an address whose
/// node part is `address_node`: only its own addresses.
pub open spec fn accepts(node_name: Seq<char>, address_node: Seq<char>) -> bool {
    address_node == node_name
}

/// The name under which `address` is registered on the node `node_name`: an
/// address naming another node is refused with `AddressNotOwned("node:name")`.
pub fn registration_name(address: Address, node_name: &str) -> (r: Result<String, ActorError>)
    ensures
        !accepts(node_name@, address.node@) ==> (r matches Err(ActorError::AddressNotOwned(text))
            && text@ == address_text(address.node@, address.name@)),
        accepts(node_name@, address.node@) ==> r == Ok::<String, ActorError>(address.name),
        address.node@ == node_name@ ==> r == Ok::<String, ActorError>(address.name),
        address.node@ != node_name@ ==> r is Err,
{
    if !address.node.as_str().eq(node_name) {
        return Err(ActorError::AddressNotOwned(address.to_string()));
    }
    Ok(address.name)
}

/// Selects which set of nodes a broadcast fans out to.
#[derive(Debug, Clone)]
pub enum NodeFilter {
    /// This node's local actors only.
    SelfOnly,
    /// A single named node (which may be this node).
    Node(String),
    /// The union of the listed nodes.
    Peers(Vec<String>),
}

/// The nodes a filter names, in order, as seen from `self_node`.
pub open spec fn requested_nodes(filter: NodeFilter, self_node: Seq<char>) -> Seq<Seq<char>> {
    match filter {
        NodeFilter::SelfOnly => seq![self_node],
        NodeFilter::Node(n) => seq![n@],
        NodeFilter::Peers(ns) => ns@.map_values(|s: String| s@),
    }
}

/// The peers a broadcast is shipped to: the requested nodes other than
/// `self_node`, each once, in order of first mention.
pub open spec fn remote_targets(raw: Seq<Seq<char>>, self_node: Seq<char>) -> Seq<Seq<char>>
    decreases raw.len(),
{
    if raw.len() == 0 {
        Seq::empty()
    } else {
        let prefix = remote_targets(raw.drop_last(), self_node);
        let n = raw.last();
        if n == self_node || prefix.contains(n) {
            prefix
        } else {
            prefix.push(n)
        }
    }
}

/// How a broadcast is carried out: whether this node's own actors take part,
/// and which peers get a fan-out envelope.
pub struct BroadcastPlan {
    pub run_local: bool,
    pub remote_nodes: Vec<String>,
}

/// Plans a broadcast over the nodes selected by `filter`: this node takes
/// part exactly when it is requested; every other requested node is a remote
/// target once. With remote targets and no broker, the broadcast cannot be
/// carried out (`InterNodeNotConfigured`).
pub fn plan_broadcast(filter: &NodeFilter, self_node: &str, has_broker: bool) -> (r: Result<BroadcastPlan, ActorError>)
    ensures
        ({
            let raw = requested_nodes(*filter, self_node@);
            let targets = remote_targets(raw, self_node@);
            &&& (targets.len() > 0 && !has_broker) ==> r == Err::<BroadcastPlan, ActorError>(ActorError::InterNodeNotConfigured)
            &&& !(targets.len() > 0 && !has_broker) ==> (r matches Ok(plan)
                && plan.run_local == raw.contains(self_node@)
                && plan.remote_nodes@.map_values(|s: String| s@) == targets)
        }),
        r matches Ok(plan) ==> (filter is SelfOnly ==> plan.run_local && plan.remote_nodes@.len() == 0),
        r matches Ok(plan) ==> (filter matches NodeFilter::Node(n) ==> (
            plan.run_local == (n@ == self_node@))),
        r matches Ok(plan) ==> (filter matches NodeFilter::Peers(ns) ==> (
            plan.run_local == (exists|i: int| 0 <= i < ns@.len() && #[trigger] ns@[i]@ == self_node@))),
{
    let raw: Vec<String> = match filter {
        NodeFilter::SelfOnly => {
            let mut v = Vec::new();
            v.push(String::from_str(self_node));
            v
        },
        NodeFilter::Node(n) => {
            let mut v = Vec::new();
            v.push(n.clone());
            v
        },
        NodeFilter::Peers(ns) => ns.clone(),
    };
    let ghost rawv = requested_nodes(*filter, self_node@);
    assert(raw@.map_values(|s: String| s@) =~= rawv);
    let mut run_local = false;
    let mut remote: Vec<String> = Vec::new();
    let mut i: usize = 0;
    while i < raw.len()
        invariant
            i <= raw.len(),
            rawv == raw@.map_values(|s: String| s@),
            run_local == rawv.take(i as int).contains(self_node@),
            remote@.map_values(|s: String| s@) == remote_targets(rawv.take(i as int), self_node@),
        decreases raw.len() - i,
    {
        let node = &raw[i];
        proof {
            assert(rawv.take(i + 1).drop_last() =~= rawv.take(i as int));
            assert(rawv.take(i + 1).last() == node@);
            crate::registry::lemma_take_step(rawv, i as int);
        }
        if node.as_str().eq(self_node) {
            run_local = true;
        } else {
            let mut seen = false;
            let mut j: usize = 0;
            while j < remote.len()
                invariant
                    j <= remote.len(),
                    seen == remote@.map_values(|s: String| s@).take(j as int).contains(node@),
                decreases remote.len() - j,
            {
                proof {
                    crate::registry::lemma_take_step(remote@.map_values(|s: String| s@), j as int);
                }
                if remote[j].as_str().eq(node.as_str()) {
                    seen = true;
                }
                j = j + 1;
            }
            assert(remote@.map_values(|s: String| s@).take(j as int) =~= remote@.map_values(|s: String| s@));
            if !seen {
                remote.push(node.clone());
                assert(remote@.map_values(|s: String| s@) =~= remote_targets(rawv.take(i + 1), self_node@));
            }
        }
        i = i + 1;
    }
    assert(rawv.take(raw.len() as int) =~= rawv);
    proof {
        lemma_requested_nodes(*filter, self_node@, self_node@);
        lemma_remote_targets(rawv, self_node@, self_node@);
        assert(seq![self_node@].drop_last() =~= Seq::<Seq<char>>::empty());
        assert(remote_targets(Seq::<Seq<char>>::empty(), self_node@) =~= Seq::<Seq<char>>::empty());
        assert(seq![self_node@].last() == self_node@);
        assert(remote_targets(seq![self_node@], self_node@).len() == 0);
    }
    if remote.len() > 0 && !has_broker {
        return Err(ActorError::InterNodeNotConfigured);
    }
    Ok(BroadcastPlan { run_local, remote_nodes: remote })
}

/// The text of an address is its node, a colon and its name: both parts can
/// be read back from it.
pub proof fn lemma_address_text_parts(node: Seq<char>, name: Seq<char>)
    ensures
        address_text(node, name).len() == node.len() + 1 + name.len(),
        address_text(node, name).subrange(0, node.len() as int) == node,
        address_text(node, name)[node.len() as int] == ':',
        address_text(node, name).subrange((node.len() + 1) as int, address_text(node, name).len() as int) == name,
{
    let t = address_text(node, name);
    assert(t.subrange(0, node.len() as int) =~= node);
    assert(t.subrange((node.len() + 1) as int, t.len() as int) =~= name);
}

/// Listed nodes that are all distinct and all other than this node are
/// each shipped an envelope, in the order they are listed.
pub proof fn lemma_remote_targets_keep_order(raw: Seq<Seq<char>>, self_node: Seq<char>)
    requires
        raw.no_duplicates(),
        !raw.contains(self_node),
    ensures
        remote_targets(raw, self_node) == raw,
    decreases raw.len(),
{
    if raw.len() > 0 {
        let rest = raw.drop_last();
        let n = raw.last();
        assert(rest.no_duplicates());
        assert(!rest.contains(self_node)) by {
            if rest.contains(self_node) {
                let j = choose|j: int| 0 <= j < rest.len() && rest[j] == self_node;
                assert(raw[j] == self_node);
            }
        }
        lemma_remote_targets_keep_order(rest, self_node);
        assert(n != self_node) by {
            assert(raw[raw.len() - 1] == n);
        }
        assert(!rest.contains(n)) by {
            if rest.contains(n) {
                let j = choose|j: int| 0 <= j < rest.len() && rest[j] == n;
                assert(raw[j] == raw[raw.len() - 1]);
            }
        }
        assert(rest.push(n) =~= raw);
    }
}

/// A node owns exactly the addresses that name it: whatever its name, it
/// accepts an address whose node part is that name, and no other.
pub proof fn lemma_node_owns_own_addresses(node_name: Seq<char>, address_node: Seq<char>)
    ensures
        accepts(node_name, node_name),
        accepts(node_name, address_node) <==> address_node == node_name,
{
}

/// The nodes a filter requests are the ones it names, in order: this node
/// for `SelfOnly`, the named node for `Node`, and exactly the listed nodes,
/// nothing added, for `Peers`.
pub proof fn lemma_requested_nodes(filter: NodeFilter, self_node: Seq<char>, x: Seq<char>)
    ensures
        filter is SelfOnly ==> requested_nodes(filter, self_node) == seq![self_node],
        filter matches NodeFilter::Node(n) ==> requested_nodes(filter, self_node) == seq![n@],
        filter matches NodeFilter::Peers(ns) ==> (
            requested_nodes(filter, self_node).len() == ns@.len()
            && (forall|i: int| 0 <= i < ns@.len() ==> #[trigger] requested_nodes(filter, self_node)[i] == ns@[i]@)
            && (requested_nodes(filter, self_node).contains(x) <==> exists|i: int|
                0 <= i < ns@.len() && #[trigger] ns@[i]@ == x)),
{
    match filter {
        NodeFilter::Peers(ns) => {
            let raw = requested_nodes(filter, self_node);
            if raw.contains(x) {
                let j = choose|j: int| 0 <= j < raw.len() && raw[j] == x;
                assert(ns@[j]@ == x);
            }
            if exists|i: int| 0 <= i < ns@.len() && #[trigger] ns@[i]@ == x {
                let i = choose|i: int| 0 <= i < ns@.len() && #[trigger] ns@[i]@ == x;
                assert(raw[i] == x);
            }
        },
        _ => {},
    }
}

/// A broadcast over listed peers reaches this node's own actors exactly when
/// this node is listed, and ships an envelope to every other listed node and
/// to no node that is not listed.
pub proof fn lemma_peers_broadcast(ns: Vec<String>, self_node: Seq<char>, x: Seq<char>)
    ensures
        requested_nodes(NodeFilter::Peers(ns), self_node).contains(self_node)
            <==> exists|i: int| 0 <= i < ns@.len() && #[trigger] ns@[i]@ == self_node,
        remote_targets(requested_nodes(NodeFilter::Peers(ns), self_node), self_node).contains(x)
            <==> (x != self_node && exists|i: int| 0 <= i < ns@.len() && #[trigger] ns@[i]@ == x),
{
    lemma_requested_nodes(NodeFilter::Peers(ns), self_node, self_node);
    lemma_requested_nodes(NodeFilter::Peers(ns), self_node, x);
    lemma_remote_targets(requested_nodes(NodeFilter::Peers(ns), self_node), self_node, x);
}

/// Addresses are unique across the cluster: two nodes with different names
/// never both accept an actor at the same address.
pub proof fn lemma_single_owner(address_node: Seq<char>, n1: Seq<char>, n2: Seq<char>)
    requires
        accepts(n1, address_node),
        accepts(n2, address_node),
    ensures
        n1 == n2,
{
}

/// The broadcast targets: each requested node other than this one, exactly
/// once; this node is never shipped an envelope.
pub proof fn lemma_remote_targets(raw: Seq<Seq<char>>, self_node: Seq<char>, x: Seq<char>)
    ensures
        remote_targets(raw, self_node).no_duplicates(),
        !remote_targets(raw, self_node).contains(self_node),
        remote_targets(raw, self_node).contains(x) <==> (raw.contains(x) && x != self_node),
    decreases raw.len(),
{
    if raw.len() > 0 {
        let rest = raw.drop_last();
        let n = raw.last();
        lemma_remote_targets(rest, self_node, x);
        lemma_remote_targets(rest, self_node, n);
        let prefix = remote_targets(rest, self_node);
        if rest.contains(x) {
            let j = choose|j: int| 0 <= j < rest.len() && rest[j] == x;
            assert(raw[j] == x);
        }
        if raw.contains(x) && x != n {
            let j = choose|j: int| 0 <= j < raw.len() && raw[j] == x;
            assert(rest[j] == x);
        }
        if x == n {
            assert(raw[raw.len() - 1] == x);
        }
        if !(n == self_node || prefix.contains(n)) {
            let grown = prefix.push(n);
            assert forall|i: int, j: int| 0 <= i < grown.len() && 0 <= j < grown.len() && i != j
                implies grown[i] != grown[j] by {
                if i == prefix.len() as int {
                    assert(prefix.contains(grown[j]));
                } else if j == prefix.len() as int {
                    assert(prefix.contains(grown[i]));
                }
            }
            if grown.contains(x) {
                let j = choose|j: int| 0 <= j < grown.len() && grown[j] == x;
                if j < prefix.len() {
                    assert(prefix.contains(x));
                }
            }
            if prefix.contains(x) {
                let j = choose|j: int| 0 <= j < prefix.len() && prefix[j] == x;
                assert(grown[j] == x);
            }
            if x == n {
                assert(grown[prefix.len() as int] == x);
            }
            if grown.contains(self_node) {
                let j = choose|j: int| 0 <= j < grown.len() && grown[j] == self_node;
                if j < prefix.len() {
                    assert(prefix.contains(self_node));
                }
            }
        }
    }
}

/// Outcome of a cross-node broadcast: one entry per matched local actor, and
/// one entry per remote peer that a fan-out envelope was shipped to (not per
/// remote actor).
#[derive(Debug)]
pub struct BroadcastResult {
    pub local: Vec<Result<(), ActorError>>,
    pub remote: Vec<Result<(), ActorError>>,
}

impl Default for BroadcastResult {
    fn default() -> (r: Self)
        ensures
            r.local@.len() == 0,
            r.remote@.len() == 0,
    {
        BroadcastResult { local: Vec::new(), remote: Vec::new() }
    }
}

impl BroadcastResult {
    /// True iff every local mailbox send and every remote produce succeeded.
    pub fn all_ok(&self) -> (b: bool)
        ensures
            b == ((forall|i: int| 0 <= i < self.local@.len() ==> #[trigger] self.local@[i] is Ok)
                && (forall|i: int| 0 <= i < self.remote@.len() ==> #[trigger] self.remote@[i] is Ok)),
    {
        let mut i: usize = 0;
        while i < self.local.len()
            invariant
                i <= self.local.len(),
                forall|j: int| 0 <= j < i ==> #[trigger] self.local@[j] is Ok,
            decreases self.local.len() - i,
        {
            if self.local[i].is_err() {
                return false;
            }
            i = i + 1;
        }
        let mut j: usize = 0;
        while j < self.remote.len()
            invariant
                j <= self.remote.len(),
                forall|k: int| 0 <= k < self.local@.len() ==> #[trigger] self.local@[k] is Ok,
                forall|k: int| 0 <= k < j ==> #[trigger] self.remote@[k] is Ok,
            decreases self.remote.len() - j,
        {
            if self.remote[j].is_err() {
                return false;
            }
            j = j + 1;
        }
        true
    }

    /// The entries of `local` followed by those of `remote`.
    pub fn iter(&self) -> (v: Vec<&Result<(), ActorError>>)
        ensures
            v@.len() == self.local@.len() + self.remote@.len(),
            forall|i: int| 0 <= i < self.local@.len() ==> *(#[trigger] v@[i]) == self.local@[i],
            forall|i: int| 0 <= i < self.remote@.len() ==> *v@[self.local@.len() + i] == #[trigger] self.remote@[i],
    {
        let mut v: Vec<&Result<(), ActorError>> = Vec::new();
        let mut i: usize = 0;
        while i < self.local.len()
            invariant
                i <= self.local.len(),
                v@.len() == i,
                forall|k: int| 0 <= k < i ==> *(#[trigger] v@[k]) == self.local@[k],
            decreases self.local.len() - i,
        {
            v.push(&self.local[i]);
            i = i + 1;
        }
        let mut j: usize = 0;
        while j < self.remote.len()
            invariant
                j <= self.remote.len(),
                v@.len() == self.local@.len() + j,
                forall|k: int| 0 <= k < self.local@.len() ==> *(#[trigger] v@[k]) == self.local@[k],
                forall|k: int| 0 <= k < j ==> *v@[self.local@.len() + k] == #[trigger] self.remote@[k],
            decreases self.remote.len() - j,
        {
            v.push(&self.remote[j]);
            j = j + 1;
        }
        v
    }
}

} // verus!
