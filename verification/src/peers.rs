//! The trusted peers of a node and how the command line adds to them.

use crate::error::ConfigError;
use vstd::prelude::*;

verus! {

/// The addresses that a list of peer records holds, without order or
/// multiplicity.
pub open spec fn addresses(peers: Seq<String>) -> Set<Seq<char>> {
    Set::new(|address: Seq<char>| exists|i: int| 0 <= i < peers.len() && peers[i]@ == address)
}

/// No address occurs twice in the list.
pub open spec fn distinct(peers: Seq<String>) -> bool {
    forall|i: int, j: int| 0 <= i < j < peers.len() ==> peers[i]@ != peers[j]@
}

/// What a peer configuration is, mathematically.
pub struct PeerModel {
    /// The addresses of the trusted peers.
    pub trusted_nodes: Set<Seq<char>>,
    /// Whether the node connects to trusted peers only.
    pub trusted_nodes_only: bool,
}

impl PeerModel {
    /// The configuration with `more` added to the trusted peers and the
    /// restriction to trusted peers replaced by `trusted_nodes_only`.
    pub open spec fn merged(self, more: Set<Seq<char>>, trusted_nodes_only: bool) -> PeerModel {
        PeerModel { trusted_nodes: self.trusted_nodes.union(more), trusted_nodes_only }
    }

    /// A node with this configuration can find a peer: where it is restricted
    /// to trusted peers, it knows one.
    pub open spec fn bootstrappable(self) -> bool {
        self.trusted_nodes_only ==> !(self.trusted_nodes =~= Set::<Seq<char>>::empty())
    }
}

/// The peers that a node trusts, each by the text of its record, and whether it
/// connects to no others.
#[derive(Debug)]
pub struct PeerConfig {
    trusted_nodes: Vec<String>,
    trusted_nodes_only: bool,
}

proof fn lemma_addresses_push(peers: Seq<String>, peer: String)
    ensures
        addresses(peers.push(peer)) =~= addresses(peers).insert(peer@),
{
    let longer = peers.push(peer);
    assert forall|address: Seq<char>| addresses(longer).contains(address) implies addresses(
        peers,
    ).insert(peer@).contains(address) by {
        let i = choose|i: int| 0 <= i < longer.len() && longer[i]@ == address;
        if i < peers.len() {
            assert(peers[i]@ == address);
        }
    }
    assert forall|address: Seq<char>|
        addresses(peers).insert(peer@).contains(address) implies addresses(longer).contains(
        address,
    ) by {
        if address == peer@ {
            assert(longer[peers.len() as int]@ == address);
        } else {
            let i = choose|i: int| 0 <= i < peers.len() && peers[i]@ == address;
            assert(longer[i]@ == address);
        }
    }
}

impl PeerConfig {
    /// No peer is held twice.
    #[verifier::type_invariant]
    pub closed spec fn well_formed(self) -> bool {
        distinct(self.trusted_nodes@)
    }

    /// The configuration's model.
    pub closed spec fn view(self) -> PeerModel {
        PeerModel {
            trusted_nodes: addresses(self.trusted_nodes@),
            trusted_nodes_only: self.trusted_nodes_only,
        }
    }

    /// The configuration of a node that trusts no peer in particular.
    pub fn new() -> (config: Self)
        ensures
            config.well_formed(),
            config@.trusted_nodes == Set::<Seq<char>>::empty(),
            !config@.trusted_nodes_only,
    {
        let config = PeerConfig { trusted_nodes: Vec::new(), trusted_nodes_only: false };
        assert(addresses(config.trusted_nodes@) =~= Set::<Seq<char>>::empty());
        config
    }

    /// Whether `peer` is among the trusted peers.
    pub fn contains(&self, peer: &String) -> (found: bool)
        ensures
            found == self@.trusted_nodes.contains(peer@),
    {
        let mut i: usize = 0;
        while i < self.trusted_nodes.len()
            invariant
                i <= self.trusted_nodes.len(),
                forall|k: int| 0 <= k < i ==> self.trusted_nodes@[k]@ != peer@,
            decreases self.trusted_nodes.len() - i,
        {
            if self.trusted_nodes[i] == *peer {
                return true;
            }
            i += 1;
        }
        false
    }

    /// The number of trusted peers.
    pub fn len(&self) -> (n: usize)
        ensures
            self@.trusted_nodes.finite(),
            n == self@.trusted_nodes.len(),
    {
        proof {
            use_type_invariant(self);
            lemma_addresses_count(self.trusted_nodes@);
        }
        self.trusted_nodes.len()
    }

    /// Whether no peer is trusted.
    pub fn is_empty(&self) -> (empty: bool)
        ensures
            empty == (self@.trusted_nodes == Set::<Seq<char>>::empty()),
    {
        let empty = self.trusted_nodes.len() == 0;
        proof {
            if empty {
                assert(addresses(self.trusted_nodes@) =~= Set::<Seq<char>>::empty());
            } else {
                assert(addresses(self.trusted_nodes@).contains(self.trusted_nodes@[0]@));
            }
        }
        empty
    }

    /// The records of the trusted peers, each once.
    pub fn trusted_nodes(&self) -> (peers: &Vec<String>)
        ensures
            distinct(peers@),
            addresses(peers@) == self@.trusted_nodes,
    {
        proof {
            use_type_invariant(self);
        }
        &self.trusted_nodes
    }

    /// Whether the node connects to trusted peers only.
    pub fn trusted_nodes_only(&self) -> (only: bool)
        ensures
            only == self@.trusted_nodes_only,
    {
        self.trusted_nodes_only
    }

    /// The configuration with the restriction to trusted peers replaced.
    pub fn with_trusted_nodes_only(self, trusted_nodes_only: bool) -> (config: Self)
        ensures
            config.well_formed(),
            config@.trusted_nodes == self@.trusted_nodes,
            config@.trusted_nodes_only == trusted_nodes_only,
    {
        proof {
            use_type_invariant(&self);
        }
        PeerConfig { trusted_nodes: self.trusted_nodes, trusted_nodes_only }
    }

    /// The configuration with `peers` added to the trusted peers. A peer that
    /// is trusted already is not added again.
    pub fn extend(self, peers: &Vec<String>) -> (config: Self)
        ensures
            config.well_formed(),
            config@.trusted_nodes == self@.trusted_nodes.union(addresses(peers@)),
            config@.trusted_nodes_only == self@.trusted_nodes_only,
    {
        proof {
            use_type_invariant(&self);
        }
        let mut config = self;
        let mut i: usize = 0;
        assert(addresses(peers@.take(0)) =~= Set::<Seq<char>>::empty());
        assert(self@.trusted_nodes.union(Set::<Seq<char>>::empty()) =~= self@.trusted_nodes);
        while i < peers.len()
            invariant
                i <= peers.len(),
                config.well_formed(),
                config@.trusted_nodes == self@.trusted_nodes.union(
                    addresses(peers@.take(i as int)),
                ),
                config@.trusted_nodes_only == self@.trusted_nodes_only,
            decreases peers.len() - i,
        {
            let ghost before = config;
            proof {
                assert(peers@.take(i as int + 1) =~= peers@.take(i as int).push(peers@[i as int]));
                lemma_addresses_push(peers@.take(i as int), peers@[i as int]);
            }
            if !config.contains(&peers[i]) {
                let peer = peers[i].clone();
                let PeerConfig { mut trusted_nodes, trusted_nodes_only } = config;
                proof {
                    lemma_addresses_push(trusted_nodes@, peer);
                    assert forall|k: int| 0 <= k < trusted_nodes@.len() implies trusted_nodes@[k]@
                        != peer@ by {
                        if trusted_nodes@[k]@ == peer@ {
                            assert(addresses(trusted_nodes@).contains(peer@));
                        }
                    }
                }
                trusted_nodes.push(peer);
                config = PeerConfig { trusted_nodes, trusted_nodes_only };
                assert(config@.trusted_nodes =~= self@.trusted_nodes.union(
                    addresses(peers@.take(i as int + 1)),
                ));
            } else {
                assert(config@.trusted_nodes =~= self@.trusted_nodes.union(
                    addresses(peers@.take(i as int + 1)),
                ));
            }
            i += 1;
        }
        assert(peers@.take(i as int) =~= peers@);
        config
    }

    /// Adds the peers named on the command line to a stored configuration and
    /// takes the restriction to trusted peers from the command line.
    ///
    /// The merge is refused exactly where it would leave a node that may only
    /// connect to trusted peers and knows none.
    pub fn merge(self, peers: &Vec<String>, trusted_nodes_only: bool) -> (merged: Result<
        PeerConfig,
        ConfigError,
    >)
        ensures
            match merged {
                Ok(config) => {
                    &&& config.well_formed()
                    &&& config@ == self@.merged(addresses(peers@), trusted_nodes_only)
                    &&& config@.bootstrappable()
                },
                Err(error) => {
                    &&& error == ConfigError::NoTrustedPeers
                    &&& !self@.merged(addresses(peers@), trusted_nodes_only).bootstrappable()
                },
            },
    {
        let extended = self.extend(peers);
        if extended.is_empty() && trusted_nodes_only {
            return Err(ConfigError::NoTrustedPeers);
        }
        Ok(extended.with_trusted_nodes_only(trusted_nodes_only))
    }
}

proof fn lemma_addresses_count(peers: Seq<String>)
    requires
        distinct(peers),
    ensures
        addresses(peers).finite(),
        addresses(peers).len() == peers.len(),
    decreases peers.len(),
{
    if peers.len() == 0 {
        assert(addresses(peers) =~= Set::<Seq<char>>::empty());
    } else {
        let front = peers.drop_last();
        let last = peers.last();
        assert(peers =~= front.push(last));
        lemma_addresses_count(front);
        lemma_addresses_push(front, last);
        if addresses(front).contains(last@) {
            let i = choose|i: int| 0 <= i < front.len() && front[i]@ == last@;
            assert(peers[i]@ == peers[peers.len() - 1]@);
        }
    }
}

/// A merge is refused exactly where it yields no trusted peer together with
/// the restriction to trusted peers; with a trusted peer it is accepted
/// whatever the restriction says.
pub proof fn law_merge_refusal(
    stored: PeerModel,
    more: Set<Seq<char>>,
    trusted_nodes_only: bool,
)
    ensures
        !stored.merged(more, trusted_nodes_only).bootstrappable() <==> (trusted_nodes_only
            && stored.trusted_nodes.union(more) =~= Set::<Seq<char>>::empty()),
        forall|address: Seq<char>| #[trigger]
            stored.trusted_nodes.union(more).contains(address) ==> stored.merged(
                more,
                trusted_nodes_only,
            ).bootstrappable(),
{
    let merged = stored.merged(more, trusted_nodes_only);
    assert forall|address: Seq<char>| #[trigger]
        stored.trusted_nodes.union(more).contains(address) implies merged.bootstrappable() by {
        assert(merged.trusted_nodes.contains(address));
    }
}

} // verus!
