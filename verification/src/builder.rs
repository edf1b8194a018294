use vstd::prelude::*;
use crate::error::StoreError;
use crate::foreign_server::ForeignServer;
use crate::conn_url::spec_parse_url;
use crate::pool::ConnectionPool;
use crate::shard::{primary_name, valid_shard_name, Shard};

verus! {

// The composition root. For every configured shard it builds one main
// pool and one pool per replica — collecting the routing weights in pool
// creation order, which is the contract any weighted-routing consumer
// relies on — gathers each main pool's connection detail for the setup
// pass, and resolves each chain name to the shard that holds its data,
// falling back to the primary shard for unmapped chains.

/// One replica of a shard: a read-only connection target with its own
/// pool sizing and routing weight.
pub struct ReplicaConfig {
    pub connection: String,
    pub pool_size: u32,
    pub weight: usize,
}

/// One configured shard: its validated name, primary connection string,
/// pool sizing (already resolved for this node), routing weight, and
/// replicas in configuration order.
pub struct ShardConfig {
    pub name: String,
    pub connection: String,
    pub pool_size: u32,
    pub weight: usize,
    pub replicas: Vec<ReplicaConfig>,
}

/// The configuration this layer consumes: the shards, and the mapping of
/// chain name to the name of the shard that stores the chain.
pub struct Config {
    pub shards: Vec<ShardConfig>,
    pub chains: Vec<(String, String)>,
}

/// Names in a shard entry passed the validation the configuration
/// collaborator owes us.
pub open spec fn shard_config_wf(s: ShardConfig) -> bool {
    valid_shard_name(s.name@)
}

pub open spec fn config_wf(c: Config) -> bool {
    &&& forall|i: int| 0 <= i < c.shards@.len() ==> shard_config_wf(#[trigger] c.shards@[i])
    &&& forall|i: int|
        0 <= i < c.chains@.len() ==> valid_shard_name((#[trigger] c.chains@[i]).1@)
}

// ------------------------------------------------------------------
// Replica pool roles: "replica1", "replica2", ... in configuration
// order, 1-indexed.

/// The digit character of `d`.
pub open spec fn digit_char(d: int) -> char {
    if d == 0 {
        '0'
    } else if d == 1 {
        '1'
    } else if d == 2 {
        '2'
    } else if d == 3 {
        '3'
    } else if d == 4 {
        '4'
    } else if d == 5 {
        '5'
    } else if d == 6 {
        '6'
    } else if d == 7 {
        '7'
    } else if d == 8 {
        '8'
    } else {
        '9'
    }
}

/// The decimal representation of `n`, most significant digit first.
pub open spec fn dec_rep(n: nat) -> Seq<char>
    decreases n,
{
    if n < 10 {
        seq![digit_char(n as int)]
    } else {
        dec_rep(n / 10) + seq![digit_char((n % 10) as int)]
    }
}

fn digit_str(d: u64) -> (r: &'static str)
    requires
        d < 10,
    ensures
        r@ == seq![digit_char(d as int)],
{
    proof {
        reveal_strlit("0");
        reveal_strlit("1");
        reveal_strlit("2");
        reveal_strlit("3");
        reveal_strlit("4");
        reveal_strlit("5");
        reveal_strlit("6");
        reveal_strlit("7");
        reveal_strlit("8");
        reveal_strlit("9");
    }
    let r = match d {
        0 => "0",
        1 => "1",
        2 => "2",
        3 => "3",
        4 => "4",
        5 => "5",
        6 => "6",
        7 => "7",
        8 => "8",
        _ => "9",
    };
    proof {
        assert(r@ =~= seq![digit_char(d as int)]);
    }
    r
}

/// Write `n` in decimal.
pub fn format_u64(n: u64) -> (r: String)
    ensures
        r@ == dec_rep(n as nat),
{
    let mut s = String::new();
    let mut m: u64 = n;
    let mut started = false;
    while !started || m > 0
        invariant
            started ==> dec_rep(n as nat) == (if m > 0 {
                dec_rep(m as nat)
            } else {
                Seq::<char>::empty()
            }) + s@,
            !started ==> m == n && s@.len() == 0,
        decreases m, (if started { 0int } else { 1int }),
    {
        let ghost prev_s = s@;
        let d: u64 = m % 10;
        let ds = digit_str(d);
        let mut t = String::from_str(ds);
        t.append(s.as_str());
        s = t;
        let prev: u64 = m;
        m = m / 10;
        proof {
            if prev >= 10 {
                assert(dec_rep(prev as nat) == dec_rep((prev / 10) as nat) + seq![
                    digit_char((prev % 10) as int),
                ]);
                assert(dec_rep(m as nat) + s@ =~= (dec_rep(prev as nat) + prev_s));
            } else {
                assert(dec_rep(prev as nat) =~= seq![digit_char(prev as int)]);
                if started {
                    assert(Seq::<char>::empty() + s@ =~= dec_rep(prev as nat) + prev_s);
                } else {
                    assert(Seq::<char>::empty() + s@ =~= dec_rep(n as nat));
                }
            }
        }
        started = true;
    }
    proof {
        assert(Seq::<char>::empty() + s@ =~= s@);
    }
    s
}

/// The role under which replica `i` (0-based) of a shard is created:
/// `replica<i+1>`.
pub open spec fn replica_role_name(i: nat) -> Seq<char> {
    "replica"@ + dec_rep(i + 1)
}

/// The role name of the replica at 0-based index `i`.
pub fn replica_role(i: usize) -> (r: String)
    requires
        i < usize::MAX,
    ensures
        r@ == replica_role_name(i as nat),
{
    let mut s = String::from_str("replica");
    let num = format_u64((i as u64) + 1);
    s.append(num.as_str());
    s
}

// ------------------------------------------------------------------
// Pool construction per shard.

/// The weights any weighted-routing consumer sees for one shard: the
/// shard's own weight first, then each replica's weight in pool creation
/// order.
pub open spec fn weight_list(s: ShardConfig) -> Seq<usize> {
    seq![s.weight] + s.replicas@.map_values(|r: ReplicaConfig| r.weight)
}

/// The main pool of one shard, role `main`.
pub fn main_pool(shard: &ShardConfig) -> (r: ConnectionPool)
    requires
        shard_config_wf(*shard),
    ensures
        r.wf(),
        r.shard_name() == shard.name@,
        r.pool_role() == "main"@,
        r.url() == shard.connection@,
        r.size() == shard.pool_size,
    {
    ConnectionPool::create(
        shard.name.as_str(),
        "main",
        shard.connection.clone(),
        shard.pool_size,
    )
}

/// One pool per replica of the shard, roles `replica1`, `replica2`, …,
/// together with the weight list `[shard.weight, w1, …, wk]` in that
/// same creation order.
pub fn replica_pools(shard: &ShardConfig) -> (r: (Vec<ConnectionPool>, Vec<usize>))
    requires
        shard_config_wf(*shard),
    ensures
        r.1@ == weight_list(*shard),
        r.0@.len() == shard.replicas@.len(),
        forall|i: int|
            0 <= i < r.0@.len() ==> {
                &&& (#[trigger] r.0@[i]).wf()
                &&& r.0@[i].shard_name() == shard.name@
                &&& r.0@[i].pool_role() == replica_role_name(i as nat)
                &&& r.0@[i].url() == shard.replicas@[i].connection@
                &&& r.0@[i].size() == shard.replicas@[i].pool_size
            },
{
    let mut pools: Vec<ConnectionPool> = Vec::new();
    let mut weights: Vec<usize> = Vec::new();
    weights.push(shard.weight);
    let mut i: usize = 0;
    while i < shard.replicas.len()
        invariant
            shard_config_wf(*shard),
            0 <= i <= shard.replicas@.len(),
            weights@ == seq![shard.weight] + shard.replicas@.subrange(0, i as int).map_values(
                |r: ReplicaConfig| r.weight,
            ),
            pools@.len() == i,
            forall|j: int|
                0 <= j < i ==> {
                    &&& (#[trigger] pools@[j]).wf()
                    &&& pools@[j].shard_name() == shard.name@
                    &&& pools@[j].pool_role() == replica_role_name(j as nat)
                    &&& pools@[j].url() == shard.replicas@[j].connection@
                    &&& pools@[j].size() == shard.replicas@[j].pool_size
                },
        decreases shard.replicas@.len() - i,
    {
        let replica = &shard.replicas[i];
        let role = replica_role(i);
        let pool = ConnectionPool::create(
            shard.name.as_str(),
            role.as_str(),
            replica.connection.clone(),
            replica.pool_size,
        );
        pools.push(pool);
        weights.push(replica.weight);
        proof {
            assert(weights@ =~= seq![shard.weight] + shard.replicas@.subrange(
                0,
                i + 1,
            ).map_values(|r: ReplicaConfig| r.weight));
        }
        i += 1;
    }
    proof {
        assert(shard.replicas@.subrange(0, shard.replicas@.len() as int) =~= shard.replicas@);
    }
    (pools, weights)
}

/// Everything one shard contributes to the sharded store: its identity,
/// its main pool, its replica pools, and the weight list in pool
/// creation order.
pub struct ShardPools {
    pub shard: Shard,
    pub main: ConnectionPool,
    pub replicas: Vec<ConnectionPool>,
    pub weights: Vec<usize>,
}

impl ShardPools {
    pub open spec fn matches(&self, cfg: ShardConfig) -> bool {
        &&& self.shard@ == cfg.name@
        &&& self.shard.wf()
        &&& self.main.wf()
        &&& self.main.shard_name() == cfg.name@
        &&& self.main.pool_role() == "main"@
        &&& self.main.url() == cfg.connection@
        &&& self.main.size() == cfg.pool_size
        &&& self.weights@ == weight_list(cfg)
        &&& self.replicas@.len() == cfg.replicas@.len()
        &&& forall|i: int|
            0 <= i < self.replicas@.len() ==> {
                &&& (#[trigger] self.replicas@[i]).wf()
                &&& self.replicas@[i].shard_name() == cfg.name@
                &&& self.replicas@[i].pool_role() == replica_role_name(i as nat)
                &&& self.replicas@[i].url() == cfg.replicas@[i].connection@
                &&& self.replicas@[i].size() == cfg.replicas@[i].pool_size
            }
    }
}

/// Build, for every configured shard, its main pool, its replica pools
/// and its weight list — the tuples the sharded store is assembled from.
pub fn shard_pools(config: &Config) -> (r: Vec<ShardPools>)
    requires
        config_wf(*config),
    ensures
        r@.len() == config.shards@.len(),
        forall|i: int|
            0 <= i < r@.len() ==> (#[trigger] r@[i]).matches(config.shards@[i]),
{
    let mut out: Vec<ShardPools> = Vec::new();
    let mut i: usize = 0;
    while i < config.shards.len()
        invariant
            config_wf(*config),
            0 <= i <= config.shards@.len(),
            out@.len() == i,
            forall|j: int| 0 <= j < i ==> (#[trigger] out@[j]).matches(config.shards@[j]),
        decreases config.shards@.len() - i,
    {
        let cfg = &config.shards[i];
        let shard = match Shard::new(cfg.name.clone()) {
            Ok(shard) => shard,
            Err(_) => unreached(),
        };
        let main = main_pool(cfg);
        let (replicas, weights) = replica_pools(cfg);
        out.push(ShardPools { shard, main, replicas, weights });
        i += 1;
    }
    out
}

// ------------------------------------------------------------------
// Chain resolution.

/// First match of `name` among the configured chain entries.
pub open spec fn chain_lookup(entries: Seq<(Seq<char>, Seq<char>)>, name: Seq<char>) -> Option<
    Seq<char>,
>
    decreases entries.len(),
{
    if entries.len() == 0 {
        None
    } else if entries[0].0 == name {
        Some(entries[0].1)
    } else {
        chain_lookup(entries.drop_first(), name)
    }
}

/// The shard that stores a chain: the mapped one, or the primary shard
/// when the chain is unmapped.
pub open spec fn resolved_shard(entries: Seq<(Seq<char>, Seq<char>)>, name: Seq<char>) -> Seq<
    char,
> {
    match chain_lookup(entries, name) {
        Some(s) => s,
        None => primary_name(),
    }
}

/// A chain name absent from the configured map resolves to the primary
/// shard.
pub proof fn lemma_unmapped_chain_falls_back(
    entries: Seq<(Seq<char>, Seq<char>)>,
    name: Seq<char>,
)
    requires
        chain_lookup(entries, name) is None,
    ensures
        resolved_shard(entries, name) == primary_name(),
{
}

/// Spec view of the chain table.
pub open spec fn chain_entries_view(entries: Seq<(String, Shard)>) -> Seq<(Seq<char>, Seq<char>)> {
    entries.map_values(|e: (String, Shard)| (e.0@, e.1@))
}

/// Look a chain name up in the chain table, falling back to the primary
/// shard.
pub fn resolve_chain_shard(entries: &Vec<(String, Shard)>, name: &str) -> (r: Shard)
    requires
        forall|i: int| 0 <= i < entries@.len() ==> (#[trigger] entries@[i]).1.wf(),
    ensures
        r@ == resolved_shard(chain_entries_view(entries@), name@),
        r.wf(),
{
    let ghost evs = chain_entries_view(entries@);
    proof {
        assert(evs.subrange(0, evs.len() as int) =~= evs);
    }
    let mut i: usize = 0;
    while i < entries.len()
        invariant
            0 <= i <= entries@.len(),
            evs == chain_entries_view(entries@),
            forall|j: int| 0 <= j < entries@.len() ==> (#[trigger] entries@[j]).1.wf(),
            chain_lookup(evs, name@) == chain_lookup(evs.subrange(i as int, evs.len() as int), name@),
        decreases entries@.len() - i,
    {
        proof {
            let tail = evs.subrange(i as int, evs.len() as int);
            assert(tail[0] == evs[i as int]);
            assert(tail.drop_first() =~= evs.subrange(i + 1, evs.len() as int));
        }
        let entry = &entries[i];
        if entry.0.eq(&name.to_owned()) {
            return entry.1.clone();
        }
        i += 1;
    }
    proof {
        assert(evs.subrange(evs.len() as int, evs.len() as int) =~= Seq::<(Seq<char>, Seq<char>)>::empty());
    }
    Shard::primary()
}

/// The foreign-server entry carries exactly what the pool's connection
/// string parses to.
pub open spec fn detail_of(fs: ForeignServer, pool: ConnectionPool) -> bool {
    match spec_parse_url(pool.url()) {
        Ok(d) => {
            &&& fs@.user == d.user
            &&& fs@.password == d.password
            &&& fs@.host == d.host
            &&& fs@.port == d.port
            &&& fs@.dbname == d.dbname
        },
        Err(_) => false,
    }
}

// ------------------------------------------------------------------
// The builder itself.

/// The composition root's state once the pools exist: the main pool of
/// every shard in configuration order, and the chain table.
pub struct StoreBuilder {
    pools: Vec<ConnectionPool>,
    chains: Vec<(String, Shard)>,
}

impl StoreBuilder {
    pub closed spec fn pools(&self) -> Seq<ConnectionPool> {
        self.pools@
    }

    pub closed spec fn chains(&self) -> Seq<(Seq<char>, Seq<char>)> {
        chain_entries_view(self.chains@)
    }

    pub open spec fn wf(&self) -> bool {
        &&& forall|i: int| 0 <= i < self.pools().len() ==> (#[trigger] self.pools()[i]).wf()
    }

    pub closed spec fn chains_wf(&self) -> bool {
        forall|i: int| 0 <= i < self.chains@.len() ==> (#[trigger] self.chains@[i]).1.wf()
    }

    /// Build one main pool per configured shard, in order, and validate
    /// the chain table. The configuration must already have validated
    /// every name; an invalid name here is a fatal configuration defect.
    pub fn new(config: &Config) -> (r: StoreBuilder)
        requires
            config_wf(*config),
        ensures
            r.wf(),
            r.chains_wf(),
            r.pools().len() == config.shards@.len(),
            forall|i: int|
                0 <= i < config.shards@.len() ==> {
                    &&& (#[trigger] r.pools()[i]).shard_name() == config.shards@[i].name@
                    &&& r.pools()[i].pool_role() == "main"@
                    &&& r.pools()[i].url() == config.shards@[i].connection@
                    &&& r.pools()[i].size() == config.shards@[i].pool_size
                },
            r.chains().len() == config.chains@.len(),
            forall|i: int|
                0 <= i < config.chains@.len() ==> #[trigger] r.chains()[i] == (
                    config.chains@[i].0@,
                    config.chains@[i].1@,
                ),
    {
        let mut pools: Vec<ConnectionPool> = Vec::new();
        let mut i: usize = 0;
        while i < config.shards.len()
            invariant
                config_wf(*config),
                0 <= i <= config.shards@.len(),
                pools@.len() == i,
                forall|j: int|
                    0 <= j < i ==> {
                        &&& (#[trigger] pools@[j]).wf()
                        &&& pools@[j].shard_name() == config.shards@[j].name@
                        &&& pools@[j].pool_role() == "main"@
                        &&& pools@[j].url() == config.shards@[j].connection@
                        &&& pools@[j].size() == config.shards@[j].pool_size
                    },
            decreases config.shards@.len() - i,
        {
            let pool = main_pool(&config.shards[i]);
            pools.push(pool);
            i += 1;
        }
        let mut chains: Vec<(String, Shard)> = Vec::new();
        let mut k: usize = 0;
        while k < config.chains.len()
            invariant
                config_wf(*config),
                0 <= k <= config.chains@.len(),
                chains@.len() == k,
                forall|j: int|
                    0 <= j < k ==> {
                        &&& (#[trigger] chains@[j]).0@ == config.chains@[j].0@
                        &&& chains@[j].1@ == config.chains@[j].1@
                        &&& chains@[j].1.wf()
                    },
            decreases config.chains@.len() - k,
        {
            let entry = &config.chains[k];
            let shard = match Shard::new(entry.1.clone()) {
                Ok(shard) => shard,
                Err(_) => unreached(),
            };
            chains.push((entry.0.clone(), shard));
            k += 1;
        }
        let r = StoreBuilder { pools, chains };
        proof {
            assert forall|i2: int| 0 <= i2 < config.chains@.len() implies #[trigger] r.chains()[i2]
                == (config.chains@[i2].0@, config.chains@[i2].1@) by {
                assert(r.chains()[i2] == (chains@[i2].0@, chains@[i2].1@));
            }
        }
        r
    }

    /// The connection detail of every main pool, for the setup pass.
    /// Fails exactly when some pool's connection string does not parse —
    /// a configuration defect, fatal at startup.
    pub fn connection_details(&self) -> (r: Result<Vec<ForeignServer>, StoreError>)
        requires
            self.wf(),
        ensures
            r is Ok <==> (forall|i: int|
                0 <= i < self.pools().len() ==> spec_parse_url(
                    (#[trigger] self.pools()[i]).url(),
                ) is Ok),
            r matches Ok(v) ==> {
                &&& v@.len() == self.pools().len()
                &&& forall|i: int|
                    0 <= i < v@.len() ==> {
                        &&& (#[trigger] v@[i]).wf()
                        &&& v@[i]@.shard == self.pools()[i].shard_name()
                        &&& detail_of(v@[i], self.pools()[i])
                    }
            },
    {
        let mut details: Vec<ForeignServer> = Vec::new();
        let mut i: usize = 0;
        while i < self.pools.len()
            invariant
                self.wf(),
                0 <= i <= self.pools().len(),
                details@.len() == i,
                forall|j: int|
                    0 <= j < i ==> spec_parse_url((#[trigger] self.pools()[j]).url()) is Ok,
                forall|j: int|
                    0 <= j < i ==> {
                        &&& (#[trigger] details@[j]).wf()
                        &&& details@[j]@.shard == self.pools()[j].shard_name()
                        &&& detail_of(details@[j], self.pools()[j])
                    },
            decreases self.pools().len() - i,
        {
            match self.pools[i].connection_detail() {
                Ok(detail) => {
                    details.push(detail);
                },
                Err(e) => {
                    return Err(e);
                },
            }
            i += 1;
        }
        Ok(details)
    }

    /// The shard that stores `chain`, falling back to the primary shard
    /// when the chain is not configured.
    pub fn chain_shard(&self, chain: &str) -> (r: Shard)
        requires
            self.chains_wf(),
        ensures
            r@ == resolved_shard(self.chains(), chain@),
            r.wf(),
    {
        resolve_chain_shard(&self.chains, chain)
    }

    /// Resolve, for each indexed chain, the shard that holds its data —
    /// the triples the block store is built from, minus the network
    /// identities that ride along unchanged.
    pub fn resolve_networks(&self, networks: &Vec<String>) -> (r: Vec<(String, Shard)>)
        requires
            self.chains_wf(),
        ensures
            r@.len() == networks@.len(),
            forall|i: int|
                0 <= i < networks@.len() ==> {
                    &&& (#[trigger] r@[i]).0@ == networks@[i]@
                    &&& r@[i].1@ == resolved_shard(self.chains(), networks@[i]@)
                    &&& r@[i].1.wf()
                },
    {
        let mut out: Vec<(String, Shard)> = Vec::new();
        let mut i: usize = 0;
        while i < networks.len()
            invariant
                self.chains_wf(),
                0 <= i <= networks@.len(),
                out@.len() == i,
                forall|j: int|
                    0 <= j < i ==> {
                        &&& (#[trigger] out@[j]).0@ == networks@[j]@
                        &&& out@[j].1@ == resolved_shard(self.chains(), networks@[j]@)
                        &&& out@[j].1.wf()
                    },
            decreases networks@.len() - i,
        {
            let name = networks[i].clone();
            let shard = self.chain_shard(name.as_str());
            out.push((name, shard));
            i += 1;
        }
        out
    }

    /// The main pool of the primary shard.
    pub fn primary_pool(&self) -> (r: &ConnectionPool)
        requires
            exists|i: int|
                0 <= i < self.pools().len() && (#[trigger] self.pools()[i]).shard_name()
                    == primary_name(),
        ensures
            r.shard_name() == primary_name(),
            exists|i: int| 0 <= i < self.pools().len() && *r == #[trigger] self.pools()[i],
    {
        let mut i: usize = 0;
        while i < self.pools.len()
            invariant
                0 <= i <= self.pools().len(),
                exists|j: int|
                    i <= j < self.pools().len() && (#[trigger] self.pools()[j]).shard_name()
                        == primary_name(),
            decreases self.pools().len() - i,
        {
            if self.pools[i].shard().is_primary() {
                return &self.pools[i];
            }
            i += 1;
        }
        unreached()
    }

    /// All main pools, in configuration order.
    pub fn main_pools(&self) -> (r: &Vec<ConnectionPool>)
        ensures
            r@ == self.pools(),
    {
        &self.pools
    }
}

} // verus!
