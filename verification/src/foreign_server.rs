use vstd::prelude::*;
use crate::conn_url::{parse_connection_url, spec_parse_url, ConnDetailV};
use crate::error::StoreError;
use crate::shard::{primary_name, Shard};

verus! {

/// The name under which one shard registers another as a foreign server:
/// `shard_` followed by the shard's name. A function of the shard name
/// alone, so it is stable across restarts and identical in every process.
pub open spec fn foreign_server_name(shard: Seq<char>) -> Seq<char> {
    "shard_"@ + shard
}

/// The local schema into which the primary's key tables are mapped.
pub open spec fn primary_public() -> Seq<char> {
    "primary_public"@
}

/// The relations `map_primary` leaves in the local `primary_public`
/// schema, in creation order.
pub open spec fn mapped_relation_names() -> Seq<Seq<char>> {
    seq!["deployment_schemas"@, "chains"@]
}

/// One shard as seen from another shard's database: enough connection
/// detail to create or update a foreign-data-wrapper link to it.
pub struct ForeignServer {
    pub name: String,
    pub shard: Shard,
    pub user: String,
    pub password: String,
    pub host: String,
    pub port: u16,
    pub dbname: String,
}

pub ghost struct ForeignServerV {
    pub name: Seq<char>,
    pub shard: Seq<char>,
    pub user: Seq<char>,
    pub password: Seq<char>,
    pub host: Seq<char>,
    pub port: u16,
    pub dbname: Seq<char>,
}

impl View for ForeignServer {
    type V = ForeignServerV;

    open spec fn view(&self) -> ForeignServerV {
        ForeignServerV {
            name: self.name@,
            shard: self.shard@,
            user: self.user@,
            password: self.password@,
            host: self.host@,
            port: self.port,
            dbname: self.dbname@,
        }
    }
}

/// The statement batch that creates the foreign server and its user
/// mapping on another shard's database.
pub open spec fn create_ddl(v: ForeignServerV) -> Seq<char> {
    "create server \""@ + v.name
        + "\" foreign data wrapper postgres_fdw options (host '"@ + v.host
        + "', dbname '"@ + v.dbname
        + "', updatable 'false');\ncreate user mapping for current_user server \""@ + v.name
        + "\" options (user '"@ + v.user
        + "', password '"@ + v.password
        + "');"@
}

/// The statement batch that updates an existing foreign server and user
/// mapping in place, keeping its stable name.
pub open spec fn update_ddl(v: ForeignServerV) -> Seq<char> {
    "alter server \""@ + v.name
        + "\" options (set host '"@ + v.host
        + "', set dbname '"@ + v.dbname
        + "');\nalter user mapping for current_user server \""@ + v.name
        + "\" options (set user '"@ + v.user
        + "', set password '"@ + v.password
        + "');"@
}

/// The statement that drops and recreates the local `primary_public`
/// schema. Dropping first is what keeps repeated mapping from
/// accumulating stale objects.
pub open spec fn drop_create_ddl() -> Seq<char> {
    "drop schema if exists primary_public cascade;\ncreate schema primary_public;"@
}

/// On the primary shard itself the key tables are exposed as views.
pub open spec fn views_ddl() -> Seq<char> {
    "create view primary_public.deployment_schemas as select * from public.deployment_schemas;\ncreate view primary_public.chains as select * from public.chains;"@
}

/// On every other shard the key tables are imported through the link to
/// the primary, restricted to the explicit allow-list.
pub open spec fn import_ddl() -> Seq<char> {
    "import foreign schema public limit to (deployment_schemas, chains) from server shard_primary into primary_public;"@
}

/// The two statement batches `map_primary` runs, in order: recreate the
/// schema, then either expose views (on the primary) or import the tables
/// (elsewhere).
pub open spec fn map_primary_queries(shard: Seq<char>) -> (Seq<char>, Seq<char>) {
    (drop_create_ddl(), if shard == primary_name() {
        views_ddl()
    } else {
        import_ddl()
    })
}

impl ForeignServer {
    /// A foreign server is well formed when its name is derived from its
    /// shard and the shard name itself passed validation.
    pub open spec fn wf(&self) -> bool {
        &&& self@.name == foreign_server_name(self@.shard)
        &&& self.shard.wf()
    }

    /// The stable name of the link to `shard`: `shard_<name>`.
    pub fn name(shard: &Shard) -> (r: String)
        ensures
            r@ == foreign_server_name(shard@),
    {
        let mut n = String::from_str("shard_");
        n.append(shard.as_str());
        n
    }

    /// Build the connection detail for `shard` out of its connection
    /// string. Fails exactly when the string does not parse, which is a
    /// configuration defect and fatal at startup.
    pub fn new(shard: Shard, postgres_url: &str) -> (r: Result<ForeignServer, StoreError>)
        requires
            shard.wf(),
        ensures
            r is Ok <==> spec_parse_url(postgres_url@) is Ok,
            r matches Ok(fs) ==> {
                &&& spec_parse_url(postgres_url@) matches Ok(d)
                &&& fs@.user == d.user
                &&& fs@.password == d.password
                &&& fs@.host == d.host
                &&& fs@.port == d.port
                &&& fs@.dbname == d.dbname
                &&& fs@.shard == shard@
                &&& fs.wf()
            },
            r matches Err(e) ==> (spec_parse_url(postgres_url@) matches Err(u) && e
                == StoreError::BadUrl(u)),
    {
        match parse_connection_url(postgres_url) {
            Ok(d) => {
                let name = Self::name(&shard);
                Ok(ForeignServer {
                    name,
                    shard,
                    user: d.user,
                    password: d.password,
                    host: d.host,
                    port: d.port,
                    dbname: d.dbname,
                })
            },
            Err(e) => Err(StoreError::BadUrl(e)),
        }
    }

    /// The batch that creates this foreign server and its user mapping.
    pub fn create(&self) -> (r: String)
        ensures
            r@ == create_ddl(self@),
    {
        let mut q = String::from_str("create server \"");
        q.append(self.name.as_str());
        q.append("\" foreign data wrapper postgres_fdw options (host '");
        q.append(self.host.as_str());
        q.append("', dbname '");
        q.append(self.dbname.as_str());
        q.append("', updatable 'false');\ncreate user mapping for current_user server \"");
        q.append(self.name.as_str());
        q.append("\" options (user '");
        q.append(self.user.as_str());
        q.append("', password '");
        q.append(self.password.as_str());
        q.append("');");
        proof {
            assert(q@ =~= create_ddl(self@));
        }
        q
    }

    /// The batch that updates this foreign server's details in place.
    pub fn update(&self) -> (r: String)
        ensures
            r@ == update_ddl(self@),
    {
        let mut q = String::from_str("alter server \"");
        q.append(self.name.as_str());
        q.append("\" options (set host '");
        q.append(self.host.as_str());
        q.append("', set dbname '");
        q.append(self.dbname.as_str());
        q.append("');\nalter user mapping for current_user server \"");
        q.append(self.name.as_str());
        q.append("\" options (set user '");
        q.append(self.user.as_str());
        q.append("', set password '");
        q.append(self.password.as_str());
        q.append("');");
        proof {
            assert(q@ =~= update_ddl(self@));
        }
        q
    }

    /// The two batches that map the primary's key tables into the local
    /// `primary_public` schema: recreate the schema, then expose views on
    /// the primary shard or import the tables everywhere else.
    pub fn map_primary(shard: &Shard) -> (r: (String, String))
        ensures
            (r.0@, r.1@) == map_primary_queries(shard@),
    {
        let drop_create = String::from_str(
            "drop schema if exists primary_public cascade;\ncreate schema primary_public;",
        );
        let fill = if shard.is_primary() {
            String::from_str(
                "create view primary_public.deployment_schemas as select * from public.deployment_schemas;\ncreate view primary_public.chains as select * from public.chains;",
            )
        } else {
            String::from_str(
                "import foreign schema public limit to (deployment_schemas, chains) from server shard_primary into primary_public;",
            )
        };
        (drop_create, fill)
    }
}

/// Naming the link to a shard is deterministic: equal shard names give
/// equal foreign-server names, in any process and on any restart.
pub proof fn lemma_foreign_server_name_deterministic(a: Seq<char>, b: Seq<char>)
    requires
        a == b,
    ensures
        foreign_server_name(a) == foreign_server_name(b),
{
}

/// The relations the local `primary_public` schema holds after the
/// mapping ran, whatever it held before: the schema is dropped first, so
/// nothing accumulates.
pub open spec fn schema_after_map(prior: Seq<Seq<char>>) -> Seq<Seq<char>> {
    mapped_relation_names()
}

/// A model of the local `primary_public` schema: the relations it holds,
/// in creation order.
pub struct PrimarySchema {
    pub relations: Vec<String>,
}

impl PrimarySchema {
    pub open spec fn rels(&self) -> Seq<Seq<char>> {
        self.relations@.map_values(|s: String| s@)
    }

    /// What running the two `map_primary` batches leaves behind: exactly
    /// the two mapped relations, whatever was there before.
    pub fn apply_map_primary(&self) -> (r: PrimarySchema)
        ensures
            r.rels() == schema_after_map(self.rels()),
    {
        let mut relations: Vec<String> = Vec::new();
        relations.push(String::from_str("deployment_schemas"));
        relations.push(String::from_str("chains"));
        let r = PrimarySchema { relations };
        proof {
            assert(r.rels() =~= mapped_relation_names());
        }
        r
    }
}

/// Mapping the primary tables twice leaves the same schema as mapping
/// them once: the drop-before-create makes the result independent of the
/// prior state.
pub proof fn lemma_map_primary_idempotent(prior: Seq<Seq<char>>)
    ensures
        schema_after_map(schema_after_map(prior)) == schema_after_map(prior),
{
}

} // verus!
