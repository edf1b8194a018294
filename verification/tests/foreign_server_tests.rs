use shard_store::error::{StoreError, UrlError};
use shard_store::foreign_server::{ForeignServer, PrimarySchema};
use shard_store::shard::Shard;

fn shard(name: &str) -> Shard {
    Shard::new(name.to_string()).unwrap()
}

#[test]
fn server_name_is_deterministic() {
    let a = ForeignServer::name(&shard("primary"));
    let b = ForeignServer::name(&shard("primary"));
    assert_eq!(a, "shard_primary");
    assert_eq!(a, b);
    assert_eq!(ForeignServer::name(&shard("shard_b")), "shard_shard_b");
}

#[test]
fn new_fills_every_field() {
    let fs = ForeignServer::new(shard("aux"), "postgresql://user:pw@host1:6000/db1").unwrap();
    assert_eq!(fs.name, "shard_aux");
    assert_eq!(fs.shard.as_str(), "aux");
    assert_eq!(fs.user, "user");
    assert_eq!(fs.password, "pw");
    assert_eq!(fs.host, "host1");
    assert_eq!(fs.port, 6000);
    assert_eq!(fs.dbname, "db1");
}

#[test]
fn new_surfaces_the_parse_error() {
    match ForeignServer::new(shard("aux"), "postgresql://user@host1/db1") {
        Err(StoreError::BadUrl(UrlError::MissingPassword)) => {},
        other => panic!("unexpected: {:?}", other.is_ok()),
    }
}

#[test]
fn create_ddl_text_is_exact() {
    let fs = ForeignServer::new(shard("aux"), "postgresql://user:pw@host1/db1").unwrap();
    let expected = "create server \"shard_aux\" foreign data wrapper postgres_fdw options \
                    (host 'host1', dbname 'db1', updatable 'false');\n\
                    create user mapping for current_user server \"shard_aux\" options \
                    (user 'user', password 'pw');";
    assert_eq!(fs.create(), expected);
}

#[test]
fn update_ddl_text_is_exact() {
    let fs = ForeignServer::new(shard("aux"), "postgresql://user:pw@host1/db1").unwrap();
    let expected = "alter server \"shard_aux\" options (set host 'host1', set dbname 'db1');\n\
                    alter user mapping for current_user server \"shard_aux\" options \
                    (set user 'user', set password 'pw');";
    assert_eq!(fs.update(), expected);
}

#[test]
fn map_primary_recreates_the_schema_first() {
    let (drop_create, fill) = ForeignServer::map_primary(&shard("primary"));
    assert_eq!(
        drop_create,
        "drop schema if exists primary_public cascade;\ncreate schema primary_public;"
    );
    assert!(fill.starts_with("create view primary_public.deployment_schemas"));
    assert!(fill.contains("create view primary_public.chains"));
}

#[test]
fn map_primary_imports_on_other_shards() {
    let (_, fill) = ForeignServer::map_primary(&shard("aux"));
    assert_eq!(
        fill,
        "import foreign schema public limit to (deployment_schemas, chains) \
         from server shard_primary into primary_public;"
    );
}

#[test]
fn mapping_twice_leaves_exactly_the_two_relations() {
    let stale = PrimarySchema {
        relations: vec!["old_view".to_string(), "deployment_schemas".to_string()],
    };
    let once = stale.apply_map_primary();
    assert_eq!(once.relations, vec!["deployment_schemas", "chains"]);
    let twice = once.apply_map_primary();
    assert_eq!(twice.relations, vec!["deployment_schemas", "chains"]);
}
