use shard_store::error::StoreError;
use shard_store::shard::Shard;

#[test]
fn valid_names_are_accepted() {
    for name in ["primary", "a", "shard_2", "abc_def_123", "z9"] {
        let s = Shard::new(name.to_string()).unwrap();
        assert_eq!(s.as_str(), name);
    }
}

#[test]
fn thirty_characters_is_the_limit() {
    let ok = "a".repeat(30);
    assert!(Shard::new(ok).is_ok());
    let too_long = "a".repeat(31);
    assert!(Shard::new(too_long).is_err());
}

#[test]
fn invalid_names_are_rejected() {
    for name in ["", "Primary", "1shard", "_shard", "sh-ard", "sh ard", "sh.ard"] {
        match Shard::new(name.to_string()) {
            Err(StoreError::InvalidName(n)) => assert_eq!(n, name),
            other => panic!("expected InvalidName for {:?}, got {:?}", name, other.is_ok()),
        }
    }
}

#[test]
fn primary_shard_is_named_primary() {
    let p = Shard::primary();
    assert_eq!(p.as_str(), "primary");
    assert!(p.is_primary());
    let q = Shard::new("other".to_string()).unwrap();
    assert!(!q.is_primary());
}

#[test]
fn shard_equality_follows_the_name() {
    let a = Shard::new("sharda".to_string()).unwrap();
    let b = Shard::new("sharda".to_string()).unwrap();
    let c = Shard::new("shardb".to_string()).unwrap();
    assert!(a == b);
    assert!(a != c);
    assert!(a.clone() == b);
}
