use botstone::permissions::{Permissible, Permission};

#[test]
fn exact_wildcardless_matching() {
    for perm_node in ["rootnode", "my.perm", "my.long.perm.node"] {
        let perm = Permission::new(perm_node.to_string(), false);
        assert!(perm.matches(perm_node), "Didn't match perm for {:?}", perm_node);
    }
}

#[test]
fn prefix_wildcardless_no_matching() {
    for (node, perm_node) in [("root", "rootnode"), ("my", "my.perm"), ("my.long", "my.long.perm.node")] {
        let perm = Permission::new(node.to_string(), false);
        assert!(
            !perm.matches(perm_node),
            "Did match {:?} perm for {:?}",
            perm,
            perm_node
        );
    }
}

#[test]
fn prefix_wildcard_no_matching() {
    for (node, perm_node) in [("root", "rootnode"), ("my.p", "my.perm"), ("my.lo", "my.long.perm.node")] {
        let perm = Permission::new(node.to_string(), true);
        assert!(
            !perm.matches(perm_node),
            "Did match {:?} perm for {:?}",
            perm,
            perm_node
        );
    }
}

#[test]
fn prefix_wildcard_matching() {
    for (node, perm_node) in [("my", "my.perm"), ("my.long", "my.long.perm.node")] {
        let perm = Permission::new(node.to_string(), true);
        assert!(
            perm.matches(perm_node),
            "Didn't match {:?} perm for {:?}",
            perm,
            perm_node
        );
    }
}

#[test]
fn check_successful_permission_parsing() {
    for (serialized, node, wildcard) in [
        ("root", "root", false),
        ("my.perm", "my.perm", false),
        ("my.long.perm.node", "my.long.perm.node", false),
        ("my.*", "my", true),
        ("my.long.perm.*", "my.long.perm", true),
    ] {
        let result = Permission::try_from(&serialized.to_string());
        let expected = Permission::new(node.to_string(), wildcard);
        match result {
            Ok(deserialized) => assert_eq!(deserialized, expected),
            Err(e) => panic!(
                "Expected {} to deserialize succesfully to {:?}, got error instead: {:?}",
                serialized, expected, e
            ),
        }
    }
}

#[test]
fn check_invalid_permission_parsing() {
    for serialized in ["", ".", "*", "myperm*", "myperm*."] {
        let result = Permission::try_from(&serialized.to_string());
        match result {
            Ok(deserialized) => panic!(
                "Expected {} to fail to deserialize, got instead: {:?}",
                serialized, deserialized
            ),
            Err(_e) => {},
        }
    }
}

#[test]
fn matching_through_string_reference() {
    let perm = Permission::new("my".to_string(), true);
    let node = "my.perm".to_string();
    assert!(perm.matches(&node));
}

#[test]
fn getters_expose_the_parts() {
    let perm = Permission::new("a.b".to_string(), true);
    assert_eq!(perm.node(), "a.b");
    assert!(perm.wildcard());
}
