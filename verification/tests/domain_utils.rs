use this_env::domain_utils::{determine_parent, extract_root_domain, is_localhost, split_host};

#[test]
fn root_domain_of_subdomain() {
    assert_eq!(extract_root_domain("admin.example.com"), Some("example.com".to_string()));
    assert_eq!(extract_root_domain("a.b.c.example.org"), Some("example.org".to_string()));
}

#[test]
fn root_domain_of_root_is_itself() {
    assert_eq!(extract_root_domain("example.com"), Some("example.com".to_string()));
    let root = extract_root_domain("deep.sub.neurons.me").unwrap();
    assert_eq!(extract_root_domain(&root), Some(root.clone()));
    assert_eq!(determine_parent(&root), None);
}

#[test]
fn root_domain_needs_a_dot() {
    assert_eq!(extract_root_domain("localhost"), None);
    assert_eq!(extract_root_domain(""), None);
}

#[test]
fn root_domain_keeps_empty_labels() {
    assert_eq!(extract_root_domain("a..b"), Some(".b".to_string()));
    assert_eq!(extract_root_domain(".com"), Some(".com".to_string()));
    assert_eq!(extract_root_domain("com."), Some("com.".to_string()));
}

#[test]
fn root_domain_matches_split_labels() {
    for host in ["admin.example.com", "x.y", "a..b", "...", "neurons.me", "ñandú.example.es"] {
        let parts: Vec<&str> = host.split('.').collect();
        let expected = if parts.len() >= 2 {
            Some(format!("{}.{}", parts[parts.len() - 2], parts[parts.len() - 1]))
        } else {
            None
        };
        assert_eq!(extract_root_domain(host), expected, "host {}", host);
    }
}

#[test]
fn parent_of_subdomain() {
    assert_eq!(determine_parent("admin.example.com"), Some("example.com".to_string()));
    assert_eq!(determine_parent("example.com"), None);
    assert_eq!(determine_parent("localhost"), None);
}

#[test]
fn split_host_with_subdomain() {
    assert_eq!(split_host("dev.neurons.me"), ("neurons.me".to_string(), Some("dev".to_string())));
    assert_eq!(split_host("a.b.example.com"), ("example.com".to_string(), Some("a.b".to_string())));
}

#[test]
fn split_host_of_root_and_of_plain_name() {
    assert_eq!(split_host("neurons.me"), ("neurons.me".to_string(), None));
    assert_eq!(split_host("localhost"), ("localhost".to_string(), None));
    assert_eq!(split_host(""), ("".to_string(), None));
}

#[test]
fn split_host_trims_every_trailing_copy_of_the_root() {
    assert_eq!(split_host("x.b.c.b.c"), ("b.c".to_string(), Some("x".to_string())));
    assert_eq!(split_host("b.c.b.c"), ("b.c".to_string(), Some("b.c".to_string())));
}

#[test]
fn split_host_agrees_with_determine_parent() {
    for host in ["dev.neurons.me", "neurons.me", "localhost", "x.b.c.b.c", "a.b.c:8080"] {
        let (root, sub) = split_host(host);
        let parent = determine_parent(host);
        assert_eq!(parent.is_some(), sub.is_some(), "host {}", host);
        if let Some(p) = parent {
            assert_eq!(p, root);
        }
    }
}

#[test]
fn split_host_reassembles_the_host() {
    let host = "api.v2.example.com";
    let (root, sub) = split_host(host);
    let sub = sub.unwrap();
    assert_eq!(format!("{}.{}", sub, root), host);
}

#[test]
fn localhost_hosts() {
    assert!(is_localhost("localhost"));
    assert!(is_localhost("localhost:8080"));
    assert!(is_localhost("127.0.0.1:3000"));
    assert!(!is_localhost("example.com"));
    assert!(!is_localhost("LOCALHOST"));
    assert!(!is_localhost("127.0.0.2"));
    assert!(!is_localhost(""));
}
