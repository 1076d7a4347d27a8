use imgpipe::domain::check_domain_whitelist;

#[test]
fn star_admits_every_host() {
    assert!(check_domain_whitelist("example.com", "*"));
    assert!(check_domain_whitelist("", "*"));
}

#[test]
fn exact_host_match() {
    assert!(check_domain_whitelist("example.com", "example.com"));
    assert!(!check_domain_whitelist("example.org", "example.com"));
    assert!(!check_domain_whitelist("www.example.com", "example.com"));
}

#[test]
fn list_is_searched_left_to_right_and_fully() {
    assert!(check_domain_whitelist("b.net", "a.com,b.net,c.org"));
    assert!(check_domain_whitelist("c.org", "a.com,b.net,c.org"));
    assert!(!check_domain_whitelist("d.io", "a.com,b.net,c.org"));
}

#[test]
fn wildcard_admits_subdomains_only() {
    assert!(check_domain_whitelist("img.example.com", "*.example.com"));
    assert!(check_domain_whitelist("a.b.example.com", "*.example.com"));
    // the bare domain does not end with ".example.com"
    assert!(!check_domain_whitelist("example.com", "*.example.com"));
    assert!(!check_domain_whitelist("badexample.com", "*.example.com"));
}

#[test]
fn star_pattern_inside_a_list_is_not_the_global_star() {
    // only a whitelist that is exactly "*" admits everything
    assert!(!check_domain_whitelist("example.com", "*,other.com"));
    assert!(check_domain_whitelist("other.com", "*,other.com"));
}

#[test]
fn empty_whitelist_admits_only_the_empty_host() {
    assert!(!check_domain_whitelist("example.com", ""));
    assert!(check_domain_whitelist("", ""));
}
