use wrap_guest::uri::Uri;

#[test]
fn adds_scheme_to_bare_identifier() {
    let uri = Uri::new("ens/iface.eth");
    assert_eq!(uri.get_uri(), "wrap://ens/iface.eth");
}

#[test]
fn keeps_identifier_that_already_has_scheme() {
    let uri = Uri::new("wrap://ens/iface.eth");
    assert_eq!(uri.get_uri(), "wrap://ens/iface.eth");
}

#[test]
fn empty_input_becomes_bare_scheme() {
    let uri = Uri::new("");
    assert_eq!(uri.get_uri(), "wrap://");
}

#[test]
fn canonicalize_is_idempotent() {
    let once = Uri::new("ens/iface.eth");
    let twice = Uri::new(once.get_uri().as_str());
    assert_eq!(once, twice);
    assert_eq!(twice.get_uri(), "wrap://ens/iface.eth");
}

#[test]
fn canonicalize_is_idempotent_on_prefixed_input() {
    let once = Uri::new("wrap://ens/impl1.eth");
    let twice = Uri::new(once.get_uri().as_str());
    assert_eq!(once, twice);
}

#[test]
fn same_input_gives_equal_identifiers() {
    assert_eq!(Uri::new("ens/a.eth"), Uri::new("ens/a.eth"));
    assert_ne!(Uri::new("ens/a.eth"), Uri::new("ens/b.eth"));
}

#[test]
fn short_input_is_prefixed_not_inspected() {
    let uri = Uri::new("wrap:/");
    assert_eq!(uri.get_uri(), "wrap://wrap:/");
}

#[test]
fn clone_preserves_the_canonical_string() {
    let uri = Uri::new("ens/iface.eth");
    let copy = uri.clone();
    assert_eq!(uri, copy);
    assert_eq!(copy.get_uri(), "wrap://ens/iface.eth");
}
