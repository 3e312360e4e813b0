use ldap::{build_dn, user_dn, Groups, User};

fn sample(ou: Groups) -> User<'static> {
    User::new(
        "test",
        "test12345678",
        "Test User",
        "User",
        "/home/test",
        "/bin/bash",
        "Test",
        "Test User",
        "10001",
        "5000",
        "Test User",
        ou,
    )
}

#[test]
fn unit_names_are_canonical() {
    assert_eq!(Groups::People.name(), "People");
    assert_eq!(Groups::Group.name(), "Group");
    assert_eq!(Groups::Other.name(), "Other");
}

#[test]
fn build_dn_joins_uid_unit_and_base() {
    assert_eq!(
        build_dn("test", Groups::People, "dc=example,dc=org"),
        "uid=test,ou=People,dc=example,dc=org"
    );
    assert_eq!(
        build_dn("wheel", Groups::Group, "dc=example,dc=org"),
        "uid=wheel,ou=Group,dc=example,dc=org"
    );
    assert_eq!(build_dn("x", Groups::Other, "o=acme"), "uid=x,ou=Other,o=acme");
}

#[test]
fn user_dn_is_the_people_dn() {
    assert_eq!(user_dn("test", "dc=example,dc=org"), "uid=test,ou=People,dc=example,dc=org");
    assert_eq!(
        user_dn("alice", "dc=example,dc=org"),
        build_dn("alice", Groups::People, "dc=example,dc=org")
    );
}

#[test]
fn get_dn_uses_the_unit_of_the_record() {
    assert_eq!(
        sample(Groups::People).get_dn("dc=example,dc=org"),
        "uid=test,ou=People,dc=example,dc=org"
    );
    assert_eq!(
        sample(Groups::Group).get_dn("dc=example,dc=org"),
        "uid=test,ou=Group,dc=example,dc=org"
    );
    assert_eq!(sample(Groups::Other).get_dn("o=acme"), "uid=test,ou=Other,o=acme");
}

#[test]
fn build_dn_gives_the_same_name_for_the_same_inputs() {
    let first = build_dn("test", Groups::People, "dc=example,dc=org");
    let second = build_dn("test", Groups::People, "dc=example,dc=org");
    assert_eq!(first, second);
    assert_eq!(
        sample(Groups::People).get_dn("dc=example,dc=org"),
        sample(Groups::People).get_dn("dc=example,dc=org")
    );
}

#[test]
fn different_uids_give_different_names() {
    assert_ne!(user_dn("alice", "dc=example,dc=org"), user_dn("bob", "dc=example,dc=org"));
    assert_ne!(user_dn("a", "dc=example,dc=org"), user_dn("aa", "dc=example,dc=org"));
}

#[test]
fn special_characters_are_not_escaped() {
    assert_eq!(user_dn("a,b=c", "dc=example"), "uid=a,b=c,ou=People,dc=example");
}

#[test]
fn empty_parts_are_joined_as_they_are() {
    assert_eq!(build_dn("", Groups::People, ""), "uid=,ou=People,");
    assert_eq!(user_dn("test", ""), "uid=test,ou=People,");
}

#[test]
fn non_ascii_uid_is_kept() {
    assert_eq!(user_dn("jürgen", "dc=example"), "uid=jürgen,ou=People,dc=example");
}

#[test]
fn record_hands_out_uid_and_unit() {
    let user = sample(Groups::Group);
    assert_eq!(user.uid(), "test");
    assert_eq!(user.ou(), Groups::Group);
}
