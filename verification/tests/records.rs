use ldap::{ssha_with_salt, Attribute, Groups, User};

fn sample() -> User<'static> {
    User::new(
        "test",
        "test12345678",
        "Test User",
        "User",
        "/home/test",
        "/bin/bash",
        "Test",
        "Test Display",
        "10001",
        "5000",
        "Test Gecos",
        Groups::People,
    )
}

fn one(name: &str, value: &str) -> Attribute {
    Attribute { name: name.to_string(), values: vec![value.to_string()] }
}

#[test]
fn attribute_holds_one_value() {
    assert_eq!(Attribute::single("cn", "Test User"), one("cn", "Test User"));
    assert_eq!(Attribute::single("", ""), one("", ""));
}

#[test]
fn attribute_set_of_an_account() {
    let attrs = sample().to_attribute_set_with_salt(&[1, 2, 3, 4]);
    let expected = vec![
        Attribute {
            name: "objectClass".to_string(),
            values: vec![
                "inetOrgPerson".to_string(),
                "posixAccount".to_string(),
                "shadowAccount".to_string(),
            ],
        },
        one("cn", "Test User"),
        one("sn", "User"),
        one("uid", "test"),
        one("userPassword", "{SSHA}DDwwhCeeYZF/09yFOXTPc7QFuuABAgME"),
        one("homeDirectory", "/home/test"),
        one("loginShell", "/bin/bash"),
        one("gecos", "Test Gecos"),
        one("givenName", "Test"),
        one("displayName", "Test Display"),
        one("uidNumber", "10001"),
        one("gidNumber", "5000"),
    ];
    assert_eq!(attrs, expected);
}

#[test]
fn stored_password_is_the_hash_of_the_plaintext() {
    let salt = [7u8, 7, 7, 7];
    let attrs = sample().to_attribute_set_with_salt(&salt);
    let stored: Vec<&Attribute> = attrs.iter().filter(|a| a.name == "userPassword").collect();
    assert_eq!(stored.len(), 1);
    assert_eq!(stored[0].values, vec![ssha_with_salt("test12345678", &salt)]);
}

#[test]
fn plaintext_password_is_not_among_the_attributes() {
    let attrs = sample().to_attribute_set();
    assert_eq!(attrs.len(), 12);
    for attr in &attrs {
        for value in &attr.values {
            assert_ne!(value, "test12345678");
        }
    }
    let stored = attrs.iter().find(|a| a.name == "userPassword").unwrap();
    assert_eq!(stored.values.len(), 1);
    assert!(stored.values[0].starts_with("{SSHA}"));
    assert_eq!(stored.values[0].len(), 38);
}

#[test]
fn attribute_set_is_well_formed() {
    let attrs = sample().to_attribute_set();
    for (i, attr) in attrs.iter().enumerate() {
        assert!(!attr.values.is_empty());
        for (j, value) in attr.values.iter().enumerate() {
            assert!(attr.values[..j].iter().all(|earlier| earlier != value));
        }
        assert!(attrs[..i].iter().all(|earlier| earlier.name != attr.name));
    }
}

#[test]
fn attribute_set_does_not_depend_on_the_unit() {
    let people = sample().to_attribute_set_with_salt(&[1, 1, 1, 1]);
    let group = User::new(
        "test",
        "test12345678",
        "Test User",
        "User",
        "/home/test",
        "/bin/bash",
        "Test",
        "Test Display",
        "10001",
        "5000",
        "Test Gecos",
        Groups::Group,
    )
    .to_attribute_set_with_salt(&[1, 1, 1, 1]);
    assert_eq!(people, group);
}

#[test]
fn empty_fields_are_entered_as_they_are() {
    let user = User::new("u", "", "", "", "", "", "", "", "", "", "", Groups::Other);
    let attrs = user.to_attribute_set_with_salt(&[0, 0, 0, 0]);
    assert_eq!(attrs[1], one("cn", ""));
    assert_eq!(attrs[3], one("uid", "u"));
    assert_eq!(attrs[4], one("userPassword", "{SSHA}kGnKeOdFCihRc0MbPlLFwlKZ5HMAAAAA"));
    assert_eq!(attrs[11], one("gidNumber", ""));
}

#[test]
fn attribute_takes_each_value_once() {
    let attr = Attribute::from_values("mail", &vec!["a@x", "b@x", "a@x", "c@x", "b@x", "a@x"]);
    assert_eq!(
        attr,
        Attribute {
            name: "mail".to_string(),
            values: vec!["a@x".to_string(), "b@x".to_string(), "c@x".to_string()],
        }
    );
}

#[test]
fn attribute_keeps_a_list_without_repetitions() {
    let attr = Attribute::from_values(
        "objectClass",
        &vec!["inetOrgPerson", "posixAccount", "shadowAccount"],
    );
    assert_eq!(attr, sample().to_attribute_set_with_salt(&[0, 0, 0, 0])[0]);
    assert_eq!(Attribute::from_values("cn", &vec!["x"]), Attribute::single("cn", "x"));
}

#[test]
fn attribute_of_no_values_is_empty() {
    let attr = Attribute::from_values("description", &Vec::new());
    assert_eq!(attr, Attribute { name: "description".to_string(), values: Vec::new() });
}

#[test]
fn attribute_values_differ_by_case_and_space() {
    let attr = Attribute::from_values("cn", &vec!["Test", "test", "Test ", "", "", "Test"]);
    assert_eq!(
        attr.values,
        vec!["Test".to_string(), "test".to_string(), "Test ".to_string(), String::new()]
    );
}
