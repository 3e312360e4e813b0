//! The record of an account to be created, and the attributes with which
//! it is entered in the directory.

use crate::dn::{build_dn, dn_spec, Groups};
use crate::protocol::{attribute_views, single, Attribute, AttributeView};
use crate::ssha::{random_salt, ssha, ssha_with_salt};
use vstd::prelude::*;

verus! {

/// An account to be created.
///
/// The password is held in plaintext until the record is turned into
/// attributes; what is stored in the directory is its salted hash. The
/// POSIX fields are texts to this library: it does not read them as
/// numbers or paths.
pub struct User<'a> {
    uid: &'a str,
    user_password: &'a str,
    cn: &'a str,
    sn: &'a str,
    home_directory: &'a str,
    login_shell: &'a str,
    given_name: &'a str,
    display_name: &'a str,
    uid_number: &'a str,
    gid_number: &'a str,
    gecos: &'a str,
    ou: Groups,
}

/// An account record as text.
pub struct UserView {
    pub uid: Seq<char>,
    pub user_password: Seq<char>,
    pub cn: Seq<char>,
    pub sn: Seq<char>,
    pub home_directory: Seq<char>,
    pub login_shell: Seq<char>,
    pub given_name: Seq<char>,
    pub display_name: Seq<char>,
    pub uid_number: Seq<char>,
    pub gid_number: Seq<char>,
    pub gecos: Seq<char>,
    pub ou: Groups,
}

impl<'a> View for User<'a> {
    type V = UserView;

    closed spec fn view(&self) -> UserView {
        UserView {
            uid: self.uid@,
            user_password: self.user_password@,
            cn: self.cn@,
            sn: self.sn@,
            home_directory: self.home_directory@,
            login_shell: self.login_shell@,
            given_name: self.given_name@,
            display_name: self.display_name@,
            uid_number: self.uid_number@,
            gid_number: self.gid_number@,
            gecos: self.gecos@,
            ou: self.ou,
        }
    }
}

/// The attributes with which an account is entered: its three object
/// classes, then one value each for the naming and POSIX attributes, with
/// `credential` as the value of `userPassword`.
pub open spec fn account_attributes(user: UserView, credential: Seq<char>) -> Seq<AttributeView> {
    seq![
        AttributeView {
            name: "objectClass"@,
            values: seq!["inetOrgPerson"@, "posixAccount"@, "shadowAccount"@],
        },
        single("cn"@, user.cn),
        single("sn"@, user.sn),
        single("uid"@, user.uid),
        single("userPassword"@, credential),
        single("homeDirectory"@, user.home_directory),
        single("loginShell"@, user.login_shell),
        single("gecos"@, user.gecos),
        single("givenName"@, user.given_name),
        single("displayName"@, user.display_name),
        single("uidNumber"@, user.uid_number),
        single("gidNumber"@, user.gid_number),
    ]
}

/// What the directory asks of the attributes of a new entry: no attribute
/// comes without a value, no attribute holds a value twice, and no name
/// occurs twice.
pub open spec fn attributes_well_formed(attrs: Seq<AttributeView>) -> bool {
    &&& forall|i: int| 0 <= i < attrs.len() ==> (#[trigger] attrs[i]).values.len() > 0
    &&& forall|i: int| 0 <= i < attrs.len() ==> (#[trigger] attrs[i]).values.no_duplicates()
    &&& forall|i: int, j: int|
        0 <= i < j < attrs.len() ==> (#[trigger] attrs[i]).name != (#[trigger] attrs[j]).name
}

/// The attributes of an account are well formed, whatever the record
/// holds, and the only value of `userPassword` among them is the
/// credential given.
pub proof fn lemma_account_attributes(user: UserView, credential: Seq<char>)
    ensures
        account_attributes(user, credential).len() == 12,
        attributes_well_formed(account_attributes(user, credential)),
        account_attributes(user, credential)[4] == single("userPassword"@, credential),
        forall|i: int|
            0 <= i < 12 && (#[trigger] account_attributes(user, credential)[i]).name
                == "userPassword"@ ==> i == 4,
{
    reveal_strlit("objectClass");
    reveal_strlit("cn");
    reveal_strlit("sn");
    reveal_strlit("uid");
    reveal_strlit("userPassword");
    reveal_strlit("homeDirectory");
    reveal_strlit("loginShell");
    reveal_strlit("gecos");
    reveal_strlit("givenName");
    reveal_strlit("displayName");
    reveal_strlit("uidNumber");
    reveal_strlit("gidNumber");
    reveal_strlit("inetOrgPerson");
    reveal_strlit("posixAccount");
    reveal_strlit("shadowAccount");
    let attrs = account_attributes(user, credential);
    assert forall|i: int| 0 <= i < attrs.len() implies (#[trigger] attrs[i]).values.len() > 0
        && attrs[i].values.no_duplicates() by {
        if i == 0 {
            let classes = attrs[0].values;
            assert(classes[0].len() == 13 && classes[1].len() == 12);
            assert(classes[0][0] != classes[2][0]);
        }
    }
    assert forall|i: int, j: int| 0 <= i < j < attrs.len() implies (#[trigger] attrs[i]).name != (
    #[trigger] attrs[j]).name by {
        let a = attrs[i].name;
        let b = attrs[j].name;
        assert(a.len() != b.len() || a[0] != b[0] || a[2] != b[2]);
    }
}

impl<'a> User<'a> {
    /// Every record names its account.
    #[verifier::type_invariant]
    spec fn names_an_account(self) -> bool {
        self.uid@.len() > 0
    }

    /// Makes the record of an account. The identifier may not be empty;
    /// the other fields are taken as they come.
    pub fn new(
        uid: &'a str,
        user_password: &'a str,
        cn: &'a str,
        sn: &'a str,
        home_directory: &'a str,
        login_shell: &'a str,
        given_name: &'a str,
        display_name: &'a str,
        uid_number: &'a str,
        gid_number: &'a str,
        gecos: &'a str,
        ou: Groups,
    ) -> (user: Self)
        requires
            uid@.len() > 0,
        ensures
            user@ == (UserView {
                uid: uid@,
                user_password: user_password@,
                cn: cn@,
                sn: sn@,
                home_directory: home_directory@,
                login_shell: login_shell@,
                given_name: given_name@,
                display_name: display_name@,
                uid_number: uid_number@,
                gid_number: gid_number@,
                gecos: gecos@,
                ou,
            }),
    {
        Self {
            uid,
            user_password,
            cn,
            sn,
            home_directory,
            login_shell,
            given_name,
            display_name,
            uid_number,
            gid_number,
            gecos,
            ou,
        }
    }

    /// The identifier of the account, which is never empty.
    pub fn uid(&self) -> (uid: &'a str)
        ensures
            uid@ == self@.uid,
            uid@.len() > 0,
    {
        proof {
            use_type_invariant(self);
        }
        self.uid
    }

    /// The unit that the record names for the account.
    pub fn ou(&self) -> (ou: Groups)
        ensures
            ou == self@.ou,
    {
        self.ou
    }

    /// The DN of the record under `base_dn`, in the unit that the record
    /// names.
    pub fn get_dn(&self, base_dn: &str) -> (dn: String)
        ensures
            dn@ == dn_spec(self@.uid, self@.ou, base_dn@),
    {
        build_dn(self.uid, self.ou, base_dn)
    }

    /// The attributes with which the account is entered, its password
    /// hashed under the given salt.
    pub fn to_attribute_set_with_salt(&self, salt: &[u8; 4]) -> (attrs: Vec<Attribute>)
        ensures
            attribute_views(attrs@) == account_attributes(
                self@,
                ssha(self@.user_password, salt@),
            ),
            attributes_well_formed(attribute_views(attrs@)),
    {
        let credential = ssha_with_salt(self.user_password, salt);
        let mut classes: Vec<String> = Vec::new();
        classes.push(String::from_str("inetOrgPerson"));
        classes.push(String::from_str("posixAccount"));
        classes.push(String::from_str("shadowAccount"));
        let object_class = Attribute { name: String::from_str("objectClass"), values: classes };
        assert(object_class@.values =~= seq![
            "inetOrgPerson"@,
            "posixAccount"@,
            "shadowAccount"@,
        ]);
        let mut attrs: Vec<Attribute> = Vec::new();
        attrs.push(object_class);
        attrs.push(Attribute::single("cn", self.cn));
        attrs.push(Attribute::single("sn", self.sn));
        attrs.push(Attribute::single("uid", self.uid));
        attrs.push(Attribute::single("userPassword", credential.as_str()));
        attrs.push(Attribute::single("homeDirectory", self.home_directory));
        attrs.push(Attribute::single("loginShell", self.login_shell));
        attrs.push(Attribute::single("gecos", self.gecos));
        attrs.push(Attribute::single("givenName", self.given_name));
        attrs.push(Attribute::single("displayName", self.display_name));
        attrs.push(Attribute::single("uidNumber", self.uid_number));
        attrs.push(Attribute::single("gidNumber", self.gid_number));
        proof {
            let expected = account_attributes(self@, credential@);
            assert(attribute_views(attrs@) =~= expected);
            lemma_account_attributes(self@, credential@);
        }
        attrs
    }

    /// The attributes with which the account is entered, its password
    /// hashed under a salt drawn for this call. What stands under
    /// `userPassword` is the hash.
    pub fn to_attribute_set(&self) -> (attrs: Vec<Attribute>)
        ensures
            exists|salt: Seq<u8>|
                salt.len() == 4 && attribute_views(attrs@) == account_attributes(
                    self@,
                    #[trigger] ssha(self@.user_password, salt),
                ),
            attributes_well_formed(attribute_views(attrs@)),
    {
        let salt = random_salt();
        self.to_attribute_set_with_salt(&salt)
    }
}

} // verus!
