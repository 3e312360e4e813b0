//! Distinguished names of account entries.
//!
//! An account is filed under `uid=<uid>,ou=<unit>,<base DN>`. The parts are
//! joined as they are given: a `uid` that holds `,` or `=` is not escaped,
//! and the name that comes out is then not the name of one entry under the
//! unit. Callers that take `uid` from outside check it before they build a
//! name from it.

use vstd::prelude::*;

verus! {

/// The subtree of the directory under which an entry is filed.
#[derive(Clone, Copy, Debug, PartialEq, Eq, Structural)]
pub enum Groups {
    People,
    Group,
    Other,
}

impl Groups {
    /// The name of the organizational unit as it is written in a DN.
    pub open spec fn name_spec(self) -> Seq<char> {
        match self {
            Groups::People => "People"@,
            Groups::Group => "Group"@,
            Groups::Other => "Other"@,
        }
    }

    /// The name of the organizational unit as it is written in a DN.
    pub fn name(&self) -> (name: &'static str)
        ensures
            name@ == self.name_spec(),
    {
        match self {
            Groups::People => "People",
            Groups::Group => "Group",
            Groups::Other => "Other",
        }
    }
}

/// The DN of the entry for `uid` in the unit `ou` under `base_dn`.
pub open spec fn dn_spec(uid: Seq<char>, ou: Groups, base_dn: Seq<char>) -> Seq<char> {
    "uid="@ + uid + ",ou="@ + ou.name_spec() + ","@ + base_dn
}

/// The DN of the account `uid` under `base_dn`: accounts live in the unit
/// `People`.
pub open spec fn people_dn(uid: Seq<char>, base_dn: Seq<char>) -> Seq<char> {
    dn_spec(uid, Groups::People, base_dn)
}

/// Builds the DN of the entry for `uid` in the unit `ou` under `base_dn`.
pub fn build_dn(uid: &str, ou: Groups, base_dn: &str) -> (dn: String)
    ensures
        dn@ == dn_spec(uid@, ou, base_dn@),
{
    let mut dn = String::from_str("uid=");
    dn.append(uid);
    dn.append(",ou=");
    dn.append(ou.name());
    dn.append(",");
    dn.append(base_dn);
    dn
}

/// Builds the DN of the account `uid` under `base_dn`.
pub fn user_dn(uid: &str, base_dn: &str) -> (dn: String)
    ensures
        dn@ == people_dn(uid@, base_dn@),
        dn@ == dn_spec(uid@, Groups::People, base_dn@),
{
    build_dn(uid, Groups::People, base_dn)
}

/// A DN is determined by the identifier, the unit and the base DN: equal
/// inputs name the same entry.
pub proof fn lemma_dn_is_determined(
    uid_a: Seq<char>,
    ou_a: Groups,
    base_a: Seq<char>,
    uid_b: Seq<char>,
    ou_b: Groups,
    base_b: Seq<char>,
)
    requires
        uid_a == uid_b,
        ou_a == ou_b,
        base_a == base_b,
    ensures
        dn_spec(uid_a, ou_a, base_a) == dn_spec(uid_b, ou_b, base_b),
{
}

/// In one unit under one base DN, different identifiers name different
/// entries.
pub proof fn lemma_dn_tells_uids_apart(
    uid_a: Seq<char>,
    uid_b: Seq<char>,
    ou: Groups,
    base_dn: Seq<char>,
)
    requires
        dn_spec(uid_a, ou, base_dn) == dn_spec(uid_b, ou, base_dn),
    ensures
        uid_a == uid_b,
{
    let head = "uid="@;
    let tail = ",ou="@ + ou.name_spec() + ","@ + base_dn;
    let dn_a = dn_spec(uid_a, ou, base_dn);
    let dn_b = dn_spec(uid_b, ou, base_dn);
    assert(dn_a =~= head + uid_a + tail);
    assert(dn_b =~= head + uid_b + tail);
    assert(uid_a.len() == uid_b.len());
    let from = head.len() as int;
    assert(uid_a =~= dn_a.subrange(from, from + uid_a.len()));
    assert(uid_b =~= dn_b.subrange(from, from + uid_b.len()));
}

} // verus!
