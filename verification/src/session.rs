//! The session with the directory: who is bound, which request an
//! operation sends, and what each reply means for it.
//!
//! The session owns no connection. An operation hands out an
//! [`Exchange`]: the request to perform, and what the session needs to
//! remember of the operation while the request is under way. Whoever owns
//! the connection performs the request and brings the reply to
//! [`Ldap::advance`], which says whether the operation is over, and how,
//! or which request comes next. One operation is under way at a time.
//!
//! The session does not refuse an operation for want of a bind: what an
//! identity may do is for the directory to say, and its refusal comes back
//! as a result code.
//!
//! A bind that the directory refuses leaves the identity on record as it
//! was. The directory itself may hold the connection for anonymous from
//! then on, so a caller who goes on after a refused bind binds again
//! first.

use crate::dn::{dn_spec, people_dn, user_dn, Groups};
use crate::protocol::{
    attribute_views, distinct, modification_views, single, slice_texts, texts, Attribute,
    AttributeView, Entry, LdapError, Modification, ModificationView, Reply, Request, RequestView,
    Scope, ENTRY_ALREADY_EXISTS, NO_SUCH_OBJECT,
};
use crate::ssha::{random_salt, ssha, ssha_with_salt};
use crate::user::{account_attributes, User, UserView};
use ldap3::LdapResult;
use vstd::prelude::*;

verus! {

/// What the session remembers of an operation while a request is under
/// way.
#[derive(Clone, Debug, PartialEq, Eq)]
pub enum Pending {
    /// A bind as `dn`.
    Bind { dn: String },
    /// The creation of an entry.
    Add,
    /// The removal of an entry.
    Delete,
    /// A change to an entry.
    Modify,
    /// A search.
    Search,
    /// The first half of a password change: the new credential is being
    /// written to the entry `dn`. The plaintext is kept for the bind that
    /// follows.
    Change { dn: String, password: String },
    /// The second half of a password change: a bind as `dn` with the new
    /// password, to confirm that it is in force.
    Verify { dn: String },
}

/// A pending operation, as text.
pub enum PendingView {
    Bind { dn: Seq<char> },
    Add,
    Delete,
    Modify,
    Search,
    Change { dn: Seq<char>, password: Seq<char> },
    Verify { dn: Seq<char> },
}

impl View for Pending {
    type V = PendingView;

    open spec fn view(&self) -> PendingView {
        match self {
            Pending::Bind { dn } => PendingView::Bind { dn: dn@ },
            Pending::Add => PendingView::Add,
            Pending::Delete => PendingView::Delete,
            Pending::Modify => PendingView::Modify,
            Pending::Search => PendingView::Search,
            Pending::Change { dn, password } => PendingView::Change {
                dn: dn@,
                password: password@,
            },
            Pending::Verify { dn } => PendingView::Verify { dn: dn@ },
        }
    }
}

/// A request to perform, with what the session remembers of the operation
/// it belongs to.
#[derive(Clone, Debug, PartialEq, Eq)]
pub struct Exchange {
    pub pending: Pending,
    pub request: Request,
}

/// An exchange, as text.
pub struct ExchangeView {
    pub pending: PendingView,
    pub request: RequestView,
}

impl View for Exchange {
    type V = ExchangeView;

    open spec fn view(&self) -> ExchangeView {
        ExchangeView { pending: self.pending@, request: self.request@ }
    }
}

/// What follows from a reply.
#[derive(Clone, Debug, PartialEq, Eq)]
pub enum Step {
    /// The operation goes on with another request.
    Send(Exchange),
    /// The operation succeeded.
    Finished,
    /// The search succeeded and found these entries, possibly none.
    Found(Vec<Entry>),
    /// The operation failed.
    Failed(LdapError),
}

/// A session with the directory: the base DN under which its accounts
/// live, and the identity that the directory last accepted.
pub struct Ldap {
    base_dn: String,
    identity: Option<String>,
}

/// A session, as text.
pub struct LdapView {
    pub base_dn: Seq<char>,
    /// The DN of the identity last accepted, or `None` before the first
    /// accepted bind.
    pub identity: Option<Seq<char>>,
}

impl View for Ldap {
    type V = LdapView;

    closed spec fn view(&self) -> LdapView {
        LdapView {
            base_dn: self.base_dn@,
            identity: match self.identity {
                Some(dn) => Some(dn@),
                None => None,
            },
        }
    }
}

/// Whether a result code reports success. Zero does, and nothing else: a
/// referral counts as a refusal.
pub open spec fn is_success(rc: u32) -> bool {
    rc == 0
}

/// Whether the directory answered, and with success.
pub open spec fn accepted(reply: Reply) -> bool {
    reply matches Reply::Result { rc, .. } && is_success(rc)
}

/// The exchange that binds as `dn`.
pub open spec fn bind_exchange(dn: Seq<char>, password: Seq<char>) -> ExchangeView {
    ExchangeView {
        pending: PendingView::Bind { dn },
        request: RequestView::Bind { dn, password },
    }
}

/// The exchange that binds as the account `uid`.
pub open spec fn login_exchange(
    base_dn: Seq<char>,
    uid: Seq<char>,
    password: Seq<char>,
) -> ExchangeView {
    bind_exchange(people_dn(uid, base_dn), password)
}

/// The exchange that searches under the session's base DN.
pub open spec fn search_exchange(
    base_dn: Seq<char>,
    scope: Scope,
    filter: Seq<char>,
    attrs: Seq<Seq<char>>,
) -> ExchangeView {
    ExchangeView {
        pending: PendingView::Search,
        request: RequestView::Search { base: base_dn, scope, filter, attrs },
    }
}

/// The attributes of a new entry as they are sent: each with its name, and
/// with its values as a set.
pub open spec fn entry_attributes(attrs: Seq<(&str, Vec<&str>)>) -> Seq<AttributeView> {
    Seq::new(
        attrs.len(),
        |i: int| AttributeView { name: attrs[i].0@, values: distinct(slice_texts(attrs[i].1@)) },
    )
}

/// The exchange that creates the entry `dn`.
pub open spec fn add_entry_exchange(dn: Seq<char>, attrs: Seq<AttributeView>) -> ExchangeView {
    ExchangeView { pending: PendingView::Add, request: RequestView::Add { dn, attrs } }
}

/// The exchange that applies changes to the entry `dn`.
pub open spec fn modify_entry_exchange(
    dn: Seq<char>,
    mods: Seq<ModificationView>,
) -> ExchangeView {
    ExchangeView { pending: PendingView::Modify, request: RequestView::Modify { dn, mods } }
}

/// The exchange that removes the entry `dn`.
pub open spec fn delete_entry_exchange(dn: Seq<char>) -> ExchangeView {
    ExchangeView { pending: PendingView::Delete, request: RequestView::Delete { dn } }
}

/// The exchange that enters an account, its password hashed under `salt`.
/// Accounts are entered in the unit `People`, where the other account
/// operations look for them.
pub open spec fn add_exchange(base_dn: Seq<char>, user: UserView, salt: Seq<u8>) -> ExchangeView {
    add_entry_exchange(
        people_dn(user.uid, base_dn),
        account_attributes(user, ssha(user.user_password, salt)),
    )
}

/// The exchange that removes the account `uid`.
pub open spec fn delete_exchange(base_dn: Seq<char>, uid: Seq<char>) -> ExchangeView {
    delete_entry_exchange(people_dn(uid, base_dn))
}

/// The exchange that opens a password change: one modification, which
/// puts the new credential in place of whatever `userPassword` held.
pub open spec fn change_exchange(
    base_dn: Seq<char>,
    uid: Seq<char>,
    password: Seq<char>,
    salt: Seq<u8>,
) -> ExchangeView {
    ExchangeView {
        pending: PendingView::Change { dn: people_dn(uid, base_dn), password },
        request: RequestView::Modify {
            dn: people_dn(uid, base_dn),
            mods: seq![ModificationView::Replace(single("userPassword"@, ssha(password, salt)))],
        },
    }
}

/// The error that a refusal by the directory amounts to, by the operation
/// that was refused.
pub open spec fn refusal(pending: Pending, rc: u32, text: String) -> LdapError {
    match pending {
        Pending::Bind { .. } => LdapError::Bind { rc, text },
        Pending::Verify { .. } => LdapError::Verification { rc: Some(rc), text },
        Pending::Add => if rc == ENTRY_ALREADY_EXISTS {
            LdapError::EntryExists
        } else {
            LdapError::Protocol { rc, text }
        },
        Pending::Delete | Pending::Modify | Pending::Change { .. } => if rc == NO_SUCH_OBJECT {
            LdapError::NoSuchEntry
        } else {
            LdapError::Protocol { rc, text }
        },
        Pending::Search => LdapError::Protocol { rc, text },
    }
}

/// The error that a failed round trip amounts to. Once the new credential
/// is written, every failure is one of verification, so that the caller
/// can tell that the entry was changed.
pub open spec fn breakdown(pending: Pending, reason: String) -> LdapError {
    match pending {
        Pending::Verify { .. } => LdapError::Verification { rc: None, text: reason },
        _ => LdapError::Connection { reason },
    }
}

/// What follows from a reply to the request of a pending operation.
pub open spec fn next_step(pending: Pending, reply: Reply) -> Step {
    match reply {
        Reply::Failed { reason } => Step::Failed(breakdown(pending, reason)),
        Reply::Result { rc, text, entries } => if !is_success(rc) {
            Step::Failed(refusal(pending, rc, text))
        } else {
            match pending {
                Pending::Change { dn, password } => Step::Send(
                    Exchange {
                        pending: Pending::Verify { dn },
                        request: Request::Bind { dn, password },
                    },
                ),
                Pending::Search => Step::Found(entries),
                _ => Step::Finished,
            }
        },
    }
}

/// The identity on record after a reply: the one bound, if the reply
/// accepts a bind, and else the one that was on record before.
pub open spec fn next_identity(
    identity: Option<Seq<char>>,
    pending: PendingView,
    reply: Reply,
) -> Option<Seq<char>> {
    if accepted(reply) {
        match pending {
            PendingView::Bind { dn } => Some(dn),
            PendingView::Verify { dn } => Some(dn),
            _ => identity,
        }
    } else {
        identity
    }
}

/// The identity on record moves only when the directory accepts a bind,
/// be it a bind of its own or the one that confirms a password change, and
/// then it is the DN that was bound. A refused bind, a failed round trip
/// and every other operation leave it as it was.
pub proof fn lemma_identity_follows_accepted_binds(
    identity: Option<Seq<char>>,
    pending: PendingView,
    reply: Reply,
)
    ensures
        accepted(reply) ==> (pending matches PendingView::Bind { dn } ==> next_identity(
            identity,
            pending,
            reply,
        ) == Some(dn)),
        accepted(reply) ==> (pending matches PendingView::Verify { dn } ==> next_identity(
            identity,
            pending,
            reply,
        ) == Some(dn)),
        !accepted(reply) || !(pending is Bind || pending is Verify) ==> next_identity(
            identity,
            pending,
            reply,
        ) == identity,
{
}

/// When the directory accepts the modification of a password change, the
/// request that follows is the bind that a login check of the new password
/// sends: the change is confirmed by the very check that a caller would
/// make next.
pub proof fn lemma_change_is_confirmed_by_login(
    base_dn: Seq<char>,
    uid: Seq<char>,
    password: Seq<char>,
    salt: Seq<u8>,
    pending: Pending,
    reply: Reply,
)
    requires
        pending@ == change_exchange(base_dn, uid, password, salt).pending,
        accepted(reply),
    ensures
        next_step(pending, reply) matches Step::Send(exchange) && exchange.pending is Verify
            && exchange.request@ == login_exchange(base_dn, uid, password).request,
{
}

/// No reply but an accepted modification of a password change leads to a
/// second request: every other reply ends the operation.
pub proof fn lemma_only_a_password_change_goes_on(pending: Pending, reply: Reply)
    ensures
        next_step(pending, reply) is Send <==> pending is Change && accepted(reply),
{
}

/// No operation takes more than two round trips: the request that follows
/// a first reply is the last.
pub proof fn lemma_second_reply_ends_the_operation(pending: Pending, first: Reply, second: Reply)
    ensures
        next_step(pending, first) matches Step::Send(exchange) ==> !(next_step(
            exchange.pending,
            second,
        ) is Send),
{
}

/// A password change tells its two halves apart. While the new credential
/// is being written, no failure is one of verification; once it is
/// written, every failure is, whether the directory refused the bind or
/// gave no result.
pub proof fn lemma_verification_marks_the_second_half(pending: Pending, reply: Reply)
    requires
        !accepted(reply),
    ensures
        next_step(pending, reply) matches Step::Failed(error) && (error is Verification
            <==> pending is Verify),
{
}

/// Two records with one identifier name one entry, whatever else they
/// hold and whatever salts are drawn: the second creation is addressed to
/// the DN of the first.
pub proof fn lemma_same_uid_same_entry(
    base_dn: Seq<char>,
    first: UserView,
    first_salt: Seq<u8>,
    second: UserView,
    second_salt: Seq<u8>,
)
    requires
        first.uid == second.uid,
    ensures
        add_exchange(base_dn, first, first_salt).request->Add_dn == add_exchange(
            base_dn,
            second,
            second_salt,
        ).request->Add_dn,
        add_exchange(base_dn, first, first_salt).request->Add_dn == dn_spec(
            first.uid,
            Groups::People,
            base_dn,
        ),
{
}

/// A creation fails with [`LdapError::EntryExists`] exactly when the
/// directory reports that the entry exists already. It is never taken
/// for a success, and no other refusal is taken for it.
pub proof fn lemma_add_reports_existing_entry(reply: Reply)
    ensures
        next_step(Pending::Add, reply) == Step::Failed(LdapError::EntryExists) <==> (
        reply matches Reply::Result { rc, .. } && rc == ENTRY_ALREADY_EXISTS),
        next_step(Pending::Add, reply) == Step::Finished <==> accepted(reply),
{
}

/// A removal fails with [`LdapError::NoSuchEntry`] exactly when the
/// directory reports that the entry is not there.
pub proof fn lemma_delete_reports_missing_entry(reply: Reply)
    ensures
        next_step(Pending::Delete, reply) == Step::Failed(LdapError::NoSuchEntry) <==> (
        reply matches Reply::Result { rc, .. } && rc == NO_SUCH_OBJECT),
        next_step(Pending::Delete, reply) == Step::Finished <==> accepted(reply),
{
}

/// An accepted search hands on the entries that the directory found, as
/// they came. Finding none is a success like any other.
pub proof fn lemma_search_hands_on_entries(rc: u32, text: String, entries: Vec<Entry>)
    requires
        is_success(rc),
    ensures
        next_step(Pending::Search, Reply::Result { rc, text, entries }) == Step::Found(entries),
{
}

/// Calls `ldap3::LdapResult::success` on a result with the code `rc`.
/// Trusted: it accepts the result if and only if the code is zero.
#[verifier::external_body]
fn result_is_success(rc: u32) -> (ok: bool)
    ensures
        ok == is_success(rc),
{
    let result = LdapResult {
        rc,
        matched: String::new(),
        text: String::new(),
        refs: Vec::new(),
        ctrls: Vec::new(),
    };
    result.success().is_ok()
}

/// The error for a refusal with the code `rc`.
fn refuse(pending: Pending, rc: u32, text: String) -> (error: LdapError)
    ensures
        error == refusal(pending, rc, text),
{
    match pending {
        Pending::Bind { .. } => LdapError::Bind { rc, text },
        Pending::Verify { .. } => LdapError::Verification { rc: Some(rc), text },
        Pending::Add => {
            if rc == ENTRY_ALREADY_EXISTS {
                LdapError::EntryExists
            } else {
                LdapError::Protocol { rc, text }
            }
        },
        Pending::Delete | Pending::Modify | Pending::Change { .. } => {
            if rc == NO_SUCH_OBJECT {
                LdapError::NoSuchEntry
            } else {
                LdapError::Protocol { rc, text }
            }
        },
        Pending::Search => LdapError::Protocol { rc, text },
    }
}

/// The texts of borrowed strings as owned ones, in order.
fn owned_texts(items: &Vec<&str>) -> (owned: Vec<String>)
    ensures
        texts(owned@) == slice_texts(items@),
{
    let mut owned: Vec<String> = Vec::new();
    let mut i: usize = 0;
    while i < items.len()
        invariant
            i <= items.len(),
            owned.len() == i,
            forall|k: int| 0 <= k < i ==> (#[trigger] owned[k])@ == items[k]@,
        decreases items.len() - i,
    {
        owned.push(String::from_str(items[i]));
        i += 1;
    }
    assert(texts(owned@) =~= slice_texts(items@));
    owned
}

impl Ldap {
    /// A session under `base_dn`, with nobody bound.
    pub fn new(base_dn: &str) -> (session: Ldap)
        ensures
            session@ == (LdapView { base_dn: base_dn@, identity: None }),
    {
        Ldap { base_dn: String::from_str(base_dn), identity: None }
    }

    /// The base DN of the session.
    pub fn base_dn(&self) -> (base_dn: &str)
        ensures
            base_dn@ == self@.base_dn,
    {
        self.base_dn.as_str()
    }

    /// The DN of the identity that the directory last accepted, or `None`
    /// before the first accepted bind.
    pub fn identity(&self) -> (identity: Option<&str>)
        ensures
            match identity {
                Some(dn) => self@.identity == Some(dn@),
                None => self@.identity is None,
            },
    {
        match &self.identity {
            Some(dn) => Some(dn.as_str()),
            None => None,
        }
    }

    /// Whether the directory has accepted a bind on this session.
    pub fn is_bound(&self) -> (bound: bool)
        ensures
            bound == self@.identity is Some,
    {
        self.identity.is_some()
    }

    /// Opens a bind as `dn`. If the directory accepts it, `dn` becomes the
    /// identity of the session.
    pub fn bind(&self, dn: &str, password: &str) -> (exchange: Exchange)
        ensures
            exchange@ == bind_exchange(dn@, password@),
    {
        Exchange {
            pending: Pending::Bind { dn: String::from_str(dn) },
            request: Request::Bind {
                dn: String::from_str(dn),
                password: String::from_str(password),
            },
        }
    }

    /// Opens a check of a password: a bind as `dn`. Like every bind it
    /// changes the identity of the session if the directory accepts it.
    pub fn verify_password(&self, dn: &str, password: &str) -> (exchange: Exchange)
        ensures
            exchange@ == bind_exchange(dn@, password@),
    {
        self.bind(dn, password)
    }

    /// Opens a login check for the account `uid`: a bind under its DN.
    pub fn check_login(&self, uid: &str, password: &str) -> (exchange: Exchange)
        ensures
            exchange@ == login_exchange(self@.base_dn, uid@, password@),
    {
        let dn = user_dn(uid, self.base_dn.as_str());
        self.bind(dn.as_str(), password)
    }

    /// Opens a search under the session's base DN.
    pub fn search_entry(&self, scope: Scope, filter: &str, attrs: Vec<&str>) -> (exchange: Exchange)
        ensures
            exchange@ == search_exchange(self@.base_dn, scope, filter@, slice_texts(attrs@)),
    {
        Exchange {
            pending: Pending::Search,
            request: Request::Search {
                base: self.base_dn.clone(),
                scope,
                filter: String::from_str(filter),
                attrs: owned_texts(&attrs),
            },
        }
    }

    /// Opens the creation of the entry `dn` with the attributes given.
    /// The values of an attribute are sent as a set: one that is given
    /// twice is sent once.
    pub fn add_entry(&self, dn: &str, attrs: Vec<(&str, Vec<&str>)>) -> (exchange: Exchange)
        ensures
            exchange@ == add_entry_exchange(dn@, entry_attributes(attrs@)),
    {
        let mut sets: Vec<Attribute> = Vec::new();
        let mut i: usize = 0;
        while i < attrs.len()
            invariant
                i <= attrs.len(),
                sets.len() == i,
                forall|k: int| 0 <= k < i ==> (#[trigger] sets[k])@ == entry_attributes(attrs@)[k],
            decreases attrs.len() - i,
        {
            sets.push(Attribute::from_values(attrs[i].0, &attrs[i].1));
            i += 1;
        }
        assert(attribute_views(sets@) =~= entry_attributes(attrs@));
        Exchange {
            pending: Pending::Add,
            request: Request::Add { dn: String::from_str(dn), attrs: sets },
        }
    }

    /// Opens a change to the entry `dn`: the modifications are applied in
    /// order.
    pub fn modify_entry(&self, dn: &str, mods: Vec<Modification>) -> (exchange: Exchange)
        ensures
            exchange@ == modify_entry_exchange(dn@, modification_views(mods@)),
    {
        Exchange {
            pending: Pending::Modify,
            request: Request::Modify { dn: String::from_str(dn), mods },
        }
    }

    /// Opens the removal of the entry `dn`.
    pub fn delete_entry(&self, dn: &str) -> (exchange: Exchange)
        ensures
            exchange@ == delete_entry_exchange(dn@),
    {
        Exchange { pending: Pending::Delete, request: Request::Delete { dn: String::from_str(dn) } }
    }

    /// Opens the creation of an account, its password hashed under the
    /// given salt.
    pub fn add_user_with_salt(&self, user: &User, salt: &[u8; 4]) -> (exchange: Exchange)
        ensures
            exchange@ == add_exchange(self@.base_dn, user@, salt@),
    {
        let dn = user_dn(user.uid(), self.base_dn.as_str());
        let attrs = user.to_attribute_set_with_salt(salt);
        Exchange { pending: Pending::Add, request: Request::Add { dn, attrs } }
    }

    /// Opens the creation of an account, its password hashed under a salt
    /// drawn for this call. What is sent holds the hash, not the
    /// plaintext.
    pub fn add_user(&self, user: &User) -> (exchange: Exchange)
        ensures
            exists|salt: Seq<u8>|
                salt.len() == 4 && exchange@ == #[trigger] add_exchange(self@.base_dn, user@, salt),
    {
        let salt = random_salt();
        self.add_user_with_salt(user, &salt)
    }

    /// Opens the removal of the account `uid`.
    pub fn del_user(&self, uid: &str) -> (exchange: Exchange)
        ensures
            exchange@ == delete_exchange(self@.base_dn, uid@),
    {
        let dn = user_dn(uid, self.base_dn.as_str());
        self.delete_entry(dn.as_str())
    }

    /// Opens a password change for the account `uid`, the new password
    /// hashed under the given salt.
    pub fn change_password_with_salt(
        &self,
        uid: &str,
        new_password: &str,
        salt: &[u8; 4],
    ) -> (exchange: Exchange)
        ensures
            exchange@ == change_exchange(self@.base_dn, uid@, new_password@, salt@),
    {
        let dn = user_dn(uid, self.base_dn.as_str());
        let credential = ssha_with_salt(new_password, salt);
        let mut mods: Vec<Modification> = Vec::new();
        mods.push(Modification::Replace(Attribute::single("userPassword", credential.as_str())));
        let exchange = Exchange {
            pending: Pending::Change { dn: dn.clone(), password: String::from_str(new_password) },
            request: Request::Modify { dn, mods },
        };
        assert(modification_views(mods@) =~= seq![
            ModificationView::Replace(single("userPassword"@, credential@)),
        ]);
        exchange
    }

    /// Opens a password change for the account `uid`, the new password
    /// hashed under a salt drawn for this call.
    ///
    /// The change has two halves. First the new credential is written in
    /// place of the old one. If the directory accepts that, a bind as the
    /// account with the new password follows, and the change succeeds only
    /// if that bind does. A failure in the second half is reported as
    /// [`LdapError::Verification`]: the entry has been changed then, and
    /// nothing changes it back.
    pub fn change_password(&self, uid: &str, new_password: &str) -> (exchange: Exchange)
        ensures
            exists|salt: Seq<u8>|
                salt.len() == 4 && exchange@ == #[trigger] change_exchange(
                    self@.base_dn,
                    uid@,
                    new_password@,
                    salt,
                ),
    {
        let salt = random_salt();
        self.change_password_with_salt(uid, new_password, &salt)
    }

    /// Takes the reply to the request of a pending operation, and says
    /// what follows from it.
    ///
    /// The identity of the session changes when the reply accepts a bind,
    /// and at no other time.
    pub fn advance(&mut self, pending: Pending, reply: Reply) -> (step: Step)
        ensures
            final(self)@ == (LdapView {
                base_dn: old(self)@.base_dn,
                identity: next_identity(old(self)@.identity, pending@, reply),
            }),
            step == next_step(pending, reply),
    {
        match reply {
            Reply::Failed { reason } => match pending {
                Pending::Verify { .. } => Step::Failed(
                    LdapError::Verification { rc: None, text: reason },
                ),
                _ => Step::Failed(LdapError::Connection { reason }),
            },
            Reply::Result { rc, text, entries } => {
                if !result_is_success(rc) {
                    return Step::Failed(refuse(pending, rc, text));
                }
                match pending {
                    Pending::Bind { dn } => {
                        self.identity = Some(dn);
                        Step::Finished
                    },
                    Pending::Verify { dn } => {
                        self.identity = Some(dn);
                        Step::Finished
                    },
                    Pending::Change { dn, password } => {
                        let target = dn.clone();
                        Step::Send(
                            Exchange {
                                pending: Pending::Verify { dn: target },
                                request: Request::Bind { dn, password },
                            },
                        )
                    },
                    Pending::Search => Step::Found(entries),
                    Pending::Add | Pending::Delete | Pending::Modify => Step::Finished,
                }
            },
        }
    }
}

} // verus!
