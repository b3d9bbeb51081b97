use crate::text::same_text;
use vstd::prelude::*;

verus! {

/// How `chrono` writes a time in UTC, told in seconds since the Unix epoch and
/// nanoseconds into the second; nothing where `chrono` has no such time.
pub uninterp spec fn utc_text(seconds: i64, nanos: u32) -> Option<Seq<char>>;

/// Writes a time with `chrono`: the time is made with
/// `DateTime::from_timestamp` and written as `DateTime<Utc>` displays itself.
/// The calendar arithmetic is `chrono`'s and is only given a name here.
#[verifier::external_body]
fn render_utc(seconds: i64, nanos: u32) -> (text: Option<String>)
    ensures
        match text {
            Some(t) => utc_text(seconds, nanos) == Some(t@),
            None => utc_text(seconds, nanos) is None,
        },
{
    chrono::DateTime::from_timestamp(seconds, nanos).map(|time| time.to_string())
}

/// A point in time: whole seconds since the Unix epoch, and the nanoseconds
/// into that second.
#[derive(Clone, Copy, Debug, PartialEq, Eq, Structural)]
pub struct Timestamp {
    pub seconds: i64,
    pub nanos: u32,
}

impl Timestamp {
    /// The instant as one integer, in nanoseconds since the epoch.
    pub open spec fn as_nanos(self) -> int {
        self.seconds * 1_000_000_000 + self.nanos
    }

    /// Whether `self` is not later than `other`.
    pub fn not_after(&self, other: &Timestamp) -> (b: bool)
        ensures
            b == (self.as_nanos() <= other.as_nanos()),
    {
        let (a, b) = (self.total_nanos(), other.total_nanos());
        a <= b
    }

    /// The time as `chrono` writes it, where it is a time that `chrono` knows.
    pub fn to_text(&self) -> (text: Option<String>)
        ensures
            match text {
                Some(t) => utc_text(self.seconds, self.nanos) == Some(t@),
                None => utc_text(self.seconds, self.nanos) is None,
            },
    {
        render_utc(self.seconds, self.nanos)
    }

    /// The instant in nanoseconds since the epoch.
    pub fn total_nanos(&self) -> (n: i128)
        ensures
            n == self.as_nanos(),
    {
        let seconds: i128 = self.seconds as i128;
        let nanos: i128 = self.nanos as i128;
        seconds * 1_000_000_000i128 + nanos
    }
}

/// The texts of a list of strings.
pub open spec fn texts(strings: Seq<String>) -> Seq<Seq<char>> {
    strings.map_values(|s: String| s@)
}

/// Copies a list of strings.
pub fn clone_strings(strings: &Vec<String>) -> (copy: Vec<String>)
    ensures
        texts(copy@) == texts(strings@),
{
    let mut copy: Vec<String> = Vec::new();
    let mut i: usize = 0;
    while i < strings.len()
        invariant
            i <= strings@.len(),
            copy@.len() == i,
            forall|j: int| 0 <= j < i ==> (#[trigger] copy@[j])@ == strings@[j]@,
        decreases strings@.len() - i,
    {
        copy.push(strings[i].clone());
        i += 1;
    }
    assert(texts(copy@) =~= texts(strings@));
    copy
}

/// The actions a caller may take on one kind of collection under a resource.
#[derive(Debug, PartialEq, Eq)]
pub struct CollectionActions {
    pub collection: String,
    pub actions: Vec<String>,
}

/// What a `CollectionActions` says.
pub struct CollectionActionsView {
    pub collection: Seq<char>,
    pub actions: Seq<Seq<char>>,
}

impl View for CollectionActions {
    type V = CollectionActionsView;

    open spec fn view(&self) -> CollectionActionsView {
        CollectionActionsView { collection: self.collection@, actions: texts(self.actions@) }
    }
}

impl Clone for CollectionActions {
    fn clone(&self) -> (copy: Self)
        ensures
            copy@ == self@,
    {
        CollectionActions {
            collection: self.collection.clone(),
            actions: clone_strings(&self.actions),
        }
    }
}

/// What a list of grants says.
pub open spec fn grant_views(grants: Seq<CollectionActions>) -> Seq<CollectionActionsView> {
    grants.map_values(|g: CollectionActions| g@)
}

/// Copies a list of grants.
pub fn clone_grants(grants: &Vec<CollectionActions>) -> (copy: Vec<CollectionActions>)
    ensures
        grant_views(copy@) == grant_views(grants@),
{
    let mut copy: Vec<CollectionActions> = Vec::new();
    let mut i: usize = 0;
    while i < grants.len()
        invariant
            i <= grants@.len(),
            copy@.len() == i,
            forall|j: int| 0 <= j < i ==> (#[trigger] copy@[j])@ == grants@[j]@,
        decreases grants@.len() - i,
    {
        copy.push(grants[i].clone());
        i += 1;
    }
    assert(grant_views(copy@) =~= grant_views(grants@));
    copy
}

/// Whether `actions` holds the text `wanted`.
pub open spec fn names_action(actions: Seq<Seq<char>>, wanted: Seq<char>) -> bool {
    actions.contains(wanted)
}

/// Whether some grant for `collection` names the action `wanted`.
pub open spec fn grants(
    grants: Seq<CollectionActionsView>,
    collection: Seq<char>,
    wanted: Seq<char>,
) -> bool {
    exists|i: int|
        0 <= i < grants.len() && (#[trigger] grants[i]).collection == collection && names_action(
            grants[i].actions,
            wanted,
        )
}

/// Whether a list of action names holds `wanted`.
pub fn has_action(actions: &Vec<String>, wanted: &str) -> (b: bool)
    ensures
        b == names_action(texts(actions@), wanted@),
{
    let mut i: usize = 0;
    while i < actions.len()
        invariant
            i <= actions@.len(),
            forall|j: int| 0 <= j < i ==> (#[trigger] texts(actions@)[j]) != wanted@,
        decreases actions@.len() - i,
    {
        if same_text(actions[i].as_str(), wanted) {
            assert(texts(actions@)[i as int] == wanted@);
            return true;
        }
        i += 1;
    }
    false
}

/// Whether the grants allow `wanted` on `collection`.
pub fn is_granted(granted: &Vec<CollectionActions>, collection: &str, wanted: &str) -> (b: bool)
    ensures
        b == grants(grant_views(granted@), collection@, wanted@),
{
    let mut i: usize = 0;
    while i < granted.len()
        invariant
            i <= granted@.len(),
            forall|j: int|
                0 <= j < i ==> !((#[trigger] grant_views(granted@)[j]).collection == collection@
                    && names_action(grant_views(granted@)[j].actions, wanted@)),
        decreases granted@.len() - i,
    {
        if same_text(granted[i].collection.as_str(), collection) && has_action(
            &granted[i].actions,
            wanted,
        ) {
            assert(grant_views(granted@)[i as int].collection == collection@);
            return true;
        }
        i += 1;
    }
    false
}

/// A scope of the access-control hierarchy.
#[derive(Debug, PartialEq, Eq)]
pub struct Scope {
    pub id: String,
    pub name: String,
    pub description: String,
    pub resource_type: String,
    pub authorized_collection_actions: Vec<CollectionActions>,
}

/// What a `Scope` says.
pub struct ScopeView {
    pub id: Seq<char>,
    pub name: Seq<char>,
    pub description: Seq<char>,
    pub resource_type: Seq<char>,
    pub authorized_collection_actions: Seq<CollectionActionsView>,
}

impl View for Scope {
    type V = ScopeView;

    open spec fn view(&self) -> ScopeView {
        ScopeView {
            id: self.id@,
            name: self.name@,
            description: self.description@,
            resource_type: self.resource_type@,
            authorized_collection_actions: grant_views(self.authorized_collection_actions@),
        }
    }
}

impl Clone for Scope {
    fn clone(&self) -> (copy: Self)
        ensures
            copy@ == self@,
    {
        Scope {
            id: self.id.clone(),
            name: self.name.clone(),
            description: self.description.clone(),
            resource_type: self.resource_type.clone(),
            authorized_collection_actions: clone_grants(&self.authorized_collection_actions),
        }
    }
}

impl ScopeView {
    /// The scope's child scopes may be listed.
    pub open spec fn may_list_child_scopes(self) -> bool {
        grants(self.authorized_collection_actions, "scopes"@, "list"@)
    }

    /// The scope's targets may be listed.
    pub open spec fn may_list_targets(self) -> bool {
        grants(self.authorized_collection_actions, "targets"@, "list"@)
    }

    /// The sessions under the scope may be listed.
    pub open spec fn may_list_sessions(self) -> bool {
        grants(self.authorized_collection_actions, "sessions"@, "list"@)
    }
}

impl Scope {
    pub fn can_list_child_scopes(&self) -> (b: bool)
        ensures
            b == self@.may_list_child_scopes(),
    {
        is_granted(&self.authorized_collection_actions, "scopes", "list")
    }

    pub fn can_list_targets(&self) -> (b: bool)
        ensures
            b == self@.may_list_targets(),
    {
        is_granted(&self.authorized_collection_actions, "targets", "list")
    }

    pub fn can_list_sessions(&self) -> (b: bool)
        ensures
            b == self@.may_list_sessions(),
    {
        is_granted(&self.authorized_collection_actions, "sessions", "list")
    }
}

/// A resource to which a session can be opened.
#[derive(Debug, PartialEq, Eq)]
pub struct Target {
    pub id: String,
    pub name: String,
    pub description: String,
    pub resource_type: String,
    pub authorized_collection_actions: Vec<CollectionActions>,
    pub authorized_actions: Vec<String>,
    pub scope_id: String,
}

/// What a `Target` says.
pub struct TargetView {
    pub id: Seq<char>,
    pub name: Seq<char>,
    pub description: Seq<char>,
    pub resource_type: Seq<char>,
    pub authorized_collection_actions: Seq<CollectionActionsView>,
    pub authorized_actions: Seq<Seq<char>>,
    pub scope_id: Seq<char>,
}

impl View for Target {
    type V = TargetView;

    open spec fn view(&self) -> TargetView {
        TargetView {
            id: self.id@,
            name: self.name@,
            description: self.description@,
            resource_type: self.resource_type@,
            authorized_collection_actions: grant_views(self.authorized_collection_actions@),
            authorized_actions: texts(self.authorized_actions@),
            scope_id: self.scope_id@,
        }
    }
}

impl Clone for Target {
    fn clone(&self) -> (copy: Self)
        ensures
            copy@ == self@,
    {
        Target {
            id: self.id.clone(),
            name: self.name.clone(),
            description: self.description.clone(),
            resource_type: self.resource_type.clone(),
            authorized_collection_actions: clone_grants(&self.authorized_collection_actions),
            authorized_actions: clone_strings(&self.authorized_actions),
            scope_id: self.scope_id.clone(),
        }
    }
}

impl TargetView {
    /// A session to the target may be requested.
    pub open spec fn may_connect(self) -> bool {
        names_action(self.authorized_actions, "authorize-session"@)
    }
}

impl Target {
    pub fn can_connect(&self) -> (b: bool)
        ensures
            b == self@.may_connect(),
    {
        has_action(&self.authorized_actions, "authorize-session")
    }
}

#[derive(Debug, PartialEq, Eq)]
pub struct Credential {
    pub username: String,
    pub password: String,
}

#[derive(Debug, PartialEq, Eq)]
pub struct CredentialSource {
    pub name: String,
}

/// One set of credentials for a brokered session, and where it comes from.
#[derive(Debug, PartialEq, Eq)]
pub struct CredentialEntry {
    pub credential: Credential,
    pub credential_source: CredentialSource,
}

/// What a `CredentialEntry` says.
pub struct CredentialEntryView {
    pub username: Seq<char>,
    pub password: Seq<char>,
    pub source: Seq<char>,
}

impl View for CredentialEntry {
    type V = CredentialEntryView;

    open spec fn view(&self) -> CredentialEntryView {
        CredentialEntryView {
            username: self.credential.username@,
            password: self.credential.password@,
            source: self.credential_source.name@,
        }
    }
}

impl Clone for CredentialEntry {
    fn clone(&self) -> (copy: Self)
        ensures
            copy@ == self@,
    {
        CredentialEntry {
            credential: Credential {
                username: self.credential.username.clone(),
                password: self.credential.password.clone(),
            },
            credential_source: CredentialSource { name: self.credential_source.name.clone() },
        }
    }
}

/// What a list of credentials says.
pub open spec fn credential_views(entries: Seq<CredentialEntry>) -> Seq<CredentialEntryView> {
    entries.map_values(|e: CredentialEntry| e@)
}

/// What the remote side answers to a connect request: the brokered session's
/// id, the instant after which it is no longer honoured, and the credentials
/// to use on the tunnel.
#[derive(Debug, PartialEq, Eq)]
pub struct ConnectResponse {
    pub credentials: Vec<CredentialEntry>,
    pub session_id: String,
    pub expiration: Timestamp,
}

/// A session as the remote side lists it.
#[derive(Debug, PartialEq, Eq)]
pub struct Session {
    pub id: String,
    pub target_id: String,
    pub user_id: String,
    pub session_type: String,
    pub created_time: Timestamp,
    pub status: String,
    pub authorized_actions: Vec<String>,
}

/// What a `Session` says.
pub struct SessionView {
    pub id: Seq<char>,
    pub target_id: Seq<char>,
    pub user_id: Seq<char>,
    pub session_type: Seq<char>,
    pub created_time: Timestamp,
    pub status: Seq<char>,
    pub authorized_actions: Seq<Seq<char>>,
}

impl View for Session {
    type V = SessionView;

    open spec fn view(&self) -> SessionView {
        SessionView {
            id: self.id@,
            target_id: self.target_id@,
            user_id: self.user_id@,
            session_type: self.session_type@,
            created_time: self.created_time,
            status: self.status@,
            authorized_actions: texts(self.authorized_actions@),
        }
    }
}

impl Clone for Session {
    fn clone(&self) -> (copy: Self)
        ensures
            copy@ == self@,
    {
        Session {
            id: self.id.clone(),
            target_id: self.target_id.clone(),
            user_id: self.user_id.clone(),
            session_type: self.session_type.clone(),
            created_time: self.created_time,
            status: self.status.clone(),
            authorized_actions: clone_strings(&self.authorized_actions),
        }
    }
}

impl SessionView {
    /// The session may be cancelled by its owner.
    pub open spec fn may_cancel(self) -> bool {
        names_action(self.authorized_actions, "cancel:self"@)
    }
}

impl Session {
    pub fn can_cancel(&self) -> (b: bool)
        ensures
            b == self@.may_cancel(),
    {
        has_action(&self.authorized_actions, "cancel:self")
    }
}

/// A session together with the target it leads to.
#[derive(Debug, PartialEq, Eq)]
pub struct SessionWithTarget {
    pub session: Session,
    pub target: Target,
}

/// What a `SessionWithTarget` says.
pub struct SessionWithTargetView {
    pub session: SessionView,
    pub target: TargetView,
}

impl View for SessionWithTarget {
    type V = SessionWithTargetView;

    open spec fn view(&self) -> SessionWithTargetView {
        SessionWithTargetView { session: self.session@, target: self.target@ }
    }
}

impl Clone for SessionWithTarget {
    fn clone(&self) -> (copy: Self)
        ensures
            copy@ == self@,
    {
        SessionWithTarget { session: self.session.clone(), target: self.target.clone() }
    }
}

impl SessionWithTarget {
    pub fn new(session: Session, target: Target) -> (r: Self)
        ensures
            r.session == session,
            r.target == target,
    {
        SessionWithTarget { session, target }
    }
}

} // verus!
