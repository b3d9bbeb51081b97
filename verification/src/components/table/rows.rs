use crate::boundary::models::{utc_text, CredentialEntry, Scope, SessionWithTarget, Target};
use crate::components::table::filter::{match_str, text_matches, FilterItems};
use crate::components::table::page::TablePage;
use crate::components::table::sort::{
    insertion_sort, lemma_text_le_total, lemma_text_le_transitive, str_le, text_le, ItemOrder,
    SortItems,
};
use vstd::prelude::*;

verus! {

impl ItemOrder<Scope> for TablePage<Scope> {
    /// Scopes are ordered by name.
    open spec fn in_order(a: &Scope, b: &Scope) -> bool {
        text_le(a.name@, b.name@)
    }

    proof fn lemma_total(a: &Scope, b: &Scope) {
        lemma_text_le_total(a.name@, b.name@);
    }

    proof fn lemma_transitive(a: &Scope, b: &Scope, c: &Scope) {
        lemma_text_le_transitive(a.name@, b.name@, c.name@);
    }

    fn precedes(a: &Scope, b: &Scope) -> (r: bool) {
        str_le(a.name.as_str(), b.name.as_str())
    }
}

impl SortItems<Scope> for TablePage<Scope> {
    fn sort(items: &mut Vec<Scope>) {
        insertion_sort::<Scope, Self>(items);
    }
}

impl FilterItems<Scope> for TablePage<Scope> {
    /// A scope passes where the search occurs in its name, description or id.
    open spec fn passes(item: &Scope, search: Seq<char>) -> bool {
        text_matches(item.name@, search) || text_matches(item.description@, search)
            || text_matches(item.id@, search)
    }

    fn matches(item: &Scope, search: &str) -> (b: bool) {
        match_str(item.name.as_str(), search) || match_str(item.description.as_str(), search)
            || match_str(item.id.as_str(), search)
    }
}

impl ItemOrder<Target> for TablePage<Target> {
    /// Targets are ordered by name.
    open spec fn in_order(a: &Target, b: &Target) -> bool {
        text_le(a.name@, b.name@)
    }

    proof fn lemma_total(a: &Target, b: &Target) {
        lemma_text_le_total(a.name@, b.name@);
    }

    proof fn lemma_transitive(a: &Target, b: &Target, c: &Target) {
        lemma_text_le_transitive(a.name@, b.name@, c.name@);
    }

    fn precedes(a: &Target, b: &Target) -> (r: bool) {
        str_le(a.name.as_str(), b.name.as_str())
    }
}

impl SortItems<Target> for TablePage<Target> {
    fn sort(items: &mut Vec<Target>) {
        insertion_sort::<Target, Self>(items);
    }
}

impl FilterItems<Target> for TablePage<Target> {
    /// A target passes where the search occurs in its name, description or id.
    open spec fn passes(item: &Target, search: Seq<char>) -> bool {
        text_matches(item.name@, search) || text_matches(item.description@, search)
            || text_matches(item.id@, search)
    }

    fn matches(item: &Target, search: &str) -> (b: bool) {
        match_str(item.name.as_str(), search) || match_str(item.description.as_str(), search)
            || match_str(item.id.as_str(), search)
    }
}

impl ItemOrder<SessionWithTarget> for TablePage<SessionWithTarget> {
    /// Sessions are ordered by the time of their creation, oldest first.
    open spec fn in_order(a: &SessionWithTarget, b: &SessionWithTarget) -> bool {
        a.session.created_time.as_nanos() <= b.session.created_time.as_nanos()
    }

    proof fn lemma_total(a: &SessionWithTarget, b: &SessionWithTarget) {
    }

    proof fn lemma_transitive(a: &SessionWithTarget, b: &SessionWithTarget, c: &SessionWithTarget) {
    }

    fn precedes(a: &SessionWithTarget, b: &SessionWithTarget) -> (r: bool) {
        a.session.created_time.not_after(&b.session.created_time)
    }
}

impl SortItems<SessionWithTarget> for TablePage<SessionWithTarget> {
    fn sort(items: &mut Vec<SessionWithTarget>) {
        insertion_sort::<SessionWithTarget, Self>(items);
    }
}

impl FilterItems<SessionWithTarget> for TablePage<SessionWithTarget> {
    /// A session passes where the search occurs in its id, in its target's id
    /// or name, in its type or status, or in the time of its creation as it
    /// is written out.
    open spec fn passes(item: &SessionWithTarget, search: Seq<char>) -> bool {
        text_matches(item.session.id@, search) || text_matches(item.target.id@, search)
            || text_matches(item.target.name@, search) || text_matches(
            item.session.session_type@,
            search,
        ) || text_matches(item.session.status@, search) || match utc_text(
            item.session.created_time.seconds,
            item.session.created_time.nanos,
        ) {
            Some(created) => text_matches(created, search),
            None => false,
        }
    }

    fn matches(item: &SessionWithTarget, search: &str) -> (b: bool) {
        if match_str(item.session.id.as_str(), search) || match_str(item.target.id.as_str(), search)
            || match_str(item.target.name.as_str(), search) || match_str(
            item.session.session_type.as_str(),
            search,
        ) || match_str(item.session.status.as_str(), search) {
            return true;
        }
        match item.session.created_time.to_text() {
            Some(created) => match_str(created.as_str(), search),
            None => false,
        }
    }
}

impl ItemOrder<CredentialEntry> for TablePage<CredentialEntry> {
    /// Credentials are ordered by user name.
    open spec fn in_order(a: &CredentialEntry, b: &CredentialEntry) -> bool {
        text_le(a.credential.username@, b.credential.username@)
    }

    proof fn lemma_total(a: &CredentialEntry, b: &CredentialEntry) {
        lemma_text_le_total(a.credential.username@, b.credential.username@);
    }

    proof fn lemma_transitive(a: &CredentialEntry, b: &CredentialEntry, c: &CredentialEntry) {
        lemma_text_le_transitive(
            a.credential.username@,
            b.credential.username@,
            c.credential.username@,
        );
    }

    fn precedes(a: &CredentialEntry, b: &CredentialEntry) -> (r: bool) {
        str_le(a.credential.username.as_str(), b.credential.username.as_str())
    }
}

impl SortItems<CredentialEntry> for TablePage<CredentialEntry> {
    fn sort(items: &mut Vec<CredentialEntry>) {
        insertion_sort::<CredentialEntry, Self>(items);
    }
}

impl FilterItems<CredentialEntry> for TablePage<CredentialEntry> {
    /// A credential passes where the search occurs in its user name or in the
    /// name of its source.
    open spec fn passes(item: &CredentialEntry, search: Seq<char>) -> bool {
        text_matches(item.credential.username@, search) || text_matches(
            item.credential_source.name@,
            search,
        )
    }

    fn matches(item: &CredentialEntry, search: &str) -> (b: bool) {
        match_str(item.credential.username.as_str(), search) || match_str(
            item.credential_source.name.as_str(),
            search,
        )
    }
}

} // verus!
