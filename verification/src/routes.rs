use crate::boundary::models::{Scope, Target};
use vstd::prelude::*;

verus! {

/// The pages that can be navigated to.
#[derive(Debug)]
pub enum Routes {
    Scopes { parent: Option<String> },
    Targets { scope: String },
    Sessions { scope_id: String, target_id: String },
}

impl Clone for Routes {
    fn clone(&self) -> (copy: Self)
        ensures
            copy == *self,
    {
        match self {
            Routes::Scopes { parent } => Routes::Scopes {
                parent: match parent {
                    Some(p) => Some(p.clone()),
                    None => None,
                },
            },
            Routes::Targets { scope } => Routes::Targets { scope: scope.clone() },
            Routes::Sessions { scope_id, target_id } => Routes::Sessions {
                scope_id: scope_id.clone(),
                target_id: target_id.clone(),
            },
        }
    }
}

impl Routes {
    /// Whether `route` is where one gets from a scope: to its child scopes
    /// where they may be listed, else to its targets where those may be
    /// listed, else nowhere.
    pub open spec fn leads_below(scope: &Scope, route: Option<Routes>) -> bool {
        if scope@.may_list_child_scopes() {
            route matches Some(Routes::Scopes { parent: Some(parent) }) && parent@ == scope.id@
        } else if scope@.may_list_targets() {
            route matches Some(Routes::Targets { scope: id }) && id@ == scope.id@
        } else {
            route is None
        }
    }

    /// The route from a scope to what lies below it.
    pub fn below(scope: &Scope) -> (route: Option<Routes>)
        ensures
            Self::leads_below(scope, route),
    {
        if scope.can_list_child_scopes() {
            Some(Routes::Scopes { parent: Some(scope.id.clone()) })
        } else if scope.can_list_targets() {
            Some(Routes::Targets { scope: scope.id.clone() })
        } else {
            None
        }
    }

    /// The route to the sessions of a target.
    pub fn sessions_of(target: &Target) -> (route: Routes)
        ensures
            route matches Routes::Sessions { scope_id, target_id } && scope_id@ == target.scope_id@
                && target_id@ == target.id@,
    {
        Routes::Sessions { scope_id: target.scope_id.clone(), target_id: target.id.clone() }
    }
}

} // verus!
