use vstd::prelude::*;

verus! {

/// The envelope of a listing: the items, where the remote side sent any.
#[derive(Debug)]
pub struct ListResponse<T> {
    pub items: Option<Vec<T>>,
}

impl<T> ListResponse<T> {
    /// The listed items; none where the envelope holds no list.
    pub fn into_items(self) -> (items: Vec<T>)
        ensures
            items@ == match self.items {
                Some(v) => v@,
                None => Seq::<T>::empty(),
            },
    {
        match self.items {
            Some(v) => v,
            None => Vec::new(),
        }
    }
}

/// The envelope of a single item.
#[derive(Debug)]
pub struct ItemResponse<T> {
    pub item: T,
}

#[derive(Debug)]
pub struct ApiError {
    pub message: String,
}

/// What the remote side reports when it refuses a request.
#[derive(Debug)]
pub struct ErrorResponse {
    pub status_code: u16,
    pub api_error: ApiError,
}

#[derive(Debug)]
pub struct AuthenticateResponse {
    pub attributes: AuthenticateAttributes,
}

#[derive(Debug)]
pub struct AuthenticateAttributes {
    pub user_id: String,
    pub token: String,
}

} // verus!
