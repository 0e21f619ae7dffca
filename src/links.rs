use crate::errors::ApiError;
use vstd::prelude::*;

verus! {

/// Whether `s` parses as an absolute URL.
pub uninterp spec fn url_ok(s: Seq<char>) -> bool;

/// Relies on `validator::ValidateUrl::validate_url` for `String`, which
/// accepts exactly what `url::Url::parse` accepts; the empty string is no
/// URL.
#[verifier::external_body]
fn check_url(s: &String) -> (r: bool)
    ensures
        r == url_ok(s@),
        s@.len() == 0 ==> !r,
{
    validator::ValidateUrl::validate_url(s)
}

/// Payload for creating or updating a link. A group id is a UUID as its
/// 128-bit value; `active_until` is in seconds since the Unix epoch.
#[derive(Debug, Clone)]
pub struct CreateOrUpdateLinkPayload {
    pub url: String,
    pub label: String,
    pub icon: Option<String>,
    pub group_id: Option<u128>,
    pub order_index: Option<i32>,
    pub is_active: Option<bool>,
    pub max_clicks: Option<i32>,
    pub active_until: Option<i64>,
}

/// A link record ready to be stored under the account `user_slug`.
#[derive(Debug, Clone)]
pub struct NewLink {
    pub url: String,
    pub user_slug: String,
    pub group_id: Option<u128>,
    pub label: String,
    pub icon: Option<String>,
    pub order_index: Option<i32>,
    pub is_active: Option<bool>,
    pub max_clicks: Option<i32>,
    pub current_clicks: Option<i32>,
    pub active_until: Option<i64>,
}

pub open spec fn or_zero(v: Option<i32>) -> i32 {
    match v {
        Some(x) => x,
        None => 0,
    }
}

impl CreateOrUpdateLinkPayload {
    pub open spec fn valid(&self) -> bool {
        url_ok(self.url@)
    }

    /// Checks that the link target is a URL.
    pub fn validate(&self) -> (r: Result<(), ApiError>)
        ensures
            r is Ok <==> self.valid(),
            r matches Err(e) ==> (e matches ApiError::ValidationFailed(m) && m@ == "Invalid payload"@),
    {
        if check_url(&self.url) {
            Ok(())
        } else {
            Err(ApiError::invalid_payload())
        }
    }

    /// The record of a new link for `user_slug`: the payload must be valid
    /// and say whether the link is active; click cap and position default
    /// to 0 and the click count starts at 0.
    pub fn new_link(&self, user_slug: &str) -> (r: Result<NewLink, ApiError>)
        ensures
            !self.valid() ==> (r matches Err(e) && e is ValidationFailed),
            self.valid() && self.is_active is None ==> (r matches Err(ApiError::BadRequest(m))
                && m@ == "is_active is required"@),
            self.valid() && self.is_active is Some <==> r is Ok,
            r matches Ok(l) ==> {
                &&& l.url@ == self.url@
                &&& l.user_slug@ == user_slug@
                &&& l.group_id == self.group_id
                &&& l.label@ == self.label@
                &&& l.icon == self.icon
                &&& l.active_until == self.active_until
                &&& l.current_clicks == Some(0i32)
                &&& l.is_active == self.is_active
                &&& l.max_clicks == Some(or_zero(self.max_clicks))
                &&& l.order_index == Some(or_zero(self.order_index))
            },
    {
        self.validate()?;
        let active = match self.is_active {
            Some(a) => a,
            None => {
                proof {
                    reveal_strlit("is_active is required");
                }
                return Err(ApiError::BadRequest("is_active is required".to_owned()));
            },
        };
        let max_clicks = match self.max_clicks {
            Some(m) => m,
            None => 0,
        };
        let order_index = match self.order_index {
            Some(o) => o,
            None => 0,
        };
        let icon = match &self.icon {
            Some(i) => Some(i.clone()),
            None => None,
        };
        Ok(NewLink {
            url: self.url.clone(),
            user_slug: user_slug.to_owned(),
            group_id: self.group_id,
            label: self.label.clone(),
            icon,
            order_index: Some(order_index),
            is_active: Some(active),
            max_clicks: Some(max_clicks),
            current_clicks: Some(0),
            active_until: self.active_until,
        })
    }
}

} // verus!
