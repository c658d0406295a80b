use vstd::prelude::*;
use std::sync::Arc;
use crate::error::Result;
use crate::http::{scoped, Method, PayloadView, Request, Requester, Scope};
use crate::json::{
    array_member, array_member_spec, first_of, first_of_spec, get, text_member_is, text_member_spec,
    texts_in_spec, texts_of_member, JsonValue,
};
use crate::params::pairs_view;
use crate::text::{dec, push_u64};

verus! {

/// A Canvas communication channel (email, SMS, push notification, etc.).
#[derive(Debug)]
pub struct CommunicationChannel {
    pub id: u64,
    pub address: Option<String>,
    pub channel_type: Option<String>,
    pub position: Option<u64>,
    pub user_id: Option<u64>,
    pub workflow_state: Option<String>,
    /// A time, as RFC 3339 text.
    pub created_at: Option<String>,
    pub requester: Option<Arc<Requester>>,
}

impl CommunicationChannel {
    /// Takes in this CommunicationChannel as fetched: it keeps `requester` for its own calls.
    pub fn adopt(&mut self, requester: Arc<Requester>, scope: &Scope)
        ensures
            final(self).requester == Some(requester),
            final(self).id == old(self).id,
            final(self).address == old(self).address,
            final(self).channel_type == old(self).channel_type,
            final(self).position == old(self).position,
            final(self).user_id == old(self).user_id,
            final(self).workflow_state == old(self).workflow_state,
            final(self).created_at == old(self).created_at,
    {
        self.requester = Some(requester);
    }

    fn req(&self) -> (r: &Arc<Requester>)
        requires
            self.requester is Some,
        ensures
            *r == self.requester.unwrap(),
    {
        self.requester.as_ref().unwrap()
    }

    /// Delete this communication channel.
    ///
    /// What Canvas answers is read with [`Self::deleted`].
    ///
    /// # Canvas API
    /// `DELETE /api/v1/users/:user_id/communication_channels/:id`
    pub fn delete(&self) -> (r: Result<Request>)
        requires
            self.requester is Some,
            self.user_id is Some,
        ensures
            self.requester.unwrap().sends_scoped(
                r,
                Method::Delete,
                "users/"@ + dec(self.user_id.unwrap() as nat) + "/communication_channels/"@ + dec(self.id as nat),
                PayloadView::Query(seq![]),
                Scope::none(),
            ),
    {
        let mut endpoint = String::new();
        endpoint.append("users/");
        push_u64(&mut endpoint, self.user_id.unwrap());
        endpoint.append("/communication_channels/");
        push_u64(&mut endpoint, self.id);
        assert(endpoint@ =~= "users/"@ + dec(self.user_id.unwrap() as nat) + "/communication_channels/"@ + dec(self.id as nat));
        let form: Vec<(String, String)> = Vec::new();
        assert(pairs_view(form@) =~= seq![]);
        scoped(self.req().delete(endpoint.as_str(), form), Scope::empty())
    }

    /// Fetch the notification preference for a specific notification type.
    ///
    /// What Canvas answers is read with [`Self::preference_of`].
    ///
    /// # Canvas API
    /// `GET /api/v1/users/:user_id/communication_channels/:id/notification_preferences/:notification`
    pub fn get_preference(&self, notification: &str) -> (r: Result<Request>)
        requires
            self.requester is Some,
            self.user_id is Some,
        ensures
            self.requester.unwrap().sends_scoped(
                r,
                Method::Get,
                "users/"@ + dec(self.user_id.unwrap() as nat) + "/communication_channels/"@ + dec(self.id as nat) + "/notification_preferences/"@ + notification@,
                PayloadView::Query(seq![]),
                Scope::none(),
            ),
    {
        let mut endpoint = String::new();
        endpoint.append("users/");
        push_u64(&mut endpoint, self.user_id.unwrap());
        endpoint.append("/communication_channels/");
        push_u64(&mut endpoint, self.id);
        endpoint.append("/notification_preferences/");
        endpoint.append(notification);
        assert(endpoint@ =~= "users/"@ + dec(self.user_id.unwrap() as nat) + "/communication_channels/"@ + dec(self.id as nat) + "/notification_preferences/"@ + notification@);
        let form: Vec<(String, String)> = Vec::new();
        assert(pairs_view(form@) =~= seq![]);
        scoped(self.req().get(endpoint.as_str(), form), Scope::empty())
    }

    /// Fetch all notification preferences for this channel.
    ///
    /// What Canvas answers is read with [`Self::preferences_of`].
    ///
    /// # Canvas API
    /// `GET /api/v1/users/:user_id/communication_channels/:id/notification_preferences`
    pub fn get_preferences(&self) -> (r: Result<Request>)
        requires
            self.requester is Some,
            self.user_id is Some,
        ensures
            self.requester.unwrap().sends_scoped(
                r,
                Method::Get,
                "users/"@ + dec(self.user_id.unwrap() as nat) + "/communication_channels/"@ + dec(self.id as nat) + "/notification_preferences"@,
                PayloadView::Query(seq![]),
                Scope::none(),
            ),
    {
        let mut endpoint = String::new();
        endpoint.append("users/");
        push_u64(&mut endpoint, self.user_id.unwrap());
        endpoint.append("/communication_channels/");
        push_u64(&mut endpoint, self.id);
        endpoint.append("/notification_preferences");
        assert(endpoint@ =~= "users/"@ + dec(self.user_id.unwrap() as nat) + "/communication_channels/"@ + dec(self.id as nat) + "/notification_preferences"@);
        let form: Vec<(String, String)> = Vec::new();
        assert(pairs_view(form@) =~= seq![]);
        scoped(self.req().get(endpoint.as_str(), form), Scope::empty())
    }

    /// Update the preference for a specific notification on this channel.
    ///
    /// What Canvas answers is read with [`Self::preference_of`].
    ///
    /// `frequency` can be `"immediately"`, `"daily"`, `"weekly"`, or `"never"`.
    ///
    /// # Canvas API
    /// `PUT /api/v1/users/self/communication_channels/:id/notification_preferences/:notification`
    pub fn update_preference(&self, notification: &str, frequency: &str) -> (r: Result<Request>)
        requires
            self.requester is Some,
        ensures
            self.requester.unwrap().sends_scoped(
                r,
                Method::Put,
                "users/self/communication_channels/"@ + dec(self.id as nat) + "/notification_preferences/"@ + notification@,
                PayloadView::Form(seq![("notification_preferences[frequency]"@, frequency@)]),
                Scope::none(),
            ),
    {
        let mut endpoint = String::new();
        endpoint.append("users/self/communication_channels/");
        push_u64(&mut endpoint, self.id);
        endpoint.append("/notification_preferences/");
        endpoint.append(notification);
        assert(endpoint@ =~= "users/self/communication_channels/"@ + dec(self.id as nat) + "/notification_preferences/"@ + notification@);
        let form: Vec<(String, String)> = vec![("notification_preferences[frequency]".to_owned(), frequency.to_owned())];
        assert(pairs_view(form@) =~= seq![("notification_preferences[frequency]"@, frequency@)]);
        scoped(self.req().put(endpoint.as_str(), form), Scope::empty())
    }

    /// Update preferences for all notifications in a category on this channel.
    ///
    /// What Canvas answers is read with [`Self::preferences_of`].
    ///
    /// `frequency` can be `"immediately"`, `"daily"`, `"weekly"`, or `"never"`.
    ///
    /// # Canvas API
    /// `PUT /api/v1/users/self/communication_channels/:id/notification_preference_categories/:category`
    pub fn update_preferences_by_category(&self, category: &str, frequency: &str) -> (r: Result<Request>)
        requires
            self.requester is Some,
        ensures
            self.requester.unwrap().sends_scoped(
                r,
                Method::Put,
                "users/self/communication_channels/"@ + dec(self.id as nat) + "/notification_preference_categories/"@ + category@,
                PayloadView::Form(seq![("notification_preferences[frequency]"@, frequency@)]),
                Scope::none(),
            ),
    {
        let mut endpoint = String::new();
        endpoint.append("users/self/communication_channels/");
        push_u64(&mut endpoint, self.id);
        endpoint.append("/notification_preference_categories/");
        endpoint.append(category);
        assert(endpoint@ =~= "users/self/communication_channels/"@ + dec(self.id as nat) + "/notification_preference_categories/"@ + category@);
        let form: Vec<(String, String)> = vec![("notification_preferences[frequency]".to_owned(), frequency.to_owned())];
        assert(pairs_view(form@) =~= seq![("notification_preferences[frequency]"@, frequency@)]);
        scoped(self.req().put(endpoint.as_str(), form), Scope::empty())
    }
}

impl CommunicationChannel {
    /// Fetch all notification preference categories for this channel.
    ///
    /// # Canvas API
    /// `GET /api/v1/users/:user_id/communication_channels/:id/notification_preference_categories`
    pub fn get_preference_categories(&self) -> (r: Result<Request>)
        requires
            self.requester is Some,
            self.user_id is Some,
        ensures
            self.requester.unwrap().sends_scoped(
                r,
                Method::Get,
                "users/"@ + dec(self.user_id.unwrap() as nat) + "/communication_channels/"@ + dec(self.id as nat)
                    + "/notification_preference_categories"@,
                PayloadView::Query(seq![]),
                Scope::none(),
            ),
    {
        let mut endpoint = String::new();
        endpoint.append("users/");
        push_u64(&mut endpoint, self.user_id.unwrap());
        endpoint.append("/communication_channels/");
        push_u64(&mut endpoint, self.id);
        endpoint.append("/notification_preference_categories");
        let form: Vec<(String, String)> = Vec::new();
        assert(pairs_view(form@) =~= seq![]);
        scoped(self.req().get(endpoint.as_str(), form), Scope::empty())
    }

    /// Whether Canvas's answer to [`Self::delete`] reports the channel deleted:
    /// its `workflow_state` is the string `deleted`.
    pub fn deleted(response: &JsonValue) -> (b: bool)
        ensures
            b == (text_member_spec(*response, "workflow_state"@) == Some("deleted"@)),
    {
        text_member_is(response, "workflow_state", "deleted")
    }

    /// The preference in Canvas's answer to [`Self::get_preference`] or
    /// [`Self::update_preference`]: the first element of its
    /// `notification_preferences` array; `None` stands for `null`.
    pub fn preference_of(response: &JsonValue) -> (p: Option<&JsonValue>)
        ensures
            match p {
                Some(x) => first_of_spec(*response, "notification_preferences"@) == Some(*x),
                None => first_of_spec(*response, "notification_preferences"@) is None,
            },
    {
        first_of(response, "notification_preferences")
    }

    /// The preferences in Canvas's answer to [`Self::get_preferences`] or
    /// [`Self::update_preferences_by_category`]: the elements of its
    /// `notification_preferences` array, none when it has no such array.
    pub fn preferences_of(response: &JsonValue) -> (p: &[JsonValue])
        ensures
            p@ == array_member_spec(*response, "notification_preferences"@),
    {
        array_member(response, "notification_preferences")
    }

    /// The categories in Canvas's answer to [`Self::get_preference_categories`]:
    /// the string elements of its `categories` array, in order.
    pub fn categories_of(response: &JsonValue) -> (c: Vec<String>)
        ensures
            c@.map_values(|t: String| t@) == texts_in_spec(array_member_spec(*response, "categories"@)),
    {
        texts_of_member(response, "categories")
    }
}

} // verus!
