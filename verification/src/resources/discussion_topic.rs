use vstd::prelude::*;
use std::sync::Arc;
use crate::error::{bad_request, is_bad_request, Result};
use crate::http::{scoped, share, Method, PayloadView, Request, Requester, Scope};
use crate::json::get;
use crate::pagination::{lists, PageStream};
use crate::params::{
    add_bool, add_text, bool_of, concat_upto, entry, field, id_params, id_params_view,
    lemma_part_in_concat, member_key, pairs_view, text_of,
};
use crate::text::{bool_text, dec, id_or, id_or_spec, or_id, or_id_spec, push_u64, u64_to_text};

verus! {

/// Parameters for creating or updating a Canvas discussion topic.
#[derive(Debug, Default)]
pub struct UpdateDiscussionParams {
    pub title: Option<String>,
    pub message: Option<String>,
    pub discussion_type: Option<String>,
    pub published: Option<bool>,
    /// A time, as RFC 3339 text.
    pub delayed_post_at: Option<String>,
    pub locked: Option<bool>,
    pub pinned: Option<bool>,
    pub require_initial_post: Option<bool>,
}

impl UpdateDiscussionParams {
    /// The parameters these settings give under `key`: `key[member]` for each
    /// member that is set, in the order of the member names.
    pub open spec fn form_view(self, key: Seq<char>) -> Seq<(Seq<char>, Seq<char>)> {
        field(key, "delayed_post_at"@, text_of(self.delayed_post_at))
        + field(key, "discussion_type"@, text_of(self.discussion_type))
        + field(key, "locked"@, bool_of(self.locked))
        + field(key, "message"@, text_of(self.message))
        + field(key, "pinned"@, bool_of(self.pinned))
        + field(key, "published"@, bool_of(self.published))
        + field(key, "require_initial_post"@, bool_of(self.require_initial_post))
        + field(key, "title"@, text_of(self.title))
    }

    /// The parameters these settings give under `key` (what flattening
    /// `{key: settings}` gives).
    pub fn to_form(&self, key: &str) -> (r: Vec<(String, String)>)
        ensures
            pairs_view(r@) == self.form_view(key@),
    {
        let mut out: Vec<(String, String)> = Vec::new();
        add_text(&mut out, key, "delayed_post_at", &self.delayed_post_at);
        add_text(&mut out, key, "discussion_type", &self.discussion_type);
        add_bool(&mut out, key, "locked", self.locked);
        add_text(&mut out, key, "message", &self.message);
        add_bool(&mut out, key, "pinned", self.pinned);
        add_bool(&mut out, key, "published", self.published);
        add_bool(&mut out, key, "require_initial_post", self.require_initial_post);
        add_text(&mut out, key, "title", &self.title);
        assert(pairs_view(out@) =~= self.form_view(key@));
        out
    }

    /// Every member of these settings that is set is sent under `key[member]`,
    /// with its text (a boolean as `true`/`false`, a number in decimal).
    pub proof fn lemma_form_sends_members(self, key: Seq<char>)
        ensures
            self.delayed_post_at is Some ==> self.form_view(key).contains((member_key(key, "delayed_post_at"@), self.delayed_post_at.unwrap()@)),
            self.discussion_type is Some ==> self.form_view(key).contains((member_key(key, "discussion_type"@), self.discussion_type.unwrap()@)),
            self.locked is Some ==> self.form_view(key).contains((member_key(key, "locked"@), bool_text(self.locked.unwrap()))),
            self.message is Some ==> self.form_view(key).contains((member_key(key, "message"@), self.message.unwrap()@)),
            self.pinned is Some ==> self.form_view(key).contains((member_key(key, "pinned"@), bool_text(self.pinned.unwrap()))),
            self.published is Some ==> self.form_view(key).contains((member_key(key, "published"@), bool_text(self.published.unwrap()))),
            self.require_initial_post is Some ==> self.form_view(key).contains((member_key(key, "require_initial_post"@), bool_text(self.require_initial_post.unwrap()))),
            self.title is Some ==> self.form_view(key).contains((member_key(key, "title"@), self.title.unwrap()@)),
    {
        let parts = seq![
            field(key, "delayed_post_at"@, text_of(self.delayed_post_at)),
            field(key, "discussion_type"@, text_of(self.discussion_type)),
            field(key, "locked"@, bool_of(self.locked)),
            field(key, "message"@, text_of(self.message)),
            field(key, "pinned"@, bool_of(self.pinned)),
            field(key, "published"@, bool_of(self.published)),
            field(key, "require_initial_post"@, bool_of(self.require_initial_post)),
            field(key, "title"@, text_of(self.title)),
        ];
        assert(self.form_view(key) == concat_upto(parts, 8)) by {
            assert(concat_upto(parts, 0) == Seq::<(Seq<char>, Seq<char>)>::empty());
            assert(concat_upto(parts, 1) =~= parts[0]);
            assert(concat_upto(parts, 2) == concat_upto(parts, 1) + parts[1]);
            assert(concat_upto(parts, 3) == concat_upto(parts, 2) + parts[2]);
            assert(concat_upto(parts, 4) == concat_upto(parts, 3) + parts[3]);
            assert(concat_upto(parts, 5) == concat_upto(parts, 4) + parts[4]);
            assert(concat_upto(parts, 6) == concat_upto(parts, 5) + parts[5]);
            assert(concat_upto(parts, 7) == concat_upto(parts, 6) + parts[6]);
            assert(concat_upto(parts, 8) == concat_upto(parts, 7) + parts[7]);
        }
        assert(self.delayed_post_at is Some ==> self.form_view(key).contains((member_key(key, "delayed_post_at"@), self.delayed_post_at.unwrap()@))) by {
            if self.delayed_post_at is Some {
                assert(parts[0][0] == (member_key(key, "delayed_post_at"@), self.delayed_post_at.unwrap()@));
                lemma_part_in_concat(parts, 8, 0, (member_key(key, "delayed_post_at"@), self.delayed_post_at.unwrap()@));
            }
        }
        assert(self.discussion_type is Some ==> self.form_view(key).contains((member_key(key, "discussion_type"@), self.discussion_type.unwrap()@))) by {
            if self.discussion_type is Some {
                assert(parts[1][0] == (member_key(key, "discussion_type"@), self.discussion_type.unwrap()@));
                lemma_part_in_concat(parts, 8, 1, (member_key(key, "discussion_type"@), self.discussion_type.unwrap()@));
            }
        }
        assert(self.locked is Some ==> self.form_view(key).contains((member_key(key, "locked"@), bool_text(self.locked.unwrap())))) by {
            if self.locked is Some {
                assert(parts[2][0] == (member_key(key, "locked"@), bool_text(self.locked.unwrap())));
                lemma_part_in_concat(parts, 8, 2, (member_key(key, "locked"@), bool_text(self.locked.unwrap())));
            }
        }
        assert(self.message is Some ==> self.form_view(key).contains((member_key(key, "message"@), self.message.unwrap()@))) by {
            if self.message is Some {
                assert(parts[3][0] == (member_key(key, "message"@), self.message.unwrap()@));
                lemma_part_in_concat(parts, 8, 3, (member_key(key, "message"@), self.message.unwrap()@));
            }
        }
        assert(self.pinned is Some ==> self.form_view(key).contains((member_key(key, "pinned"@), bool_text(self.pinned.unwrap())))) by {
            if self.pinned is Some {
                assert(parts[4][0] == (member_key(key, "pinned"@), bool_text(self.pinned.unwrap())));
                lemma_part_in_concat(parts, 8, 4, (member_key(key, "pinned"@), bool_text(self.pinned.unwrap())));
            }
        }
        assert(self.published is Some ==> self.form_view(key).contains((member_key(key, "published"@), bool_text(self.published.unwrap())))) by {
            if self.published is Some {
                assert(parts[5][0] == (member_key(key, "published"@), bool_text(self.published.unwrap())));
                lemma_part_in_concat(parts, 8, 5, (member_key(key, "published"@), bool_text(self.published.unwrap())));
            }
        }
        assert(self.require_initial_post is Some ==> self.form_view(key).contains((member_key(key, "require_initial_post"@), bool_text(self.require_initial_post.unwrap())))) by {
            if self.require_initial_post is Some {
                assert(parts[6][0] == (member_key(key, "require_initial_post"@), bool_text(self.require_initial_post.unwrap())));
                lemma_part_in_concat(parts, 8, 6, (member_key(key, "require_initial_post"@), bool_text(self.require_initial_post.unwrap())));
            }
        }
        assert(self.title is Some ==> self.form_view(key).contains((member_key(key, "title"@), self.title.unwrap()@))) by {
            if self.title is Some {
                assert(parts[7][0] == (member_key(key, "title"@), self.title.unwrap()@));
                lemma_part_in_concat(parts, 8, 7, (member_key(key, "title"@), self.title.unwrap()@));
            }
        }
    }
}

/// Parameters for posting an entry on a discussion topic.
#[derive(Debug, Default)]
pub struct PostEntryParams {
    pub message: Option<String>,
}

impl PostEntryParams {
    /// The parameters these settings give under `key`: `key[member]` for each
    /// member that is set, in the order of the member names.
    pub open spec fn form_view(self, key: Seq<char>) -> Seq<(Seq<char>, Seq<char>)> {
        seq![] + field(key, "message"@, text_of(self.message))
    }

    /// The parameters these settings give under `key` (what flattening
    /// `{key: settings}` gives).
    pub fn to_form(&self, key: &str) -> (r: Vec<(String, String)>)
        ensures
            pairs_view(r@) == self.form_view(key@),
    {
        let mut out: Vec<(String, String)> = Vec::new();
        add_text(&mut out, key, "message", &self.message);
        assert(pairs_view(out@) =~= self.form_view(key@));
        out
    }

    /// Every member of these settings that is set is sent under `key[member]`,
    /// with its text (a boolean as `true`/`false`, a number in decimal).
    pub proof fn lemma_form_sends_members(self, key: Seq<char>)
        ensures
            self.message is Some ==> self.form_view(key).contains((member_key(key, "message"@), self.message.unwrap()@)),
    {
        let parts = seq![
            field(key, "message"@, text_of(self.message)),
        ];
        assert(self.form_view(key) == concat_upto(parts, 1)) by {
            assert(concat_upto(parts, 0) == Seq::<(Seq<char>, Seq<char>)>::empty());
            assert(concat_upto(parts, 1) =~= parts[0]);
        }
        assert(self.message is Some ==> self.form_view(key).contains((member_key(key, "message"@), self.message.unwrap()@))) by {
            if self.message is Some {
                assert(parts[0][0] == (member_key(key, "message"@), self.message.unwrap()@));
                lemma_part_in_concat(parts, 1, 0, (member_key(key, "message"@), self.message.unwrap()@));
            }
        }
    }
}

/// A Canvas discussion topic (announcement or discussion board post).
#[derive(Debug)]
pub struct DiscussionTopic {
    pub id: u64,
    pub course_id: Option<u64>,
    pub title: Option<String>,
    pub message: Option<String>,
    pub html_url: Option<String>,
    /// A time, as RFC 3339 text.
    pub posted_at: Option<String>,
    /// A time, as RFC 3339 text.
    pub last_reply_at: Option<String>,
    pub require_initial_post: Option<bool>,
    pub user_can_see_posts: Option<bool>,
    pub discussion_subentry_count: Option<u64>,
    pub read_state: Option<String>,
    pub unread_count: Option<u64>,
    pub subscribed: Option<bool>,
    pub discussion_type: Option<String>,
    pub published: Option<bool>,
    pub locked: Option<bool>,
    pub pinned: Option<bool>,
    pub locked_for_user: Option<bool>,
    pub assignment_id: Option<u64>,
    /// A time, as RFC 3339 text.
    pub delayed_post_at: Option<String>,
    /// A time, as RFC 3339 text.
    pub due_at: Option<String>,
    pub requester: Option<Arc<Requester>>,
    pub course_id_ctx: Option<u64>,
    pub group_id: Option<u64>,
}

impl DiscussionTopic {
    /// Takes in this DiscussionTopic as fetched: it keeps `requester` for its own calls,
    /// and takes `course_id_ctx`, `group_id` from the scope where the scope sets them.
    pub fn adopt(&mut self, requester: Arc<Requester>, scope: &Scope)
        ensures
            final(self).requester == Some(requester),
            final(self).course_id_ctx == (match scope.course_id {
                Some(v) => v,
                None => old(self).course_id_ctx,
            }),
            final(self).group_id == (match scope.group_id {
                Some(v) => v,
                None => old(self).group_id,
            }),
            final(self).id == old(self).id,
            final(self).course_id == old(self).course_id,
            final(self).title == old(self).title,
            final(self).message == old(self).message,
            final(self).html_url == old(self).html_url,
            final(self).posted_at == old(self).posted_at,
            final(self).last_reply_at == old(self).last_reply_at,
            final(self).require_initial_post == old(self).require_initial_post,
            final(self).user_can_see_posts == old(self).user_can_see_posts,
            final(self).discussion_subentry_count == old(self).discussion_subentry_count,
            final(self).read_state == old(self).read_state,
            final(self).unread_count == old(self).unread_count,
            final(self).subscribed == old(self).subscribed,
            final(self).discussion_type == old(self).discussion_type,
            final(self).published == old(self).published,
            final(self).locked == old(self).locked,
            final(self).pinned == old(self).pinned,
            final(self).locked_for_user == old(self).locked_for_user,
            final(self).assignment_id == old(self).assignment_id,
            final(self).delayed_post_at == old(self).delayed_post_at,
            final(self).due_at == old(self).due_at,
    {
        self.requester = Some(requester);
        if let Some(v) = scope.course_id {
            self.course_id_ctx = v;
        }
        if let Some(v) = scope.group_id {
            self.group_id = v;
        }
    }

    fn req(&self) -> (r: &Arc<Requester>)
        requires
            self.requester is Some,
        ensures
            *r == self.requester.unwrap(),
    {
        self.requester.as_ref().unwrap()
    }

    /// Update this discussion topic.
    ///
    /// # Canvas API
    /// `PUT /api/v1/courses/:course_id/discussion_topics/:id`
    pub fn update(&self, params: UpdateDiscussionParams) -> (r: Result<Request>)
        requires
            !(self.parent_prefix_view() is Err) ==> self.requester is Some,
        ensures
            (self.parent_prefix_view() is Err) ==> (r matches Err(e) && is_bad_request(e, self.parent_prefix_view()->Err_0)),
            !(self.parent_prefix_view() is Err) ==> self.requester.unwrap().sends_scoped(
                r,
                Method::Put,
                self.parent_prefix_view()->Ok_0 + "/discussion_topics/"@ + dec(self.id as nat),
                PayloadView::Form(params.form_view("discussion_topic"@)),
                Scope { course_id: Some(or_id_spec(self.course_id, self.course_id_ctx)), group_id: Some(self.group_id), ..Scope::none() },
            ),
    {
        let parent_prefix_value = match self.parent_prefix() {
            Ok(v) => v,
            Err(e) => return Err(e),
        };
        let mut endpoint = String::new();
        endpoint.append(parent_prefix_value.as_str());
        endpoint.append("/discussion_topics/");
        push_u64(&mut endpoint, self.id);
        assert(endpoint@ =~= self.parent_prefix_view()->Ok_0 + "/discussion_topics/"@ + dec(self.id as nat));
        let form: Vec<(String, String)> = params.to_form("discussion_topic");
        assert(pairs_view(form@) =~= params.form_view("discussion_topic"@));
        scoped(self.req().put(endpoint.as_str(), form), Scope { course_id: Some(or_id(self.course_id, self.course_id_ctx)), group_id: Some(self.group_id), ..Scope::empty() })
    }

    /// Delete this discussion topic.
    ///
    /// # Canvas API
    /// `DELETE /api/v1/courses/:course_id/discussion_topics/:id`
    pub fn delete(&self) -> (r: Result<Request>)
        requires
            !(self.parent_prefix_view() is Err) ==> self.requester is Some,
        ensures
            (self.parent_prefix_view() is Err) ==> (r matches Err(e) && is_bad_request(e, self.parent_prefix_view()->Err_0)),
            !(self.parent_prefix_view() is Err) ==> self.requester.unwrap().sends_scoped(
                r,
                Method::Delete,
                self.parent_prefix_view()->Ok_0 + "/discussion_topics/"@ + dec(self.id as nat),
                PayloadView::Query(seq![]),
                Scope::none(),
            ),
    {
        let parent_prefix_value = match self.parent_prefix() {
            Ok(v) => v,
            Err(e) => return Err(e),
        };
        let mut endpoint = String::new();
        endpoint.append(parent_prefix_value.as_str());
        endpoint.append("/discussion_topics/");
        push_u64(&mut endpoint, self.id);
        assert(endpoint@ =~= self.parent_prefix_view()->Ok_0 + "/discussion_topics/"@ + dec(self.id as nat));
        let form: Vec<(String, String)> = Vec::new();
        assert(pairs_view(form@) =~= seq![]);
        scoped(self.req().delete(endpoint.as_str(), form), Scope::empty())
    }

    /// Post a new top-level entry to this discussion topic.
    ///
    /// # Canvas API
    /// `POST /api/v1/courses/:course_id/discussion_topics/:id/entries`
    pub fn post_entry(&self, params: PostEntryParams) -> (r: Result<Request>)
        requires
            !(self.parent_prefix_view() is Err) ==> self.requester is Some,
        ensures
            (self.parent_prefix_view() is Err) ==> (r matches Err(e) && is_bad_request(e, self.parent_prefix_view()->Err_0)),
            !(self.parent_prefix_view() is Err) ==> self.requester.unwrap().sends_scoped(
                r,
                Method::Post,
                self.parent_prefix_view()->Ok_0 + "/discussion_topics/"@ + dec(self.id as nat) + "/entries"@,
                PayloadView::Form(params.form_view("discussion_entry"@)),
                self.entry_scope(),
            ),
    {
        let parent_prefix_value = match self.parent_prefix() {
            Ok(v) => v,
            Err(e) => return Err(e),
        };
        let mut endpoint = String::new();
        endpoint.append(parent_prefix_value.as_str());
        endpoint.append("/discussion_topics/");
        push_u64(&mut endpoint, self.id);
        endpoint.append("/entries");
        assert(endpoint@ =~= self.parent_prefix_view()->Ok_0 + "/discussion_topics/"@ + dec(self.id as nat) + "/entries"@);
        let form: Vec<(String, String)> = params.to_form("discussion_entry");
        assert(pairs_view(form@) =~= params.form_view("discussion_entry"@));
        scoped(self.req().post(endpoint.as_str(), form), Scope { course_id: Some(or_id(self.course_id, self.course_id_ctx)), group_id: Some(self.group_id), topic_id: Some(Some(self.id)), ..Scope::empty() })
    }

    /// Fetch specific entries by ID.
    ///
    /// # Canvas API
    /// `GET /api/v1/courses/:course_id/discussion_topics/:id/entry_list?ids[]=...`
    pub fn get_entries(&self, ids: &[u64]) -> (r: Result<Request>)
        requires
            !(self.parent_prefix_view() is Err) ==> self.requester is Some,
        ensures
            (self.parent_prefix_view() is Err) ==> (r matches Err(e) && is_bad_request(e, self.parent_prefix_view()->Err_0)),
            !(self.parent_prefix_view() is Err) ==> self.requester.unwrap().sends_scoped(
                r,
                Method::Get,
                self.parent_prefix_view()->Ok_0 + "/discussion_topics/"@ + dec(self.id as nat) + "/entry_list"@,
                PayloadView::Query(id_params_view("ids[]"@, ids@)),
                self.entry_scope(),
            ),
    {
        let parent_prefix_value = match self.parent_prefix() {
            Ok(v) => v,
            Err(e) => return Err(e),
        };
        let mut endpoint = String::new();
        endpoint.append(parent_prefix_value.as_str());
        endpoint.append("/discussion_topics/");
        push_u64(&mut endpoint, self.id);
        endpoint.append("/entry_list");
        assert(endpoint@ =~= self.parent_prefix_view()->Ok_0 + "/discussion_topics/"@ + dec(self.id as nat) + "/entry_list"@);
        let form: Vec<(String, String)> = id_params("ids[]", ids);
        assert(pairs_view(form@) =~= id_params_view("ids[]"@, ids@));
        scoped(self.req().get(endpoint.as_str(), form), Scope { course_id: Some(or_id(self.course_id, self.course_id_ctx)), group_id: Some(self.group_id), topic_id: Some(Some(self.id)), ..Scope::empty() })
    }

    /// Mark this topic as read.
    ///
    /// # Canvas API
    /// `PUT /api/v1/courses/:course_id/discussion_topics/:id/read`
    pub fn mark_as_read(&self) -> (r: Result<Request>)
        requires
            !(self.parent_prefix_view() is Err) ==> self.requester is Some,
        ensures
            (self.parent_prefix_view() is Err) ==> (r matches Err(e) && is_bad_request(e, self.parent_prefix_view()->Err_0)),
            !(self.parent_prefix_view() is Err) ==> self.requester.unwrap().sends_scoped(
                r,
                Method::Put,
                self.parent_prefix_view()->Ok_0 + "/discussion_topics/"@ + dec(self.id as nat) + "/read"@,
                PayloadView::Form(seq![]),
                Scope::none(),
            ),
    {
        let parent_prefix_value = match self.parent_prefix() {
            Ok(v) => v,
            Err(e) => return Err(e),
        };
        let mut endpoint = String::new();
        endpoint.append(parent_prefix_value.as_str());
        endpoint.append("/discussion_topics/");
        push_u64(&mut endpoint, self.id);
        endpoint.append("/read");
        assert(endpoint@ =~= self.parent_prefix_view()->Ok_0 + "/discussion_topics/"@ + dec(self.id as nat) + "/read"@);
        let form: Vec<(String, String)> = Vec::new();
        assert(pairs_view(form@) =~= seq![]);
        scoped(self.req().put(endpoint.as_str(), form), Scope::empty())
    }

    /// Mark this topic as unread.
    ///
    /// # Canvas API
    /// `DELETE /api/v1/courses/:course_id/discussion_topics/:id/read`
    pub fn mark_as_unread(&self) -> (r: Result<Request>)
        requires
            !(self.parent_prefix_view() is Err) ==> self.requester is Some,
        ensures
            (self.parent_prefix_view() is Err) ==> (r matches Err(e) && is_bad_request(e, self.parent_prefix_view()->Err_0)),
            !(self.parent_prefix_view() is Err) ==> self.requester.unwrap().sends_scoped(
                r,
                Method::Delete,
                self.parent_prefix_view()->Ok_0 + "/discussion_topics/"@ + dec(self.id as nat) + "/read"@,
                PayloadView::Query(seq![]),
                Scope::none(),
            ),
    {
        let parent_prefix_value = match self.parent_prefix() {
            Ok(v) => v,
            Err(e) => return Err(e),
        };
        let mut endpoint = String::new();
        endpoint.append(parent_prefix_value.as_str());
        endpoint.append("/discussion_topics/");
        push_u64(&mut endpoint, self.id);
        endpoint.append("/read");
        assert(endpoint@ =~= self.parent_prefix_view()->Ok_0 + "/discussion_topics/"@ + dec(self.id as nat) + "/read"@);
        let form: Vec<(String, String)> = Vec::new();
        assert(pairs_view(form@) =~= seq![]);
        scoped(self.req().delete(endpoint.as_str(), form), Scope::empty())
    }

    /// Mark all entries as unread.
    ///
    /// # Canvas API
    /// `DELETE /api/v1/courses/:course_id/discussion_topics/:id/read_all`
    pub fn mark_entries_as_unread(&self, forced: bool) -> (r: Result<Request>)
        requires
            !(self.parent_prefix_view() is Err) ==> self.requester is Some,
        ensures
            (self.parent_prefix_view() is Err) ==> (r matches Err(e) && is_bad_request(e, self.parent_prefix_view()->Err_0)),
            !(self.parent_prefix_view() is Err) ==> self.requester.unwrap().sends_scoped(
                r,
                Method::Delete,
                self.parent_prefix_view()->Ok_0 + "/discussion_topics/"@ + dec(self.id as nat) + "/read_all"@,
                PayloadView::Query(seq![]),
                Scope::none(),
            ),
    {
        let parent_prefix_value = match self.parent_prefix() {
            Ok(v) => v,
            Err(e) => return Err(e),
        };
        let mut endpoint = String::new();
        endpoint.append(parent_prefix_value.as_str());
        endpoint.append("/discussion_topics/");
        push_u64(&mut endpoint, self.id);
        endpoint.append("/read_all");
        assert(endpoint@ =~= self.parent_prefix_view()->Ok_0 + "/discussion_topics/"@ + dec(self.id as nat) + "/read_all"@);
        let form: Vec<(String, String)> = Vec::new();
        assert(pairs_view(form@) =~= seq![]);
        scoped(self.req().delete(endpoint.as_str(), form), Scope::empty())
    }

    /// Subscribe to this topic.
    ///
    /// # Canvas API
    /// `PUT /api/v1/courses/:course_id/discussion_topics/:id/subscribed`
    pub fn subscribe(&self) -> (r: Result<Request>)
        requires
            !(self.parent_prefix_view() is Err) ==> self.requester is Some,
        ensures
            (self.parent_prefix_view() is Err) ==> (r matches Err(e) && is_bad_request(e, self.parent_prefix_view()->Err_0)),
            !(self.parent_prefix_view() is Err) ==> self.requester.unwrap().sends_scoped(
                r,
                Method::Put,
                self.parent_prefix_view()->Ok_0 + "/discussion_topics/"@ + dec(self.id as nat) + "/subscribed"@,
                PayloadView::Form(seq![]),
                Scope::none(),
            ),
    {
        let parent_prefix_value = match self.parent_prefix() {
            Ok(v) => v,
            Err(e) => return Err(e),
        };
        let mut endpoint = String::new();
        endpoint.append(parent_prefix_value.as_str());
        endpoint.append("/discussion_topics/");
        push_u64(&mut endpoint, self.id);
        endpoint.append("/subscribed");
        assert(endpoint@ =~= self.parent_prefix_view()->Ok_0 + "/discussion_topics/"@ + dec(self.id as nat) + "/subscribed"@);
        let form: Vec<(String, String)> = Vec::new();
        assert(pairs_view(form@) =~= seq![]);
        scoped(self.req().put(endpoint.as_str(), form), Scope::empty())
    }

    /// Unsubscribe from this topic.
    ///
    /// # Canvas API
    /// `DELETE /api/v1/courses/:course_id/discussion_topics/:id/subscribed`
    pub fn unsubscribe(&self) -> (r: Result<Request>)
        requires
            !(self.parent_prefix_view() is Err) ==> self.requester is Some,
        ensures
            (self.parent_prefix_view() is Err) ==> (r matches Err(e) && is_bad_request(e, self.parent_prefix_view()->Err_0)),
            !(self.parent_prefix_view() is Err) ==> self.requester.unwrap().sends_scoped(
                r,
                Method::Delete,
                self.parent_prefix_view()->Ok_0 + "/discussion_topics/"@ + dec(self.id as nat) + "/subscribed"@,
                PayloadView::Query(seq![]),
                Scope::none(),
            ),
    {
        let parent_prefix_value = match self.parent_prefix() {
            Ok(v) => v,
            Err(e) => return Err(e),
        };
        let mut endpoint = String::new();
        endpoint.append(parent_prefix_value.as_str());
        endpoint.append("/discussion_topics/");
        push_u64(&mut endpoint, self.id);
        endpoint.append("/subscribed");
        assert(endpoint@ =~= self.parent_prefix_view()->Ok_0 + "/discussion_topics/"@ + dec(self.id as nat) + "/subscribed"@);
        let form: Vec<(String, String)> = Vec::new();
        assert(pairs_view(form@) =~= seq![]);
        scoped(self.req().delete(endpoint.as_str(), form), Scope::empty())
    }
}

/// A single entry (post) within a Canvas discussion topic.
#[derive(Debug)]
pub struct DiscussionEntry {
    pub id: u64,
    pub user_id: Option<u64>,
    pub discussion_id: Option<u64>,
    pub parent_id: Option<u64>,
    pub message: Option<String>,
    /// A time, as RFC 3339 text.
    pub created_at: Option<String>,
    /// A time, as RFC 3339 text.
    pub updated_at: Option<String>,
    pub requester: Option<Arc<Requester>>,
    pub course_id: Option<u64>,
    pub group_id: Option<u64>,
    pub topic_id: Option<u64>,
}

impl DiscussionEntry {
    /// Takes in this DiscussionEntry as fetched: it keeps `requester` for its own calls,
    /// and takes `course_id`, `group_id`, `topic_id` from the scope where the scope sets them.
    pub fn adopt(&mut self, requester: Arc<Requester>, scope: &Scope)
        ensures
            final(self).requester == Some(requester),
            final(self).course_id == (match scope.course_id {
                Some(v) => v,
                None => old(self).course_id,
            }),
            final(self).group_id == (match scope.group_id {
                Some(v) => v,
                None => old(self).group_id,
            }),
            final(self).topic_id == (match scope.topic_id {
                Some(v) => v,
                None => old(self).topic_id,
            }),
            final(self).id == old(self).id,
            final(self).user_id == old(self).user_id,
            final(self).discussion_id == old(self).discussion_id,
            final(self).parent_id == old(self).parent_id,
            final(self).message == old(self).message,
            final(self).created_at == old(self).created_at,
            final(self).updated_at == old(self).updated_at,
    {
        self.requester = Some(requester);
        if let Some(v) = scope.course_id {
            self.course_id = v;
        }
        if let Some(v) = scope.group_id {
            self.group_id = v;
        }
        if let Some(v) = scope.topic_id {
            self.topic_id = v;
        }
    }

    fn req(&self) -> (r: &Arc<Requester>)
        requires
            self.requester is Some,
        ensures
            *r == self.requester.unwrap(),
    {
        self.requester.as_ref().unwrap()
    }

    /// Update this entry's message.
    ///
    /// # Canvas API
    /// `PUT /api/v1/courses/:course_id/discussion_topics/:topic_id/entries/:id`
    pub fn update(&self, message: &str) -> (r: Result<Request>)
        requires
            !(self.parent_prefix_view() is Err) && !(self.topic_id is None) ==> self.requester is Some,
        ensures
            (self.parent_prefix_view() is Err) ==> (r matches Err(e) && is_bad_request(e, self.parent_prefix_view()->Err_0)),
            !(self.parent_prefix_view() is Err) && (self.topic_id is None) ==> (r matches Err(e) && is_bad_request(e, "DiscussionEntry has no topic_id"@)),
            !(self.parent_prefix_view() is Err) && !(self.topic_id is None) ==> self.requester.unwrap().sends_scoped(
                r,
                Method::Put,
                self.parent_prefix_view()->Ok_0 + "/discussion_topics/"@ + dec(self.topic_id.unwrap() as nat) + "/entries/"@ + dec(self.id as nat),
                PayloadView::Form(seq![("message"@, message@)]),
                Scope { course_id: Some(self.course_id), group_id: Some(self.group_id), topic_id: Some(self.topic_id), ..Scope::none() },
            ),
    {
        let parent_prefix_value = match self.parent_prefix() {
            Ok(v) => v,
            Err(e) => return Err(e),
        };
        if self.topic_id.is_none() {
            return Err(bad_request("DiscussionEntry has no topic_id"));
        }
        let mut endpoint = String::new();
        endpoint.append(parent_prefix_value.as_str());
        endpoint.append("/discussion_topics/");
        push_u64(&mut endpoint, self.topic_id.unwrap());
        endpoint.append("/entries/");
        push_u64(&mut endpoint, self.id);
        assert(endpoint@ =~= self.parent_prefix_view()->Ok_0 + "/discussion_topics/"@ + dec(self.topic_id.unwrap() as nat) + "/entries/"@ + dec(self.id as nat));
        let form: Vec<(String, String)> = vec![("message".to_owned(), message.to_owned())];
        assert(pairs_view(form@) =~= seq![("message"@, message@)]);
        scoped(self.req().put(endpoint.as_str(), form), Scope { course_id: Some(self.course_id), group_id: Some(self.group_id), topic_id: Some(self.topic_id), ..Scope::empty() })
    }

    /// Delete this entry.
    ///
    /// # Canvas API
    /// `DELETE /api/v1/courses/:course_id/discussion_topics/:topic_id/entries/:id`
    pub fn delete(&self) -> (r: Result<Request>)
        requires
            !(self.parent_prefix_view() is Err) && !(self.topic_id is None) ==> self.requester is Some,
        ensures
            (self.parent_prefix_view() is Err) ==> (r matches Err(e) && is_bad_request(e, self.parent_prefix_view()->Err_0)),
            !(self.parent_prefix_view() is Err) && (self.topic_id is None) ==> (r matches Err(e) && is_bad_request(e, "DiscussionEntry has no topic_id"@)),
            !(self.parent_prefix_view() is Err) && !(self.topic_id is None) ==> self.requester.unwrap().sends_scoped(
                r,
                Method::Delete,
                self.parent_prefix_view()->Ok_0 + "/discussion_topics/"@ + dec(self.topic_id.unwrap() as nat) + "/entries/"@ + dec(self.id as nat),
                PayloadView::Query(seq![]),
                Scope::none(),
            ),
    {
        let parent_prefix_value = match self.parent_prefix() {
            Ok(v) => v,
            Err(e) => return Err(e),
        };
        if self.topic_id.is_none() {
            return Err(bad_request("DiscussionEntry has no topic_id"));
        }
        let mut endpoint = String::new();
        endpoint.append(parent_prefix_value.as_str());
        endpoint.append("/discussion_topics/");
        push_u64(&mut endpoint, self.topic_id.unwrap());
        endpoint.append("/entries/");
        push_u64(&mut endpoint, self.id);
        assert(endpoint@ =~= self.parent_prefix_view()->Ok_0 + "/discussion_topics/"@ + dec(self.topic_id.unwrap() as nat) + "/entries/"@ + dec(self.id as nat));
        let form: Vec<(String, String)> = Vec::new();
        assert(pairs_view(form@) =~= seq![]);
        scoped(self.req().delete(endpoint.as_str(), form), Scope::empty())
    }

    /// Post a reply to this entry.
    ///
    /// # Canvas API
    /// `POST /api/v1/courses/:course_id/discussion_topics/:topic_id/entries/:id/replies`
    pub fn post_reply(&self, message: &str) -> (r: Result<Request>)
        requires
            !(self.parent_prefix_view() is Err) && !(self.topic_id is None) ==> self.requester is Some,
        ensures
            (self.parent_prefix_view() is Err) ==> (r matches Err(e) && is_bad_request(e, self.parent_prefix_view()->Err_0)),
            !(self.parent_prefix_view() is Err) && (self.topic_id is None) ==> (r matches Err(e) && is_bad_request(e, "DiscussionEntry has no topic_id"@)),
            !(self.parent_prefix_view() is Err) && !(self.topic_id is None) ==> self.requester.unwrap().sends_scoped(
                r,
                Method::Post,
                self.parent_prefix_view()->Ok_0 + "/discussion_topics/"@ + dec(self.topic_id.unwrap() as nat) + "/entries/"@ + dec(self.id as nat) + "/replies"@,
                PayloadView::Form(seq![("message"@, message@)]),
                Scope { course_id: Some(self.course_id), group_id: Some(self.group_id), topic_id: Some(self.topic_id), ..Scope::none() },
            ),
    {
        let parent_prefix_value = match self.parent_prefix() {
            Ok(v) => v,
            Err(e) => return Err(e),
        };
        if self.topic_id.is_none() {
            return Err(bad_request("DiscussionEntry has no topic_id"));
        }
        let mut endpoint = String::new();
        endpoint.append(parent_prefix_value.as_str());
        endpoint.append("/discussion_topics/");
        push_u64(&mut endpoint, self.topic_id.unwrap());
        endpoint.append("/entries/");
        push_u64(&mut endpoint, self.id);
        endpoint.append("/replies");
        assert(endpoint@ =~= self.parent_prefix_view()->Ok_0 + "/discussion_topics/"@ + dec(self.topic_id.unwrap() as nat) + "/entries/"@ + dec(self.id as nat) + "/replies"@);
        let form: Vec<(String, String)> = vec![("message".to_owned(), message.to_owned())];
        assert(pairs_view(form@) =~= seq![("message"@, message@)]);
        scoped(self.req().post(endpoint.as_str(), form), Scope { course_id: Some(self.course_id), group_id: Some(self.group_id), topic_id: Some(self.topic_id), ..Scope::empty() })
    }

    /// Mark this entry as read.
    ///
    /// # Canvas API
    /// `PUT /api/v1/courses/:course_id/discussion_topics/:topic_id/entries/:id/read`
    pub fn mark_as_read(&self) -> (r: Result<Request>)
        requires
            !(self.parent_prefix_view() is Err) && !(self.topic_id is None) ==> self.requester is Some,
        ensures
            (self.parent_prefix_view() is Err) ==> (r matches Err(e) && is_bad_request(e, self.parent_prefix_view()->Err_0)),
            !(self.parent_prefix_view() is Err) && (self.topic_id is None) ==> (r matches Err(e) && is_bad_request(e, "DiscussionEntry has no topic_id"@)),
            !(self.parent_prefix_view() is Err) && !(self.topic_id is None) ==> self.requester.unwrap().sends_scoped(
                r,
                Method::Put,
                self.parent_prefix_view()->Ok_0 + "/discussion_topics/"@ + dec(self.topic_id.unwrap() as nat) + "/entries/"@ + dec(self.id as nat) + "/read"@,
                PayloadView::Form(seq![]),
                Scope::none(),
            ),
    {
        let parent_prefix_value = match self.parent_prefix() {
            Ok(v) => v,
            Err(e) => return Err(e),
        };
        if self.topic_id.is_none() {
            return Err(bad_request("DiscussionEntry has no topic_id"));
        }
        let mut endpoint = String::new();
        endpoint.append(parent_prefix_value.as_str());
        endpoint.append("/discussion_topics/");
        push_u64(&mut endpoint, self.topic_id.unwrap());
        endpoint.append("/entries/");
        push_u64(&mut endpoint, self.id);
        endpoint.append("/read");
        assert(endpoint@ =~= self.parent_prefix_view()->Ok_0 + "/discussion_topics/"@ + dec(self.topic_id.unwrap() as nat) + "/entries/"@ + dec(self.id as nat) + "/read"@);
        let form: Vec<(String, String)> = Vec::new();
        assert(pairs_view(form@) =~= seq![]);
        scoped(self.req().put(endpoint.as_str(), form), Scope::empty())
    }

    /// Mark this entry as unread.
    ///
    /// # Canvas API
    /// `DELETE /api/v1/courses/:course_id/discussion_topics/:topic_id/entries/:id/read`
    pub fn mark_as_unread(&self) -> (r: Result<Request>)
        requires
            !(self.parent_prefix_view() is Err) && !(self.topic_id is None) ==> self.requester is Some,
        ensures
            (self.parent_prefix_view() is Err) ==> (r matches Err(e) && is_bad_request(e, self.parent_prefix_view()->Err_0)),
            !(self.parent_prefix_view() is Err) && (self.topic_id is None) ==> (r matches Err(e) && is_bad_request(e, "DiscussionEntry has no topic_id"@)),
            !(self.parent_prefix_view() is Err) && !(self.topic_id is None) ==> self.requester.unwrap().sends_scoped(
                r,
                Method::Delete,
                self.parent_prefix_view()->Ok_0 + "/discussion_topics/"@ + dec(self.topic_id.unwrap() as nat) + "/entries/"@ + dec(self.id as nat) + "/read"@,
                PayloadView::Query(seq![]),
                Scope::none(),
            ),
    {
        let parent_prefix_value = match self.parent_prefix() {
            Ok(v) => v,
            Err(e) => return Err(e),
        };
        if self.topic_id.is_none() {
            return Err(bad_request("DiscussionEntry has no topic_id"));
        }
        let mut endpoint = String::new();
        endpoint.append(parent_prefix_value.as_str());
        endpoint.append("/discussion_topics/");
        push_u64(&mut endpoint, self.topic_id.unwrap());
        endpoint.append("/entries/");
        push_u64(&mut endpoint, self.id);
        endpoint.append("/read");
        assert(endpoint@ =~= self.parent_prefix_view()->Ok_0 + "/discussion_topics/"@ + dec(self.topic_id.unwrap() as nat) + "/entries/"@ + dec(self.id as nat) + "/read"@);
        let form: Vec<(String, String)> = Vec::new();
        assert(pairs_view(form@) =~= seq![]);
        scoped(self.req().delete(endpoint.as_str(), form), Scope::empty())
    }
}

impl DiscussionTopic {
    /// The path of the course or group this belongs to, or the message of the
    /// error when it knows neither.
    pub open spec fn parent_prefix_view(&self) -> core::result::Result<Seq<char>, Seq<char>> {
        match or_id_spec(self.course_id, self.course_id_ctx) {
            Some(id) => Ok("courses/"@ + dec(id as nat)),
            None => match self.group_id {
                Some(id) => Ok("groups/"@ + dec(id as nat)),
                None => Err("DiscussionTopic has no course_id or group_id"@),
            },
        }
    }

    fn parent_prefix(&self) -> (r: Result<String>)
        ensures
            match self.parent_prefix_view() {
                Ok(p) => r matches Ok(s) && s@ == p,
                Err(m) => r matches Err(e) && is_bad_request(e, m),
            },
    {
        match or_id(self.course_id, self.course_id_ctx) {
            Some(id) => {
                let mut s = "courses/".to_owned();
                push_u64(&mut s, id);
                Ok(s)
            },
            None => match self.group_id {
                Some(id) => {
                    let mut s = "groups/".to_owned();
                    push_u64(&mut s, id);
                    Ok(s)
                },
                None => Err(bad_request("DiscussionTopic has no course_id or group_id")),
            },
        }
    }
}

impl DiscussionEntry {
    /// The path of the course or group this belongs to, or the message of the
    /// error when it knows neither.
    pub open spec fn parent_prefix_view(&self) -> core::result::Result<Seq<char>, Seq<char>> {
        match self.course_id {
            Some(id) => Ok("courses/"@ + dec(id as nat)),
            None => match self.group_id {
                Some(id) => Ok("groups/"@ + dec(id as nat)),
                None => Err("DiscussionEntry has no course_id or group_id"@),
            },
        }
    }

    fn parent_prefix(&self) -> (r: Result<String>)
        ensures
            match self.parent_prefix_view() {
                Ok(p) => r matches Ok(s) && s@ == p,
                Err(m) => r matches Err(e) && is_bad_request(e, m),
            },
    {
        match self.course_id {
            Some(id) => {
                let mut s = "courses/".to_owned();
                push_u64(&mut s, id);
                Ok(s)
            },
            None => match self.group_id {
                Some(id) => {
                    let mut s = "groups/".to_owned();
                    push_u64(&mut s, id);
                    Ok(s)
                },
                None => Err(bad_request("DiscussionEntry has no course_id or group_id")),
            },
        }
    }
}

/// The path of the course or group that entries are listed under: the course
/// when there is one, else the group, else nothing.
pub open spec fn listing_prefix(course_id: Option<u64>, group_id: Option<u64>) -> Seq<char> {
    match course_id {
        Some(id) => "courses/"@ + dec(id as nat),
        None => match group_id {
            Some(id) => "groups/"@ + dec(id as nat),
            None => seq![],
        },
    }
}

fn listing_prefix_text(course_id: Option<u64>, group_id: Option<u64>) -> (s: String)
    ensures
        s@ == listing_prefix(course_id, group_id),
{
    match course_id {
        Some(id) => {
            let mut s = "courses/".to_owned();
            push_u64(&mut s, id);
            s
        },
        None => match group_id {
            Some(id) => {
                let mut s = "groups/".to_owned();
                push_u64(&mut s, id);
                s
            },
            None => String::new(),
        },
    }
}

impl DiscussionTopic {
    /// Stream all top-level entries of this topic. The entries take the topic's
    /// course, group and id.
    ///
    /// # Canvas API
    /// `GET /api/v1/courses/:course_id/discussion_topics/:id/entries`
    pub fn get_topic_entries(&self) -> (s: PageStream<DiscussionEntry>)
        requires
            self.requester is Some,
        ensures
            lists(
                s,
                *self.requester.unwrap(),
                self.requester.unwrap().base(),
                listing_prefix(or_id_spec(self.course_id, self.course_id_ctx), self.group_id)
                    + "/discussion_topics/"@ + dec(self.id as nat) + "/entries"@,
                seq![],
                self.entry_scope(),
            ),
    {
        let course_id = or_id(self.course_id, self.course_id_ctx);
        let mut endpoint = listing_prefix_text(course_id, self.group_id);
        endpoint.append("/discussion_topics/");
        push_u64(&mut endpoint, self.id);
        endpoint.append("/entries");
        let form: Vec<(String, String)> = Vec::new();
        assert(pairs_view(form@) =~= seq![]);
        PageStream::new(share(self.req()), endpoint.as_str(), form).with_scope(
            Scope {
                course_id: Some(course_id),
                group_id: Some(self.group_id),
                topic_id: Some(Some(self.id)),
                ..Scope::empty()
            },
        )
    }

    /// Mark all entries as read. Canvas ignores `forced`; the call carries no
    /// parameters.
    ///
    /// # Canvas API
    /// `PUT /api/v1/courses/:course_id/discussion_topics/:id/read_all`
    pub fn mark_entries_as_read(&self, forced: bool) -> (r: Result<Request>)
        requires
            self.parent_prefix_view() is Ok ==> self.requester is Some,
        ensures
            (self.parent_prefix_view() is Err) ==> (r matches Err(e) && is_bad_request(
                e,
                self.parent_prefix_view()->Err_0,
            )),
            (self.parent_prefix_view() is Ok) ==> self.requester.unwrap().sends_scoped(
                r,
                Method::Put,
                self.parent_prefix_view()->Ok_0 + "/discussion_topics/"@ + dec(self.id as nat) + "/read_all"@,
                PayloadView::Form(seq![]),
                Scope::none(),
            ),
    {
        let prefix = match self.parent_prefix() {
            Ok(v) => v,
            Err(e) => return Err(e),
        };
        let mut endpoint = prefix;
        endpoint.append("/discussion_topics/");
        push_u64(&mut endpoint, self.id);
        endpoint.append("/read_all");
        let form: Vec<(String, String)> = Vec::new();
        assert(pairs_view(form@) =~= seq![]);
        scoped(self.req().put(endpoint.as_str(), form), Scope::empty())
    }
}

impl DiscussionEntry {
    /// Stream all replies to this entry. The replies take the entry's course,
    /// group and topic (`0` when it has none).
    ///
    /// # Canvas API
    /// `GET /api/v1/courses/:course_id/discussion_topics/:topic_id/entries/:id/replies`
    pub fn get_replies(&self) -> (s: PageStream<DiscussionEntry>)
        requires
            self.requester is Some,
        ensures
            lists(
                s,
                *self.requester.unwrap(),
                self.requester.unwrap().base(),
                listing_prefix(self.course_id, self.group_id) + "/discussion_topics/"@ + dec(
                    id_or_spec(self.topic_id, 0) as nat,
                ) + "/entries/"@ + dec(self.id as nat) + "/replies"@,
                seq![],
                Scope {
                    course_id: Some(self.course_id),
                    group_id: Some(self.group_id),
                    topic_id: Some(Some(id_or_spec(self.topic_id, 0))),
                    ..Scope::none()
                },
            ),
    {
        let topic_id = id_or(self.topic_id, 0);
        let mut endpoint = listing_prefix_text(self.course_id, self.group_id);
        endpoint.append("/discussion_topics/");
        push_u64(&mut endpoint, topic_id);
        endpoint.append("/entries/");
        push_u64(&mut endpoint, self.id);
        endpoint.append("/replies");
        let form: Vec<(String, String)> = Vec::new();
        assert(pairs_view(form@) =~= seq![]);
        PageStream::new(share(self.req()), endpoint.as_str(), form).with_scope(
            Scope {
                course_id: Some(self.course_id),
                group_id: Some(self.group_id),
                topic_id: Some(Some(topic_id)),
                ..Scope::empty()
            },
        )
    }

    /// Rate this entry: `1` to like it, `0` to take the like back. Any other
    /// rating is refused, then an entry without course or group, then one
    /// without topic, each without calling Canvas.
    ///
    /// # Canvas API
    /// `POST /api/v1/courses/:course_id/discussion_topics/:topic_id/entries/:id/rating`
    pub fn rate(&self, rating: u8) -> (r: Result<Request>)
        requires
            rating <= 1 && self.parent_prefix_view() is Ok && self.topic_id is Some ==> self.requester is Some,
        ensures
            rating > 1 ==> (r matches Err(e) && is_bad_request(e, "rating must be 0 or 1"@)),
            rating <= 1 && self.parent_prefix_view() is Err ==> (r matches Err(e) && is_bad_request(
                e,
                self.parent_prefix_view()->Err_0,
            )),
            rating <= 1 && self.parent_prefix_view() is Ok && self.topic_id is None ==> (r matches Err(e)
                && is_bad_request(e, "DiscussionEntry has no topic_id"@)),
            rating <= 1 && self.parent_prefix_view() is Ok && self.topic_id is Some
                ==> self.requester.unwrap().sends_scoped(
                r,
                Method::Post,
                self.parent_prefix_view()->Ok_0 + "/discussion_topics/"@ + dec(self.topic_id.unwrap() as nat)
                    + "/entries/"@ + dec(self.id as nat) + "/rating"@,
                PayloadView::Form(seq![("rating"@, dec(rating as nat))]),
                Scope::none(),
            ),
    {
        if rating > 1 {
            return Err(bad_request("rating must be 0 or 1"));
        }
        let prefix = match self.parent_prefix() {
            Ok(v) => v,
            Err(e) => return Err(e),
        };
        let topic_id = match self.topic_id {
            Some(t) => t,
            None => return Err(bad_request("DiscussionEntry has no topic_id")),
        };
        let mut endpoint = prefix;
        endpoint.append("/discussion_topics/");
        push_u64(&mut endpoint, topic_id);
        endpoint.append("/entries/");
        push_u64(&mut endpoint, self.id);
        endpoint.append("/rating");
        let form: Vec<(String, String)> = vec![("rating".to_owned(), u64_to_text(rating as u64))];
        assert(pairs_view(form@) =~= seq![("rating"@, dec(rating as nat))]);
        scoped(self.req().post(endpoint.as_str(), form), Scope::empty())
    }
}

impl DiscussionTopic {
    /// The context that the entries of this topic take when they are listed
    /// ([`Self::get_topic_entries`]), posted ([`Self::post_entry`]) or fetched
    /// by id ([`Self::get_entries`]): the topic's course (its own, else the one
    /// it was fetched through), its group, and its id.
    pub open spec fn entry_scope(&self) -> Scope {
        Scope {
            course_id: Some(or_id_spec(self.course_id, self.course_id_ctx)),
            group_id: Some(self.group_id),
            topic_id: Some(Some(self.id)),
            ..Scope::none()
        }
    }
}

impl DiscussionEntry {
    /// `self` is `before` taken in ([`Self::adopt`]) with the scope `s`, as far
    /// as the ids of its context go.
    pub open spec fn took_scope(&self, before: DiscussionEntry, s: Scope) -> bool {
        &&& self.course_id == (match s.course_id {
            Some(v) => v,
            None => before.course_id,
        })
        &&& self.group_id == (match s.group_id {
            Some(v) => v,
            None => before.group_id,
        })
        &&& self.topic_id == (match s.topic_id {
            Some(v) => v,
            None => before.topic_id,
        })
    }
}

/// An entry that Canvas answers a topic's listing, post or fetch by id with
/// takes the topic's context: its topic is the topic, its course and group are
/// the topic's, and so its own calls address the same course or group as the
/// topic's calls (`courses/<id>` or `groups/<id>`), whatever the entry held
/// before. The three calls give their requests exactly the scope
/// [`DiscussionTopic::entry_scope`].
pub proof fn lemma_entries_take_topic_context(topic: DiscussionTopic, before: DiscussionEntry, after: DiscussionEntry)
    requires
        after.took_scope(before, topic.entry_scope()),
    ensures
        topic.entry_scope() == (Scope {
            course_id: Some(or_id_spec(topic.course_id, topic.course_id_ctx)),
            group_id: Some(topic.group_id),
            topic_id: Some(Some(topic.id)),
            ..Scope::none()
        }),
        after.topic_id == Some(topic.id),
        after.course_id == or_id_spec(topic.course_id, topic.course_id_ctx),
        after.group_id == topic.group_id,
        after.parent_prefix_view() is Ok <==> topic.parent_prefix_view() is Ok,
        after.parent_prefix_view() is Ok ==> after.parent_prefix_view()->Ok_0 == topic.parent_prefix_view()->Ok_0,
{
}

} // verus!
