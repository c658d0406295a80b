use vstd::prelude::*;
use std::sync::Arc;
use crate::error::{bad_request, is_bad_request, Result};
use crate::http::{scoped, share, Method, PayloadView, Request, Requester, Scope};
use crate::json::{get, JsonValue};
use crate::pagination::{lists, PageStream};
use crate::params::{
    add_bool, add_text, bool_of, concat_upto, field, lemma_part_in_concat, member_key, pairs_view,
    text_of,
};
use crate::text::{bool_text, dec, push_u64};
use crate::resources::course::Course;
use crate::resources::group::Group;

verus! {

/// Parameters for creating or updating a Canvas wiki page.
#[derive(Debug, Default)]
pub struct UpdatePageParams {
    pub title: Option<String>,
    pub body: Option<String>,
    pub published: Option<bool>,
    pub editing_roles: Option<String>,
    pub front_page: Option<bool>,
}

impl UpdatePageParams {
    /// The parameters these settings give under `key`: `key[member]` for each
    /// member that is set, in the order of the member names.
    pub open spec fn form_view(self, key: Seq<char>) -> Seq<(Seq<char>, Seq<char>)> {
        field(key, "body"@, text_of(self.body))
        + field(key, "editing_roles"@, text_of(self.editing_roles))
        + field(key, "front_page"@, bool_of(self.front_page))
        + field(key, "published"@, bool_of(self.published))
        + field(key, "title"@, text_of(self.title))
    }

    /// The parameters these settings give under `key` (what flattening
    /// `{key: settings}` gives).
    pub fn to_form(&self, key: &str) -> (r: Vec<(String, String)>)
        ensures
            pairs_view(r@) == self.form_view(key@),
    {
        let mut out: Vec<(String, String)> = Vec::new();
        add_text(&mut out, key, "body", &self.body);
        add_text(&mut out, key, "editing_roles", &self.editing_roles);
        add_bool(&mut out, key, "front_page", self.front_page);
        add_bool(&mut out, key, "published", self.published);
        add_text(&mut out, key, "title", &self.title);
        assert(pairs_view(out@) =~= self.form_view(key@));
        out
    }

    /// Every member of these settings that is set is sent under `key[member]`,
    /// with its text (a boolean as `true`/`false`, a number in decimal).
    pub proof fn lemma_form_sends_members(self, key: Seq<char>)
        ensures
            self.body is Some ==> self.form_view(key).contains((member_key(key, "body"@), self.body.unwrap()@)),
            self.editing_roles is Some ==> self.form_view(key).contains((member_key(key, "editing_roles"@), self.editing_roles.unwrap()@)),
            self.front_page is Some ==> self.form_view(key).contains((member_key(key, "front_page"@), bool_text(self.front_page.unwrap()))),
            self.published is Some ==> self.form_view(key).contains((member_key(key, "published"@), bool_text(self.published.unwrap()))),
            self.title is Some ==> self.form_view(key).contains((member_key(key, "title"@), self.title.unwrap()@)),
    {
        let parts = seq![
            field(key, "body"@, text_of(self.body)),
            field(key, "editing_roles"@, text_of(self.editing_roles)),
            field(key, "front_page"@, bool_of(self.front_page)),
            field(key, "published"@, bool_of(self.published)),
            field(key, "title"@, text_of(self.title)),
        ];
        assert(self.form_view(key) == concat_upto(parts, 5)) by {
            assert(concat_upto(parts, 0) == Seq::<(Seq<char>, Seq<char>)>::empty());
            assert(concat_upto(parts, 1) =~= parts[0]);
            assert(concat_upto(parts, 2) == concat_upto(parts, 1) + parts[1]);
            assert(concat_upto(parts, 3) == concat_upto(parts, 2) + parts[2]);
            assert(concat_upto(parts, 4) == concat_upto(parts, 3) + parts[3]);
            assert(concat_upto(parts, 5) == concat_upto(parts, 4) + parts[4]);
        }
        assert(self.body is Some ==> self.form_view(key).contains((member_key(key, "body"@), self.body.unwrap()@))) by {
            if self.body is Some {
                assert(parts[0][0] == (member_key(key, "body"@), self.body.unwrap()@));
                lemma_part_in_concat(parts, 5, 0, (member_key(key, "body"@), self.body.unwrap()@));
            }
        }
        assert(self.editing_roles is Some ==> self.form_view(key).contains((member_key(key, "editing_roles"@), self.editing_roles.unwrap()@))) by {
            if self.editing_roles is Some {
                assert(parts[1][0] == (member_key(key, "editing_roles"@), self.editing_roles.unwrap()@));
                lemma_part_in_concat(parts, 5, 1, (member_key(key, "editing_roles"@), self.editing_roles.unwrap()@));
            }
        }
        assert(self.front_page is Some ==> self.form_view(key).contains((member_key(key, "front_page"@), bool_text(self.front_page.unwrap())))) by {
            if self.front_page is Some {
                assert(parts[2][0] == (member_key(key, "front_page"@), bool_text(self.front_page.unwrap())));
                lemma_part_in_concat(parts, 5, 2, (member_key(key, "front_page"@), bool_text(self.front_page.unwrap())));
            }
        }
        assert(self.published is Some ==> self.form_view(key).contains((member_key(key, "published"@), bool_text(self.published.unwrap())))) by {
            if self.published is Some {
                assert(parts[3][0] == (member_key(key, "published"@), bool_text(self.published.unwrap())));
                lemma_part_in_concat(parts, 5, 3, (member_key(key, "published"@), bool_text(self.published.unwrap())));
            }
        }
        assert(self.title is Some ==> self.form_view(key).contains((member_key(key, "title"@), self.title.unwrap()@))) by {
            if self.title is Some {
                assert(parts[4][0] == (member_key(key, "title"@), self.title.unwrap()@));
                lemma_part_in_concat(parts, 5, 4, (member_key(key, "title"@), self.title.unwrap()@));
            }
        }
    }
}

/// A Canvas wiki page within a course or group.
#[derive(Debug)]
pub struct Page {
    pub page_id: Option<u64>,
    pub url: Option<String>,
    pub title: Option<String>,
    /// A time, as RFC 3339 text.
    pub created_at: Option<String>,
    /// A time, as RFC 3339 text.
    pub updated_at: Option<String>,
    pub hide_from_students: Option<bool>,
    pub editing_roles: Option<String>,
    pub last_edited_by: Option<JsonValue>,
    pub body: Option<String>,
    pub published: Option<bool>,
    pub front_page: Option<bool>,
    pub locked_for_user: Option<bool>,
    pub lock_info: Option<JsonValue>,
    pub lock_explanation: Option<String>,
    pub requester: Option<Arc<Requester>>,
    /// Injected by `Course::get_pages()` / `Course::get_page()`.
    pub course_id: Option<u64>,
    /// Injected by `Group::get_pages()` / `Group::get_page()`.
    pub group_id: Option<u64>,
}

impl Page {
    /// Takes in this Page as fetched: it keeps `requester` for its own calls,
    /// and takes `course_id`, `group_id` from the scope where the scope sets them.
    pub fn adopt(&mut self, requester: Arc<Requester>, scope: &Scope)
        ensures
            final(self).requester == Some(requester),
            final(self).course_id == (match scope.course_id {
                Some(v) => v,
                None => old(self).course_id,
            }),
            final(self).group_id == (match scope.group_id {
                Some(v) => v,
                None => old(self).group_id,
            }),
            final(self).page_id == old(self).page_id,
            final(self).url == old(self).url,
            final(self).title == old(self).title,
            final(self).created_at == old(self).created_at,
            final(self).updated_at == old(self).updated_at,
            final(self).hide_from_students == old(self).hide_from_students,
            final(self).editing_roles == old(self).editing_roles,
            final(self).last_edited_by == old(self).last_edited_by,
            final(self).body == old(self).body,
            final(self).published == old(self).published,
            final(self).front_page == old(self).front_page,
            final(self).locked_for_user == old(self).locked_for_user,
            final(self).lock_info == old(self).lock_info,
            final(self).lock_explanation == old(self).lock_explanation,
    {
        self.requester = Some(requester);
        if let Some(v) = scope.course_id {
            self.course_id = v;
        }
        if let Some(v) = scope.group_id {
            self.group_id = v;
        }
    }

    fn req(&self) -> (r: &Arc<Requester>)
        requires
            self.requester is Some,
        ensures
            *r == self.requester.unwrap(),
    {
        self.requester.as_ref().unwrap()
    }

    /// Fetch the parent Course or Group that owns this page.
    ///
    /// # Canvas API
    /// `GET /api/v1/courses/:id` or `GET /api/v1/groups/:id`
    pub fn get_parent(&self) -> (r: Result<Request>)
        requires
            !(self.parent_prefix_view() is Err) ==> self.requester is Some,
        ensures
            (self.parent_prefix_view() is Err) ==> (r matches Err(e) && is_bad_request(e, self.parent_prefix_view()->Err_0)),
            !(self.parent_prefix_view() is Err) ==> self.requester.unwrap().sends_scoped(
                r,
                Method::Get,
                self.parent_prefix_view()->Ok_0,
                PayloadView::Query(seq![]),
                Scope::none(),
            ),
    {
        let parent_prefix_value = match self.parent_prefix() {
            Ok(v) => v,
            Err(e) => return Err(e),
        };
        let mut endpoint = String::new();
        endpoint.append(parent_prefix_value.as_str());
        assert(endpoint@ =~= (self.parent_prefix_view()->Ok_0));
        let form: Vec<(String, String)> = Vec::new();
        assert(pairs_view(form@) =~= seq![]);
        scoped(self.req().get(endpoint.as_str(), form), Scope::empty())
    }

    /// Update this page's title, body, or settings.
    ///
    /// # Canvas API
    /// `PUT /api/v1/courses/:course_id/pages/:url`
    pub fn edit(&self, params: UpdatePageParams) -> (r: Result<Request>)
        requires
            !(self.parent_prefix_view() is Err) ==> self.requester is Some,
        ensures
            (self.parent_prefix_view() is Err) ==> (r matches Err(e) && is_bad_request(e, self.parent_prefix_view()->Err_0)),
            !(self.parent_prefix_view() is Err) ==> self.requester.unwrap().sends_scoped(
                r,
                Method::Put,
                self.parent_prefix_view()->Ok_0 + "/pages/"@ + self.url_slug_view(),
                PayloadView::Form(params.form_view("wiki_page"@)),
                Scope { course_id: Some(self.course_id), group_id: Some(self.group_id), ..Scope::none() },
            ),
    {
        let parent_prefix_value = match self.parent_prefix() {
            Ok(v) => v,
            Err(e) => return Err(e),
        };
        let url_slug_text = self.url_slug_text();
        let mut endpoint = String::new();
        endpoint.append(parent_prefix_value.as_str());
        endpoint.append("/pages/");
        endpoint.append(url_slug_text.as_str());
        assert(endpoint@ =~= self.parent_prefix_view()->Ok_0 + "/pages/"@ + (self.url_slug_view()));
        let form: Vec<(String, String)> = params.to_form("wiki_page");
        assert(pairs_view(form@) =~= params.form_view("wiki_page"@));
        scoped(self.req().put(endpoint.as_str(), form), Scope { course_id: Some(self.course_id), group_id: Some(self.group_id), ..Scope::empty() })
    }

    /// Delete this page.
    ///
    /// # Canvas API
    /// `DELETE /api/v1/courses/:course_id/pages/:url`
    pub fn delete(&self) -> (r: Result<Request>)
        requires
            !(self.parent_prefix_view() is Err) ==> self.requester is Some,
        ensures
            (self.parent_prefix_view() is Err) ==> (r matches Err(e) && is_bad_request(e, self.parent_prefix_view()->Err_0)),
            !(self.parent_prefix_view() is Err) ==> self.requester.unwrap().sends_scoped(
                r,
                Method::Delete,
                self.parent_prefix_view()->Ok_0 + "/pages/"@ + self.url_slug_view(),
                PayloadView::Query(seq![]),
                Scope { course_id: Some(self.course_id), group_id: Some(self.group_id), ..Scope::none() },
            ),
    {
        let parent_prefix_value = match self.parent_prefix() {
            Ok(v) => v,
            Err(e) => return Err(e),
        };
        let url_slug_text = self.url_slug_text();
        let mut endpoint = String::new();
        endpoint.append(parent_prefix_value.as_str());
        endpoint.append("/pages/");
        endpoint.append(url_slug_text.as_str());
        assert(endpoint@ =~= self.parent_prefix_view()->Ok_0 + "/pages/"@ + (self.url_slug_view()));
        let form: Vec<(String, String)> = Vec::new();
        assert(pairs_view(form@) =~= seq![]);
        scoped(self.req().delete(endpoint.as_str(), form), Scope { course_id: Some(self.course_id), group_id: Some(self.group_id), ..Scope::empty() })
    }

    /// Fetch a specific revision by revision ID.
    ///
    /// # Canvas API
    /// `GET /api/v1/courses/:course_id/pages/:url/revisions/:revision_id`
    pub fn get_revision_by_id(&self, revision_id: u64) -> (r: Result<Request>)
        requires
            !(self.parent_prefix_view() is Err) ==> self.requester is Some,
        ensures
            (self.parent_prefix_view() is Err) ==> (r matches Err(e) && is_bad_request(e, self.parent_prefix_view()->Err_0)),
            !(self.parent_prefix_view() is Err) ==> self.requester.unwrap().sends_scoped(
                r,
                Method::Get,
                self.parent_prefix_view()->Ok_0 + "/pages/"@ + self.url_slug_view() + "/revisions/"@ + dec(revision_id as nat),
                PayloadView::Query(seq![]),
                Scope { course_id: Some(self.course_id), group_id: Some(self.group_id), ..Scope::none() },
            ),
    {
        let parent_prefix_value = match self.parent_prefix() {
            Ok(v) => v,
            Err(e) => return Err(e),
        };
        let url_slug_text = self.url_slug_text();
        let mut endpoint = String::new();
        endpoint.append(parent_prefix_value.as_str());
        endpoint.append("/pages/");
        endpoint.append(url_slug_text.as_str());
        endpoint.append("/revisions/");
        push_u64(&mut endpoint, revision_id);
        assert(endpoint@ =~= self.parent_prefix_view()->Ok_0 + "/pages/"@ + self.url_slug_view() + "/revisions/"@ + dec(revision_id as nat));
        let form: Vec<(String, String)> = Vec::new();
        assert(pairs_view(form@) =~= seq![]);
        scoped(self.req().get(endpoint.as_str(), form), Scope { course_id: Some(self.course_id), group_id: Some(self.group_id), ..Scope::empty() })
    }

    /// Fetch the most recent revision of this page.
    ///
    /// # Canvas API
    /// `GET /api/v1/courses/:course_id/pages/:url/revisions/latest`
    pub fn show_latest_revision(&self) -> (r: Result<Request>)
        requires
            !(self.parent_prefix_view() is Err) ==> self.requester is Some,
        ensures
            (self.parent_prefix_view() is Err) ==> (r matches Err(e) && is_bad_request(e, self.parent_prefix_view()->Err_0)),
            !(self.parent_prefix_view() is Err) ==> self.requester.unwrap().sends_scoped(
                r,
                Method::Get,
                self.parent_prefix_view()->Ok_0 + "/pages/"@ + self.url_slug_view() + "/revisions/latest"@,
                PayloadView::Query(seq![]),
                Scope { course_id: Some(self.course_id), group_id: Some(self.group_id), ..Scope::none() },
            ),
    {
        let parent_prefix_value = match self.parent_prefix() {
            Ok(v) => v,
            Err(e) => return Err(e),
        };
        let url_slug_text = self.url_slug_text();
        let mut endpoint = String::new();
        endpoint.append(parent_prefix_value.as_str());
        endpoint.append("/pages/");
        endpoint.append(url_slug_text.as_str());
        endpoint.append("/revisions/latest");
        assert(endpoint@ =~= self.parent_prefix_view()->Ok_0 + "/pages/"@ + self.url_slug_view() + "/revisions/latest"@);
        let form: Vec<(String, String)> = Vec::new();
        assert(pairs_view(form@) =~= seq![]);
        scoped(self.req().get(endpoint.as_str(), form), Scope { course_id: Some(self.course_id), group_id: Some(self.group_id), ..Scope::empty() })
    }

    /// Revert this page to a specific revision.
    ///
    /// # Canvas API
    /// `POST /api/v1/courses/:course_id/pages/:url/revisions/:revision_id`
    pub fn revert_to_revision(&self, revision_id: u64) -> (r: Result<Request>)
        requires
            !(self.parent_prefix_view() is Err) ==> self.requester is Some,
        ensures
            (self.parent_prefix_view() is Err) ==> (r matches Err(e) && is_bad_request(e, self.parent_prefix_view()->Err_0)),
            !(self.parent_prefix_view() is Err) ==> self.requester.unwrap().sends_scoped(
                r,
                Method::Post,
                self.parent_prefix_view()->Ok_0 + "/pages/"@ + self.url_slug_view() + "/revisions/"@ + dec(revision_id as nat),
                PayloadView::Form(seq![]),
                Scope { course_id: Some(self.course_id), group_id: Some(self.group_id), ..Scope::none() },
            ),
    {
        let parent_prefix_value = match self.parent_prefix() {
            Ok(v) => v,
            Err(e) => return Err(e),
        };
        let url_slug_text = self.url_slug_text();
        let mut endpoint = String::new();
        endpoint.append(parent_prefix_value.as_str());
        endpoint.append("/pages/");
        endpoint.append(url_slug_text.as_str());
        endpoint.append("/revisions/");
        push_u64(&mut endpoint, revision_id);
        assert(endpoint@ =~= self.parent_prefix_view()->Ok_0 + "/pages/"@ + self.url_slug_view() + "/revisions/"@ + dec(revision_id as nat));
        let form: Vec<(String, String)> = Vec::new();
        assert(pairs_view(form@) =~= seq![]);
        scoped(self.req().post(endpoint.as_str(), form), Scope { course_id: Some(self.course_id), group_id: Some(self.group_id), ..Scope::empty() })
    }
}

/// A historical revision of a Canvas wiki page.
#[derive(Debug)]
pub struct PageRevision {
    pub revision_id: Option<u64>,
    /// A time, as RFC 3339 text.
    pub created_at: Option<String>,
    /// A time, as RFC 3339 text.
    pub updated_at: Option<String>,
    pub latest: Option<bool>,
    pub url: Option<String>,
    pub title: Option<String>,
    pub body: Option<String>,
    pub edited_by: Option<JsonValue>,
    pub requester: Option<Arc<Requester>>,
    pub course_id: Option<u64>,
    pub group_id: Option<u64>,
}

impl PageRevision {
    /// Takes in this PageRevision as fetched: it keeps `requester` for its own calls,
    /// and takes `course_id`, `group_id` from the scope where the scope sets them.
    pub fn adopt(&mut self, requester: Arc<Requester>, scope: &Scope)
        ensures
            final(self).requester == Some(requester),
            final(self).course_id == (match scope.course_id {
                Some(v) => v,
                None => old(self).course_id,
            }),
            final(self).group_id == (match scope.group_id {
                Some(v) => v,
                None => old(self).group_id,
            }),
            final(self).revision_id == old(self).revision_id,
            final(self).created_at == old(self).created_at,
            final(self).updated_at == old(self).updated_at,
            final(self).latest == old(self).latest,
            final(self).url == old(self).url,
            final(self).title == old(self).title,
            final(self).body == old(self).body,
            final(self).edited_by == old(self).edited_by,
    {
        self.requester = Some(requester);
        if let Some(v) = scope.course_id {
            self.course_id = v;
        }
        if let Some(v) = scope.group_id {
            self.group_id = v;
        }
    }

    fn req(&self) -> (r: &Arc<Requester>)
        requires
            self.requester is Some,
        ensures
            *r == self.requester.unwrap(),
    {
        self.requester.as_ref().unwrap()
    }
}

impl Page {
    /// The path of the course or group this belongs to, or the message of the
    /// error when it knows neither.
    pub open spec fn parent_prefix_view(&self) -> core::result::Result<Seq<char>, Seq<char>> {
        match self.course_id {
            Some(id) => Ok("courses/"@ + dec(id as nat)),
            None => match self.group_id {
                Some(id) => Ok("groups/"@ + dec(id as nat)),
                None => Err("Page does not have a course_id or group_id"@),
            },
        }
    }

    fn parent_prefix(&self) -> (r: Result<String>)
        ensures
            match self.parent_prefix_view() {
                Ok(p) => r matches Ok(s) && s@ == p,
                Err(m) => r matches Err(e) && is_bad_request(e, m),
            },
    {
        match self.course_id {
            Some(id) => {
                let mut s = "courses/".to_owned();
                push_u64(&mut s, id);
                Ok(s)
            },
            None => match self.group_id {
                Some(id) => {
                    let mut s = "groups/".to_owned();
                    push_u64(&mut s, id);
                    Ok(s)
                },
                None => Err(bad_request("Page does not have a course_id or group_id")),
            },
        }
    }
}

impl Page {
    /// The page's URL slug, empty when it has none.
    pub open spec fn url_slug_view(&self) -> Seq<char> {
        match self.url {
            Some(u) => u@,
            None => seq![],
        }
    }

    fn url_slug_text(&self) -> (s: String)
        ensures
            s@ == self.url_slug_view(),
    {
        match &self.url {
            Some(u) => u.clone(),
            None => String::new(),
        }
    }
}

impl Page {
    /// Stream all revisions of this page. The revisions take the page's course
    /// and group. A page that knows neither is refused without calling Canvas.
    ///
    /// # Canvas API
    /// `GET /api/v1/courses/:course_id/pages/:url/revisions`
    pub fn get_revisions(&self) -> (r: Result<PageStream<PageRevision>>)
        requires
            self.parent_prefix_view() is Ok ==> self.requester is Some,
        ensures
            self.parent_prefix_view() is Err ==> (r matches Err(e) && is_bad_request(e, self.parent_prefix_view()->Err_0)),
            self.parent_prefix_view() is Ok ==> (r matches Ok(s) && lists(
                s,
                *self.requester.unwrap(),
                self.requester.unwrap().base(),
                self.parent_prefix_view()->Ok_0 + "/pages/"@ + self.url_slug_view() + "/revisions"@,
                seq![],
                Scope { course_id: Some(self.course_id), group_id: Some(self.group_id), ..Scope::none() },
            )),
    {
        let prefix = match self.parent_prefix() {
            Ok(p) => p,
            Err(e) => return Err(e),
        };
        let mut endpoint = prefix;
        endpoint.append("/pages/");
        let slug = self.url_slug_text();
        endpoint.append(slug.as_str());
        endpoint.append("/revisions");
        let form: Vec<(String, String)> = Vec::new();
        assert(pairs_view(form@) =~= seq![]);
        Ok(
            PageStream::new(share(self.req()), endpoint.as_str(), form).with_scope(
                Scope { course_id: Some(self.course_id), group_id: Some(self.group_id), ..Scope::empty() },
            ),
        )
    }
}

} // verus!
