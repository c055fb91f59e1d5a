//! The data records the API's resources are read into and the option
//! values list and mutation calls are configured with. Option values render
//! themselves as query strings or JSON bodies; records decode themselves
//! from JSON values.

use vstd::prelude::*;

pub use crate::errors::{ClientError, FieldErr};

use crate::json::{
    json_text, jv, jv_lookup, jv_members, jv_seq, lemma_jv_members, lemma_jv_members_push,
    lemma_jv_seq, Json, Jv,
};
use crate::errors::Error;
use crate::params::{form_encoded, pairs_insert, Params};
use crate::{SortDirection, State};
use crate::issues::Sort as IssueSort;
use crate::repositories::{
    Affiliation, OrgRepoType, Sort as RepoSort, Visibility as RepoVisibility,
};
use crate::search::SearchIssuesSort;
use crate::hooks::WebHookContentType;

verus! {

/// A label attached to an issue or pull request.
#[derive(Debug, Clone)]
pub struct Label {
    pub url: String,
    pub name: String,
    pub color: String,
}

/// The JSON shape a label is written as.
pub open spec fn label_rep(url: Seq<char>, name: Seq<char>, color: Seq<char>) -> Jv {
    Jv::Obj(
        seq![
            ("url"@, Jv::Str(url)),
            ("name"@, Jv::Str(name)),
            ("color"@, Jv::Str(color)),
        ],
    )
}

/// The label fields a JSON value stands for: an object whose members
/// `url`, `name` and `color` are strings.
pub open spec fn sp_label(v: Jv) -> Option<(Seq<char>, Seq<char>, Seq<char>)> {
    match v {
        Jv::Obj(ms) => match jv_lookup(ms, "url"@) {
            Some(Jv::Str(url)) => match jv_lookup(ms, "name"@) {
                Some(Jv::Str(name)) => match jv_lookup(ms, "color"@) {
                    Some(Jv::Str(color)) => Some((url, name, color)),
                    _ => None,
                },
                _ => None,
            },
            _ => None,
        },
        _ => None,
    }
}

impl Label {
    /// The JSON value this label is written as.
    pub fn to_json(&self) -> (r: Json)
        ensures
            jv(r) == label_rep(self.url@, self.name@, self.color@),
    {
        let mut members: Vec<(String, Json)> = Vec::new();
        members.push((String::from_str("url"), Json::Str(self.url.clone())));
        members.push((String::from_str("name"), Json::Str(self.name.clone())));
        members.push((String::from_str("color"), Json::Str(self.color.clone())));
        proof {
            lemma_jv_members(members@);
            assert(jv_members(members@) =~= seq![
                ("url"@, Jv::Str(self.url@)),
                ("name"@, Jv::Str(self.name@)),
                ("color"@, Jv::Str(self.color@)),
            ]);
        }
        Json::Obj(members)
    }

    /// The JSON text this label is written as.
    pub fn to_json_string(&self) -> (r: String)
        ensures
            r@ == json_text(label_rep(self.url@, self.name@, self.color@)),
    {
        self.to_json().encode()
    }

    /// Decode a label: a value exactly when [`sp_label`] accepts the JSON,
    /// and then one that carries its fields.
    pub fn from_json(j: &Json) -> (r: Option<Label>)
        ensures
            r is Some <==> sp_label(j@) is Some,
            r matches Some(l) ==> sp_label(j@) == Some((l.url@, l.name@, l.color@)),
    {
        match j {
            Json::Obj(_) => {},
            _ => {
                return None;
            },
        }
        let url = match j.get("url") {
            Some(x) => match x.as_str() {
                Some(s) => s.clone(),
                None => {
                    return None;
                },
            },
            None => {
                return None;
            },
        };
        let name = match j.get("name") {
            Some(x) => match x.as_str() {
                Some(s) => s.clone(),
                None => {
                    return None;
                },
            },
            None => {
                return None;
            },
        };
        let color = match j.get("color") {
            Some(x) => match x.as_str() {
                Some(s) => s.clone(),
                None => {
                    return None;
                },
            },
            None => {
                return None;
            },
        };
        Some(Label { url, name, color })
    }
}

/// Decoding the JSON a label writes itself as gives back exactly its
/// fields: round-trip fidelity, field by field.
pub proof fn lemma_label_round_trip(url: Seq<char>, name: Seq<char>, color: Seq<char>)
    ensures
        sp_label(label_rep(url, name, color)) == Some((url, name, color)),
{
    reveal_strlit("url");
    reveal_strlit("name");
    reveal_strlit("color");
    let ms = label_rep(url, name, color)->Obj_0;
    assert(("url"@).len() == 3);
    assert(("name"@).len() == 4);
    assert(("color"@).len() == 5);
    assert("name"@ != "url"@);
    assert("color"@ != "url"@);
    assert("color"@ != "name"@);
    let t1 = ms.drop_first();
    let t2 = t1.drop_first();
    assert(jv_lookup(ms, "url"@) == Some(Jv::Str(url)));
    assert(t1[0] == ("name"@, Jv::Str(name)));
    assert(t2[0] == ("color"@, Jv::Str(color)));
    assert(jv_lookup(t1, "name"@) == Some(Jv::Str(name)));
    assert(jv_lookup(ms, "name"@) == jv_lookup(t1, "name"@));
    assert(jv_lookup(t2, "color"@) == Some(Jv::Str(color)));
    assert(jv_lookup(t1, "color"@) == jv_lookup(t2, "color"@));
    assert(jv_lookup(ms, "color"@) == jv_lookup(t1, "color"@));
}

/// The fields a new label is created with.
#[derive(Debug, Clone)]
pub struct LabelOptions {
    pub name: String,
    pub color: String,
}

impl LabelOptions {
    /// Options that create the label `name` with the colour `color`.
    pub fn new(name: String, color: String) -> (r: LabelOptions)
        ensures
            r.name == name,
            r.color == color,
    {
        LabelOptions { name, color }
    }

    /// The JSON body these options are sent as.
    pub open spec fn json_rep(self) -> Jv {
        Jv::Obj(seq![("name"@, Jv::Str(self.name@)), ("color"@, Jv::Str(self.color@))])
    }

    /// The JSON value these options are sent as.
    pub fn to_json(&self) -> (r: Json)
        ensures
            jv(r) == self.json_rep(),
    {
        let mut members: Vec<(String, Json)> = Vec::new();
        members.push((String::from_str("name"), Json::Str(self.name.clone())));
        members.push((String::from_str("color"), Json::Str(self.color.clone())));
        proof {
            lemma_jv_members(members@);
            assert(jv_members(members@) =~= seq![
                ("name"@, Jv::Str(self.name@)),
                ("color"@, Jv::Str(self.color@)),
            ]);
        }
        Json::Obj(members)
    }

    /// The JSON text these options are sent as.
    pub fn to_json_string(&self) -> (r: String)
        ensures
            r@ == json_text(self.json_rep()),
    {
        self.to_json().encode()
    }
}

/// Options of an issue list call.
pub struct IssueListOptions {
    params: Params,
}

impl View for IssueListOptions {
    type V = Seq<(Seq<char>, Seq<char>)>;

    closed spec fn view(&self) -> Seq<(Seq<char>, Seq<char>)> {
        self.params@
    }
}

impl IssueListOptions {
    /// A builder for these options.
    pub fn builder() -> (r: IssueListOptionsBuilder)
        ensures
            r@ == Seq::<(Seq<char>, Seq<char>)>::empty(),
    {
        IssueListOptionsBuilder::new()
    }

    /// Render the options as a query string; nothing when none are set.
    pub fn serialize(&self) -> (r: Option<String>)
        ensures
            r is Some <==> self@.len() > 0,
            r matches Some(s) ==> s@ == form_encoded(self@),
    {
        if self.params.is_empty() {
            None
        } else {
            Some(self.params.encoded())
        }
    }
}

/// A builder of issue list options.
pub struct IssueListOptionsBuilder {
    params: Params,
}

impl View for IssueListOptionsBuilder {
    type V = Seq<(Seq<char>, Seq<char>)>;

    closed spec fn view(&self) -> Seq<(Seq<char>, Seq<char>)> {
        self.params@
    }
}

impl IssueListOptionsBuilder {
    /// A builder with no options set.
    pub fn new() -> (r: IssueListOptionsBuilder)
        ensures
            r@ == Seq::<(Seq<char>, Seq<char>)>::empty(),
    {
        IssueListOptionsBuilder { params: Params::new() }
    }

    /// Filter by issue state.
    pub fn state(&mut self, state: State) -> (r: &mut IssueListOptionsBuilder)
        ensures
            r@ == pairs_insert(old(self)@, "state"@, state.param_view()),
            *final(self) == *final(r),
    {
        self.params.insert("state", state.to_param());
        self
    }

    /// Sort by the given key.
    pub fn sort(&mut self, sort: IssueSort) -> (r: &mut IssueListOptionsBuilder)
        ensures
            r@ == pairs_insert(old(self)@, "sort"@, sort.param_view()),
            *final(self) == *final(r),
    {
        self.params.insert("sort", sort.to_param());
        self
    }

    /// Sort ascending.
    pub fn asc(&mut self) -> (r: &mut IssueListOptionsBuilder)
        ensures
            r@ == pairs_insert(old(self)@, "direction"@, SortDirection::Asc.param_view()),
            *final(self) == *final(r),
    {
        self.direction(SortDirection::Asc)
    }

    /// Sort descending.
    pub fn desc(&mut self) -> (r: &mut IssueListOptionsBuilder)
        ensures
            r@ == pairs_insert(old(self)@, "direction"@, SortDirection::Desc.param_view()),
            *final(self) == *final(r),
    {
        self.direction(SortDirection::Desc)
    }

    /// Sort in the given direction.
    pub fn direction(&mut self, direction: SortDirection) -> (r: &mut IssueListOptionsBuilder)
        ensures
            r@ == pairs_insert(old(self)@, "direction"@, direction.param_view()),
            *final(self) == *final(r),
    {
        self.params.insert("direction", direction.to_param());
        self
    }

    /// Filter by assignee.
    pub fn assignee(&mut self, assignee: String) -> (r: &mut IssueListOptionsBuilder)
        ensures
            r@ == pairs_insert(old(self)@, "assignee"@, assignee@),
            *final(self) == *final(r),
    {
        self.params.insert("assignee", assignee);
        self
    }

    /// Filter by creator.
    pub fn creator(&mut self, creator: String) -> (r: &mut IssueListOptionsBuilder)
        ensures
            r@ == pairs_insert(old(self)@, "creator"@, creator@),
            *final(self) == *final(r),
    {
        self.params.insert("creator", creator);
        self
    }

    /// Filter by mentioned user.
    pub fn mentioned(&mut self, mentioned: String) -> (r: &mut IssueListOptionsBuilder)
        ensures
            r@ == pairs_insert(old(self)@, "mentioned"@, mentioned@),
            *final(self) == *final(r),
    {
        self.params.insert("mentioned", mentioned);
        self
    }

    /// Filter by labels, joined with commas.
    pub fn labels(&mut self, labels: Vec<String>) -> (r: &mut IssueListOptionsBuilder)
        ensures
            r@ == pairs_insert(old(self)@, "labels"@, comma_joined(labels.deep_view())),
            *final(self) == *final(r),
    {
        self.params.insert("labels", join_comma(&labels));
        self
    }

    /// Keep only issues updated at or after the timestamp.
    pub fn since(&mut self, since: String) -> (r: &mut IssueListOptionsBuilder)
        ensures
            r@ == pairs_insert(old(self)@, "since"@, since@),
            *final(self) == *final(r),
    {
        self.params.insert("since", since);
        self
    }

    /// The options as set so far.
    pub fn build(&self) -> (r: IssueListOptions)
        ensures
            r@ == self@,
    {
        IssueListOptions { params: self.params.clone() }
    }
}

/// The pieces joined with one comma between each two.
pub open spec fn comma_joined(items: Seq<Seq<char>>) -> Seq<char>
    decreases items.len(),
{
    if items.len() == 0 {
        Seq::empty()
    } else if items.len() == 1 {
        items[0]
    } else {
        items[0] + seq![','] + comma_joined(items.drop_first())
    }
}

/// Join the pieces with one comma between each two.
#[verifier::loop_isolation(false)]
pub fn join_comma(items: &Vec<String>) -> (r: String)
    ensures
        r@ == comma_joined(items.deep_view()),
{
    let ghost iv = items.deep_view();
    let mut out = String::new();
    let n = items.len();
    proof {
        assert(iv.len() == items@.len());
        assert(forall|i: int| 0 <= i < n ==> iv[i] == items@[i]@);
    }
    if n == 0 {
        proof {
            assert(out@ =~= comma_joined(iv));
        }
        return out;
    }
    out.append(items[0].as_str());
    proof {
        lemma_comma_joined_head(iv);
        assert(iv.drop_first() =~= iv.skip(1));
        assert(out@ + comma_rest(iv.skip(1)) =~= comma_joined(iv));
    }
    let mut i: usize = 1;
    while i < n
        invariant
            1 <= i <= n,
            out@ + comma_rest(iv.skip(i as int)) == comma_joined(iv),
        decreases n - i,
    {
        crate::json::push_char(&mut out, ',');
        out.append(items[i].as_str());
        proof {
            assert(iv.skip(i as int)[0] == iv[i as int]);
            assert(iv.skip(i as int).drop_first() =~= iv.skip(i as int + 1));
            assert(comma_rest(iv.skip(i as int)) == seq![','] + iv[i as int] + comma_rest(
                iv.skip(i as int + 1),
            ));
            assert(out@ + comma_rest(iv.skip(i as int + 1)) =~= comma_joined(iv));
        }
        i += 1;
    }
    proof {
        assert(iv.skip(n as int) =~= Seq::<Seq<char>>::empty());
        assert(comma_rest(Seq::<Seq<char>>::empty()) == Seq::<char>::empty());
        assert(out@ =~= comma_joined(iv));
    }
    out
}

/// What follows the first piece of a comma join: each later piece behind
/// one comma.
pub open spec fn comma_rest(items: Seq<Seq<char>>) -> Seq<char>
    decreases items.len(),
{
    if items.len() == 0 {
        Seq::empty()
    } else {
        seq![','] + items[0] + comma_rest(items.drop_first())
    }
}

/// A nonempty comma join is its first piece followed by the rest.
proof fn lemma_comma_joined_head(items: Seq<Seq<char>>)
    requires
        items.len() >= 1,
    ensures
        comma_joined(items) == items[0] + comma_rest(items.drop_first()),
    decreases items.len(),
{
    if items.len() == 1 {
        assert(items.drop_first() =~= Seq::<Seq<char>>::empty());
        assert(comma_joined(items) =~= items[0] + comma_rest(items.drop_first()));
    } else {
        lemma_comma_joined_head(items.drop_first());
        assert(comma_joined(items) =~= items[0] + comma_rest(items.drop_first()));
    }
}


/// Append one member to an object under construction.
fn push_member(members: &mut Vec<(String, Json)>, k: &str, v: Json)
    ensures
        jv_members(final(members)@) == jv_members(old(members)@).push((k@, jv(v))),
{
    let key = k.to_owned();
    proof {
        lemma_jv_members_push(members@, key, v);
    }
    members.push((key, v));
}

/// Each string as a JSON string, in order.
pub open spec fn str_arr_rep(items: Seq<Seq<char>>) -> Seq<Jv> {
    Seq::new(items.len(), |i: int| Jv::Str(items[i]))
}

/// The JSON array whose items are the strings, in order.
#[verifier::loop_isolation(false)]
pub fn strings_to_json(items: &Vec<String>) -> (r: Json)
    ensures
        jv(r) == Jv::Arr(str_arr_rep(items.deep_view())),
{
    let ghost dv = items.deep_view();
    proof {
        assert(dv.len() == items@.len());
        assert(forall|k: int| 0 <= k < dv.len() ==> dv[k] == items@[k]@);
    }
    let mut out: Vec<Json> = Vec::new();
    let n = items.len();
    let mut i: usize = 0;
    while i < n
        invariant
            i <= n,
            out@.len() == i,
            forall|k: int| 0 <= k < i ==> out@[k] == Json::Str(items@[k]),
        decreases n - i,
    {
        out.push(Json::Str(items[i].clone()));
        i += 1;
    }
    proof {
        lemma_jv_seq(out@);
        assert(jv_seq(out@) =~= str_arr_rep(dv));
    }
    Json::Arr(out)
}

/// An empty object under construction denotes no members.
proof fn lemma_members_empty()
    ensures
        jv_members(Seq::<(String, Json)>::empty()) == Seq::<(Seq<char>, Jv)>::empty(),
{
    assert(jv_members(Seq::<(String, Json)>::empty()) =~= Seq::<(Seq<char>, Jv)>::empty());
}


/// A copy of an optional string.
fn clone_opt_string(o: &Option<String>) -> (r: Option<String>)
    ensures
        r == *o,
{
    match o {
        Some(s) => Some(s.clone()),
        None => None,
    }
}

/// A copy of a string list.
#[verifier::loop_isolation(false)]
fn clone_strings(v: &Vec<String>) -> (r: Vec<String>)
    ensures
        r@ == v@,
{
    let mut out: Vec<String> = Vec::new();
    let n = v.len();
    let mut i: usize = 0;
    while i < n
        invariant
            i <= n,
            out@ == v@.subrange(0, i as int),
        decreases n - i,
    {
        out.push(v[i].clone());
        proof {
            assert(out@ =~= v@.subrange(0, i as int + 1));
        }
        i += 1;
    }
    proof {
        assert(v@.subrange(0, n as int) =~= v@);
    }
    out
}

/// A copy of an optional string list, holding the same strings.
fn clone_opt_strings(o: &Option<Vec<String>>) -> (r: Option<Vec<String>>)
    ensures
        r is Some <==> *o is Some,
        r matches Some(v2) ==> o matches Some(v1) && v2@ == v1@,
{
    match o {
        Some(v) => Some(clone_strings(v)),
        None => None,
    }
}

/// The fields a deployment is created with.
#[derive(Debug, Clone)]
pub struct DeploymentOptions {
    pub commit_ref: String,
    pub task: Option<String>,
    pub auto_merge: Option<bool>,
    pub required_contexts: Option<Vec<String>>,
    /// The contents should be valid JSON, serialized by the caller.
    pub payload: Option<String>,
    pub environment: Option<String>,
    pub description: Option<String>,
}

impl DeploymentOptions {
    /// A builder seeded with the reference to deploy.
    pub fn builder(commit: String) -> (r: DeploymentOptionsBuilder)
        ensures
            r.commit_ref == commit,
            r.task is None,
            r.auto_merge is None,
            r.required_contexts is None,
            r.payload is None,
            r.environment is None,
            r.description is None,
    {
        DeploymentOptionsBuilder::new(commit)
    }

    /// The JSON body these options are sent as: the reference first, then
    /// each optional field that is set, in declaration order.
    pub open spec fn json_rep(self) -> Jv {
        let ms = Seq::<(Seq<char>, Jv)>::empty().push(("ref"@, Jv::Str(self.commit_ref@)));
        let ms = if self.task is Some {
            ms.push(("task"@, Jv::Str(self.task.unwrap()@)))
        } else {
            ms
        };
        let ms = if self.auto_merge is Some {
            ms.push(("auto_merge"@, Jv::Bool(self.auto_merge.unwrap())))
        } else {
            ms
        };
        let ms = if self.required_contexts is Some {
            ms.push(
                ("required_contexts"@, Jv::Arr(
                    str_arr_rep(self.required_contexts.unwrap().deep_view()),
                )),
            )
        } else {
            ms
        };
        let ms = if self.payload is Some {
            ms.push(("payload"@, Jv::Str(self.payload.unwrap()@)))
        } else {
            ms
        };
        let ms = if self.environment is Some {
            ms.push(("environment"@, Jv::Str(self.environment.unwrap()@)))
        } else {
            ms
        };
        let ms = if self.description is Some {
            ms.push(("description"@, Jv::Str(self.description.unwrap()@)))
        } else {
            ms
        };
        Jv::Obj(ms)
    }

    /// The JSON value these options are sent as.
    pub fn to_json(&self) -> (r: Json)
        ensures
            jv(r) == self.json_rep(),
    {
        let mut members: Vec<(String, Json)> = Vec::new();
        proof {
            lemma_members_empty();
        }
        push_member(&mut members, "ref", Json::Str(self.commit_ref.clone()));
        push_opt_str(&mut members, "task", &self.task);
        push_opt_bool(&mut members, "auto_merge", &self.auto_merge);
        match &self.required_contexts {
            Some(v) => push_member(&mut members, "required_contexts", strings_to_json(v)),
            None => {},
        }
        push_opt_str(&mut members, "payload", &self.payload);
        push_opt_str(&mut members, "environment", &self.environment);
        push_opt_str(&mut members, "description", &self.description);
        proof {
            assert(jv_members(members@) =~= self.json_rep()->Obj_0);
        }
        Json::Obj(members)
    }

    /// The JSON text these options are sent as.
    pub fn to_json_string(&self) -> (r: String)
        ensures
            r@ == json_text(self.json_rep()),
    {
        self.to_json().encode()
    }
}

/// A builder of deployment options.
#[derive(Debug, Clone)]
pub struct DeploymentOptionsBuilder {
    pub commit_ref: String,
    pub task: Option<String>,
    pub auto_merge: Option<bool>,
    pub required_contexts: Option<Vec<String>>,
    pub payload: Option<String>,
    pub environment: Option<String>,
    pub description: Option<String>,
}

impl DeploymentOptionsBuilder {
    /// A builder seeded with the reference to deploy.
    pub fn new(commit: String) -> (r: DeploymentOptionsBuilder)
        ensures
            r.commit_ref == commit,
            r.task is None,
            r.auto_merge is None,
            r.required_contexts is None,
            r.payload is None,
            r.environment is None,
            r.description is None,
    {
        DeploymentOptionsBuilder {
            commit_ref: commit,
            task: None,
            auto_merge: None,
            required_contexts: None,
            payload: None,
            environment: None,
            description: None,
        }
    }

    /// Name the task to execute.
    pub fn task(&mut self, task: String) -> (r: &mut DeploymentOptionsBuilder)
        ensures
            *r == (DeploymentOptionsBuilder { task: Some(task), ..*old(self) }),
            *final(self) == *final(r),
    {
        self.task = Some(task);
        self
    }

    /// Whether the branch should be merged automatically first.
    pub fn auto_merge(&mut self, auto_merge: bool) -> (r: &mut DeploymentOptionsBuilder)
        ensures
            *r == (DeploymentOptionsBuilder { auto_merge: Some(auto_merge), ..*old(self) }),
            *final(self) == *final(r),
    {
        self.auto_merge = Some(auto_merge);
        self
    }

    /// The status contexts that must be green.
    pub fn required_contexts(&mut self, ctxs: Vec<String>) -> (r: &mut DeploymentOptionsBuilder)
        ensures
            *r == (DeploymentOptionsBuilder { required_contexts: Some(ctxs), ..*old(self) }),
            *final(self) == *final(r),
    {
        self.required_contexts = Some(ctxs);
        self
    }

    /// The payload handed to the deployment, already serialized as JSON by
    /// the caller.
    pub fn payload(&mut self, pl: String) -> (r: &mut DeploymentOptionsBuilder)
        ensures
            *r == (DeploymentOptionsBuilder { payload: Some(pl), ..*old(self) }),
            *final(self) == *final(r),
    {
        self.payload = Some(pl);
        self
    }

    /// Name the environment deployed to.
    pub fn environment(&mut self, env: String) -> (r: &mut DeploymentOptionsBuilder)
        ensures
            *r == (DeploymentOptionsBuilder { environment: Some(env), ..*old(self) }),
            *final(self) == *final(r),
    {
        self.environment = Some(env);
        self
    }

    /// Describe the deployment.
    pub fn description(&mut self, desc: String) -> (r: &mut DeploymentOptionsBuilder)
        ensures
            *r == (DeploymentOptionsBuilder { description: Some(desc), ..*old(self) }),
            *final(self) == *final(r),
    {
        self.description = Some(desc);
        self
    }

    /// The options as set so far.
    pub fn build(&self) -> (r: DeploymentOptions)
        ensures
            r.commit_ref == self.commit_ref,
            r.task == self.task,
            r.auto_merge == self.auto_merge,
            r.required_contexts is Some <==> self.required_contexts is Some,
            r.required_contexts matches Some(v) ==> v@ == self.required_contexts.unwrap()@,
            r.payload == self.payload,
            r.environment == self.environment,
            r.description == self.description,
    {
        DeploymentOptions {
            commit_ref: self.commit_ref.clone(),
            task: clone_opt_string(&self.task),
            auto_merge: self.auto_merge,
            required_contexts: clone_opt_strings(&self.required_contexts),
            payload: clone_opt_string(&self.payload),
            environment: clone_opt_string(&self.environment),
            description: clone_opt_string(&self.description),
        }
    }
}


/// Options of a deployment list call.
pub struct DeploymentListOptions {
    params: Params,
}

impl View for DeploymentListOptions {
    type V = Seq<(Seq<char>, Seq<char>)>;

    closed spec fn view(&self) -> Seq<(Seq<char>, Seq<char>)> {
        self.params@
    }
}

impl DeploymentListOptions {
    /// A builder for these options.
    pub fn builder() -> (r: DeploymentListOptionsBuilder)
        ensures
            r@ == Seq::<(Seq<char>, Seq<char>)>::empty(),
    {
        DeploymentListOptionsBuilder::new()
    }

    /// Render the options as a query string; nothing when none are set.
    pub fn serialize(&self) -> (r: Option<String>)
        ensures
            r is Some <==> self@.len() > 0,
            r matches Some(s) ==> s@ == form_encoded(self@),
    {
        if self.params.is_empty() {
            None
        } else {
            Some(self.params.encoded())
        }
    }
}

/// A builder of the options of a deployment list call.
pub struct DeploymentListOptionsBuilder {
    params: Params,
}

impl View for DeploymentListOptionsBuilder {
    type V = Seq<(Seq<char>, Seq<char>)>;

    closed spec fn view(&self) -> Seq<(Seq<char>, Seq<char>)> {
        self.params@
    }
}

impl DeploymentListOptionsBuilder {
    /// A builder with no options set.
    pub fn new() -> (r: DeploymentListOptionsBuilder)
        ensures
            r@ == Seq::<(Seq<char>, Seq<char>)>::empty(),
    {
        DeploymentListOptionsBuilder { params: Params::new() }
    }

    /// Keep only deployments of this commit.
    pub fn sha(&mut self, s: String) -> (r: &mut DeploymentListOptionsBuilder)
        ensures
            r@ == pairs_insert(old(self)@, "sha"@, s@),
            *final(self) == *final(r),
    {
        self.params.insert("sha", s);
        self
    }

    /// Keep only deployments of this reference.
    pub fn commit_ref(&mut self, r_ref: String) -> (r: &mut DeploymentListOptionsBuilder)
        ensures
            r@ == pairs_insert(old(self)@, "ref"@, r_ref@),
            *final(self) == *final(r),
    {
        self.params.insert("ref", r_ref);
        self
    }

    /// Keep only deployments that run the given task name.
    pub fn task(&mut self, t: String) -> (r: &mut DeploymentListOptionsBuilder)
        ensures
            r@ == pairs_insert(old(self)@, "task"@, t@),
            *final(self) == *final(r),
    {
        self.params.insert("task", t);
        self
    }

    /// Keep only deployments to this environment.
    pub fn environment(&mut self, e: String) -> (r: &mut DeploymentListOptionsBuilder)
        ensures
            r@ == pairs_insert(old(self)@, "environment"@, e@),
            *final(self) == *final(r),
    {
        self.params.insert("environment", e);
        self
    }

    /// The options as set so far.
    pub fn build(&self) -> (r: DeploymentListOptions)
        ensures
            r@ == self@,
    {
        DeploymentListOptions { params: self.params.clone() }
    }
}


/// Options of a user's repository list call.
pub struct UserRepoListOptions {
    params: Params,
}

impl View for UserRepoListOptions {
    type V = Seq<(Seq<char>, Seq<char>)>;

    closed spec fn view(&self) -> Seq<(Seq<char>, Seq<char>)> {
        self.params@
    }
}

impl UserRepoListOptions {
    /// A builder for these options.
    pub fn builder() -> (r: UserRepoListOptionsBuilder)
        ensures
            r@ == Seq::<(Seq<char>, Seq<char>)>::empty(),
    {
        UserRepoListOptionsBuilder::new()
    }

    /// Render the options as a query string; nothing when none are set.
    pub fn serialize(&self) -> (r: Option<String>)
        ensures
            r is Some <==> self@.len() > 0,
            r matches Some(s) ==> s@ == form_encoded(self@),
    {
        if self.params.is_empty() {
            None
        } else {
            Some(self.params.encoded())
        }
    }
}

/// A builder of the options of a user's repository list call.
pub struct UserRepoListOptionsBuilder {
    params: Params,
}

impl View for UserRepoListOptionsBuilder {
    type V = Seq<(Seq<char>, Seq<char>)>;

    closed spec fn view(&self) -> Seq<(Seq<char>, Seq<char>)> {
        self.params@
    }
}

impl UserRepoListOptionsBuilder {
    /// A builder with no options set.
    pub fn new() -> (r: UserRepoListOptionsBuilder)
        ensures
            r@ == Seq::<(Seq<char>, Seq<char>)>::empty(),
    {
        UserRepoListOptionsBuilder { params: Params::new() }
    }

    /// Keep only repositories of this kind.
    pub fn repo_type(&mut self, tpe: crate::repositories::Type) -> (r: &mut UserRepoListOptionsBuilder)
        ensures
            r@ == pairs_insert(old(self)@, "type"@, tpe.param_view()),
            *final(self) == *final(r),
    {
        self.params.insert("type", tpe.to_param());
        self
    }

    /// Sort by the given key.
    pub fn sort(&mut self, sort: RepoSort) -> (r: &mut UserRepoListOptionsBuilder)
        ensures
            r@ == pairs_insert(old(self)@, "sort"@, sort.param_view()),
            *final(self) == *final(r),
    {
        self.params.insert("sort", sort.to_param());
        self
    }

    /// Sort ascending.
    pub fn asc(&mut self) -> (r: &mut UserRepoListOptionsBuilder)
        ensures
            r@ == pairs_insert(old(self)@, "direction"@, SortDirection::Asc.param_view()),
            *final(self) == *final(r),
    {
        self.direction(SortDirection::Asc)
    }

    /// Sort descending.
    pub fn desc(&mut self) -> (r: &mut UserRepoListOptionsBuilder)
        ensures
            r@ == pairs_insert(old(self)@, "direction"@, SortDirection::Desc.param_view()),
            *final(self) == *final(r),
    {
        self.direction(SortDirection::Desc)
    }

    /// Sort in the given direction.
    pub fn direction(&mut self, direction: SortDirection) -> (r: &mut UserRepoListOptionsBuilder)
        ensures
            r@ == pairs_insert(old(self)@, "direction"@, direction.param_view()),
            *final(self) == *final(r),
    {
        self.params.insert("direction", direction.to_param());
        self
    }

    /// The options as set so far.
    pub fn build(&self) -> (r: UserRepoListOptions)
        ensures
            r@ == self@,
    {
        UserRepoListOptions { params: self.params.clone() }
    }
}


/// Options of an organization's repository list call.
pub struct OrganizationRepoListOptions {
    params: Params,
}

impl View for OrganizationRepoListOptions {
    type V = Seq<(Seq<char>, Seq<char>)>;

    closed spec fn view(&self) -> Seq<(Seq<char>, Seq<char>)> {
        self.params@
    }
}

impl OrganizationRepoListOptions {
    /// A builder for these options.
    pub fn builder() -> (r: OrganizationRepoListOptionsBuilder)
        ensures
            r@ == Seq::<(Seq<char>, Seq<char>)>::empty(),
    {
        OrganizationRepoListOptionsBuilder::new()
    }

    /// Render the options as a query string; nothing when none are set.
    pub fn serialize(&self) -> (r: Option<String>)
        ensures
            r is Some <==> self@.len() > 0,
            r matches Some(s) ==> s@ == form_encoded(self@),
    {
        if self.params.is_empty() {
            None
        } else {
            Some(self.params.encoded())
        }
    }
}

/// A builder of the options of an organization's repository list call.
pub struct OrganizationRepoListOptionsBuilder {
    params: Params,
}

impl View for OrganizationRepoListOptionsBuilder {
    type V = Seq<(Seq<char>, Seq<char>)>;

    closed spec fn view(&self) -> Seq<(Seq<char>, Seq<char>)> {
        self.params@
    }
}

impl OrganizationRepoListOptionsBuilder {
    /// A builder with no options set.
    pub fn new() -> (r: OrganizationRepoListOptionsBuilder)
        ensures
            r@ == Seq::<(Seq<char>, Seq<char>)>::empty(),
    {
        OrganizationRepoListOptionsBuilder { params: Params::new() }
    }

    /// Keep only repositories of this kind.
    pub fn repo_type(&mut self, tpe: OrgRepoType) -> (r: &mut OrganizationRepoListOptionsBuilder)
        ensures
            r@ == pairs_insert(old(self)@, "type"@, tpe.param_view()),
            *final(self) == *final(r),
    {
        self.params.insert("type", tpe.to_param());
        self
    }

    /// The options as set so far.
    pub fn build(&self) -> (r: OrganizationRepoListOptions)
        ensures
            r@ == self@,
    {
        OrganizationRepoListOptions { params: self.params.clone() }
    }
}


/// Options of the caller's repository list call.
pub struct RepoListOptions {
    params: Params,
}

impl View for RepoListOptions {
    type V = Seq<(Seq<char>, Seq<char>)>;

    closed spec fn view(&self) -> Seq<(Seq<char>, Seq<char>)> {
        self.params@
    }
}

impl RepoListOptions {
    /// A builder for these options.
    pub fn builder() -> (r: RepoListOptionsBuilder)
        ensures
            r@ == Seq::<(Seq<char>, Seq<char>)>::empty(),
    {
        RepoListOptionsBuilder::new()
    }

    /// Render the options as a query string; nothing when none are set.
    pub fn serialize(&self) -> (r: Option<String>)
        ensures
            r is Some <==> self@.len() > 0,
            r matches Some(s) ==> s@ == form_encoded(self@),
    {
        if self.params.is_empty() {
            None
        } else {
            Some(self.params.encoded())
        }
    }
}

/// A builder of the options of the caller's repository list call.
pub struct RepoListOptionsBuilder {
    params: Params,
}

impl View for RepoListOptionsBuilder {
    type V = Seq<(Seq<char>, Seq<char>)>;

    closed spec fn view(&self) -> Seq<(Seq<char>, Seq<char>)> {
        self.params@
    }
}

impl RepoListOptionsBuilder {
    /// A builder with no options set.
    pub fn new() -> (r: RepoListOptionsBuilder)
        ensures
            r@ == Seq::<(Seq<char>, Seq<char>)>::empty(),
    {
        RepoListOptionsBuilder { params: Params::new() }
    }

    /// Keep only repositories of this visibility.
    pub fn visibility(&mut self, vis: RepoVisibility) -> (r: &mut RepoListOptionsBuilder)
        ensures
            r@ == pairs_insert(old(self)@, "visibility"@, vis.param_view()),
            *final(self) == *final(r),
    {
        self.params.insert("visibility", vis.to_param());
        self
    }

    /// Keep only repositories the caller is related to in one of the given ways, joined with commas.
    pub fn affiliation(&mut self, affiliations: Vec<Affiliation>) -> (r: &mut RepoListOptionsBuilder)
        ensures
            r@ == pairs_insert(old(self)@, "affiliation"@, comma_joined(affiliation_views(affiliations@))),
            *final(self) == *final(r),
    {
        self.params.insert("affiliation", affiliation_params(&affiliations));
        self
    }

    /// Keep only repositories of this kind.
    pub fn repo_type(&mut self, tpe: crate::repositories::Type) -> (r: &mut RepoListOptionsBuilder)
        ensures
            r@ == pairs_insert(old(self)@, "type"@, tpe.param_view()),
            *final(self) == *final(r),
    {
        self.params.insert("type", tpe.to_param());
        self
    }

    /// Sort by the given key.
    pub fn sort(&mut self, sort: RepoSort) -> (r: &mut RepoListOptionsBuilder)
        ensures
            r@ == pairs_insert(old(self)@, "sort"@, sort.param_view()),
            *final(self) == *final(r),
    {
        self.params.insert("sort", sort.to_param());
        self
    }

    /// Sort ascending.
    pub fn asc(&mut self) -> (r: &mut RepoListOptionsBuilder)
        ensures
            r@ == pairs_insert(old(self)@, "direction"@, SortDirection::Asc.param_view()),
            *final(self) == *final(r),
    {
        self.direction(SortDirection::Asc)
    }

    /// Sort descending.
    pub fn desc(&mut self) -> (r: &mut RepoListOptionsBuilder)
        ensures
            r@ == pairs_insert(old(self)@, "direction"@, SortDirection::Desc.param_view()),
            *final(self) == *final(r),
    {
        self.direction(SortDirection::Desc)
    }

    /// Sort in the given direction.
    pub fn direction(&mut self, direction: SortDirection) -> (r: &mut RepoListOptionsBuilder)
        ensures
            r@ == pairs_insert(old(self)@, "direction"@, direction.param_view()),
            *final(self) == *final(r),
    {
        self.params.insert("direction", direction.to_param());
        self
    }

    /// The options as set so far.
    pub fn build(&self) -> (r: RepoListOptions)
        ensures
            r@ == self@,
    {
        RepoListOptions { params: self.params.clone() }
    }
}


/// Options of an issue search call.
pub struct SearchIssuesOptions {
    params: Params,
}

impl View for SearchIssuesOptions {
    type V = Seq<(Seq<char>, Seq<char>)>;

    closed spec fn view(&self) -> Seq<(Seq<char>, Seq<char>)> {
        self.params@
    }
}

impl SearchIssuesOptions {
    /// A builder for these options.
    pub fn builder() -> (r: SearchIssuesOptionsBuilder)
        ensures
            r@ == Seq::<(Seq<char>, Seq<char>)>::empty(),
    {
        SearchIssuesOptionsBuilder::new()
    }

    /// Render the options as a query string; nothing when none are set.
    pub fn serialize(&self) -> (r: Option<String>)
        ensures
            r is Some <==> self@.len() > 0,
            r matches Some(s) ==> s@ == form_encoded(self@),
    {
        if self.params.is_empty() {
            None
        } else {
            Some(self.params.encoded())
        }
    }
}

/// A builder of the options of an issue search call.
pub struct SearchIssuesOptionsBuilder {
    params: Params,
}

impl View for SearchIssuesOptionsBuilder {
    type V = Seq<(Seq<char>, Seq<char>)>;

    closed spec fn view(&self) -> Seq<(Seq<char>, Seq<char>)> {
        self.params@
    }
}

impl SearchIssuesOptionsBuilder {
    /// A builder with no options set.
    pub fn new() -> (r: SearchIssuesOptionsBuilder)
        ensures
            r@ == Seq::<(Seq<char>, Seq<char>)>::empty(),
    {
        SearchIssuesOptionsBuilder { params: Params::new() }
    }

    /// Sort by the given key.
    pub fn sort(&mut self, sort: SearchIssuesSort) -> (r: &mut SearchIssuesOptionsBuilder)
        ensures
            r@ == pairs_insert(old(self)@, "sort"@, sort.param_view()),
            *final(self) == *final(r),
    {
        self.params.insert("sort", sort.to_param());
        self
    }

    /// Order in the given direction.
    pub fn order(&mut self, direction: SortDirection) -> (r: &mut SearchIssuesOptionsBuilder)
        ensures
            r@ == pairs_insert(old(self)@, "order"@, direction.param_view()),
            *final(self) == *final(r),
    {
        self.params.insert("order", direction.to_param());
        self
    }

    /// The options as set so far.
    pub fn build(&self) -> (r: SearchIssuesOptions)
        ensures
            r@ == self@,
    {
        SearchIssuesOptions { params: self.params.clone() }
    }
}


/// Options of a pull request list call.
pub struct PullListOptions {
    params: Params,
}

impl View for PullListOptions {
    type V = Seq<(Seq<char>, Seq<char>)>;

    closed spec fn view(&self) -> Seq<(Seq<char>, Seq<char>)> {
        self.params@
    }
}

impl PullListOptions {
    /// A builder for these options.
    pub fn builder() -> (r: PullListOptionsBuilder)
        ensures
            r@ == Seq::<(Seq<char>, Seq<char>)>::empty(),
    {
        PullListOptionsBuilder::new()
    }

    /// Render the options as a query string; nothing when none are set.
    pub fn serialize(&self) -> (r: Option<String>)
        ensures
            r is Some <==> self@.len() > 0,
            r matches Some(s) ==> s@ == form_encoded(self@),
    {
        if self.params.is_empty() {
            None
        } else {
            Some(self.params.encoded())
        }
    }
}

/// A builder of the options of a pull request list call.
pub struct PullListOptionsBuilder {
    params: Params,
}

impl View for PullListOptionsBuilder {
    type V = Seq<(Seq<char>, Seq<char>)>;

    closed spec fn view(&self) -> Seq<(Seq<char>, Seq<char>)> {
        self.params@
    }
}

impl PullListOptionsBuilder {
    /// A builder with no options set.
    pub fn new() -> (r: PullListOptionsBuilder)
        ensures
            r@ == Seq::<(Seq<char>, Seq<char>)>::empty(),
    {
        PullListOptionsBuilder { params: Params::new() }
    }

    /// Filter by pull request state.
    pub fn state(&mut self, state: State) -> (r: &mut PullListOptionsBuilder)
        ensures
            r@ == pairs_insert(old(self)@, "state"@, state.param_view()),
            *final(self) == *final(r),
    {
        self.params.insert("state", state.to_param());
        self
    }

    /// Sort by the given key.
    pub fn sort(&mut self, sort: IssueSort) -> (r: &mut PullListOptionsBuilder)
        ensures
            r@ == pairs_insert(old(self)@, "sort"@, sort.param_view()),
            *final(self) == *final(r),
    {
        self.params.insert("sort", sort.to_param());
        self
    }

    /// Sort in the given direction.
    pub fn direction(&mut self, direction: SortDirection) -> (r: &mut PullListOptionsBuilder)
        ensures
            r@ == pairs_insert(old(self)@, "direction"@, direction.param_view()),
            *final(self) == *final(r),
    {
        self.params.insert("direction", direction.to_param());
        self
    }

    /// The options as set so far.
    pub fn build(&self) -> (r: PullListOptions)
        ensures
            r@ == self@,
    {
        PullListOptions { params: self.params.clone() }
    }
}


/// Options of a comment list call.
pub struct CommentListOptions {
    params: Params,
}

impl View for CommentListOptions {
    type V = Seq<(Seq<char>, Seq<char>)>;

    closed spec fn view(&self) -> Seq<(Seq<char>, Seq<char>)> {
        self.params@
    }
}

impl CommentListOptions {
    /// A builder for these options.
    pub fn builder() -> (r: CommentListOptionsBuilder)
        ensures
            r@ == Seq::<(Seq<char>, Seq<char>)>::empty(),
    {
        CommentListOptionsBuilder::new()
    }

    /// Render the options as a query string; nothing when none are set.
    pub fn serialize(&self) -> (r: Option<String>)
        ensures
            r is Some <==> self@.len() > 0,
            r matches Some(s) ==> s@ == form_encoded(self@),
    {
        if self.params.is_empty() {
            None
        } else {
            Some(self.params.encoded())
        }
    }
}

/// A builder of the options of a comment list call.
pub struct CommentListOptionsBuilder {
    params: Params,
}

impl View for CommentListOptionsBuilder {
    type V = Seq<(Seq<char>, Seq<char>)>;

    closed spec fn view(&self) -> Seq<(Seq<char>, Seq<char>)> {
        self.params@
    }
}

impl CommentListOptionsBuilder {
    /// A builder with no options set.
    pub fn new() -> (r: CommentListOptionsBuilder)
        ensures
            r@ == Seq::<(Seq<char>, Seq<char>)>::empty(),
    {
        CommentListOptionsBuilder { params: Params::new() }
    }

    /// Keep only comments updated at or after the timestamp.
    pub fn since(&mut self, since: String) -> (r: &mut CommentListOptionsBuilder)
        ensures
            r@ == pairs_insert(old(self)@, "since"@, since@),
            *final(self) == *final(r),
    {
        self.params.insert("since", since);
        self
    }

    /// The options as set so far.
    pub fn build(&self) -> (r: CommentListOptions)
        ensures
            r@ == self@,
    {
        CommentListOptions { params: self.params.clone() }
    }
}

/// Options of a gist list call.
pub struct GistListOptions {
    params: Params,
}

impl View for GistListOptions {
    type V = Seq<(Seq<char>, Seq<char>)>;

    closed spec fn view(&self) -> Seq<(Seq<char>, Seq<char>)> {
        self.params@
    }
}

impl GistListOptions {
    /// Options that keep only gists updated at or after the timestamp.
    pub fn since(timestamp: String) -> (r: GistListOptions)
        ensures
            r@ == pairs_insert(Seq::<(Seq<char>, Seq<char>)>::empty(), "since"@, timestamp@),
    {
        let mut params = Params::new();
        params.insert("since", timestamp);
        GistListOptions { params }
    }

    /// Render the options as a query string; nothing when none are set.
    pub fn serialize(&self) -> (r: Option<String>)
        ensures
            r is Some <==> self@.len() > 0,
            r matches Some(s) ==> s@ == form_encoded(self@),
    {
        if self.params.is_empty() {
            None
        } else {
            Some(self.params.encoded())
        }
    }
}

/// The query value of each affiliation, in order.
pub open spec fn affiliation_views(s: Seq<Affiliation>) -> Seq<Seq<char>> {
    Seq::new(s.len(), |i: int| s[i].param_view())
}

/// The query value of a list of affiliations: each value, joined with
/// commas.
#[verifier::loop_isolation(false)]
fn affiliation_params(affiliations: &Vec<Affiliation>) -> (r: String)
    ensures
        r@ == comma_joined(affiliation_views(affiliations@)),
{
    let mut parts: Vec<String> = Vec::new();
    let n = affiliations.len();
    let mut i: usize = 0;
    while i < n
        invariant
            i <= n,
            parts@.len() == i,
            forall|k: int| 0 <= k < i ==> (#[trigger] parts@[k])@ == affiliations@[k].param_view(),
        decreases n - i,
    {
        parts.push(affiliations[i].to_param());
        i += 1;
    }
    let joined = join_comma(&parts);
    proof {
        assert(parts.deep_view() =~= affiliation_views(affiliations@));
    }
    joined
}


/// The state a commit status or deployment status reports.
#[derive(Debug, Clone, Copy, PartialEq, Eq, Structural)]
pub enum StatusState {
    Pending,
    Success,
    Error,
    Failure,
}

impl Default for StatusState {
    /// The state a fresh status starts in.
    fn default() -> (r: StatusState)
        ensures
            r == StatusState::Pending,
    {
        StatusState::Pending
    }
}

/// The status state a JSON value stands for: one of the four state names
/// as a bare string.
pub open spec fn sp_status_state(v: Jv) -> Option<StatusState> {
    match v {
        Jv::Str(s) => if s == "pending"@ {
            Some(StatusState::Pending)
        } else if s == "success"@ {
            Some(StatusState::Success)
        } else if s == "error"@ {
            Some(StatusState::Error)
        } else if s == "failure"@ {
            Some(StatusState::Failure)
        } else {
            None
        },
        _ => None,
    }
}

impl StatusState {
    /// The name this state is written as.
    pub open spec fn param_view(self) -> Seq<char> {
        match self {
            StatusState::Pending => "pending"@,
            StatusState::Success => "success"@,
            StatusState::Error => "error"@,
            StatusState::Failure => "failure"@,
        }
    }

    /// The name this state is written as.
    pub fn to_param(&self) -> (r: String)
        ensures
            r@ == self.param_view(),
    {
        match self {
            StatusState::Pending => String::from_str("pending"),
            StatusState::Success => String::from_str("success"),
            StatusState::Error => String::from_str("error"),
            StatusState::Failure => String::from_str("failure"),
        }
    }

    /// The JSON value this state is written as: its name as a string.
    pub fn to_json(&self) -> (r: Json)
        ensures
            jv(r) == Jv::Str(self.param_view()),
    {
        Json::Str(self.to_param())
    }

    /// The JSON text this state is written as: its quoted name.
    pub fn to_json_string(&self) -> (r: String)
        ensures
            r@ == json_text(Jv::Str(self.param_view())),
    {
        self.to_json().encode()
    }

    /// Decode a state from a JSON value: exactly [`sp_status_state`].
    pub fn from_json(j: &Json) -> (r: Option<StatusState>)
        ensures
            r == sp_status_state(j@),
    {
        match j.as_str() {
            Some(s) => {
                if crate::params::str_eq(s.as_str(), "pending") {
                    Some(StatusState::Pending)
                } else if crate::params::str_eq(s.as_str(), "success") {
                    Some(StatusState::Success)
                } else if crate::params::str_eq(s.as_str(), "error") {
                    Some(StatusState::Error)
                } else if crate::params::str_eq(s.as_str(), "failure") {
                    Some(StatusState::Failure)
                } else {
                    None
                }
            },
            None => None,
        }
    }

    /// Decode a state from JSON text: the parse of the text, then
    /// [`sp_status_state`].
    pub fn parse(text: &str) -> (r: Option<StatusState>)
        ensures
            r == (match crate::json_parse::sp_json(text@) {
                Some(v) => sp_status_state(v),
                None => None::<StatusState>,
            }),
    {
        match crate::json_parse::parse_json(text) {
            Some(j) => StatusState::from_json(&j),
            None => None,
        }
    }
}

/// The fields a deployment status is created with.
#[derive(Debug, Clone)]
pub struct DeploymentStatusOptions {
    pub state: StatusState,
    pub target_url: Option<String>,
    pub description: Option<String>,
}

impl DeploymentStatusOptions {
    /// The JSON body these options are sent as: each field that is set, in
    /// declaration order.
    pub open spec fn json_rep(self) -> Jv {
        let ms = Seq::<(Seq<char>, Jv)>::empty();
        let ms = ms.push(("state"@, Jv::Str(self.state.param_view())));
        let ms = if self.target_url is Some {
            ms.push(("target_url"@, Jv::Str(self.target_url.unwrap()@)))
        } else {
            ms
        };
        let ms = if self.description is Some {
            ms.push(("description"@, Jv::Str(self.description.unwrap()@)))
        } else {
            ms
        };
        Jv::Obj(ms)
    }

    /// The JSON value these options are sent as.
    pub fn to_json(&self) -> (r: Json)
        ensures
            jv(r) == self.json_rep(),
    {
        let mut members: Vec<(String, Json)> = Vec::new();
        proof {
            lemma_members_empty();
        }
        push_member(&mut members, "state", Json::Str(self.state.to_param()));
        push_opt_str(&mut members, "target_url", &self.target_url);
        push_opt_str(&mut members, "description", &self.description);
        proof {
            assert(jv_members(members@) =~= self.json_rep()->Obj_0);
        }
        Json::Obj(members)
    }

    /// The JSON text these options are sent as.
    pub fn to_json_string(&self) -> (r: String)
        ensures
            r@ == json_text(self.json_rep()),
    {
        self.to_json().encode()
    }

    /// A builder seeded with the state to report.
    pub fn builder(state: StatusState) -> (r: DeploymentStatusOptionsBuilder)
        ensures
            r.state == state,
            r.target_url is None,
            r.description is None,
    {
        DeploymentStatusOptionsBuilder::new(state)
    }
}

/// A builder of deployment status options.
#[derive(Debug, Clone)]
pub struct DeploymentStatusOptionsBuilder {
    pub state: StatusState,
    pub target_url: Option<String>,
    pub description: Option<String>,
}

impl DeploymentStatusOptionsBuilder {
    /// A builder seeded with the state to report.
    pub fn new(state: StatusState) -> (r: DeploymentStatusOptionsBuilder)
        ensures
            r.state == state,
            r.target_url is None,
            r.description is None,
    {
        DeploymentStatusOptionsBuilder { state, target_url: None, description: None }
    }

    /// Link the status to a page.
    pub fn target_url(&mut self, url: String) -> (r: &mut DeploymentStatusOptionsBuilder)
        ensures
            *r == (DeploymentStatusOptionsBuilder { target_url: Some(url), ..*old(self) }),
            *final(self) == *final(r),
    {
        self.target_url = Some(url);
        self
    }

    /// Describe the status.
    pub fn description(&mut self, desc: String) -> (r: &mut DeploymentStatusOptionsBuilder)
        ensures
            *r == (DeploymentStatusOptionsBuilder { description: Some(desc), ..*old(self) }),
            *final(self) == *final(r),
    {
        self.description = Some(desc);
        self
    }

    /// The options as set so far.
    pub fn build(&self) -> (r: DeploymentStatusOptions)
        ensures
            r.state == self.state,
            r.target_url == self.target_url,
            r.description == self.description,
    {
        DeploymentStatusOptions {
            state: self.state.clone(),
            target_url: clone_opt_string(&self.target_url),
            description: clone_opt_string(&self.description),
        }
    }
}


/// The fields a commit status is created with.
#[derive(Debug, Clone)]
pub struct StatusOptions {
    pub state: StatusState,
    pub target_url: Option<String>,
    pub description: Option<String>,
    pub context: Option<String>,
}

impl StatusOptions {
    /// The JSON body these options are sent as: each field that is set, in
    /// declaration order.
    pub open spec fn json_rep(self) -> Jv {
        let ms = Seq::<(Seq<char>, Jv)>::empty();
        let ms = ms.push(("state"@, Jv::Str(self.state.param_view())));
        let ms = if self.target_url is Some {
            ms.push(("target_url"@, Jv::Str(self.target_url.unwrap()@)))
        } else {
            ms
        };
        let ms = if self.description is Some {
            ms.push(("description"@, Jv::Str(self.description.unwrap()@)))
        } else {
            ms
        };
        let ms = if self.context is Some {
            ms.push(("context"@, Jv::Str(self.context.unwrap()@)))
        } else {
            ms
        };
        Jv::Obj(ms)
    }

    /// The JSON value these options are sent as.
    pub fn to_json(&self) -> (r: Json)
        ensures
            jv(r) == self.json_rep(),
    {
        let mut members: Vec<(String, Json)> = Vec::new();
        proof {
            lemma_members_empty();
        }
        push_member(&mut members, "state", Json::Str(self.state.to_param()));
        push_opt_str(&mut members, "target_url", &self.target_url);
        push_opt_str(&mut members, "description", &self.description);
        push_opt_str(&mut members, "context", &self.context);
        proof {
            assert(jv_members(members@) =~= self.json_rep()->Obj_0);
        }
        Json::Obj(members)
    }

    /// The JSON text these options are sent as.
    pub fn to_json_string(&self) -> (r: String)
        ensures
            r@ == json_text(self.json_rep()),
    {
        self.to_json().encode()
    }

    /// Options with every field given at once.
    pub fn new(
        state: StatusState,
        target_url: Option<String>,
        descr: Option<String>,
        context: Option<String>,
    ) -> (r: StatusOptions)
        ensures
            r.state == state,
            r.target_url == target_url,
            r.description == descr,
            r.context == context,
    {
        StatusOptions { state, target_url, description: descr, context }
    }

    /// A builder seeded with the state to report.
    pub fn builder(state: StatusState) -> (r: StatusBuilder)
        ensures
            r.state == state,
            r.target_url is None,
            r.description is None,
            r.context is None,
    {
        StatusBuilder::new(state)
    }
}

/// A builder of commit status options.
#[derive(Debug, Clone)]
pub struct StatusBuilder {
    pub state: StatusState,
    pub target_url: Option<String>,
    pub description: Option<String>,
    pub context: Option<String>,
}

impl StatusBuilder {
    /// A builder seeded with the state to report.
    pub fn new(state: StatusState) -> (r: StatusBuilder)
        ensures
            r.state == state,
            r.target_url is None,
            r.description is None,
            r.context is None,
    {
        StatusBuilder { state, target_url: None, description: None, context: None }
    }

    /// Link the status to a page.
    pub fn target_url(&mut self, url: String) -> (r: &mut StatusBuilder)
        ensures
            *r == (StatusBuilder { target_url: Some(url), ..*old(self) }),
            *final(self) == *final(r),
    {
        self.target_url = Some(url);
        self
    }

    /// Describe the status.
    pub fn description(&mut self, desc: String) -> (r: &mut StatusBuilder)
        ensures
            *r == (StatusBuilder { description: Some(desc), ..*old(self) }),
            *final(self) == *final(r),
    {
        self.description = Some(desc);
        self
    }

    /// Name the system reporting the status.
    pub fn context(&mut self, ctx: String) -> (r: &mut StatusBuilder)
        ensures
            *r == (StatusBuilder { context: Some(ctx), ..*old(self) }),
            *final(self) == *final(r),
    {
        self.context = Some(ctx);
        self
    }

    /// The options as set so far.
    pub fn build(&self) -> (r: StatusOptions)
        ensures
            r.state == self.state,
            r.target_url == self.target_url,
            r.description == self.description,
            r.context == self.context,
    {
        StatusOptions {
            state: self.state,
            target_url: clone_opt_string(&self.target_url),
            description: clone_opt_string(&self.description),
            context: clone_opt_string(&self.context),
        }
    }
}

/// The fields of a pull request that an edit call changes.
#[derive(Debug, Clone)]
pub struct PullEditOptions {
    pub title: Option<String>,
    pub body: Option<String>,
    pub state: Option<String>,
}

impl PullEditOptions {
    /// The JSON body these options are sent as: each field that is set, in
    /// declaration order.
    pub open spec fn json_rep(self) -> Jv {
        let ms = Seq::<(Seq<char>, Jv)>::empty();
        let ms = if self.title is Some {
            ms.push(("title"@, Jv::Str(self.title.unwrap()@)))
        } else {
            ms
        };
        let ms = if self.body is Some {
            ms.push(("body"@, Jv::Str(self.body.unwrap()@)))
        } else {
            ms
        };
        let ms = if self.state is Some {
            ms.push(("state"@, Jv::Str(self.state.unwrap()@)))
        } else {
            ms
        };
        Jv::Obj(ms)
    }

    /// The JSON value these options are sent as.
    pub fn to_json(&self) -> (r: Json)
        ensures
            jv(r) == self.json_rep(),
    {
        let mut members: Vec<(String, Json)> = Vec::new();
        proof {
            lemma_members_empty();
        }
        push_opt_str(&mut members, "title", &self.title);
        push_opt_str(&mut members, "body", &self.body);
        push_opt_str(&mut members, "state", &self.state);
        proof {
            assert(jv_members(members@) =~= self.json_rep()->Obj_0);
        }
        Json::Obj(members)
    }

    /// The JSON text these options are sent as.
    pub fn to_json_string(&self) -> (r: String)
        ensures
            r@ == json_text(self.json_rep()),
    {
        self.to_json().encode()
    }

    /// Options with every field given at once.
    pub fn new(title: Option<String>, body: Option<String>, state: Option<String>) -> (r:
        PullEditOptions)
        ensures
            r.title == title,
            r.body == body,
            r.state == state,
    {
        PullEditOptions { title, body, state }
    }

    /// A builder for these options.
    pub fn builder() -> (r: PullEditOptionsBuilder)
        ensures
            r.title is None,
            r.body is None,
            r.state is None,
    {
        PullEditOptionsBuilder::new()
    }
}

/// A builder of pull request edits.
#[derive(Debug, Clone)]
pub struct PullEditOptionsBuilder {
    pub title: Option<String>,
    pub body: Option<String>,
    pub state: Option<String>,
}

impl PullEditOptionsBuilder {
    /// A builder with nothing set.
    pub fn new() -> (r: PullEditOptionsBuilder)
        ensures
            r.title is None,
            r.body is None,
            r.state is None,
    {
        PullEditOptionsBuilder { title: None, body: None, state: None }
    }

    /// Retitle the pull request.
    pub fn title(&mut self, title: String) -> (r: &mut PullEditOptionsBuilder)
        ensures
            *r == (PullEditOptionsBuilder { title: Some(title), ..*old(self) }),
            *final(self) == *final(r),
    {
        self.title = Some(title);
        self
    }

    /// Rewrite the pull request body.
    pub fn body(&mut self, body: String) -> (r: &mut PullEditOptionsBuilder)
        ensures
            *r == (PullEditOptionsBuilder { body: Some(body), ..*old(self) }),
            *final(self) == *final(r),
    {
        self.body = Some(body);
        self
    }

    /// Open or close the pull request.
    pub fn state(&mut self, state: String) -> (r: &mut PullEditOptionsBuilder)
        ensures
            *r == (PullEditOptionsBuilder { state: Some(state), ..*old(self) }),
            *final(self) == *final(r),
    {
        self.state = Some(state);
        self
    }

    /// The options as set so far.
    pub fn build(&self) -> (r: PullEditOptions)
        ensures
            r.title == self.title,
            r.body == self.body,
            r.state == self.state,
    {
        PullEditOptions {
            title: clone_opt_string(&self.title),
            body: clone_opt_string(&self.body),
            state: clone_opt_string(&self.state),
        }
    }
}

/// The fields a pull request is opened with.
#[derive(Debug, Clone)]
pub struct PullOptions {
    pub title: String,
    pub head: String,
    pub base: String,
    pub body: Option<String>,
}

impl PullOptions {
    /// The JSON body these options are sent as: each field that is set, in
    /// declaration order.
    pub open spec fn json_rep(self) -> Jv {
        let ms = Seq::<(Seq<char>, Jv)>::empty();
        let ms = ms.push(("title"@, Jv::Str(self.title@)));
        let ms = ms.push(("head"@, Jv::Str(self.head@)));
        let ms = ms.push(("base"@, Jv::Str(self.base@)));
        let ms = if self.body is Some {
            ms.push(("body"@, Jv::Str(self.body.unwrap()@)))
        } else {
            ms
        };
        Jv::Obj(ms)
    }

    /// The JSON value these options are sent as.
    pub fn to_json(&self) -> (r: Json)
        ensures
            jv(r) == self.json_rep(),
    {
        let mut members: Vec<(String, Json)> = Vec::new();
        proof {
            lemma_members_empty();
        }
        push_member(&mut members, "title", Json::Str(self.title.clone()));
        push_member(&mut members, "head", Json::Str(self.head.clone()));
        push_member(&mut members, "base", Json::Str(self.base.clone()));
        push_opt_str(&mut members, "body", &self.body);
        proof {
            assert(jv_members(members@) =~= self.json_rep()->Obj_0);
        }
        Json::Obj(members)
    }

    /// The JSON text these options are sent as.
    pub fn to_json_string(&self) -> (r: String)
        ensures
            r@ == json_text(self.json_rep()),
    {
        self.to_json().encode()
    }

    /// Options with every field given at once.
    pub fn new(title: String, head: String, base: String, body: Option<String>) -> (r:
        PullOptions)
        ensures
            r.title == title,
            r.head == head,
            r.base == base,
            r.body == body,
    {
        PullOptions { title, head, base, body }
    }
}

/// The fields an issue is opened or edited with.
#[derive(Debug, Clone)]
pub struct IssueOptions {
    pub title: String,
    pub body: Option<String>,
    pub assignee: Option<String>,
    pub milestone: Option<u64>,
    pub labels: Vec<String>,
}

impl IssueOptions {
    /// The JSON body these options are sent as: each field that is set, in
    /// declaration order.
    pub open spec fn json_rep(self) -> Jv {
        let ms = Seq::<(Seq<char>, Jv)>::empty();
        let ms = ms.push(("title"@, Jv::Str(self.title@)));
        let ms = if self.body is Some {
            ms.push(("body"@, Jv::Str(self.body.unwrap()@)))
        } else {
            ms
        };
        let ms = if self.assignee is Some {
            ms.push(("assignee"@, Jv::Str(self.assignee.unwrap()@)))
        } else {
            ms
        };
        let ms = if self.milestone is Some {
            ms.push(("milestone"@, Jv::Int(self.milestone.unwrap() as i64)))
        } else {
            ms
        };
        let ms = ms.push(("labels"@, Jv::Arr(str_arr_rep(self.labels.deep_view()))));
        Jv::Obj(ms)
    }

    /// The JSON value these options are sent as.
    pub fn to_json(&self) -> (r: Json)
        ensures
            jv(r) == self.json_rep(),
    {
        let mut members: Vec<(String, Json)> = Vec::new();
        proof {
            lemma_members_empty();
        }
        push_member(&mut members, "title", Json::Str(self.title.clone()));
        push_opt_str(&mut members, "body", &self.body);
        push_opt_str(&mut members, "assignee", &self.assignee);
        push_opt_u64(&mut members, "milestone", &self.milestone);
        push_member(&mut members, "labels", strings_to_json(&self.labels));
        proof {
            assert(jv_members(members@) =~= self.json_rep()->Obj_0);
        }
        Json::Obj(members)
    }

    /// The JSON text these options are sent as.
    pub fn to_json_string(&self) -> (r: String)
        ensures
            r@ == json_text(self.json_rep()),
    {
        self.to_json().encode()
    }

    /// Options with every field given at once.
    pub fn new(
        title: String,
        body: Option<String>,
        assignee: Option<String>,
        milestone: Option<u64>,
        labels: Vec<String>,
    ) -> (r: IssueOptions)
        ensures
            r.title == title,
            r.body == body,
            r.assignee == assignee,
            r.milestone == milestone,
            r.labels == labels,
    {
        IssueOptions { title, body, assignee, milestone, labels }
    }
}

/// The fields a release is created with.
#[derive(Debug, Clone)]
pub struct ReleaseOptions {
    pub tag_name: String,
    pub target_commitish: Option<String>,
    pub name: Option<String>,
    pub body: Option<String>,
    pub draft: Option<bool>,
    pub prerelease: Option<bool>,
}

impl ReleaseOptions {
    /// The JSON body these options are sent as: each field that is set, in
    /// declaration order.
    pub open spec fn json_rep(self) -> Jv {
        let ms = Seq::<(Seq<char>, Jv)>::empty();
        let ms = ms.push(("tag_name"@, Jv::Str(self.tag_name@)));
        let ms = if self.target_commitish is Some {
            ms.push(("target_commitish"@, Jv::Str(self.target_commitish.unwrap()@)))
        } else {
            ms
        };
        let ms = if self.name is Some {
            ms.push(("name"@, Jv::Str(self.name.unwrap()@)))
        } else {
            ms
        };
        let ms = if self.body is Some {
            ms.push(("body"@, Jv::Str(self.body.unwrap()@)))
        } else {
            ms
        };
        let ms = if self.draft is Some {
            ms.push(("draft"@, Jv::Bool(self.draft.unwrap())))
        } else {
            ms
        };
        let ms = if self.prerelease is Some {
            ms.push(("prerelease"@, Jv::Bool(self.prerelease.unwrap())))
        } else {
            ms
        };
        Jv::Obj(ms)
    }

    /// The JSON value these options are sent as.
    pub fn to_json(&self) -> (r: Json)
        ensures
            jv(r) == self.json_rep(),
    {
        let mut members: Vec<(String, Json)> = Vec::new();
        proof {
            lemma_members_empty();
        }
        push_member(&mut members, "tag_name", Json::Str(self.tag_name.clone()));
        push_opt_str(&mut members, "target_commitish", &self.target_commitish);
        push_opt_str(&mut members, "name", &self.name);
        push_opt_str(&mut members, "body", &self.body);
        push_opt_bool(&mut members, "draft", &self.draft);
        push_opt_bool(&mut members, "prerelease", &self.prerelease);
        proof {
            assert(jv_members(members@) =~= self.json_rep()->Obj_0);
        }
        Json::Obj(members)
    }

    /// The JSON text these options are sent as.
    pub fn to_json_string(&self) -> (r: String)
        ensures
            r@ == json_text(self.json_rep()),
    {
        self.to_json().encode()
    }

    /// Options with every field given at once.
    pub fn new(
        tag: String,
        commit: Option<String>,
        name: Option<String>,
        body: Option<String>,
        draft: Option<bool>,
        prerelease: Option<bool>,
    ) -> (r: ReleaseOptions)
        ensures
            r.tag_name == tag,
            r.target_commitish == commit,
            r.name == name,
            r.body == body,
            r.draft == draft,
            r.prerelease == prerelease,
    {
        ReleaseOptions { tag_name: tag, target_commitish: commit, name, body, draft, prerelease }
    }

    /// A builder seeded with the tag to release.
    pub fn builder(tag: String) -> (r: ReleaseOptionsBuilder)
        ensures
            r.tag == tag,
            r.commitish is None,
            r.name is None,
            r.body is None,
            r.draft is None,
            r.prerelease is None,
    {
        ReleaseOptionsBuilder::new(tag)
    }
}

/// A builder of release options.
#[derive(Debug, Clone)]
pub struct ReleaseOptionsBuilder {
    pub tag: String,
    pub commitish: Option<String>,
    pub name: Option<String>,
    pub body: Option<String>,
    pub draft: Option<bool>,
    pub prerelease: Option<bool>,
}

impl ReleaseOptionsBuilder {
    /// A builder seeded with the tag to release.
    pub fn new(tag: String) -> (r: ReleaseOptionsBuilder)
        ensures
            r.tag == tag,
            r.commitish is None,
            r.name is None,
            r.body is None,
            r.draft is None,
            r.prerelease is None,
    {
        ReleaseOptionsBuilder {
            tag,
            commitish: None,
            name: None,
            body: None,
            draft: None,
            prerelease: None,
        }
    }

    /// Name the commit the tag points at.
    pub fn commitish(&mut self, commit: String) -> (r: &mut ReleaseOptionsBuilder)
        ensures
            *r == (ReleaseOptionsBuilder { commitish: Some(commit), ..*old(self) }),
            *final(self) == *final(r),
    {
        self.commitish = Some(commit);
        self
    }

    /// Title the release.
    pub fn name(&mut self, name: String) -> (r: &mut ReleaseOptionsBuilder)
        ensures
            *r == (ReleaseOptionsBuilder { name: Some(name), ..*old(self) }),
            *final(self) == *final(r),
    {
        self.name = Some(name);
        self
    }

    /// Describe the release.
    pub fn body(&mut self, body: String) -> (r: &mut ReleaseOptionsBuilder)
        ensures
            *r == (ReleaseOptionsBuilder { body: Some(body), ..*old(self) }),
            *final(self) == *final(r),
    {
        self.body = Some(body);
        self
    }

    /// Mark the release as a draft or not.
    pub fn draft(&mut self, draft: bool) -> (r: &mut ReleaseOptionsBuilder)
        ensures
            *r == (ReleaseOptionsBuilder { draft: Some(draft), ..*old(self) }),
            *final(self) == *final(r),
    {
        self.draft = Some(draft);
        self
    }

    /// Mark the release as a prerelease or not.
    pub fn prerelease(&mut self, pre: bool) -> (r: &mut ReleaseOptionsBuilder)
        ensures
            *r == (ReleaseOptionsBuilder { prerelease: Some(pre), ..*old(self) }),
            *final(self) == *final(r),
    {
        self.prerelease = Some(pre);
        self
    }

    /// The options as set so far.
    pub fn build(&self) -> (r: ReleaseOptions)
        ensures
            r.tag_name == self.tag,
            r.target_commitish == self.commitish,
            r.name == self.name,
            r.body == self.body,
            r.draft == self.draft,
            r.prerelease == self.prerelease,
    {
        ReleaseOptions::new(
            self.tag.clone(),
            clone_opt_string(&self.commitish),
            clone_opt_string(&self.name),
            clone_opt_string(&self.body),
            self.draft,
            self.prerelease,
        )
    }
}

/// The fields a repository is created with.
#[derive(Debug, Clone)]
pub struct RepoOptions {
    pub name: String,
    pub description: Option<String>,
    pub homepage: Option<String>,
    pub private: Option<bool>,
    pub has_issues: Option<bool>,
    pub has_wiki: Option<bool>,
    pub has_downloads: Option<bool>,
    pub team_id: Option<i32>,
    pub auto_init: Option<bool>,
    pub gitignore_template: Option<String>,
    pub license_template: Option<String>,
}

impl RepoOptions {
    /// The JSON body these options are sent as: each field that is set, in
    /// declaration order.
    pub open spec fn json_rep(self) -> Jv {
        let ms = Seq::<(Seq<char>, Jv)>::empty();
        let ms = ms.push(("name"@, Jv::Str(self.name@)));
        let ms = if self.description is Some {
            ms.push(("description"@, Jv::Str(self.description.unwrap()@)))
        } else {
            ms
        };
        let ms = if self.homepage is Some {
            ms.push(("homepage"@, Jv::Str(self.homepage.unwrap()@)))
        } else {
            ms
        };
        let ms = if self.private is Some {
            ms.push(("private"@, Jv::Bool(self.private.unwrap())))
        } else {
            ms
        };
        let ms = if self.has_issues is Some {
            ms.push(("has_issues"@, Jv::Bool(self.has_issues.unwrap())))
        } else {
            ms
        };
        let ms = if self.has_wiki is Some {
            ms.push(("has_wiki"@, Jv::Bool(self.has_wiki.unwrap())))
        } else {
            ms
        };
        let ms = if self.has_downloads is Some {
            ms.push(("has_downloads"@, Jv::Bool(self.has_downloads.unwrap())))
        } else {
            ms
        };
        let ms = if self.team_id is Some {
            ms.push(("team_id"@, Jv::Int(self.team_id.unwrap() as i64)))
        } else {
            ms
        };
        let ms = if self.auto_init is Some {
            ms.push(("auto_init"@, Jv::Bool(self.auto_init.unwrap())))
        } else {
            ms
        };
        let ms = if self.gitignore_template is Some {
            ms.push(("gitignore_template"@, Jv::Str(self.gitignore_template.unwrap()@)))
        } else {
            ms
        };
        let ms = if self.license_template is Some {
            ms.push(("license_template"@, Jv::Str(self.license_template.unwrap()@)))
        } else {
            ms
        };
        Jv::Obj(ms)
    }

    /// The JSON value these options are sent as.
    pub fn to_json(&self) -> (r: Json)
        ensures
            jv(r) == self.json_rep(),
    {
        let mut members: Vec<(String, Json)> = Vec::new();
        proof {
            lemma_members_empty();
        }
        push_member(&mut members, "name", Json::Str(self.name.clone()));
        push_opt_str(&mut members, "description", &self.description);
        push_opt_str(&mut members, "homepage", &self.homepage);
        push_opt_bool(&mut members, "private", &self.private);
        push_opt_bool(&mut members, "has_issues", &self.has_issues);
        push_opt_bool(&mut members, "has_wiki", &self.has_wiki);
        push_opt_bool(&mut members, "has_downloads", &self.has_downloads);
        push_opt_i32(&mut members, "team_id", &self.team_id);
        push_opt_bool(&mut members, "auto_init", &self.auto_init);
        push_opt_str(&mut members, "gitignore_template", &self.gitignore_template);
        push_opt_str(&mut members, "license_template", &self.license_template);
        proof {
            assert(jv_members(members@) =~= self.json_rep()->Obj_0);
        }
        Json::Obj(members)
    }

    /// The JSON text these options are sent as.
    pub fn to_json_string(&self) -> (r: String)
        ensures
            r@ == json_text(self.json_rep()),
    {
        self.to_json().encode()
    }

    /// Options with every field given at once.
    pub fn new(
        name: String,
        description: Option<String>,
        homepage: Option<String>,
        private: Option<bool>,
        has_issues: Option<bool>,
        has_wiki: Option<bool>,
        has_downloads: Option<bool>,
        team_id: Option<i32>,
        auto_init: Option<bool>,
        gitignore_template: Option<String>,
        license_template: Option<String>,
    ) -> (r: RepoOptions)
        ensures
            r.name == name,
            r.description == description,
            r.homepage == homepage,
            r.private == private,
            r.has_issues == has_issues,
            r.has_wiki == has_wiki,
            r.has_downloads == has_downloads,
            r.team_id == team_id,
            r.auto_init == auto_init,
            r.gitignore_template == gitignore_template,
            r.license_template == license_template,
    {
        RepoOptions {
            name,
            description,
            homepage,
            private,
            has_issues,
            has_wiki,
            has_downloads,
            team_id,
            auto_init,
            gitignore_template,
            license_template,
        }
    }

    /// A builder seeded with the repository name.
    pub fn builder(name: String) -> (r: RepoOptionsBuilder)
        ensures
            r.name == name,
    {
        RepoOptionsBuilder::new(name)
    }
}

/// A builder of repository creation options.
#[derive(Debug, Clone)]
pub struct RepoOptionsBuilder {
    pub name: String,
    pub description: Option<String>,
    pub homepage: Option<String>,
    pub private: Option<bool>,
    pub has_issues: Option<bool>,
    pub has_wiki: Option<bool>,
    pub has_downloads: Option<bool>,
    pub team_id: Option<i32>,
    pub auto_init: Option<bool>,
    pub gitignore_template: Option<String>,
    pub license_template: Option<String>,
}

impl RepoOptionsBuilder {
    /// A builder seeded with the repository name.
    pub fn new(name: String) -> (r: RepoOptionsBuilder)
        ensures
            r.name == name,
            r.description is None,
            r.homepage is None,
            r.private is None,
            r.has_issues is None,
            r.has_wiki is None,
            r.has_downloads is None,
            r.team_id is None,
            r.auto_init is None,
            r.gitignore_template is None,
            r.license_template is None,
    {
        RepoOptionsBuilder {
            name,
            description: None,
            homepage: None,
            private: None,
            has_issues: None,
            has_wiki: None,
            has_downloads: None,
            team_id: None,
            auto_init: None,
            gitignore_template: None,
            license_template: None,
        }
    }

    /// Describe the repository.
    pub fn description(&mut self, description: String) -> (r: &mut RepoOptionsBuilder)
        ensures
            *r == (RepoOptionsBuilder { description: Some(description), ..*old(self) }),
            *final(self) == *final(r),
    {
        self.description = Some(description);
        self
    }

    /// Link the repository's home page.
    pub fn homepage(&mut self, homepage: String) -> (r: &mut RepoOptionsBuilder)
        ensures
            *r == (RepoOptionsBuilder { homepage: Some(homepage), ..*old(self) }),
            *final(self) == *final(r),
    {
        self.homepage = Some(homepage);
        self
    }

    /// Make the repository private or public.
    pub fn private(&mut self, private: bool) -> (r: &mut RepoOptionsBuilder)
        ensures
            *r == (RepoOptionsBuilder { private: Some(private), ..*old(self) }),
            *final(self) == *final(r),
    {
        self.private = Some(private);
        self
    }

    /// Switch the issue tracker on or off.
    pub fn has_issues(&mut self, has_issues: bool) -> (r: &mut RepoOptionsBuilder)
        ensures
            *r == (RepoOptionsBuilder { has_issues: Some(has_issues), ..*old(self) }),
            *final(self) == *final(r),
    {
        self.has_issues = Some(has_issues);
        self
    }

    /// Switch the wiki on or off.
    pub fn has_wiki(&mut self, has_wiki: bool) -> (r: &mut RepoOptionsBuilder)
        ensures
            *r == (RepoOptionsBuilder { has_wiki: Some(has_wiki), ..*old(self) }),
            *final(self) == *final(r),
    {
        self.has_wiki = Some(has_wiki);
        self
    }

    /// Switch downloads on or off.
    pub fn has_downloads(&mut self, has_downloads: bool) -> (r: &mut RepoOptionsBuilder)
        ensures
            *r == (RepoOptionsBuilder { has_downloads: Some(has_downloads), ..*old(self) }),
            *final(self) == *final(r),
    {
        self.has_downloads = Some(has_downloads);
        self
    }

    /// Grant a team access by its identifier.
    pub fn team_id(&mut self, team_id: i32) -> (r: &mut RepoOptionsBuilder)
        ensures
            *r == (RepoOptionsBuilder { team_id: Some(team_id), ..*old(self) }),
            *final(self) == *final(r),
    {
        self.team_id = Some(team_id);
        self
    }

    /// Create an initial commit or not.
    pub fn auto_init(&mut self, auto_init: bool) -> (r: &mut RepoOptionsBuilder)
        ensures
            *r == (RepoOptionsBuilder { auto_init: Some(auto_init), ..*old(self) }),
            *final(self) == *final(r),
    {
        self.auto_init = Some(auto_init);
        self
    }

    /// Seed an ignore file from a template.
    pub fn gitignore_template(&mut self, gitignore_template: String) -> (r: &mut RepoOptionsBuilder)
        ensures
            *r == (RepoOptionsBuilder { gitignore_template: Some(gitignore_template), ..*old(self) }),
            *final(self) == *final(r),
    {
        self.gitignore_template = Some(gitignore_template);
        self
    }

    /// Seed a license from a template.
    pub fn license_template(&mut self, license_template: String) -> (r: &mut RepoOptionsBuilder)
        ensures
            *r == (RepoOptionsBuilder { license_template: Some(license_template), ..*old(self) }),
            *final(self) == *final(r),
    {
        self.license_template = Some(license_template);
        self
    }

    /// The options as set so far.
    pub fn build(&self) -> (r: RepoOptions)
        ensures
            r.name == self.name,
            r.description == self.description,
            r.homepage == self.homepage,
            r.private == self.private,
            r.has_issues == self.has_issues,
            r.has_wiki == self.has_wiki,
            r.has_downloads == self.has_downloads,
            r.team_id == self.team_id,
            r.auto_init == self.auto_init,
            r.gitignore_template == self.gitignore_template,
            r.license_template == self.license_template,
    {
        RepoOptions::new(
            self.name.clone(),
            clone_opt_string(&self.description),
            clone_opt_string(&self.homepage),
            self.private,
            self.has_issues,
            self.has_wiki,
            self.has_downloads,
            self.team_id,
            self.auto_init,
            clone_opt_string(&self.gitignore_template),
            clone_opt_string(&self.license_template),
        )
    }
}

/// The fields a deploy key is added with.
#[derive(Debug, Clone)]
pub struct KeyOptions {
    pub title: String,
    pub key: String,
    pub read_only: bool,
}

impl KeyOptions {
    /// The JSON body these options are sent as: each field that is set, in
    /// declaration order.
    pub open spec fn json_rep(self) -> Jv {
        let ms = Seq::<(Seq<char>, Jv)>::empty();
        let ms = ms.push(("title"@, Jv::Str(self.title@)));
        let ms = ms.push(("key"@, Jv::Str(self.key@)));
        let ms = ms.push(("read_only"@, Jv::Bool(self.read_only)));
        Jv::Obj(ms)
    }

    /// The JSON value these options are sent as.
    pub fn to_json(&self) -> (r: Json)
        ensures
            jv(r) == self.json_rep(),
    {
        let mut members: Vec<(String, Json)> = Vec::new();
        proof {
            lemma_members_empty();
        }
        push_member(&mut members, "title", Json::Str(self.title.clone()));
        push_member(&mut members, "key", Json::Str(self.key.clone()));
        push_member(&mut members, "read_only", Json::Bool(self.read_only));
        proof {
            assert(jv_members(members@) =~= self.json_rep()->Obj_0);
        }
        Json::Obj(members)
    }

    /// The JSON text these options are sent as.
    pub fn to_json_string(&self) -> (r: String)
        ensures
            r@ == json_text(self.json_rep()),
    {
        self.to_json().encode()
    }
}


/// Append an optional string member when it is set.
fn push_opt_str(members: &mut Vec<(String, Json)>, k: &str, o: &Option<String>)
    ensures
        jv_members(final(members)@) == (if *o is Some {
            jv_members(old(members)@).push((k@, Jv::Str(o.unwrap()@)))
        } else {
            jv_members(old(members)@)
        }),
{
    match o {
        Some(x) => push_member(members, k, Json::Str(x.clone())),
        None => {},
    }
}

/// Append an optional boolean member when it is set.
fn push_opt_bool(members: &mut Vec<(String, Json)>, k: &str, o: &Option<bool>)
    ensures
        jv_members(final(members)@) == (if *o is Some {
            jv_members(old(members)@).push((k@, Jv::Bool(o.unwrap())))
        } else {
            jv_members(old(members)@)
        }),
{
    match o {
        Some(x) => push_member(members, k, Json::Bool(*x)),
        None => {},
    }
}

/// Append an optional integer member when it is set.
fn push_opt_i32(members: &mut Vec<(String, Json)>, k: &str, o: &Option<i32>)
    ensures
        jv_members(final(members)@) == (if *o is Some {
            jv_members(old(members)@).push((k@, Jv::Int(o.unwrap() as i64)))
        } else {
            jv_members(old(members)@)
        }),
{
    match o {
        Some(x) => push_member(members, k, Json::Int(*x as i64)),
        None => {},
    }
}

/// Append an optional count member when it is set.
fn push_opt_u64(members: &mut Vec<(String, Json)>, k: &str, o: &Option<u64>)
    ensures
        jv_members(final(members)@) == (if *o is Some {
            jv_members(old(members)@).push((k@, Jv::Int(o.unwrap() as i64)))
        } else {
            jv_members(old(members)@)
        }),
{
    match o {
        Some(x) => push_member(members, k, Json::Int(*x as i64)),
        None => {},
    }
}


/// One file of a gist: its contents, and a new name when it is renamed.
#[derive(Debug, Clone)]
pub struct Content {
    pub filename: Option<String>,
    pub content: String,
}

impl Content {
    /// A file with the given contents, renamed when a name is given.
    pub fn new(filename: Option<String>, content: String) -> (r: Content)
        ensures
            r.filename == filename,
            r.content == content,
    {
        Content { filename, content }
    }

    /// The JSON shape one gist file is written as.
    pub open spec fn json_rep(self) -> Jv {
        let ms = Seq::<(Seq<char>, Jv)>::empty();
        let ms = if self.filename is Some {
            ms.push(("filename"@, Jv::Str(self.filename.unwrap()@)))
        } else {
            ms
        };
        let ms = ms.push(("content"@, Jv::Str(self.content@)));
        Jv::Obj(ms)
    }

    /// The JSON value one gist file is written as.
    pub fn to_json(&self) -> (r: Json)
        ensures
            jv(r) == self.json_rep(),
    {
        let mut members: Vec<(String, Json)> = Vec::new();
        proof {
            lemma_members_empty();
        }
        push_opt_str(&mut members, "filename", &self.filename);
        push_member(&mut members, "content", Json::Str(self.content.clone()));
        proof {
            assert(jv_members(members@) =~= self.json_rep()->Obj_0);
        }
        Json::Obj(members)
    }
}

/// The JSON members of a gist's file table: each file under its name, in
/// order.
pub open spec fn gist_files_rep(files: Seq<(String, Content)>) -> Seq<(Seq<char>, Jv)> {
    Seq::new(files.len(), |i: int| (files[i].0@, files[i].1.json_rep()))
}

/// The JSON object of a gist's file table.
#[verifier::loop_isolation(false)]
fn files_to_json(files: &Vec<(String, Content)>) -> (r: Json)
    ensures
        jv(r) == Jv::Obj(gist_files_rep(files@)),
{
    let mut members: Vec<(String, Json)> = Vec::new();
    proof {
        lemma_members_empty();
    }
    let n = files.len();
    let mut i: usize = 0;
    while i < n
        invariant
            i <= n,
            jv_members(members@) == gist_files_rep(files@).subrange(0, i as int),
        decreases n - i,
    {
        let f = &files[i];
        push_member(&mut members, f.0.as_str(), f.1.to_json());
        proof {
            assert(jv_members(members@) =~= gist_files_rep(files@).subrange(0, i as int + 1));
        }
        i += 1;
    }
    proof {
        assert(gist_files_rep(files@).subrange(0, n as int) =~= gist_files_rep(files@));
    }
    Json::Obj(members)
}

/// The file table a plain name-to-contents list stands for: each entry a
/// file with no new name.
pub open spec fn contents_rep(files: Seq<(String, String)>, r: Seq<(String, Content)>) -> bool {
    &&& r.len() == files.len()
    &&& forall|i: int|
        0 <= i < files.len() ==> (#[trigger] r[i]).0 == files[i].0 && r[i].1.filename is None
            && r[i].1.content == files[i].1
}

/// The file table of a plain name-to-contents list.
#[verifier::loop_isolation(false)]
fn contents_of(files: &Vec<(String, String)>) -> (r: Vec<(String, Content)>)
    ensures
        contents_rep(files@, r@),
{
    let mut out: Vec<(String, Content)> = Vec::new();
    let n = files.len();
    let mut i: usize = 0;
    while i < n
        invariant
            i <= n,
            out@.len() == i,
            forall|k: int|
                0 <= k < i ==> (#[trigger] out@[k]).0 == files@[k].0 && out@[k].1.filename
                    is None && out@[k].1.content == files@[k].1,
        decreases n - i,
    {
        let f = &files[i];
        out.push((f.0.clone(), Content { filename: None, content: f.1.clone() }));
        i += 1;
    }
    out
}

/// A copy of a file table.
#[verifier::loop_isolation(false)]
fn clone_contents(files: &Vec<(String, Content)>) -> (r: Vec<(String, Content)>)
    ensures
        r@ == files@,
{
    let mut out: Vec<(String, Content)> = Vec::new();
    let n = files.len();
    let mut i: usize = 0;
    while i < n
        invariant
            i <= n,
            out@ == files@.subrange(0, i as int),
        decreases n - i,
    {
        let f = &files[i];
        out.push(
            (f.0.clone(), Content {
                filename: clone_opt_string(&f.1.filename),
                content: f.1.content.clone(),
            }),
        );
        proof {
            assert(out@ =~= files@.subrange(0, i as int + 1));
        }
        i += 1;
    }
    proof {
        assert(files@.subrange(0, n as int) =~= files@);
    }
    out
}

/// The fields a gist is created with.
#[derive(Debug, Clone)]
pub struct GistOptions {
    pub description: Option<String>,
    pub public: Option<bool>,
    pub files: Vec<(String, Content)>,
}

impl GistOptions {
    /// The JSON body these options are sent as: the optional description
    /// and visibility, then the file table.
    pub open spec fn json_rep(self) -> Jv {
        let ms = Seq::<(Seq<char>, Jv)>::empty();
        let ms = if self.description is Some {
            ms.push(("description"@, Jv::Str(self.description.unwrap()@)))
        } else {
            ms
        };
        let ms = if self.public is Some {
            ms.push(("public"@, Jv::Bool(self.public.unwrap())))
        } else {
            ms
        };
        let ms = ms.push(("files"@, Jv::Obj(gist_files_rep(self.files@))));
        Jv::Obj(ms)
    }

    /// The JSON value these options are sent as.
    pub fn to_json(&self) -> (r: Json)
        ensures
            jv(r) == self.json_rep(),
    {
        let mut members: Vec<(String, Json)> = Vec::new();
        proof {
            lemma_members_empty();
        }
        push_opt_str(&mut members, "description", &self.description);
        push_opt_bool(&mut members, "public", &self.public);
        push_member(&mut members, "files", files_to_json(&self.files));
        proof {
            assert(jv_members(members@) =~= self.json_rep()->Obj_0);
        }
        Json::Obj(members)
    }

    /// The JSON text these options are sent as.
    pub fn to_json_string(&self) -> (r: String)
        ensures
            r@ == json_text(self.json_rep()),
    {
        self.to_json().encode()
    }

    /// Options with every field given at once: the files are plain
    /// name-to-contents pairs.
    pub fn new(desc: Option<String>, public: bool, files: Vec<(String, String)>) -> (r:
        GistOptions)
        ensures
            r.description == desc,
            r.public == Some(public),
            contents_rep(files@, r.files@),
    {
        let contents = contents_of(&files);
        GistOptions { description: desc, public: Some(public), files: contents }
    }

    /// A builder seeded with plain name-to-contents pairs.
    pub fn builder(files: Vec<(String, String)>) -> (r: GistOptionsBuilder)
        ensures
            r.description is None,
            r.public is None,
            contents_rep(files@, r.files@),
    {
        GistOptionsBuilder::new(files)
    }
}

/// A builder of gist options.
#[derive(Debug, Clone)]
pub struct GistOptionsBuilder {
    pub description: Option<String>,
    pub public: Option<bool>,
    pub files: Vec<(String, Content)>,
}

impl GistOptionsBuilder {
    /// A builder seeded with plain name-to-contents pairs.
    pub fn new(files: Vec<(String, String)>) -> (r: GistOptionsBuilder)
        ensures
            r.description is None,
            r.public is None,
            contents_rep(files@, r.files@),
    {
        let contents = contents_of(&files);
        GistOptionsBuilder { description: None, public: None, files: contents }
    }

    /// Describe the gist.
    pub fn description(&mut self, desc: String) -> (r: &mut GistOptionsBuilder)
        ensures
            *r == (GistOptionsBuilder { description: Some(desc), ..*old(self) }),
            *final(self) == *final(r),
    {
        self.description = Some(desc);
        self
    }

    /// Make the gist public or secret.
    pub fn public(&mut self, p: bool) -> (r: &mut GistOptionsBuilder)
        ensures
            *r == (GistOptionsBuilder { public: Some(p), ..*old(self) }),
            *final(self) == *final(r),
    {
        self.public = Some(p);
        self
    }

    /// The options as set so far.
    pub fn build(&self) -> (r: GistOptions)
        ensures
            r.description == self.description,
            r.public == self.public,
            r.files@ == self.files@,
    {
        GistOptions {
            description: clone_opt_string(&self.description),
            public: self.public,
            files: clone_contents(&self.files),
        }
    }
}


/// Insert `(k, v)` into an object's member list: the first member with
/// that key is replaced in place, and a fresh key is appended.
#[verifier::loop_isolation(false)]
fn obj_insert(entries: &mut Vec<(String, Json)>, k: &str, v: Json)
    ensures
        jv_members(final(entries)@) == pairs_insert(jv_members(old(entries)@), k@, jv(v)),
{
    let ghost orig = jv_members(old(entries)@);
    proof {
        lemma_jv_members(old(entries)@);
    }
    let n = entries.len();
    let mut i: usize = 0;
    while i < n
        invariant
            i <= n,
            entries@ == old(entries)@,
            forall|j: int| 0 <= j < i ==> (#[trigger] orig[j]).0 != k@,
        decreases n - i,
    {
        let hit = {
            let pair = &entries[i];
            crate::params::str_eq(pair.0.as_str(), k)
        };
        if hit {
            entries.set(i, (k.to_owned(), v));
            proof {
                lemma_jv_members(entries@);
                assert(jv_members(entries@) =~= orig.update(i as int, (k@, jv(v))));
                crate::params::lemma_insert_found(orig, k@, jv(v), i as int);
            }
            return ;
        }
        i += 1;
    }
    let key = k.to_owned();
    proof {
        lemma_jv_members_push(entries@, key, v);
    }
    entries.push((key, v));
    proof {
        crate::params::lemma_insert_missing(orig, k@, jv(v));
    }
}

/// A copy of an object's member list, denoting the same members.
#[verifier::loop_isolation(false)]
fn clone_members(m: &Vec<(String, Json)>) -> (r: Vec<(String, Json)>)
    ensures
        jv_members(r@) == jv_members(m@),
{
    let mut out: Vec<(String, Json)> = Vec::new();
    let n = m.len();
    let mut i: usize = 0;
    while i < n
        invariant
            i <= n,
            out@.len() == i,
            forall|k: int|
                0 <= k < i ==> (#[trigger] out@[k]).0@ == m@[k].0@ && jv(out@[k].1) == jv(
                    m@[k].1,
                ),
        decreases n - i,
    {
        let p = &m[i];
        out.push((p.0.clone(), crate::json::clone_json(&p.1)));
        i += 1;
    }
    proof {
        lemma_jv_members(out@);
        lemma_jv_members(m@);
        assert(jv_members(out@) =~= jv_members(m@));
    }
    out
}

/// The fields a repository hook is created with. The configuration is a
/// key-value table whose values are JSON.
#[derive(Debug)]
pub struct HookCreateOptions {
    pub name: String,
    pub config: Vec<(String, Json)>,
    pub events: Vec<String>,
    pub active: bool,
}

impl HookCreateOptions {
    /// The JSON body these options are sent as.
    pub open spec fn json_rep(self) -> Jv {
        Jv::Obj(
            Seq::<(Seq<char>, Jv)>::empty().push(("name"@, Jv::Str(self.name@))).push(
                ("config"@, Jv::Obj(jv_members(self.config@))),
            ).push(("events"@, Jv::Arr(str_arr_rep(self.events.deep_view())))).push(
                ("active"@, Jv::Bool(self.active)),
            ),
        )
    }

    /// The JSON value these options are sent as.
    pub fn to_json(&self) -> (r: Json)
        ensures
            jv(r) == self.json_rep(),
    {
        let mut members: Vec<(String, Json)> = Vec::new();
        proof {
            lemma_members_empty();
        }
        push_member(&mut members, "name", Json::Str(self.name.clone()));
        push_member(&mut members, "config", Json::Obj(clone_members(&self.config)));
        push_member(&mut members, "events", strings_to_json(&self.events));
        push_member(&mut members, "active", Json::Bool(self.active));
        proof {
            assert(jv_members(members@) =~= self.json_rep()->Obj_0);
        }
        Json::Obj(members)
    }

    /// The JSON text these options are sent as.
    pub fn to_json_string(&self) -> (r: String)
        ensures
            r@ == json_text(self.json_rep()),
    {
        self.to_json().encode()
    }

    /// A builder seeded with the hook's service name; only `web` or a
    /// service the API recognizes is accepted there.
    pub fn builder(name: String) -> (r: HookCreateOptionsBuilder)
        ensures
            r.name == name,
            jv_members(r.config@) == Seq::<(Seq<char>, Jv)>::empty(),
            r.events@ == Seq::<String>::empty(),
            r.active,
    {
        HookCreateOptionsBuilder::new(name)
    }

    /// A builder for a web hook.
    pub fn web() -> (r: HookCreateOptionsBuilder)
        ensures
            r.name@ == "web"@,
            jv_members(r.config@) == Seq::<(Seq<char>, Jv)>::empty(),
            r.events@ == Seq::<String>::empty(),
            r.active,
    {
        HookCreateOptionsBuilder::new(String::from_str("web"))
    }
}

/// A builder of hook creation options.
#[derive(Debug)]
pub struct HookCreateOptionsBuilder {
    pub name: String,
    pub config: Vec<(String, Json)>,
    pub events: Vec<String>,
    pub active: bool,
}

impl HookCreateOptionsBuilder {
    /// A builder seeded with the hook's service name; the hook starts
    /// active.
    pub fn new(name: String) -> (r: HookCreateOptionsBuilder)
        ensures
            r.name == name,
            jv_members(r.config@) == Seq::<(Seq<char>, Jv)>::empty(),
            r.events@ == Seq::<String>::empty(),
            r.active,
    {
        let r = HookCreateOptionsBuilder { name, config: Vec::new(), events: Vec::new(), active: true };
        proof {
            lemma_members_empty();
            assert(r.config@ =~= Seq::<(String, Json)>::empty());
            assert(r.events@ =~= Seq::<String>::empty());
        }
        r
    }

    /// Switch the hook on or off.
    pub fn active(&mut self, active: bool) -> (r: &mut HookCreateOptionsBuilder)
        ensures
            *r == (HookCreateOptionsBuilder { active, ..*old(self) }),
            *final(self) == *final(r),
    {
        self.active = active;
        self
    }

    /// The events the hook receives deliveries for.
    pub fn events(&mut self, events: Vec<String>) -> (r: &mut HookCreateOptionsBuilder)
        ensures
            *r == (HookCreateOptionsBuilder { events, ..*old(self) }),
            *final(self) == *final(r),
    {
        self.events = events;
        self
    }

    /// The URL a web hook delivers to; web hooks must set one.
    pub fn url(&mut self, url: String) -> (r: &mut HookCreateOptionsBuilder)
        ensures
            jv_members(r.config@) == pairs_insert(
                jv_members(old(self).config@),
                "url"@,
                Jv::Str(url@),
            ),
            r.name == old(self).name,
            r.events == old(self).events,
            r.active == old(self).active,
            *final(self) == *final(r),
    {
        self.config_entry("url", Json::Str(url))
    }

    /// The payload form a web hook delivers in.
    pub fn content_type(&mut self, content_type: WebHookContentType) -> (r:
        &mut HookCreateOptionsBuilder)
        ensures
            jv_members(r.config@) == pairs_insert(
                jv_members(old(self).config@),
                "content_type"@,
                Jv::Str(content_type.param_view()),
            ),
            r.name == old(self).name,
            r.events == old(self).events,
            r.active == old(self).active,
            *final(self) == *final(r),
    {
        self.config_str_entry("content_type", content_type.to_param())
    }

    /// The secret deliveries are signed with.
    pub fn secret(&mut self, sec: String) -> (r: &mut HookCreateOptionsBuilder)
        ensures
            jv_members(r.config@) == pairs_insert(
                jv_members(old(self).config@),
                "secret"@,
                Jv::Str(sec@),
            ),
            r.name == old(self).name,
            r.events == old(self).events,
            r.active == old(self).active,
            *final(self) == *final(r),
    {
        self.config_str_entry("secret", sec)
    }

    /// Set one string-valued configuration entry.
    pub fn config_str_entry(&mut self, k: &str, v: String) -> (r: &mut HookCreateOptionsBuilder)
        ensures
            jv_members(r.config@) == pairs_insert(
                jv_members(old(self).config@),
                k@,
                Jv::Str(v@),
            ),
            r.name == old(self).name,
            r.events == old(self).events,
            r.active == old(self).active,
            *final(self) == *final(r),
    {
        self.config_entry(k, Json::Str(v))
    }

    /// Set one configuration entry.
    pub fn config_entry(&mut self, name: &str, value: Json) -> (r: &mut HookCreateOptionsBuilder)
        ensures
            jv_members(r.config@) == pairs_insert(
                jv_members(old(self).config@),
                name@,
                jv(value),
            ),
            r.name == old(self).name,
            r.events == old(self).events,
            r.active == old(self).active,
            *final(self) == *final(r),
    {
        obj_insert(&mut self.config, name, value);
        self
    }

    /// The options as set so far.
    pub fn build(&self) -> (r: HookCreateOptions)
        ensures
            r.name == self.name,
            jv_members(r.config@) == jv_members(self.config@),
            r.events@ == self.events@,
            r.active == self.active,
    {
        HookCreateOptions {
            name: self.name.clone(),
            config: clone_members(&self.config),
            events: clone_strings(&self.events),
            active: self.active,
        }
    }
}

/// The fields an existing repository hook is edited with.
#[derive(Debug)]
pub struct HookEditOptions {
    pub config: Vec<(String, Json)>,
    pub events: Vec<String>,
    pub add_events: Vec<String>,
    pub remove_events: Vec<String>,
    pub active: bool,
}

impl HookEditOptions {
    /// The JSON body these options are sent as.
    pub open spec fn json_rep(self) -> Jv {
        Jv::Obj(
            Seq::<(Seq<char>, Jv)>::empty().push(
                ("config"@, Jv::Obj(jv_members(self.config@))),
            ).push(("events"@, Jv::Arr(str_arr_rep(self.events.deep_view())))).push(
                ("add_events"@, Jv::Arr(str_arr_rep(self.add_events.deep_view()))),
            ).push(
                ("remove_events"@, Jv::Arr(str_arr_rep(self.remove_events.deep_view()))),
            ).push(("active"@, Jv::Bool(self.active))),
        )
    }

    /// The JSON value these options are sent as.
    pub fn to_json(&self) -> (r: Json)
        ensures
            jv(r) == self.json_rep(),
    {
        let mut members: Vec<(String, Json)> = Vec::new();
        proof {
            lemma_members_empty();
        }
        push_member(&mut members, "config", Json::Obj(clone_members(&self.config)));
        push_member(&mut members, "events", strings_to_json(&self.events));
        push_member(&mut members, "add_events", strings_to_json(&self.add_events));
        push_member(&mut members, "remove_events", strings_to_json(&self.remove_events));
        push_member(&mut members, "active", Json::Bool(self.active));
        proof {
            assert(jv_members(members@) =~= self.json_rep()->Obj_0);
        }
        Json::Obj(members)
    }

    /// The JSON text these options are sent as.
    pub fn to_json_string(&self) -> (r: String)
        ensures
            r@ == json_text(self.json_rep()),
    {
        self.to_json().encode()
    }

    /// A builder with nothing set.
    pub fn builder() -> (r: HookEditOptionsBuilder)
        ensures
            jv_members(r.config@) == Seq::<(Seq<char>, Jv)>::empty(),
            r.events@ == Seq::<String>::empty(),
            r.add_events@ == Seq::<String>::empty(),
            r.remove_events@ == Seq::<String>::empty(),
            !r.active,
    {
        HookEditOptionsBuilder::new()
    }
}

/// A builder of hook edits.
#[derive(Debug)]
pub struct HookEditOptionsBuilder {
    pub config: Vec<(String, Json)>,
    pub events: Vec<String>,
    pub add_events: Vec<String>,
    pub remove_events: Vec<String>,
    pub active: bool,
}

impl HookEditOptionsBuilder {
    /// A builder with nothing set.
    pub fn new() -> (r: HookEditOptionsBuilder)
        ensures
            jv_members(r.config@) == Seq::<(Seq<char>, Jv)>::empty(),
            r.events@ == Seq::<String>::empty(),
            r.add_events@ == Seq::<String>::empty(),
            r.remove_events@ == Seq::<String>::empty(),
            !r.active,
    {
        let r = HookEditOptionsBuilder {
            config: Vec::new(),
            events: Vec::new(),
            add_events: Vec::new(),
            remove_events: Vec::new(),
            active: false,
        };
        proof {
            lemma_members_empty();
            assert(r.config@ =~= Seq::<(String, Json)>::empty());
            assert(r.events@ =~= Seq::<String>::empty());
            assert(r.add_events@ =~= Seq::<String>::empty());
            assert(r.remove_events@ =~= Seq::<String>::empty());
        }
        r
    }

    /// Switch the hook on or off.
    pub fn active(&mut self, active: bool) -> (r: &mut HookEditOptionsBuilder)
        ensures
            *r == (HookEditOptionsBuilder { active, ..*old(self) }),
            *final(self) == *final(r),
    {
        self.active = active;
        self
    }

    /// The events the hook receives deliveries for.
    pub fn events(&mut self, events: Vec<String>) -> (r: &mut HookEditOptionsBuilder)
        ensures
            *r == (HookEditOptionsBuilder { events, ..*old(self) }),
            *final(self) == *final(r),
    {
        self.events = events;
        self
    }

    /// The URL a web hook delivers to.
    pub fn url(&mut self, url: String) -> (r: &mut HookEditOptionsBuilder)
        ensures
            jv_members(r.config@) == pairs_insert(
                jv_members(old(self).config@),
                "url"@,
                Jv::Str(url@),
            ),
            r.events == old(self).events,
            r.add_events == old(self).add_events,
            r.remove_events == old(self).remove_events,
            r.active == old(self).active,
            *final(self) == *final(r),
    {
        self.config_entry("url", Json::Str(url))
    }

    /// The payload form a web hook delivers in.
    pub fn content_type(&mut self, content_type: WebHookContentType) -> (r:
        &mut HookEditOptionsBuilder)
        ensures
            jv_members(r.config@) == pairs_insert(
                jv_members(old(self).config@),
                "content_type"@,
                Jv::Str(content_type.param_view()),
            ),
            r.events == old(self).events,
            r.add_events == old(self).add_events,
            r.remove_events == old(self).remove_events,
            r.active == old(self).active,
            *final(self) == *final(r),
    {
        self.config_str_entry("content_type", content_type.to_param())
    }

    /// The secret deliveries are signed with.
    pub fn secret(&mut self, sec: String) -> (r: &mut HookEditOptionsBuilder)
        ensures
            jv_members(r.config@) == pairs_insert(
                jv_members(old(self).config@),
                "secret"@,
                Jv::Str(sec@),
            ),
            r.events == old(self).events,
            r.add_events == old(self).add_events,
            r.remove_events == old(self).remove_events,
            r.active == old(self).active,
            *final(self) == *final(r),
    {
        self.config_str_entry("secret", sec)
    }

    /// Set one string-valued configuration entry.
    pub fn config_str_entry(&mut self, k: &str, v: String) -> (r: &mut HookEditOptionsBuilder)
        ensures
            jv_members(r.config@) == pairs_insert(
                jv_members(old(self).config@),
                k@,
                Jv::Str(v@),
            ),
            r.events == old(self).events,
            r.add_events == old(self).add_events,
            r.remove_events == old(self).remove_events,
            r.active == old(self).active,
            *final(self) == *final(r),
    {
        self.config_entry(k, Json::Str(v))
    }

    /// Set one configuration entry.
    pub fn config_entry(&mut self, name: &str, value: Json) -> (r: &mut HookEditOptionsBuilder)
        ensures
            jv_members(r.config@) == pairs_insert(
                jv_members(old(self).config@),
                name@,
                jv(value),
            ),
            r.events == old(self).events,
            r.add_events == old(self).add_events,
            r.remove_events == old(self).remove_events,
            r.active == old(self).active,
            *final(self) == *final(r),
    {
        obj_insert(&mut self.config, name, value);
        self
    }

    /// The options as set so far.
    pub fn build(&self) -> (r: HookEditOptions)
        ensures
            jv_members(r.config@) == jv_members(self.config@),
            r.events@ == self.events@,
            r.add_events@ == self.add_events@,
            r.remove_events@ == self.remove_events@,
            r.active == self.active,
    {
        HookEditOptions {
            config: clone_members(&self.config),
            events: clone_strings(&self.events),
            add_events: clone_strings(&self.add_events),
            remove_events: clone_strings(&self.remove_events),
            active: self.active,
        }
    }
}


/// An account, as list and detail calls report it.
#[derive(Debug)]
pub struct User {
    pub login: String,
    pub id: u64,
    pub avatar_url: String,
    pub gravatar_id: String,
    pub url: String,
    pub html_url: String,
    pub followers_url: String,
    pub following_url: String,
    pub gists_url: String,
    pub starred_url: String,
    pub subscriptions_url: String,
    pub organizations_url: String,
    pub repos_url: String,
    pub events_url: String,
    pub received_events_url: String,
    pub site_admin: bool,
}

/// A deployment, as the API reports it. The payload is carried as a JSON value.
#[derive(Debug)]
pub struct Deployment {
    pub url: String,
    pub id: u64,
    pub sha: String,
    pub commit_ref: String,
    pub task: String,
    pub payload: Json,
    pub environment: String,
    pub description: Option<String>,
    pub creator: User,
    pub created_at: String,
    pub updated_at: String,
    pub statuses_url: String,
    pub repository_url: String,
}

/// One file of a gist, as the API reports it.
#[derive(Debug)]
pub struct GistFile {
    pub size: u64,
    pub raw_url: String,
    pub content: Option<String>,
    pub content_type: String,
    pub truncated: Option<bool>,
    pub language: Option<String>,
}

/// A gist, as the API reports it; the files under their names, in arrival order.
#[derive(Debug)]
pub struct Gist {
    pub url: String,
    pub forks_url: String,
    pub commits_url: String,
    pub id: String,
    pub description: Option<String>,
    pub public: bool,
    pub owner: User,
    pub user: Option<User>,
    pub files: Vec<(String, GistFile)>,
    pub truncated: bool,
    pub comments: u64,
    pub comments_url: String,
    pub html_url: String,
    pub git_pull_url: String,
    pub git_push_url: String,
    pub created_at: String,
    pub updated_at: String,
}

/// One fork of a gist.
#[derive(Debug)]
pub struct GistFork {
    pub user: User,
    pub url: String,
    pub id: String,
    pub created_at: String,
    pub updated_at: String,
}

/// What the caller may do with a repository.
#[derive(Debug)]
pub struct Permissions {
    pub admin: bool,
    pub push: bool,
    pub pull: bool,
}

/// A repository, as list and detail calls report it.
#[derive(Debug)]
pub struct Repo {
    pub id: u64,
    pub owner: User,
    pub name: String,
    pub full_name: String,
    pub description: Option<String>,
    pub private: bool,
    pub fork: bool,
    pub url: String,
    pub html_url: String,
    pub archive_url: String,
    pub assignees_url: String,
    pub blobs_url: String,
    pub branches_url: String,
    pub clone_url: String,
    pub collaborators_url: String,
    pub comments_url: String,
    pub commits_url: String,
    pub compare_url: String,
    pub contents_url: String,
    pub contributors_url: String,
    pub deployments_url: String,
    pub downloads_url: String,
    pub events_url: String,
    pub forks_url: String,
    pub git_commits_url: String,
    pub git_refs_url: String,
    pub git_tags_url: String,
    pub git_url: String,
    pub hooks_url: String,
    pub issue_comment_url: String,
    pub issue_events_url: String,
    pub issues_url: String,
    pub keys_url: String,
    pub labels_url: String,
    pub languages_url: String,
    pub merges_url: String,
    pub milestones_url: String,
    pub mirror_url: Option<String>,
    pub notifications_url: String,
    pub pulls_url: String,
    pub releases_url: String,
    pub ssh_url: String,
    pub stargazers_url: String,
    pub statuses_url: String,
    pub subscribers_url: String,
    pub subscription_url: String,
    pub svn_url: String,
    pub tags_url: String,
    pub teams_url: String,
    pub trees_url: String,
    pub homepage: Option<String>,
    pub language: Option<String>,
    pub forks_count: u64,
    pub stargazers_count: u64,
    pub watchers_count: u64,
    pub size: u64,
    pub default_branch: String,
    pub open_issues_count: u64,
    pub has_issues: bool,
    pub has_wiki: bool,
    pub has_pages: bool,
    pub has_downloads: bool,
    pub pushed_at: String,
    pub created_at: String,
    pub updated_at: String,
}

/// The identifying fields of a repository.
#[derive(Debug)]
pub struct RepoDetails {
    pub id: u64,
    pub owner: User,
    pub name: String,
    pub full_name: String,
}

/// An organization, as the API reports it.
#[derive(Debug)]
pub struct Org {
    pub login: String,
    pub id: u64,
    pub url: String,
    pub repos_url: String,
    pub events_url: String,
    pub hooks_url: String,
    pub issues_url: String,
    pub members_url: String,
    pub public_members_url: String,
    pub avatar_url: String,
    pub description: Option<String>,
}

/// One end of a pull request: a reference and the commit it points at.
#[derive(Debug)]
pub struct Commit {
    pub label: String,
    pub commit_ref: String,
    pub sha: String,
    pub user: User,
}

/// One changed file of a pull request. The blob hash is absent when only the mode changed, and the patch is absent for binary files.
#[derive(Debug)]
pub struct FileDiff {
    pub sha: Option<String>,
    pub filename: String,
    pub status: String,
    pub additions: u64,
    pub deletions: u64,
    pub changes: u64,
    pub blob_url: String,
    pub raw_url: String,
    pub contents_url: String,
    pub patch: Option<String>,
}

/// A pull request, as the API reports it.
#[derive(Debug)]
pub struct Pull {
    pub id: u64,
    pub url: String,
    pub html_url: String,
    pub diff_url: String,
    pub patch_url: String,
    pub issue_url: String,
    pub commits_url: String,
    pub review_comments_url: String,
    pub review_comment_url: String,
    pub comments_url: String,
    pub statuses_url: String,
    pub number: u64,
    pub state: String,
    pub title: String,
    pub body: Option<String>,
    pub created_at: String,
    pub updated_at: String,
    pub closed_at: Option<String>,
    pub merged_at: Option<String>,
    pub head: Commit,
    pub base: Commit,
    pub user: User,
    pub assignee: Option<User>,
    pub assignees: Vec<User>,
    pub merge_commit_sha: Option<String>,
    pub mergeable: Option<bool>,
    pub merged_by: Option<User>,
    pub comments: Option<u64>,
    pub commits: Option<u64>,
    pub additions: Option<u64>,
    pub deletions: Option<u64>,
    pub changed_files: Option<u64>,
}

/// One page of search results: the total, whether the search timed out
/// before completing, and the items of this page.
#[derive(Debug)]
pub struct SearchResult<D> {
    pub total_count: u64,
    pub incomplete_results: bool,
    pub items: Vec<D>,
}

/// The pull request behind an issue found by a search.
#[derive(Debug)]
pub struct PullRequestInfo {
    pub url: String,
    pub html_url: String,
    pub diff_url: String,
    pub patch_url: String,
}

/// One issue found by a search.
#[derive(Debug)]
pub struct SearchIssuesItem {
    pub url: String,
    pub repository_url: String,
    pub labels_url: String,
    pub comments_url: String,
    pub events_url: String,
    pub html_url: String,
    pub id: u64,
    pub number: u64,
    pub title: String,
    pub user: User,
    pub labels: Vec<Label>,
    pub state: String,
    pub locked: bool,
    pub assignee: Option<User>,
    pub assignees: Vec<User>,
    pub comments: u64,
    pub created_at: String,
    pub updated_at: String,
    pub closed_at: Option<String>,
    pub pull_request: Option<PullRequestInfo>,
    pub body: Option<String>,
}

/// An issue, as the API reports it.
#[derive(Debug)]
pub struct Issue {
    pub id: u64,
    pub url: String,
    pub labels_url: String,
    pub comments_url: String,
    pub events_url: String,
    pub html_url: String,
    pub number: u64,
    pub state: String,
    pub title: String,
    pub body: String,
    pub user: User,
    pub labels: Vec<Label>,
    pub assignee: Option<User>,
    pub locked: bool,
    pub comments: u64,
    pub closed_at: Option<String>,
    pub created_at: String,
    pub updated_at: String,
}

/// One downloadable asset of a release.
#[derive(Debug)]
pub struct Asset {
    pub url: String,
    pub browser_download_url: String,
    pub id: u64,
    pub name: String,
    pub label: Option<String>,
    pub state: String,
    pub content_type: String,
    pub size: u64,
    pub download_count: u64,
    pub created_at: String,
    pub updated_at: String,
    pub uploader: User,
}

/// A release, as the API reports it.
#[derive(Debug)]
pub struct Release {
    pub url: String,
    pub html_url: String,
    pub assets_url: String,
    pub upload_url: String,
    pub tarball_url: String,
    pub zipball_url: String,
    pub id: u64,
    pub tag_name: String,
    pub target_commitish: String,
    pub name: String,
    pub body: String,
    pub draft: bool,
    pub prerelease: bool,
    pub created_at: String,
    pub published_at: String,
    pub author: User,
    pub assets: Vec<Asset>,
}

/// A deployment status, as the API reports it.
#[derive(Debug)]
pub struct DeploymentStatus {
    pub url: String,
    pub created_at: String,
    pub updated_at: String,
    pub state: StatusState,
    pub target_url: Option<String>,
    pub description: Option<String>,
    pub id: u64,
    pub deployment_url: String,
    pub repository_url: String,
    pub creator: User,
}

/// A commit status, as the API reports it.
#[derive(Debug)]
pub struct Status {
    pub created_at: String,
    pub updated_at: String,
    pub state: StatusState,
    pub target_url: String,
    pub description: String,
    pub id: u64,
    pub url: String,
    pub context: String,
    pub creator: User,
}

/// A deploy key, as the API reports it.
#[derive(Debug)]
pub struct Key {
    pub id: u64,
    pub key: String,
    pub title: String,
    pub verified: bool,
    pub created_at: String,
    pub read_only: bool,
}

/// A review comment on a pull request.
#[derive(Debug)]
pub struct ReviewComment {
    pub id: u64,
    pub url: String,
    pub diff_hunk: String,
    pub path: String,
    pub position: u64,
    pub original_position: u64,
    pub commit_id: String,
    pub original_commit_id: String,
    pub user: User,
    pub body: String,
    pub created_at: String,
    pub updated_at: String,
    pub html_url: String,
    pub pull_request_url: String,
}

/// One commit of a pull request.
#[derive(Debug)]
pub struct PullCommit {
    pub url: String,
    pub sha: String,
    pub html_url: String,
    pub comments_url: String,
    pub commit: CommitDetails,
    pub author: User,
    pub committer: User,
    pub parents: Vec<CommitRef>,
}

/// What a commit says: its author, committer, message and tree.
#[derive(Debug)]
pub struct CommitDetails {
    pub url: String,
    pub author: UserStamp,
    pub committer: Option<UserStamp>,
    pub message: String,
    pub tree: CommitRef,
    pub comment_count: u64,
}

/// A name, address and date attached to a commit.
#[derive(Debug)]
pub struct UserStamp {
    pub name: String,
    pub email: String,
    pub date: String,
}

/// A reference to a commit or tree by hash.
#[derive(Debug)]
pub struct CommitRef {
    pub url: String,
    pub sha: String,
}

/// A comment on an issue or commit.
#[derive(Debug)]
pub struct Comment {
    pub id: u64,
    pub url: String,
    pub html_url: String,
    pub body: String,
    pub user: User,
    pub created_at: String,
    pub updated_at: String,
}

/// A repository hook, as the API reports it. The configuration is carried
/// as one JSON value.
#[derive(Debug)]
pub struct Hook {
    pub id: u64,
    pub url: String,
    pub test_url: String,
    pub ping_url: String,
    pub name: String,
    pub events: Vec<String>,
    pub config: Json,
    pub created_at: String,
    pub updated_at: String,
    pub active: bool,
}

impl Hook {
    /// The configuration entry under `name`, when the configuration is an
    /// object that has one.
    pub fn config_value(&self, name: &str) -> (r: Option<&Json>)
        ensures
            self.config@ matches Jv::Obj(ms) ==> {
                &&& r is Some <==> jv_lookup(ms, name@) is Some
                &&& (r matches Some(x) ==> jv_lookup(ms, name@) == Some(x@))
            },
            !(self.config@ is Obj) ==> r is None,
    {
        self.config.get(name)
    }

    /// The configuration entry under `name` when it is a string.
    pub fn config_string(&self, name: &str) -> (r: Option<String>)
        ensures
            self.config@ matches Jv::Obj(ms) ==> {
                &&& (r is Some <==> jv_lookup(ms, name@) matches Some(Jv::Str(_)))
                &&& (r matches Some(s) ==> jv_lookup(ms, name@) == Some(Jv::Str(s@)))
            },
            !(self.config@ is Obj) ==> r is None,
    {
        match self.config_value(name) {
            Some(x) => match x.as_str() {
                Some(s) => Some(s.clone()),
                None => None,
            },
            None => None,
        }
    }

    /// The URL the hook delivers to, when its configuration names one.
    pub fn url(&self) -> (r: Option<String>)
        ensures
            self.config@ matches Jv::Obj(ms) ==> {
                &&& (r is Some <==> jv_lookup(ms, "url"@) matches Some(Jv::Str(_)))
                &&& (r matches Some(s) ==> jv_lookup(ms, "url"@) == Some(Jv::Str(s@)))
            },
            !(self.config@ is Obj) ==> r is None,
    {
        self.config_string("url")
    }

    /// The payload form the hook delivers in, when its configuration names
    /// one.
    pub fn content_type(&self) -> (r: Option<String>)
        ensures
            self.config@ matches Jv::Obj(ms) ==> {
                &&& (r is Some <==> jv_lookup(ms, "content_type"@) matches Some(Jv::Str(_)))
                &&& (r matches Some(s) ==> jv_lookup(ms, "content_type"@) == Some(Jv::Str(s@)))
            },
            !(self.config@ is Obj) ==> r is None,
    {
        self.config_string("content_type")
    }
}

/// The path of a URL, when the text parses as one; what `url::Url::parse`
/// accepts and returns depends on the text alone.
pub uninterp spec fn url_path_of(s: Seq<char>) -> Option<Seq<char>>;

/// Relies on `url::Url::parse` of the `url` crate: it accepts or refuses a
/// text, and the accepted URL's `path` is a function of the text alone.
#[verifier::external_body]
pub(crate) fn url_path(s: &str) -> (r: Option<String>)
    ensures
        r is Some <==> url_path_of(s@) is Some,
        r matches Some(p) ==> url_path_of(s@) == Some(p@),
{
    match url::Url::parse(s) {
        Ok(u) => Some(u.path().to_owned()),
        Err(_) => None,
    }
}

/// The pieces of `s[i..]` between slashes, split at every slash.
pub open spec fn slash_split(s: Seq<char>, i: int) -> Seq<Seq<char>>
    decreases s.len() - i,
{
    if !(0 <= i <= s.len()) {
        Seq::empty()
    } else {
        let e = crate::pagination::find_in(s, i, s.len() as int, '/');
        if e >= s.len() {
            seq![s.subrange(i, s.len() as int)]
        } else if e < i {
            Seq::empty()
        } else {
            seq![s.subrange(i, e)] + slash_split(s, e + 1)
        }
    }
}

/// The pieces of `s[i..]` between slashes.
fn split_slash_from(s: &str, i: usize) -> (r: Vec<String>)
    requires
        i <= s@.len(),
    ensures
        r.deep_view() == slash_split(s@, i as int),
        r@.len() >= 1,
    decreases s@.len() - i,
{
    let n = s.unicode_len();
    let e = crate::pagination::find_in_exec(s, i, n, '/');
    if e >= n {
        let piece = crate::pagination::copy_range(s, i, n);
        let mut out: Vec<String> = Vec::new();
        out.push(piece);
        proof {
            assert(out.deep_view() =~= slash_split(s@, i as int));
        }
        out
    } else {
        let piece = crate::pagination::copy_range(s, i, e);
        let rest = split_slash_from(s, e + 1);
        let ghost rv = rest.deep_view();
        let mut out = rest;
        out.insert(0, piece);
        proof {
            assert(out.deep_view() =~= seq![s@.subrange(i as int, e as int)] + rv);
        }
        out
    }
}

impl SearchIssuesItem {
    /// The repository a found issue belongs to, read off its repository
    /// URL: the last two path segments, deepest first.
    pub fn repo_tuple(&self) -> (r: (String, String))
        requires
            url_path_of(self.repository_url@) is Some,
            slash_split(url_path_of(self.repository_url@).unwrap(), 0).len() >= 2,
        ensures
            ({
                let segs = slash_split(url_path_of(self.repository_url@).unwrap(), 0);
                r.0@ == segs[segs.len() - 1] && r.1@ == segs[segs.len() - 2]
            }),
    {
        let path = match url_path(self.repository_url.as_str()) {
            Some(p) => p,
            None => {
                proof {
                    assert(false);
                }
                String::new()
            },
        };
        let segs = split_slash_from(path.as_str(), 0);
        proof {
            assert(segs.deep_view().len() == segs@.len());
            assert(segs.deep_view()[segs@.len() - 1] == segs@[segs@.len() - 1]@);
            assert(segs.deep_view()[segs@.len() - 2] == segs@[segs@.len() - 2]@);
        }
        let last = segs[segs.len() - 1].clone();
        let prev = segs[segs.len() - 2].clone();
        (last, prev)
    }

    /// The repository a found issue belongs to, when its repository URL
    /// parses and carries at least two path segments; calls
    /// [`Self::repo_tuple`] exactly on those inputs.
    pub fn try_repo_tuple(&self) -> (r: Option<(String, String)>)
        ensures
            r is Some <==> (url_path_of(self.repository_url@) is Some && slash_split(
                url_path_of(self.repository_url@).unwrap(),
                0,
            ).len() >= 2),
            r matches Some(t) ==> ({
                let segs = slash_split(url_path_of(self.repository_url@).unwrap(), 0);
                t.0@ == segs[segs.len() - 1] && t.1@ == segs[segs.len() - 2]
            }),
    {
        match url_path(self.repository_url.as_str()) {
            Some(p) => {
                let segs = split_slash_from(p.as_str(), 0);
                proof {
                    assert(segs.deep_view().len() == segs@.len());
                }
                if segs.len() >= 2 {
                    Some(self.repo_tuple())
                } else {
                    None
                }
            },
            None => None,
        }
    }
}


/// The language table a JSON object stands for: every member must carry an
/// integer byte count.
pub open spec fn sp_languages(ms: Seq<(Seq<char>, Jv)>) -> Option<Seq<(Seq<char>, i64)>>
    decreases ms.len(),
{
    if ms.len() == 0 {
        Some(Seq::empty())
    } else {
        match ms[0].1 {
            Jv::Int(n) => match sp_languages(ms.drop_first()) {
                Some(rest) => Some(seq![(ms[0].0, n)] + rest),
                None => None,
            },
            _ => None,
        }
    }
}

/// Whether a decoded language table carries exactly the entries of its
/// specification-level counterpart, in order.
pub open spec fn langs_match(v: Seq<(String, i64)>, s: Seq<(Seq<char>, i64)>) -> bool {
    &&& v.len() == s.len()
    &&& forall|i: int| 0 <= i < v.len() ==> (#[trigger] v[i]).0@ == s[i].0 && v[i].1 == s[i].1
}

/// Decode the language entries from `members[i..]`.
fn languages_from(members: &Vec<(String, Json)>, i: usize) -> (r: Option<Vec<(String, i64)>>)
    requires
        i <= members@.len(),
    ensures
        r is Some <==> sp_languages(jv_members(members@).skip(i as int)) is Some,
        r matches Some(v) ==> langs_match(
            v@,
            sp_languages(jv_members(members@).skip(i as int)).unwrap(),
        ),
    decreases members@.len() - i,
{
    proof {
        lemma_jv_members(members@);
    }
    let ghost tail = jv_members(members@).skip(i as int);
    if i == members.len() {
        proof {
            assert(tail =~= Seq::<(Seq<char>, Jv)>::empty());
        }
        Some(Vec::new())
    } else {
        proof {
            assert(tail[0] == (members@[i as int].0@, jv(members@[i as int].1)));
            assert(tail.drop_first() =~= jv_members(members@).skip(i as int + 1));
        }
        let m = &members[i];
        match &m.1 {
            Json::Int(n) => match languages_from(members, i + 1) {
                Some(rest) => {
                    let ghost rv = rest@;
                    let mut v = rest;
                    v.insert(0, (m.0.clone(), *n));
                    proof {
                        assert(v@ =~= seq![(m.0, *n)] + rv);
                        assert(sp_languages(tail) == Some(
                            seq![(tail[0].0, jv(m.1)->Int_0)] + sp_languages(
                                tail.drop_first(),
                            ).unwrap(),
                        ));
                    }
                    Some(v)
                },
                None => None,
            },
            _ => None,
        }
    }
}

/// What the language listing owes for one response: a success body must be
/// an object of integer byte counts, which comes back entry by entry in
/// arrival order; everything else is classified as any single call is.
pub open spec fn languages_classified(
    status: u16,
    headers: Seq<(Seq<char>, Seq<char>)>,
    body: Seq<char>,
    reset_header: Seq<char>,
    r: Result<Vec<(String, i64)>, Error>,
) -> bool {
    &&& (200 <= status < 300 ==> (match crate::json_parse::sp_json(body) {
        Some(Jv::Obj(ms)) => match sp_languages(ms) {
            Some(tbl) => r matches Ok(v) && langs_match(v@, tbl),
            None => r == Err::<Vec<(String, i64)>, Error>(Error::Codec),
        },
        _ => r == Err::<Vec<(String, i64)>, Error>(Error::Codec),
    }))
    &&& (status == 429 ==> (r matches Err(Error::RateLimited { reset }) && reset
        == crate::executor::sp_reset(headers, reset_header)))
    &&& (!(200 <= status < 300) && status != 429 ==> (r matches Err(
        Error::Fault { code, error },
    ) && code == status && crate::executor::fault_matches(body, status, error)))
}

impl Repo {
    /// The languages the repository is written in, decoded from the outcome
    /// of a fetch of its languages URL: each language with its byte count.
    /// The fetch itself is the caller's; a repository whose languages URL
    /// does not parse is a configuration error, and no response at all is a
    /// transport failure.
    pub fn languages(&self, gh: &crate::executor::Github, outcome: Option<
        crate::executor::Response,
    >) -> (r: Result<Vec<(String, i64)>, Error>)
        ensures
            url_path_of(self.languages_url@) is None ==> r == Err::<
                Vec<(String, i64)>,
                Error,
            >(Error::Config),
            url_path_of(self.languages_url@) is Some ==> {
                &&& (outcome is None ==> r == Err::<Vec<(String, i64)>, Error>(Error::Transport))
                &&& (outcome matches Some(resp) ==> languages_classified(
                    resp.status,
                    resp.headers@,
                    resp.body@,
                    gh.reset_header@,
                    r,
                ))
            },
    {
        if url_path(self.languages_url.as_str()).is_none() {
            return Err(Error::Config);
        }
        match outcome {
            None => Err(Error::Transport),
            Some(resp) => {
                proof {
                    if resp.body@.len() == 0 {
                        assert(crate::json_parse::sp_json(resp.body@) is None);
                    }
                }
                match crate::executor::classify_response(&resp, gh.reset_header.as_str()) {
                    Ok(Some(j)) => match &j {
                        Json::Obj(members) => match languages_from(members, 0) {
                            Some(v) => {
                                proof {
                                    assert(jv_members(members@).skip(0) =~= jv_members(
                                        members@,
                                    ));
                                }
                                Ok(v)
                            },
                            None => Err(Error::Codec),
                        },
                        _ => Err(Error::Codec),
                    },
                    Ok(None) => Err(Error::Codec),
                    Err(e) => Err(e),
                }
            },
        }
    }
}

} // verus!
