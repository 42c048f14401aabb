//! The controller session client: the protocol decisions behind the
//! read-state and write-state operations.
//!
//! Each logical operation is a short authenticated sequence against the
//! remote controller: login, fetch the group listing, and (for a write)
//! update the matched group.  The remote calls themselves are performed
//! by an unverified driver; this module owns every decision in between —
//! which call comes next, how the listing is scanned, what payload an
//! update carries, and when the operation completes with which outcome.

use vstd::prelude::*;
use vstd::string::StringExecFns;

use crate::error::{Error, Kind};
use crate::models::{
    spec_rate_of, Auth, ClientGroupsResponse, ClientGroupResponseData, GroupModel, Rate,
};

verus! {

/// The first group in a listing that bears the given name, if any: the
/// scan the controller's group listing is searched with.  First match
/// wins; later groups of the same name are ignored.
pub open spec fn first_named(groups: Seq<GroupModel>, name: Seq<char>) -> Option<GroupModel>
    decreases groups.len(),
{
    if groups.len() == 0 {
        None
    } else if groups[0].name == name {
        Some(groups[0])
    } else {
        first_named(groups.skip(1), name)
    }
}

/// `first_named` is `None` exactly when no listed group bears the name,
/// and otherwise returns the listed group at the first index whose name
/// matches.
pub proof fn lemma_first_named_characterized(groups: Seq<GroupModel>, name: Seq<char>)
    ensures
        (first_named(groups, name) is Some) <==> (exists|i: int|
            0 <= i < groups.len() && groups[i].name == name),
        first_named(groups, name) matches Some(g) ==> (exists|i: int|
            {
                &&& 0 <= i < groups.len()
                &&& groups[i] == g
                &&& groups[i].name == name
                &&& forall|j: int| 0 <= j < i ==> groups[j].name != name
            }),
    decreases groups.len(),
{
    if groups.len() == 0 {
    } else if groups[0].name == name {
        assert(first_named(groups, name) == Some(groups[0]) && groups[0].name == name);
    } else {
        lemma_first_named_characterized(groups.skip(1), name);
        let tail = groups.skip(1);
        if first_named(groups, name) is Some {
            let g = first_named(groups, name)->Some_0;
            let i = choose|i: int|
                0 <= i < tail.len() && tail[i] == g && tail[i].name == name && (forall|j: int|
                    0 <= j < i ==> tail[j].name != name);
            assert(groups[i + 1] == tail[i]);
            assert(forall|j: int| 0 <= j < i + 1 ==> groups[j].name != name) by {
                assert(forall|j: int| 1 <= j < i + 1 ==> groups[j] == tail[j - 1]);
            }
        }
        if exists|i: int| 0 <= i < groups.len() && groups[i].name == name {
            let i = choose|i: int| 0 <= i < groups.len() && groups[i].name == name;
            assert(i >= 1);
            assert(tail[i - 1] == groups[i]);
        }
    }
}

/// The read-state outcome reflects the controller's listing exactly:
/// once login and fetch have succeeded, the outcome is `Some(r)` iff a
/// group with the configured name is listed — and then `r` is the rate
/// of the first such group — and `None` iff no listed group bears the
/// name.
pub proof fn lemma_read_result_characterized(groups: Seq<GroupModel>, name: Seq<char>)
    ensures
        (read_result_of(groups, name) is Some) <==> (exists|i: int|
            0 <= i < groups.len() && groups[i].name == name),
        (read_result_of(groups, name) is None) <==> (forall|i: int|
            0 <= i < groups.len() ==> groups[i].name != name),
        read_result_of(groups, name) matches Some(r) ==> (exists|i: int|
            {
                &&& 0 <= i < groups.len()
                &&& groups[i].name == name
                &&& r == spec_rate_of(groups[i])
                &&& forall|j: int| 0 <= j < i ==> groups[j].name != name
            }),
{
    lemma_first_named_characterized(groups, name);
    if first_named(groups, name) is Some {
        let g = first_named(groups, name)->Some_0;
        let i = choose|i: int|
            0 <= i < groups.len() && groups[i] == g && groups[i].name == name && (forall|j: int|
                0 <= j < i ==> groups[j].name != name);
        assert(0 <= i < groups.len() && groups[i].name == name && spec_rate_of(g) == spec_rate_of(
            groups[i],
        ) && (forall|j: int| 0 <= j < i ==> groups[j].name != name));
    }
}

/// Skipping a name-free prefix does not change what the scan finds.
proof fn lemma_first_named_skip(groups: Seq<GroupModel>, name: Seq<char>, i: int)
    requires
        0 <= i <= groups.len(),
        forall|j: int| 0 <= j < i ==> groups[j].name != name,
    ensures
        first_named(groups, name) == first_named(groups.skip(i), name),
    decreases i,
{
    if i == 0 {
        assert(groups.skip(0) =~= groups);
    } else {
        assert(groups[0].name != name);
        assert(forall|j: int| 0 <= j < i - 1 ==> groups.skip(1)[j].name != name) by {
            assert(forall|j: int| 0 <= j < i - 1 ==> groups.skip(1)[j] == groups[j + 1]);
        }
        lemma_first_named_skip(groups.skip(1), name, i - 1);
        assert(groups.skip(1).skip(i - 1) =~= groups.skip(i));
    }
}

/// A group resource with only its rate fields replaced.
pub open spec fn spec_updated(g: GroupModel, down: i32, up: i32) -> GroupModel {
    GroupModel { max_down: down, max_up: up, ..g }
}

/// The full-resource replace payload for an update: the matched group
/// with `max_down`/`max_up` overwritten and every other field — the
/// uninterpreted ones included — sent back unchanged, because the
/// controller's API takes the whole representation.
pub fn updated_group(g: &ClientGroupResponseData, down: i32, up: i32) -> (r:
    ClientGroupResponseData)
    ensures
        r@ == spec_updated(g@, down, up),
{
    let mut r = g.clone();
    r.max_down = down;
    r.max_up = up;
    proof {
        assert(r@ =~= spec_updated(g@, down, up));
    }
    r
}

/// The next remote call a driver must perform for an in-flight operation.
pub enum Action {
    /// POST this credential payload to the login endpoint.
    Login(Auth),
    /// GET the group listing of the configured site.
    FetchGroups,
    /// PUT this full group resource to its REST endpoint.
    UpdateGroup(ClientGroupResponseData),
}

/// What one remote call came back with, as the driver reports it.
pub enum Event {
    /// The login call succeeded; the transport now carries the session.
    LoginOk,
    /// The listing call succeeded and decoded to this response body.
    FetchOk(ClientGroupsResponse),
    /// The update call succeeded.
    UpdateOk,
    /// The call failed in transport; the driver's description of why.
    Failed(String),
}

/// Whether an event can answer a pending action: success events are
/// specific to one call, a transport failure can answer any of them.
pub open spec fn event_answers(a: Action, e: Event) -> bool {
    match e {
        Event::LoginOk => a is Login,
        Event::FetchOk(_) => a is FetchGroups,
        Event::UpdateOk => a is UpdateGroup,
        Event::Failed(_) => true,
    }
}

/// The outcome a successful fetch determines for a read: the first
/// matching group's rate, or `None` when the name is not listed.
pub open spec fn read_result_of(groups: Seq<GroupModel>, name: Seq<char>) -> Option<Rate> {
    match first_named(groups, name) {
        Some(g) => Some(spec_rate_of(g)),
        None => None,
    }
}

/// One in-flight read-state operation: either the next action the driver
/// must perform, or the finished outcome.
pub enum ReadStep {
    Pending(Action),
    Complete(Result<Option<Rate>, Error>),
}

/// A read never issues an update call.
pub open spec fn read_pending_ok(s: ReadStep) -> bool {
    s matches ReadStep::Pending(a) ==> !(a is UpdateGroup)
}

/// One in-flight write-state operation: the target rates and where the
/// login → fetch → update sequence stands.
pub struct WriteOp {
    pub down: i32,
    pub up: i32,
    pub step: WriteStep,
}

/// The write counterpart of `ReadStep`.
pub enum WriteStep {
    Pending(Action),
    Complete(Result<(), Error>),
}

/// What the controller's full-resource replace does to its listing:
/// every listed group whose id matches the sent resource takes the sent
/// rate fields; every other group, and every other field, is unchanged.
pub open spec fn apply_update(groups: Seq<GroupModel>, u: GroupModel) -> Seq<GroupModel> {
    Seq::new(
        groups.len(),
        |i: int|
            if groups[i].id == u.id {
                GroupModel { max_down: u.max_down, max_up: u.max_up, ..groups[i] }
            } else {
                groups[i]
            },
    )
}

/// The scan commutes with an update: an update changes no group's name,
/// so the first group bearing a name stays at the same index, and it
/// carries the new rates exactly when its id was the updated one.
pub proof fn lemma_first_named_after_update(
    groups: Seq<GroupModel>,
    name: Seq<char>,
    u: GroupModel,
)
    ensures
        match first_named(groups, name) {
            Some(g) => first_named(apply_update(groups, u), name) == Some(
                if g.id == u.id {
                    GroupModel { max_down: u.max_down, max_up: u.max_up, ..g }
                } else {
                    g
                },
            ),
            None => first_named(apply_update(groups, u), name) is None,
        },
    decreases groups.len(),
{
    let after = apply_update(groups, u);
    if groups.len() == 0 {
    } else {
        assert(after[0].name == groups[0].name);
        if groups[0].name == name {
        } else {
            lemma_first_named_after_update(groups.skip(1), name, u);
            assert(after.skip(1) =~= apply_update(groups.skip(1), u));
            assert(first_named(after, name) == first_named(after.skip(1), name));
        }
    }
}

/// Configuration of the controller session client: where the controller
/// lives, how to authenticate, and which site and group are managed.
/// The HTTP transport itself lives with the driver.
#[derive(Clone, Debug)]
pub struct UnifiClient {
    pub url: String,
    pub user: String,
    pub password: String,
    pub site: String,
    pub group: String,
}

impl UnifiClient {
    /// The credential payload for the controller's login endpoint.
    pub fn auth_payload(&self) -> (r: Auth)
        ensures
            r.username@ == self.user@,
            r.password@ == self.password@,
    {
        Auth { username: self.user.clone(), password: self.password.clone() }
    }

    /// The login endpoint's URL.
    pub fn login_url(&self) -> (r: String)
        ensures
            r@ == self.url@ + "/api/login"@,
    {
        self.url.clone().concat("/api/login")
    }

    /// The group-listing endpoint's URL for the configured site.
    pub fn groups_url(&self) -> (r: String)
        ensures
            r@ == self.url@ + "/api/s/"@ + self.site@ + "/list/usergroup"@,
    {
        self.url.clone().concat("/api/s/").concat(self.site.as_str()).concat(
            "/list/usergroup",
        )
    }

    /// The REST endpoint's URL for updating the group with the given id.
    pub fn update_url(&self, id: &String) -> (r: String)
        ensures
            r@ == self.url@ + "/api/s/"@ + self.site@ + "/rest/usergroup/"@ + id@,
    {
        self.url.clone().concat("/api/s/").concat(self.site.as_str()).concat(
            "/rest/usergroup/",
        ).concat(id.as_str())
    }

    /// The linear scan over the controller's group listing: the first
    /// entry whose name equals the configured group name, cloned out of
    /// the listing.  `None` means the group is not configured on the
    /// controller, which is a valid outcome, not an error.
    pub fn find_group(&self, groups: &ClientGroupsResponse) -> (r: Option<
        ClientGroupResponseData,
    >)
        ensures
            match r {
                Some(g) => first_named(groups@, self.group@) == Some(g@),
                None => first_named(groups@, self.group@) is None,
            },
    {
        let n = groups.data.len();
        let mut i: usize = 0;
        while i < n
            invariant
                n == groups.data.len(),
                i <= n,
                forall|j: int| 0 <= j < i ==> groups@[j].name != self.group@,
            decreases n - i,
        {
            if groups.data[i].name == self.group {
                proof {
                    lemma_first_named_skip(groups@, self.group@, i as int);
                    assert(groups@.skip(i as int)[0] == groups@[i as int]);
                }
                return Some(groups.data[i].clone());
            }
            proof {
                assert(groups@[i as int].name != self.group@);
            }
            i = i + 1;
        }
        proof {
            lemma_first_named_skip(groups@, self.group@, n as int);
        }
        None
    }

    /// Begin a read-state operation.  Authentication always comes first:
    /// the session is re-established for every logical operation, so a
    /// stale remote session can never be observed.
    pub fn read_begin(&self) -> (r: ReadStep)
        ensures
            r matches ReadStep::Pending(a) && a matches Action::Login(auth)
                && auth.username@ == self.user@ && auth.password@ == self.password@,
    {
        ReadStep::Pending(Action::Login(self.auth_payload()))
    }

    /// Advance a read-state operation by one answered remote call.
    ///
    /// Login leads to the fetch; a completed fetch finishes the read with
    /// the scanned outcome; the first transport failure finishes it with
    /// a remote error, so nothing further is ever asked of the driver.
    pub fn read_step(&self, step: ReadStep, event: Event) -> (r: ReadStep)
        requires
            step matches ReadStep::Pending(a) && !(a is UpdateGroup) && event_answers(a, event),
        ensures
            event matches Event::Failed(m) ==> (r matches ReadStep::Complete(res)
                && res matches Err(e) && e.kind == Kind::Remote && e.message@ == m@),
            event is LoginOk ==> r == ReadStep::Pending(Action::FetchGroups),
            event matches Event::FetchOk(groups) ==> (r matches ReadStep::Complete(res)
                && res matches Ok(o) && o == read_result_of(groups@, self.group@)),
            read_pending_ok(r),
    {
        match (step, event) {
            (_, Event::Failed(m)) => ReadStep::Complete(Err(Error::remote(m))),
            (ReadStep::Pending(Action::Login(_)), Event::LoginOk) => ReadStep::Pending(
                Action::FetchGroups,
            ),
            (ReadStep::Pending(Action::FetchGroups), Event::FetchOk(groups)) => {
                match self.find_group(&groups) {
                    Some(g) => ReadStep::Complete(Ok(Some(Rate::from(&g)))),
                    None => ReadStep::Complete(Ok(None)),
                }
            },
            _ => vstd::pervasive::unreached(),
        }
    }

    /// Begin a write-state operation targeting the given rates.
    pub fn write_begin(&self, down: i32, up: i32) -> (r: WriteOp)
        ensures
            r.down == down,
            r.up == up,
            r.step matches WriteStep::Pending(a) && a matches Action::Login(auth)
                && auth.username@ == self.user@ && auth.password@ == self.password@,
    {
        WriteOp { down, up, step: WriteStep::Pending(Action::Login(self.auth_payload())) }
    }

    /// Advance a write-state operation by one answered remote call.
    ///
    /// Login leads to the fetch.  A completed fetch either yields the
    /// update payload — the matched group with only its rate fields
    /// replaced — or, when no listed group bears the configured name,
    /// finishes the write at once with the business error, so the update
    /// call is never attempted.  A transport failure likewise finishes
    /// the operation with a remote error.
    pub fn write_step(&self, op: WriteOp, event: Event) -> (r: WriteOp)
        requires
            op.step matches WriteStep::Pending(a) && event_answers(a, event),
        ensures
            r.down == op.down,
            r.up == op.up,
            event matches Event::Failed(m) ==> (r.step matches WriteStep::Complete(res)
                && res matches Err(e) && e.kind == Kind::Remote && e.message@ == m@),
            event is LoginOk ==> r.step == WriteStep::Pending(Action::FetchGroups),
            event matches Event::FetchOk(groups) ==> (match first_named(groups@, self.group@) {
                Some(g) => r.step matches WriteStep::Pending(b)
                    && b matches Action::UpdateGroup(u) && u@ == spec_updated(g, op.down, op.up),
                None => r.step matches WriteStep::Complete(res) && res matches Err(e)
                    && e.kind == Kind::Business && e.message@ == "no group found!"@,
            }),
            event is UpdateOk ==> (r.step matches WriteStep::Complete(res) && res is Ok),
    {
        let WriteOp { down, up, step } = op;
        let next = match (step, event) {
            (_, Event::Failed(m)) => WriteStep::Complete(Err(Error::remote(m))),
            (WriteStep::Pending(Action::Login(_)), Event::LoginOk) => WriteStep::Pending(
                Action::FetchGroups,
            ),
            (WriteStep::Pending(Action::FetchGroups), Event::FetchOk(groups)) => {
                match self.find_group(&groups) {
                    Some(g) => WriteStep::Pending(Action::UpdateGroup(updated_group(&g, down, up))),
                    None => WriteStep::Complete(Err(Error::from_str("no group found!"))),
                }
            },
            (WriteStep::Pending(Action::UpdateGroup(_)), Event::UpdateOk) => WriteStep::Complete(
                Ok(()),
            ),
            _ => vstd::pervasive::unreached(),
        };
        WriteOp { down, up, step: next }
    }
}

} // verus!
