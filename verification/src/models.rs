//! The data the toggle works on: bandwidth presets, observed rates, and
//! the group resources the controller returns.

use vstd::prelude::*;

verus! {

/// A configured bandwidth cap: down/up limits in the controller's units.
/// `-1` conventionally means "unlimited" on an axis; the convention is
/// owned by the controller and passed through untouched.
#[derive(Clone, Copy, PartialEq, Eq, Structural, Debug)]
pub struct Bandwidth {
    pub down: i32,
    pub up: i32,
}

/// An observed rate cap read back from the controller.  Structurally the
/// same shape as `Bandwidth`; equality is exact on both fields and is what
/// the toggle state is inferred from.
#[derive(Clone, Copy, PartialEq, Eq, Structural, Debug)]
pub struct Rate {
    pub max_down: i32,
    pub max_up: i32,
}

/// Wire-level representation of the on/off toggle exchanged with the HTTP
/// adapter and the front end.
#[derive(Clone, Copy, PartialEq, Eq, Structural, Debug)]
pub struct DndState {
    pub state: bool,
}

impl DndState {
    pub fn new(state: bool) -> (r: Self)
        ensures
            r.state == state,
    {
        Self { state }
    }
}

/// Credential payload submitted to the controller's login endpoint.
#[derive(Clone, Debug)]
pub struct Auth {
    pub username: String,
    pub password: String,
}

/// One client group resource as the controller's API returns it: `id` and
/// `site_id` are opaque identifiers needed only to address the update
/// call; `name` is the operator-configured match key.
///
/// `extra` holds every field of the resource this client does not
/// interpret, as raw field-name/value text: the controller's update call
/// replaces the full resource, so unknown fields must be carried through
/// and sent back unchanged rather than dropped.
#[derive(Debug)]
pub struct ClientGroupResponseData {
    pub id: String,
    pub name: String,
    pub max_down: i32,
    pub max_up: i32,
    pub site_id: String,
    pub extra: Vec<(String, String)>,
}

/// The controller's group-listing response body: a list of group
/// resources in whatever order the controller chose.
#[derive(Debug)]
pub struct ClientGroupsResponse {
    pub data: Vec<ClientGroupResponseData>,
}

/// Mathematical model of one group resource.
#[verifier::ext_equal]
pub ghost struct GroupModel {
    pub id: Seq<char>,
    pub name: Seq<char>,
    pub max_down: i32,
    pub max_up: i32,
    pub site_id: Seq<char>,
    pub extra: Seq<(Seq<char>, Seq<char>)>,
}

impl Clone for ClientGroupResponseData {
    fn clone(&self) -> (r: Self)
        ensures
            r@ == self@,
    {
        let mut extra: Vec<(String, String)> = Vec::new();
        let mut i: usize = 0;
        while i < self.extra.len()
            invariant
                i <= self.extra.len(),
                extra@.len() == i,
                forall|j: int|
                    0 <= j < i ==> extra@[j].0@ == self.extra@[j].0@ && extra@[j].1@
                        == self.extra@[j].1@,
            decreases self.extra.len() - i,
        {
            extra.push((self.extra[i].0.clone(), self.extra[i].1.clone()));
            i = i + 1;
        }
        let r = ClientGroupResponseData {
            id: self.id.clone(),
            name: self.name.clone(),
            max_down: self.max_down,
            max_up: self.max_up,
            site_id: self.site_id.clone(),
            extra,
        };
        proof {
            assert(r@.extra =~= self@.extra);
            assert(r@ =~= self@);
        }
        r
    }
}

impl View for ClientGroupResponseData {
    type V = GroupModel;

    open spec fn view(&self) -> GroupModel {
        GroupModel {
            id: self.id@,
            name: self.name@,
            max_down: self.max_down,
            max_up: self.max_up,
            site_id: self.site_id@,
            extra: Seq::new(self.extra@.len(), |i: int| (self.extra@[i].0@, self.extra@[i].1@)),
        }
    }
}

impl View for ClientGroupsResponse {
    type V = Seq<GroupModel>;

    open spec fn view(&self) -> Seq<GroupModel> {
        Seq::new(self.data@.len(), |i: int| self.data@[i]@)
    }
}

/// The rate carried by a group resource.
pub open spec fn spec_rate_of(g: GroupModel) -> Rate {
    Rate { max_down: g.max_down, max_up: g.max_up }
}

impl From<ClientGroupResponseData> for Rate {
    fn from(d: ClientGroupResponseData) -> (r: Self) {
        Self { max_down: d.max_down, max_up: d.max_up }
    }
}

impl vstd::std_specs::convert::FromSpecImpl<ClientGroupResponseData> for Rate {
    open spec fn obeys_from_spec() -> bool {
        true
    }

    open spec fn from_spec(d: ClientGroupResponseData) -> Rate {
        spec_rate_of(d@)
    }
}

impl From<&ClientGroupResponseData> for Rate {
    fn from(d: &ClientGroupResponseData) -> (r: Self) {
        Self { max_down: d.max_down, max_up: d.max_up }
    }
}

impl vstd::std_specs::convert::FromSpecImpl<&ClientGroupResponseData> for Rate {
    open spec fn obeys_from_spec() -> bool {
        true
    }

    open spec fn from_spec(d: &ClientGroupResponseData) -> Rate {
        spec_rate_of(d@)
    }
}

} // verus!
