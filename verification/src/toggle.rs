//! The toggle service: the two-state on/off semantics over the
//! configured presets, and the adapter's request/response decisions.

use vstd::prelude::*;

use crate::error::{Error, Kind};
use crate::models::{Bandwidth, DndState, GroupModel, Rate};
use crate::u_client::{
    apply_update, first_named, lemma_first_named_after_update, read_result_of, spec_updated,
};

verus! {

/// Whether an observed rate reads as "on": exact component-wise equality
/// with the on-preset.
pub open spec fn spec_dnd_on(rate: Rate, on: Bandwidth) -> bool {
    rate.max_down == on.down && rate.max_up == on.up
}

/// The preset a desired toggle state writes to the controller: the
/// on-preset for `true`, the off-preset for `false`.
pub fn rates_for(desired: bool, on: &Bandwidth, off: &Bandwidth) -> (r: Bandwidth)
    ensures
        r == if desired {
            *on
        } else {
            *off
        },
{
    if desired {
        *on
    } else {
        *off
    }
}

/// The toggle's interpretation of a completed read.
///
/// A found rate reads as "on" exactly when it equals the on-preset
/// component-wise; the off-preset and any third, unrecognized rate both
/// read as "off" — the mapping is deliberately not injective.  A read
/// that found no group surfaces as a business error rather than a
/// guessed state, and a failed read propagates its error unchanged.
pub fn dnd_from_read(outcome: Result<Option<Rate>, Error>, on: &Bandwidth) -> (r: Result<
    DndState,
    Error,
>)
    ensures
        outcome matches Ok(Some(rate)) ==> (r matches Ok(d) && d.state == spec_dnd_on(rate, *on)),
        outcome matches Ok(o) && o is None ==> (r matches Err(e) && e.kind == Kind::Business
            && e.message@ == "No rate found"@),
        outcome matches Err(e) ==> (r matches Err(e2) && e2.kind == e.kind && e2.message@
            == e.message@),
{
    match outcome {
        Ok(Some(rate)) => Ok(DndState::new(rate.max_down == on.down && rate.max_up == on.up)),
        Ok(None) => Err(Error::from_str("No rate found")),
        Err(e) => Err(e),
    }
}

/// The JSON body the adapter answers a successful state read with.
pub open spec fn spec_state_json(state: bool) -> Seq<char> {
    if state {
        "{\"state\":true}"@
    } else {
        "{\"state\":false}"@
    }
}

/// The GET /state adapter decision: status code and body.
///
/// A completed read that found a rate answers 200 with the JSON toggle
/// body, the state true exactly when the rate equals the on-preset.  A
/// read that found no group answers 500 with exactly "No rate found"; a
/// failed read answers 500 with the error's rendered description.  The
/// status code collapses the two failure shapes into one.
pub fn get_state_response(outcome: &Result<Option<Rate>, Error>, on: &Bandwidth) -> (r: (
    u16,
    String,
))
    ensures
        outcome matches Ok(Some(rate)) ==> r.0 == 200 && r.1@ == spec_state_json(
            spec_dnd_on(*rate, *on),
        ),
        outcome matches Ok(o) && o is None ==> r.0 == 500 && r.1@ == "No rate found"@,
        outcome matches Err(e) ==> r.0 == 500 && r.1@ == e.spec_describe(),
{
    match outcome {
        Ok(Some(rate)) => {
            if rate.max_down == on.down && rate.max_up == on.up {
                (200, "{\"state\":true}".to_owned())
            } else {
                (200, "{\"state\":false}".to_owned())
            }
        },
        Ok(None) => (500, "No rate found".to_owned()),
        Err(e) => (500, e.describe()),
    }
}

/// The POST /state adapter decision: 200 on success, 500 on failure,
/// the body empty either way.
pub fn set_state_response(outcome: &Result<(), Error>) -> (r: (u16, String))
    ensures
        r.0 == if outcome is Ok {
            200int
        } else {
            500int
        },
        r.1@ == Seq::<char>::empty(),
{
    match outcome {
        Ok(_) => (200, String::new()),
        Err(_) => (500, String::new()),
    }
}

/// The toggle round trip, absent concurrent writers: writing the preset
/// a desired state selects — the payload `write_step` issues for the
/// found group — and then reading the state back yields the desired
/// state, provided the configured group is listed on the controller and,
/// for switching off, the two presets differ.  (When the presets are
/// equal, reading back after switching off reports "on", since the read
/// compares against the on-preset alone.)
pub proof fn lemma_toggle_round_trip(
    groups: Seq<GroupModel>,
    name: Seq<char>,
    on: Bandwidth,
    off: Bandwidth,
    desired: bool,
)
    requires
        first_named(groups, name) is Some,
        !desired ==> off != on,
    ensures
        ({
            let target = if desired {
                on
            } else {
                off
            };
            let written = spec_updated(first_named(groups, name)->Some_0, target.down, target.up);
            let after = apply_update(groups, written);
            &&& read_result_of(after, name) matches Some(r)
            &&& spec_dnd_on(r, on) == desired
        }),
{
    let g = first_named(groups, name)->Some_0;
    let target = if desired {
        on
    } else {
        off
    };
    let written = spec_updated(g, target.down, target.up);
    lemma_first_named_after_update(groups, name, written);
    assert(written.id == g.id);
    let found = first_named(apply_update(groups, written), name)->Some_0;
    assert(found.max_down == target.down && found.max_up == target.up);
}

} // verus!
