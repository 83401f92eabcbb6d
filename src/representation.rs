use vstd::prelude::*;

use itertools::Itertools;

use crate::time::{TimeOfDay, Timestamp};
use crate::types;
use crate::types::{GateState, Weekday};

verus! {

/// Name and version of the service that serves these shapes.
#[derive(Clone, Debug, Hash, PartialEq, Eq)]
pub struct ApiInfo {
    pub name: String,
    pub version: String,
}

#[derive(Clone, Debug, PartialEq, Eq)]
pub struct Group {
    pub name: String,
    pub services: Vec<Service>,
}

#[derive(Clone, Debug, PartialEq, Eq)]
pub struct Service {
    pub name: String,
    pub environments: Vec<Environment>,
}

#[derive(Clone, Debug, PartialEq, Eq)]
pub struct Environment {
    pub name: String,
    pub gate: Gate,
}

/// The full external shape of a gate. Its comments are in order of creation;
/// an absent display order is left out when written.
#[derive(Clone, Debug, PartialEq, Eq)]
pub struct Gate {
    pub group: String,
    pub service: String,
    pub environment: String,
    pub state: GateState,
    pub comments: Vec<Comment>,
    pub last_updated: Timestamp,
    pub display_order: Option<u32>,
}

/// The state-only external shape of a gate.
#[derive(Clone, Copy, Debug, PartialEq, Eq, Structural)]
pub struct GateStateRep {
    pub state: GateState,
}

#[derive(Clone, Debug, Hash, PartialEq, Eq)]
pub struct Comment {
    pub id: String,
    pub message: String,
    pub created: Timestamp,
}

#[derive(Clone, Copy, Debug, Hash, PartialEq, Eq, Structural)]
pub struct Config {
    pub system_time: Timestamp,
    pub active_hours_per_week: ActiveHoursPerWeek,
}

#[derive(Clone, Copy, Debug, PartialEq, Eq, Structural, Hash)]
pub struct ActiveHours {
    pub start: TimeOfDay,
    pub end: TimeOfDay,
}

/// One optional window per weekday; an absent day is left out when written.
#[derive(Clone, Copy, Debug, PartialEq, Eq, Structural, Hash)]
pub struct ActiveHoursPerWeek {
    pub monday: Option<ActiveHours>,
    pub tuesday: Option<ActiveHours>,
    pub wednesday: Option<ActiveHours>,
    pub thursday: Option<ActiveHours>,
    pub friday: Option<ActiveHours>,
    pub saturday: Option<ActiveHours>,
    pub sunday: Option<ActiveHours>,
}

/// The external shape of a comment: the same three fields.
pub open spec fn comment_rep(c: types::Comment) -> Comment {
    Comment { id: c.id, message: c.message, created: c.created }
}

pub open spec fn hours_rep(h: types::ActiveHours) -> ActiveHours {
    ActiveHours { start: h.start, end: h.end }
}

pub open spec fn day_rep(o: Option<types::ActiveHours>) -> Option<ActiveHours> {
    match o {
        Some(h) => Some(hours_rep(h)),
        None => None,
    }
}

/// Each day's window mapped as it is; an absent day stays absent.
pub open spec fn week_rep(w: types::ActiveHoursPerWeek) -> ActiveHoursPerWeek {
    ActiveHoursPerWeek {
        monday: day_rep(w.monday),
        tuesday: day_rep(w.tuesday),
        wednesday: day_rep(w.wednesday),
        thursday: day_rep(w.thursday),
        friday: day_rep(w.friday),
        saturday: day_rep(w.saturday),
        sunday: day_rep(w.sunday),
    }
}

/// Every comment created no later than every one after it.
pub open spec fn sorted_by_created(s: Seq<Comment>) -> bool {
    forall|i: int, j: int| 0 <= i < j < s.len() ==> #[trigger] s[i].created.spec_le(#[trigger] s[j].created)
}

/// The comments created at `t`, in their order in `s`.
pub open spec fn created_at(s: Seq<Comment>, t: Timestamp) -> Seq<Comment> {
    s.filter(created_when(t))
}

pub open spec fn created_when(t: Timestamp) -> spec_fn(Comment) -> bool {
    |c: Comment| c.created == t
}

/// Two sequences sorted by creation time that hold, for every instant, the
/// same comments created then in the same order, are equal.
pub proof fn lemma_stable_sort_unique(a: Seq<Comment>, b: Seq<Comment>)
    requires
        sorted_by_created(a),
        sorted_by_created(b),
        forall|t: Timestamp| #[trigger] created_at(a, t) == created_at(b, t),
    ensures
        a == b,
    decreases a.len(),
{
    if a.len() == 0 {
        if b.len() > 0 {
            lemma_first_in_filter(b);
            assert(created_at(a, b[0].created).len() == 0);
        }
        assert(a =~= b);
    } else if b.len() == 0 {
        lemma_first_in_filter(a);
        assert(created_at(b, a[0].created).len() == 0);
    } else {
        let x = a[0];
        let y = b[0];
        let ra = a.drop_first();
        let rb = b.drop_first();
        assert(a =~= seq![x] + ra);
        assert(b =~= seq![y] + rb);
        lemma_first_in_filter(a);
        lemma_first_in_filter(b);
        lemma_member_not_earlier(b, x.created);
        lemma_member_not_earlier(a, y.created);
        assert(x.created == y.created);
        let t0 = x.created;
        ra.lemma_filter_prepend(x, created_when(t0));
        rb.lemma_filter_prepend(y, created_when(t0));
        assert(created_at(a, t0)[0] == x);
        assert(created_at(b, t0)[0] == y);
        assert forall|t: Timestamp| #[trigger] created_at(ra, t) == created_at(rb, t) by {
            ra.lemma_filter_prepend(x, created_when(t));
            rb.lemma_filter_prepend(y, created_when(t));
            if t == t0 {
                assert(created_at(ra, t) =~= created_at(a, t).drop_first());
                assert(created_at(rb, t) =~= created_at(b, t).drop_first());
            } else {
                assert(created_at(ra, t) =~= created_at(a, t));
                assert(created_at(rb, t) =~= created_at(b, t));
            }
        }
        assert(sorted_by_created(ra)) by {
            assert forall|i: int, j: int| 0 <= i < j < ra.len() implies #[trigger] ra[i].created.spec_le(
                #[trigger] ra[j].created,
            ) by {
                assert(ra[i] == a[i + 1] && ra[j] == a[j + 1]);
            }
        }
        assert(sorted_by_created(rb)) by {
            assert forall|i: int, j: int| 0 <= i < j < rb.len() implies #[trigger] rb[i].created.spec_le(
                #[trigger] rb[j].created,
            ) by {
                assert(rb[i] == b[i + 1] && rb[j] == b[j + 1]);
            }
        }
        lemma_stable_sort_unique(ra, rb);
    }
}

/// The first comment of a non-empty sequence is among those created when it
/// was.
proof fn lemma_first_in_filter(s: Seq<Comment>)
    requires
        s.len() > 0,
    ensures
        created_at(s, s[0].created).contains(s[0]),
        created_at(s, s[0].created).len() > 0,
{
    s.lemma_filter_contains(created_when(s[0].created), 0);
}

/// In a sequence sorted by creation time, one that holds a comment created
/// at `t` starts with one created no later than `t`.
proof fn lemma_member_not_earlier(s: Seq<Comment>, t: Timestamp)
    requires
        sorted_by_created(s),
        s.len() > 0,
        created_at(s, t).len() > 0,
    ensures
        s[0].created.spec_le(t),
{
    let f = created_at(s, t);
    s.lemma_filter_pred(created_when(t), 0);
    assert(f.contains(f[0]));
    s.lemma_filter_contains_rev(created_when(t), f[0]);
    let k = choose|k: int| 0 <= k < s.len() && s[k] == f[0];
    if k > 0 {
        assert(s[0].created.spec_le(s[k].created));
    }
}

/// `dst` is `src` sorted by creation time, comments created at the same
/// instant keeping their order in `src`.
pub open spec fn stable_sorted_by_created(src: Seq<Comment>, dst: Seq<Comment>) -> bool {
    &&& dst.len() == src.len()
    &&& sorted_by_created(dst)
    &&& forall|t: Timestamp| #[trigger] created_at(dst, t) == created_at(src, t)
}

/// `r` is the full external shape of the domain gate `g`.
pub open spec fn represents(r: Gate, g: types::Gate) -> bool {
    &&& r.group == g.spec_key().group
    &&& r.service == g.spec_key().service
    &&& r.environment == g.spec_key().environment
    &&& r.state == g.spec_state()
    &&& stable_sorted_by_created(g.comment_seq().map_values(|c: types::Comment| comment_rep(c)), r.comments@)
    &&& r.last_updated == g.spec_last_updated()
    &&& r.display_order == g.spec_display_order()
}

/// Relies on itertools' `Itertools::sorted_by_key`, a stable sort (it calls
/// `slice::sort_by_key`), here keyed by creation time as (seconds,
/// nanoseconds), which orders as instants do.
#[verifier::external_body]
fn sort_by_created(comments: Vec<Comment>) -> (r: Vec<Comment>)
    ensures
        stable_sorted_by_created(comments@, r@),
{
    comments.into_iter().sorted_by_key(|c| c.created.sort_key()).collect()
}

impl From<types::ActiveHours> for ActiveHours {
    fn from(value: types::ActiveHours) -> (r: ActiveHours) {
        ActiveHours { start: value.start, end: value.end }
    }
}

impl vstd::std_specs::convert::FromSpecImpl<types::ActiveHours> for ActiveHours {
    open spec fn obeys_from_spec() -> bool {
        true
    }

    open spec fn from_spec(v: types::ActiveHours) -> ActiveHours {
        hours_rep(v)
    }
}

fn day_from(day: Option<types::ActiveHours>) -> (r: Option<ActiveHours>)
    ensures
        r == day_rep(day),
{
    match day {
        Some(h) => Some(ActiveHours::from(h)),
        None => None,
    }
}

impl From<types::ActiveHoursPerWeek> for ActiveHoursPerWeek {
    fn from(value: types::ActiveHoursPerWeek) -> (r: ActiveHoursPerWeek) {
        ActiveHoursPerWeek {
            monday: day_from(value.monday),
            tuesday: day_from(value.tuesday),
            wednesday: day_from(value.wednesday),
            thursday: day_from(value.thursday),
            friday: day_from(value.friday),
            saturday: day_from(value.saturday),
            sunday: day_from(value.sunday),
        }
    }
}

impl vstd::std_specs::convert::FromSpecImpl<types::ActiveHoursPerWeek> for ActiveHoursPerWeek {
    open spec fn obeys_from_spec() -> bool {
        true
    }

    open spec fn from_spec(v: types::ActiveHoursPerWeek) -> ActiveHoursPerWeek {
        week_rep(v)
    }
}

impl ActiveHoursPerWeek {
    pub open spec fn spec_get(self, day: Weekday) -> Option<ActiveHours> {
        match day {
            Weekday::Monday => self.monday,
            Weekday::Tuesday => self.tuesday,
            Weekday::Wednesday => self.wednesday,
            Weekday::Thursday => self.thursday,
            Weekday::Friday => self.friday,
            Weekday::Saturday => self.saturday,
            Weekday::Sunday => self.sunday,
        }
    }

    pub fn get(&self, day: Weekday) -> (r: Option<ActiveHours>)
        ensures
            r == self.spec_get(day),
    {
        match day {
            Weekday::Monday => self.monday,
            Weekday::Tuesday => self.tuesday,
            Weekday::Wednesday => self.wednesday,
            Weekday::Thursday => self.thursday,
            Weekday::Friday => self.friday,
            Weekday::Saturday => self.saturday,
            Weekday::Sunday => self.sunday,
        }
    }
}

/// Each weekday is mapped on its own: the external week holds, for every
/// day, that day's window mapped field for field, and nothing where the
/// domain week has nothing.
pub proof fn lemma_week_days_independent(w: types::ActiveHoursPerWeek, d: Weekday)
    ensures
        week_rep(w).spec_get(d) == day_rep(w.spec_get(d)),
        w.spec_get(d).is_none() <==> week_rep(w).spec_get(d).is_none(),
        w.spec_get(d) matches Some(h) ==> week_rep(w).spec_get(d) == Some(
            ActiveHours { start: h.start, end: h.end },
        ),
{
}

/// A week with only Monday set maps to one with only Monday set, to the same
/// start and end.
pub proof fn lemma_only_monday(w: types::ActiveHoursPerWeek, h: types::ActiveHours)
    requires
        w.monday == Some(h),
        forall|d: Weekday| d != Weekday::Monday ==> #[trigger] w.spec_get(d).is_none(),
    ensures
        week_rep(w).monday == Some(ActiveHours { start: h.start, end: h.end }),
        forall|d: Weekday| d != Weekday::Monday ==> #[trigger] week_rep(w).spec_get(d).is_none(),
{
    assert forall|d: Weekday| d != Weekday::Monday implies #[trigger] week_rep(w).spec_get(d).is_none() by {
        lemma_week_days_independent(w, d);
    }
}

impl From<types::Config> for Config {
    fn from(value: types::Config) -> (r: Config) {
        Config {
            system_time: value.system_time,
            active_hours_per_week: ActiveHoursPerWeek::from(value.active_hours_per_week),
        }
    }
}

impl vstd::std_specs::convert::FromSpecImpl<types::Config> for Config {
    open spec fn obeys_from_spec() -> bool {
        true
    }

    open spec fn from_spec(v: types::Config) -> Config {
        Config { system_time: v.system_time, active_hours_per_week: week_rep(v.active_hours_per_week) }
    }
}

impl From<types::Comment> for Comment {
    fn from(value: types::Comment) -> (r: Comment) {
        Comment { id: value.id, message: value.message, created: value.created }
    }
}

impl vstd::std_specs::convert::FromSpecImpl<types::Comment> for Comment {
    open spec fn obeys_from_spec() -> bool {
        true
    }

    open spec fn from_spec(v: types::Comment) -> Comment {
        comment_rep(v)
    }
}

impl From<types::Gate> for GateStateRep {
    fn from(value: types::Gate) -> (r: GateStateRep) {
        GateStateRep { state: value.state() }
    }
}

impl vstd::std_specs::convert::FromSpecImpl<types::Gate> for GateStateRep {
    open spec fn obeys_from_spec() -> bool {
        true
    }

    open spec fn from_spec(v: types::Gate) -> GateStateRep {
        GateStateRep { state: v.spec_state() }
    }
}

impl Gate {
    /// The full external shape of `value`: its key split into three fields,
    /// its state, time of the last update and display order as they are, and
    /// its comments sorted by creation time, those created at the same
    /// instant in the order `value` holds them.
    pub fn from_domain(value: types::Gate) -> (r: Gate)
        ensures
            represents(r, value),
    {
        let ghost src = value.comment_seq();
        let (key, state, comments, last_updated, display_order) = value.into_parts();
        let mut reps: Vec<Comment> = Vec::new();
        let mut i: usize = 0;
        while i < comments.len()
            invariant
                i <= comments.len(),
                comments@ == src,
                reps@.len() == i,
                forall|j: int| 0 <= j < i ==> reps@[j] == comment_rep(#[trigger] src[j]),
            decreases comments.len() - i,
        {
            reps.push(Comment::from(comments[i].copied()));
            i = i + 1;
        }
        assert(reps@ =~= src.map_values(|c: types::Comment| comment_rep(c)));
        Gate {
            group: key.group,
            service: key.service,
            environment: key.environment,
            state,
            comments: sort_by_created(reps),
            last_updated,
            display_order,
        }
    }
}

impl From<types::Gate> for Gate {
    fn from(value: types::Gate) -> (r: Gate) {
        Gate::from_domain(value)
    }
}

impl vstd::std_specs::convert::FromSpecImpl<types::Gate> for Gate {
    /// What `from` returns is stated by `Gate::from_domain`, which it calls.
    open spec fn obeys_from_spec() -> bool {
        false
    }

    open spec fn from_spec(v: types::Gate) -> Gate {
        choose|r: Gate| represents(r, v)
    }
}

/// In the full shape of a gate every comment comes no later than each one
/// after it, whatever order the domain gate holds them in.
pub proof fn lemma_comments_in_time_order(g: types::Gate, r: Gate, i: int, j: int)
    requires
        represents(r, g),
        0 <= i < j < r.comments@.len(),
    ensures
        r.comments@[i].created.spec_le(r.comments@[j].created),
{
}

/// Converting the same gate twice gives the same shape: equal fields, and
/// the comments in the same order, also where two were created at the same
/// instant.
pub proof fn lemma_conversion_deterministic(g: types::Gate, r1: Gate, r2: Gate)
    requires
        represents(r1, g),
        represents(r2, g),
    ensures
        r1.comments@ == r2.comments@,
        r1.group == r2.group,
        r1.service == r2.service,
        r1.environment == r2.environment,
        r1.state == r2.state,
        r1.last_updated == r2.last_updated,
        r1.display_order == r2.display_order,
{
    lemma_stable_sort_unique(r1.comments@, r2.comments@);
}

/// Reading back the key, state and time of the last update from the full
/// shape of a gate gives back those of the domain gate.
pub proof fn lemma_round_trip(g: types::Gate, r: Gate)
    requires
        represents(r, g),
    ensures
        r.group@ == g.spec_key().group@,
        r.service@ == g.spec_key().service@,
        r.environment@ == g.spec_key().environment@,
        r.state == g.spec_state(),
        r.last_updated == g.spec_last_updated(),
        r.display_order == g.spec_display_order(),
        r.comments@.len() == g.comment_seq().len(),
{
}

} // verus!
