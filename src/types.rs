use vstd::prelude::*;

use crate::time::{TimeOfDay, Timestamp};

verus! {

/// Whether a gate lets a release through.
#[derive(Clone, Copy, Debug, PartialEq, Eq, Structural, Hash)]
pub enum GateState {
    Open,
    Closed,
}

/// The identity of a gate: the group, service and environment it guards.
#[derive(Clone, Debug, PartialEq, Eq, Hash)]
pub struct GateKey {
    pub group: String,
    pub service: String,
    pub environment: String,
}

impl View for GateKey {
    type V = (Seq<char>, Seq<char>, Seq<char>);

    open spec fn view(&self) -> (Seq<char>, Seq<char>, Seq<char>) {
        (self.group@, self.service@, self.environment@)
    }
}

impl GateKey {
    pub fn new(group: String, service: String, environment: String) -> (r: GateKey)
        ensures
            r.group == group,
            r.service == service,
            r.environment == environment,
    {
        GateKey { group, service, environment }
    }

    /// Two keys name the same gate exactly when all three parts agree.
    pub fn same_gate(&self, other: &GateKey) -> (r: bool)
        ensures
            r == (self@ == other@),
    {
        self.group == other.group && self.service == other.service && self.environment
            == other.environment
    }
}

/// Keys name the same gate if and only if group, service and environment all
/// agree: keys that differ in any one part, whatever the other two hold, name
/// different gates.
pub proof fn lemma_key_identity(a: GateKey, b: GateKey)
    ensures
        a@ == b@ <==> (a.group@ == b.group@ && a.service@ == b.service@ && a.environment@
            == b.environment@),
        a.environment@ != b.environment@ ==> a@ != b@,
{
}

/// An audit note on a gate; never changed once made.
#[derive(Clone, Debug, PartialEq, Eq, Hash)]
pub struct Comment {
    pub id: String,
    pub message: String,
    pub created: Timestamp,
}

impl View for Comment {
    type V = (Seq<char>, Seq<char>, Timestamp);

    open spec fn view(&self) -> (Seq<char>, Seq<char>, Timestamp) {
        (self.id@, self.message@, self.created)
    }
}

impl Comment {
    pub fn new(id: String, message: String, created: Timestamp) -> (r: Comment)
        ensures
            r.id == id,
            r.message == message,
            r.created == created,
    {
        Comment { id, message, created }
    }

    pub fn copied(&self) -> (r: Comment)
        ensures
            r == *self,
    {
        Comment { id: self.id.clone(), message: self.message.clone(), created: self.created }
    }

    /// Comments are the same record when id, message and creation time agree.
    pub fn same_record(&self, other: &Comment) -> (r: bool)
        ensures
            r == (self@ == other@),
    {
        self.id == other.id && self.message == other.message && self.created == other.created
    }
}

/// The records of a sequence of comments.
pub open spec fn comment_views(s: Seq<Comment>) -> Seq<(Seq<char>, Seq<char>, Timestamp)> {
    s.map_values(|c: Comment| c@)
}

/// `s` with `c` added as to a set: unchanged when it already holds the same
/// record, else with `c` appended.
pub open spec fn with_comment(s: Seq<Comment>, c: Comment) -> Seq<Comment> {
    if comment_views(s).contains(c@) {
        s
    } else {
        s.push(c)
    }
}

/// Adding the same record a second time changes nothing: the comments, and
/// so their number, stay as the first insertion left them.
pub proof fn lemma_insert_comment_idempotent(s: Seq<Comment>, c: Comment)
    ensures
        with_comment(with_comment(s, c), c) == with_comment(s, c),
        with_comment(with_comment(s, c), c).len() == with_comment(s, c).len(),
{
    if !comment_views(s).contains(c@) {
        let t = s.push(c);
        assert(comment_views(t)[s.len() as int] == c@);
        assert(comment_views(t).contains(c@));
    }
}

/// A gate: its identity, its state, the set of its comments, when it last
/// changed, and an optional place in a manual ordering.
#[derive(Debug)]
pub struct Gate {
    key: GateKey,
    state: GateState,
    comments: Vec<Comment>,
    last_updated: Timestamp,
    display_order: Option<u32>,
}

impl Gate {
    pub closed spec fn spec_key(&self) -> GateKey {
        self.key
    }

    pub closed spec fn spec_state(&self) -> GateState {
        self.state
    }

    pub closed spec fn spec_display_order(&self) -> Option<u32> {
        self.display_order
    }

    /// The comments, in the order they were first added.
    pub closed spec fn comment_seq(&self) -> Seq<Comment> {
        self.comments@
    }

    pub closed spec fn spec_last_updated(&self) -> Timestamp {
        self.last_updated
    }

    /// No two comments hold the same record.
    pub closed spec fn wf(&self) -> bool {
        comment_views(self.comments@).no_duplicates()
    }

    /// The set of comment records.
    pub open spec fn comment_set(&self) -> Set<(Seq<char>, Seq<char>, Timestamp)> {
        comment_views(self.comment_seq()).to_set()
    }

    pub fn new(key: GateKey, state: GateState, last_updated: Timestamp, display_order: Option<u32>) -> (r: Gate)
        ensures
            r.wf(),
            r.spec_key() == key,
            r.spec_state() == state,
            r.comment_seq() == Seq::<Comment>::empty(),
            r.spec_last_updated() == last_updated,
            r.spec_display_order() == display_order,
    {
        let r = Gate { key, state, comments: Vec::new(), last_updated, display_order };
        assert(comment_views(r.comments@) =~= Seq::empty());
        r
    }

    pub fn key(&self) -> (r: &GateKey)
        ensures
            *r == self.spec_key(),
    {
        &self.key
    }

    pub fn state(&self) -> (r: GateState)
        ensures
            r == self.spec_state(),
    {
        self.state
    }

    pub fn display_order(&self) -> (r: Option<u32>)
        ensures
            r == self.spec_display_order(),
    {
        self.display_order
    }

    pub fn comments(&self) -> (r: &Vec<Comment>)
        ensures
            r@ == self.comment_seq(),
    {
        &self.comments
    }

    pub fn last_updated(&self) -> (r: Timestamp)
        ensures
            r == self.spec_last_updated(),
    {
        self.last_updated
    }

    /// Adds a comment unless the same record is already there; returns whether
    /// it was added.
    pub fn insert_comment(&mut self, comment: Comment) -> (inserted: bool)
        requires
            old(self).wf(),
        ensures
            final(self).wf(),
            inserted == !old(self).comment_set().contains(comment@),
            final(self).comment_seq() == with_comment(old(self).comment_seq(), comment),
            final(self).comment_set() == old(self).comment_set().insert(comment@),
            final(self).comment_seq().len() == old(self).comment_seq().len() + if inserted {
                1int
            } else {
                0int
            },
            final(self).spec_key() == old(self).spec_key(),
            final(self).spec_state() == old(self).spec_state(),
            final(self).spec_last_updated() == old(self).spec_last_updated(),
            final(self).spec_display_order() == old(self).spec_display_order(),
    {
        let ghost views = comment_views(self.comments@);
        let mut i: usize = 0;
        while i < self.comments.len()
            invariant
                i <= self.comments.len(),
                views == comment_views(self.comments@),
                *self == *old(self),
                self.wf(),
                forall|j: int| 0 <= j < i ==> views[j] != comment@,
            decreases self.comments.len() - i,
        {
            if self.comments[i].same_record(&comment) {
                assert(views[i as int] == comment@);
                return false;
            }
            i = i + 1;
        }
        assert(!views.contains(comment@));
        let ghost before = self.comments@;
        self.comments.push(comment);
        proof {
            let after = comment_views(self.comments@);
            assert(after =~= views.push(comment@));
            assert(after.to_set() =~= views.to_set().insert(comment@)) by {
                views.lemma_push_to_set_commute(comment@);
            }
            assert(after.no_duplicates()) by {
                assert forall|a: int, b: int| 0 <= a < after.len() && 0 <= b < after.len() && a != b implies after[a] != after[b] by {
                    if a < views.len() && b < views.len() {
                    } else if a < views.len() {
                        assert(views.contains(after[a]));
                    } else {
                        assert(views.contains(after[b]));
                    }
                }
            }
        }
        true
    }

    pub fn set_state(&mut self, state: GateState)
        ensures
            final(self).spec_state() == state,
            final(self).spec_key() == old(self).spec_key(),
            final(self).comment_seq() == old(self).comment_seq(),
            final(self).spec_last_updated() == old(self).spec_last_updated(),
            final(self).spec_display_order() == old(self).spec_display_order(),
            old(self).wf() ==> final(self).wf(),
    {
        self.state = state;
    }

    pub fn set_display_order(&mut self, display_order: Option<u32>)
        ensures
            final(self).spec_display_order() == display_order,
            final(self).spec_key() == old(self).spec_key(),
            final(self).spec_state() == old(self).spec_state(),
            final(self).comment_seq() == old(self).comment_seq(),
            final(self).spec_last_updated() == old(self).spec_last_updated(),
            old(self).wf() ==> final(self).wf(),
    {
        self.display_order = display_order;
    }

    /// Records a change made at `at`. The time of the last update never moves
    /// back: an `at` before it leaves it as it was.
    pub fn record_update(&mut self, at: Timestamp)
        ensures
            final(self).spec_last_updated() == old(self).spec_last_updated().spec_later(at),
            old(self).spec_last_updated().spec_le(final(self).spec_last_updated()),
            final(self).spec_key() == old(self).spec_key(),
            final(self).spec_state() == old(self).spec_state(),
            final(self).comment_seq() == old(self).comment_seq(),
            final(self).spec_display_order() == old(self).spec_display_order(),
            old(self).wf() ==> final(self).wf(),
    {
        self.last_updated = self.last_updated.later(&at);
    }

    /// Takes a gate apart: key, state, comments, time of the last update,
    /// display order.
    pub fn into_parts(self) -> (r: (GateKey, GateState, Vec<Comment>, Timestamp, Option<u32>))
        ensures
            r.0 == self.spec_key(),
            r.1 == self.spec_state(),
            r.2@ == self.comment_seq(),
            r.3 == self.spec_last_updated(),
            r.4 == self.spec_display_order(),
    {
        (self.key, self.state, self.comments, self.last_updated, self.display_order)
    }
}

/// A daily window of active hours. Nothing here requires `start` before
/// `end`: a window may run over midnight.
#[derive(Clone, Copy, Debug, PartialEq, Eq, Structural, Hash)]
pub struct ActiveHours {
    pub start: TimeOfDay,
    pub end: TimeOfDay,
}

impl ActiveHours {
    pub fn new(start: TimeOfDay, end: TimeOfDay) -> (r: ActiveHours)
        ensures
            r.start == start,
            r.end == end,
    {
        ActiveHours { start, end }
    }
}

#[derive(Clone, Copy, Debug, PartialEq, Eq, Structural, Hash)]
pub enum Weekday {
    Monday,
    Tuesday,
    Wednesday,
    Thursday,
    Friday,
    Saturday,
    Sunday,
}

/// One optional window per weekday; a day without one has no restriction.
#[derive(Clone, Copy, Debug, PartialEq, Eq, Structural, Hash)]
pub struct ActiveHoursPerWeek {
    pub monday: Option<ActiveHours>,
    pub tuesday: Option<ActiveHours>,
    pub wednesday: Option<ActiveHours>,
    pub thursday: Option<ActiveHours>,
    pub friday: Option<ActiveHours>,
    pub saturday: Option<ActiveHours>,
    pub sunday: Option<ActiveHours>,
}

impl ActiveHoursPerWeek {
    pub open spec fn spec_get(self, day: Weekday) -> Option<ActiveHours> {
        match day {
            Weekday::Monday => self.monday,
            Weekday::Tuesday => self.tuesday,
            Weekday::Wednesday => self.wednesday,
            Weekday::Thursday => self.thursday,
            Weekday::Friday => self.friday,
            Weekday::Saturday => self.saturday,
            Weekday::Sunday => self.sunday,
        }
    }

    /// A week with no restriction on any day.
    pub fn unrestricted() -> (r: ActiveHoursPerWeek)
        ensures
            forall|d: Weekday| r.spec_get(d).is_none(),
    {
        ActiveHoursPerWeek {
            monday: None,
            tuesday: None,
            wednesday: None,
            thursday: None,
            friday: None,
            saturday: None,
            sunday: None,
        }
    }

    pub fn get(&self, day: Weekday) -> (r: Option<ActiveHours>)
        ensures
            r == self.spec_get(day),
    {
        match day {
            Weekday::Monday => self.monday,
            Weekday::Tuesday => self.tuesday,
            Weekday::Wednesday => self.wednesday,
            Weekday::Thursday => self.thursday,
            Weekday::Friday => self.friday,
            Weekday::Saturday => self.saturday,
            Weekday::Sunday => self.sunday,
        }
    }

    /// Sets the window of one day; every other day keeps its own.
    pub fn set(&mut self, day: Weekday, hours: Option<ActiveHours>)
        ensures
            final(self).spec_get(day) == hours,
            forall|d: Weekday| d != day ==> final(self).spec_get(d) == old(self).spec_get(d),
    {
        match day {
            Weekday::Monday => self.monday = hours,
            Weekday::Tuesday => self.tuesday = hours,
            Weekday::Wednesday => self.wednesday = hours,
            Weekday::Thursday => self.thursday = hours,
            Weekday::Friday => self.friday = hours,
            Weekday::Saturday => self.saturday = hours,
            Weekday::Sunday => self.sunday = hours,
        }
    }
}

/// The inputs of an active-hours policy: the instant to judge, and the week.
#[derive(Clone, Copy, Debug, PartialEq, Eq, Structural, Hash)]
pub struct Config {
    pub system_time: Timestamp,
    pub active_hours_per_week: ActiveHoursPerWeek,
}

impl Config {
    pub fn new(system_time: Timestamp, active_hours_per_week: ActiveHoursPerWeek) -> (r: Config)
        ensures
            r.system_time == system_time,
            r.active_hours_per_week == active_hours_per_week,
    {
        Config { system_time, active_hours_per_week }
    }
}

} // verus!
