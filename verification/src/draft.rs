use vstd::prelude::*;
use vstd::string::StringExecFns;
use rand::RngCore;
use crate::text::joined;
use crate::text::parse_tag_list;
use crate::text::parse_tags;
use crate::text::trim;
use crate::text::trimmed;

verus! {

/// The creation time is kept as whole seconds since the Unix epoch, held
/// inside the span that can still be shown as a calendar date.
pub const TS_MIN: i64 = -8_000_000_000_000;

pub const TS_MAX: i64 = 8_000_000_000_000;

/// The field of the draft that an edit sub-dialog replaces.
#[derive(Clone, Copy, PartialEq, Eq, Structural, Debug)]
pub enum Field {
    Title,
    Description,
    Tags,
}

/// The draft as contracts speak of it: every piece of text as a sequence of
/// characters.
#[verifier::ext_equal]
pub struct DraftView {
    pub title: Seq<char>,
    pub description: Seq<char>,
    pub tags: Seq<Seq<char>>,
    pub id: u32,
    pub created_at: int,
}

impl DraftView {
    pub open spec fn wf(self) -> bool {
        TS_MIN as int <= self.created_at <= TS_MAX as int
    }
}

/// The record being edited through the session: pure data, mutated only by
/// the edit operations below.
pub struct DraftRecord {
    pub title: String,
    pub description: String,
    pub tags: Vec<String>,
    pub id: u32,
    pub created_at: i64,
}

impl View for DraftRecord {
    type V = DraftView;

    open spec fn view(&self) -> DraftView {
        DraftView {
            title: self.title@,
            description: self.description@,
            tags: self.tags.deep_view(),
            id: self.id,
            created_at: self.created_at as int,
        }
    }
}

/// A clock reading pulled back into the span that can be shown as a date.
pub open spec fn clamp_ts(t: int) -> int {
    if t < TS_MIN as int {
        TS_MIN as int
    } else if t > TS_MAX as int {
        TS_MAX as int
    } else {
        t
    }
}

/// The draft after one confirmed edit: the named field replaced by the
/// trimmed submission (for tags, by the parsed tag list), the others kept.
pub open spec fn edited(d: DraftView, f: Field, raw: Seq<char>) -> DraftView {
    match f {
        Field::Title => (DraftView { title: trimmed(raw), ..d }),
        Field::Description => (DraftView { description: trimmed(raw), ..d }),
        Field::Tags => (DraftView { tags: parse_tags(raw), ..d }),
    }
}

/// The tag summary shown on the main panel: "No tags" when the list is
/// empty, else the tags joined with a comma and a space, in insertion order.
pub open spec fn tag_summary(tags: Seq<Seq<char>>) -> Seq<char> {
    if tags.len() == 0 {
        "No tags"@
    } else {
        joined(tags)
    }
}

/// Relies on rand::rngs::ThreadRng::next_u32 for the draft's display id;
/// nothing is promised of a random value.
#[verifier::external_body]
fn fresh_id() -> u32 {
    rand::thread_rng().next_u32()
}

/// Relies on chrono::Utc::now and chrono::DateTime::timestamp: the clock's
/// whole seconds since the Unix epoch; nothing is promised of the clock.
#[verifier::external_body]
fn now_ts() -> i64 {
    chrono::Utc::now().timestamp()
}

impl DraftRecord {
    /// A fresh draft with the default field values, a given id and a given
    /// clock reading.
    pub fn new_at(id: u32, now: i64) -> (d: DraftRecord)
        ensures
            d@.title == "New Suggestion"@,
            d@.description == "Description"@,
            d@.tags == Seq::<Seq<char>>::empty(),
            d@.id == id,
            d@.created_at == clamp_ts(now as int),
            d@.wf(),
    {
        let created: i64 = if now < TS_MIN {
            TS_MIN
        } else if now > TS_MAX {
            TS_MAX
        } else {
            now
        };
        let tags: Vec<String> = Vec::new();
        proof {
            assert(tags.deep_view() =~= Seq::<Seq<char>>::empty());
        }
        DraftRecord {
            title: String::from_str("New Suggestion"),
            description: String::from_str("Description"),
            tags,
            id,
            created_at: created,
        }
    }

    /// A fresh draft with the default field values, a freshly drawn id and
    /// the current time; the id and the clock reading are outside this
    /// crate's control, so nothing more is promised of them.
    pub fn new() -> (d: DraftRecord)
        ensures
            d@.title == "New Suggestion"@,
            d@.description == "Description"@,
            d@.tags == Seq::<Seq<char>>::empty(),
            d@.wf(),
    {
        let id = fresh_id();
        let now = now_ts();
        DraftRecord::new_at(id, now)
    }

    /// Applies one confirmed edit atomically: the submission is trimmed (for
    /// tags, split into the tag list) and the named field replaced; no other
    /// field changes.
    pub fn apply_edit(&mut self, f: Field, raw: &str)
        ensures
            final(self)@ == edited(old(self)@, f, raw@),
    {
        match f {
            Field::Title => {
                self.title = trim(raw);
            },
            Field::Description => {
                self.description = trim(raw);
            },
            Field::Tags => {
                self.tags = parse_tag_list(raw);
            },
        }
        proof {
            assert(self@ =~= edited(old(self)@, f, raw@));
        }
    }

    /// The tag summary of this draft.
    pub fn tags_string(&self) -> (r: String)
        ensures
            r@ == tag_summary(self@.tags),
    {
        if self.tags.len() == 0 {
            proof {
                assert(self.tags.deep_view().len() == self.tags@.len());
            }
            String::from_str("No tags")
        } else {
            crate::text::join_tags(&self.tags)
        }
    }
}

} // verus!
