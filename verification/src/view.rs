use vstd::prelude::*;
use vstd::string::StringExecFns;
use crate::draft::DraftRecord;
use crate::draft::DraftView;
use crate::draft::Field;
use crate::draft::TS_MAX;
use crate::draft::TS_MIN;
use crate::draft::tag_summary;
use crate::text::dec_rep;
use crate::text::dec_string_u32;

verus! {

/// How a session ends when a terminal action is confirmed.
#[derive(Clone, Copy, PartialEq, Eq, Structural, Debug)]
pub enum Outcome {
    Confirmed,
    Cancelled,
}

/// A discrete user-triggered control on the panel.
#[derive(Clone, Copy, PartialEq, Eq, Structural, Debug)]
pub enum Action {
    EditTitle,
    EditDescription,
    EditTags,
    Confirm,
    Cancel,
    Continue,
}

/// Which state of the session the panel is showing.
#[derive(Clone, Copy, PartialEq, Eq, Structural, Debug)]
pub enum Screen {
    Main,
    PromptField(Field),
    Confirm(Field),
    TimedOut,
    Terminal(Outcome),
}

/// A rendered panel as contracts speak of it.
#[verifier::ext_equal]
pub struct ViewModel {
    pub title: Seq<char>,
    pub body: Seq<char>,
    pub footer: Seq<char>,
    pub actions: Seq<Action>,
}

/// A rendered panel: a title line, a body line, a footer line and the
/// ordered actions attached to the screen; a pure description, with no side
/// effect of its own.
pub struct ViewDescription {
    pub title: String,
    pub body: String,
    pub footer: String,
    pub actions: Vec<Action>,
}

impl View for ViewDescription {
    type V = ViewModel;

    open spec fn view(&self) -> ViewModel {
        ViewModel {
            title: self.title@,
            body: self.body@,
            footer: self.footer@,
            actions: self.actions@,
        }
    }
}

/// The text the panel shows for a creation time, as a function of the
/// seconds since the Unix epoch alone; the text itself is chrono's.
pub uninterp spec fn timestamp_text(secs: int) -> Seq<char>;

/// Relies on chrono::DateTime::from_timestamp and chrono's formatter: the
/// calendar reading of a number of seconds since the Unix epoch, in UTC, a
/// function of that number alone.
#[verifier::external_body]
fn format_timestamp(secs: i64) -> (r: String)
    requires
        TS_MIN <= secs <= TS_MAX,
    ensures
        r@ == timestamp_text(secs as int),
{
    chrono::DateTime::from_timestamp(secs, 0)
        .expect("seconds within the calendar span")
        .format("%d/%m/%Y @%H:%M:%S UTC")
        .to_string()
}

/// The title of the prompt for a field.
pub open spec fn field_title(f: Field) -> Seq<char> {
    match f {
        Field::Title => "Edit Title"@,
        Field::Description => "Edit Description"@,
        Field::Tags => "Edit Tags"@,
    }
}

/// The short name a field goes by in the panel's prose.
pub open spec fn field_noun(f: Field) -> Seq<char> {
    match f {
        Field::Title => "title"@,
        Field::Description => "description"@,
        Field::Tags => "tags"@,
    }
}

/// The five actions of the main panel, always in this order.
pub open spec fn main_actions() -> Seq<Action> {
    seq![Action::EditTitle, Action::EditDescription, Action::EditTags, Action::Confirm, Action::Cancel]
}

pub open spec fn outcome_title(o: Outcome) -> Seq<char> {
    match o {
        Outcome::Confirmed => "Suggestion sent"@,
        Outcome::Cancelled => "Cancelled"@,
    }
}

pub open spec fn outcome_body(o: Outcome) -> Seq<char> {
    match o {
        Outcome::Confirmed => "Your suggestion was submitted"@,
        Outcome::Cancelled => "Suggestion creation was cancelled"@,
    }
}

/// What the panel shows for a draft on a screen: a deterministic function
/// of the pair and of nothing else.
pub open spec fn render_spec(d: DraftView, s: Screen) -> ViewModel {
    match s {
        Screen::Main => (ViewModel {
            title: "Create Suggestion: "@ + d.title,
            body: d.description,
            footer: "Tags: "@ + tag_summary(d.tags) + " | Time created: "@ + timestamp_text(
                d.created_at,
            ) + " | ID: "@ + dec_rep(d.id as nat),
            actions: main_actions(),
        }),
        Screen::PromptField(f) => (ViewModel {
            title: field_title(f),
            body: "Please type the new "@ + field_noun(f) + " of your suggestion"@,
            footer: "Editing Suggestion ID "@ + dec_rep(d.id as nat),
            actions: Seq::<Action>::empty(),
        }),
        Screen::Confirm(f) => (ViewModel {
            title: "Success"@,
            body: "Suggestion "@ + field_noun(f) + " was updated successfully!"@,
            footer: "Editing Suggestion ID "@ + dec_rep(d.id as nat),
            actions: seq![Action::Continue],
        }),
        Screen::TimedOut => (ViewModel {
            title: "Timed out"@,
            body: "Interaction timed out"@,
            footer: Seq::<char>::empty(),
            actions: Seq::<Action>::empty(),
        }),
        Screen::Terminal(o) => (ViewModel {
            title: outcome_title(o),
            body: outcome_body(o),
            footer: "Suggestion ID "@ + dec_rep(d.id as nat),
            actions: Seq::<Action>::empty(),
        }),
    }
}

fn field_title_str(f: Field) -> (r: String)
    ensures
        r@ == field_title(f),
{
    match f {
        Field::Title => String::from_str("Edit Title"),
        Field::Description => String::from_str("Edit Description"),
        Field::Tags => String::from_str("Edit Tags"),
    }
}

fn field_noun_str(f: Field) -> (r: String)
    ensures
        r@ == field_noun(f),
{
    match f {
        Field::Title => String::from_str("title"),
        Field::Description => String::from_str("description"),
        Field::Tags => String::from_str("tags"),
    }
}

fn footer_editing(d: &DraftRecord) -> (r: String)
    ensures
        r@ == "Editing Suggestion ID "@ + dec_rep(d@.id as nat),
{
    let mut r = String::from_str("Editing Suggestion ID ");
    let id = dec_string_u32(d.id);
    r.append(id.as_str());
    r
}

/// Builds the panel for a draft on a screen. Pure and idempotent: the
/// result is fixed by the pair alone, so rendering twice shows the same
/// panel twice.
pub fn render(d: &DraftRecord, screen: Screen) -> (v: ViewDescription)
    requires
        d@.wf(),
    ensures
        v@ == render_spec(d@, screen),
{
    match screen {
        Screen::Main => {
            let mut title = String::from_str("Create Suggestion: ");
            title.append(d.title.as_str());
            let body = d.description.clone();
            let mut footer = String::from_str("Tags: ");
            let tags = d.tags_string();
            footer.append(tags.as_str());
            footer.append(" | Time created: ");
            let when = format_timestamp(d.created_at);
            footer.append(when.as_str());
            footer.append(" | ID: ");
            let id = dec_string_u32(d.id);
            footer.append(id.as_str());
            let mut actions: Vec<Action> = Vec::new();
            actions.push(Action::EditTitle);
            actions.push(Action::EditDescription);
            actions.push(Action::EditTags);
            actions.push(Action::Confirm);
            actions.push(Action::Cancel);
            proof {
                assert(actions@ =~= main_actions());
            }
            ViewDescription { title, body, footer, actions }
        },
        Screen::PromptField(f) => {
            let title = field_title_str(f);
            let mut body = String::from_str("Please type the new ");
            let noun = field_noun_str(f);
            body.append(noun.as_str());
            body.append(" of your suggestion");
            let footer = footer_editing(d);
            let actions: Vec<Action> = Vec::new();
            proof {
                assert(actions@ =~= Seq::<Action>::empty());
            }
            ViewDescription { title, body, footer, actions }
        },
        Screen::Confirm(f) => {
            let title = String::from_str("Success");
            let mut body = String::from_str("Suggestion ");
            let noun = field_noun_str(f);
            body.append(noun.as_str());
            body.append(" was updated successfully!");
            let footer = footer_editing(d);
            let mut actions: Vec<Action> = Vec::new();
            actions.push(Action::Continue);
            proof {
                assert(actions@ =~= seq![Action::Continue]);
            }
            ViewDescription { title, body, footer, actions }
        },
        Screen::TimedOut => {
            let title = String::from_str("Timed out");
            let body = String::from_str("Interaction timed out");
            let footer = String::new();
            let actions: Vec<Action> = Vec::new();
            proof {
                assert(actions@ =~= Seq::<Action>::empty());
            }
            ViewDescription { title, body, footer, actions }
        },
        Screen::Terminal(o) => {
            let title = match o {
                Outcome::Confirmed => String::from_str("Suggestion sent"),
                Outcome::Cancelled => String::from_str("Cancelled"),
            };
            let body = match o {
                Outcome::Confirmed => String::from_str("Your suggestion was submitted"),
                Outcome::Cancelled => String::from_str("Suggestion creation was cancelled"),
            };
            let mut footer = String::from_str("Suggestion ID ");
            let id = dec_string_u32(d.id);
            footer.append(id.as_str());
            let actions: Vec<Action> = Vec::new();
            proof {
                assert(actions@ =~= Seq::<Action>::empty());
            }
            ViewDescription { title, body, footer, actions }
        },
    }
}

/// Rendering is a pure function of the draft and the screen: two renders of
/// the same pair are identical, with no hidden state between them.
pub proof fn lemma_render_idempotent(d: DraftView, s: Screen, v1: ViewModel, v2: ViewModel)
    requires
        v1 == render_spec(d, s),
        v2 == render_spec(d, s),
    ensures
        v1 == v2,
{
}

/// The wire id a panel control carries for an action.
pub open spec fn action_id_spec(a: Action) -> Seq<char> {
    match a {
        Action::EditTitle => "edit_title"@,
        Action::EditDescription => "edit_desc"@,
        Action::EditTags => "edit_tags"@,
        Action::Confirm => "send"@,
        Action::Cancel => "cancel"@,
        Action::Continue => "continue"@,
    }
}

/// The label a panel control shows for an action.
pub open spec fn action_label_spec(a: Action) -> Seq<char> {
    match a {
        Action::EditTitle => "Edit Title"@,
        Action::EditDescription => "Edit Description"@,
        Action::EditTags => "Edit Tags"@,
        Action::Confirm => "Confirm"@,
        Action::Cancel => "Cancel"@,
        Action::Continue => "Continue"@,
    }
}

pub fn action_id(a: Action) -> (r: &'static str)
    ensures
        r@ == action_id_spec(a),
{
    match a {
        Action::EditTitle => "edit_title",
        Action::EditDescription => "edit_desc",
        Action::EditTags => "edit_tags",
        Action::Confirm => "send",
        Action::Cancel => "cancel",
        Action::Continue => "continue",
    }
}

pub fn action_label(a: Action) -> (r: &'static str)
    ensures
        r@ == action_label_spec(a),
{
    match a {
        Action::EditTitle => "Edit Title",
        Action::EditDescription => "Edit Description",
        Action::EditTags => "Edit Tags",
        Action::Confirm => "Confirm",
        Action::Cancel => "Cancel",
        Action::Continue => "Continue",
    }
}

fn str_eq(a: &str, b: &str) -> (r: bool)
    ensures
        r == (a@ == b@),
{
    let x = String::from_str(a);
    let y = String::from_str(b);
    x == y
}

/// Reads a wire id back into the action it stands for; an id outside the
/// known set decodes to nothing.
pub fn decode_action(s: &str) -> (r: Option<Action>)
    ensures
        match r {
            Some(a) => s@ == action_id_spec(a),
            None => forall|a: Action| s@ != action_id_spec(a),
        },
{
    if str_eq(s, "edit_title") {
        Some(Action::EditTitle)
    } else if str_eq(s, "edit_desc") {
        Some(Action::EditDescription)
    } else if str_eq(s, "edit_tags") {
        Some(Action::EditTags)
    } else if str_eq(s, "send") {
        Some(Action::Confirm)
    } else if str_eq(s, "cancel") {
        Some(Action::Cancel)
    } else if str_eq(s, "continue") {
        Some(Action::Continue)
    } else {
        None
    }
}

} // verus!
