use suggestions::draft::DraftRecord;
use suggestions::session::action_event;
use suggestions::session::reply_event;
use suggestions::session::wait_times_out;
use suggestions::session::Directive;
use suggestions::session::EndReason;
use suggestions::session::Event;
use suggestions::session::Phase;
use suggestions::session::Session;
use suggestions::session::TIMEOUT_SECS;
use suggestions::view::Action;
use suggestions::view::ViewDescription;

fn shown(dir: Directive) -> ViewDescription {
    match dir {
        Directive::ShowPanel(v) => v,
        Directive::ConsumeAndShow(v) => v,
        Directive::FinalizeAndShow(v) => v,
        Directive::Ignore => panic!("event was ignored"),
        Directive::Fail => panic!("session failed"),
    }
}

#[test]
fn scenario_edit_title() {
    let mut s = Session::new(DraftRecord::new_at(7, 0));
    let v0 = s.initial_view();
    assert_eq!(v0.title, "Create Suggestion: New Suggestion");

    let prompt = shown(s.step(Event::Pressed(Action::EditTitle)));
    assert_eq!(prompt.title, "Edit Title");
    assert!(prompt.actions.is_empty());
    assert_eq!(s.phase, Phase::Prompting(suggestions::draft::Field::Title));

    let dir = s.step(Event::Submitted("Dark mode toggle".to_string()));
    let confirm = match dir {
        Directive::ConsumeAndShow(v) => v,
        _ => panic!("the submission should be consumed"),
    };
    assert_eq!(confirm.title, "Success");
    assert_eq!(confirm.actions, vec![Action::Continue]);

    let main = shown(s.step(Event::Pressed(Action::Continue)));
    assert_eq!(main.title, "Create Suggestion: Dark mode toggle");
    assert_eq!(main.body, "Description");
    assert_eq!(s.draft.title, "Dark mode toggle");
    assert_eq!(s.draft.description, "Description");
    assert_eq!(s.phase, Phase::AtMain);
}

#[test]
fn scenario_description_timeout() {
    let mut s = Session::new(DraftRecord::new_at(9, 0));
    let prompt = shown(s.step(Event::Pressed(Action::EditDescription)));
    assert_eq!(prompt.title, "Edit Description");

    assert_eq!(TIMEOUT_SECS, 180);
    assert!(wait_times_out(181));

    let v = shown(s.step(Event::TimedOut));
    assert_eq!(v.title, "Timed out");
    assert_eq!(v.body, "Interaction timed out");
    assert!(v.actions.is_empty());
    assert_eq!(s.phase, Phase::Ended(EndReason::TimedOut));
    assert_eq!(s.draft.description, "Description");

    assert!(matches!(s.step(Event::Pressed(Action::EditTitle)), Directive::Ignore));
    assert_eq!(s.phase, Phase::Ended(EndReason::TimedOut));
}

#[test]
fn scenario_edit_tags() {
    let mut s = Session::new(DraftRecord::new_at(5, 0));
    shown(s.step(Event::Pressed(Action::EditTags)));
    let dir = s.step(Event::Submitted("a,b,b".to_string()));
    assert!(matches!(dir, Directive::ConsumeAndShow(_)));
    let main = shown(s.step(Event::Pressed(Action::Continue)));
    assert_eq!(s.draft.tags, vec!["a", "b", "b"]);
    assert_eq!(s.draft.tags_string(), "a, b, b");
    assert_eq!(main.footer, "Tags: a, b, b | Time created: 01/01/1970 @00:00:00 UTC | ID: 5");
}

#[test]
fn scenario_cancel() {
    let mut s = Session::new(DraftRecord::new_at(4, 0));
    let v = shown(s.step(Event::Pressed(Action::Cancel)));
    assert_eq!(v.title, "Cancelled");
    assert!(v.actions.is_empty());
    assert_eq!(s.phase, Phase::Ended(EndReason::Cancelled));

    assert!(matches!(s.step(Event::Submitted("late".to_string())), Directive::Ignore));
    assert!(matches!(s.step(Event::Pressed(Action::Confirm)), Directive::Ignore));
    assert_eq!(s.draft.title, "New Suggestion");
    assert_eq!(s.phase, Phase::Ended(EndReason::Cancelled));
}

#[test]
fn confirm_hands_the_draft_off() {
    let mut s = Session::new(DraftRecord::new_at(4, 0));
    let dir = s.step(Event::Pressed(Action::Confirm));
    let v = match dir {
        Directive::FinalizeAndShow(v) => v,
        _ => panic!("the draft should be handed off"),
    };
    assert_eq!(v.title, "Suggestion sent");
    assert!(v.actions.is_empty());
    assert_eq!(s.phase, Phase::Ended(EndReason::Confirmed));
}

#[test]
fn timeout_at_main_keeps_the_draft() {
    let mut s = Session::new(DraftRecord::new_at(2, 0));
    let v = shown(s.step(Event::TimedOut));
    assert_eq!(v.title, "Timed out");
    assert_eq!(s.draft.title, "New Suggestion");
    assert_eq!(s.draft.description, "Description");
    assert!(s.draft.tags.is_empty());
    assert_eq!(s.phase, Phase::Ended(EndReason::TimedOut));
}

#[test]
fn timeout_while_confirming_keeps_the_edit() {
    let mut s = Session::new(DraftRecord::new_at(2, 0));
    shown(s.step(Event::Pressed(Action::EditTitle)));
    s.step(Event::Submitted("Kept".to_string()));
    let v = shown(s.step(Event::TimedOut));
    assert_eq!(v.title, "Timed out");
    assert_eq!(s.draft.title, "Kept");
    assert_eq!(s.phase, Phase::Ended(EndReason::TimedOut));
}

#[test]
fn unexpected_events_are_a_defect() {
    let mut s = Session::new(DraftRecord::new_at(2, 0));
    assert!(matches!(s.step(Event::Pressed(Action::Continue)), Directive::Fail));
    assert_eq!(s.phase, Phase::Ended(EndReason::Defect));

    let mut s2 = Session::new(DraftRecord::new_at(2, 0));
    shown(s2.step(Event::Pressed(Action::EditTitle)));
    s2.step(Event::Submitted("x".to_string()));
    assert!(matches!(s2.step(Event::Pressed(Action::Cancel)), Directive::Fail));
    assert_eq!(s2.phase, Phase::Ended(EndReason::Defect));
}

#[test]
fn edits_whitespace_is_trimmed() {
    let mut s = Session::new(DraftRecord::new_at(2, 0));
    shown(s.step(Event::Pressed(Action::EditTitle)));
    s.step(Event::Submitted("  Spaced out  ".to_string()));
    assert_eq!(s.draft.title, "Spaced out");
}

#[test]
fn edits_unicode_whitespace_is_trimmed() {
    let mut s = Session::new(DraftRecord::new_at(2, 0));
    shown(s.step(Event::Pressed(Action::EditTitle)));
    s.step(Event::Submitted("\u{000B}Dark mode\u{00A0}toggle\u{2003}".to_string()));
    assert_eq!(s.draft.title, "Dark mode\u{00A0}toggle");
    assert_eq!(s.draft.title, "\u{000B}Dark mode\u{00A0}toggle\u{2003}".trim());
}

#[test]
fn waiter_outcomes_map_to_events() {
    assert!(matches!(reply_event(None), Event::TimedOut));
    assert!(matches!(reply_event(Some("hi".to_string())), Event::Submitted(t) if t == "hi"));
    assert!(matches!(action_event(None), Event::TimedOut));
    assert!(matches!(action_event(Some(Action::Cancel)), Event::Pressed(Action::Cancel)));
    assert!(!wait_times_out(179));
    assert!(wait_times_out(180));
}

#[test]
fn successive_edits_apply_in_order() {
    let mut s = Session::new(DraftRecord::new_at(11, 0));
    shown(s.step(Event::Pressed(Action::EditTitle)));
    s.step(Event::Submitted("First".to_string()));
    shown(s.step(Event::Pressed(Action::Continue)));
    shown(s.step(Event::Pressed(Action::EditTitle)));
    s.step(Event::Submitted("Second".to_string()));
    shown(s.step(Event::Pressed(Action::Continue)));
    shown(s.step(Event::Pressed(Action::EditDescription)));
    s.step(Event::Submitted("Body".to_string()));
    shown(s.step(Event::Pressed(Action::Continue)));
    assert_eq!(s.draft.title, "Second");
    assert_eq!(s.draft.description, "Body");
    assert!(s.draft.tags.is_empty());
}
