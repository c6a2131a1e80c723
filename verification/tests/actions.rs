use transistor::action::starts_with_sigil;
use transistor::action::Action;
use transistor::batch::transaction_body;
use transistor::batch::Actions;
use transistor::time::Timestamp;

fn text(s: &str) -> String {
    s.to_string()
}

fn at(seconds: i64, offset: i32) -> Timestamp {
    Timestamp::new(seconds, 0, offset).expect("a representable timestamp")
}

const PERSON: &str = "{ :crux.db/id :hello-entity, :first-name \"Hello\", :last-name \"World\", }";

#[test]
fn put_without_valid_time() {
    let action: Action = Action::put(text(PERSON));
    assert_eq!(action, Action::Put(text(PERSON), None));
    assert_eq!(
        action.serialize(),
        "[:crux.tx/put { :crux.db/id :hello-entity, :first-name \"Hello\", :last-name \"World\", }]"
    );
}

#[test]
fn put_with_valid_time() {
    let action: Action = Action::put(text("{:crux.db/id :a}")).with_valid_date(at(1_417_240_809, -32_400));
    assert_eq!(
        action.serialize(),
        "[:crux.tx/put {:crux.db/id :a} #inst \"2014-11-28T21:00:09-09:00\"]"
    );
}

#[test]
fn put_with_valid_time_is_written_with_the_zone() {
    let date: Timestamp = at(1_594_936_394, 19_800);
    let rendered: String = Action::Put(text("{}"), Some(date)).serialize();
    assert_eq!(rendered, "[:crux.tx/put {} #inst \"2020-07-17T03:23:14+05:30\"]");
    assert_eq!(rendered, format!("[:crux.tx/put {{}} #inst \"{}\"]", date.format_action()));
    assert_ne!(rendered, format!("[:crux.tx/put {{}} #inst \"{}\"]", date.format_range()));
}

#[test]
fn delete_without_valid_time() {
    let action: Action = Action::delete(text(":hello-entity"));
    assert_eq!(action, Action::Delete(text(":hello-entity"), None));
    assert_eq!(action.serialize(), "[:crux.tx/delete :hello-entity]");
}

#[test]
fn delete_with_valid_time() {
    let action: Action = Action::delete(text(":hello-entity")).with_valid_date(at(1_594_936_394, 0));
    assert_eq!(
        action.serialize(),
        "[:crux.tx/delete :hello-entity #inst \"2020-07-16T21:53:14+00:00\"]"
    );
}

#[test]
fn evict_with_sigil() {
    let action: Action = Action::evict(text(":hello-entity"));
    assert_eq!(action, Action::Evict(text(":hello-entity")));
    assert_eq!(action.serialize(), "[:crux.tx/evict :hello-entity]");
}

#[test]
fn evict_without_sigil_has_no_text() {
    assert_eq!(Action::evict(text("hello-entity")).serialize(), "");
    assert_eq!(Action::evict(text("")).serialize(), "");
    assert_eq!(Action::evict(text(" :a")).serialize(), "");
    assert_eq!(Action::evict(text("é:a")).serialize(), "");
}

#[test]
fn evict_of_the_bare_sigil_has_a_text() {
    assert_eq!(Action::evict(text(":")).serialize(), "[:crux.tx/evict :]");
}

#[test]
fn evict_has_a_text_exactly_with_the_sigil() {
    let ids: [&str; 6] = [":a", "a", "", ":", "a:", "::"];
    for id in ids {
        let rendered: String = Action::evict(text(id)).serialize();
        assert_eq!(!rendered.is_empty(), id.starts_with(':'), "{}", id);
    }
}

#[test]
fn sigil_is_looked_for_at_the_front_only() {
    assert!(starts_with_sigil(":id"));
    assert!(starts_with_sigil(":"));
    assert!(!starts_with_sigil(""));
    assert!(!starts_with_sigil("id:"));
    assert!(!starts_with_sigil("ß:"));
}

#[test]
fn match_without_valid_time() {
    let action: Action = Action::match_doc(text(":hello-entity"), text(PERSON));
    assert_eq!(action, Action::Match(text(":hello-entity"), text(PERSON), None));
    assert_eq!(
        action.serialize(),
        format!("[:crux.tx/match {} {}]", ":hello-entity", PERSON)
    );
}

#[test]
fn match_text_is_keyword_identifier_and_document() {
    let pairs: [(&str, &str); 4] = [(":a", "{}"), ("", ""), (":x y", "{:k \"v\"}"), ("b", "[1 2]")];
    for (id, record) in pairs {
        let rendered: String = Action::Match(text(id), text(record), None).serialize();
        let expected: String = "[:crux.tx/match ".to_string() + id + " " + record + "]";
        assert_eq!(rendered, expected);
    }
}

#[test]
fn match_with_valid_time() {
    let action: Action =
        Action::match_doc(text(":a"), text("{:crux.db/id :a}")).with_valid_date(at(0, 3_600));
    assert_eq!(
        action.serialize(),
        "[:crux.tx/match :a {:crux.db/id :a} #inst \"1970-01-01T01:00:00+01:00\"]"
    );
}

#[test]
fn render_and_serialize_agree() {
    let action: Action = Action::Delete(text(":a"), Some(at(0, 0)));
    let by_reference: String = action.render();
    assert_eq!(by_reference, action.serialize());
}

#[test]
fn with_valid_date_sets_the_time_of_put_delete_and_match() {
    let date: Timestamp = at(1_594_936_394, 0);
    assert_eq!(
        Action::Put(text("{}"), None).with_valid_date(date),
        Action::Put(text("{}"), Some(date))
    );
    assert_eq!(
        Action::Delete(text(":a"), None).with_valid_date(date),
        Action::Delete(text(":a"), Some(date))
    );
    assert_eq!(
        Action::Match(text(":a"), text("{}"), None).with_valid_date(date),
        Action::Match(text(":a"), text("{}"), Some(date))
    );
}

#[test]
fn with_valid_date_replaces_an_earlier_time() {
    let first: Timestamp = at(1, 0);
    let second: Timestamp = at(2, 0);
    assert_eq!(
        Action::Put(text("{}"), Some(first)).with_valid_date(second),
        Action::Put(text("{}"), Some(second))
    );
}

#[test]
fn with_valid_date_leaves_evict_as_it_is() {
    let evict: Action = Action::evict(text(":a")).with_valid_date(at(1_594_936_394, 0));
    assert_eq!(evict, Action::Evict(text(":a")));
    assert_eq!(evict.serialize(), "[:crux.tx/evict :a]");
}

#[test]
fn new_batch_is_empty() {
    assert_eq!(Actions::new().build(), Vec::<Action>::new());
}

#[test]
fn batch_keeps_the_order_of_appends() {
    let actions: Vec<Action> = Actions::new()
        .append_put(text("{:crux.db/id :a}"))
        .append_delete(text(":b"))
        .append_evict(text(":c"))
        .build();
    assert_eq!(
        actions,
        vec![
            Action::Put(text("{:crux.db/id :a}"), None),
            Action::Delete(text(":b"), None),
            Action::Evict(text(":c")),
        ]
    );
}

#[test]
fn batch_appends_every_kind_of_action() {
    let date: Timestamp = at(1_594_936_394, 0);
    let actions: Vec<Action> = Actions::new()
        .append_put(text("{:crux.db/id :a}"))
        .append_put_timed(text("{:crux.db/id :b}"), date)
        .append_delete(text(":c"))
        .append_delete_timed(text(":d"), date)
        .append_evict(text(":e"))
        .append_match_doc(text(":f"), text("{:crux.db/id :f}"))
        .append_match_doc_timed(text(":g"), text("{:crux.db/id :g}"), date)
        .build();
    assert_eq!(
        actions,
        vec![
            Action::Put(text("{:crux.db/id :a}"), None),
            Action::Put(text("{:crux.db/id :b}"), Some(date)),
            Action::Delete(text(":c"), None),
            Action::Delete(text(":d"), Some(date)),
            Action::Evict(text(":e")),
            Action::Match(text(":f"), text("{:crux.db/id :f}"), None),
            Action::Match(text(":g"), text("{:crux.db/id :g}"), Some(date)),
        ]
    );
}

#[test]
fn batch_takes_the_same_action_twice() {
    let actions: Vec<Action> =
        Actions::new().append_evict(text(":a")).append_evict(text(":a")).build();
    assert_eq!(actions, vec![Action::Evict(text(":a")), Action::Evict(text(":a"))]);
}

#[test]
fn transaction_body_of_no_action() {
    assert_eq!(transaction_body(&Vec::new()), "[]");
}

#[test]
fn transaction_body_brackets_the_actions_in_order() {
    let actions: Vec<Action> = Actions::new()
        .append_put(text("{:crux.db/id :a}"))
        .append_delete(text(":b"))
        .append_evict(text(":c"))
        .build();
    assert_eq!(
        transaction_body(&actions),
        "[[:crux.tx/put {:crux.db/id :a}][:crux.tx/delete :b][:crux.tx/evict :c]]"
    );
}

#[test]
fn transaction_body_leaves_out_an_evict_without_sigil() {
    let actions: Vec<Action> =
        Actions::new().append_evict(text("a")).append_delete(text(":b")).build();
    assert_eq!(transaction_body(&actions), "[[:crux.tx/delete :b]]");
}
