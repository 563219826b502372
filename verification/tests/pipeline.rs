use sprout_worker::expand::PromptTemplate;
use sprout_worker::worker::start;
use sprout_worker::worker::step;
use sprout_worker::worker::Action;
use sprout_worker::worker::Config;
use sprout_worker::worker::Event;
use sprout_worker::worker::State;

fn make_config() -> Config {
    let template = PromptTemplate {
        before_title: String::from("Project idea: "),
        before_context: String::from("; context: "),
        missing_context: String::from("(none)"),
        after: String::from(". Answer with JSON only."),
    };
    Config::new(
        Some(String::from("http://store.local")),
        Some(String::from("SECRET-REDACTED")),
        Some(String::from("http://backend.local")),
        Some(String::from("test-model")),
        String::from("You are a JSON generator."),
        template,
        3,
    )
    .unwrap_or_else(|_| panic!("configuration should assemble"))
}

#[test]
fn empty_fetch_sleeps_long_and_patches_nothing() {
    let cfg = make_config();
    let (st, act) = start();
    assert!(matches!(st, State::Fetching));
    assert!(matches!(act, Action::Fetch));
    let (st, act) = step(&cfg, st, Event::FetchOk(String::from("[]")));
    assert!(matches!(st, State::Resting));
    match act {
        Action::Sleep { seconds } => assert_eq!(seconds, 3600),
        _ => panic!("an empty fetch must lead to a sleep, not an update"),
    }
}

#[test]
fn happy_cycle_issues_exactly_two_patches() {
    let cfg = make_config();
    let mut patches: Vec<(String, String)> = Vec::new();

    let (st, _act) = start();
    let fetched = String::from("[{\"id\":\"abc\",\"title\":\"Recipe app\",\"context\":null}]");
    let (st, act) = step(&cfg, st, Event::FetchOk(fetched));
    assert!(matches!(st, State::Claiming(_)));
    match &act {
        Action::Patch { id, body } => {
            patches.push((id.clone(), body.clone()));
            assert_eq!(id, "abc");
            assert_eq!(body, "{\"status\":\"processing\"}");
        }
        _ => panic!("a valid record must first be claimed"),
    }

    let (st, act) = step(&cfg, st, Event::PatchOk);
    assert!(matches!(st, State::Expanding(_)));
    match &act {
        Action::Expand { body } => {
            assert!(body.contains("Recipe app"));
            assert!(body.contains("(none)"));
            assert!(body.contains("\"model\":\"test-model\""));
            assert!(body.contains("\"temperature\":0.3"));
            assert!(body.contains("\"stream\":false"));
        }
        _ => panic!("a claimed seed must be sent for expansion"),
    }

    let chat = String::from(
        "{\"choices\":[{\"message\":{\"content\":\"{\\\"stacks\\\":[]}\"}}]}",
    );
    let (st, act) = step(&cfg, st, Event::ExpandOk(chat));
    assert!(matches!(st, State::Saving(_)));
    match &act {
        Action::Patch { id, body } => {
            patches.push((id.clone(), body.clone()));
            assert_eq!(id, "abc");
            assert_eq!(body, "{\"sprouts\":{\"stacks\":[]},\"status\":\"done\"}");
        }
        _ => panic!("a successful expansion must be stored"),
    }

    let (st, act) = step(&cfg, st, Event::PatchOk);
    assert!(matches!(st, State::Fetching));
    assert!(matches!(act, Action::Fetch));
    assert_eq!(patches.len(), 2);
}

#[test]
fn record_without_id_is_skipped_with_no_patch() {
    let cfg = make_config();
    let (st, _act) = start();
    let (st, act) = step(&cfg, st, Event::FetchOk(String::from("[{\"title\":\"X\"}]")));
    assert!(matches!(st, State::Fetching));
    assert!(matches!(act, Action::Fetch));
}

#[test]
fn fetch_transport_failure_rests_then_fetches_again() {
    let cfg = make_config();
    let (st, _act) = start();
    let (st, act) = step(&cfg, st, Event::FetchFailed);
    assert!(matches!(st, State::Resting));
    match act {
        Action::Sleep { seconds } => assert_eq!(seconds, 30),
        _ => panic!("a failed fetch must lead to a short sleep"),
    }
    let (st, act) = step(&cfg, st, Event::Slept);
    assert!(matches!(st, State::Fetching));
    assert!(matches!(act, Action::Fetch));
}

#[test]
fn expansion_transport_failure_marks_error_then_continues() {
    let cfg = make_config();
    let (st, _act) = start();
    let fetched = String::from("[{\"id\":\"s1\",\"title\":\"T\",\"context\":\"more\"}]");
    let (st, _act) = step(&cfg, st, Event::FetchOk(fetched));
    let (st, _act) = step(&cfg, st, Event::PatchOk);
    let (st, act) = step(&cfg, st, Event::ExpandFailed);
    assert!(matches!(st, State::MarkingError(_)));
    match &act {
        Action::Patch { id, body } => {
            assert_eq!(id, "s1");
            assert_eq!(body, "{\"status\":\"error\"}");
        }
        _ => panic!("a failed expansion must mark the seed errored"),
    }
    let (st, act) = step(&cfg, st, Event::PatchFailed);
    assert!(matches!(st, State::Fetching));
    assert!(matches!(act, Action::Fetch));
}

#[test]
fn missing_content_marks_error_with_one_patch() {
    let cfg = make_config();
    let (st, _act) = start();
    let fetched = String::from("[{\"id\":\"s2\",\"title\":\"T\"}]");
    let (st, _act) = step(&cfg, st, Event::FetchOk(fetched));
    let (st, _act) = step(&cfg, st, Event::PatchOk);
    let chat = String::from("{\"choices\":[{\"message\":{}}]}");
    let (st, act) = step(&cfg, st, Event::ExpandOk(chat));
    assert!(matches!(st, State::MarkingError(_)));
    match &act {
        Action::Patch { id, body } => {
            assert_eq!(id, "s2");
            assert_eq!(body, "{\"status\":\"error\"}");
        }
        _ => panic!("a shapeless response must mark the seed errored"),
    }
    let (st, act) = step(&cfg, st, Event::PatchOk);
    assert!(matches!(st, State::Fetching));
    assert!(matches!(act, Action::Fetch));
}

#[test]
fn round_trip_stores_the_canned_sprouts_verbatim() {
    let cfg = make_config();
    let canned = "{\"moscow\":{\"must\":[\"a\"]},\"stacks\":[\"x\",\"y\",\"z\"]}";
    let chat = format!(
        "{{\"choices\":[{{\"message\":{{\"content\":\"{}\"}}}}]}}",
        canned.replace('\\', "\\\\").replace('"', "\\\"")
    );
    let (st, _act) = start();
    let fetched = String::from("[{\"id\":\"rt\",\"title\":\"T\",\"context\":null}]");
    let (st, _act) = step(&cfg, st, Event::FetchOk(fetched));
    let (st, _act) = step(&cfg, st, Event::PatchOk);
    let (_st, act) = step(&cfg, st, Event::ExpandOk(chat));
    match &act {
        Action::Patch { id, body } => {
            assert_eq!(id, "rt");
            assert_eq!(body, &format!("{{\"sprouts\":{},\"status\":\"done\"}}", canned));
        }
        _ => panic!("a successful expansion must be stored"),
    }
}

#[test]
fn claim_patch_failure_marks_error() {
    let cfg = make_config();
    let (st, _act) = start();
    let fetched = String::from("[{\"id\":\"s3\",\"title\":\"T\"}]");
    let (st, _act) = step(&cfg, st, Event::FetchOk(fetched));
    let (st, act) = step(&cfg, st, Event::PatchFailed);
    assert!(matches!(st, State::MarkingError(_)));
    match &act {
        Action::Patch { id, body } => {
            assert_eq!(id, "s3");
            assert_eq!(body, "{\"status\":\"error\"}");
        }
        _ => panic!("a failed claim must mark the seed errored"),
    }
}
