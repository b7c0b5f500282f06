use clipboard_monitor::source::SourceApp;
use clipboard_monitor::tracker::{
    complete_frontmost_app, get_frontmost_app, Resolution, SourceTracker,
};

fn app(name: &str, icon: Option<&str>) -> SourceApp {
    SourceApp { name: name.to_string(), base64_icon: icon.map(|i| i.to_string()) }
}

#[test]
fn tracker_placeholder_is_app_without_icon() {
    assert_eq!(SourceApp::placeholder(), app("App", None));
    assert_eq!(SourceApp::new("Notes".to_string(), None), app("Notes", None));
}

#[test]
fn tracker_asks_for_the_icon_of_an_unknown_name() {
    let mut tracker = SourceTracker::new("briefcase");
    let decision = get_frontmost_app(&mut tracker, Some("Notes".to_string()), 0);
    assert_eq!(decision, Resolution::NeedsIcon("Notes".to_string()));
    assert_eq!(tracker.last_valid_source(), None);
}

#[test]
fn tracker_completes_with_the_extracted_icon() {
    let mut tracker = SourceTracker::new("briefcase");
    let source = complete_frontmost_app(&mut tracker, "Notes".to_string(), Some("icon".to_string()), 5);
    assert_eq!(source, app("Notes", Some("icon")));
    assert_eq!(tracker.last_valid_source(), Some(app("Notes", Some("icon"))));
    assert_eq!(tracker.cached_icon("Notes", 5), Some(Some("icon".to_string())));
}

#[test]
fn tracker_uses_the_cache_while_fresh() {
    let mut tracker = SourceTracker::new("briefcase");
    complete_frontmost_app(&mut tracker, "Notes".to_string(), Some("icon".to_string()), 0);
    complete_frontmost_app(&mut tracker, "Mail".to_string(), None, 1);
    let decision = get_frontmost_app(&mut tracker, Some("Notes".to_string()), 3_599_999);
    assert_eq!(decision, Resolution::Attributed(app("Notes", Some("icon"))));
    assert_eq!(tracker.last_valid_source(), Some(app("Notes", Some("icon"))));
    let decision = get_frontmost_app(&mut tracker, Some("Notes".to_string()), 3_600_000);
    assert_eq!(decision, Resolution::NeedsIcon("Notes".to_string()));
    assert_eq!(tracker.last_valid_source(), Some(app("Notes", Some("icon"))));
}

#[test]
fn tracker_caches_a_failed_extraction() {
    let mut tracker = SourceTracker::new("briefcase");
    let source = complete_frontmost_app(&mut tracker, "Ghost".to_string(), None, 0);
    assert_eq!(source, app("Ghost", None));
    let decision = get_frontmost_app(&mut tracker, Some("Ghost".to_string()), 10);
    assert_eq!(decision, Resolution::Attributed(app("Ghost", None)));
}

#[test]
fn tracker_substitutes_the_placeholder_for_itself_at_first() {
    let mut tracker = SourceTracker::new("briefcase");
    let decision = get_frontmost_app(&mut tracker, Some("briefcase".to_string()), 0);
    assert_eq!(decision, Resolution::Attributed(app("App", None)));
    assert_eq!(tracker.last_valid_source(), None);
}

#[test]
fn tracker_substitutes_the_last_valid_source_for_itself() {
    let mut tracker = SourceTracker::new("briefcase");
    complete_frontmost_app(&mut tracker, "Notes".to_string(), Some("n".to_string()), 0);
    complete_frontmost_app(&mut tracker, "Mail".to_string(), Some("m".to_string()), 1);
    let decision = get_frontmost_app(&mut tracker, Some("Briefcase".to_string()), 2);
    assert_eq!(decision, Resolution::Attributed(app("Mail", Some("m"))));
    let decision = get_frontmost_app(&mut tracker, Some("BRIEFCASE".to_string()), 3);
    assert_eq!(decision, Resolution::Attributed(app("Mail", Some("m"))));
    assert_eq!(tracker.last_valid_source(), Some(app("Mail", Some("m"))));
}

#[test]
fn tracker_recognises_itself_whatever_the_case() {
    let tracker = SourceTracker::new("BriefCase");
    assert!(tracker.is_self("briefcase"));
    assert!(tracker.is_self("BRIEFCASE"));
    assert!(tracker.is_self("BriefCase"));
    assert!(!tracker.is_self("briefcase "));
    assert!(!tracker.is_self("Notes"));
    assert!(!tracker.is_self(""));
}

#[test]
fn tracker_drops_an_icon_extracted_for_itself() {
    let mut tracker = SourceTracker::new("briefcase");
    complete_frontmost_app(&mut tracker, "Notes".to_string(), None, 0);
    let source = complete_frontmost_app(&mut tracker, "Briefcase".to_string(), Some("own".to_string()), 1);
    assert_eq!(source, app("Notes", None));
    assert_eq!(tracker.cached_icon("Briefcase", 1), None);
    assert_eq!(tracker.last_valid_source(), Some(app("Notes", None)));
}

#[test]
fn tracker_names_an_unresolved_application_app() {
    let mut tracker = SourceTracker::new("briefcase");
    assert_eq!(get_frontmost_app(&mut tracker, None, 0), Resolution::NeedsIcon("App".to_string()));
    assert_eq!(
        get_frontmost_app(&mut tracker, Some(String::new()), 0),
        Resolution::NeedsIcon("App".to_string())
    );
    let source = complete_frontmost_app(&mut tracker, "App".to_string(), None, 0);
    assert_eq!(source, app("App", None));
    assert_eq!(get_frontmost_app(&mut tracker, None, 1), Resolution::Attributed(app("App", None)));
}

#[test]
fn tracker_substitute_follows_the_last_valid_source() {
    let mut tracker = SourceTracker::new("briefcase");
    assert_eq!(tracker.substitute(), app("App", None));
    complete_frontmost_app(&mut tracker, "Notes".to_string(), Some("n".to_string()), 0);
    assert_eq!(tracker.substitute(), app("Notes", Some("n")));
}

#[test]
fn tracker_last_valid_source_is_never_cleared() {
    let mut tracker = SourceTracker::new("briefcase");
    complete_frontmost_app(&mut tracker, "Notes".to_string(), Some("n".to_string()), 0);
    let names = [Some("briefcase"), None, Some("Mail"), Some(""), Some("Notes"), Some("Briefcase")];
    let mut now = 1;
    for name in names {
        let decision = get_frontmost_app(&mut tracker, name.map(|n| n.to_string()), now);
        if let Resolution::NeedsIcon(wanted) = decision {
            complete_frontmost_app(&mut tracker, wanted, None, now);
        }
        let kept = tracker.last_valid_source().expect("a source stays remembered");
        assert!(!tracker.is_self(&kept.name));
        now += 1;
    }
}
