use vac::app::SortOrder;
use vac::cli::{Cli, ScanTarget};

#[test]
fn scan_target_parses_preset() {
    let target: ScanTarget = "preset".parse().unwrap();
    assert!(matches!(target, ScanTarget::Preset));
}

#[test]
fn scan_target_parses_home() {
    let target: ScanTarget = "home".parse().unwrap();
    assert!(matches!(target, ScanTarget::Home));
}

#[test]
fn scan_target_parses_absolute_path() {
    let target: ScanTarget = "/tmp/test".parse().unwrap();
    match target {
        ScanTarget::Path(p) => assert_eq!(p, "/tmp/test".to_string()),
        _ => panic!("expected Path variant"),
    }
}

#[test]
fn scan_target_parses_tilde_path() {
    let target: ScanTarget = "~/Documents".parse().unwrap();
    match target {
        ScanTarget::Path(p) => {
            let path_str = p.to_string();
            assert!(!path_str.starts_with('~'));
            assert!(path_str.ends_with("Documents"));
        }
        _ => panic!("expected Path variant"),
    }
}

#[test]
fn scan_target_with_given_home() {
    assert!(matches!(ScanTarget::parse_with("preset", Some("/h")), ScanTarget::Preset));
    assert!(matches!(ScanTarget::parse_with("home", None), ScanTarget::Home));
    match ScanTarget::parse_with("~/x", Some("/home/bob")) {
        ScanTarget::Path(p) => assert_eq!(p, "/home/bob/x"),
        _ => panic!("expected Path variant"),
    }
    match ScanTarget::parse_with("Preset", None) {
        ScanTarget::Path(p) => assert_eq!(p, "Preset"),
        _ => panic!("expected Path variant"),
    }
    assert_eq!(ScanTarget::Preset.name(), "preset");
    assert_eq!(ScanTarget::Home.name(), "home");
    assert_eq!(ScanTarget::Path("/x/y".to_string()).name(), "/x/y");
    assert!(matches!(ScanTarget::Home.clone(), ScanTarget::Home));
}

fn cli(scan: Option<ScanTarget>, sort: &str) -> Cli {
    Cli { scan, dry_run: false, clean: false, output: None, sort: sort.to_string(), trash: false }
}

#[test]
fn only_a_scan_makes_the_run_non_interactive() {
    assert!(!cli(None, "size").is_non_interactive());
    assert!(cli(Some(ScanTarget::Preset), "size").is_non_interactive());
    assert!(cli(Some(ScanTarget::Path("/tmp".to_string())), "size").is_non_interactive());
}

#[test]
fn sort_word_names_the_order() {
    assert_eq!(cli(None, "name").sort_order(), SortOrder::ByName);
    assert_eq!(cli(None, "time").sort_order(), SortOrder::ByTime);
    assert_eq!(cli(None, "size").sort_order(), SortOrder::BySize);
    assert_eq!(cli(None, "whatever").sort_order(), SortOrder::BySize);
}

#[test]
fn trash_and_clean_flags_combine() {
    let mut args = cli(Some(ScanTarget::Preset), "size");
    assert!(!args.use_trash(false));
    assert!(args.use_trash(true));
    assert!(!args.will_clean());
    args.clean = true;
    args.trash = true;
    assert!(args.use_trash(false));
    assert!(args.will_clean());
    args.dry_run = true;
    assert!(!args.will_clean());
}
