use softshell::config::{
    candidates, find_config, history_file_default, history_location, modules_path_default,
    search_path, HistoryLocation,
};

#[test]
fn candidates_are_in_priority_order() {
    assert_eq!(
        candidates(),
        vec![
            "config.lua".to_string(),
            ".config.lua".to_string(),
            ".sfshrc.lua".to_string(),
            ".sfshrc".to_string(),
            ".sfsh.rc".to_string(),
        ]
    );
}

#[test]
fn first_existing_candidate_wins() {
    assert_eq!(
        find_config(&vec![true, true, true, true, true]),
        Some("config.lua".to_string())
    );
    assert_eq!(
        find_config(&vec![false, true, false, true, false]),
        Some(".config.lua".to_string())
    );
    assert_eq!(
        find_config(&vec![false, false, true, false, true]),
        Some(".sfshrc.lua".to_string())
    );
    assert_eq!(
        find_config(&vec![false, false, false, true, true]),
        Some(".sfshrc".to_string())
    );
    assert_eq!(
        find_config(&vec![false, false, false, false, true]),
        Some(".sfsh.rc".to_string())
    );
}

#[test]
fn no_existing_candidate_gives_nothing() {
    assert_eq!(find_config(&vec![false, false, false, false, false]), None);
    assert_eq!(find_config(&vec![]), None);
}

#[test]
fn flags_without_a_candidate_are_ignored() {
    assert_eq!(find_config(&vec![false, false, false, false, false, true]), None);
    assert_eq!(find_config(&vec![false, true]), Some(".config.lua".to_string()));
}

#[test]
fn defaults_hold_without_a_configuration() {
    assert_eq!(modules_path_default(), "./modules");
    assert_eq!(history_file_default(), "~/.sfsh_history");
}

#[test]
fn search_path_puts_the_module_directory_first() {
    assert_eq!(search_path("./modules", "/usr/?.lua;./?.lua"), "./modules/?.lua;/usr/?.lua;./?.lua");
    assert_eq!(search_path("", ""), "/?.lua;");
}

#[test]
fn history_under_home_is_resolved() {
    assert_eq!(
        history_location("~/.sfsh_history", Some("/home/u".to_string())),
        HistoryLocation::UnderHome { home: "/home/u".to_string(), rest: ".sfsh_history".to_string() }
    );
    assert_eq!(
        history_location("~/", Some("/home/u".to_string())),
        HistoryLocation::UnderHome { home: "/home/u".to_string(), rest: "".to_string() }
    );
}

#[test]
fn history_under_unknown_home_falls_back() {
    assert_eq!(
        history_location("~/x/y", None),
        HistoryLocation::Fallback(".sfsh_history".to_string())
    );
}

#[test]
fn history_elsewhere_is_taken_as_given() {
    assert_eq!(
        history_location("/var/hist", Some("/home/u".to_string())),
        HistoryLocation::AsGiven("/var/hist".to_string())
    );
    assert_eq!(history_location("~", None), HistoryLocation::AsGiven("~".to_string()));
    assert_eq!(history_location("~x/y", None), HistoryLocation::AsGiven("~x/y".to_string()));
    assert_eq!(history_location("", None), HistoryLocation::AsGiven("".to_string()));
}
